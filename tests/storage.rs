use rust_os::disk::{DiskDriver, DiskResult};
use rust_os::fat::{FatFileSystem, FileHandle, FileInfo, FileType};
use rust_os::memory::Allocator;
use rust_os::process::Scheduler;
use rust_os::shell::{Command, Shell, ShellReply};

fn formatted_device() -> Vec<u8> {
    let mut device = vec![0u8; 1024 * 512];
    device[510] = 0x55;
    device[511] = 0xAA;
    device[19] = 0x00;
    device[20] = 0x04; // 1024 sectors
    device[22] = 0x08; // 8 FAT sectors
    device[13] = 1;
    device
}

fn mounted() -> FatFileSystem {
    let mut disk = DiskDriver::new();
    assert_eq!(disk.init(), DiskResult::Success);
    let mut fs = FatFileSystem::new();
    assert!(fs.init(&disk, &formatted_device()));
    fs
}

#[test]
fn disk_checks_requests() {
    let device = formatted_device();
    let mut buf = [7u8; 600];
    let mut disk = DiskDriver::new();
    assert_eq!(disk.get_info(), (0, 512));
    assert_eq!(disk.read_block(0, &mut buf, &device), DiskResult::Error);
    disk.init();
    assert_eq!(disk.read_block(1024, &mut buf, &device), DiskResult::InvalidSector);
    let mut small = [0u8; 100];
    assert_eq!(disk.read_block(0, &mut small, &device), DiskResult::Error);
    assert_eq!(buf, [7u8; 600]);
    assert_eq!(disk.read_block(0, &mut buf, &device), DiskResult::Success);
    assert_eq!(&buf[..512], &device[..512]);
    assert_eq!(&buf[512..], &[7u8; 88][..]);
}

#[test]
fn disk_write_then_read() {
    let mut device = vec![0u8; 1024 * 512];
    let mut disk = DiskDriver::new();
    disk.init();
    let block: Vec<u8> = (0..512).map(|i| (i % 251) as u8).collect();
    assert_eq!(disk.write_block(3, &block, &mut device), DiskResult::Success);
    assert_eq!(&device[3 * 512..4 * 512], &block[..]);
    assert!(device[..3 * 512].iter().all(|b| *b == 0));
    assert!(device[4 * 512..].iter().all(|b| *b == 0));
    let mut back = [0u8; 512];
    assert_eq!(disk.read_block(3, &mut back, &device), DiskResult::Success);
    assert_eq!(&back[..], &block[..]);
    assert_eq!(disk.write_block(5000, &block, &mut device), DiskResult::InvalidSector);
}

#[test]
fn mount_parses_boot_sector() {
    let fs = mounted();
    assert!(fs.initialized);
    assert_eq!(fs.total_sectors, 1024);
    assert_eq!(fs.sectors_per_cluster, 1);
    assert_eq!(fs.fat_sectors, 8);
    assert_eq!(fs.root_dir_sectors, 32);
    assert_eq!(fs.data_sectors, 1024 - 1 - 8 - 32);
    assert!(fs.fat_table.iter().all(|e| *e == 0xFFFF));
}

#[test]
fn mount_rejects_bad_boot_sector() {
    let mut disk = DiskDriver::new();
    disk.init();
    let mut device = formatted_device();
    device[511] = 0;
    let mut fs = FatFileSystem::new();
    assert!(!fs.init(&disk, &device));
    assert!(!fs.initialized);
    let mut device = formatted_device();
    device[20] = 0; // fewer sectors than the FAT and root directory need
    assert!(!fs.init(&disk, &device));
    let idle = DiskDriver::new();
    assert!(!fs.init(&idle, &formatted_device()));
}

#[test]
fn directory_listing() {
    let fs = mounted();
    let entries = fs.list_directory();
    assert_eq!(entries.len(), 2);
    assert_eq!(entries[0].0, 0);
    assert_eq!(&entries[0].1.name, b"HELLO   TXT");
    assert_eq!(entries[0].1.size, 13);
    assert!(entries[0].1.is_regular_file());
    assert_eq!(entries[1].0, 1);
    assert!(entries[1].1.is_directory());
    assert_eq!(entries[1].1.file_type, FileType::Directory);
    assert!(FatFileSystem::new().list_directory().is_empty());
}

#[test]
fn open_matches_padded_base_name() {
    let fs = mounted();
    assert!(fs.open_file("HELLO").is_none());
    let h = fs.open_file("HELLO   ").unwrap();
    assert!(h.open);
    assert_eq!(h.current_position, 0);
    assert_eq!(h.file_info.size, 13);
    assert!(fs.open_file("TEST    ").is_some());
    assert!(fs.open_file("").is_none());
}

#[test]
fn open_with_invalid_utf8_name_matches_empty() {
    let mut fs = mounted();
    let mut odd = FileInfo::new();
    odd.name = [0xC3, 0x28, b' ', b' ', b' ', b' ', b' ', b' ', b'B', b'I', b'N'];
    fs.root_directory[5] = odd;
    let h = fs.open_file("").unwrap();
    assert_eq!(h.file_info.name, odd.name);
}

#[test]
fn read_advances_and_stops_at_end() {
    let mut fs = mounted();
    let mut h = fs.open_file("HELLO   ").unwrap();
    let mut buf = [0u8; 10];
    assert_eq!(fs.read_file(&mut h, &mut buf), 10);
    assert_eq!(&buf, b"ABCDEFGHIJ");
    assert_eq!(h.current_position, 10);
    let mut buf = [0u8; 10];
    assert_eq!(fs.read_file(&mut h, &mut buf), 3);
    assert_eq!(&buf[..4], b"ABC\0");
    assert_eq!(fs.read_file(&mut h, &mut buf), 0);
    fs.close_file(&mut h);
    assert!(!h.open);
    h.current_position = 0;
    assert_eq!(fs.read_file(&mut h, &mut buf), 0);
    let mut closed = FileHandle::new();
    assert_eq!(fs.read_file(&mut closed, &mut buf), 0);
}

#[test]
fn read_pattern_wraps_after_z() {
    let fs = mounted();
    let mut h = FileHandle::new();
    h.open = true;
    h.file_info.size = 40;
    let mut buf = [0u8; 40];
    assert_eq!(fs.read_file(&mut h, &mut buf), 40);
    assert_eq!(buf[25], b'Z');
    assert_eq!(buf[26], b'A');
}

#[test]
fn file_info_kinds() {
    let mut f = FileInfo::new();
    assert!(f.is_regular_file());
    f.attributes = 0x08;
    assert!(!f.is_regular_file());
    assert!(!f.is_directory());
    f.attributes = 0x10;
    assert!(f.is_directory());
    assert!(!f.is_regular_file());
}

#[test]
fn commands_are_parsed_after_trimming() {
    assert!(matches!(Command::parse("  help \n"), Command::Help));
    assert!(matches!(Command::parse("list"), Command::List));
    assert!(matches!(Command::parse("\tcreate"), Command::Create));
    assert!(matches!(Command::parse("exit "), Command::Exit));
    assert!(matches!(Command::parse("   "), Command::Unknown("")));
    assert!(matches!(Command::parse("reboot"), Command::Unknown("unknown")));
    assert!(matches!(Command::parse("Help"), Command::Unknown("unknown")));
}

#[test]
fn shell_carries_out_commands() {
    let mut alloc = Allocator::new();
    alloc.init(0x20000000, 0x10000);
    let mut sched = Scheduler::new();
    let mut shell = Shell::new();
    assert!(shell.is_running());
    assert!(matches!(shell.execute_command(&mut sched, &mut alloc, "help"), ShellReply::Help));
    assert!(matches!(
        shell.execute_command(&mut sched, &mut alloc, "create"),
        ShellReply::Created(Some(1))
    ));
    match shell.execute_command(&mut sched, &mut alloc, " list ") {
        ShellReply::List(v) => assert_eq!(v.len(), 1),
        _ => panic!("expected a process list"),
    }
    assert!(matches!(
        shell.execute_command(&mut sched, &mut alloc, "bogus"),
        ShellReply::Unknown("unknown")
    ));
    assert!(shell.is_running());
    assert!(matches!(shell.execute_command(&mut sched, &mut alloc, "exit"), ShellReply::Goodbye));
    assert!(!shell.is_running());
    let mut tiny = Allocator::new();
    assert!(matches!(
        shell.execute_command(&mut sched, &mut tiny, "create"),
        ShellReply::Created(None)
    ));
}
