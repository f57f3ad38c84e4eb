use rust_os::kernel::init;
use rust_os::memory::Allocator;
use rust_os::process::{ProcessState, Scheduler};
use rust_os::riscv::Csrs;
use rust_os::syscall::{
    console_target, init_syscalls, sys_exit, sys_getpid, sys_write, SyscallArgs, SyscallHandler,
    SYSCALL_ERROR, SYS_EXECVE, SYS_FORK, SYS_WAITPID,
};
use rust_os::usermode::UserContext;

fn args(num: usize, a0: usize, a1: usize, a2: usize) -> SyscallArgs {
    SyscallArgs { syscall_num: num, arg0: a0, arg1: a1, arg2: a2, arg3: 0, arg4: 0, arg5: 0 }
}

fn setup() -> (SyscallHandler, Scheduler, Allocator) {
    let mut alloc = Allocator::new();
    alloc.init(0x20000000, 0x10000);
    (SyscallHandler::new(), Scheduler::new(), alloc)
}

#[test]
fn write_to_console_returns_count() {
    let (mut h, mut s, mut a) = setup();
    assert_eq!(sys_write(&mut h, &mut s, &mut a, 1, 0x5000, 12), 12);
    assert_eq!(sys_write(&mut h, &mut s, &mut a, 2, 0x5000, 3), 3);
    assert_eq!(sys_write(&mut h, &mut s, &mut a, 3, 0x5000, 3), SYSCALL_ERROR);
    assert_eq!(h.syscall_count, 3);
    assert_eq!(console_target(&args(64, 1, 0x5000, 12)), Some((0x5000, 12)));
    assert_eq!(console_target(&args(64, 4, 0x5000, 12)), None);
    assert_eq!(console_target(&args(93, 1, 0x5000, 12)), None);
}

#[test]
fn exit_and_getpid() {
    let (mut h, mut s, mut a) = setup();
    s.create_process(&mut a, 64);
    s.create_process(&mut a, 64);
    // no current process: exit terminates nothing
    assert_eq!(sys_exit(&mut h, &mut s, &mut a, 3), 0);
    assert_eq!(s.list_processes().len(), 2);
    assert_eq!(s.schedule(), Some(1));
    assert_eq!(sys_exit(&mut h, &mut s, &mut a, 0), 0);
    let left: Vec<usize> = s.list_processes().iter().map(|p| p.pid).collect();
    assert_eq!(left, vec![2]);
    assert_eq!(s.current_pid(), None);
    assert_eq!(s.schedule(), Some(2));
    assert_eq!(sys_getpid(&mut h, &mut s, &mut a), 1);
    assert_eq!(h.syscall_count, 3);
}

#[test]
fn fork_creates_process() {
    let (mut h, mut s, mut a) = setup();
    assert_eq!(h.handle_syscall(&mut s, &mut a, args(SYS_FORK, 0, 0, 0)), 1);
    assert_eq!(h.handle_syscall(&mut s, &mut a, args(SYS_FORK, 0, 0, 0)), 2);
    assert_eq!(s.get_process(2).unwrap().stack_size, 4096);
    assert_eq!(s.get_process(2).unwrap().state, ProcessState::Ready);
    let mut tiny = Allocator::new();
    tiny.init(0, 100);
    assert_eq!(h.handle_syscall(&mut s, &mut tiny, args(SYS_FORK, 0, 0, 0)), SYSCALL_ERROR);
    assert_eq!(s.list_processes().len(), 2);
}

#[test]
fn other_syscalls() {
    let (mut h, mut s, mut a) = setup();
    assert_eq!(h.handle_syscall(&mut s, &mut a, args(SYS_EXECVE, 1, 2, 3)), SYSCALL_ERROR);
    assert_eq!(h.handle_syscall(&mut s, &mut a, args(SYS_WAITPID, 7, 0, 0)), 7);
    assert_eq!(h.handle_syscall(&mut s, &mut a, args(999, 0, 0, 0)), SYSCALL_ERROR);
    assert_eq!(h.syscall_count, 3);
    assert_eq!(init_syscalls().syscall_count, 0);
}

#[test]
fn arguments_come_from_a7_and_a0_to_a5() {
    let mut ctx = UserContext::new(0, 0);
    for r in 10..16 {
        ctx.set_register(r, r * 100);
    }
    ctx.set_register(17, 64);
    let a = SyscallArgs::from_registers(&ctx);
    assert_eq!(a.syscall_num, 64);
    assert_eq!((a.arg0, a.arg1, a.arg2, a.arg3, a.arg4, a.arg5), (1000, 1100, 1200, 1300, 1400, 1500));
}

#[test]
fn boot_sets_up_every_component() {
    let hw = Csrs { mstatus: 0, mepc: 0, mcause: 0, mtval: 0, mie: 0, mip: 0, mtvec: 0 };
    let mut device = vec![0u8; 1024 * 512];
    device[510] = 0x55;
    device[511] = 0xAA;
    device[19] = 0x00;
    device[20] = 0x08; // 2048 sectors
    device[22] = 0x10; // 16 FAT sectors
    device[13] = 4;
    let k = init(hw, 0x8000_0100, &device);
    assert!(k.fs.initialized);
    assert_eq!(k.fs.total_sectors, 2048);
    assert_eq!(k.fs.data_sectors, 2048 - 1 - 16 - 32);
    assert_eq!(k.disk.get_info(), (1024, 512));
    assert_eq!(k.hw.mtvec, 0x8000_0100);
    assert_eq!(k.hw.mie, 0x880);
    assert_eq!(k.hw.mstatus, 0x8);
    let pids: Vec<usize> = k.scheduler.list_processes().iter().map(|p| p.pid).collect();
    assert_eq!(pids, vec![1, 2]);
    assert_eq!(k.scheduler.get_process(1).unwrap().stack, 0x20000400);
    assert_eq!(k.allocator.available(), 0x100000 - 1024 - 3 * 4096);
    let t = k.vmm.root_page_table.as_ref().unwrap();
    assert_eq!(t.translate(0x10000000), None);
    assert_eq!(t.entries[0].pte, 0x20000006);
    assert_eq!(k.user_mode.list_programs(), vec![(0, "hello"), (1, "test")]);
    assert_eq!(k.syscalls.syscall_count, 0);
}

#[test]
fn boot_without_file_system() {
    let hw = Csrs { mstatus: 0, mepc: 0, mcause: 0, mtval: 0, mie: 0, mip: 0, mtvec: 0 };
    let device = vec![0u8; 1024 * 512];
    let k = rust_os::init(hw, 0, &device);
    assert!(!k.fs.initialized);
    assert!(k.disk.initialized);
    assert_eq!(k.scheduler.list_processes().len(), 2);
}
