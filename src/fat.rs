//! A small read-only FAT16 catalog: boot-sector parsing, a root directory and file handles.
use vstd::prelude::*;
use vstd::string::StringSliceAdditionalSpecFns;
use vstd::utf8::valid_utf8;
use crate::disk::{BLOCK_SIZE, DiskDriver, DiskResult, transfer_check};
use crate::string::strcmp;

verus! {

pub const FAT_SIGNATURE: usize = 0xAA55;
pub const BOOT_SECTOR_SIZE: usize = 512;
pub const FAT_TABLE_ENTRIES: usize = 1024;
pub const ROOT_DIR_ENTRIES: usize = 512;
pub const DIR_ENTRY_SIZE: usize = 32;
/// Sectors taken by the root directory: 512 entries of 32 bytes.
pub const ROOT_DIR_SECTORS: usize = 32;

pub const ATTR_READ_ONLY: u8 = 0x01;
pub const ATTR_HIDDEN: u8 = 0x02;
pub const ATTR_SYSTEM: u8 = 0x04;
pub const ATTR_VOLUME_ID: u8 = 0x08;
pub const ATTR_DIRECTORY: u8 = 0x10;
pub const ATTR_ARCHIVE: u8 = 0x20;

/// First name byte of a deleted directory entry.
pub const DELETED_ENTRY: u8 = 0xE5;

#[derive(Debug, Clone, Copy, PartialEq, Eq, Structural)]
pub enum FileType {
    Regular,
    Directory,
    Unknown,
}

/// A directory entry: an 8.3 name padded with spaces, attributes, size and first cluster.
#[derive(Debug, Clone, Copy)]
pub struct FileInfo {
    pub name: [u8; 11],
    pub attributes: u8,
    pub size: u32,
    pub first_cluster: u16,
    pub file_type: FileType,
}

impl FileInfo {
    /// An unused entry: all-zero name, no attributes.
    pub fn new() -> (r: Self)
        ensures
            forall|i: int| 0 <= i < 11 ==> r.name@[i] == 0,
            r.attributes == 0,
            r.size == 0,
            r.first_cluster == 0,
            r.file_type == FileType::Unknown,
    {
        Self { name: [0u8; 11], attributes: 0, size: 0, first_cluster: 0, file_type: FileType::Unknown }
    }

    pub fn is_directory(&self) -> (r: bool)
        ensures
            r == (self.attributes & ATTR_DIRECTORY != 0),
    {
        (self.attributes & ATTR_DIRECTORY) != 0
    }

    /// Neither a directory nor a volume label.
    pub fn is_regular_file(&self) -> (r: bool)
        ensures
            r == (self.attributes & ATTR_DIRECTORY == 0 && self.attributes & ATTR_VOLUME_ID == 0),
    {
        !self.is_directory() && (self.attributes & ATTR_VOLUME_ID) == 0
    }

    /// Whether the entry holds a file: its name neither starts with zero nor is marked deleted.
    pub open spec fn in_use(self) -> bool {
        self.name@[0] != 0 && self.name@[0] != DELETED_ENTRY
    }
}

pub struct FileHandle {
    pub file_info: FileInfo,
    pub current_position: usize,
    pub open: bool,
}

impl FileHandle {
    /// A closed handle at position zero on an unused entry.
    pub fn new() -> (r: Self)
        ensures
            r.current_position == 0,
            !r.open,
            r.file_info.attributes == 0,
            r.file_info.size == 0,
    {
        Self { file_info: FileInfo::new(), current_position: 0, open: false }
    }
}

/// The little-endian 16-bit value at byte `i` of `b`.
pub open spec fn le16(b: Seq<u8>, i: int) -> int {
    b[i] as int + 256 * b[i + 1] as int
}

/// A boot sector is accepted when it ends in the FAT signature and its sector counts leave
/// room for the boot sector, the FAT and the root directory.
pub open spec fn boot_sector_valid(b: Seq<u8>) -> bool {
    &&& le16(b, 510) == FAT_SIGNATURE
    &&& le16(b, 19) >= 1 + le16(b, 22) + ROOT_DIR_SECTORS
}

/// The name bytes of the sample entries created at mount time.
pub open spec fn hello_name() -> Seq<u8> {
    seq![72u8, 69, 76, 76, 79, 32, 32, 32, 84, 88, 84]
}

pub open spec fn testdir_name() -> Seq<u8> {
    seq![84u8, 69, 83, 84, 32, 32, 32, 32, 68, 73, 82]
}

/// The base name (first eight bytes) of `e` as a string matches `filename`: equal bytes, or,
/// when the base name is not valid UTF-8, an empty `filename`.
pub open spec fn name_matches(e: FileInfo, filename: Seq<u8>) -> bool {
    let base = e.name@.subrange(0, 8);
    if valid_utf8(base) {
        base == filename
    } else {
        filename.len() == 0
    }
}

pub open spec fn entry_opens(e: FileInfo, filename: Seq<u8>) -> bool {
    e.in_use() && name_matches(e, filename)
}

/// The entries of `dir` below `n` that are in use, with their indexes.
pub open spec fn listed_entries(dir: Seq<FileInfo>, n: nat) -> Seq<(usize, FileInfo)>
    decreases n,
{
    if n == 0 {
        Seq::empty()
    } else {
        let k = n - 1;
        let rest = listed_entries(dir, k as nat);
        if dir[k].in_use() {
            rest.push((k as usize, dir[k]))
        } else {
            rest
        }
    }
}

/// The byte that the simulated file content holds at offset `i` of a read.
pub open spec fn content_byte(i: int) -> u8 {
    (65 + i % 26) as u8
}

/// Relies on core::str::from_utf8: it succeeds exactly on valid UTF-8, and the string it
/// returns has the given bytes.
#[verifier::external_body]
fn str_from_utf8(bytes: &[u8]) -> (r: Option<&str>)
    ensures
        r is Some <==> valid_utf8(bytes@),
        r matches Some(s) ==> s.spec_bytes() == bytes@,
{
    core::str::from_utf8(bytes).ok()
}

pub struct FatFileSystem {
    pub boot_sector: [u8; 512],
    pub fat_table: [u16; 1024],
    pub root_directory: [FileInfo; 512],
    pub initialized: bool,
    pub total_sectors: usize,
    pub sectors_per_cluster: usize,
    pub fat_sectors: usize,
    pub root_dir_sectors: usize,
    pub data_sectors: usize,
}

impl FatFileSystem {
    /// An unmounted file system: everything zero.
    pub fn new() -> (r: Self)
        ensures
            !r.initialized,
            r.total_sectors == 0,
            forall|i: int| 0 <= i < ROOT_DIR_ENTRIES ==> !(#[trigger] r.root_directory@[i]).in_use(),
    {
        let empty = FileInfo::new();
        Self {
            boot_sector: [0u8; 512],
            fat_table: [0u16; 1024],
            root_directory: [empty; 512],
            initialized: false,
            total_sectors: 0,
            sectors_per_cluster: 0,
            fat_sectors: 0,
            root_dir_sectors: 0,
            data_sectors: 0,
        }
    }

    /// Mounts the file system: reads sector zero of `disk` into the boot sector, checks and
    /// parses it, marks the FAT unused and loads the root directory. `false` when the read
    /// fails or the boot sector is not accepted.
    pub fn init(&mut self, disk: &DiskDriver, device: &[u8]) -> (r: bool)
        requires
            device@.len() >= disk.sector_count * BLOCK_SIZE,
        ensures
            r == (transfer_check(*disk, 0, BOOT_SECTOR_SIZE as int) == DiskResult::Success
                && boot_sector_valid(device@.subrange(0, BOOT_SECTOR_SIZE as int))),
            r ==> final(self).initialized && final(self).boot_sector@ == device@.subrange(
                0,
                BOOT_SECTOR_SIZE as int,
            ) && final(self).parsed_from_boot_sector() && final(self).mounted_tables(),
            !r ==> final(self).initialized == old(self).initialized,
    {
        let read = disk.read_block(0, &mut self.boot_sector, device);
        if read != DiskResult::Success {
            return false;
        }
        assert(self.boot_sector@ =~= self.boot_sector@.subrange(0, BOOT_SECTOR_SIZE as int));
        if !self.parse_boot_sector() {
            return false;
        }
        self.load_fat_table();
        self.load_root_directory();
        self.initialized = true;
        true
    }

    /// The geometry fields agree with the boot sector.
    pub open spec fn parsed_from_boot_sector(self) -> bool {
        let b = self.boot_sector@;
        &&& self.total_sectors == le16(b, 19)
        &&& self.sectors_per_cluster == b[13]
        &&& self.fat_sectors == le16(b, 22)
        &&& self.root_dir_sectors == ROOT_DIR_SECTORS
        &&& self.data_sectors == le16(b, 19) - 1 - le16(b, 22) - ROOT_DIR_SECTORS
    }

    /// The FAT is all unused, and the root directory holds the two sample entries.
    pub open spec fn mounted_tables(self) -> bool {
        &&& forall|i: int| 0 <= i < FAT_TABLE_ENTRIES ==> self.fat_table@[i] == 0xFFFF
        &&& self.holds_samples()
    }

    /// The first two directory slots hold HELLO.TXT (13 bytes, cluster 2) and the
    /// directory TEST.DIR (cluster 3).
    pub open spec fn holds_samples(self) -> bool {
        &&& self.root_directory@[0].name@ == hello_name()
        &&& self.root_directory@[0].attributes == ATTR_ARCHIVE
        &&& self.root_directory@[0].size == 13
        &&& self.root_directory@[0].first_cluster == 2
        &&& self.root_directory@[0].file_type == FileType::Regular
        &&& self.root_directory@[1].name@ == testdir_name()
        &&& self.root_directory@[1].attributes == ATTR_DIRECTORY
        &&& self.root_directory@[1].size == 0
        &&& self.root_directory@[1].first_cluster == 3
        &&& self.root_directory@[1].file_type == FileType::Directory
    }

    /// Checks the signature and the sector counts of the boot sector and fills in the
    /// geometry; `false`, with the geometry unchanged, when the sector is not accepted.
    fn parse_boot_sector(&mut self) -> (r: bool)
        ensures
            r == boot_sector_valid(old(self).boot_sector@),
            r ==> final(self).parsed_from_boot_sector(),
            final(self).boot_sector == old(self).boot_sector,
            final(self).fat_table == old(self).fat_table,
            final(self).root_directory == old(self).root_directory,
            final(self).initialized == old(self).initialized,
    {
        let signature = self.boot_sector[510] as usize + 256 * self.boot_sector[511] as usize;
        if signature != FAT_SIGNATURE {
            return false;
        }
        let total = self.boot_sector[19] as usize + 256 * self.boot_sector[20] as usize;
        let fat = self.boot_sector[22] as usize + 256 * self.boot_sector[23] as usize;
        if total < 1 + fat + ROOT_DIR_SECTORS {
            return false;
        }
        self.total_sectors = total;
        self.sectors_per_cluster = self.boot_sector[13] as usize;
        self.fat_sectors = fat;
        self.root_dir_sectors = (ROOT_DIR_ENTRIES * DIR_ENTRY_SIZE + BLOCK_SIZE - 1) / BLOCK_SIZE;
        self.data_sectors = total - 1 - fat - self.root_dir_sectors;
        true
    }

    /// Marks every FAT entry unused.
    fn load_fat_table(&mut self)
        ensures
            forall|i: int| 0 <= i < FAT_TABLE_ENTRIES ==> final(self).fat_table@[i] == 0xFFFF,
            final(self).boot_sector == old(self).boot_sector,
            final(self).root_directory == old(self).root_directory,
            final(self).total_sectors == old(self).total_sectors,
            final(self).sectors_per_cluster == old(self).sectors_per_cluster,
            final(self).fat_sectors == old(self).fat_sectors,
            final(self).root_dir_sectors == old(self).root_dir_sectors,
            final(self).data_sectors == old(self).data_sectors,
    {
        let mut i: usize = 0;
        while i < FAT_TABLE_ENTRIES
            invariant
                i <= FAT_TABLE_ENTRIES,
                forall|j: int| 0 <= j < i ==> self.fat_table@[j] == 0xFFFF,
                self.boot_sector == old(self).boot_sector,
                self.root_directory == old(self).root_directory,
                self.total_sectors == old(self).total_sectors,
                self.sectors_per_cluster == old(self).sectors_per_cluster,
                self.fat_sectors == old(self).fat_sectors,
                self.root_dir_sectors == old(self).root_dir_sectors,
                self.data_sectors == old(self).data_sectors,
            decreases FAT_TABLE_ENTRIES - i,
        {
            self.fat_table[i] = 0xFFFF;
            i += 1;
        }
    }

    /// Puts the two sample entries, HELLO.TXT (13 bytes) and the directory TEST.DIR, in
    /// the first two directory slots.
    fn load_root_directory(&mut self)
        ensures
            final(self).holds_samples(),
            final(self).boot_sector == old(self).boot_sector,
            final(self).fat_table == old(self).fat_table,
            final(self).total_sectors == old(self).total_sectors,
            final(self).sectors_per_cluster == old(self).sectors_per_cluster,
            final(self).fat_sectors == old(self).fat_sectors,
            final(self).root_dir_sectors == old(self).root_dir_sectors,
            final(self).data_sectors == old(self).data_sectors,
            forall|i: int|
                2 <= i < ROOT_DIR_ENTRIES ==> final(self).root_directory@[i]
                    == old(self).root_directory@[i],
    {
        let mut file_info = FileInfo::new();
        file_info.name = [72u8, 69, 76, 76, 79, 32, 32, 32, 84, 88, 84];
        file_info.attributes = ATTR_ARCHIVE;
        file_info.size = 13;
        file_info.first_cluster = 2;
        file_info.file_type = FileType::Regular;
        self.root_directory[0] = file_info;

        let mut dir_info = FileInfo::new();
        dir_info.name = [84u8, 69, 83, 84, 32, 32, 32, 32, 68, 73, 82];
        dir_info.attributes = ATTR_DIRECTORY;
        dir_info.size = 0;
        dir_info.first_cluster = 3;
        dir_info.file_type = FileType::Directory;
        self.root_directory[1] = dir_info;
        assert(self.root_directory@[0].name@ =~= hello_name());
        assert(self.root_directory@[1].name@ =~= testdir_name());
    }
    /// The directory entries in use, with their slot indexes, in slot order.
    pub fn list_directory(&self) -> (r: Vec<(usize, FileInfo)>)
        ensures
            r@ == listed_entries(self.root_directory@, ROOT_DIR_ENTRIES as nat),
    {
        let mut out: Vec<(usize, FileInfo)> = Vec::new();
        let mut i: usize = 0;
        while i < ROOT_DIR_ENTRIES
            invariant
                i <= ROOT_DIR_ENTRIES,
                out@ == listed_entries(self.root_directory@, i as nat),
            decreases ROOT_DIR_ENTRIES - i,
        {
            let entry = self.root_directory[i];
            if entry.name[0] != 0 && entry.name[0] != DELETED_ENTRY {
                out.push((i, entry));
            }
            i += 1;
        }
        out
    }

    /// Opens the first entry in use whose base name (its first eight bytes, as a string)
    /// equals `filename`; the handle starts open at position zero. `None` when no entry
    /// matches.
    pub fn open_file(&self, filename: &str) -> (r: Option<FileHandle>)
        ensures
            r is None <==> forall|i: int|
                0 <= i < ROOT_DIR_ENTRIES ==> !entry_opens(
                    #[trigger] self.root_directory@[i],
                    filename.spec_bytes(),
                ),
            r matches Some(h) ==> exists|i: int|
                0 <= i < ROOT_DIR_ENTRIES && entry_opens(self.root_directory@[i], filename.spec_bytes())
                    && (forall|j: int|
                    0 <= j < i ==> !entry_opens(
                        #[trigger] self.root_directory@[j],
                        filename.spec_bytes(),
                    )) && h.file_info == self.root_directory@[i] && h.current_position == 0
                    && h.open,
    {
        let mut i: usize = 0;
        while i < ROOT_DIR_ENTRIES
            invariant
                i <= ROOT_DIR_ENTRIES,
                forall|j: int|
                    0 <= j < i ==> !entry_opens(
                        #[trigger] self.root_directory@[j],
                        filename.spec_bytes(),
                    ),
            decreases ROOT_DIR_ENTRIES - i,
        {
            let entry = self.root_directory[i];
            if entry.name[0] != 0 && entry.name[0] != DELETED_ENTRY {
                let mut base: Vec<u8> = Vec::new();
                let mut k: usize = 0;
                while k < 8
                    invariant
                        k <= 8,
                        base@ == entry.name@.subrange(0, k as int),
                    decreases 8 - k,
                {
                    base.push(entry.name[k]);
                    k += 1;
                }
                let same = match str_from_utf8(base.as_slice()) {
                    Some(name) => strcmp(name, filename) == 0,
                    None => strcmp("", filename) == 0,
                };
                proof {
                    reveal_strlit("");
                    assert("".spec_bytes().len() == 0);
                }
                if same {
                    return Some(FileHandle { file_info: entry, current_position: 0, open: true });
                }
            }
            i += 1;
        }
        None
    }

    /// Reads from the handle's position into `buffer`: as many bytes as fit and as the file
    /// has left, zero on a closed handle. The content is simulated: byte `i` of a read is
    /// `'A' + i % 26`. The position advances by the count returned.
    pub fn read_file(&self, handle: &mut FileHandle, buffer: &mut [u8]) -> (r: usize)
        ensures
            ({
                let size = old(handle).file_info.size as int;
                let pos = old(handle).current_position as int;
                let left = if pos < size {
                    size - pos
                } else {
                    0
                };
                r == (if !old(handle).open {
                    0
                } else if old(buffer)@.len() < left {
                    old(buffer)@.len() as int
                } else {
                    left
                })
            }),
            *final(handle) == (FileHandle {
                current_position: (old(handle).current_position + r) as usize,
                ..*old(handle)
            }),
            final(buffer)@.len() == old(buffer)@.len(),
            forall|i: int| 0 <= i < r ==> final(buffer)@[i] == content_byte(i),
            forall|i: int| r <= i < old(buffer)@.len() ==> final(buffer)@[i] == old(buffer)@[i],
    {
        if !handle.open {
            return 0;
        }
        let size = handle.file_info.size as usize;
        let remaining = if handle.current_position < size {
            size - handle.current_position
        } else {
            0
        };
        let to_read = if buffer.len() < remaining {
            buffer.len()
        } else {
            remaining
        };
        if to_read == 0 {
            return 0;
        }
        let mut i: usize = 0;
        while i < to_read
            invariant
                i <= to_read,
                to_read <= buffer@.len(),
                buffer@.len() == old(buffer)@.len(),
                forall|j: int| 0 <= j < i ==> buffer@[j] == content_byte(j),
                forall|j: int| i <= j < buffer@.len() ==> buffer@[j] == old(buffer)@[j],
            decreases to_read - i,
        {
            buffer[i] = 65u8 + (i % 26) as u8;
            i += 1;
        }
        handle.current_position = handle.current_position + to_read;
        to_read
    }

    /// Closes the handle.
    pub fn close_file(&mut self, handle: &mut FileHandle)
        ensures
            *final(handle) == (FileHandle { open: false, ..*old(handle) }),
            *final(self) == *old(self),
    {
        if handle.open {
            handle.open = false;
        }
    }
}

} // verus!
