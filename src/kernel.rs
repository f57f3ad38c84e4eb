//! The kernel's state, owned in one place, and the boot sequence that sets it up.
use vstd::prelude::*;
use crate::disk::{BLOCK_SIZE, DISK_SECTORS, DiskDriver};
use crate::exception::{MACHINE_INTERRUPTS, init_exception_handling};
use crate::fat::{FatFileSystem, boot_sector_valid};
use crate::memory::{Allocator, HeapView, PAGE_SIZE};
use crate::paging::{
    PAGE_TABLE_ENTRIES, PageTableEntry, VirtualMemoryManager, map_in, map_range, page_count,
    unmap_in, unmap_range,
};
use crate::process::{MAX_PROCESSES, Process, Scheduler, fresh_process, init_scheduler};
use crate::riscv::{Csrs, MSTATUS_MIE, bit_set};
use crate::syscall::{SyscallHandler, init_syscalls};
use crate::usermode::{UserModeManager, UserProgram};

verus! {

/// Start of the kernel heap.
pub const HEAP_START: usize = 0x20000000;
/// Size of the kernel heap: one mebibyte.
pub const HEAP_SIZE: usize = 0x100000;
/// Size of the block allocated at boot to check the arena.
pub const BOOT_PROBE_SIZE: usize = 1024;
/// Stack size of the processes created at boot.
pub const BOOT_STACK_SIZE: usize = 4096;
/// The range mapped and unmapped at boot to check the translation table.
pub const BOOT_MAP_VADDR: usize = 0x10000000;
pub const BOOT_MAP_PADDR: usize = 0x20000000;
/// Read, write and execute.
pub const BOOT_MAP_FLAGS: usize = 0x7;

/// Everything the kernel owns: the hart's control registers and each component's state.
pub struct Kernel {
    pub hw: Csrs,
    pub allocator: Allocator,
    pub scheduler: Scheduler,
    pub vmm: VirtualMemoryManager,
    pub user_mode: UserModeManager,
    pub syscalls: SyscallHandler,
    pub disk: DiskDriver,
    pub fs: FatFileSystem,
}

/// Boots the kernel on a hart whose registers read `hw`, with the trap entry at
/// `trap_vector`: installs trap handling, sets up the heap and probes it with one
/// allocation, creates two processes, sets up the translation table and maps and unmaps
/// one page through it, registers the built-in user programs, brings up the disk whose
/// storage window is `device` and mounts the file system on it.
pub fn init(hw: Csrs, trap_vector: usize, device: &[u8]) -> (r: Kernel)
    requires
        device@.len() >= DISK_SECTORS * BLOCK_SIZE,
    ensures
        r.hw.mtvec == trap_vector,
        r.hw.mie == hw.mie | MACHINE_INTERRUPTS,
        bit_set(r.hw.mstatus, MSTATUS_MIE),
        r.hw.mstatus & !MSTATUS_MIE == hw.mstatus & !MSTATUS_MIE,
        r.allocator@ == (HeapView {
            start: HEAP_START as int,
            end: HEAP_START + HEAP_SIZE,
            next: HEAP_START + BOOT_PROBE_SIZE + 2 * BOOT_STACK_SIZE + PAGE_SIZE,
        }),
        r.scheduler@.wf(),
        r.scheduler@.slots == Seq::new(MAX_PROCESSES as nat, |i: int| None::<Process>).update(
            0,
            Some(fresh_process(1, HEAP_START + BOOT_PROBE_SIZE, BOOT_STACK_SIZE)),
        ).update(
            1,
            Some(fresh_process(2, HEAP_START + BOOT_PROBE_SIZE + BOOT_STACK_SIZE, BOOT_STACK_SIZE)),
        ),
        r.scheduler@.current is None,
        r.scheduler@.next_pid == 3,
        r.vmm.root_page_table matches Some(t) && t.entries@ == Seq::new(
            PAGE_TABLE_ENTRIES as nat,
            |i: int| PageTableEntry { pte: 0 },
        ).update(0, PageTableEntry { pte: 0x20000006 }),
        r.user_mode.current_user_context is None,
        r.user_mode.user_programs@[0] == Some(
            UserProgram { name: "hello", entry_point: 0x1000000, stack_size: 4096 },
        ),
        r.user_mode.user_programs@[1] == Some(
            UserProgram { name: "test", entry_point: 0x1001000, stack_size: 4096 },
        ),
        forall|i: int| 2 <= i < 8 ==> r.user_mode.user_programs@[i] is None,
        r.syscalls.syscall_count == 0,
        r.disk.initialized,
        r.disk.sector_count == DISK_SECTORS,
        r.fs.initialized == boot_sector_valid(device@.subrange(0, 512)),
        r.fs.initialized ==> r.fs.parsed_from_boot_sector() && r.fs.mounted_tables(),
{
    let mut hw = hw;
    init_exception_handling(&mut hw, trap_vector);

    let mut allocator = Allocator::new();
    allocator.init(HEAP_START, HEAP_SIZE);
    let _probe = allocator.allocate(BOOT_PROBE_SIZE);

    let mut scheduler = init_scheduler();
    assert(scheduler@.first_free(0));
    let _first = scheduler.create_process(&mut allocator, BOOT_STACK_SIZE);
    assert(scheduler@.first_free(1));
    let _second = scheduler.create_process(&mut allocator, BOOT_STACK_SIZE);

    let mut vmm = VirtualMemoryManager::new();
    if vmm.init(&mut allocator) {
        vmm.map_memory(BOOT_MAP_VADDR, BOOT_MAP_PADDR, BOOT_STACK_SIZE, BOOT_MAP_FLAGS);
        vmm.unmap_memory(BOOT_MAP_VADDR, BOOT_STACK_SIZE);
    }
    proof {
        let v = BOOT_MAP_VADDR;
        let p = BOOT_MAP_PADDR;
        let f = BOOT_MAP_FLAGS;
        assert((v >> 12usize) & 0x1FFusize == 0) by (bit_vector)
            requires
                v == 0x10000000usize,
        ;
        assert(((((p & !0xFFFusize) | (f & 0xFFFusize)) | 1usize) & !1usize) == 0x20000006usize)
            by (bit_vector)
            requires
                p == 0x20000000usize,
                f == 7usize,
        ;
        assert(page_count(4096) == 1);
        let zero = Seq::new(PAGE_TABLE_ENTRIES as nat, |i: int| PageTableEntry { pte: 0 });
        assert(map_range(zero, v, p, f, 0) == zero);
        assert(map_range(zero, v, p, f, 1) == map_in(zero, v, p, f));
        let mapped = map_in(zero, v, p, f);
        assert(unmap_range(mapped, v, 0) == mapped);
        assert(unmap_range(mapped, v, 1) == unmap_in(mapped, v));
        assert(unmap_in(mapped, v) =~= zero.update(0, PageTableEntry { pte: 0x20000006 }));
    }

    let mut user_mode = UserModeManager::new();
    user_mode.init();
    let syscalls = init_syscalls();

    let mut disk = DiskDriver::new();
    disk.init();
    let mut fs = FatFileSystem::new();
    fs.init(&disk, device);
    Kernel { hw, allocator, scheduler, vmm, user_mode, syscalls, disk, fs }
}

} // verus!
