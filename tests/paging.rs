use rust_os::memory::Allocator;
use rust_os::paging::{PageTable, PageTableEntry, VirtualMemoryManager, PTE_R, PTE_W, PTE_X};

fn table() -> PageTable {
    let mut alloc = Allocator::new();
    alloc.init(0x80000000, 0x10000);
    PageTable::new(&mut alloc).unwrap()
}

#[test]
fn map_translate_unmap_round_trip() {
    let mut t = table();
    assert!(t.map_page(0x10000000, 0x20000000, PTE_R | PTE_W | PTE_X));
    assert_eq!(t.translate(0x10000000), Some(0x20000000));
    assert!(t.unmap_page(0x10000000));
    assert_eq!(t.translate(0x10000000), None);
}

#[test]
fn translation_keeps_page_offset() {
    let mut t = table();
    assert!(t.map_page(0x5000, 0x9000_0000, PTE_R));
    assert_eq!(t.translate(0x5abc), Some(0x9000_0abc));
    assert_eq!(t.translate(0x5fff), Some(0x9000_0fff));
    assert_eq!(t.translate(0x6000), None);
    let e = t.get_entry(5);
    assert!(e.is_valid());
    assert!(e.is_readable());
    assert!(!e.is_writable());
    assert_eq!(e.get_physical_address(), 0x9000_0000);
}

#[test]
fn index_uses_bits_20_to_12() {
    let mut t = table();
    // 0x200000 has index 0 again: the index wraps every 2 MiB
    assert!(t.map_page(0x200000, 0x3000, PTE_R));
    assert_eq!(t.translate(0x0), Some(0x3000));
    assert_eq!(t.translate(0x1ff123), None);
}

#[test]
fn unaligned_frame_address_is_truncated_to_its_page() {
    let mut t = table();
    assert!(t.map_page(0x1000, 0x4321, PTE_R));
    assert_eq!(t.translate(0x1010), Some(0x4010));
}

#[test]
fn every_index_fits_the_table() {
    let mut t = table();
    assert_eq!(t.entries.len(), 512);
    // the highest index, 511, is in range
    assert!(t.map_page(0x1ff000, 0x7000, PTE_R));
    assert_eq!(t.translate(0x1ff004), Some(0x7004));
    assert!(t.unmap_page(usize::MAX));
    assert_eq!(t.translate(usize::MAX), None);
    assert!(t.map_page(usize::MAX, 0x9000, PTE_R));
    assert_eq!(t.translate(usize::MAX), Some(0x9fff));
}

#[test]
fn unmap_keeps_address_and_flags() {
    let mut t = table();
    t.map_page(0x7000, 0xabc000, PTE_R | PTE_X);
    t.unmap_page(0x7000);
    let e = *t.get_entry(7);
    assert!(!e.is_valid());
    assert!(e.is_readable());
    assert!(e.is_executable());
    assert_eq!(e.get_physical_address(), 0xabc000);
}

#[test]
fn entry_setters_touch_one_field() {
    let mut e = PageTableEntry::new();
    assert_eq!(e.pte, 0);
    e.set_physical_address(0x1234_5678);
    assert_eq!(e.pte, 0x1234_5000);
    e.set_flags(0x1ff3);
    assert_eq!(e.pte, 0x1234_5ff3);
    e.set_valid(false);
    assert_eq!(e.pte, 0x1234_5ff2);
    e.set_readable(false);
    e.set_writable(false);
    e.set_executable(false);
    e.set_user_accessible(false);
    assert_eq!(e.pte, 0x1234_5fe0);
    assert!(!e.is_user_accessible());
    e.set_user_accessible(true);
    e.set_writable(true);
    assert_eq!(e.pte, 0x1234_5ff4);
    assert!(e.is_user_accessible() && e.is_writable());
    e.set_physical_address(0x9000);
    assert_eq!(e.pte, 0x9ff4);
}

#[test]
fn entry_mut_writes_into_table() {
    let mut t = table();
    t.get_entry_mut(3).set_valid(true);
    t.get_entry_mut(3).set_physical_address(0x8000);
    assert_eq!(t.translate(0x3004), Some(0x8004));
}

#[test]
fn table_needs_a_frame() {
    let mut alloc = Allocator::new();
    alloc.init(0, 4095);
    assert!(PageTable::new(&mut alloc).is_none());
    assert_eq!(alloc.available(), 4095);
    let mut alloc = Allocator::new();
    alloc.init(0, 4096);
    let t = PageTable::new(&mut alloc).unwrap();
    assert_eq!(t.entries.len(), 512);
    assert_eq!(alloc.available(), 0);
}

#[test]
fn memory_ranges_are_mapped_page_by_page() {
    let mut alloc = Allocator::new();
    alloc.init(0x80000000, 0x10000);
    let mut vmm = VirtualMemoryManager::new();
    assert!(!vmm.map_memory(0x10000000, 0x20000000, 4096, 0x7));
    assert!(vmm.init(&mut alloc));
    // 8193 bytes: two whole pages and one partial page, rounded up
    assert!(vmm.map_memory(0x10000000, 0x20000000, 8193, 0x7));
    let t = vmm.root_page_table.as_ref().unwrap();
    assert_eq!(t.translate(0x10000010), Some(0x20000010));
    assert_eq!(t.translate(0x10001010), Some(0x20001010));
    assert_eq!(t.translate(0x10002010), Some(0x20002010));
    assert_eq!(t.translate(0x10003010), None);
    assert!(vmm.unmap_memory(0x10001000, 4097));
    let t = vmm.root_page_table.as_ref().unwrap();
    assert_eq!(t.translate(0x10000010), Some(0x20000010));
    assert_eq!(t.translate(0x10001010), None);
    assert_eq!(t.translate(0x10002010), None);
}

#[test]
fn memory_range_past_address_space_is_refused() {
    let mut alloc = Allocator::new();
    alloc.init(0, 0x10000);
    let mut vmm = VirtualMemoryManager::new();
    assert!(vmm.init(&mut alloc));
    assert!(!vmm.map_memory(usize::MAX - 10, 0, 100, 0x7));
    assert!(!vmm.map_memory(0, usize::MAX - 10, 100, 0x7));
    assert!(!vmm.unmap_memory(usize::MAX, 2));
    assert!(vmm.map_memory(0x4000, 0x8000, 0, 0x7));
    let t = vmm.root_page_table.as_ref().unwrap();
    assert!(t.entries.iter().all(|e| e.pte == 0));
}

#[test]
fn vmm_without_table_or_memory() {
    let mut vmm = VirtualMemoryManager::new();
    assert!(!vmm.unmap_memory(0, 4096));
    let mut alloc = Allocator::new();
    assert!(!vmm.init(&mut alloc));
    assert!(vmm.root_page_table.is_none());
}
