//! Single-level address translation: a flat table of 512 entries indexed by bits 20:12 of
//! the virtual address.
//!
//! An entry word is split in two fields: bits 11:0 hold the permission flags (valid, read,
//! write, execute, user, global, accessed, dirty, and four spare bits) and the remaining
//! high bits hold the physical frame address, which is page aligned.
use vstd::prelude::*;
use crate::memory::{Allocator, PAGE_SIZE};

verus! {

pub const PTE_V: usize = 0x1;
pub const PTE_R: usize = 0x2;
pub const PTE_W: usize = 0x4;
pub const PTE_X: usize = 0x8;
pub const PTE_U: usize = 0x10;
pub const PTE_G: usize = 0x20;
pub const PTE_A: usize = 0x40;
pub const PTE_D: usize = 0x80;

/// The flag field of an entry, and the offset of an address within its page.
pub const PTE_FLAG_MASK: usize = 0xFFF;
/// The frame address field of an entry, and the page of an address.
pub const PTE_ADDR_MASK: usize = !0xFFF;
pub const PAGE_SHIFT: usize = 12;
pub const VPN_MASK: usize = 0x1FF;
/// Number of entries in a table.
pub const PAGE_TABLE_ENTRIES: usize = 512;

#[derive(Debug, Clone, Copy)]
pub struct PageTableEntry {
    pub pte: usize,
}

impl PageTableEntry {
    pub open spec fn flag(self, mask: usize) -> bool {
        self.pte & mask != 0
    }
}

/// The table index of a virtual address: its bits 20:12.
pub open spec fn vpn_index(vaddr: usize) -> usize {
    (vaddr >> PAGE_SHIFT) & VPN_MASK
}

/// The entry that maps a page to the frame of `paddr` with the flag field `flags`, valid.
pub open spec fn mapped_entry(paddr: usize, flags: usize) -> PageTableEntry {
    PageTableEntry { pte: ((paddr & PTE_ADDR_MASK) | (flags & PTE_FLAG_MASK)) | PTE_V }
}

/// `e` with the valid bit cleared and everything else kept.
pub open spec fn invalidated(e: PageTableEntry) -> PageTableEntry {
    PageTableEntry { pte: e.pte & !PTE_V }
}

/// The physical address that `entries` give for `vaddr`: none when the index is out of the
/// table or the entry is not valid, otherwise the frame address with the page offset of
/// `vaddr`.
pub open spec fn translation(entries: Seq<PageTableEntry>, vaddr: usize) -> Option<usize> {
    let i = vpn_index(vaddr) as int;
    if i >= entries.len() {
        None
    } else if !entries[i].flag(PTE_V) {
        None
    } else {
        Some((entries[i].pte & PTE_ADDR_MASK) | (vaddr & PTE_FLAG_MASK))
    }
}

/// `entries` after mapping the page of `vaddr` to `paddr`.
pub open spec fn map_in(entries: Seq<PageTableEntry>, vaddr: usize, paddr: usize, flags: usize) -> Seq<
    PageTableEntry,
> {
    let i = vpn_index(vaddr) as int;
    if i < entries.len() {
        entries.update(i, mapped_entry(paddr, flags))
    } else {
        entries
    }
}

/// `entries` after unmapping the page of `vaddr`.
pub open spec fn unmap_in(entries: Seq<PageTableEntry>, vaddr: usize) -> Seq<PageTableEntry> {
    let i = vpn_index(vaddr) as int;
    if i < entries.len() {
        entries.update(i, invalidated(entries[i]))
    } else {
        entries
    }
}

/// Every virtual address has an index below the table size.
pub proof fn lemma_vpn_in_range(vaddr: usize)
    ensures
        vpn_index(vaddr) < PAGE_TABLE_ENTRIES,
{
    assert((vaddr >> 12usize) & 0x1FFusize < 512) by (bit_vector);
}

impl PageTableEntry {
    /// An empty entry: not valid, no flags, frame zero.
    pub fn new() -> (r: Self)
        ensures
            r.pte == 0,
    {
        Self { pte: 0 }
    }

    pub fn is_valid(&self) -> (r: bool)
        ensures
            r == self.flag(PTE_V),
    {
        (self.pte & PTE_V) != 0
    }

    pub fn is_readable(&self) -> (r: bool)
        ensures
            r == self.flag(PTE_R),
    {
        (self.pte & PTE_R) != 0
    }

    pub fn is_writable(&self) -> (r: bool)
        ensures
            r == self.flag(PTE_W),
    {
        (self.pte & PTE_W) != 0
    }

    pub fn is_executable(&self) -> (r: bool)
        ensures
            r == self.flag(PTE_X),
    {
        (self.pte & PTE_X) != 0
    }

    pub fn is_user_accessible(&self) -> (r: bool)
        ensures
            r == self.flag(PTE_U),
    {
        (self.pte & PTE_U) != 0
    }

    /// The frame address field.
    pub fn get_physical_address(&self) -> (r: usize)
        ensures
            r == self.pte & PTE_ADDR_MASK,
    {
        self.pte & PTE_ADDR_MASK
    }

    /// Puts the frame of `addr` in the address field; the flag field is kept.
    pub fn set_physical_address(&mut self, addr: usize)
        ensures
            final(self).pte & PTE_ADDR_MASK == addr & PTE_ADDR_MASK,
            final(self).pte & PTE_FLAG_MASK == old(self).pte & PTE_FLAG_MASK,
    {
        let updated = (self.pte & PTE_FLAG_MASK) | (addr & PTE_ADDR_MASK);
        let old_pte = self.pte;
        assert(updated & !0xFFFusize == addr & !0xFFFusize) by (bit_vector)
            requires
                updated == (old_pte & 0xFFFusize) | (addr & !0xFFFusize),
        ;
        assert(updated & 0xFFFusize == old_pte & 0xFFFusize) by (bit_vector)
            requires
                updated == (old_pte & 0xFFFusize) | (addr & !0xFFFusize),
        ;
        self.pte = updated;
    }

    /// Puts the low twelve bits of `flags` in the flag field; the address field is kept.
    pub fn set_flags(&mut self, flags: usize)
        ensures
            final(self).pte & PTE_ADDR_MASK == old(self).pte & PTE_ADDR_MASK,
            final(self).pte & PTE_FLAG_MASK == flags & PTE_FLAG_MASK,
    {
        let updated = (self.pte & PTE_ADDR_MASK) | (flags & PTE_FLAG_MASK);
        let old_pte = self.pte;
        assert(updated & !0xFFFusize == old_pte & !0xFFFusize) by (bit_vector)
            requires
                updated == (old_pte & !0xFFFusize) | (flags & 0xFFFusize),
        ;
        assert(updated & 0xFFFusize == flags & 0xFFFusize) by (bit_vector)
            requires
                updated == (old_pte & !0xFFFusize) | (flags & 0xFFFusize),
        ;
        self.pte = updated;
    }

    /// Sets or clears the bits of `mask`, keeping all others.
    fn set_bit(&mut self, mask: usize, on: bool)
        ensures
            on ==> final(self).pte & mask == mask,
            !on ==> final(self).pte & mask == 0,
            final(self).pte & !mask == old(self).pte & !mask,
    {
        proof {
            crate::riscv::lemma_mask_ops(self.pte, mask);
        }
        if on {
            self.pte = self.pte | mask;
        } else {
            self.pte = self.pte & !mask;
        }
    }

    pub fn set_valid(&mut self, valid: bool)
        ensures
            final(self).flag(PTE_V) == valid,
            final(self).pte & !PTE_V == old(self).pte & !PTE_V,
    {
        self.set_bit(PTE_V, valid);
    }

    pub fn set_readable(&mut self, readable: bool)
        ensures
            final(self).flag(PTE_R) == readable,
            final(self).pte & !PTE_R == old(self).pte & !PTE_R,
    {
        self.set_bit(PTE_R, readable);
    }

    pub fn set_writable(&mut self, writable: bool)
        ensures
            final(self).flag(PTE_W) == writable,
            final(self).pte & !PTE_W == old(self).pte & !PTE_W,
    {
        self.set_bit(PTE_W, writable);
    }

    pub fn set_executable(&mut self, executable: bool)
        ensures
            final(self).flag(PTE_X) == executable,
            final(self).pte & !PTE_X == old(self).pte & !PTE_X,
    {
        self.set_bit(PTE_X, executable);
    }

    pub fn set_user_accessible(&mut self, user: bool)
        ensures
            final(self).flag(PTE_U) == user,
            final(self).pte & !PTE_U == old(self).pte & !PTE_U,
    {
        self.set_bit(PTE_U, user);
    }
}

/// A translation table of `PAGE_TABLE_ENTRIES` entries, looked up by `vpn_index`; an index
/// at or beyond the table's capacity is a miss.
pub struct PageTable {
    pub entries: [PageTableEntry; 512],
}

impl PageTable {
    /// Reserves one frame of the arena for a table and returns the table with every entry
    /// empty; `None`, with the arena untouched, when the arena has no room.
    pub fn new(alloc: &mut Allocator) -> (r: Option<Self>)
        requires
            old(alloc)@.wf(),
        ensures
            final(alloc)@.wf(),
            old(alloc)@.fits(PAGE_SIZE) ==> (r matches Some(t) && t.entries@ == Seq::new(
                PAGE_TABLE_ENTRIES as nat,
                |i: int| PageTableEntry { pte: 0 },
            )) && final(alloc)@ == old(alloc)@.bumped(PAGE_SIZE),
            !old(alloc)@.fits(PAGE_SIZE) ==> r is None && final(alloc)@ == old(alloc)@,
    {
        match alloc.allocate(PAGE_SIZE) {
            Some(_) => {
                let empty = PageTableEntry::new();
                let entries = [empty; 512];
                assert(entries@ =~= Seq::new(
                    PAGE_TABLE_ENTRIES as nat,
                    |i: int| PageTableEntry { pte: 0 },
                ));
                Some(PageTable { entries })
            },
            None => None,
        }
    }

    pub fn get_entry(&self, index: usize) -> (r: &PageTableEntry)
        requires
            index < self.entries@.len(),
        ensures
            *r == self.entries@[index as int],
    {
        &self.entries[index]
    }

    pub fn get_entry_mut(&mut self, index: usize) -> (r: &mut PageTableEntry)
        requires
            index < old(self).entries@.len(),
        ensures
            *r == old(self).entries@[index as int],
            final(self).entries@ == old(self).entries@.update(index as int, *final(r)),
    {
        &mut self.entries[index]
    }

    /// Maps the page of `vaddr` to the frame of `paddr` with the flag field `flags`, and
    /// marks it valid. `false`, with the table unchanged, when the index of `vaddr` is
    /// outside the table.
    pub fn map_page(&mut self, vaddr: usize, paddr: usize, flags: usize) -> (r: bool)
        ensures
            r == (vpn_index(vaddr) < old(self).entries@.len()),
            final(self).entries@ == map_in(old(self).entries@, vaddr, paddr, flags),
    {
        let vpn = (vaddr >> PAGE_SHIFT) & VPN_MASK;
        if vpn >= PAGE_TABLE_ENTRIES {
            return false;
        }
        let entry = &mut self.entries[vpn];
        entry.set_physical_address(paddr);
        let ghost p1 = entry.pte;
        entry.set_flags(flags);
        let ghost p2 = entry.pte;
        entry.set_valid(true);
        let ghost p3 = entry.pte;
        let ghost target = mapped_entry(paddr, flags).pte;
        assert(p3 == target) by (bit_vector)
            requires
                p1 & !0xFFFusize == paddr & !0xFFFusize,
                p2 & !0xFFFusize == p1 & !0xFFFusize,
                p2 & 0xFFFusize == flags & 0xFFFusize,
                p3 & 1usize != 0,
                p3 & !1usize == p2 & !1usize,
                target == ((paddr & !0xFFFusize) | (flags & 0xFFFusize)) | 1usize,
        ;
        assert(self.entries@ =~= map_in(old(self).entries@, vaddr, paddr, flags));
        true
    }
    /// Clears the valid bit of the entry for `vaddr`; its address and flags stay as they
    /// were. `false`, with the table unchanged, when the index of `vaddr` is outside the
    /// table.
    pub fn unmap_page(&mut self, vaddr: usize) -> (r: bool)
        ensures
            r == (vpn_index(vaddr) < old(self).entries@.len()),
            final(self).entries@ == unmap_in(old(self).entries@, vaddr),
    {
        let vpn = (vaddr >> PAGE_SHIFT) & VPN_MASK;
        if vpn >= PAGE_TABLE_ENTRIES {
            return false;
        }
        let entry = &mut self.entries[vpn];
        entry.set_valid(false);
        let ghost p = entry.pte;
        assert(p == p & !1usize) by (bit_vector)
            requires
                p & 1usize == 0,
        ;
        assert(self.entries@ =~= unmap_in(old(self).entries@, vaddr));
        true
    }

    /// The physical address for `vaddr`: the frame address of its entry combined with the
    /// page offset of `vaddr`. `None` when the index is outside the table or the entry is not
    /// valid.
    pub fn translate(&self, vaddr: usize) -> (r: Option<usize>)
        ensures
            r == translation(self.entries@, vaddr),
    {
        let vpn = (vaddr >> PAGE_SHIFT) & VPN_MASK;
        if vpn >= PAGE_TABLE_ENTRIES {
            return None;
        }
        let entry = &self.entries[vpn];
        if entry.is_valid() {
            let paddr = entry.get_physical_address();
            let offset = vaddr & PTE_FLAG_MASK;
            Some(paddr | offset)
        } else {
            None
        }
    }
}

/// Mapping a page-aligned frame and then translating an address of that page gives the frame
/// with the address's page offset; unmapping the page afterwards makes the translation miss.
pub proof fn lemma_translation_round_trip(
    entries: Seq<PageTableEntry>,
    vaddr: usize,
    paddr: usize,
    flags: usize,
)
    requires
        vpn_index(vaddr) < entries.len(),
        paddr & PTE_FLAG_MASK == 0,
    ensures
        translation(map_in(entries, vaddr, paddr, flags), vaddr) == Some(
            paddr | (vaddr & PTE_FLAG_MASK),
        ),
        translation(unmap_in(map_in(entries, vaddr, paddr, flags), vaddr), vaddr) is None,
{
    let t = mapped_entry(paddr, flags).pte;
    assert(t & 1usize != 0 && t & !0xFFFusize == paddr) by (bit_vector)
        requires
            t == ((paddr & !0xFFFusize) | (flags & 0xFFFusize)) | 1usize,
            paddr & 0xFFFusize == 0,
    ;
    assert((t & !1usize) & 1usize == 0) by (bit_vector);
}

/// A lookup on an address whose index is outside the table misses, and mapping or unmapping
/// such an address leaves the table as it was.
pub proof fn lemma_out_of_range_untouched(
    entries: Seq<PageTableEntry>,
    vaddr: usize,
    paddr: usize,
    flags: usize,
)
    requires
        vpn_index(vaddr) >= entries.len(),
    ensures
        translation(entries, vaddr) is None,
        map_in(entries, vaddr, paddr, flags) == entries,
        unmap_in(entries, vaddr) == entries,
{
}

/// Number of page-size steps that cover `size` bytes, the last partial page rounded up.
pub open spec fn page_count(size: usize) -> nat {
    ((size + 4095) / 4096) as nat
}

/// `entries` after mapping `n` consecutive pages from `vaddr` to consecutive frames from
/// `paddr`, in increasing order.
pub open spec fn map_range(
    entries: Seq<PageTableEntry>,
    vaddr: usize,
    paddr: usize,
    flags: usize,
    n: nat,
) -> Seq<PageTableEntry>
    decreases n,
{
    if n == 0 {
        entries
    } else {
        let k = n - 1;
        map_in(
            map_range(entries, vaddr, paddr, flags, k as nat),
            (vaddr + k * 4096) as usize,
            (paddr + k * 4096) as usize,
            flags,
        )
    }
}

/// `entries` after unmapping `n` consecutive pages from `vaddr`, in increasing order.
pub open spec fn unmap_range(entries: Seq<PageTableEntry>, vaddr: usize, n: nat) -> Seq<
    PageTableEntry,
>
    decreases n,
{
    if n == 0 {
        entries
    } else {
        let k = n - 1;
        unmap_in(unmap_range(entries, vaddr, k as nat), (vaddr + k * 4096) as usize)
    }
}

proof fn lemma_page_count(size: usize, pages: nat)
    requires
        size <= pages * 4096 < size + 4096,
    ensures
        pages == page_count(size),
{
}

fn map_pages(table: &mut PageTable, vaddr: usize, paddr: usize, size: usize, flags: usize)
    requires
        vaddr + size <= usize::MAX,
        paddr + size <= usize::MAX,
    ensures
        final(table).entries@ == map_range(
            old(table).entries@,
            vaddr,
            paddr,
            flags,
            page_count(size),
        ),
{
    let mut offset: usize = 0;
    let ghost mut pages: nat = 0;
    while offset < size
        invariant
            offset <= size,
            vaddr + size <= usize::MAX,
            paddr + size <= usize::MAX,
            offset == size || offset == pages * 4096,
            offset <= pages * 4096 < offset + 4096,
            table.entries@ == map_range(old(table).entries@, vaddr, paddr, flags, pages),
        decreases size - offset,
    {
        let step = if size - offset >= PAGE_SIZE {
            PAGE_SIZE
        } else {
            size - offset
        };
        table.map_page(vaddr + offset, paddr + offset, flags);
        offset = offset + step;
        proof {
            pages = pages + 1;
        }
    }
    proof {
        lemma_page_count(size, pages);
    }
}

fn unmap_pages(table: &mut PageTable, vaddr: usize, size: usize)
    requires
        vaddr + size <= usize::MAX,
    ensures
        final(table).entries@ == unmap_range(old(table).entries@, vaddr, page_count(size)),
{
    let mut offset: usize = 0;
    let ghost mut pages: nat = 0;
    while offset < size
        invariant
            offset <= size,
            vaddr + size <= usize::MAX,
            offset == size || offset == pages * 4096,
            offset <= pages * 4096 < offset + 4096,
            table.entries@ == unmap_range(old(table).entries@, vaddr, pages),
        decreases size - offset,
    {
        let step = if size - offset >= PAGE_SIZE {
            PAGE_SIZE
        } else {
            size - offset
        };
        table.unmap_page(vaddr + offset);
        offset = offset + step;
        proof {
            pages = pages + 1;
        }
    }
    proof {
        lemma_page_count(size, pages);
    }
}

/// Owner of the kernel's translation table, once one has been set up.
pub struct VirtualMemoryManager {
    pub root_page_table: Option<PageTable>,
}

impl VirtualMemoryManager {
    /// A manager with no table yet.
    pub fn new() -> (r: Self)
        ensures
            r.root_page_table is None,
    {
        Self { root_page_table: None }
    }

    /// Sets up an empty table in a frame of the arena. `false`, with nothing changed, when
    /// the arena has no room for it.
    pub fn init(&mut self, alloc: &mut Allocator) -> (r: bool)
        requires
            old(alloc)@.wf(),
        ensures
            final(alloc)@.wf(),
            r == old(alloc)@.fits(PAGE_SIZE),
            r ==> (final(self).root_page_table matches Some(t) && t.entries@ == Seq::new(
                PAGE_TABLE_ENTRIES as nat,
                |i: int| PageTableEntry { pte: 0 },
            )) && final(alloc)@ == old(alloc)@.bumped(PAGE_SIZE),
            !r ==> final(self).root_page_table == old(self).root_page_table && final(alloc)@
                == old(alloc)@,
    {
        match PageTable::new(alloc) {
            Some(table) => {
                self.root_page_table = Some(table);
                true
            },
            None => false,
        }
    }

    /// Maps `[vaddr, vaddr + size)` to `[paddr, paddr + size)` page by page with the flag
    /// field `flags`, the last partial page rounded up to a whole page. `false`, with nothing
    /// changed, when there is no table yet or either range runs past the top of the address
    /// space.
    pub fn map_memory(&mut self, vaddr: usize, paddr: usize, size: usize, flags: usize) -> (r:
        bool)
        ensures
            r == (old(self).root_page_table is Some && vaddr + size <= usize::MAX && paddr + size
                <= usize::MAX),
            r ==> (final(self).root_page_table matches Some(t) && t.entries@ == map_range(
                old(self).root_page_table->Some_0.entries@,
                vaddr,
                paddr,
                flags,
                page_count(size),
            )),
            !r ==> final(self).root_page_table == old(self).root_page_table,
    {
        if vaddr > usize::MAX - size || paddr > usize::MAX - size {
            return false;
        }
        match &mut self.root_page_table {
            Some(table) => {
                map_pages(table, vaddr, paddr, size, flags);
                true
            },
            None => false,
        }
    }

    /// Unmaps `[vaddr, vaddr + size)` page by page, the last partial page rounded up.
    /// `false`, with nothing changed, when there is no table yet or the range runs past the
    /// top of the address space.
    pub fn unmap_memory(&mut self, vaddr: usize, size: usize) -> (r: bool)
        ensures
            r == (old(self).root_page_table is Some && vaddr + size <= usize::MAX),
            r ==> (final(self).root_page_table matches Some(t) && t.entries@ == unmap_range(
                old(self).root_page_table->Some_0.entries@,
                vaddr,
                page_count(size),
            )),
            !r ==> final(self).root_page_table == old(self).root_page_table,
    {
        if vaddr > usize::MAX - size {
            return false;
        }
        match &mut self.root_page_table {
            Some(table) => {
                unmap_pages(table, vaddr, size);
                true
            },
            None => false,
        }
    }
}

} // verus!
