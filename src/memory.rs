//! A bump-pointer arena that hands out stack regions and table frames.
use vstd::prelude::*;

verus! {

/// Size of a page frame in bytes.
pub const PAGE_SIZE: usize = 4096;

/// `size` rounded up to the next multiple of eight.
pub open spec fn round_up8(size: int) -> int {
    ((size + 7) / 8) * 8
}

/// The arena as numbers: `[start, end)` is the heap and `next` the first free byte.
pub struct HeapView {
    pub start: int,
    pub end: int,
    pub next: int,
}

impl HeapView {
    pub open spec fn wf(self) -> bool {
        0 <= self.start <= self.next <= self.end <= usize::MAX
    }

    /// Whether a request of `size` bytes can be served.
    pub open spec fn fits(self, size: usize) -> bool {
        self.next + round_up8(size as int) <= self.end
    }

    /// The arena after serving a request of `size` bytes.
    pub open spec fn bumped(self, size: usize) -> HeapView {
        HeapView { next: self.next + round_up8(size as int), ..self }
    }
}

/// A bump allocator: memory is handed out in increasing order and never reclaimed.
pub struct Allocator {
    heap_start: usize,
    heap_end: usize,
    next_free: usize,
}

impl View for Allocator {
    type V = HeapView;

    closed spec fn view(&self) -> HeapView {
        HeapView {
            start: self.heap_start as int,
            end: self.heap_end as int,
            next: self.next_free as int,
        }
    }
}

impl Allocator {
    /// An allocator with an empty heap at address zero.
    pub fn new() -> (r: Self)
        ensures
            r@ == (HeapView { start: 0, end: 0, next: 0 }),
            r@.wf(),
    {
        Self { heap_start: 0, heap_end: 0, next_free: 0 }
    }

    /// Makes `[start, start + size)` the heap, with nothing handed out yet.
    pub fn init(&mut self, start: usize, size: usize)
        requires
            start + size <= usize::MAX,
        ensures
            final(self)@ == (HeapView {
                start: start as int,
                end: start + size,
                next: start as int,
            }),
            final(self)@.wf(),
    {
        self.heap_start = start;
        self.heap_end = start + size;
        self.next_free = start;
    }

    /// Hands out `size` bytes, rounded up to a multiple of eight, at the lowest free address;
    /// `None` when the rest of the heap is too small.
    pub fn allocate(&mut self, size: usize) -> (r: Option<usize>)
        requires
            old(self)@.wf(),
        ensures
            final(self)@.wf(),
            old(self)@.fits(size) ==> r == Some(old(self)@.next as usize) && final(self)@
                == old(self)@.bumped(size),
            !old(self)@.fits(size) ==> r is None && final(self)@ == old(self)@,
            r matches Some(base) ==> base + size <= old(self)@.end,
    {
        if size > usize::MAX - 7 {
            return None;
        }
        let padded = size + 7;
        let aligned = padded & !7usize;
        assert(aligned == (padded / 8) * 8) by (bit_vector)
            requires
                aligned == padded & !7usize,
        ;
        if aligned > self.heap_end - self.next_free {
            return None;
        }
        let base = self.next_free;
        self.next_free = self.next_free + aligned;
        Some(base)
    }

    /// Gives a region back. The arena never reclaims memory, so nothing changes.
    pub fn deallocate(&mut self, ptr: usize, size: usize)
        ensures
            final(self)@ == old(self)@,
    {
    }

    /// Bytes still free.
    pub fn available(&self) -> (r: usize)
        requires
            self@.wf(),
        ensures
            r == self@.end - self@.next,
    {
        self.heap_end - self.next_free
    }
}

} // verus!
