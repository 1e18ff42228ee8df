//! Permanent buffers carved out of the external PSRAM.
//!
//! The mapped PSRAM window is handed out from the bottom up by a bump
//! allocator: only permanent buffers are allocated, so nothing is freed and
//! every allocation is disjoint from all earlier ones. This module keeps the
//! allocator's bookkeeping; placing values at the addresses it hands out is
//! done by the caller.

use vstd::prelude::*;

verus! {

/// Bump allocator over a window of addresses.
pub struct Psram {
    /// Address the next allocation starts at, before alignment.
    next: usize,
    /// First address past the window.
    end: usize,
}

impl Psram {
    /// Internal consistency: the cursor never passes the end.
    pub closed spec fn wf(&self) -> bool {
        self.next <= self.end
    }

    /// Address the next allocation starts at, before alignment.
    pub closed spec fn spec_next(&self) -> usize {
        self.next
    }

    /// First address past the window.
    pub closed spec fn spec_end(&self) -> usize {
        self.end
    }

    /// Take ownership of the window of `len` bytes starting at `start`.
    pub fn new(start: usize, len: usize) -> (psram: Self)
        requires
            start + len <= usize::MAX,
        ensures
            psram.wf(),
            psram.spec_next() == start,
            psram.spec_end() == start + len,
    {
        Psram { next: start, end: start + len }
    }

    /// Bytes still available for further allocations.
    pub fn free_bytes(&self) -> (free: usize)
        requires
            self.wf(),
        ensures
            free == self.spec_end() - self.spec_next(),
    {
        self.end - self.next
    }

    /// Reserve `len` elements of `size` bytes each, aligned to `align` (a
    /// power of two), and return the start address.
    ///
    /// Returns `None`, leaving the window untouched, when the aligned block
    /// does not fit into what is left of it or its bounds overflow. A block
    /// handed out lies between the cursor before and after the call, and the
    /// cursor never moves back, so it starts at or above every earlier
    /// block's end, on a multiple of `align`.
    pub fn reserve(&mut self, align: usize, size: usize, len: usize) -> (start: Option<usize>)
        requires
            old(self).wf(),
            align >= 1,
            align & (align - 1) as usize == 0,
        ensures
            final(self).wf(),
            final(self).spec_end() == old(self).spec_end(),
            final(self).spec_next() >= old(self).spec_next(),
            match start {
                Some(s) => {
                    &&& old(self).spec_next() + align - 1 <= usize::MAX
                    &&& s == ((old(self).spec_next() + align - 1) as usize & !((align - 1) as usize))
                    &&& s >= old(self).spec_next()
                    &&& s & (align - 1) as usize == 0
                    &&& s + size * len <= old(self).spec_end()
                    &&& final(self).spec_next() == s + size * len
                },
                None => {
                    &&& final(self).spec_next() == old(self).spec_next()
                    &&& (old(self).spec_next() + align - 1 > usize::MAX || {
                        let s = ((old(self).spec_next() + align - 1) as usize & !((align
                            - 1) as usize));
                        s + size * len > old(self).spec_end()
                    })
                },
            },
    {
        let rounded = match self.next.checked_add(align - 1) {
            Some(value) => value,
            None => return None,
        };
        let start = rounded & !(align - 1);
        let next = self.next;
        assert(start >= next && start & (align - 1) as usize == 0) by (bit_vector)
            requires
                align >= 1,
                align & (align - 1) as usize == 0,
                rounded == next + (align - 1),
                start == rounded & !((align - 1) as usize),
        ;
        let bytes = match size.checked_mul(len) {
            Some(value) => value,
            None => {
                assert(size * len > usize::MAX);
                return None;
            },
        };
        let end = match start.checked_add(bytes) {
            Some(value) => value,
            None => return None,
        };
        if end > self.end {
            return None;
        }
        self.next = end;
        Some(start)
    }
}

} // verus!
