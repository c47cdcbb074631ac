//! The bump allocation strategy: a cursor that only moves forward over the
//! mapped heap window, and an outstanding-allocation counter that reclaims
//! the whole region in one step when it returns to zero.

use vstd::prelude::*;
use crate::allocator::{spec_align_up, lemma_align_up};

verus! {

/// Bookkeeping of the bump strategy over the half-open window
/// `[heap_start, heap_end)`.
pub struct BumpAllocator {
    pub heap_start: u64,
    pub heap_end: u64,
    pub next: u64,
    pub allocations: usize,
}

impl BumpAllocator {
    /// The strategy's invariant: the cursor stays inside the window, and a
    /// heap with no outstanding allocation has its cursor at the start.
    pub open spec fn wf(self) -> bool {
        &&& self.heap_start <= self.next <= self.heap_end
        &&& (self.allocations == 0 ==> self.next == self.heap_start)
    }

    /// Where the next allocation with this alignment would start.
    pub open spec fn spec_alloc_start(self, align: int) -> int {
        spec_align_up(self.next as int, align)
    }

    /// Whether a request of `size` bytes at alignment `align` fits in the
    /// remaining window. A request whose aligned end would pass `heap_end`
    /// (including one whose address arithmetic would overflow) does not fit.
    pub open spec fn spec_alloc_fits(self, size: int, align: int) -> bool {
        self.spec_alloc_start(align) + size <= self.heap_end
    }

    /// The state after one release: the counter goes down by one, and when it
    /// reaches zero the cursor snaps back to `heap_start`, reclaiming the
    /// whole region in one step.
    pub open spec fn spec_release(self) -> BumpAllocator
        recommends
            self.allocations >= 1,
    {
        let dec = BumpAllocator { allocations: (self.allocations - 1) as usize, ..self };
        if dec.allocations == 0 {
            BumpAllocator { next: dec.heap_start, ..dec }
        } else {
            dec
        }
    }

    /// Creates a new empty bump allocator.
    pub fn new() -> (r: BumpAllocator)
        ensures
            r.heap_start == 0,
            r.heap_end == 0,
            r.next == 0,
            r.allocations == 0,
            r.wf(),
    {
        BumpAllocator { heap_start: 0, heap_end: 0, next: 0, allocations: 0 }
    }

    /// Initializes the bump allocator with the given heap bounds. The caller
    /// must hand over a window that is backed by memory and not otherwise in
    /// use, and must do so before serving any allocation.
    pub fn init(&mut self, heap_start: u64, heap_size: u64)
        requires
            heap_start + heap_size <= u64::MAX,
        ensures
            final(self).heap_start == heap_start,
            final(self).heap_end == heap_start + heap_size,
            final(self).next == heap_start,
            final(self).allocations == old(self).allocations,
            old(self).allocations == 0 ==> final(self).wf(),
    {
        self.heap_start = heap_start;
        self.heap_end = heap_start + heap_size;
        self.next = heap_start;
    }

    /// Serves a request of `size` bytes at alignment `align`: rounds the
    /// cursor up to the alignment, fails without changing anything when the
    /// aligned request does not fit (or its arithmetic would overflow), and
    /// otherwise advances the cursor past the new block and counts it.
    pub fn allocate(&mut self, size: u64, align: u64) -> (r: Option<u64>)
        requires
            old(self).wf(),
            align >= 1,
            old(self).allocations < usize::MAX,
        ensures
            final(self).wf(),
            final(self).heap_start == old(self).heap_start,
            final(self).heap_end == old(self).heap_end,
            r.is_some() <==> old(self).spec_alloc_fits(size as int, align as int),
            r.is_none() ==> *final(self) == *old(self),
            r matches Some(a) ==> {
                &&& a == old(self).spec_alloc_start(align as int)
                &&& a % align == 0
                &&& old(self).heap_start <= old(self).next <= a
                &&& a + size <= old(self).heap_end
                &&& final(self).next == a + size
                &&& final(self).allocations == old(self).allocations + 1
            },
    {
        proof {
            lemma_align_up(self.next as int, align as int);
            vstd::arithmetic::div_mod::lemma_mod_decreases(self.next as nat, align as nat);
        }
        let remainder = self.next % align;
        let alloc_start_opt: Option<u64> = if remainder == 0 {
            Some(self.next)
        } else {
            (self.next - remainder).checked_add(align)
        };
        let alloc_start = match alloc_start_opt {
            Some(a) => a,
            None => {
                return None;
            },
        };
        let alloc_end = match alloc_start.checked_add(size) {
            Some(e) => e,
            None => {
                return None;
            },
        };
        if alloc_end > self.heap_end {
            None
        } else {
            self.next = alloc_end;
            self.allocations = self.allocations + 1;
            Some(alloc_start)
        }
    }

    /// Releases one outstanding allocation. The specific block is not
    /// reclaimed; only when the last outstanding allocation is released does
    /// the cursor snap back to `heap_start`, reclaiming the whole region.
    pub fn release(&mut self, _address: u64, _size: u64, _align: u64)
        requires
            old(self).wf(),
            old(self).allocations >= 1,
        ensures
            final(self).wf(),
            *final(self) == old(self).spec_release(),
            final(self).heap_start == old(self).heap_start,
            final(self).heap_end == old(self).heap_end,
            final(self).allocations == old(self).allocations - 1,
            final(self).allocations == 0 ==> final(self).next == old(self).heap_start,
            final(self).allocations != 0 ==> final(self).next == old(self).next,
    {
        self.allocations = self.allocations - 1;
        if self.allocations == 0 {
            self.next = self.heap_start;
        }
    }
}

/// The state after `n` releases in a row.
pub open spec fn spec_release_n(b: BumpAllocator, n: nat) -> BumpAllocator
    decreases n,
{
    if n == 0 {
        b
    } else {
        spec_release_n(b.spec_release(), (n - 1) as nat)
    }
}

/// Releasing every outstanding allocation drives the counter to zero and
/// resets the cursor to `heap_start`. The order of the releases cannot
/// matter: a release does not depend on which block is handed back.
pub proof fn lemma_release_all_resets(b: BumpAllocator)
    requires
        b.wf(),
    ensures
        spec_release_n(b, b.allocations as nat).allocations == 0,
        spec_release_n(b, b.allocations as nat).next == b.heap_start,
        spec_release_n(b, b.allocations as nat).heap_start == b.heap_start,
        spec_release_n(b, b.allocations as nat).heap_end == b.heap_end,
        spec_release_n(b, b.allocations as nat).wf(),
    decreases b.allocations,
{
    if b.allocations > 0 {
        lemma_release_all_resets(b.spec_release());
    }
}

/// The bulk-reclaim round trip: an allocator whose outstanding count has
/// returned to zero serves its next request exactly as the freshly
/// initialized allocator served its very first one — same start address,
/// and it fits under the same conditions.
pub proof fn lemma_bulk_reclaim_round_trip(
    fresh: BumpAllocator,
    reset: BumpAllocator,
    size: int,
    align: int,
)
    requires
        fresh.wf(),
        reset.wf(),
        fresh.allocations == 0,
        reset.allocations == 0,
        fresh.heap_start == reset.heap_start,
        fresh.heap_end == reset.heap_end,
    ensures
        fresh.spec_alloc_start(align) == reset.spec_alloc_start(align),
        fresh.spec_alloc_fits(size, align) == reset.spec_alloc_fits(size, align),
{
}

/// Allocations served in sequence never overlap: the second block starts at
/// or past the end of the first, so the ranges `[a1, a1 + size1)` and
/// `[a2, a2 + size2)` are disjoint. Every allocation is served under the one
/// global lock, so concurrent attempts serialize into such a sequence.
pub proof fn lemma_allocations_disjoint(
    s0: BumpAllocator,
    s1: BumpAllocator,
    a1: u64,
    size1: u64,
    align1: u64,
    a2: u64,
    align2: u64,
)
    requires
        align1 >= 1,
        align2 >= 1,
        a1 == s0.spec_alloc_start(align1 as int),
        s1.next == a1 + size1,
        a2 == s1.spec_alloc_start(align2 as int),
    ensures
        a1 + size1 <= a2,
{
    lemma_align_up(s1.next as int, align2 as int);
}

} // verus!
