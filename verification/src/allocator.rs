//! The dynamic-memory subsystem: the fixed heap window, the address
//! arithmetic shared by allocation strategies, and the page-by-page plan for
//! backing the window with physical frames.
//!
//! Addresses are carried as `u64`, the width of a virtual address on the
//! target machine.

use vstd::prelude::*;
use vstd::arithmetic::div_mod::{
    lemma_fundamental_div_mod, lemma_mod_bound, lemma_mod_decreases, lemma_mod_multiples_basic,
};
use vstd::arithmetic::mul::lemma_mul_inequality;

pub mod bump;

verus! {

/// Start of the virtual address window reserved for the heap.
pub const HEAP_START: u64 = 0x4444_4444_0000;

/// Size of the heap window in bytes (100 KiB).
pub const HEAP_SIZE: u64 = 100 * 1024;

/// Size of one page, the unit in which the window is mapped.
pub const PAGE_SIZE: u64 = 4096;

/// The smallest multiple of `align` that is at least `addr`.
pub open spec fn spec_align_up(addr: int, align: int) -> int
    recommends
        align >= 1,
{
    if addr % align == 0 {
        addr
    } else {
        addr + (align - addr % align)
    }
}

/// `spec_align_up` returns a multiple of `align`, lands in `[addr, addr + align)`,
/// and no smaller multiple of `align` reaches `addr`.
pub proof fn lemma_align_up(addr: int, align: int)
    requires
        align >= 1,
        addr >= 0,
    ensures
        spec_align_up(addr, align) % align == 0,
        addr <= spec_align_up(addr, align) < addr + align,
        forall|m: int| addr <= m && #[trigger] (m % align) == 0 ==> spec_align_up(addr, align) <= m,
{
    let r = addr % align;
    let q = addr / align;
    lemma_fundamental_div_mod(addr, align);
    lemma_mod_bound(addr, align);
    if r == 0 {
        assert forall|m: int| addr <= m && #[trigger] (m % align) == 0 implies
            spec_align_up(addr, align) <= m by {
        }
    } else {
        let up = spec_align_up(addr, align);
        assert(up == align * (q + 1)) by (nonlinear_arith)
            requires
                addr == align * q + r,
                up == addr + (align - r),
        ;
        lemma_mod_multiples_basic(q + 1, align);
        assert((align * (q + 1)) % align == 0);
        assert forall|m: int| addr <= m && #[trigger] (m % align) == 0 implies up <= m by {
            lemma_fundamental_div_mod(m, align);
            let k = m / align;
            assert(m == align * k + m % align);
            assert(align * q < align * k) by (nonlinear_arith)
                requires
                    align * q + r <= align * k,
                    1 <= r,
            ;
            assert(q < k) by (nonlinear_arith)
                requires
                    align * q < align * k,
                    align >= 1,
            ;
            lemma_mul_inequality(q + 1, k, align);
            assert((q + 1) * align == align * (q + 1)) by (nonlinear_arith);
            assert(k * align == align * k) by (nonlinear_arith);
        }
    }
}

/// Align `addr` upwards to `align`: the smallest address that is a multiple
/// of `align` and not below `addr`.
pub fn align_up(addr: u64, align: u64) -> (r: u64)
    requires
        align >= 1,
        addr + align - 1 <= u64::MAX,
    ensures
        r == spec_align_up(addr as int, align as int),
        r % align == 0,
        addr <= r < addr + align,
{
    proof {
        lemma_align_up(addr as int, align as int);
        lemma_mod_decreases(addr as nat, align as nat);
    }
    let remainder = addr % align;
    if remainder == 0 {
        addr
    } else {
        addr - remainder + align
    }
}

/// Failure while backing one page of the heap window, mirrored from the
/// external page mapper: the frame source ran dry, the page already had a
/// translation, or a huge-page entry stands in the way.
#[derive(Clone, Copy, Debug, PartialEq, Eq, Structural)]
pub enum MapError {
    FrameAllocationFailed,
    AlreadyMapped,
    HugePageConflict,
}

/// The base address of the page that contains `addr`.
pub open spec fn spec_page_base(addr: int) -> int {
    addr - addr % (PAGE_SIZE as int)
}

/// `spec_page_base` is the largest page-aligned address not above `addr`.
pub proof fn lemma_page_base(addr: int)
    requires
        addr >= 0,
    ensures
        spec_page_base(addr) % (PAGE_SIZE as int) == 0,
        addr - (PAGE_SIZE as int) < spec_page_base(addr) <= addr,
        forall|m: int|
            m <= addr && #[trigger] (m % (PAGE_SIZE as int)) == 0 ==> m <= spec_page_base(addr),
{
    let p = PAGE_SIZE as int;
    let q = addr / p;
    lemma_fundamental_div_mod(addr, p);
    lemma_mod_bound(addr, p);
    assert(spec_page_base(addr) == p * q);
    lemma_mod_multiples_basic(q, p);
    assert forall|m: int| m <= addr && #[trigger] (m % p) == 0 implies m <= spec_page_base(addr) by {
        lemma_fundamental_div_mod(m, p);
        let k = m / p;
        assert(p * k <= p * q) by (nonlinear_arith)
            requires
                p * k <= p * q + addr % p,
                0 <= addr % p < p,
                p >= 1,
        ;
    }
}

/// Two distinct page-aligned addresses lie at least one page apart.
proof fn lemma_page_step(a: int, b: int)
    requires
        a < b,
        a % (PAGE_SIZE as int) == 0,
        b % (PAGE_SIZE as int) == 0,
    ensures
        a + PAGE_SIZE <= b,
{
    let p = PAGE_SIZE as int;
    lemma_fundamental_div_mod(a, p);
    lemma_fundamental_div_mod(b, p);
    assert(a + p <= b) by (nonlinear_arith)
        requires
            a == p * (a / p),
            b == p * (b / p),
            a < b,
            p >= 1,
    ;
}

/// The base addresses of every page the heap window `[start, start + size - 1]`
/// touches, lowest first and one page apart: the pages the heap initializer
/// must back with frames before the window is allocation-ready.
pub fn heap_page_range(start: u64, size: u64) -> (pages: Vec<u64>)
    requires
        size >= 1,
        start + size - 1 <= u64::MAX,
    ensures
        pages.len() >= 1,
        forall|i: int|
            0 <= i < pages.len() ==> pages[i] == spec_page_base(start as int) + i * (
            PAGE_SIZE as int),
        pages[0] == spec_page_base(start as int),
        pages[pages.len() - 1] == spec_page_base((start + size - 1) as int),
        forall|i: int| 0 <= i < pages.len() ==> #[trigger] (pages[i] as int) % (PAGE_SIZE as int)
            == 0,
{
    let end = start + (size - 1);
    proof {
        lemma_page_base(start as int);
        lemma_page_base(end as int);
        lemma_mod_decreases(start as nat, PAGE_SIZE as nat);
        lemma_mod_decreases(end as nat, PAGE_SIZE as nat);
    }
    let first = start - start % PAGE_SIZE;
    let last = end - end % PAGE_SIZE;
    assert(first <= last);
    let mut pages: Vec<u64> = Vec::new();
    let mut addr: u64 = first;
    while addr < last
        invariant
            first <= addr <= last,
            addr as int % (PAGE_SIZE as int) == 0,
            last as int % (PAGE_SIZE as int) == 0,
            addr == first + pages.len() * (PAGE_SIZE as int),
            forall|i: int|
                0 <= i < pages.len() ==> pages[i] == first + i * (PAGE_SIZE as int),
        decreases last - addr,
    {
        proof {
            lemma_page_step(addr as int, last as int);
        }
        pages.push(addr);
        addr = addr + PAGE_SIZE;
    }
    pages.push(addr);
    pages
}

/// The per-page decision of the heap initializer: a page can be backed only
/// when the frame source yields a frame; when it runs dry, initialization
/// aborts with `FrameAllocationFailed` (pages mapped earlier are not unwound).
pub fn frame_for_page(frame: Option<u64>) -> (r: Result<u64, MapError>)
    ensures
        frame matches Some(f) ==> r == Ok::<u64, MapError>(f),
        frame is None ==> r == Err::<u64, MapError>(MapError::FrameAllocationFailed),
{
    match frame {
        Some(f) => Ok(f),
        None => Err(MapError::FrameAllocationFailed),
    }
}

} // verus!
