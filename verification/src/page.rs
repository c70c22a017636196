//! Page arithmetic for changing the protection of a code region.

use vstd::prelude::*;

verus! {

/// Size of a page of memory.
pub const PAGE_SIZE: u64 = 0x1000;

/// Whether `size` is a power of two.
pub open spec fn is_power_of_two(size: u64) -> bool {
    size > 0 && size & ((size - 1) as u64) == 0
}

/// `address` with the bits of `size - 1` cleared: for a power of two `size`,
/// the last address not above `address` whose bits below `size` are zero.
pub fn align_down(address: u64, size: u64) -> (r: u64)
    requires
        size > 0,
    ensures
        r == address & !((size - 1) as u64),
        r <= address,
        r & ((size - 1) as u64) == 0,
        is_power_of_two(size) ==> address - r < size,
{
    let low: u64 = size - 1;
    let r = address & !low;
    assert(r <= address && r & low == 0) by (bit_vector)
        requires
            r == address & !low,
    ;
    assert(size & low == 0 ==> address - r < size) by (bit_vector)
        requires
            size > 0,
            low == size - 1,
            r == address & !low,
    ;
    r
}

/// The pages that hold the `len` bytes at `address`: the address of the
/// first, and the number of bytes from there to the end of the region.
pub fn page_span(address: u64, len: u64) -> (r: (u64, u64))
    requires
        address + len <= u64::MAX,
    ensures
        r.0 == address & !0xfffu64,
        r.0 <= address,
        r.0 & 0xfff == 0,
        address - r.0 < PAGE_SIZE,
        r.0 + r.1 == address + len,
{
    assert(0x1000u64 & 0xfffu64 == 0) by (bit_vector);
    let start = align_down(address, PAGE_SIZE);
    (start, len + (address - start))
}

} // verus!
