//! Address alignment helpers used by the allocator and the virtual-memory
//! layer.

use vstd::prelude::*;

verus! {

/// True when `align` is a power of two (and therefore a legal alignment).
pub open spec fn is_power_of_two(align: usize) -> bool
    decreases align,
{
    if align == 0 {
        false
    } else if align == 1 {
        true
    } else {
        align % 2 == 0 && is_power_of_two(align / 2)
    }
}

/// Align `addr` downwards to the nearest multiple of `align`.
///
/// The result is the largest multiple of `align` that is at most `addr`.
pub fn align_down(addr: usize, align: usize) -> (r: usize)
    requires
        is_power_of_two(align),
    ensures
        r == addr - (addr % align),
        r % align == 0,
        r <= addr,
{
    proof {
        assert(align > 0);
        assert((addr / align) * align + addr % align == addr) by (nonlinear_arith)
            requires align > 0;
        assert(((addr / align) * align) % (align as int) == 0) by (nonlinear_arith)
            requires align > 0;
        assert((addr / align) * align <= addr) by (nonlinear_arith)
            requires align > 0;
    }
    (addr / align) * align
}

/// Align `addr` upwards to the nearest multiple of `align`.
///
/// The result is the smallest multiple of `align` that is at least `addr`;
/// the caller must leave room for it below `usize::MAX`.
pub fn align_up(addr: usize, align: usize) -> (r: usize)
    requires
        is_power_of_two(align),
        addr + align - 1 <= usize::MAX,
    ensures
        r % align == 0,
        addr <= r && r < addr + align,
{
    let down = align_down(addr, align);
    if down == addr {
        down
    } else {
        proof {
            assert(addr % align < align) by (nonlinear_arith)
                requires align > 0;
            assert((down + align) % (align as int) == 0) by (nonlinear_arith)
                requires align > 0, (down as int) % (align as int) == 0;
        }
        down + align
    }
}

} // verus!
