//! Clamping and absolute value, through the `num` crate.
use vstd::prelude::*;

verus! {

/// `v` limited to the closed range `[lo, hi]`.
pub open spec fn clamp_spec(v: int, lo: int, hi: int) -> int {
    if v < lo {
        lo
    } else if v > hi {
        hi
    } else {
        v
    }
}

/// Relies on `num::clamp`: below `min` gives `min`, above `max` gives
/// `max`, else the input itself (it asserts `min <= max`).
#[verifier::external_body]
pub(crate) fn clamp_u16(v: u16, lo: u16, hi: u16) -> (r: u16)
    requires
        lo <= hi,
    ensures
        r as int == clamp_spec(v as int, lo as int, hi as int),
{
    num::clamp(v, lo, hi)
}

/// Relies on `num::abs` for `i32`: the value negated when negative, else
/// the value itself (negating `i32::MIN` would overflow).
#[verifier::external_body]
pub(crate) fn abs_i32(v: i32) -> (r: i32)
    requires
        v > i32::MIN,
    ensures
        r as int == if v < 0 { -(v as int) } else { v as int },
{
    num::abs(v)
}

} // verus!
