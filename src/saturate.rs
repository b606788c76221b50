//! The one saturation policy shared by every narrowing conversion.
use vstd::prelude::*;

verus! {

/// The value `v` clamped to at most `max`.
pub open spec fn clamp(v: int, max: int) -> int {
    if v > max {
        max
    } else {
        v
    }
}

/// Narrows `v` into `0..=max`: a value above the range becomes `max`.
/// The inputs are unsigned, so nothing lies below the range.
pub fn saturate(v: u128, max: u128) -> (r: u128)
    ensures
        r == clamp(v as int, max as int),
        r <= max,
{
    if v > max {
        max
    } else {
        v
    }
}

} // verus!
