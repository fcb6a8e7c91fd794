//! Wrap-around stepping of a selection index.

use vstd::prelude::*;

verus! {

/// The position after `x` in the cycle `min..=max`.
pub open spec fn spec_increment_wrap(x: u32, min: u32, max: u32) -> int {
    if x == max {
        min as int
    } else {
        x + 1
    }
}

/// The position before `x` in the cycle `min..=max`.
pub open spec fn spec_decrement_wrap(x: u32, min: u32, max: u32) -> int {
    if x == min {
        max as int
    } else {
        x - 1
    }
}

/// Steps forward by one, returning to `min` once `max` has been reached.
pub fn u32_increment_wrap(x: u32, min: u32, max: u32) -> (next: u32)
    requires
        x == max || x < u32::MAX,
    ensures
        next == spec_increment_wrap(x, min, max),
        min <= x <= max ==> min <= next <= max,
{
    if x == max {
        min
    } else {
        x + 1
    }
}

/// Steps back by one, jumping to `max` once `min` has been reached.
pub fn u32_decrement_wrap(x: u32, min: u32, max: u32) -> (previous: u32)
    requires
        x == min || x > 0,
    ensures
        previous == spec_decrement_wrap(x, min, max),
        min <= x <= max ==> min <= previous <= max,
{
    if x == min {
        max
    } else {
        x - 1
    }
}

} // verus!
