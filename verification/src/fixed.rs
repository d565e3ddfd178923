//! Integer helpers shared by the modifiers.

use vstd::prelude::*;

verus! {

/// `value` limited to the closed range `[low, high]`.
pub open spec fn clamp_int(value: int, low: int, high: int) -> int {
    if value < low {
        low
    } else if value > high {
        high
    } else {
        value
    }
}

/// Absolute value.
pub open spec fn abs_int(value: int) -> int {
    if value < 0 {
        -value
    } else {
        value
    }
}

} // verus!
