//! Two input axes drive one output axis.

use vstd::prelude::*;
use crate::fixed::clamp_int;

verus! {

/// How the two inputs are combined.
#[derive(Debug, Clone, Copy, PartialEq, Eq, Structural)]
pub enum MergeAxesModifier {
    /// The sum, limited to what 32 bits hold.
    Add,
}

/// The combined value of two inputs.
pub open spec fn merge_axes_output(modifier: MergeAxesModifier, input_0: i32, input_1: i32) -> int {
    match modifier {
        MergeAxesModifier::Add => clamp_int(input_0 + input_1, i32::MIN as int, i32::MAX as int),
    }
}

impl Default for MergeAxesModifier {
    fn default() -> (modifier: Self)
        ensures
            modifier == MergeAxesModifier::Add,
    {
        MergeAxesModifier::Add
    }
}

/// Combines two input axes. The modifier has no state and stays as it is.
pub fn apply_merge_axes_modifier(input_0: i32, input_1: i32, modifier: &mut MergeAxesModifier) -> (value: i32)
    ensures
        value == merge_axes_output(*old(modifier), input_0, input_1),
        *final(modifier) == *old(modifier),
{
    match modifier {
        MergeAxesModifier::Add => {
            let sum: i64 = input_0 as i64 + input_1 as i64;
            if sum < i32::MIN as i64 {
                i32::MIN
            } else if sum > i32::MAX as i64 {
                i32::MAX
            } else {
                sum as i32
            }
        },
    }
}

} // verus!
