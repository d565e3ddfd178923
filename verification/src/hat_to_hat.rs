//! One input hat drives one output hat.

use vstd::prelude::*;
use crate::device::{FourWayHat, HatState};

verus! {

/// How the input hat drives the output hat.
#[derive(Debug, Clone, Copy, PartialEq, Eq, Structural)]
pub enum HatToHatModifier {
    /// The output shows the input.
    Simple,
}

/// The direction of a four-way hat for a position in degrees: quadrants of
/// 90 degrees centred on the four directions, and centered for -1.
pub open spec fn four_way_of(state: i32) -> FourWayHat {
    if state == -1 {
        FourWayHat::Centered
    } else if state < 45 || state >= 315 {
        FourWayHat::North
    } else if state < 135 {
        FourWayHat::East
    } else if state < 225 {
        FourWayHat::South
    } else {
        FourWayHat::West
    }
}

/// The value of a continuous hat for a position in degrees: hundredths of a
/// degree in 32 bits, and `u32::MAX` for -1.
pub open spec fn continuous_of(state: i32) -> u32 {
    if state == -1 {
        u32::MAX
    } else {
        (state * 100) as u32
    }
}

/// A position in degrees as a state of a hat that is in the mode of `hat_type`.
pub open spec fn hat_state_of(hat_type: HatState, state: i32) -> HatState {
    match hat_type {
        HatState::Discrete(_) => HatState::Discrete(four_way_of(state)),
        HatState::Continuous(_) => HatState::Continuous(continuous_of(state)),
    }
}

impl Default for HatToHatModifier {
    fn default() -> (modifier: Self)
        ensures
            modifier == HatToHatModifier::Simple,
    {
        HatToHatModifier::Simple
    }
}

/// Passes the position of the input hat on. The modifier has no state and stays as it is.
pub fn apply_hat_modifier(input: i32, modifier: &mut HatToHatModifier) -> (state: i32)
    ensures
        state == input,
        *final(modifier) == *old(modifier),
{
    match modifier {
        HatToHatModifier::Simple => input,
    }
}

/// Converts a position in degrees, or -1, to a state in the mode of the
/// target hat, which `hat_type` shows.
pub fn convert_hat_type_to_vjoy(hat_type: HatState, state: i32) -> (converted: HatState)
    ensures
        converted == hat_state_of(hat_type, state),
{
    match hat_type {
        HatState::Discrete(_) => {
            if state == -1 {
                HatState::Discrete(FourWayHat::Centered)
            } else if state < 45 || state >= 315 {
                HatState::Discrete(FourWayHat::North)
            } else if state < 135 {
                HatState::Discrete(FourWayHat::East)
            } else if state < 225 {
                HatState::Discrete(FourWayHat::South)
            } else {
                HatState::Discrete(FourWayHat::West)
            }
        },
        HatState::Continuous(_) => {
            if state == -1 {
                HatState::Continuous(u32::MAX)
            } else {
                let hundredths: i64 = state as i64 * 100;
                HatState::Continuous(#[verifier::truncate] (hundredths as u32))
            }
        },
    }
}

} // verus!
