//! Two input buttons drive one output axis, one pulling it down and one up.

use vstd::prelude::*;
use crate::fixed::{clamp_int, abs_int};

verus! {

/// How the two buttons drive the axis. Coefficients are millionths of the
/// axis range.
#[derive(Debug, Clone, Copy, PartialEq, Eq, Structural)]
pub enum TwoButtonsToAxisModifier {
    /// The axis is at its lowest, at its highest or at rest.
    Absolute,
    /// The axis moves while a button is held, by `coefficient` of its range
    /// per second; with neither held it stays, or returns to rest.
    Linear { coefficient: u32, keep_value: bool },
    /// The axis moves by `coefficient` of its range at each press. The two
    /// latches are not persisted.
    Click { coefficient: u32, last_input_neg: bool, last_input_pos: bool },
}

/// How far a linear modifier moves the axis in `delta_t` microseconds: at least 1.
pub open spec fn linear_step(coefficient: u32, delta_t: u64) -> int {
    clamp_int(coefficient * 32767 * delta_t / 1_000_000_000_000, 1, i32::MAX as int)
}

/// How far a click modifier moves the axis at a press: at least 1.
pub open spec fn click_step(coefficient: u32) -> int {
    clamp_int(coefficient * 32767 / 1_000_000, 1, i32::MAX as int)
}

/// `current` moved toward the resting value by `step`, stopping there.
pub open spec fn toward_center(current: int, step: int) -> int {
    if abs_int(current - 16384) <= step {
        16384
    } else if current > 16384 {
        current - step
    } else {
        current + step
    }
}

/// The axis value before it is limited to the axis range.
pub open spec fn two_buttons_raw(modifier: TwoButtonsToAxisModifier, input_neg: bool, input_pos: bool, output: i32, delta_t: u64) -> int {
    match modifier {
        TwoButtonsToAxisModifier::Absolute => if input_neg && !input_pos {
            0
        } else if input_pos && !input_neg {
            32767
        } else {
            16384
        },
        TwoButtonsToAxisModifier::Linear { coefficient, keep_value } => if input_neg && !input_pos {
            output - linear_step(coefficient, delta_t)
        } else if input_pos && !input_neg {
            output + linear_step(coefficient, delta_t)
        } else if input_neg && input_pos {
            output as int
        } else if keep_value {
            output as int
        } else {
            toward_center(output as int, linear_step(coefficient, delta_t))
        },
        TwoButtonsToAxisModifier::Click { coefficient, last_input_neg, last_input_pos } => output - (if input_neg
            && !last_input_neg {
            click_step(coefficient)
        } else {
            0
        }) + (if input_pos && !last_input_pos {
            click_step(coefficient)
        } else {
            0
        }),
    }
}

/// The new value of the output axis, which is `output` now: within `[0, 32767]`.
pub open spec fn two_buttons_output(modifier: TwoButtonsToAxisModifier, input_neg: bool, input_pos: bool, output: i32, delta_t: u64) -> int {
    clamp_int(two_buttons_raw(modifier, input_neg, input_pos, output, delta_t), 0, 32767)
}

/// The modifier after a call.
pub open spec fn two_buttons_after(modifier: TwoButtonsToAxisModifier, input_neg: bool, input_pos: bool) -> TwoButtonsToAxisModifier {
    match modifier {
        TwoButtonsToAxisModifier::Click { coefficient, last_input_neg, last_input_pos } => TwoButtonsToAxisModifier::Click {
            coefficient,
            last_input_neg: input_neg,
            last_input_pos: input_pos,
        },
        _ => modifier,
    }
}

/// The part of a modifier that is persisted: latches at rest.
pub open spec fn two_buttons_persistent(modifier: TwoButtonsToAxisModifier) -> TwoButtonsToAxisModifier {
    match modifier {
        TwoButtonsToAxisModifier::Click { coefficient, last_input_neg, last_input_pos } => TwoButtonsToAxisModifier::Click {
            coefficient,
            last_input_neg: false,
            last_input_pos: false,
        },
        _ => modifier,
    }
}

impl Default for TwoButtonsToAxisModifier {
    fn default() -> (modifier: Self)
        ensures
            modifier == TwoButtonsToAxisModifier::Absolute,
    {
        TwoButtonsToAxisModifier::Absolute
    }
}

impl TwoButtonsToAxisModifier {
    /// The modifier with its latches at rest, as it is after a reload.
    pub fn persistent(&self) -> (modifier: Self)
        ensures
            modifier == two_buttons_persistent(*self),
    {
        match self {
            TwoButtonsToAxisModifier::Click { coefficient, last_input_neg: _, last_input_pos: _ } => TwoButtonsToAxisModifier::Click {
                coefficient: *coefficient,
                last_input_neg: false,
                last_input_pos: false,
            },
            TwoButtonsToAxisModifier::Absolute => TwoButtonsToAxisModifier::Absolute,
            TwoButtonsToAxisModifier::Linear { coefficient, keep_value } => TwoButtonsToAxisModifier::Linear {
                coefficient: *coefficient,
                keep_value: *keep_value,
            },
        }
    }
}

/// The step of a linear modifier over `delta_t` microseconds.
pub fn compute_linear_step(coefficient: u32, delta_t: u64) -> (step: i32)
    ensures
        step == linear_step(coefficient, delta_t),
{
    let scaled: u128 = coefficient as u128 * 32767u128;
    assert(scaled * delta_t <= u128::MAX) by (nonlinear_arith)
        requires
            scaled <= 0xFFFF_FFFFu128 * 32767,
            delta_t <= u64::MAX,
    ;
    let product: u128 = scaled * delta_t as u128;
    assert(product == coefficient * 32767 * delta_t) by (nonlinear_arith)
        requires
            product == scaled * delta_t,
            scaled == coefficient * 32767,
    ;
    let delta: u128 = product / 1_000_000_000_000u128;
    if delta < 1 {
        1
    } else if delta > i32::MAX as u128 {
        i32::MAX
    } else {
        delta as i32
    }
}

/// The step of a click modifier.
pub fn compute_click_step(coefficient: u32) -> (step: i32)
    ensures
        step == click_step(coefficient),
{
    let delta: u64 = coefficient as u64 * 32767u64 / 1_000_000u64;
    if delta < 1 {
        1
    } else if delta > i32::MAX as u64 {
        i32::MAX
    } else {
        delta as i32
    }
}

/// Computes the new value of an output axis from the two input buttons, the
/// axis's present value and the time since the previous tick, and advances
/// the modifier. The value is within `[0, 32767]`.
pub fn apply_two_buttons_to_axis_modifier(input_neg: bool, input_pos: bool, output: i32, modifier: &mut TwoButtonsToAxisModifier, delta_t: u64) -> (value: i32)
    ensures
        value == two_buttons_output(*old(modifier), input_neg, input_pos, output, delta_t),
        0 <= value <= 32767,
        *final(modifier) == two_buttons_after(*old(modifier), input_neg, input_pos),
{
    let current: i64 = output as i64;
    let raw: i64 = match modifier {
        TwoButtonsToAxisModifier::Absolute => {
            if input_neg && !input_pos {
                0
            } else if input_pos && !input_neg {
                32767
            } else {
                16384
            }
        },
        TwoButtonsToAxisModifier::Linear { coefficient, keep_value } => {
            let step: i64 = compute_linear_step(*coefficient, delta_t) as i64;
            if input_neg && !input_pos {
                current - step
            } else if input_pos && !input_neg {
                current + step
            } else if input_neg && input_pos {
                current
            } else if *keep_value {
                current
            } else {
                let distance: i64 = if current >= 16384 {
                    current - 16384
                } else {
                    16384 - current
                };
                if distance <= step {
                    16384
                } else if current > 16384 {
                    current - step
                } else {
                    current + step
                }
            }
        },
        TwoButtonsToAxisModifier::Click { coefficient, last_input_neg, last_input_pos } => {
            let step: i64 = compute_click_step(*coefficient) as i64;
            let mut moved: i64 = current;
            if input_neg && !*last_input_neg {
                moved = moved - step;
            }
            if input_pos && !*last_input_pos {
                moved = moved + step;
            }
            *last_input_neg = input_neg;
            *last_input_pos = input_pos;
            moved
        },
    };
    if raw < 0 {
        0
    } else if raw > 32767 {
        32767
    } else {
        raw as i32
    }
}

} // verus!
