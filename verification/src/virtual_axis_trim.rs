//! A trim that buttons adjust, added to a virtual axis.

use vstd::prelude::*;
use crate::fixed::{clamp_int, abs_int};

verus! {

/// The size of a trim step and the running state of one trim.
#[derive(Debug, Clone, Copy, PartialEq, Eq, Structural)]
pub struct VirtualAxisTrimParams {
    /// Step, in millionths of the axis range: per press, or per second held.
    pub value_normalized: u32,
    /// The trim, in millionths of the axis range, within one whole either
    /// way. Not persisted.
    pub accumulated: i32,
    /// Not persisted.
    pub last_input_neg: bool,
    /// Not persisted.
    pub last_input_pos: bool,
}

/// How the buttons adjust the trim.
#[derive(Debug, Clone, Copy, PartialEq, Eq, Structural)]
pub enum VirtualAxisTrimModifier {
    /// One step at each press.
    Click { params: VirtualAxisTrimParams },
    /// Continuously while held.
    Linear { params: VirtualAxisTrimParams },
}

/// The parameters of a modifier.
pub open spec fn trim_params(modifier: VirtualAxisTrimModifier) -> VirtualAxisTrimParams {
    match modifier {
        VirtualAxisTrimModifier::Click { params } => params,
        VirtualAxisTrimModifier::Linear { params } => params,
    }
}

/// By how much one button moves the trim at this call, in millionths.
pub open spec fn trim_amount(modifier: VirtualAxisTrimModifier, delta_t: u64) -> int {
    match modifier {
        VirtualAxisTrimModifier::Click { params } => params.value_normalized as int,
        VirtualAxisTrimModifier::Linear { params } => params.value_normalized * delta_t / 1_000_000,
    }
}

/// Whether the lowering button moves the trim at this call.
pub open spec fn trims_down(modifier: VirtualAxisTrimModifier, trim_neg: bool) -> bool {
    match modifier {
        VirtualAxisTrimModifier::Click { params } => trim_neg && !params.last_input_neg,
        VirtualAxisTrimModifier::Linear { params } => trim_neg,
    }
}

/// Whether the raising button moves the trim at this call.
pub open spec fn trims_up(modifier: VirtualAxisTrimModifier, trim_pos: bool) -> bool {
    match modifier {
        VirtualAxisTrimModifier::Click { params } => trim_pos && !params.last_input_pos,
        VirtualAxisTrimModifier::Linear { params } => trim_pos,
    }
}

/// The trim after a call, in millionths: moved, kept within one whole
/// either way, and zero when reset.
pub open spec fn trim_accumulated_after(modifier: VirtualAxisTrimModifier, trim_neg: bool, trim_pos: bool, trim_reset: bool, delta_t: u64) -> int {
    if trim_reset {
        0
    } else {
        clamp_int(
            trim_params(modifier).accumulated - (if trims_down(modifier, trim_neg) {
                trim_amount(modifier, delta_t)
            } else {
                0
            }) + (if trims_up(modifier, trim_pos) {
                trim_amount(modifier, delta_t)
            } else {
                0
            }),
            -1_000_000,
            1_000_000,
        )
    }
}

/// The modifier after a call.
pub open spec fn trim_after(modifier: VirtualAxisTrimModifier, trim_neg: bool, trim_pos: bool, trim_reset: bool, delta_t: u64) -> VirtualAxisTrimModifier {
    let accumulated = trim_accumulated_after(modifier, trim_neg, trim_pos, trim_reset, delta_t) as i32;
    match modifier {
        VirtualAxisTrimModifier::Click { params } => VirtualAxisTrimModifier::Click {
            params: VirtualAxisTrimParams {
                value_normalized: params.value_normalized,
                accumulated,
                last_input_neg: trim_neg,
                last_input_pos: trim_pos,
            },
        },
        VirtualAxisTrimModifier::Linear { params } => VirtualAxisTrimModifier::Linear {
            params: VirtualAxisTrimParams { accumulated, ..params },
        },
    }
}

/// An axis value with a trim of `accumulated` millionths applied: the
/// magnitude of the sum, rounded down, within `[0, 32767]`.
pub open spec fn trimmed_axis(input: i32, accumulated: int) -> int {
    clamp_int(abs_int(input * 1_000_000 + accumulated * 32767) / 1_000_000, 0, 32767)
}

/// The new value of the axis, which is `input` now.
pub open spec fn trim_output(modifier: VirtualAxisTrimModifier, input: i32, trim_neg: bool, trim_pos: bool, trim_reset: bool, delta_t: u64) -> int {
    trimmed_axis(input, trim_accumulated_after(modifier, trim_neg, trim_pos, trim_reset, delta_t))
}

/// The part of a modifier that is persisted: trim and latches at rest.
pub open spec fn trim_persistent(modifier: VirtualAxisTrimModifier) -> VirtualAxisTrimModifier {
    match modifier {
        VirtualAxisTrimModifier::Click { params } => VirtualAxisTrimModifier::Click {
            params: VirtualAxisTrimParams {
                value_normalized: params.value_normalized,
                accumulated: 0,
                last_input_neg: false,
                last_input_pos: false,
            },
        },
        VirtualAxisTrimModifier::Linear { params } => VirtualAxisTrimModifier::Linear {
            params: VirtualAxisTrimParams {
                value_normalized: params.value_normalized,
                accumulated: 0,
                last_input_neg: false,
                last_input_pos: false,
            },
        },
    }
}

impl Default for VirtualAxisTrimParams {
    fn default() -> (params: Self)
        ensures
            params == (VirtualAxisTrimParams {
                value_normalized: 0,
                accumulated: 0,
                last_input_neg: false,
                last_input_pos: false,
            }),
    {
        VirtualAxisTrimParams { value_normalized: 0, accumulated: 0, last_input_neg: false, last_input_pos: false }
    }
}

impl VirtualAxisTrimParams {
    /// A trim at rest with the given step.
    pub fn new(value_normalized: u32) -> (params: Self)
        ensures
            params == (VirtualAxisTrimParams {
                value_normalized,
                accumulated: 0,
                last_input_neg: false,
                last_input_pos: false,
            }),
    {
        VirtualAxisTrimParams { value_normalized, accumulated: 0, last_input_neg: false, last_input_pos: false }
    }
}

impl Default for VirtualAxisTrimModifier {
    fn default() -> (modifier: Self)
        ensures
            modifier == (VirtualAxisTrimModifier::Click {
                params: VirtualAxisTrimParams {
                    value_normalized: 0,
                    accumulated: 0,
                    last_input_neg: false,
                    last_input_pos: false,
                },
            }),
    {
        VirtualAxisTrimModifier::Click { params: VirtualAxisTrimParams::new(0) }
    }
}

impl VirtualAxisTrimModifier {
    /// The modifier with trim and latches at rest, as it is after a reload.
    pub fn persistent(&self) -> (modifier: Self)
        ensures
            modifier == trim_persistent(*self),
    {
        match self {
            VirtualAxisTrimModifier::Click { params } => VirtualAxisTrimModifier::Click {
                params: VirtualAxisTrimParams::new(params.value_normalized),
            },
            VirtualAxisTrimModifier::Linear { params } => VirtualAxisTrimModifier::Linear {
                params: VirtualAxisTrimParams::new(params.value_normalized),
            },
        }
    }
}

/// The trim moved by what the buttons ask, within one whole either way.
fn moved_trim(accumulated: i32, amount: u128, down: bool, up: bool) -> (moved: i32)
    requires
        amount <= 0xFFFF_FFFF_FFFF_FFFF_FFFF_FFFF,
    ensures
        moved == clamp_int(
            accumulated - (if down {
                amount as int
            } else {
                0
            }) + (if up {
                amount as int
            } else {
                0
            }),
            -1_000_000,
            1_000_000,
        ),
{
    let mut total: i128 = accumulated as i128;
    if down {
        total = total - amount as i128;
    }
    if up {
        total = total + amount as i128;
    }
    if total < -1_000_000 {
        -1_000_000
    } else if total > 1_000_000 {
        1_000_000
    } else {
        total as i32
    }
}

/// An axis value with a trim applied.
fn apply_trim(input: i32, accumulated: i32) -> (value: i32)
    ensures
        value == trimmed_axis(input, accumulated as int),
{
    let sum: i64 = input as i64 * 1_000_000 + accumulated as i64 * 32767;
    let magnitude: i64 = if sum < 0 {
        -sum
    } else {
        sum
    };
    let whole: i64 = magnitude / 1_000_000;
    if whole > 32767 {
        32767
    } else {
        whole as i32
    }
}

/// Adjusts the trim by what the three buttons ask and gives the new value of
/// the axis, which is `input` now. The value is within `[0, 32767]`.
pub fn apply_virtual_axis_trim_modifier(input: i32, trim_neg: bool, trim_pos: bool, trim_reset: bool, delta_t: u64, modifier: &mut VirtualAxisTrimModifier) -> (value: i32)
    ensures
        value == trim_output(*old(modifier), input, trim_neg, trim_pos, trim_reset, delta_t),
        0 <= value <= 32767,
        *final(modifier) == trim_after(*old(modifier), trim_neg, trim_pos, trim_reset, delta_t),
{
    match modifier {
        VirtualAxisTrimModifier::Click { params } => {
            let down = trim_neg && !params.last_input_neg;
            let up = trim_pos && !params.last_input_pos;
            let moved = moved_trim(params.accumulated, params.value_normalized as u128, down, up);
            params.accumulated = if trim_reset {
                0
            } else {
                moved
            };
            params.last_input_neg = trim_neg;
            params.last_input_pos = trim_pos;
            apply_trim(input, params.accumulated)
        },
        VirtualAxisTrimModifier::Linear { params } => {
            assert(params.value_normalized * delta_t <= 0xFFFF_FFFFu128 * 0xFFFF_FFFF_FFFF_FFFFu128) by (nonlinear_arith)
                requires
                    params.value_normalized <= 0xFFFF_FFFFu128,
                    delta_t <= 0xFFFF_FFFF_FFFF_FFFFu128,
            ;
            let amount: u128 = params.value_normalized as u128 * delta_t as u128 / 1_000_000u128;
            let moved = moved_trim(params.accumulated, amount, trim_neg, trim_pos);
            params.accumulated = if trim_reset {
                0
            } else {
                moved
            };
            apply_trim(input, params.accumulated)
        },
    }
}

} // verus!
