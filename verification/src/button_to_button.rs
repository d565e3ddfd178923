//! One input button drives one output button.

use vstd::prelude::*;
use crate::activation_interval::{ActivationIntervalParams, interval_after, interval_fires};
use crate::device::{ButtonState, button_flip, button_of};

verus! {

/// How the input button drives the output button.
#[derive(Debug, Clone, Copy, PartialEq, Eq, Structural)]
pub enum ButtonToButtonModifier {
    /// The output shows the input.
    Simple,
    /// Each press of the input flips the output. `last_input` is not persisted.
    Toggle { last_input: bool },
    /// The output is on while the debouncer fires, with its sustain.
    ActivationIntervalSimple { params: ActivationIntervalParams },
    /// Each firing of the debouncer flips the output.
    ActivationIntervalToggle { params: ActivationIntervalParams },
}

/// The modifier after a call with `input` at `time`.
pub open spec fn button_modifier_after(modifier: ButtonToButtonModifier, input: bool, time: u64) -> ButtonToButtonModifier {
    match modifier {
        ButtonToButtonModifier::Simple => ButtonToButtonModifier::Simple,
        ButtonToButtonModifier::Toggle { last_input } => ButtonToButtonModifier::Toggle { last_input: input },
        ButtonToButtonModifier::ActivationIntervalSimple { params } => ButtonToButtonModifier::ActivationIntervalSimple {
            params: interval_after(params, input, time),
        },
        ButtonToButtonModifier::ActivationIntervalToggle { params } => ButtonToButtonModifier::ActivationIntervalToggle {
            params: interval_after(params, input, time),
        },
    }
}

/// The new state of the output button, which is `output` now.
pub open spec fn button_output(modifier: ButtonToButtonModifier, input: bool, output: ButtonState, time: u64) -> ButtonState {
    match modifier {
        ButtonToButtonModifier::Simple => button_of(input),
        ButtonToButtonModifier::Toggle { last_input } => if input && !last_input {
            button_flip(output)
        } else {
            output
        },
        ButtonToButtonModifier::ActivationIntervalSimple { params } => button_of(interval_fires(params, input, time, true)),
        ButtonToButtonModifier::ActivationIntervalToggle { params } => if interval_fires(params, input, time, false) {
            button_flip(output)
        } else {
            output
        },
    }
}

impl Default for ButtonToButtonModifier {
    fn default() -> (modifier: Self)
        ensures
            modifier == ButtonToButtonModifier::Simple,
    {
        ButtonToButtonModifier::Simple
    }
}

impl ButtonToButtonModifier {
    /// The modifier with its running state at rest, as it is after a reload.
    pub fn persistent(&self) -> (modifier: Self)
        ensures
            modifier == button_modifier_persistent(*self),
    {
        match self {
            ButtonToButtonModifier::Simple => ButtonToButtonModifier::Simple,
            ButtonToButtonModifier::Toggle { last_input: _ } => ButtonToButtonModifier::Toggle { last_input: false },
            ButtonToButtonModifier::ActivationIntervalSimple { params } => ButtonToButtonModifier::ActivationIntervalSimple {
                params: params.persistent(),
            },
            ButtonToButtonModifier::ActivationIntervalToggle { params } => ButtonToButtonModifier::ActivationIntervalToggle {
                params: params.persistent(),
            },
        }
    }
}

/// The part of a modifier that is persisted: running state at rest.
pub open spec fn button_modifier_persistent(modifier: ButtonToButtonModifier) -> ButtonToButtonModifier {
    match modifier {
        ButtonToButtonModifier::Simple => ButtonToButtonModifier::Simple,
        ButtonToButtonModifier::Toggle { last_input } => ButtonToButtonModifier::Toggle { last_input: false },
        ButtonToButtonModifier::ActivationIntervalSimple { params } => ButtonToButtonModifier::ActivationIntervalSimple {
            params: ActivationIntervalParams { last_input: false, activation_start: 0, activation_end: 0, ..params },
        },
        ButtonToButtonModifier::ActivationIntervalToggle { params } => ButtonToButtonModifier::ActivationIntervalToggle {
            params: ActivationIntervalParams { last_input: false, activation_start: 0, activation_end: 0, ..params },
        },
    }
}

/// Computes the new state of an output button from the input button, the
/// output's present state and the time, and advances the modifier.
pub fn apply_button_modifier(input: bool, output: ButtonState, modifier: &mut ButtonToButtonModifier, time: u64) -> (state: ButtonState)
    ensures
        state == button_output(*old(modifier), input, output, time),
        *final(modifier) == button_modifier_after(*old(modifier), input, time),
{
    match modifier {
        ButtonToButtonModifier::Simple => ButtonState::from_bool(input),
        ButtonToButtonModifier::Toggle { last_input } => {
            let should_toggle = input && input != *last_input;
            *last_input = input;
            if should_toggle {
                output.toggled()
            } else {
                output
            }
        },
        ButtonToButtonModifier::ActivationIntervalSimple { params } => {
            let fires = params.update(input, time, true);
            ButtonState::from_bool(fires)
        },
        ButtonToButtonModifier::ActivationIntervalToggle { params } => {
            if params.update(input, time, false) {
                output.toggled()
            } else {
                output
            }
        },
    }
}

/// A simple button shows its input, whatever the output was and whenever it is asked.
pub proof fn lemma_simple_button_shows_input(input: bool, output: ButtonState, time: u64)
    ensures
        button_output(ButtonToButtonModifier::Simple, input, output, time) == if input {
            ButtonState::Pressed
        } else {
            ButtonState::Released
        },
        button_modifier_after(ButtonToButtonModifier::Simple, input, time) == ButtonToButtonModifier::Simple,
{
}

/// A toggle that sees its input pressed twice in a row flips the output at
/// the first call only: holding the button does not flip it again.
pub proof fn lemma_toggle_held_flips_once(output: ButtonState, first_time: u64, second_time: u64)
    ensures
        ({
            let start = ButtonToButtonModifier::Toggle { last_input: false };
            let first = button_output(start, true, output, first_time);
            let held = button_modifier_after(start, true, first_time);
            let second = button_output(held, true, first, second_time);
            &&& first == button_flip(output)
            &&& second == first
            &&& held == ButtonToButtonModifier::Toggle { last_input: true }
            &&& button_modifier_after(held, true, second_time) == held
        }),
{
}

} // verus!
