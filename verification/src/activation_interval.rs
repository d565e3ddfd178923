//! A debouncer that fires on release, and only if the press lasted a time that
//! falls in a window.

use vstd::prelude::*;

verus! {

/// The window, the optional sustain and the running state of one debouncer.
/// All times are microseconds.
#[derive(Debug, Clone, Copy, PartialEq, Eq, Structural)]
pub struct ActivationIntervalParams {
    /// Shortest press that fires.
    pub interval_start: u64,
    /// A press this long, or longer, does not fire.
    pub interval_end: u64,
    /// How long the output is held after the release, where it is held at all.
    pub sustain: Option<u64>,
    /// Input at the previous call. Not persisted.
    pub last_input: bool,
    /// Time of the latest press. Not persisted.
    pub activation_start: u64,
    /// Time of the latest release. Not persisted.
    pub activation_end: u64,
}

/// The input went from released to pressed.
pub open spec fn pressed_now(params: ActivationIntervalParams, state: bool) -> bool {
    state && !params.last_input
}

/// The input went from pressed to released.
pub open spec fn released_now(params: ActivationIntervalParams, state: bool) -> bool {
    !state && params.last_input
}

/// The debouncer after a call with input `state` at `time`.
pub open spec fn interval_after(params: ActivationIntervalParams, state: bool, time: u64) -> ActivationIntervalParams {
    ActivationIntervalParams {
        interval_start: params.interval_start,
        interval_end: params.interval_end,
        sustain: params.sustain,
        last_input: state,
        activation_start: if pressed_now(params, state) {
            time
        } else {
            params.activation_start
        },
        activation_end: if released_now(params, state) {
            time
        } else {
            params.activation_end
        },
    }
}

/// Whether the time since the latest press, as of the call, falls in the window.
pub open spec fn inside_window(params: ActivationIntervalParams, state: bool, time: u64) -> bool {
    let after = interval_after(params, state, time);
    let length = time - after.activation_start;
    after.interval_start <= length && length < after.interval_end
}

/// What a call with input `state` at `time` gives.
pub open spec fn interval_fires(params: ActivationIntervalParams, state: bool, time: u64, use_sustain: bool) -> bool {
    let after = interval_after(params, state, time);
    if state || !inside_window(params, state, time) {
        false
    } else if use_sustain && after.sustain.is_some() {
        time - after.activation_end < after.sustain.unwrap()
    } else {
        released_now(params, state)
    }
}

impl Default for ActivationIntervalParams {
    fn default() -> (params: Self)
        ensures
            params == (ActivationIntervalParams {
                interval_start: 500_000,
                interval_end: 1_000_000,
                sustain: Some(250_000u64),
                last_input: false,
                activation_start: 0,
                activation_end: 0,
            }),
    {
        ActivationIntervalParams {
            interval_start: 500_000,
            interval_end: 1_000_000,
            sustain: Some(250_000),
            last_input: false,
            activation_start: 0,
            activation_end: 0,
        }
    }
}

impl ActivationIntervalParams {
    /// A debouncer at rest with the given window and sustain.
    pub fn new(interval_start: u64, interval_end: u64, sustain: Option<u64>) -> (params: Self)
        ensures
            params == (ActivationIntervalParams {
                interval_start,
                interval_end,
                sustain,
                last_input: false,
                activation_start: 0,
                activation_end: 0,
            }),
    {
        ActivationIntervalParams {
            interval_start,
            interval_end,
            sustain,
            last_input: false,
            activation_start: 0,
            activation_end: 0,
        }
    }

    /// The debouncer with its running state at rest, as it is after a reload.
    pub fn persistent(&self) -> (params: Self)
        ensures
            params == (ActivationIntervalParams {
                last_input: false,
                activation_start: 0,
                activation_end: 0,
                ..*self
            }),
    {
        ActivationIntervalParams {
            interval_start: self.interval_start,
            interval_end: self.interval_end,
            sustain: self.sustain,
            last_input: false,
            activation_start: 0,
            activation_end: 0,
        }
    }

    /// Feeds the input at `time` and says whether the output is on.
    ///
    /// Edges are recorded first. While the input is held, or when the time since
    /// the latest press is outside the window, the output is off. Otherwise it
    /// is on for the sustain after the release where a sustain is asked for and
    /// set, and on at the call that sees the release where not.
    pub fn update(&mut self, state: bool, time: u64, use_sustain: bool) -> (fires: bool)
        ensures
            *final(self) == interval_after(*old(self), state, time),
            fires == interval_fires(*old(self), state, time, use_sustain),
    {
        let pressed_this_frame = state && !self.last_input;
        let released_this_frame = !state && self.last_input;
        self.last_input = state;
        if pressed_this_frame {
            self.activation_start = time;
        }
        if released_this_frame {
            self.activation_end = time;
        }
        let activated_for_interval = if time >= self.activation_start {
            let activation_length = time - self.activation_start;
            activation_length >= self.interval_start && activation_length < self.interval_end
        } else {
            false
        };
        if state || !activated_for_interval {
            return false;
        }
        if use_sustain {
            match self.sustain {
                Some(sustain) => {
                    if time >= self.activation_end {
                        time - self.activation_end < sustain
                    } else {
                        true
                    }
                },
                None => released_this_frame,
            }
        } else {
            released_this_frame
        }
    }
}

} // verus!
