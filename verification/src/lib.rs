//! Input rebinding engine for joystick management: an ordered list of rebinds,
//! gated by an 8-bit shift-mode register, is evaluated once per tick in three
//! phases (logical, reroute, virtual) against snapshots of the physical devices
//! and the state of the virtual devices.
//!
//! All quantities are integers. Times are microseconds; fractions (deadzones,
//! coefficients, trim values) are millionths of a whole.

pub mod activation_interval;
pub mod axis_to_axis;
pub mod button_to_button;
pub mod config;
pub mod device;
pub mod device_info;
pub mod document;
pub mod error;
pub mod fixed;
pub mod hat_to_hat;
pub mod input;
pub mod logical_rebind;
pub mod merge_axes;
pub mod persist;
pub mod plot;
pub mod previous;
pub mod rebind;
pub mod rebind_processor;
pub mod reroute_rebind;
pub mod shift_mode_mask;
pub mod text;
pub mod two_buttons_to_axis;
pub mod validate;
pub mod virtual_axis_trim;
pub mod virtual_rebind;
