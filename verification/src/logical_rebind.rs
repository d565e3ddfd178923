//! Rebinds that act on the shift-mode register only.

use vstd::prelude::*;
use crate::device::{PhysicalDevice, PhysicalDeviceView, physical_views};
use crate::error::Error;
use crate::shift_mode_mask::{ShiftModeMask, mask_disable, mask_enable};
use crate::validate::{Failure, Lookup, failure_of, lookup_failure, physical_button, validate_value_physical_button};

verus! {

/// A rebind from one physical button to bits of the shift-mode register.
#[derive(Debug, Clone, PartialEq, Eq)]
pub enum LogicalRebind {
    /// The bits are set while the button is held and cleared while it is not.
    MomentaryEnableShiftMode { src_device: String, src_button: u32, shift_mask: ShiftModeMask },
    /// The bits are cleared while the button is held and set while it is not.
    MomentaryDisableShiftMode { src_device: String, src_button: u32, shift_mask: ShiftModeMask },
}

/// What a [`LogicalRebind`] holds.
pub enum LogicalRebindView {
    MomentaryEnableShiftMode { src_device: Seq<char>, src_button: u32, shift_mask: u8 },
    MomentaryDisableShiftMode { src_device: Seq<char>, src_button: u32, shift_mask: u8 },
}

impl View for LogicalRebind {
    type V = LogicalRebindView;

    open spec fn view(&self) -> LogicalRebindView {
        match self {
            LogicalRebind::MomentaryEnableShiftMode { src_device, src_button, shift_mask } => LogicalRebindView::MomentaryEnableShiftMode {
                src_device: src_device@,
                src_button: *src_button,
                shift_mask: shift_mask.0,
            },
            LogicalRebind::MomentaryDisableShiftMode { src_device, src_button, shift_mask } => LogicalRebindView::MomentaryDisableShiftMode {
                src_device: src_device@,
                src_button: *src_button,
                shift_mask: shift_mask.0,
            },
        }
    }
}

/// The button that a logical rebind reads.
pub open spec fn logical_source(rebind: LogicalRebindView, physicals: Seq<PhysicalDeviceView>) -> Lookup<bool> {
    match rebind {
        LogicalRebindView::MomentaryEnableShiftMode { src_device, src_button, shift_mask } => physical_button(
            physicals,
            src_device,
            src_button,
        ),
        LogicalRebindView::MomentaryDisableShiftMode { src_device, src_button, shift_mask } => physical_button(
            physicals,
            src_device,
            src_button,
        ),
    }
}

/// Why a logical rebind is not evaluated, if it is not.
pub open spec fn logical_failure(rebind: LogicalRebindView, physicals: Seq<PhysicalDeviceView>) -> Option<Failure> {
    match rebind {
        LogicalRebindView::MomentaryEnableShiftMode { src_device, src_button, shift_mask } => lookup_failure(
            physical_button(physicals, src_device, src_button),
            Failure::PhysicalButton(src_device, src_button),
        ),
        LogicalRebindView::MomentaryDisableShiftMode { src_device, src_button, shift_mask } => lookup_failure(
            physical_button(physicals, src_device, src_button),
            Failure::PhysicalButton(src_device, src_button),
        ),
    }
}

/// The register after a logical rebind was evaluated: unchanged where its
/// button does not resolve.
pub open spec fn logical_mask_after(rebind: LogicalRebindView, physicals: Seq<PhysicalDeviceView>, mask: u8) -> u8 {
    match rebind {
        LogicalRebindView::MomentaryEnableShiftMode { src_device, src_button, shift_mask } => match physical_button(
            physicals,
            src_device,
            src_button,
        ) {
            Lookup::Found(held) => if held {
                mask_enable(mask, shift_mask)
            } else {
                mask_disable(mask, shift_mask)
            },
            _ => mask,
        },
        LogicalRebindView::MomentaryDisableShiftMode { src_device, src_button, shift_mask } => match physical_button(
            physicals,
            src_device,
            src_button,
        ) {
            Lookup::Found(held) => if held {
                mask_disable(mask, shift_mask)
            } else {
                mask_enable(mask, shift_mask)
            },
            _ => mask,
        },
    }
}

impl Default for LogicalRebind {
    fn default() -> (rebind: Self)
        ensures
            rebind@ == (LogicalRebindView::MomentaryEnableShiftMode {
                src_device: Seq::empty(),
                src_button: 0,
                shift_mask: 0,
            }),
    {
        LogicalRebind::MomentaryEnableShiftMode { src_device: String::new(), src_button: 0, shift_mask: ShiftModeMask(0) }
    }
}

impl LogicalRebind {
    /// Evaluates the rebind: reads its button and sets or clears its bits in
    /// the register. Where the button does not resolve, the register stays as
    /// it is and the failure is returned.
    pub fn process(&mut self, physical_devices: &Vec<PhysicalDevice>, active_shift_mode: &mut ShiftModeMask) -> (result: Result<(), Error>)
        ensures
            final(self)@ == old(self)@,
            final(active_shift_mode).0 == logical_mask_after(
                old(self)@,
                physical_views(physical_devices@),
                old(active_shift_mode).0,
            ),
            result is Ok <==> logical_source(old(self)@, physical_views(physical_devices@)) is Found,
            match logical_failure(old(self)@, physical_views(physical_devices@)) {
                Some(failure) => result matches Err(error) && failure_of(error) == Some(failure),
                None => result is Ok,
            },
    {
        match self {
            LogicalRebind::MomentaryEnableShiftMode { src_device, src_button, shift_mask } => {
                match validate_value_physical_button(physical_devices, src_device, *src_button) {
                    Ok(input) => {
                        if input {
                            *active_shift_mode = active_shift_mode.enabled(*shift_mask);
                        } else {
                            *active_shift_mode = active_shift_mode.disabled(*shift_mask);
                        }
                        Ok(())
                    },
                    Err(e) => Err(e),
                }
            },
            LogicalRebind::MomentaryDisableShiftMode { src_device, src_button, shift_mask } => {
                match validate_value_physical_button(physical_devices, src_device, *src_button) {
                    Ok(input) => {
                        if input {
                            *active_shift_mode = active_shift_mode.disabled(*shift_mask);
                        } else {
                            *active_shift_mode = active_shift_mode.enabled(*shift_mask);
                        }
                        Ok(())
                    },
                    Err(e) => Err(e),
                }
            },
        }
    }
}

} // verus!
