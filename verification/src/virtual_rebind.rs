//! Rebinds that read and write virtual channels only.

use vstd::prelude::*;
use crate::device::{VirtualDevice, VirtualDeviceView, virtual_views, with_axis, write_axis};
use crate::error::Error;
use crate::validate::{Failure, failure_of, first_failure, lookup_failure, validate_handle_virtual_axis, validate_value_virtual_button, virtual_axis_slot, virtual_button};
use crate::virtual_axis_trim::{VirtualAxisTrimModifier, VirtualAxisTrimParams, apply_virtual_axis_trim_modifier, trim_after, trim_output};

verus! {

/// A rebind that works on the state of the virtual devices.
#[derive(Debug, Clone, Copy, PartialEq, Eq, Structural)]
pub enum VirtualRebind {
    /// Three virtual buttons lower, raise and reset a trim that is applied to
    /// a virtual axis.
    VirtualAxisApplyButtonTrim {
        axis_device: u32,
        axis: u32,
        trim_neg_device: u32,
        trim_neg_button: u32,
        trim_pos_device: u32,
        trim_pos_button: u32,
        trim_reset_device: u32,
        trim_reset_button: u32,
        modifier: VirtualAxisTrimModifier,
    },
}

/// Whether every reference of the rebind resolves.
pub open spec fn virtual_resolves(rebind: VirtualRebind, virtuals: Seq<VirtualDeviceView>) -> bool {
    match rebind {
        VirtualRebind::VirtualAxisApplyButtonTrim {
            axis_device,
            axis,
            trim_neg_device,
            trim_neg_button,
            trim_pos_device,
            trim_pos_button,
            trim_reset_device,
            trim_reset_button,
            modifier,
        } => {
            &&& virtual_button(virtuals, trim_neg_device, trim_neg_button) is Found
            &&& virtual_button(virtuals, trim_pos_device, trim_pos_button) is Found
            &&& virtual_button(virtuals, trim_reset_device, trim_reset_button) is Found
            &&& virtual_axis_slot(virtuals, axis_device, axis) is Found
        },
    }
}

/// Why a virtual rebind is not evaluated, if it is not: the first of its
/// references that does not resolve, the buttons before the axis.
pub open spec fn virtual_failure(rebind: VirtualRebind, virtuals: Seq<VirtualDeviceView>) -> Option<Failure> {
    match rebind {
        VirtualRebind::VirtualAxisApplyButtonTrim {
            axis_device,
            axis,
            trim_neg_device,
            trim_neg_button,
            trim_pos_device,
            trim_pos_button,
            trim_reset_device,
            trim_reset_button,
            modifier,
        } => first_failure(
            lookup_failure(
                virtual_button(virtuals, trim_neg_device, trim_neg_button),
                Failure::VirtualButton(trim_neg_device, trim_neg_button),
            ),
            first_failure(
                lookup_failure(
                    virtual_button(virtuals, trim_pos_device, trim_pos_button),
                    Failure::VirtualButton(trim_pos_device, trim_pos_button),
                ),
                first_failure(
                    lookup_failure(
                        virtual_button(virtuals, trim_reset_device, trim_reset_button),
                        Failure::VirtualButton(trim_reset_device, trim_reset_button),
                    ),
                    lookup_failure(virtual_axis_slot(virtuals, axis_device, axis), Failure::VirtualAxis(axis_device, axis)),
                ),
            ),
        ),
    }
}

/// The rebind after it was evaluated: its modifier advanced where every
/// reference resolves, and as it was where not.
pub open spec fn virtual_rebind_after(rebind: VirtualRebind, virtuals: Seq<VirtualDeviceView>, delta_t: u64) -> VirtualRebind {
    if !virtual_resolves(rebind, virtuals) {
        rebind
    } else {
        match rebind {
            VirtualRebind::VirtualAxisApplyButtonTrim {
                axis_device,
                axis,
                trim_neg_device,
                trim_neg_button,
                trim_pos_device,
                trim_pos_button,
                trim_reset_device,
                trim_reset_button,
                modifier,
            } => VirtualRebind::VirtualAxisApplyButtonTrim {
                axis_device,
                axis,
                trim_neg_device,
                trim_neg_button,
                trim_pos_device,
                trim_pos_button,
                trim_reset_device,
                trim_reset_button,
                modifier: trim_after(
                    modifier,
                    virtual_button(virtuals, trim_neg_device, trim_neg_button)->Found_0,
                    virtual_button(virtuals, trim_pos_device, trim_pos_button)->Found_0,
                    virtual_button(virtuals, trim_reset_device, trim_reset_button)->Found_0,
                    delta_t,
                ),
            },
        }
    }
}

/// The virtual devices after the rebind was evaluated: its axis rewritten
/// where every reference resolves, and as they were where not.
pub open spec fn virtual_virtuals_after(rebind: VirtualRebind, virtuals: Seq<VirtualDeviceView>, delta_t: u64) -> Seq<VirtualDeviceView> {
    if !virtual_resolves(rebind, virtuals) {
        virtuals
    } else {
        match rebind {
            VirtualRebind::VirtualAxisApplyButtonTrim {
                axis_device,
                axis,
                trim_neg_device,
                trim_neg_button,
                trim_pos_device,
                trim_pos_button,
                trim_reset_device,
                trim_reset_button,
                modifier,
            } => {
                let (d, c) = virtual_axis_slot(virtuals, axis_device, axis)->Found_0;
                with_axis(
                    virtuals,
                    d,
                    c,
                    trim_output(
                        modifier,
                        virtuals[d].axes[c],
                        virtual_button(virtuals, trim_neg_device, trim_neg_button)->Found_0,
                        virtual_button(virtuals, trim_pos_device, trim_pos_button)->Found_0,
                        virtual_button(virtuals, trim_reset_device, trim_reset_button)->Found_0,
                        delta_t,
                    ) as i32,
                )
            },
        }
    }
}

impl Default for VirtualRebind {
    fn default() -> (rebind: Self)
        ensures
            rebind == (VirtualRebind::VirtualAxisApplyButtonTrim {
                axis_device: 0,
                axis: 0,
                trim_neg_device: 0,
                trim_neg_button: 0,
                trim_pos_device: 0,
                trim_pos_button: 0,
                trim_reset_device: 0,
                trim_reset_button: 0,
                modifier: VirtualAxisTrimModifier::Click {
                    params: VirtualAxisTrimParams {
                        value_normalized: 0,
                        accumulated: 0,
                        last_input_neg: false,
                        last_input_pos: false,
                    },
                },
            }),
    {
        VirtualRebind::VirtualAxisApplyButtonTrim {
            axis_device: 0,
            axis: 0,
            trim_neg_device: 0,
            trim_neg_button: 0,
            trim_pos_device: 0,
            trim_pos_button: 0,
            trim_reset_device: 0,
            trim_reset_button: 0,
            modifier: VirtualAxisTrimModifier::default(),
        }
    }
}

impl VirtualRebind {
    /// Evaluates the rebind: reads the three trim buttons and the axis from
    /// the virtual devices, adjusts the trim and writes the trimmed value back
    /// to the axis. Where a reference does not resolve, nothing changes and the
    /// failure is returned.
    pub fn process(&mut self, virtual_devices: &mut Vec<VirtualDevice>, delta_t: u64) -> (result: Result<(), Error>)
        ensures
            *final(self) == virtual_rebind_after(*old(self), virtual_views(old(virtual_devices)@), delta_t),
            virtual_views(final(virtual_devices)@) == virtual_virtuals_after(
                *old(self),
                virtual_views(old(virtual_devices)@),
                delta_t,
            ),
            result is Ok <==> virtual_resolves(*old(self), virtual_views(old(virtual_devices)@)),
            match virtual_failure(*old(self), virtual_views(old(virtual_devices)@)) {
                Some(failure) => result matches Err(error) && failure_of(error) == Some(failure),
                None => result is Ok,
            },
    {
        match self {
            VirtualRebind::VirtualAxisApplyButtonTrim {
                axis_device,
                axis,
                trim_neg_device,
                trim_neg_button,
                trim_pos_device,
                trim_pos_button,
                trim_reset_device,
                trim_reset_button,
                modifier,
            } => {
                let trim_neg = match validate_value_virtual_button(virtual_devices, *trim_neg_device, *trim_neg_button) {
                    Ok(held) => held,
                    Err(e) => {
                        return Err(e);
                    },
                };
                let trim_pos = match validate_value_virtual_button(virtual_devices, *trim_pos_device, *trim_pos_button) {
                    Ok(held) => held,
                    Err(e) => {
                        return Err(e);
                    },
                };
                let trim_reset = match validate_value_virtual_button(virtual_devices, *trim_reset_device, *trim_reset_button) {
                    Ok(held) => held,
                    Err(e) => {
                        return Err(e);
                    },
                };
                let (d, c) = match validate_handle_virtual_axis(virtual_devices, *axis_device, *axis) {
                    Ok(slot) => slot,
                    Err(e) => {
                        return Err(e);
                    },
                };
                let modified_state = apply_virtual_axis_trim_modifier(
                    virtual_devices[d].axes[c],
                    trim_neg,
                    trim_pos,
                    trim_reset,
                    delta_t,
                    modifier,
                );
                write_axis(virtual_devices, d, c, modified_state);
            },
        }
        Ok(())
    }
}

} // verus!
