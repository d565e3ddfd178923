//! Rebinds that read physical channels and write one virtual channel.

use vstd::prelude::*;
use crate::axis_to_axis::{AxisToAxisModifier, AxisToAxisModifierView, apply_axis_modifier, axis_modifier_after, axis_modifier_output, convert_axis_to_vjoy_range, curve_is_function, curve_of, vjoy_range};
use crate::button_to_button::{ButtonToButtonModifier, apply_button_modifier, button_modifier_after, button_output};
use crate::device::{PhysicalDevice, PhysicalDeviceView, VirtualDevice, VirtualDeviceView, physical_views, virtual_views, with_axis, with_button, with_hat, write_axis, write_button, write_hat};
use crate::error::Error;
use crate::hat_to_hat::{HatToHatModifier, apply_hat_modifier, convert_hat_type_to_vjoy, hat_state_of};
use crate::merge_axes::{MergeAxesModifier, apply_merge_axes_modifier, merge_axes_output};
use crate::two_buttons_to_axis::{TwoButtonsToAxisModifier, apply_two_buttons_to_axis_modifier, two_buttons_after, two_buttons_output};
use crate::validate::{Failure, failure_of, first_failure, lookup_failure, physical_axis, physical_button, physical_hat, validate_handle_virtual_axis, validate_handle_virtual_button, validate_handle_virtual_hat, validate_value_physical_axis, validate_value_physical_button, validate_value_physical_hat, virtual_axis_slot, virtual_button_slot, virtual_hat_slot};

verus! {

/// A rebind from physical channels to one virtual channel.
#[derive(Debug, Clone, PartialEq, Eq)]
pub enum RerouteRebind {
    ButtonToButton { src_device: String, src_button: u32, dst_device: u32, dst_button: u32, modifier: ButtonToButtonModifier },
    TwoButtonsToAxis {
        src_neg_device: String,
        src_neg_button: u32,
        src_pos_device: String,
        src_pos_button: u32,
        dst_device: u32,
        dst_axis: u32,
        modifier: TwoButtonsToAxisModifier,
    },
    HatToHat { src_device: String, src_hat: u32, dst_device: u32, dst_hat: u32, modifier: HatToHatModifier },
    AxisToAxis { src_device: String, src_axis: u32, dst_device: u32, dst_axis: u32, modifier: AxisToAxisModifier },
    MergeAxes {
        src_0_device: String,
        src_0_axis: u32,
        src_1_device: String,
        src_1_axis: u32,
        dst_device: u32,
        dst_axis: u32,
        modifier: MergeAxesModifier,
    },
}

/// What a [`RerouteRebind`] holds.
pub enum RerouteRebindView {
    ButtonToButton { src_device: Seq<char>, src_button: u32, dst_device: u32, dst_button: u32, modifier: ButtonToButtonModifier },
    TwoButtonsToAxis {
        src_neg_device: Seq<char>,
        src_neg_button: u32,
        src_pos_device: Seq<char>,
        src_pos_button: u32,
        dst_device: u32,
        dst_axis: u32,
        modifier: TwoButtonsToAxisModifier,
    },
    HatToHat { src_device: Seq<char>, src_hat: u32, dst_device: u32, dst_hat: u32, modifier: HatToHatModifier },
    AxisToAxis { src_device: Seq<char>, src_axis: u32, dst_device: u32, dst_axis: u32, modifier: AxisToAxisModifierView },
    MergeAxes {
        src_0_device: Seq<char>,
        src_0_axis: u32,
        src_1_device: Seq<char>,
        src_1_axis: u32,
        dst_device: u32,
        dst_axis: u32,
        modifier: MergeAxesModifier,
    },
}

impl View for RerouteRebind {
    type V = RerouteRebindView;

    open spec fn view(&self) -> RerouteRebindView {
        match self {
            RerouteRebind::ButtonToButton { src_device, src_button, dst_device, dst_button, modifier } => RerouteRebindView::ButtonToButton {
                src_device: src_device@,
                src_button: *src_button,
                dst_device: *dst_device,
                dst_button: *dst_button,
                modifier: *modifier,
            },
            RerouteRebind::TwoButtonsToAxis {
                src_neg_device,
                src_neg_button,
                src_pos_device,
                src_pos_button,
                dst_device,
                dst_axis,
                modifier,
            } => RerouteRebindView::TwoButtonsToAxis {
                src_neg_device: src_neg_device@,
                src_neg_button: *src_neg_button,
                src_pos_device: src_pos_device@,
                src_pos_button: *src_pos_button,
                dst_device: *dst_device,
                dst_axis: *dst_axis,
                modifier: *modifier,
            },
            RerouteRebind::HatToHat { src_device, src_hat, dst_device, dst_hat, modifier } => RerouteRebindView::HatToHat {
                src_device: src_device@,
                src_hat: *src_hat,
                dst_device: *dst_device,
                dst_hat: *dst_hat,
                modifier: *modifier,
            },
            RerouteRebind::AxisToAxis { src_device, src_axis, dst_device, dst_axis, modifier } => RerouteRebindView::AxisToAxis {
                src_device: src_device@,
                src_axis: *src_axis,
                dst_device: *dst_device,
                dst_axis: *dst_axis,
                modifier: modifier@,
            },
            RerouteRebind::MergeAxes {
                src_0_device,
                src_0_axis,
                src_1_device,
                src_1_axis,
                dst_device,
                dst_axis,
                modifier,
            } => RerouteRebindView::MergeAxes {
                src_0_device: src_0_device@,
                src_0_axis: *src_0_axis,
                src_1_device: src_1_device@,
                src_1_axis: *src_1_axis,
                dst_device: *dst_device,
                dst_axis: *dst_axis,
                modifier: *modifier,
            },
        }
    }
}

/// Whether every reference of the rebind resolves.
pub open spec fn reroute_resolves(rebind: RerouteRebindView, physicals: Seq<PhysicalDeviceView>, virtuals: Seq<VirtualDeviceView>) -> bool {
    match rebind {
        RerouteRebindView::ButtonToButton { src_device, src_button, dst_device, dst_button, modifier } => {
            &&& physical_button(physicals, src_device, src_button) is Found
            &&& virtual_button_slot(virtuals, dst_device, dst_button) is Found
        },
        RerouteRebindView::TwoButtonsToAxis {
            src_neg_device,
            src_neg_button,
            src_pos_device,
            src_pos_button,
            dst_device,
            dst_axis,
            modifier,
        } => {
            &&& physical_button(physicals, src_neg_device, src_neg_button) is Found
            &&& physical_button(physicals, src_pos_device, src_pos_button) is Found
            &&& virtual_axis_slot(virtuals, dst_device, dst_axis) is Found
        },
        RerouteRebindView::HatToHat { src_device, src_hat, dst_device, dst_hat, modifier } => {
            &&& physical_hat(physicals, src_device, src_hat) is Found
            &&& virtual_hat_slot(virtuals, dst_device, dst_hat) is Found
        },
        RerouteRebindView::AxisToAxis { src_device, src_axis, dst_device, dst_axis, modifier } => {
            &&& physical_axis(physicals, src_device, src_axis) is Found
            &&& virtual_axis_slot(virtuals, dst_device, dst_axis) is Found
        },
        RerouteRebindView::MergeAxes {
            src_0_device,
            src_0_axis,
            src_1_device,
            src_1_axis,
            dst_device,
            dst_axis,
            modifier,
        } => {
            &&& physical_axis(physicals, src_0_device, src_0_axis) is Found
            &&& physical_axis(physicals, src_1_device, src_1_axis) is Found
            &&& virtual_axis_slot(virtuals, dst_device, dst_axis) is Found
        },
    }
}

/// Why a reroute rebind is not evaluated, if it is not: the first of its
/// references that does not resolve, the sources before the destination.
pub open spec fn reroute_failure(rebind: RerouteRebindView, physicals: Seq<PhysicalDeviceView>, virtuals: Seq<VirtualDeviceView>) -> Option<Failure> {
    match rebind {
        RerouteRebindView::ButtonToButton { src_device, src_button, dst_device, dst_button, modifier } => first_failure(
            lookup_failure(physical_button(physicals, src_device, src_button), Failure::PhysicalButton(src_device, src_button)),
            lookup_failure(
                virtual_button_slot(virtuals, dst_device, dst_button),
                Failure::VirtualButton(dst_device, dst_button),
            ),
        ),
        RerouteRebindView::TwoButtonsToAxis {
            src_neg_device,
            src_neg_button,
            src_pos_device,
            src_pos_button,
            dst_device,
            dst_axis,
            modifier,
        } => first_failure(
            lookup_failure(
                physical_button(physicals, src_neg_device, src_neg_button),
                Failure::PhysicalButton(src_neg_device, src_neg_button),
            ),
            first_failure(
                lookup_failure(
                    physical_button(physicals, src_pos_device, src_pos_button),
                    Failure::PhysicalButton(src_pos_device, src_pos_button),
                ),
                lookup_failure(virtual_axis_slot(virtuals, dst_device, dst_axis), Failure::VirtualAxis(dst_device, dst_axis)),
            ),
        ),
        RerouteRebindView::HatToHat { src_device, src_hat, dst_device, dst_hat, modifier } => first_failure(
            lookup_failure(physical_hat(physicals, src_device, src_hat), Failure::PhysicalHat(src_device, src_hat)),
            lookup_failure(virtual_hat_slot(virtuals, dst_device, dst_hat), Failure::VirtualHat(dst_device, dst_hat)),
        ),
        RerouteRebindView::AxisToAxis { src_device, src_axis, dst_device, dst_axis, modifier } => first_failure(
            lookup_failure(physical_axis(physicals, src_device, src_axis), Failure::PhysicalAxis(src_device, src_axis)),
            lookup_failure(virtual_axis_slot(virtuals, dst_device, dst_axis), Failure::VirtualAxis(dst_device, dst_axis)),
        ),
        RerouteRebindView::MergeAxes {
            src_0_device,
            src_0_axis,
            src_1_device,
            src_1_axis,
            dst_device,
            dst_axis,
            modifier,
        } => first_failure(
            lookup_failure(physical_axis(physicals, src_0_device, src_0_axis), Failure::PhysicalAxis(src_0_device, src_0_axis)),
            first_failure(
                lookup_failure(
                    physical_axis(physicals, src_1_device, src_1_axis),
                    Failure::PhysicalAxis(src_1_device, src_1_axis),
                ),
                lookup_failure(virtual_axis_slot(virtuals, dst_device, dst_axis), Failure::VirtualAxis(dst_device, dst_axis)),
            ),
        ),
    }
}

/// The rebind after it was evaluated: its modifier advanced where every
/// reference resolves, and as it was where not.
pub open spec fn reroute_rebind_after(
    rebind: RerouteRebindView,
    physicals: Seq<PhysicalDeviceView>,
    virtuals: Seq<VirtualDeviceView>,
    time: u64,
) -> RerouteRebindView {
    if !reroute_resolves(rebind, physicals, virtuals) {
        rebind
    } else {
        match rebind {
            RerouteRebindView::ButtonToButton { src_device, src_button, dst_device, dst_button, modifier } => RerouteRebindView::ButtonToButton {
                src_device,
                src_button,
                dst_device,
                dst_button,
                modifier: button_modifier_after(modifier, physical_button(physicals, src_device, src_button)->Found_0, time),
            },
            RerouteRebindView::TwoButtonsToAxis {
                src_neg_device,
                src_neg_button,
                src_pos_device,
                src_pos_button,
                dst_device,
                dst_axis,
                modifier,
            } => RerouteRebindView::TwoButtonsToAxis {
                src_neg_device,
                src_neg_button,
                src_pos_device,
                src_pos_button,
                dst_device,
                dst_axis,
                modifier: two_buttons_after(
                    modifier,
                    physical_button(physicals, src_neg_device, src_neg_button)->Found_0,
                    physical_button(physicals, src_pos_device, src_pos_button)->Found_0,
                ),
            },
            RerouteRebindView::HatToHat { src_device, src_hat, dst_device, dst_hat, modifier } => rebind,
            RerouteRebindView::AxisToAxis { src_device, src_axis, dst_device, dst_axis, modifier } => RerouteRebindView::AxisToAxis {
                src_device,
                src_axis,
                dst_device,
                dst_axis,
                modifier: axis_modifier_after(modifier, physical_axis(physicals, src_device, src_axis)->Found_0),
            },
            RerouteRebindView::MergeAxes {
                src_0_device,
                src_0_axis,
                src_1_device,
                src_1_axis,
                dst_device,
                dst_axis,
                modifier,
            } => rebind,
        }
    }
}

/// The virtual devices after the rebind was evaluated: its destination
/// written where every reference resolves, and as they were where not.
pub open spec fn reroute_virtuals_after(
    rebind: RerouteRebindView,
    physicals: Seq<PhysicalDeviceView>,
    virtuals: Seq<VirtualDeviceView>,
    time: u64,
    delta_t: u64,
    curve: spec_fn(i64, u32) -> i32,
) -> Seq<VirtualDeviceView> {
    if !reroute_resolves(rebind, physicals, virtuals) {
        virtuals
    } else {
        match rebind {
            RerouteRebindView::ButtonToButton { src_device, src_button, dst_device, dst_button, modifier } => {
                let (d, c) = virtual_button_slot(virtuals, dst_device, dst_button)->Found_0;
                with_button(
                    virtuals,
                    d,
                    c,
                    button_output(
                        modifier,
                        physical_button(physicals, src_device, src_button)->Found_0,
                        virtuals[d].buttons[c],
                        time,
                    ),
                )
            },
            RerouteRebindView::TwoButtonsToAxis {
                src_neg_device,
                src_neg_button,
                src_pos_device,
                src_pos_button,
                dst_device,
                dst_axis,
                modifier,
            } => {
                let (d, c) = virtual_axis_slot(virtuals, dst_device, dst_axis)->Found_0;
                with_axis(
                    virtuals,
                    d,
                    c,
                    two_buttons_output(
                        modifier,
                        physical_button(physicals, src_neg_device, src_neg_button)->Found_0,
                        physical_button(physicals, src_pos_device, src_pos_button)->Found_0,
                        virtuals[d].axes[c],
                        delta_t,
                    ) as i32,
                )
            },
            RerouteRebindView::HatToHat { src_device, src_hat, dst_device, dst_hat, modifier } => {
                let (d, c) = virtual_hat_slot(virtuals, dst_device, dst_hat)->Found_0;
                with_hat(
                    virtuals,
                    d,
                    c,
                    hat_state_of(virtuals[d].hats[c], physical_hat(physicals, src_device, src_hat)->Found_0),
                )
            },
            RerouteRebindView::AxisToAxis { src_device, src_axis, dst_device, dst_axis, modifier } => {
                let (d, c) = virtual_axis_slot(virtuals, dst_device, dst_axis)->Found_0;
                with_axis(
                    virtuals,
                    d,
                    c,
                    vjoy_range(
                        axis_modifier_output(modifier, physical_axis(physicals, src_device, src_axis)->Found_0, curve),
                    ) as i32,
                )
            },
            RerouteRebindView::MergeAxes {
                src_0_device,
                src_0_axis,
                src_1_device,
                src_1_axis,
                dst_device,
                dst_axis,
                modifier,
            } => {
                let (d, c) = virtual_axis_slot(virtuals, dst_device, dst_axis)->Found_0;
                with_axis(
                    virtuals,
                    d,
                    c,
                    vjoy_range(
                        merge_axes_output(
                            modifier,
                            physical_axis(physicals, src_0_device, src_0_axis)->Found_0,
                            physical_axis(physicals, src_1_device, src_1_axis)->Found_0,
                        ),
                    ) as i32,
                )
            },
        }
    }
}

impl Default for RerouteRebind {
    fn default() -> (rebind: Self)
        ensures
            rebind@ == (RerouteRebindView::ButtonToButton {
                src_device: Seq::empty(),
                src_button: 0,
                dst_device: 0,
                dst_button: 0,
                modifier: ButtonToButtonModifier::Simple,
            }),
    {
        RerouteRebind::ButtonToButton {
            src_device: String::new(),
            src_button: 0,
            dst_device: 0,
            dst_button: 0,
            modifier: ButtonToButtonModifier::Simple,
        }
    }
}

impl RerouteRebind {
    /// Evaluates the rebind: resolves its sources and its destination, runs
    /// the modifier on what was read and writes the result, in the range of
    /// the virtual channel, to the destination. Where a reference does not
    /// resolve, nothing changes and the failure is returned.
    pub fn process<C: Fn(i64, u32) -> i32>(
        &mut self,
        physical_devices: &Vec<PhysicalDevice>,
        virtual_devices: &mut Vec<VirtualDevice>,
        time: u64,
        delta_t: u64,
        curve: &C,
    ) -> (result: Result<(), Error>)
        requires
            curve_is_function(curve),
        ensures
            final(self)@ == reroute_rebind_after(
                old(self)@,
                physical_views(physical_devices@),
                virtual_views(old(virtual_devices)@),
                time,
            ),
            virtual_views(final(virtual_devices)@) == reroute_virtuals_after(
                old(self)@,
                physical_views(physical_devices@),
                virtual_views(old(virtual_devices)@),
                time,
                delta_t,
                curve_of(curve),
            ),
            result is Ok <==> reroute_resolves(
                old(self)@,
                physical_views(physical_devices@),
                virtual_views(old(virtual_devices)@),
            ),
            match reroute_failure(old(self)@, physical_views(physical_devices@), virtual_views(old(virtual_devices)@)) {
                Some(failure) => result matches Err(error) && failure_of(error) == Some(failure),
                None => result is Ok,
            },
    {
        match self {
            RerouteRebind::ButtonToButton { src_device, src_button, dst_device, dst_button, modifier } => {
                let input = match validate_value_physical_button(physical_devices, src_device, *src_button) {
                    Ok(input) => input,
                    Err(e) => {
                        return Err(e);
                    },
                };
                let (d, c) = match validate_handle_virtual_button(virtual_devices, *dst_device, *dst_button) {
                    Ok(slot) => slot,
                    Err(e) => {
                        return Err(e);
                    },
                };
                let output = virtual_devices[d].buttons[c];
                let modified_state = apply_button_modifier(input, output, modifier, time);
                write_button(virtual_devices, d, c, modified_state);
            },
            RerouteRebind::HatToHat { src_device, src_hat, dst_device, dst_hat, modifier } => {
                let input = match validate_value_physical_hat(physical_devices, src_device, *src_hat) {
                    Ok(input) => input,
                    Err(e) => {
                        return Err(e);
                    },
                };
                let (d, c) = match validate_handle_virtual_hat(virtual_devices, *dst_device, *dst_hat) {
                    Ok(slot) => slot,
                    Err(e) => {
                        return Err(e);
                    },
                };
                let modified_state = apply_hat_modifier(input, modifier);
                let converted_state = convert_hat_type_to_vjoy(virtual_devices[d].hats[c], modified_state);
                write_hat(virtual_devices, d, c, converted_state);
            },
            RerouteRebind::AxisToAxis { src_device, src_axis, dst_device, dst_axis, modifier } => {
                let input = match validate_value_physical_axis(physical_devices, src_device, *src_axis) {
                    Ok(input) => input,
                    Err(e) => {
                        return Err(e);
                    },
                };
                let (d, c) = match validate_handle_virtual_axis(virtual_devices, *dst_device, *dst_axis) {
                    Ok(slot) => slot,
                    Err(e) => {
                        return Err(e);
                    },
                };
                let modified_state = apply_axis_modifier(input, modifier, curve);
                let converted_state = convert_axis_to_vjoy_range(modified_state);
                write_axis(virtual_devices, d, c, converted_state);
            },
            RerouteRebind::MergeAxes {
                src_0_device,
                src_0_axis,
                src_1_device,
                src_1_axis,
                dst_device,
                dst_axis,
                modifier,
            } => {
                let input_0 = match validate_value_physical_axis(physical_devices, src_0_device, *src_0_axis) {
                    Ok(input) => input,
                    Err(e) => {
                        return Err(e);
                    },
                };
                let input_1 = match validate_value_physical_axis(physical_devices, src_1_device, *src_1_axis) {
                    Ok(input) => input,
                    Err(e) => {
                        return Err(e);
                    },
                };
                let (d, c) = match validate_handle_virtual_axis(virtual_devices, *dst_device, *dst_axis) {
                    Ok(slot) => slot,
                    Err(e) => {
                        return Err(e);
                    },
                };
                let modified_state = apply_merge_axes_modifier(input_0, input_1, modifier);
                let converted_state = convert_axis_to_vjoy_range(modified_state);
                write_axis(virtual_devices, d, c, converted_state);
            },
            RerouteRebind::TwoButtonsToAxis {
                src_neg_device,
                src_neg_button,
                src_pos_device,
                src_pos_button,
                dst_device,
                dst_axis,
                modifier,
            } => {
                let input_neg = match validate_value_physical_button(physical_devices, src_neg_device, *src_neg_button) {
                    Ok(input) => input,
                    Err(e) => {
                        return Err(e);
                    },
                };
                let input_pos = match validate_value_physical_button(physical_devices, src_pos_device, *src_pos_button) {
                    Ok(input) => input,
                    Err(e) => {
                        return Err(e);
                    },
                };
                let (d, c) = match validate_handle_virtual_axis(virtual_devices, *dst_device, *dst_axis) {
                    Ok(slot) => slot,
                    Err(e) => {
                        return Err(e);
                    },
                };
                let output = virtual_devices[d].axes[c];
                let modified_state = apply_two_buttons_to_axis_modifier(input_neg, input_pos, output, modifier, delta_t);
                write_axis(virtual_devices, d, c, modified_state);
            },
        }
        Ok(())
    }
}

} // verus!
