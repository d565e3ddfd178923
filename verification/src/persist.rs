//! Rebinds as records: what is written of a rebind, and how a record is read
//! back. Running state of modifiers is not written and is at rest after reading.

use vstd::prelude::*;
use crate::activation_interval::ActivationIntervalParams;
use crate::axis_to_axis::{AxisParams, AxisParamsView, AxisToAxisModifier, AxisToAxisModifierView, axis_params_persistent, linearity_ingested};
use crate::button_to_button::{ButtonToButtonModifier, button_modifier_persistent};
use crate::document::{Key, Record, Tag, Value, ValueView, boolean_at, integer_at, tag_at, text_at};
use crate::hat_to_hat::HatToHatModifier;
use crate::logical_rebind::{LogicalRebind, LogicalRebindView};
use crate::merge_axes::MergeAxesModifier;
use crate::rebind::{Rebind, RebindType, RebindTypeView, RebindView};
use crate::reroute_rebind::{RerouteRebind, RerouteRebindView};
use crate::shift_mode_mask::ShiftModeMask;
use crate::two_buttons_to_axis::{TwoButtonsToAxisModifier, two_buttons_persistent};
use crate::virtual_axis_trim::{VirtualAxisTrimModifier, VirtualAxisTrimParams, trim_persistent};
use crate::virtual_rebind::VirtualRebind;

verus! {

/// The integer under `key` where it fits 8 bits without sign.
pub open spec fn u8_at(record: Map<Key, ValueView>, key: Key) -> Option<u8> {
    match integer_at(record, key) {
        Some(value) => if 0 <= value <= u8::MAX {
            Some(value as u8)
        } else {
            None
        },
        None => None,
    }
}

/// The integer under `key` where it fits 32 bits without sign.
pub open spec fn u32_at(record: Map<Key, ValueView>, key: Key) -> Option<u32> {
    match integer_at(record, key) {
        Some(value) => if 0 <= value <= u32::MAX {
            Some(value as u32)
        } else {
            None
        },
        None => None,
    }
}

/// The integer under `key` where it fits 32 bits with sign.
pub open spec fn i32_at(record: Map<Key, ValueView>, key: Key) -> Option<i32> {
    match integer_at(record, key) {
        Some(value) => if i32::MIN <= value <= i32::MAX {
            Some(value as i32)
        } else {
            None
        },
        None => None,
    }
}

/// The integer under `key` where it fits 64 bits without sign.
pub open spec fn u64_at(record: Map<Key, ValueView>, key: Key) -> Option<u64> {
    match integer_at(record, key) {
        Some(value) => if 0 <= value <= u64::MAX {
            Some(value as u64)
        } else {
            None
        },
        None => None,
    }
}

/// The integer under `key` where it is a size.
pub open spec fn usize_at(record: Map<Key, ValueView>, key: Key) -> Option<usize> {
    match integer_at(record, key) {
        Some(value) => if 0 <= value <= usize::MAX {
            Some(value as usize)
        } else {
            None
        },
        None => None,
    }
}

/// A record with the window and the sustain of a debouncer added.
pub open spec fn interval_record(record: Map<Key, ValueView>, params: ActivationIntervalParams) -> Map<Key, ValueView> {
    let with_window = record.insert(Key::IntervalStart, ValueView::Integer(params.interval_start as i128)).insert(
        Key::IntervalEnd,
        ValueView::Integer(params.interval_end as i128),
    );
    match params.sustain {
        Some(sustain) => with_window.insert(Key::Sustain, ValueView::Integer(sustain as i128)),
        None => with_window,
    }
}

/// The debouncer that a record describes, at rest. Without an entry for the
/// sustain there is none.
pub open spec fn record_interval(record: Map<Key, ValueView>) -> Option<ActivationIntervalParams> {
    match (u64_at(record, Key::IntervalStart), u64_at(record, Key::IntervalEnd)) {
        (Some(interval_start), Some(interval_end)) => if record.contains_key(Key::Sustain) {
            match u64_at(record, Key::Sustain) {
                Some(sustain) => Some(
                    ActivationIntervalParams {
                        interval_start,
                        interval_end,
                        sustain: Some(sustain),
                        last_input: false,
                        activation_start: 0,
                        activation_end: 0,
                    },
                ),
                None => None,
            }
        } else {
            Some(
                ActivationIntervalParams {
                    interval_start,
                    interval_end,
                    sustain: None,
                    last_input: false,
                    activation_start: 0,
                    activation_end: 0,
                },
            )
        },
        _ => None,
    }
}

/// A record with a button modifier added.
pub open spec fn button_modifier_record(record: Map<Key, ValueView>, modifier: ButtonToButtonModifier) -> Map<Key, ValueView> {
    match modifier {
        ButtonToButtonModifier::Simple => record.insert(Key::Modifier, ValueView::Tag(Tag::Simple)),
        ButtonToButtonModifier::Toggle { last_input } => record.insert(Key::Modifier, ValueView::Tag(Tag::Toggle)),
        ButtonToButtonModifier::ActivationIntervalSimple { params } => interval_record(
            record.insert(Key::Modifier, ValueView::Tag(Tag::ActivationIntervalSimple)),
            params,
        ),
        ButtonToButtonModifier::ActivationIntervalToggle { params } => interval_record(
            record.insert(Key::Modifier, ValueView::Tag(Tag::ActivationIntervalToggle)),
            params,
        ),
    }
}

/// The button modifier that a record describes, at rest.
pub open spec fn record_button_modifier(record: Map<Key, ValueView>) -> Option<ButtonToButtonModifier> {
    match tag_at(record, Key::Modifier) {
        Some(Tag::Simple) => Some(ButtonToButtonModifier::Simple),
        Some(Tag::Toggle) => Some(ButtonToButtonModifier::Toggle { last_input: false }),
        Some(Tag::ActivationIntervalSimple) => match record_interval(record) {
            Some(params) => Some(ButtonToButtonModifier::ActivationIntervalSimple { params }),
            None => None,
        },
        Some(Tag::ActivationIntervalToggle) => match record_interval(record) {
            Some(params) => Some(ButtonToButtonModifier::ActivationIntervalToggle { params }),
            None => None,
        },
        _ => None,
    }
}

/// A record with a two-buttons modifier added.
pub open spec fn two_buttons_record(record: Map<Key, ValueView>, modifier: TwoButtonsToAxisModifier) -> Map<Key, ValueView> {
    match modifier {
        TwoButtonsToAxisModifier::Absolute => record.insert(Key::Modifier, ValueView::Tag(Tag::Absolute)),
        TwoButtonsToAxisModifier::Linear { coefficient, keep_value } => record.insert(
            Key::Modifier,
            ValueView::Tag(Tag::Linear),
        ).insert(Key::Coefficient, ValueView::Integer(coefficient as i128)).insert(
            Key::KeepValue,
            ValueView::Boolean(keep_value),
        ),
        TwoButtonsToAxisModifier::Click { coefficient, last_input_neg, last_input_pos } => record.insert(
            Key::Modifier,
            ValueView::Tag(Tag::Click),
        ).insert(Key::Coefficient, ValueView::Integer(coefficient as i128)),
    }
}

/// The two-buttons modifier that a record describes, at rest.
pub open spec fn record_two_buttons(record: Map<Key, ValueView>) -> Option<TwoButtonsToAxisModifier> {
    match tag_at(record, Key::Modifier) {
        Some(Tag::Absolute) => Some(TwoButtonsToAxisModifier::Absolute),
        Some(Tag::Linear) => match (u32_at(record, Key::Coefficient), boolean_at(record, Key::KeepValue)) {
            (Some(coefficient), Some(keep_value)) => Some(TwoButtonsToAxisModifier::Linear { coefficient, keep_value }),
            _ => None,
        },
        Some(Tag::Click) => match u32_at(record, Key::Coefficient) {
            Some(coefficient) => Some(
                TwoButtonsToAxisModifier::Click { coefficient, last_input_neg: false, last_input_pos: false },
            ),
            None => None,
        },
        _ => None,
    }
}

/// A record with an axis modifier added.
pub open spec fn axis_modifier_record(record: Map<Key, ValueView>, modifier: AxisToAxisModifierView) -> Map<Key, ValueView> {
    match modifier {
        AxisToAxisModifierView::Parameterized { params } => record.insert(
            Key::Modifier,
            ValueView::Tag(Tag::Parameterized),
        ).insert(Key::DeadzoneCenter, ValueView::Integer(params.deadzone_center as i128)).insert(
            Key::ClampMin,
            ValueView::Integer(params.clamp_min as i128),
        ).insert(Key::ClampMax, ValueView::Integer(params.clamp_max as i128)).insert(
            Key::Invert,
            ValueView::Boolean(params.invert),
        ).insert(Key::Linearity, ValueView::Integer(params.linearity as i128)).insert(
            Key::Offset,
            ValueView::Integer(params.offset as i128),
        ).insert(Key::AvgFilter, ValueView::Integer(params.avg_filter as i128)),
    }
}

/// The axis modifier that a record describes, with an empty window. The
/// linearity is kept within its range as it is read.
pub open spec fn record_axis_modifier(record: Map<Key, ValueView>) -> Option<AxisToAxisModifierView> {
    match tag_at(record, Key::Modifier) {
        Some(Tag::Parameterized) => match (
            u32_at(record, Key::DeadzoneCenter),
            u32_at(record, Key::ClampMin),
            u32_at(record, Key::ClampMax),
            boolean_at(record, Key::Invert),
            u32_at(record, Key::Linearity),
            i32_at(record, Key::Offset),
            usize_at(record, Key::AvgFilter),
        ) {
            (
                Some(deadzone_center),
                Some(clamp_min),
                Some(clamp_max),
                Some(invert),
                Some(linearity),
                Some(offset),
                Some(avg_filter),
            ) => Some(
                AxisToAxisModifierView::Parameterized {
                    params: AxisParamsView {
                        deadzone_center,
                        clamp_min,
                        clamp_max,
                        invert,
                        linearity: linearity_ingested(linearity),
                        offset,
                        avg_filter,
                        avg_head: 0,
                        avg_data: Seq::empty(),
                    },
                },
            ),
            _ => None,
        },
        _ => None,
    }
}

/// A record with a trim modifier added.
pub open spec fn trim_record(record: Map<Key, ValueView>, modifier: VirtualAxisTrimModifier) -> Map<Key, ValueView> {
    match modifier {
        VirtualAxisTrimModifier::Click { params } => record.insert(Key::Modifier, ValueView::Tag(Tag::Click)).insert(
            Key::ValueNormalized,
            ValueView::Integer(params.value_normalized as i128),
        ),
        VirtualAxisTrimModifier::Linear { params } => record.insert(Key::Modifier, ValueView::Tag(Tag::Linear)).insert(
            Key::ValueNormalized,
            ValueView::Integer(params.value_normalized as i128),
        ),
    }
}

/// The trim modifier that a record describes, at rest.
pub open spec fn record_trim(record: Map<Key, ValueView>) -> Option<VirtualAxisTrimModifier> {
    match (tag_at(record, Key::Modifier), u32_at(record, Key::ValueNormalized)) {
        (Some(Tag::Click), Some(value_normalized)) => Some(
            VirtualAxisTrimModifier::Click {
                params: VirtualAxisTrimParams {
                    value_normalized,
                    accumulated: 0,
                    last_input_neg: false,
                    last_input_pos: false,
                },
            },
        ),
        (Some(Tag::Linear), Some(value_normalized)) => Some(
            VirtualAxisTrimModifier::Linear {
                params: VirtualAxisTrimParams {
                    value_normalized,
                    accumulated: 0,
                    last_input_neg: false,
                    last_input_pos: false,
                },
            },
        ),
        _ => None,
    }
}

/// A record with a logical rebind added.
pub open spec fn logical_record(record: Map<Key, ValueView>, rebind: LogicalRebindView) -> Map<Key, ValueView> {
    match rebind {
        LogicalRebindView::MomentaryEnableShiftMode { src_device, src_button, shift_mask } => record.insert(
            Key::Variant,
            ValueView::Tag(Tag::MomentaryEnableShiftMode),
        ).insert(Key::SrcDevice, ValueView::Text(src_device)).insert(
            Key::SrcButton,
            ValueView::Integer(src_button as i128),
        ).insert(Key::ShiftMask, ValueView::Integer(shift_mask as i128)),
        LogicalRebindView::MomentaryDisableShiftMode { src_device, src_button, shift_mask } => record.insert(
            Key::Variant,
            ValueView::Tag(Tag::MomentaryDisableShiftMode),
        ).insert(Key::SrcDevice, ValueView::Text(src_device)).insert(
            Key::SrcButton,
            ValueView::Integer(src_button as i128),
        ).insert(Key::ShiftMask, ValueView::Integer(shift_mask as i128)),
    }
}

/// The logical rebind that a record describes.
pub open spec fn record_logical(record: Map<Key, ValueView>) -> Option<LogicalRebindView> {
    match (
        tag_at(record, Key::Variant),
        text_at(record, Key::SrcDevice),
        u32_at(record, Key::SrcButton),
        u8_at(record, Key::ShiftMask),
    ) {
        (Some(Tag::MomentaryEnableShiftMode), Some(src_device), Some(src_button), Some(shift_mask)) => Some(
            LogicalRebindView::MomentaryEnableShiftMode { src_device, src_button, shift_mask },
        ),
        (Some(Tag::MomentaryDisableShiftMode), Some(src_device), Some(src_button), Some(shift_mask)) => Some(
            LogicalRebindView::MomentaryDisableShiftMode { src_device, src_button, shift_mask },
        ),
        _ => None,
    }
}

/// A record with a reroute rebind added.
pub open spec fn reroute_record(record: Map<Key, ValueView>, rebind: RerouteRebindView) -> Map<Key, ValueView> {
    match rebind {
        RerouteRebindView::ButtonToButton { src_device, src_button, dst_device, dst_button, modifier } => button_modifier_record(
            record.insert(Key::Variant, ValueView::Tag(Tag::ButtonToButton)).insert(
                Key::SrcDevice,
                ValueView::Text(src_device),
            ).insert(Key::SrcButton, ValueView::Integer(src_button as i128)).insert(
                Key::DstDevice,
                ValueView::Integer(dst_device as i128),
            ).insert(Key::DstButton, ValueView::Integer(dst_button as i128)),
            modifier,
        ),
        RerouteRebindView::TwoButtonsToAxis {
            src_neg_device,
            src_neg_button,
            src_pos_device,
            src_pos_button,
            dst_device,
            dst_axis,
            modifier,
        } => two_buttons_record(
            record.insert(Key::Variant, ValueView::Tag(Tag::TwoButtonsToAxis)).insert(
                Key::SrcNegDevice,
                ValueView::Text(src_neg_device),
            ).insert(Key::SrcNegButton, ValueView::Integer(src_neg_button as i128)).insert(
                Key::SrcPosDevice,
                ValueView::Text(src_pos_device),
            ).insert(Key::SrcPosButton, ValueView::Integer(src_pos_button as i128)).insert(
                Key::DstDevice,
                ValueView::Integer(dst_device as i128),
            ).insert(Key::DstAxis, ValueView::Integer(dst_axis as i128)),
            modifier,
        ),
        RerouteRebindView::HatToHat { src_device, src_hat, dst_device, dst_hat, modifier } => record.insert(
            Key::Variant,
            ValueView::Tag(Tag::HatToHat),
        ).insert(Key::SrcDevice, ValueView::Text(src_device)).insert(
            Key::SrcHat,
            ValueView::Integer(src_hat as i128),
        ).insert(Key::DstDevice, ValueView::Integer(dst_device as i128)).insert(
            Key::DstHat,
            ValueView::Integer(dst_hat as i128),
        ).insert(Key::Modifier, ValueView::Tag(Tag::Simple)),
        RerouteRebindView::AxisToAxis { src_device, src_axis, dst_device, dst_axis, modifier } => axis_modifier_record(
            record.insert(Key::Variant, ValueView::Tag(Tag::AxisToAxis)).insert(
                Key::SrcDevice,
                ValueView::Text(src_device),
            ).insert(Key::SrcAxis, ValueView::Integer(src_axis as i128)).insert(
                Key::DstDevice,
                ValueView::Integer(dst_device as i128),
            ).insert(Key::DstAxis, ValueView::Integer(dst_axis as i128)),
            modifier,
        ),
        RerouteRebindView::MergeAxes {
            src_0_device,
            src_0_axis,
            src_1_device,
            src_1_axis,
            dst_device,
            dst_axis,
            modifier,
        } => record.insert(Key::Variant, ValueView::Tag(Tag::MergeAxes)).insert(
            Key::Src0Device,
            ValueView::Text(src_0_device),
        ).insert(Key::Src0Axis, ValueView::Integer(src_0_axis as i128)).insert(
            Key::Src1Device,
            ValueView::Text(src_1_device),
        ).insert(Key::Src1Axis, ValueView::Integer(src_1_axis as i128)).insert(
            Key::DstDevice,
            ValueView::Integer(dst_device as i128),
        ).insert(Key::DstAxis, ValueView::Integer(dst_axis as i128)).insert(
            Key::Modifier,
            ValueView::Tag(Tag::Add),
        ),
    }
}

/// The reroute rebind that a record describes, its modifier at rest.
pub open spec fn record_reroute(record: Map<Key, ValueView>) -> Option<RerouteRebindView> {
    match tag_at(record, Key::Variant) {
        Some(Tag::ButtonToButton) => match (
            text_at(record, Key::SrcDevice),
            u32_at(record, Key::SrcButton),
            u32_at(record, Key::DstDevice),
            u32_at(record, Key::DstButton),
            record_button_modifier(record),
        ) {
            (Some(src_device), Some(src_button), Some(dst_device), Some(dst_button), Some(modifier)) => Some(
                RerouteRebindView::ButtonToButton { src_device, src_button, dst_device, dst_button, modifier },
            ),
            _ => None,
        },
        Some(Tag::TwoButtonsToAxis) => match (
            text_at(record, Key::SrcNegDevice),
            u32_at(record, Key::SrcNegButton),
            text_at(record, Key::SrcPosDevice),
            u32_at(record, Key::SrcPosButton),
            u32_at(record, Key::DstDevice),
            u32_at(record, Key::DstAxis),
            record_two_buttons(record),
        ) {
            (
                Some(src_neg_device),
                Some(src_neg_button),
                Some(src_pos_device),
                Some(src_pos_button),
                Some(dst_device),
                Some(dst_axis),
                Some(modifier),
            ) => Some(
                RerouteRebindView::TwoButtonsToAxis {
                    src_neg_device,
                    src_neg_button,
                    src_pos_device,
                    src_pos_button,
                    dst_device,
                    dst_axis,
                    modifier,
                },
            ),
            _ => None,
        },
        Some(Tag::HatToHat) => match (
            text_at(record, Key::SrcDevice),
            u32_at(record, Key::SrcHat),
            u32_at(record, Key::DstDevice),
            u32_at(record, Key::DstHat),
            tag_at(record, Key::Modifier),
        ) {
            (Some(src_device), Some(src_hat), Some(dst_device), Some(dst_hat), Some(Tag::Simple)) => Some(
                RerouteRebindView::HatToHat { src_device, src_hat, dst_device, dst_hat, modifier: HatToHatModifier::Simple },
            ),
            _ => None,
        },
        Some(Tag::AxisToAxis) => match (
            text_at(record, Key::SrcDevice),
            u32_at(record, Key::SrcAxis),
            u32_at(record, Key::DstDevice),
            u32_at(record, Key::DstAxis),
            record_axis_modifier(record),
        ) {
            (Some(src_device), Some(src_axis), Some(dst_device), Some(dst_axis), Some(modifier)) => Some(
                RerouteRebindView::AxisToAxis { src_device, src_axis, dst_device, dst_axis, modifier },
            ),
            _ => None,
        },
        Some(Tag::MergeAxes) => match (
            text_at(record, Key::Src0Device),
            u32_at(record, Key::Src0Axis),
            text_at(record, Key::Src1Device),
            u32_at(record, Key::Src1Axis),
            u32_at(record, Key::DstDevice),
            u32_at(record, Key::DstAxis),
            tag_at(record, Key::Modifier),
        ) {
            (
                Some(src_0_device),
                Some(src_0_axis),
                Some(src_1_device),
                Some(src_1_axis),
                Some(dst_device),
                Some(dst_axis),
                Some(Tag::Add),
            ) => Some(
                RerouteRebindView::MergeAxes {
                    src_0_device,
                    src_0_axis,
                    src_1_device,
                    src_1_axis,
                    dst_device,
                    dst_axis,
                    modifier: MergeAxesModifier::Add,
                },
            ),
            _ => None,
        },
        _ => None,
    }
}

/// A record with a virtual rebind added.
pub open spec fn virtual_record(record: Map<Key, ValueView>, rebind: VirtualRebind) -> Map<Key, ValueView> {
    match rebind {
        VirtualRebind::VirtualAxisApplyButtonTrim {
            axis_device,
            axis,
            trim_neg_device,
            trim_neg_button,
            trim_pos_device,
            trim_pos_button,
            trim_reset_device,
            trim_reset_button,
            modifier,
        } => trim_record(
            record.insert(Key::Variant, ValueView::Tag(Tag::VirtualAxisApplyButtonTrim)).insert(
                Key::AxisDevice,
                ValueView::Integer(axis_device as i128),
            ).insert(Key::Axis, ValueView::Integer(axis as i128)).insert(
                Key::TrimNegDevice,
                ValueView::Integer(trim_neg_device as i128),
            ).insert(Key::TrimNegButton, ValueView::Integer(trim_neg_button as i128)).insert(
                Key::TrimPosDevice,
                ValueView::Integer(trim_pos_device as i128),
            ).insert(Key::TrimPosButton, ValueView::Integer(trim_pos_button as i128)).insert(
                Key::TrimResetDevice,
                ValueView::Integer(trim_reset_device as i128),
            ).insert(Key::TrimResetButton, ValueView::Integer(trim_reset_button as i128)),
            modifier,
        ),
    }
}

/// The virtual rebind that a record describes, its modifier at rest.
pub open spec fn record_virtual(record: Map<Key, ValueView>) -> Option<VirtualRebind> {
    match (
        tag_at(record, Key::Variant),
        u32_at(record, Key::AxisDevice),
        u32_at(record, Key::Axis),
        u32_at(record, Key::TrimNegDevice),
        u32_at(record, Key::TrimNegButton),
        u32_at(record, Key::TrimPosDevice),
        u32_at(record, Key::TrimPosButton),
        u32_at(record, Key::TrimResetDevice),
        u32_at(record, Key::TrimResetButton),
        record_trim(record),
    ) {
        (
            Some(Tag::VirtualAxisApplyButtonTrim),
            Some(axis_device),
            Some(axis),
            Some(trim_neg_device),
            Some(trim_neg_button),
            Some(trim_pos_device),
            Some(trim_pos_button),
            Some(trim_reset_device),
            Some(trim_reset_button),
            Some(modifier),
        ) => Some(
            VirtualRebind::VirtualAxisApplyButtonTrim {
                axis_device,
                axis,
                trim_neg_device,
                trim_neg_button,
                trim_pos_device,
                trim_pos_button,
                trim_reset_device,
                trim_reset_button,
                modifier,
            },
        ),
        _ => None,
    }
}

/// What is written of a rebind: its name, the shift modes it requires, the
/// tag of its phase, the tag of its variant, the fields of the variant, the
/// tag of its modifier and the modifier's parameters.
pub open spec fn rebind_record(rebind: RebindView) -> Map<Key, ValueView> {
    let head = Map::<Key, ValueView>::empty().insert(Key::Name, ValueView::Text(rebind.name)).insert(
        Key::ModeMask,
        ValueView::Integer(rebind.mode_mask as i128),
    );
    match rebind.rebind_type {
        RebindTypeView::Logical { rebind: logical } => logical_record(
            head.insert(Key::RebindType, ValueView::Tag(Tag::Logical)),
            logical,
        ),
        RebindTypeView::Reroute { rebind: reroute } => reroute_record(
            head.insert(Key::RebindType, ValueView::Tag(Tag::Reroute)),
            reroute,
        ),
        RebindTypeView::Virtual { rebind: virt } => virtual_record(
            head.insert(Key::RebindType, ValueView::Tag(Tag::Virtual)),
            virt,
        ),
    }
}

/// The rebind that a record describes, if it describes one: every entry
/// that the tags call for is there, of the right kind and in range.
pub open spec fn record_rebind(record: Map<Key, ValueView>) -> Option<RebindView> {
    match (text_at(record, Key::Name), u8_at(record, Key::ModeMask), tag_at(record, Key::RebindType)) {
        (Some(name), Some(mode_mask), Some(Tag::Logical)) => match record_logical(record) {
            Some(rebind) => Some(RebindView { name, mode_mask, rebind_type: RebindTypeView::Logical { rebind } }),
            None => None,
        },
        (Some(name), Some(mode_mask), Some(Tag::Reroute)) => match record_reroute(record) {
            Some(rebind) => Some(RebindView { name, mode_mask, rebind_type: RebindTypeView::Reroute { rebind } }),
            None => None,
        },
        (Some(name), Some(mode_mask), Some(Tag::Virtual)) => match record_virtual(record) {
            Some(rebind) => Some(RebindView { name, mode_mask, rebind_type: RebindTypeView::Virtual { rebind } }),
            None => None,
        },
        _ => None,
    }
}

/// A rebind with the running state of its modifier at rest: what of it is
/// persisted.
pub open spec fn rebind_persistent(rebind: RebindView) -> RebindView {
    RebindView {
        name: rebind.name,
        mode_mask: rebind.mode_mask,
        rebind_type: match rebind.rebind_type {
            RebindTypeView::Logical { rebind: logical } => rebind.rebind_type,
            RebindTypeView::Reroute { rebind: reroute } => RebindTypeView::Reroute {
                rebind: match reroute {
                    RerouteRebindView::ButtonToButton { src_device, src_button, dst_device, dst_button, modifier } => RerouteRebindView::ButtonToButton {
                        src_device,
                        src_button,
                        dst_device,
                        dst_button,
                        modifier: button_modifier_persistent(modifier),
                    },
                    RerouteRebindView::TwoButtonsToAxis {
                        src_neg_device,
                        src_neg_button,
                        src_pos_device,
                        src_pos_button,
                        dst_device,
                        dst_axis,
                        modifier,
                    } => RerouteRebindView::TwoButtonsToAxis {
                        src_neg_device,
                        src_neg_button,
                        src_pos_device,
                        src_pos_button,
                        dst_device,
                        dst_axis,
                        modifier: two_buttons_persistent(modifier),
                    },
                    RerouteRebindView::AxisToAxis { src_device, src_axis, dst_device, dst_axis, modifier } => RerouteRebindView::AxisToAxis {
                        src_device,
                        src_axis,
                        dst_device,
                        dst_axis,
                        modifier: match modifier {
                            AxisToAxisModifierView::Parameterized { params } => AxisToAxisModifierView::Parameterized {
                                params: axis_params_persistent(params),
                            },
                        },
                    },
                    _ => reroute,
                },
            },
            RebindTypeView::Virtual { rebind: virt } => RebindTypeView::Virtual {
                rebind: match virt {
                    VirtualRebind::VirtualAxisApplyButtonTrim {
                        axis_device,
                        axis,
                        trim_neg_device,
                        trim_neg_button,
                        trim_pos_device,
                        trim_pos_button,
                        trim_reset_device,
                        trim_reset_button,
                        modifier,
                    } => VirtualRebind::VirtualAxisApplyButtonTrim {
                        axis_device,
                        axis,
                        trim_neg_device,
                        trim_neg_button,
                        trim_pos_device,
                        trim_pos_button,
                        trim_reset_device,
                        trim_reset_button,
                        modifier: trim_persistent(modifier),
                    },
                },
            },
        },
    }
}

/// Whether the linearity of a rebind's axis parameters, if it has any, is
/// within its range: true of every rebind that was built or read.
pub open spec fn rebind_linearity_in_range(rebind: RebindView) -> bool {
    rebind.rebind_type matches RebindTypeView::Reroute {
        rebind: RerouteRebindView::AxisToAxis { modifier: AxisToAxisModifierView::Parameterized { params }, .. },
    } ==> linearity_ingested(params.linearity) == params.linearity
}

/// Whether two records agree on `key`.
pub open spec fn same_at(a: Map<Key, ValueView>, b: Map<Key, ValueView>, key: Key) -> bool {
    a.contains_key(key) == b.contains_key(key) && (a.contains_key(key) ==> a[key] == b[key])
}

/// A button modifier that was added to a record is read back, at rest; the
/// other entries of the record are as they were.
pub proof fn lemma_button_modifier_round_trip(record: Map<Key, ValueView>, modifier: ButtonToButtonModifier)
    requires
        !record.contains_key(Key::Sustain),
    ensures
        record_button_modifier(button_modifier_record(record, modifier)) == Some(button_modifier_persistent(modifier)),
        forall|key: Key|
            key != Key::Modifier && key != Key::IntervalStart && key != Key::IntervalEnd && key != Key::Sustain
                ==> #[trigger] same_at(button_modifier_record(record, modifier), record, key),
{
    let written = button_modifier_record(record, modifier);
    match modifier {
        ButtonToButtonModifier::ActivationIntervalSimple { params } => {
            assert(u64_at(written, Key::IntervalStart) == Some(params.interval_start));
            assert(u64_at(written, Key::IntervalEnd) == Some(params.interval_end));
        },
        ButtonToButtonModifier::ActivationIntervalToggle { params } => {
            assert(u64_at(written, Key::IntervalStart) == Some(params.interval_start));
            assert(u64_at(written, Key::IntervalEnd) == Some(params.interval_end));
        },
        _ => {},
    }
}

/// A two-buttons modifier that was added to a record is read back, at rest;
/// the other entries of the record are as they were.
pub proof fn lemma_two_buttons_round_trip(record: Map<Key, ValueView>, modifier: TwoButtonsToAxisModifier)
    ensures
        record_two_buttons(two_buttons_record(record, modifier)) == Some(two_buttons_persistent(modifier)),
        forall|key: Key|
            key != Key::Modifier && key != Key::Coefficient && key != Key::KeepValue ==> #[trigger] same_at(
                two_buttons_record(record, modifier),
                record,
                key,
            ),
{
}

/// An axis modifier that was added to a record is read back, with an empty
/// window; the other entries of the record are as they were.
pub proof fn lemma_axis_modifier_round_trip(record: Map<Key, ValueView>, modifier: AxisToAxisModifierView)
    requires
        modifier matches AxisToAxisModifierView::Parameterized { params } && linearity_ingested(params.linearity)
            == params.linearity,
    ensures
        record_axis_modifier(axis_modifier_record(record, modifier)) == Some(
            AxisToAxisModifierView::Parameterized { params: axis_params_persistent(modifier->Parameterized_params) },
        ),
        forall|key: Key|
            key != Key::Modifier && key != Key::DeadzoneCenter && key != Key::ClampMin && key != Key::ClampMax && key
                != Key::Invert && key != Key::Linearity && key != Key::Offset && key != Key::AvgFilter
                ==> #[trigger] same_at(axis_modifier_record(record, modifier), record, key),
{
    let params = modifier->Parameterized_params;
    let written = axis_modifier_record(record, modifier);
    assert(u32_at(written, Key::DeadzoneCenter) == Some(params.deadzone_center));
    assert(u32_at(written, Key::ClampMin) == Some(params.clamp_min));
    assert(u32_at(written, Key::ClampMax) == Some(params.clamp_max));
    assert(boolean_at(written, Key::Invert) == Some(params.invert));
    assert(u32_at(written, Key::Linearity) == Some(params.linearity));
    assert(i32_at(written, Key::Offset) == Some(params.offset));
    assert(usize_at(written, Key::AvgFilter) == Some(params.avg_filter));
}

/// A trim modifier that was added to a record is read back, at rest; the
/// other entries of the record are as they were.
pub proof fn lemma_trim_round_trip(record: Map<Key, ValueView>, modifier: VirtualAxisTrimModifier)
    ensures
        record_trim(trim_record(record, modifier)) == Some(trim_persistent(modifier)),
        forall|key: Key|
            key != Key::Modifier && key != Key::ValueNormalized ==> #[trigger] same_at(
                trim_record(record, modifier),
                record,
                key,
            ),
{
}

/// A logical rebind that was added to a record is read back; the other
/// entries of the record are as they were.
pub proof fn lemma_logical_round_trip(record: Map<Key, ValueView>, rebind: LogicalRebindView)
    ensures
        record_logical(logical_record(record, rebind)) == Some(rebind),
        forall|key: Key|
            key != Key::Variant && key != Key::SrcDevice && key != Key::SrcButton && key != Key::ShiftMask
                ==> #[trigger] same_at(logical_record(record, rebind), record, key),
{
}

/// A virtual rebind that was added to a record is read back, its modifier
/// at rest; the name, the mode mask and the phase in the record are as they were.
pub proof fn lemma_virtual_round_trip(record: Map<Key, ValueView>, rebind: VirtualRebind)
    ensures
        record_virtual(virtual_record(record, rebind)) == Some(
            rebind_persistent(
                RebindView { name: Seq::empty(), mode_mask: 0, rebind_type: RebindTypeView::Virtual { rebind } },
            ).rebind_type->Virtual_rebind,
        ),
        same_at(virtual_record(record, rebind), record, Key::Name),
        same_at(virtual_record(record, rebind), record, Key::ModeMask),
        same_at(virtual_record(record, rebind), record, Key::RebindType),
{
    match rebind {
        VirtualRebind::VirtualAxisApplyButtonTrim {
            axis_device,
            axis,
            trim_neg_device,
            trim_neg_button,
            trim_pos_device,
            trim_pos_button,
            trim_reset_device,
            trim_reset_button,
            modifier,
        } => {
            let base = record.insert(Key::Variant, ValueView::Tag(Tag::VirtualAxisApplyButtonTrim)).insert(
                Key::AxisDevice,
                ValueView::Integer(axis_device as i128),
            ).insert(Key::Axis, ValueView::Integer(axis as i128)).insert(
                Key::TrimNegDevice,
                ValueView::Integer(trim_neg_device as i128),
            ).insert(Key::TrimNegButton, ValueView::Integer(trim_neg_button as i128)).insert(
                Key::TrimPosDevice,
                ValueView::Integer(trim_pos_device as i128),
            ).insert(Key::TrimPosButton, ValueView::Integer(trim_pos_button as i128)).insert(
                Key::TrimResetDevice,
                ValueView::Integer(trim_reset_device as i128),
            ).insert(Key::TrimResetButton, ValueView::Integer(trim_reset_button as i128));
            let written = trim_record(base, modifier);
            lemma_trim_round_trip(base, modifier);
            assert(same_at(written, base, Key::Variant));
            assert(same_at(written, base, Key::AxisDevice));
            assert(same_at(written, base, Key::Axis));
            assert(same_at(written, base, Key::TrimNegDevice));
            assert(same_at(written, base, Key::TrimNegButton));
            assert(same_at(written, base, Key::TrimPosDevice));
            assert(same_at(written, base, Key::TrimPosButton));
            assert(same_at(written, base, Key::TrimResetDevice));
            assert(same_at(written, base, Key::TrimResetButton));
            assert(same_at(written, base, Key::Name));
            assert(same_at(written, base, Key::ModeMask));
            assert(same_at(written, base, Key::RebindType));
        },
    }
}

/// A reroute rebind that was added to a record is read back, its modifier
/// at rest; the name, the mode mask and the phase in the record are as they were.
pub proof fn lemma_reroute_round_trip(record: Map<Key, ValueView>, rebind: RerouteRebindView)
    requires
        !record.contains_key(Key::Sustain),
        rebind matches RerouteRebindView::AxisToAxis { modifier: AxisToAxisModifierView::Parameterized { params }, .. }
            ==> linearity_ingested(params.linearity) == params.linearity,
    ensures
        record_reroute(reroute_record(record, rebind)) == Some(
            rebind_persistent(
                RebindView { name: Seq::empty(), mode_mask: 0, rebind_type: RebindTypeView::Reroute { rebind } },
            ).rebind_type->Reroute_rebind,
        ),
        same_at(reroute_record(record, rebind), record, Key::Name),
        same_at(reroute_record(record, rebind), record, Key::ModeMask),
        same_at(reroute_record(record, rebind), record, Key::RebindType),
{
    let written = reroute_record(record, rebind);
    match rebind {
        RerouteRebindView::ButtonToButton { src_device, src_button, dst_device, dst_button, modifier } => {
            let base = record.insert(Key::Variant, ValueView::Tag(Tag::ButtonToButton)).insert(
                Key::SrcDevice,
                ValueView::Text(src_device),
            ).insert(Key::SrcButton, ValueView::Integer(src_button as i128)).insert(
                Key::DstDevice,
                ValueView::Integer(dst_device as i128),
            ).insert(Key::DstButton, ValueView::Integer(dst_button as i128));
            lemma_button_modifier_round_trip(base, modifier);
            assert(same_at(written, base, Key::Variant));
            assert(same_at(written, base, Key::SrcDevice));
            assert(same_at(written, base, Key::SrcButton));
            assert(same_at(written, base, Key::DstDevice));
            assert(same_at(written, base, Key::DstButton));
            assert(same_at(written, base, Key::Name));
            assert(same_at(written, base, Key::ModeMask));
            assert(same_at(written, base, Key::RebindType));
        },
        RerouteRebindView::TwoButtonsToAxis {
            src_neg_device,
            src_neg_button,
            src_pos_device,
            src_pos_button,
            dst_device,
            dst_axis,
            modifier,
        } => {
            let base = record.insert(Key::Variant, ValueView::Tag(Tag::TwoButtonsToAxis)).insert(
                Key::SrcNegDevice,
                ValueView::Text(src_neg_device),
            ).insert(Key::SrcNegButton, ValueView::Integer(src_neg_button as i128)).insert(
                Key::SrcPosDevice,
                ValueView::Text(src_pos_device),
            ).insert(Key::SrcPosButton, ValueView::Integer(src_pos_button as i128)).insert(
                Key::DstDevice,
                ValueView::Integer(dst_device as i128),
            ).insert(Key::DstAxis, ValueView::Integer(dst_axis as i128));
            lemma_two_buttons_round_trip(base, modifier);
            assert(same_at(written, base, Key::Variant));
            assert(same_at(written, base, Key::SrcNegDevice));
            assert(same_at(written, base, Key::SrcNegButton));
            assert(same_at(written, base, Key::SrcPosDevice));
            assert(same_at(written, base, Key::SrcPosButton));
            assert(same_at(written, base, Key::DstDevice));
            assert(same_at(written, base, Key::DstAxis));
            assert(same_at(written, base, Key::Name));
            assert(same_at(written, base, Key::ModeMask));
            assert(same_at(written, base, Key::RebindType));
        },
        RerouteRebindView::HatToHat { src_device, src_hat, dst_device, dst_hat, modifier } => {},
        RerouteRebindView::AxisToAxis { src_device, src_axis, dst_device, dst_axis, modifier } => {
            let base = record.insert(Key::Variant, ValueView::Tag(Tag::AxisToAxis)).insert(
                Key::SrcDevice,
                ValueView::Text(src_device),
            ).insert(Key::SrcAxis, ValueView::Integer(src_axis as i128)).insert(
                Key::DstDevice,
                ValueView::Integer(dst_device as i128),
            ).insert(Key::DstAxis, ValueView::Integer(dst_axis as i128));
            lemma_axis_modifier_round_trip(base, modifier);
            assert(same_at(written, base, Key::Variant));
            assert(same_at(written, base, Key::SrcDevice));
            assert(same_at(written, base, Key::SrcAxis));
            assert(same_at(written, base, Key::DstDevice));
            assert(same_at(written, base, Key::DstAxis));
            assert(same_at(written, base, Key::Name));
            assert(same_at(written, base, Key::ModeMask));
            assert(same_at(written, base, Key::RebindType));
        },
        RerouteRebindView::MergeAxes {
            src_0_device,
            src_0_axis,
            src_1_device,
            src_1_axis,
            dst_device,
            dst_axis,
            modifier,
        } => {},
    }
}

/// Reading back what was written of a rebind gives the rebind, with the
/// running state of its modifier at rest.
pub proof fn lemma_rebind_round_trip(rebind: RebindView)
    requires
        rebind_linearity_in_range(rebind),
    ensures
        record_rebind(rebind_record(rebind)) == Some(rebind_persistent(rebind)),
{
    let head = Map::<Key, ValueView>::empty().insert(Key::Name, ValueView::Text(rebind.name)).insert(
        Key::ModeMask,
        ValueView::Integer(rebind.mode_mask as i128),
    );
    let written = rebind_record(rebind);
    match rebind.rebind_type {
        RebindTypeView::Logical { rebind: logical } => {
            let base = head.insert(Key::RebindType, ValueView::Tag(Tag::Logical));
            lemma_logical_round_trip(base, logical);
            assert(same_at(written, base, Key::Name));
            assert(same_at(written, base, Key::ModeMask));
            assert(same_at(written, base, Key::RebindType));
        },
        RebindTypeView::Reroute { rebind: reroute } => {
            let base = head.insert(Key::RebindType, ValueView::Tag(Tag::Reroute));
            lemma_reroute_round_trip(base, reroute);
        },
        RebindTypeView::Virtual { rebind: virt } => {
            let base = head.insert(Key::RebindType, ValueView::Tag(Tag::Virtual));
            lemma_virtual_round_trip(base, virt);
        },
    }
}

/// The integer under `key` where it fits 8 bits without sign.
fn read_u8(record: &Record, key: Key) -> (found: Option<u8>)
    ensures
        found == u8_at(record@, key),
{
    match record.integer(key) {
        Some(value) => if 0 <= value && value <= u8::MAX as i128 {
            Some(value as u8)
        } else {
            None
        },
        None => None,
    }
}

/// The integer under `key` where it fits 32 bits without sign.
fn read_u32(record: &Record, key: Key) -> (found: Option<u32>)
    ensures
        found == u32_at(record@, key),
{
    match record.integer(key) {
        Some(value) => if 0 <= value && value <= u32::MAX as i128 {
            Some(value as u32)
        } else {
            None
        },
        None => None,
    }
}

/// The integer under `key` where it fits 32 bits with sign.
fn read_i32(record: &Record, key: Key) -> (found: Option<i32>)
    ensures
        found == i32_at(record@, key),
{
    match record.integer(key) {
        Some(value) => if i32::MIN as i128 <= value && value <= i32::MAX as i128 {
            Some(value as i32)
        } else {
            None
        },
        None => None,
    }
}

/// The integer under `key` where it fits 64 bits without sign.
fn read_u64(record: &Record, key: Key) -> (found: Option<u64>)
    ensures
        found == u64_at(record@, key),
{
    match record.integer(key) {
        Some(value) => if 0 <= value && value <= u64::MAX as i128 {
            Some(value as u64)
        } else {
            None
        },
        None => None,
    }
}

/// The integer under `key` where it is a size.
fn read_usize(record: &Record, key: Key) -> (found: Option<usize>)
    ensures
        found == usize_at(record@, key),
{
    match record.integer(key) {
        Some(value) => if 0 <= value && value <= usize::MAX as i128 {
            Some(value as usize)
        } else {
            None
        },
        None => None,
    }
}

/// Adds the window and the sustain of a debouncer to a record.
fn write_interval(record: &mut Record, params: &ActivationIntervalParams)
    ensures
        final(record)@ == interval_record(old(record)@, *params),
{
    record.insert(Key::IntervalStart, Value::Integer(params.interval_start as i128));
    record.insert(Key::IntervalEnd, Value::Integer(params.interval_end as i128));
    match params.sustain {
        Some(sustain) => {
            record.insert(Key::Sustain, Value::Integer(sustain as i128));
        },
        None => {},
    }
}

/// Reads a debouncer from a record.
fn read_interval(record: &Record) -> (found: Option<ActivationIntervalParams>)
    ensures
        found == record_interval(record@),
{
    let interval_start = match read_u64(record, Key::IntervalStart) {
        Some(value) => value,
        None => {
            return None;
        },
    };
    let interval_end = match read_u64(record, Key::IntervalEnd) {
        Some(value) => value,
        None => {
            return None;
        },
    };
    if record.get(Key::Sustain).is_some() {
        match read_u64(record, Key::Sustain) {
            Some(sustain) => Some(ActivationIntervalParams::new(interval_start, interval_end, Some(sustain))),
            None => None,
        }
    } else {
        Some(ActivationIntervalParams::new(interval_start, interval_end, None))
    }
}

/// Adds a button modifier to a record.
fn write_button_modifier(record: &mut Record, modifier: &ButtonToButtonModifier)
    ensures
        final(record)@ == button_modifier_record(old(record)@, *modifier),
{
    match modifier {
        ButtonToButtonModifier::Simple => {
            record.insert(Key::Modifier, Value::Tag(Tag::Simple));
        },
        ButtonToButtonModifier::Toggle { last_input: _ } => {
            record.insert(Key::Modifier, Value::Tag(Tag::Toggle));
        },
        ButtonToButtonModifier::ActivationIntervalSimple { params } => {
            record.insert(Key::Modifier, Value::Tag(Tag::ActivationIntervalSimple));
            write_interval(record, params);
        },
        ButtonToButtonModifier::ActivationIntervalToggle { params } => {
            record.insert(Key::Modifier, Value::Tag(Tag::ActivationIntervalToggle));
            write_interval(record, params);
        },
    }
}

/// Reads a button modifier from a record.
fn read_button_modifier(record: &Record) -> (found: Option<ButtonToButtonModifier>)
    ensures
        found == record_button_modifier(record@),
{
    match record.tag(Key::Modifier) {
        Some(Tag::Simple) => Some(ButtonToButtonModifier::Simple),
        Some(Tag::Toggle) => Some(ButtonToButtonModifier::Toggle { last_input: false }),
        Some(Tag::ActivationIntervalSimple) => match read_interval(record) {
            Some(params) => Some(ButtonToButtonModifier::ActivationIntervalSimple { params }),
            None => None,
        },
        Some(Tag::ActivationIntervalToggle) => match read_interval(record) {
            Some(params) => Some(ButtonToButtonModifier::ActivationIntervalToggle { params }),
            None => None,
        },
        _ => None,
    }
}

/// Adds a two-buttons modifier to a record.
fn write_two_buttons(record: &mut Record, modifier: &TwoButtonsToAxisModifier)
    ensures
        final(record)@ == two_buttons_record(old(record)@, *modifier),
{
    match modifier {
        TwoButtonsToAxisModifier::Absolute => {
            record.insert(Key::Modifier, Value::Tag(Tag::Absolute));
        },
        TwoButtonsToAxisModifier::Linear { coefficient, keep_value } => {
            record.insert(Key::Modifier, Value::Tag(Tag::Linear));
            record.insert(Key::Coefficient, Value::Integer(*coefficient as i128));
            record.insert(Key::KeepValue, Value::Boolean(*keep_value));
        },
        TwoButtonsToAxisModifier::Click { coefficient, last_input_neg: _, last_input_pos: _ } => {
            record.insert(Key::Modifier, Value::Tag(Tag::Click));
            record.insert(Key::Coefficient, Value::Integer(*coefficient as i128));
        },
    }
}

/// Reads a two-buttons modifier from a record.
fn read_two_buttons(record: &Record) -> (found: Option<TwoButtonsToAxisModifier>)
    ensures
        found == record_two_buttons(record@),
{
    match record.tag(Key::Modifier) {
        Some(Tag::Absolute) => Some(TwoButtonsToAxisModifier::Absolute),
        Some(Tag::Linear) => {
            let coefficient = read_u32(record, Key::Coefficient);
            let keep_value = record.boolean(Key::KeepValue);
            match (coefficient, keep_value) {
                (Some(coefficient), Some(keep_value)) => Some(TwoButtonsToAxisModifier::Linear { coefficient, keep_value }),
                _ => None,
            }
        },
        Some(Tag::Click) => match read_u32(record, Key::Coefficient) {
            Some(coefficient) => Some(
                TwoButtonsToAxisModifier::Click { coefficient, last_input_neg: false, last_input_pos: false },
            ),
            None => None,
        },
        _ => None,
    }
}

/// Adds an axis modifier to a record.
fn write_axis_modifier(record: &mut Record, modifier: &AxisToAxisModifier)
    ensures
        final(record)@ == axis_modifier_record(old(record)@, modifier@),
{
    match modifier {
        AxisToAxisModifier::Parameterized { params } => {
            record.insert(Key::Modifier, Value::Tag(Tag::Parameterized));
            record.insert(Key::DeadzoneCenter, Value::Integer(params.deadzone_center() as i128));
            record.insert(Key::ClampMin, Value::Integer(params.clamp_min() as i128));
            record.insert(Key::ClampMax, Value::Integer(params.clamp_max() as i128));
            record.insert(Key::Invert, Value::Boolean(params.invert()));
            record.insert(Key::Linearity, Value::Integer(params.linearity() as i128));
            record.insert(Key::Offset, Value::Integer(params.offset() as i128));
            record.insert(Key::AvgFilter, Value::Integer(params.avg_filter() as i128));
        },
    }
}

/// Reads an axis modifier from a record.
fn read_axis_modifier(record: &Record) -> (found: Option<AxisToAxisModifier>)
    ensures
        match record_axis_modifier(record@) {
            Some(modifier) => found matches Some(m) && m@ == modifier,
            None => found.is_none(),
        },
{
    match record.tag(Key::Modifier) {
        Some(Tag::Parameterized) => {
            let deadzone_center = read_u32(record, Key::DeadzoneCenter);
            let clamp_min = read_u32(record, Key::ClampMin);
            let clamp_max = read_u32(record, Key::ClampMax);
            let invert = record.boolean(Key::Invert);
            let linearity = read_u32(record, Key::Linearity);
            let offset = read_i32(record, Key::Offset);
            let avg_filter = read_usize(record, Key::AvgFilter);
            match (deadzone_center, clamp_min, clamp_max, invert, linearity, offset, avg_filter) {
                (
                    Some(deadzone_center),
                    Some(clamp_min),
                    Some(clamp_max),
                    Some(invert),
                    Some(linearity),
                    Some(offset),
                    Some(avg_filter),
                ) => Some(
                    AxisToAxisModifier::Parameterized {
                        params: AxisParams::new(deadzone_center, clamp_min, clamp_max, invert, linearity, offset, avg_filter),
                    },
                ),
                _ => None,
            }
        },
        _ => None,
    }
}

/// Adds a trim modifier to a record.
fn write_trim(record: &mut Record, modifier: &VirtualAxisTrimModifier)
    ensures
        final(record)@ == trim_record(old(record)@, *modifier),
{
    match modifier {
        VirtualAxisTrimModifier::Click { params } => {
            record.insert(Key::Modifier, Value::Tag(Tag::Click));
            record.insert(Key::ValueNormalized, Value::Integer(params.value_normalized as i128));
        },
        VirtualAxisTrimModifier::Linear { params } => {
            record.insert(Key::Modifier, Value::Tag(Tag::Linear));
            record.insert(Key::ValueNormalized, Value::Integer(params.value_normalized as i128));
        },
    }
}

/// Reads a trim modifier from a record.
fn read_trim(record: &Record) -> (found: Option<VirtualAxisTrimModifier>)
    ensures
        found == record_trim(record@),
{
    let tag = record.tag(Key::Modifier);
    let value = read_u32(record, Key::ValueNormalized);
    match (tag, value) {
        (Some(Tag::Click), Some(value_normalized)) => Some(
            VirtualAxisTrimModifier::Click { params: VirtualAxisTrimParams::new(value_normalized) },
        ),
        (Some(Tag::Linear), Some(value_normalized)) => Some(
            VirtualAxisTrimModifier::Linear { params: VirtualAxisTrimParams::new(value_normalized) },
        ),
        _ => None,
    }
}

/// Adds a logical rebind to a record.
fn write_logical(record: &mut Record, rebind: &LogicalRebind)
    ensures
        final(record)@ == logical_record(old(record)@, rebind@),
{
    match rebind {
        LogicalRebind::MomentaryEnableShiftMode { src_device, src_button, shift_mask } => {
            record.insert(Key::Variant, Value::Tag(Tag::MomentaryEnableShiftMode));
            record.insert(Key::SrcDevice, Value::Text(src_device.clone()));
            record.insert(Key::SrcButton, Value::Integer(*src_button as i128));
            record.insert(Key::ShiftMask, Value::Integer(shift_mask.0 as i128));
        },
        LogicalRebind::MomentaryDisableShiftMode { src_device, src_button, shift_mask } => {
            record.insert(Key::Variant, Value::Tag(Tag::MomentaryDisableShiftMode));
            record.insert(Key::SrcDevice, Value::Text(src_device.clone()));
            record.insert(Key::SrcButton, Value::Integer(*src_button as i128));
            record.insert(Key::ShiftMask, Value::Integer(shift_mask.0 as i128));
        },
    }
}

/// Reads a logical rebind from a record.
fn read_logical(record: &Record) -> (found: Option<LogicalRebind>)
    ensures
        match record_logical(record@) {
            Some(rebind) => found matches Some(r) && r@ == rebind,
            None => found.is_none(),
        },
{
    let variant = record.tag(Key::Variant);
    let src_device = record.text(Key::SrcDevice);
    let src_button = read_u32(record, Key::SrcButton);
    let shift_mask = read_u8(record, Key::ShiftMask);
    match (variant, src_device, src_button, shift_mask) {
        (Some(Tag::MomentaryEnableShiftMode), Some(src_device), Some(src_button), Some(shift_mask)) => Some(
            LogicalRebind::MomentaryEnableShiftMode { src_device, src_button, shift_mask: ShiftModeMask(shift_mask) },
        ),
        (Some(Tag::MomentaryDisableShiftMode), Some(src_device), Some(src_button), Some(shift_mask)) => Some(
            LogicalRebind::MomentaryDisableShiftMode { src_device, src_button, shift_mask: ShiftModeMask(shift_mask) },
        ),
        _ => None,
    }
}

/// Adds a reroute rebind to a record.
fn write_reroute(record: &mut Record, rebind: &RerouteRebind)
    ensures
        final(record)@ == reroute_record(old(record)@, rebind@),
{
    match rebind {
        RerouteRebind::ButtonToButton { src_device, src_button, dst_device, dst_button, modifier } => {
            record.insert(Key::Variant, Value::Tag(Tag::ButtonToButton));
            record.insert(Key::SrcDevice, Value::Text(src_device.clone()));
            record.insert(Key::SrcButton, Value::Integer(*src_button as i128));
            record.insert(Key::DstDevice, Value::Integer(*dst_device as i128));
            record.insert(Key::DstButton, Value::Integer(*dst_button as i128));
            write_button_modifier(record, modifier);
        },
        RerouteRebind::TwoButtonsToAxis {
            src_neg_device,
            src_neg_button,
            src_pos_device,
            src_pos_button,
            dst_device,
            dst_axis,
            modifier,
        } => {
            record.insert(Key::Variant, Value::Tag(Tag::TwoButtonsToAxis));
            record.insert(Key::SrcNegDevice, Value::Text(src_neg_device.clone()));
            record.insert(Key::SrcNegButton, Value::Integer(*src_neg_button as i128));
            record.insert(Key::SrcPosDevice, Value::Text(src_pos_device.clone()));
            record.insert(Key::SrcPosButton, Value::Integer(*src_pos_button as i128));
            record.insert(Key::DstDevice, Value::Integer(*dst_device as i128));
            record.insert(Key::DstAxis, Value::Integer(*dst_axis as i128));
            write_two_buttons(record, modifier);
        },
        RerouteRebind::HatToHat { src_device, src_hat, dst_device, dst_hat, modifier: _ } => {
            record.insert(Key::Variant, Value::Tag(Tag::HatToHat));
            record.insert(Key::SrcDevice, Value::Text(src_device.clone()));
            record.insert(Key::SrcHat, Value::Integer(*src_hat as i128));
            record.insert(Key::DstDevice, Value::Integer(*dst_device as i128));
            record.insert(Key::DstHat, Value::Integer(*dst_hat as i128));
            record.insert(Key::Modifier, Value::Tag(Tag::Simple));
        },
        RerouteRebind::AxisToAxis { src_device, src_axis, dst_device, dst_axis, modifier } => {
            record.insert(Key::Variant, Value::Tag(Tag::AxisToAxis));
            record.insert(Key::SrcDevice, Value::Text(src_device.clone()));
            record.insert(Key::SrcAxis, Value::Integer(*src_axis as i128));
            record.insert(Key::DstDevice, Value::Integer(*dst_device as i128));
            record.insert(Key::DstAxis, Value::Integer(*dst_axis as i128));
            write_axis_modifier(record, modifier);
        },
        RerouteRebind::MergeAxes {
            src_0_device,
            src_0_axis,
            src_1_device,
            src_1_axis,
            dst_device,
            dst_axis,
            modifier: _,
        } => {
            record.insert(Key::Variant, Value::Tag(Tag::MergeAxes));
            record.insert(Key::Src0Device, Value::Text(src_0_device.clone()));
            record.insert(Key::Src0Axis, Value::Integer(*src_0_axis as i128));
            record.insert(Key::Src1Device, Value::Text(src_1_device.clone()));
            record.insert(Key::Src1Axis, Value::Integer(*src_1_axis as i128));
            record.insert(Key::DstDevice, Value::Integer(*dst_device as i128));
            record.insert(Key::DstAxis, Value::Integer(*dst_axis as i128));
            record.insert(Key::Modifier, Value::Tag(Tag::Add));
        },
    }
}

/// Reads a reroute rebind from a record.
fn read_reroute(record: &Record) -> (found: Option<RerouteRebind>)
    ensures
        match record_reroute(record@) {
            Some(rebind) => found matches Some(r) && r@ == rebind,
            None => found.is_none(),
        },
{
    match record.tag(Key::Variant) {
        Some(Tag::ButtonToButton) => {
            let src_device = record.text(Key::SrcDevice);
            let src_button = read_u32(record, Key::SrcButton);
            let dst_device = read_u32(record, Key::DstDevice);
            let dst_button = read_u32(record, Key::DstButton);
            let modifier = read_button_modifier(record);
            match (src_device, src_button, dst_device, dst_button, modifier) {
                (Some(src_device), Some(src_button), Some(dst_device), Some(dst_button), Some(modifier)) => Some(
                    RerouteRebind::ButtonToButton { src_device, src_button, dst_device, dst_button, modifier },
                ),
                _ => None,
            }
        },
        Some(Tag::TwoButtonsToAxis) => {
            let src_neg_device = record.text(Key::SrcNegDevice);
            let src_neg_button = read_u32(record, Key::SrcNegButton);
            let src_pos_device = record.text(Key::SrcPosDevice);
            let src_pos_button = read_u32(record, Key::SrcPosButton);
            let dst_device = read_u32(record, Key::DstDevice);
            let dst_axis = read_u32(record, Key::DstAxis);
            let modifier = read_two_buttons(record);
            match (src_neg_device, src_neg_button, src_pos_device, src_pos_button, dst_device, dst_axis, modifier) {
                (
                    Some(src_neg_device),
                    Some(src_neg_button),
                    Some(src_pos_device),
                    Some(src_pos_button),
                    Some(dst_device),
                    Some(dst_axis),
                    Some(modifier),
                ) => Some(
                    RerouteRebind::TwoButtonsToAxis {
                        src_neg_device,
                        src_neg_button,
                        src_pos_device,
                        src_pos_button,
                        dst_device,
                        dst_axis,
                        modifier,
                    },
                ),
                _ => None,
            }
        },
        Some(Tag::HatToHat) => {
            let src_device = record.text(Key::SrcDevice);
            let src_hat = read_u32(record, Key::SrcHat);
            let dst_device = read_u32(record, Key::DstDevice);
            let dst_hat = read_u32(record, Key::DstHat);
            let modifier = record.tag(Key::Modifier);
            match (src_device, src_hat, dst_device, dst_hat, modifier) {
                (Some(src_device), Some(src_hat), Some(dst_device), Some(dst_hat), Some(Tag::Simple)) => Some(
                    RerouteRebind::HatToHat { src_device, src_hat, dst_device, dst_hat, modifier: HatToHatModifier::Simple },
                ),
                _ => None,
            }
        },
        Some(Tag::AxisToAxis) => {
            let src_device = record.text(Key::SrcDevice);
            let src_axis = read_u32(record, Key::SrcAxis);
            let dst_device = read_u32(record, Key::DstDevice);
            let dst_axis = read_u32(record, Key::DstAxis);
            let modifier = read_axis_modifier(record);
            match (src_device, src_axis, dst_device, dst_axis, modifier) {
                (Some(src_device), Some(src_axis), Some(dst_device), Some(dst_axis), Some(modifier)) => Some(
                    RerouteRebind::AxisToAxis { src_device, src_axis, dst_device, dst_axis, modifier },
                ),
                _ => None,
            }
        },
        Some(Tag::MergeAxes) => {
            let src_0_device = record.text(Key::Src0Device);
            let src_0_axis = read_u32(record, Key::Src0Axis);
            let src_1_device = record.text(Key::Src1Device);
            let src_1_axis = read_u32(record, Key::Src1Axis);
            let dst_device = read_u32(record, Key::DstDevice);
            let dst_axis = read_u32(record, Key::DstAxis);
            let modifier = record.tag(Key::Modifier);
            match (src_0_device, src_0_axis, src_1_device, src_1_axis, dst_device, dst_axis, modifier) {
                (
                    Some(src_0_device),
                    Some(src_0_axis),
                    Some(src_1_device),
                    Some(src_1_axis),
                    Some(dst_device),
                    Some(dst_axis),
                    Some(Tag::Add),
                ) => Some(
                    RerouteRebind::MergeAxes {
                        src_0_device,
                        src_0_axis,
                        src_1_device,
                        src_1_axis,
                        dst_device,
                        dst_axis,
                        modifier: MergeAxesModifier::Add,
                    },
                ),
                _ => None,
            }
        },
        _ => None,
    }
}

/// Adds a virtual rebind to a record.
fn write_virtual(record: &mut Record, rebind: &VirtualRebind)
    ensures
        final(record)@ == virtual_record(old(record)@, *rebind),
{
    match rebind {
        VirtualRebind::VirtualAxisApplyButtonTrim {
            axis_device,
            axis,
            trim_neg_device,
            trim_neg_button,
            trim_pos_device,
            trim_pos_button,
            trim_reset_device,
            trim_reset_button,
            modifier,
        } => {
            record.insert(Key::Variant, Value::Tag(Tag::VirtualAxisApplyButtonTrim));
            record.insert(Key::AxisDevice, Value::Integer(*axis_device as i128));
            record.insert(Key::Axis, Value::Integer(*axis as i128));
            record.insert(Key::TrimNegDevice, Value::Integer(*trim_neg_device as i128));
            record.insert(Key::TrimNegButton, Value::Integer(*trim_neg_button as i128));
            record.insert(Key::TrimPosDevice, Value::Integer(*trim_pos_device as i128));
            record.insert(Key::TrimPosButton, Value::Integer(*trim_pos_button as i128));
            record.insert(Key::TrimResetDevice, Value::Integer(*trim_reset_device as i128));
            record.insert(Key::TrimResetButton, Value::Integer(*trim_reset_button as i128));
            write_trim(record, modifier);
        },
    }
}

/// Reads a virtual rebind from a record.
fn read_virtual(record: &Record) -> (found: Option<VirtualRebind>)
    ensures
        found == record_virtual(record@),
{
    let variant = record.tag(Key::Variant);
    let axis_device = read_u32(record, Key::AxisDevice);
    let axis = read_u32(record, Key::Axis);
    let trim_neg_device = read_u32(record, Key::TrimNegDevice);
    let trim_neg_button = read_u32(record, Key::TrimNegButton);
    let trim_pos_device = read_u32(record, Key::TrimPosDevice);
    let trim_pos_button = read_u32(record, Key::TrimPosButton);
    let trim_reset_device = read_u32(record, Key::TrimResetDevice);
    let trim_reset_button = read_u32(record, Key::TrimResetButton);
    let modifier = read_trim(record);
    match (
        variant,
        axis_device,
        axis,
        trim_neg_device,
        trim_neg_button,
        trim_pos_device,
        trim_pos_button,
        trim_reset_device,
        trim_reset_button,
        modifier,
    ) {
        (
            Some(Tag::VirtualAxisApplyButtonTrim),
            Some(axis_device),
            Some(axis),
            Some(trim_neg_device),
            Some(trim_neg_button),
            Some(trim_pos_device),
            Some(trim_pos_button),
            Some(trim_reset_device),
            Some(trim_reset_button),
            Some(modifier),
        ) => Some(
            VirtualRebind::VirtualAxisApplyButtonTrim {
                axis_device,
                axis,
                trim_neg_device,
                trim_neg_button,
                trim_pos_device,
                trim_pos_button,
                trim_reset_device,
                trim_reset_button,
                modifier,
            },
        ),
        _ => None,
    }
}

/// Writes a rebind as a record. The running state of its modifier is left out.
pub fn rebind_to_record(rebind: &Rebind) -> (record: Record)
    ensures
        record@ == rebind_record(rebind@),
{
    let mut record = Record::new();
    record.insert(Key::Name, Value::Text(rebind.name.clone()));
    record.insert(Key::ModeMask, Value::Integer(rebind.mode_mask.0 as i128));
    match &rebind.rebind_type {
        RebindType::Logical { rebind: logical } => {
            record.insert(Key::RebindType, Value::Tag(Tag::Logical));
            write_logical(&mut record, logical);
        },
        RebindType::Reroute { rebind: reroute } => {
            record.insert(Key::RebindType, Value::Tag(Tag::Reroute));
            write_reroute(&mut record, reroute);
        },
        RebindType::Virtual { rebind: virt } => {
            record.insert(Key::RebindType, Value::Tag(Tag::Virtual));
            write_virtual(&mut record, virt);
        },
    }
    record
}

/// Reads a rebind from a record, its modifier at rest. A record that lacks
/// an entry that its tags call for, or holds one of the wrong kind or out of
/// range, describes no rebind.
pub fn rebind_from_record(record: &Record) -> (found: Option<Rebind>)
    ensures
        match record_rebind(record@) {
            Some(rebind) => found matches Some(r) && r@ == rebind,
            None => found.is_none(),
        },
{
    let name = record.text(Key::Name);
    let mode_mask = read_u8(record, Key::ModeMask);
    let phase = record.tag(Key::RebindType);
    match (name, mode_mask, phase) {
        (Some(name), Some(mode_mask), Some(Tag::Logical)) => match read_logical(record) {
            Some(rebind) => Some(
                Rebind { name, mode_mask: ShiftModeMask(mode_mask), rebind_type: RebindType::Logical { rebind } },
            ),
            None => None,
        },
        (Some(name), Some(mode_mask), Some(Tag::Reroute)) => match read_reroute(record) {
            Some(rebind) => Some(
                Rebind { name, mode_mask: ShiftModeMask(mode_mask), rebind_type: RebindType::Reroute { rebind } },
            ),
            None => None,
        },
        (Some(name), Some(mode_mask), Some(Tag::Virtual)) => match read_virtual(record) {
            Some(rebind) => Some(
                Rebind { name, mode_mask: ShiftModeMask(mode_mask), rebind_type: RebindType::Virtual { rebind } },
            ),
            None => None,
        },
        _ => None,
    }
}

} // verus!
