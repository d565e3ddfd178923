//! The persisted form of a configuration: a keyed document in which every
//! rebind is one flat record and every variant is named by a tag.
//!
//! The document says what is written and read, not how it is encoded.

use vstd::prelude::*;

verus! {

/// The keys of a rebind's record.
#[derive(Debug, Clone, Copy, PartialEq, Eq, Structural, Hash)]
pub enum Key {
    Name,
    ModeMask,
    RebindType,
    Variant,
    Modifier,
    SrcDevice,
    SrcButton,
    SrcHat,
    SrcAxis,
    ShiftMask,
    DstDevice,
    DstButton,
    DstHat,
    DstAxis,
    SrcNegDevice,
    SrcNegButton,
    SrcPosDevice,
    SrcPosButton,
    Src0Device,
    Src0Axis,
    Src1Device,
    Src1Axis,
    IntervalStart,
    IntervalEnd,
    Sustain,
    Coefficient,
    KeepValue,
    DeadzoneCenter,
    ClampMin,
    ClampMax,
    Invert,
    Linearity,
    Offset,
    AvgFilter,
    AxisDevice,
    Axis,
    TrimNegDevice,
    TrimNegButton,
    TrimPosDevice,
    TrimPosButton,
    TrimResetDevice,
    TrimResetButton,
    ValueNormalized,
}

/// The tags that name variants: the phase of a rebind, its variant and its modifier.
#[derive(Debug, Clone, Copy, PartialEq, Eq, Structural, Hash)]
pub enum Tag {
    Logical,
    Reroute,
    Virtual,
    MomentaryEnableShiftMode,
    MomentaryDisableShiftMode,
    ButtonToButton,
    TwoButtonsToAxis,
    HatToHat,
    AxisToAxis,
    MergeAxes,
    VirtualAxisApplyButtonTrim,
    Simple,
    Toggle,
    ActivationIntervalSimple,
    ActivationIntervalToggle,
    Absolute,
    Linear,
    Click,
    Parameterized,
    Add,
}

/// The written name of a key.
pub open spec fn key_name(key: Key) -> Seq<char> {
    match key {
        Key::Name => "name"@,
        Key::ModeMask => "mode_mask"@,
        Key::RebindType => "rebind_type"@,
        Key::Variant => "variant"@,
        Key::Modifier => "modifier"@,
        Key::SrcDevice => "src_device"@,
        Key::SrcButton => "src_button"@,
        Key::SrcHat => "src_hat"@,
        Key::SrcAxis => "src_axis"@,
        Key::ShiftMask => "shift_mask"@,
        Key::DstDevice => "dst_device"@,
        Key::DstButton => "dst_button"@,
        Key::DstHat => "dst_hat"@,
        Key::DstAxis => "dst_axis"@,
        Key::SrcNegDevice => "src_neg_device"@,
        Key::SrcNegButton => "src_neg_button"@,
        Key::SrcPosDevice => "src_pos_device"@,
        Key::SrcPosButton => "src_pos_button"@,
        Key::Src0Device => "src_0_device"@,
        Key::Src0Axis => "src_0_axis"@,
        Key::Src1Device => "src_1_device"@,
        Key::Src1Axis => "src_1_axis"@,
        Key::IntervalStart => "interval_start"@,
        Key::IntervalEnd => "interval_end"@,
        Key::Sustain => "sustain"@,
        Key::Coefficient => "coefficient"@,
        Key::KeepValue => "keep_value"@,
        Key::DeadzoneCenter => "deadzone_center"@,
        Key::ClampMin => "clamp_min"@,
        Key::ClampMax => "clamp_max"@,
        Key::Invert => "invert"@,
        Key::Linearity => "linearity"@,
        Key::Offset => "offset"@,
        Key::AvgFilter => "avg_filter"@,
        Key::AxisDevice => "axis_device"@,
        Key::Axis => "axis"@,
        Key::TrimNegDevice => "trim_neg_device"@,
        Key::TrimNegButton => "trim_neg_button"@,
        Key::TrimPosDevice => "trim_pos_device"@,
        Key::TrimPosButton => "trim_pos_button"@,
        Key::TrimResetDevice => "trim_reset_device"@,
        Key::TrimResetButton => "trim_reset_button"@,
        Key::ValueNormalized => "value_normalized"@,
    }
}

/// The written name of a tag.
pub open spec fn tag_name(tag: Tag) -> Seq<char> {
    match tag {
        Tag::Logical => "Logical"@,
        Tag::Reroute => "Reroute"@,
        Tag::Virtual => "Virtual"@,
        Tag::MomentaryEnableShiftMode => "MomentaryEnableShiftMode"@,
        Tag::MomentaryDisableShiftMode => "MomentaryDisableShiftMode"@,
        Tag::ButtonToButton => "ButtonToButton"@,
        Tag::TwoButtonsToAxis => "TwoButtonsToAxis"@,
        Tag::HatToHat => "HatToHat"@,
        Tag::AxisToAxis => "AxisToAxis"@,
        Tag::MergeAxes => "MergeAxes"@,
        Tag::VirtualAxisApplyButtonTrim => "VirtualAxisApplyButtonTrim"@,
        Tag::Simple => "Simple"@,
        Tag::Toggle => "Toggle"@,
        Tag::ActivationIntervalSimple => "ActivationIntervalSimple"@,
        Tag::ActivationIntervalToggle => "ActivationIntervalToggle"@,
        Tag::Absolute => "Absolute"@,
        Tag::Linear => "Linear"@,
        Tag::Click => "Click"@,
        Tag::Parameterized => "Parameterized"@,
        Tag::Add => "Add"@,
    }
}

/// Whether the value under a key is a tag rather than free text.
pub open spec fn key_holds_tag(key: Key) -> bool {
    key == Key::RebindType || key == Key::Variant || key == Key::Modifier
}

/// The character of a text that is `back` places before its last one, or a
/// blank where the text is too short.
pub open spec fn char_from_end(text: Seq<char>, back: int) -> char {
    if 0 <= back < text.len() {
        text[text.len() - 1 - back]
    } else {
        ' '
    }
}

/// What tells written names apart: the length, the last character and the
/// characters five and seven places before it.
pub open spec fn name_print(text: Seq<char>) -> (nat, char, char, char) {
    (text.len(), char_from_end(text, 0), char_from_end(text, 5), char_from_end(text, 7))
}

/// The print of the written name of a key.
pub open spec fn key_print(key: Key) -> (nat, char, char, char) {
    match key {
        Key::Name => (4, 'e', ' ', ' '),
        Key::ModeMask => (9, 'k', 'e', 'o'),
        Key::RebindType => (11, 'e', 'd', 'i'),
        Key::Variant => (7, 't', 'a', ' '),
        Key::Modifier => (8, 'r', 'd', 'm'),
        Key::SrcDevice => (10, 'e', 'd', 'c'),
        Key::SrcButton => (10, 'n', 'b', 'c'),
        Key::SrcHat => (7, 't', 'r', ' '),
        Key::SrcAxis => (8, 's', 'c', 's'),
        Key::ShiftMask => (10, 'k', 't', 'i'),
        Key::DstDevice => (10, 'e', 'd', 't'),
        Key::DstButton => (10, 'n', 'b', 't'),
        Key::DstHat => (7, 't', 's', ' '),
        Key::DstAxis => (8, 's', 't', 'd'),
        Key::SrcNegDevice => (14, 'e', 'd', 'g'),
        Key::SrcNegButton => (14, 'n', 'b', 'g'),
        Key::SrcPosDevice => (14, 'e', 'd', 's'),
        Key::SrcPosButton => (14, 'n', 'b', 's'),
        Key::Src0Device => (12, 'e', 'd', '0'),
        Key::Src0Axis => (10, 's', '0', 'c'),
        Key::Src1Device => (12, 'e', 'd', '1'),
        Key::Src1Axis => (10, 's', '1', 'c'),
        Key::IntervalStart => (14, 't', '_', 'a'),
        Key::IntervalEnd => (12, 'd', 'a', 'r'),
        Key::Sustain => (7, 'n', 'u', ' '),
        Key::Coefficient => (11, 't', 'i', 'f'),
        Key::KeepValue => (10, 'e', '_', 'e'),
        Key::DeadzoneCenter => (15, 'r', 'c', 'e'),
        Key::ClampMin => (9, 'n', 'm', 'l'),
        Key::ClampMax => (9, 'x', 'm', 'l'),
        Key::Invert => (6, 't', 'i', ' '),
        Key::Linearity => (9, 'y', 'e', 'i'),
        Key::Offset => (6, 't', 'o', ' '),
        Key::AvgFilter => (10, 'r', 'f', 'g'),
        Key::AxisDevice => (11, 'e', 'd', 's'),
        Key::Axis => (4, 's', ' ', ' '),
        Key::TrimNegDevice => (15, 'e', 'd', 'g'),
        Key::TrimNegButton => (15, 'n', 'b', 'g'),
        Key::TrimPosDevice => (15, 'e', 'd', 's'),
        Key::TrimPosButton => (15, 'n', 'b', 's'),
        Key::TrimResetDevice => (17, 'e', 'd', 't'),
        Key::TrimResetButton => (17, 'n', 'b', 't'),
        Key::ValueNormalized => (16, 'd', 'a', 'r'),
    }
}

/// The print of the written name of a tag.
pub open spec fn tag_print(tag: Tag) -> (nat, char, char, char) {
    match tag {
        Tag::Logical => (7, 'l', 'o', ' '),
        Tag::Reroute => (7, 'e', 'e', ' '),
        Tag::Virtual => (7, 'l', 'i', ' '),
        Tag::MomentaryEnableShiftMode => (24, 'e', 'f', 'h'),
        Tag::MomentaryDisableShiftMode => (25, 'e', 'f', 'h'),
        Tag::ButtonToButton => (14, 'n', 'B', 'T'),
        Tag::TwoButtonsToAxis => (16, 's', 'T', 'n'),
        Tag::HatToHat => (8, 't', 't', 'H'),
        Tag::AxisToAxis => (10, 's', 'T', 'i'),
        Tag::MergeAxes => (9, 's', 'g', 'e'),
        Tag::VirtualAxisApplyButtonTrim => (26, 'm', 'o', 't'),
        Tag::Simple => (6, 'e', 'S', ' '),
        Tag::Toggle => (6, 'e', 'T', ' '),
        Tag::ActivationIntervalSimple => (24, 'e', 'S', 'a'),
        Tag::ActivationIntervalToggle => (24, 'e', 'T', 'a'),
        Tag::Absolute => (8, 'e', 's', 'A'),
        Tag::Linear => (6, 'r', 'L', ' '),
        Tag::Click => (5, 'k', ' ', ' '),
        Tag::Parameterized => (13, 'd', 'e', 'e'),
        Tag::Add => (3, 'd', ' ', ' '),
    }
}

/// The written name of a key has the print that is listed for the key.
proof fn lemma_key_print(key: Key)
    ensures
        name_print(key_name(key)) == key_print(key),
{
    reveal_strlit("name");
    reveal_strlit("mode_mask");
    reveal_strlit("rebind_type");
    reveal_strlit("variant");
    reveal_strlit("modifier");
    reveal_strlit("src_device");
    reveal_strlit("src_button");
    reveal_strlit("src_hat");
    reveal_strlit("src_axis");
    reveal_strlit("shift_mask");
    reveal_strlit("dst_device");
    reveal_strlit("dst_button");
    reveal_strlit("dst_hat");
    reveal_strlit("dst_axis");
    reveal_strlit("src_neg_device");
    reveal_strlit("src_neg_button");
    reveal_strlit("src_pos_device");
    reveal_strlit("src_pos_button");
    reveal_strlit("src_0_device");
    reveal_strlit("src_0_axis");
    reveal_strlit("src_1_device");
    reveal_strlit("src_1_axis");
    reveal_strlit("interval_start");
    reveal_strlit("interval_end");
    reveal_strlit("sustain");
    reveal_strlit("coefficient");
    reveal_strlit("keep_value");
    reveal_strlit("deadzone_center");
    reveal_strlit("clamp_min");
    reveal_strlit("clamp_max");
    reveal_strlit("invert");
    reveal_strlit("linearity");
    reveal_strlit("offset");
    reveal_strlit("avg_filter");
    reveal_strlit("axis_device");
    reveal_strlit("axis");
    reveal_strlit("trim_neg_device");
    reveal_strlit("trim_neg_button");
    reveal_strlit("trim_pos_device");
    reveal_strlit("trim_pos_button");
    reveal_strlit("trim_reset_device");
    reveal_strlit("trim_reset_button");
    reveal_strlit("value_normalized");
}

/// The written name of a tag has the print that is listed for the tag.
proof fn lemma_tag_print(tag: Tag)
    ensures
        name_print(tag_name(tag)) == tag_print(tag),
{
    reveal_strlit("Logical");
    reveal_strlit("Reroute");
    reveal_strlit("Virtual");
    reveal_strlit("MomentaryEnableShiftMode");
    reveal_strlit("MomentaryDisableShiftMode");
    reveal_strlit("ButtonToButton");
    reveal_strlit("TwoButtonsToAxis");
    reveal_strlit("HatToHat");
    reveal_strlit("AxisToAxis");
    reveal_strlit("MergeAxes");
    reveal_strlit("VirtualAxisApplyButtonTrim");
    reveal_strlit("Simple");
    reveal_strlit("Toggle");
    reveal_strlit("ActivationIntervalSimple");
    reveal_strlit("ActivationIntervalToggle");
    reveal_strlit("Absolute");
    reveal_strlit("Linear");
    reveal_strlit("Click");
    reveal_strlit("Parameterized");
    reveal_strlit("Add");
}

/// No two keys have the same written name.
pub proof fn lemma_key_names_differ(first: Key, second: Key)
    requires
        first != second,
    ensures
        key_name(first) != key_name(second),
{
    lemma_key_print(first);
    lemma_key_print(second);
    assert(key_print(first) != key_print(second));
}

/// No two tags have the same written name.
pub proof fn lemma_tag_names_differ(first: Tag, second: Tag)
    requires
        first != second,
    ensures
        tag_name(first) != tag_name(second),
{
    lemma_tag_print(first);
    lemma_tag_print(second);
    assert(tag_print(first) != tag_print(second));
}

impl Key {
    /// The written name of the key.
    pub fn name(&self) -> (name: &'static str)
        ensures
            name@ == key_name(*self),
    {
        match self {
            Key::Name => "name",
            Key::ModeMask => "mode_mask",
            Key::RebindType => "rebind_type",
            Key::Variant => "variant",
            Key::Modifier => "modifier",
            Key::SrcDevice => "src_device",
            Key::SrcButton => "src_button",
            Key::SrcHat => "src_hat",
            Key::SrcAxis => "src_axis",
            Key::ShiftMask => "shift_mask",
            Key::DstDevice => "dst_device",
            Key::DstButton => "dst_button",
            Key::DstHat => "dst_hat",
            Key::DstAxis => "dst_axis",
            Key::SrcNegDevice => "src_neg_device",
            Key::SrcNegButton => "src_neg_button",
            Key::SrcPosDevice => "src_pos_device",
            Key::SrcPosButton => "src_pos_button",
            Key::Src0Device => "src_0_device",
            Key::Src0Axis => "src_0_axis",
            Key::Src1Device => "src_1_device",
            Key::Src1Axis => "src_1_axis",
            Key::IntervalStart => "interval_start",
            Key::IntervalEnd => "interval_end",
            Key::Sustain => "sustain",
            Key::Coefficient => "coefficient",
            Key::KeepValue => "keep_value",
            Key::DeadzoneCenter => "deadzone_center",
            Key::ClampMin => "clamp_min",
            Key::ClampMax => "clamp_max",
            Key::Invert => "invert",
            Key::Linearity => "linearity",
            Key::Offset => "offset",
            Key::AvgFilter => "avg_filter",
            Key::AxisDevice => "axis_device",
            Key::Axis => "axis",
            Key::TrimNegDevice => "trim_neg_device",
            Key::TrimNegButton => "trim_neg_button",
            Key::TrimPosDevice => "trim_pos_device",
            Key::TrimPosButton => "trim_pos_button",
            Key::TrimResetDevice => "trim_reset_device",
            Key::TrimResetButton => "trim_reset_button",
            Key::ValueNormalized => "value_normalized",
        }
    }

    /// Whether the value under the key is a tag rather than free text.
    pub fn holds_tag(&self) -> (holds: bool)
        ensures
            holds == key_holds_tag(*self),
    {
        match self {
            Key::RebindType => true,
            Key::Variant => true,
            Key::Modifier => true,
            _ => false,
        }
    }

    /// Every key.
    pub fn all() -> (keys: Vec<Key>)
        ensures
            keys@.len() == 43,
            forall|key: Key| #[trigger] keys@.contains(key),
    {
        let keys: Vec<Key> = vec![
            Key::Name,
            Key::ModeMask,
            Key::RebindType,
            Key::Variant,
            Key::Modifier,
            Key::SrcDevice,
            Key::SrcButton,
            Key::SrcHat,
            Key::SrcAxis,
            Key::ShiftMask,
            Key::DstDevice,
            Key::DstButton,
            Key::DstHat,
            Key::DstAxis,
            Key::SrcNegDevice,
            Key::SrcNegButton,
            Key::SrcPosDevice,
            Key::SrcPosButton,
            Key::Src0Device,
            Key::Src0Axis,
            Key::Src1Device,
            Key::Src1Axis,
            Key::IntervalStart,
            Key::IntervalEnd,
            Key::Sustain,
            Key::Coefficient,
            Key::KeepValue,
            Key::DeadzoneCenter,
            Key::ClampMin,
            Key::ClampMax,
            Key::Invert,
            Key::Linearity,
            Key::Offset,
            Key::AvgFilter,
            Key::AxisDevice,
            Key::Axis,
            Key::TrimNegDevice,
            Key::TrimNegButton,
            Key::TrimPosDevice,
            Key::TrimPosButton,
            Key::TrimResetDevice,
            Key::TrimResetButton,
            Key::ValueNormalized,
        ];
        assert forall|key: Key| #[trigger] keys@.contains(key) by {
            match key {
                Key::Name => assert(keys@[0] == key),
                Key::ModeMask => assert(keys@[1] == key),
                Key::RebindType => assert(keys@[2] == key),
                Key::Variant => assert(keys@[3] == key),
                Key::Modifier => assert(keys@[4] == key),
                Key::SrcDevice => assert(keys@[5] == key),
                Key::SrcButton => assert(keys@[6] == key),
                Key::SrcHat => assert(keys@[7] == key),
                Key::SrcAxis => assert(keys@[8] == key),
                Key::ShiftMask => assert(keys@[9] == key),
                Key::DstDevice => assert(keys@[10] == key),
                Key::DstButton => assert(keys@[11] == key),
                Key::DstHat => assert(keys@[12] == key),
                Key::DstAxis => assert(keys@[13] == key),
                Key::SrcNegDevice => assert(keys@[14] == key),
                Key::SrcNegButton => assert(keys@[15] == key),
                Key::SrcPosDevice => assert(keys@[16] == key),
                Key::SrcPosButton => assert(keys@[17] == key),
                Key::Src0Device => assert(keys@[18] == key),
                Key::Src0Axis => assert(keys@[19] == key),
                Key::Src1Device => assert(keys@[20] == key),
                Key::Src1Axis => assert(keys@[21] == key),
                Key::IntervalStart => assert(keys@[22] == key),
                Key::IntervalEnd => assert(keys@[23] == key),
                Key::Sustain => assert(keys@[24] == key),
                Key::Coefficient => assert(keys@[25] == key),
                Key::KeepValue => assert(keys@[26] == key),
                Key::DeadzoneCenter => assert(keys@[27] == key),
                Key::ClampMin => assert(keys@[28] == key),
                Key::ClampMax => assert(keys@[29] == key),
                Key::Invert => assert(keys@[30] == key),
                Key::Linearity => assert(keys@[31] == key),
                Key::Offset => assert(keys@[32] == key),
                Key::AvgFilter => assert(keys@[33] == key),
                Key::AxisDevice => assert(keys@[34] == key),
                Key::Axis => assert(keys@[35] == key),
                Key::TrimNegDevice => assert(keys@[36] == key),
                Key::TrimNegButton => assert(keys@[37] == key),
                Key::TrimPosDevice => assert(keys@[38] == key),
                Key::TrimPosButton => assert(keys@[39] == key),
                Key::TrimResetDevice => assert(keys@[40] == key),
                Key::TrimResetButton => assert(keys@[41] == key),
                Key::ValueNormalized => assert(keys@[42] == key),
            }
        }
        keys
    }

    /// The key with the given written name, if there is one.
    pub fn from_name(name: &String) -> (found: Option<Key>)
        ensures
            match found {
                Some(key) => key_name(key) == name@,
                None => forall|key: Key| key_name(key) != name@,
            },
            forall|key: Key| key_name(key) == name@ ==> found == Some(key),
    {
        let keys = Key::all();
        let mut i: usize = 0;
        while i < keys.len()
            invariant
                i <= keys.len(),
                forall|key: Key| #[trigger] keys@.contains(key),
                forall|j: int| 0 <= j < i ==> key_name(#[trigger] keys@[j]) != name@,
            decreases keys.len() - i,
        {
            let candidate: String = keys[i].name().to_owned();
            if candidate == *name {
                assert forall|key: Key| key_name(key) == name@ implies key == keys@[i as int] by {
                    if key != keys@[i as int] {
                        lemma_key_names_differ(key, keys@[i as int]);
                    }
                }
                return Some(keys[i]);
            }
            i += 1;
        }
        assert forall|key: Key| key_name(key) != name@ by {
            assert(keys@.contains(key));
            let j = choose|j: int| 0 <= j < keys@.len() && keys@[j] == key;
            assert(key_name(keys@[j]) != name@);
        }
        None
    }
}

impl Tag {
    /// The written name of the tag.
    pub fn name(&self) -> (name: &'static str)
        ensures
            name@ == tag_name(*self),
    {
        match self {
            Tag::Logical => "Logical",
            Tag::Reroute => "Reroute",
            Tag::Virtual => "Virtual",
            Tag::MomentaryEnableShiftMode => "MomentaryEnableShiftMode",
            Tag::MomentaryDisableShiftMode => "MomentaryDisableShiftMode",
            Tag::ButtonToButton => "ButtonToButton",
            Tag::TwoButtonsToAxis => "TwoButtonsToAxis",
            Tag::HatToHat => "HatToHat",
            Tag::AxisToAxis => "AxisToAxis",
            Tag::MergeAxes => "MergeAxes",
            Tag::VirtualAxisApplyButtonTrim => "VirtualAxisApplyButtonTrim",
            Tag::Simple => "Simple",
            Tag::Toggle => "Toggle",
            Tag::ActivationIntervalSimple => "ActivationIntervalSimple",
            Tag::ActivationIntervalToggle => "ActivationIntervalToggle",
            Tag::Absolute => "Absolute",
            Tag::Linear => "Linear",
            Tag::Click => "Click",
            Tag::Parameterized => "Parameterized",
            Tag::Add => "Add",
        }
    }

    /// Every tag.
    pub fn all() -> (tags: Vec<Tag>)
        ensures
            tags@.len() == 20,
            forall|tag: Tag| #[trigger] tags@.contains(tag),
    {
        let tags: Vec<Tag> = vec![
            Tag::Logical,
            Tag::Reroute,
            Tag::Virtual,
            Tag::MomentaryEnableShiftMode,
            Tag::MomentaryDisableShiftMode,
            Tag::ButtonToButton,
            Tag::TwoButtonsToAxis,
            Tag::HatToHat,
            Tag::AxisToAxis,
            Tag::MergeAxes,
            Tag::VirtualAxisApplyButtonTrim,
            Tag::Simple,
            Tag::Toggle,
            Tag::ActivationIntervalSimple,
            Tag::ActivationIntervalToggle,
            Tag::Absolute,
            Tag::Linear,
            Tag::Click,
            Tag::Parameterized,
            Tag::Add,
        ];
        assert forall|tag: Tag| #[trigger] tags@.contains(tag) by {
            match tag {
                Tag::Logical => assert(tags@[0] == tag),
                Tag::Reroute => assert(tags@[1] == tag),
                Tag::Virtual => assert(tags@[2] == tag),
                Tag::MomentaryEnableShiftMode => assert(tags@[3] == tag),
                Tag::MomentaryDisableShiftMode => assert(tags@[4] == tag),
                Tag::ButtonToButton => assert(tags@[5] == tag),
                Tag::TwoButtonsToAxis => assert(tags@[6] == tag),
                Tag::HatToHat => assert(tags@[7] == tag),
                Tag::AxisToAxis => assert(tags@[8] == tag),
                Tag::MergeAxes => assert(tags@[9] == tag),
                Tag::VirtualAxisApplyButtonTrim => assert(tags@[10] == tag),
                Tag::Simple => assert(tags@[11] == tag),
                Tag::Toggle => assert(tags@[12] == tag),
                Tag::ActivationIntervalSimple => assert(tags@[13] == tag),
                Tag::ActivationIntervalToggle => assert(tags@[14] == tag),
                Tag::Absolute => assert(tags@[15] == tag),
                Tag::Linear => assert(tags@[16] == tag),
                Tag::Click => assert(tags@[17] == tag),
                Tag::Parameterized => assert(tags@[18] == tag),
                Tag::Add => assert(tags@[19] == tag),
            }
        }
        tags
    }

    /// The tag with the given written name, if there is one.
    pub fn from_name(name: &String) -> (found: Option<Tag>)
        ensures
            match found {
                Some(tag) => tag_name(tag) == name@,
                None => forall|tag: Tag| tag_name(tag) != name@,
            },
            forall|tag: Tag| tag_name(tag) == name@ ==> found == Some(tag),
    {
        let tags = Tag::all();
        let mut i: usize = 0;
        while i < tags.len()
            invariant
                i <= tags.len(),
                forall|tag: Tag| #[trigger] tags@.contains(tag),
                forall|j: int| 0 <= j < i ==> tag_name(#[trigger] tags@[j]) != name@,
            decreases tags.len() - i,
        {
            let candidate: String = tags[i].name().to_owned();
            if candidate == *name {
                assert forall|tag: Tag| tag_name(tag) == name@ implies tag == tags@[i as int] by {
                    if tag != tags@[i as int] {
                        lemma_tag_names_differ(tag, tags@[i as int]);
                    }
                }
                return Some(tags[i]);
            }
            i += 1;
        }
        assert forall|tag: Tag| tag_name(tag) != name@ by {
            assert(tags@.contains(tag));
            let j = choose|j: int| 0 <= j < tags@.len() && tags@[j] == tag;
            assert(tag_name(tags@[j]) != name@);
        }
        None
    }
}

/// A value of a record.
#[derive(Debug, Clone, PartialEq, Eq)]
pub enum Value {
    Integer(i128),
    Boolean(bool),
    Text(String),
    Tag(Tag),
}

/// What a [`Value`] holds.
pub enum ValueView {
    Integer(i128),
    Boolean(bool),
    Text(Seq<char>),
    Tag(Tag),
}

impl View for Value {
    type V = ValueView;

    open spec fn view(&self) -> ValueView {
        match self {
            Value::Integer(value) => ValueView::Integer(*value),
            Value::Boolean(value) => ValueView::Boolean(*value),
            Value::Text(value) => ValueView::Text(value@),
            Value::Tag(value) => ValueView::Tag(*value),
        }
    }
}

/// What the first `n` entries say: for each key the value of the latest
/// entry with that key.
pub open spec fn entries_map(entries: Seq<(Key, Value)>, n: int) -> Map<Key, ValueView>
    decreases n,
{
    if n <= 0 {
        Map::empty()
    } else {
        entries_map(entries, n - 1).insert(entries[n - 1].0, entries[n - 1].1@)
    }
}

/// A flat record: values under keys.
#[derive(Debug, Clone, PartialEq, Eq)]
pub struct Record {
    entries: Vec<(Key, Value)>,
}

impl View for Record {
    type V = Map<Key, ValueView>;

    closed spec fn view(&self) -> Map<Key, ValueView> {
        entries_map(self.entries@, self.entries@.len() as int)
    }
}

impl Record {
    /// A record without entries.
    pub fn new() -> (record: Record)
        ensures
            record@ == Map::<Key, ValueView>::empty(),
    {
        Record { entries: Vec::new() }
    }

    /// A record of the given entries; of two entries with one key the later counts.
    pub fn from_entries(entries: Vec<(Key, Value)>) -> (record: Record)
        ensures
            record@ == entries_map(entries@, entries@.len() as int),
    {
        Record { entries }
    }

    /// The entries in the order in which they were put in.
    pub fn entries(&self) -> (entries: &Vec<(Key, Value)>)
        ensures
            self@ == entries_map(entries@, entries@.len() as int),
    {
        &self.entries
    }

    /// Puts `value` under `key`, in the place of what was there.
    pub fn insert(&mut self, key: Key, value: Value)
        ensures
            final(self)@ == old(self)@.insert(key, value@),
    {
        let ghost before = self.entries@;
        self.entries.push((key, value));
        proof {
            lemma_entries_map_prefix(self.entries@, before, before.len() as int);
        }
    }

    /// The value under `key`, if there is one.
    pub fn get(&self, key: Key) -> (found: Option<&Value>)
        ensures
            match found {
                Some(value) => self@.contains_key(key) && self@[key] == value@,
                None => !self@.contains_key(key),
            },
    {
        let mut i: usize = self.entries.len();
        while i > 0
            invariant
                i <= self.entries.len(),
                self@.contains_key(key) == entries_map(self.entries@, i as int).contains_key(key),
                self@.contains_key(key) ==> self@[key] == entries_map(self.entries@, i as int)[key],
            decreases i,
        {
            i -= 1;
            if self.entries[i].0 == key {
                return Some(&self.entries[i].1);
            }
        }
        None
    }

    /// The integer under `key`, if there is one.
    pub fn integer(&self, key: Key) -> (found: Option<i128>)
        ensures
            found == integer_at(self@, key),
    {
        match self.get(key) {
            Some(Value::Integer(value)) => Some(*value),
            _ => None,
        }
    }

    /// The boolean under `key`, if there is one.
    pub fn boolean(&self, key: Key) -> (found: Option<bool>)
        ensures
            found == boolean_at(self@, key),
    {
        match self.get(key) {
            Some(Value::Boolean(value)) => Some(*value),
            _ => None,
        }
    }

    /// The text under `key`, if there is one.
    pub fn text(&self, key: Key) -> (found: Option<String>)
        ensures
            match text_at(self@, key) {
                Some(text) => found matches Some(s) && s@ == text,
                None => found.is_none(),
            },
    {
        match self.get(key) {
            Some(Value::Text(value)) => Some(value.clone()),
            _ => None,
        }
    }

    /// The tag under `key`, if there is one.
    pub fn tag(&self, key: Key) -> (found: Option<Tag>)
        ensures
            found == tag_at(self@, key),
    {
        match self.get(key) {
            Some(Value::Tag(value)) => Some(*value),
            _ => None,
        }
    }
}

/// Entries beyond the first `n` do not change what the first `n` say.
proof fn lemma_entries_map_prefix(longer: Seq<(Key, Value)>, shorter: Seq<(Key, Value)>, n: int)
    requires
        0 <= n <= shorter.len() <= longer.len(),
        forall|i: int| 0 <= i < shorter.len() ==> longer[i] == shorter[i],
    ensures
        entries_map(longer, n) == entries_map(shorter, n),
    decreases n,
{
    if n > 0 {
        lemma_entries_map_prefix(longer, shorter, n - 1);
    }
}

/// The integer under `key`.
pub open spec fn integer_at(record: Map<Key, ValueView>, key: Key) -> Option<i128> {
    if record.contains_key(key) {
        match record[key] {
            ValueView::Integer(value) => Some(value),
            _ => None,
        }
    } else {
        None
    }
}

/// The boolean under `key`.
pub open spec fn boolean_at(record: Map<Key, ValueView>, key: Key) -> Option<bool> {
    if record.contains_key(key) {
        match record[key] {
            ValueView::Boolean(value) => Some(value),
            _ => None,
        }
    } else {
        None
    }
}

/// The text under `key`.
pub open spec fn text_at(record: Map<Key, ValueView>, key: Key) -> Option<Seq<char>> {
    if record.contains_key(key) {
        match record[key] {
            ValueView::Text(value) => Some(value),
            _ => None,
        }
    } else {
        None
    }
}

/// The tag under `key`.
pub open spec fn tag_at(record: Map<Key, ValueView>, key: Key) -> Option<Tag> {
    if record.contains_key(key) {
        match record[key] {
            ValueView::Tag(value) => Some(value),
            _ => None,
        }
    } else {
        None
    }
}

/// A persisted configuration: its name, the shift modes in force at start
/// and one record for each rebind, in list order.
#[derive(Debug, Clone, PartialEq, Eq)]
pub struct Document {
    pub name: String,
    pub default_shift_mode: u8,
    pub rebinds: Vec<Record>,
}

/// What a [`Document`] holds.
pub struct DocumentView {
    pub name: Seq<char>,
    pub default_shift_mode: u8,
    pub rebinds: Seq<Map<Key, ValueView>>,
}

impl View for Document {
    type V = DocumentView;

    open spec fn view(&self) -> DocumentView {
        DocumentView {
            name: self.name@,
            default_shift_mode: self.default_shift_mode,
            rebinds: Seq::new(self.rebinds@.len(), |i: int| self.rebinds@[i]@),
        }
    }
}

} // verus!
