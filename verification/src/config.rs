//! The configuration: a name, the shift modes in force at start, and the
//! ordered list of rebinds.

use vstd::prelude::*;
use crate::axis_to_axis::{AxisParams, AxisParamsView, AxisToAxisModifier, AxisToAxisModifierView};
use crate::button_to_button::ButtonToButtonModifier;
use crate::document::{Document, DocumentView, Record};
use crate::hat_to_hat::HatToHatModifier;
use crate::logical_rebind::{LogicalRebind, LogicalRebindView};
use crate::merge_axes::MergeAxesModifier;
use crate::rebind::{RebindType, RebindTypeView};
use crate::reroute_rebind::{RerouteRebind, RerouteRebindView};
use crate::text::{decimal, decimal_text};
use crate::two_buttons_to_axis::TwoButtonsToAxisModifier;
use crate::virtual_axis_trim::{VirtualAxisTrimModifier, VirtualAxisTrimParams};
use crate::virtual_rebind::VirtualRebind;
use crate::error::Error;
use crate::persist::{rebind_from_record, rebind_linearity_in_range, rebind_persistent, rebind_record, rebind_to_record, record_rebind, lemma_rebind_round_trip};
use crate::rebind::{Rebind, RebindView, rebind_views};
use crate::shift_mode_mask::ShiftModeMask;

verus! {

/// A configuration. The order of the rebinds is the order in which they are
/// evaluated within a phase.
#[derive(Debug, Clone, PartialEq, Eq)]
pub struct Config {
    pub name: String,
    pub default_shift_mode: ShiftModeMask,
    pub rebinds: Vec<Rebind>,
}

/// What a [`Config`] holds.
pub struct ConfigView {
    pub name: Seq<char>,
    pub default_shift_mode: u8,
    pub rebinds: Seq<RebindView>,
}

impl View for Config {
    type V = ConfigView;

    open spec fn view(&self) -> ConfigView {
        ConfigView {
            name: self.name@,
            default_shift_mode: self.default_shift_mode.0,
            rebinds: rebind_views(self.rebinds@),
        }
    }
}

impl Default for Config {
    fn default() -> (config: Self)
        ensures
            config@ == (ConfigView { name: "Default config"@, default_shift_mode: 0, rebinds: Seq::empty() }),
    {
        let config = Config {
            name: "Default config".to_owned(),
            default_shift_mode: ShiftModeMask(0),
            rebinds: Vec::new(),
        };
        assert(config@.rebinds =~= Seq::empty());
        config
    }
}

/// What is written of a configuration: its name, its default shift modes
/// and one record for each rebind, in list order.
pub open spec fn config_document(config: ConfigView) -> DocumentView {
    DocumentView {
        name: config.name,
        default_shift_mode: config.default_shift_mode,
        rebinds: Seq::new(config.rebinds.len(), |i: int| rebind_record(config.rebinds[i])),
    }
}

/// Whether every record of a document describes a rebind.
pub open spec fn document_readable(document: DocumentView) -> bool {
    forall|i: int| 0 <= i < document.rebinds.len() ==> (#[trigger] record_rebind(document.rebinds[i])) is Some
}

/// The configuration that a document describes, if it describes one.
pub open spec fn document_config(document: DocumentView) -> Option<ConfigView> {
    if document_readable(document) {
        Some(
            ConfigView {
                name: document.name,
                default_shift_mode: document.default_shift_mode,
                rebinds: Seq::new(document.rebinds.len(), |i: int| record_rebind(document.rebinds[i]).unwrap()),
            },
        )
    } else {
        None
    }
}

/// A configuration with the running state of every modifier at rest: what
/// of it is persisted.
pub open spec fn config_persistent(config: ConfigView) -> ConfigView {
    ConfigView {
        name: config.name,
        default_shift_mode: config.default_shift_mode,
        rebinds: Seq::new(config.rebinds.len(), |i: int| rebind_persistent(config.rebinds[i])),
    }
}

/// Validity of a configuration: every linearity is within its range.
pub open spec fn config_wf(config: ConfigView) -> bool {
    forall|i: int| 0 <= i < config.rebinds.len() ==> rebind_linearity_in_range(#[trigger] config.rebinds[i])
}

/// Reading back what was written of a configuration gives the
/// configuration, equal in everything but the running state of the
/// modifiers, which is at rest.
pub proof fn lemma_config_round_trip(config: ConfigView)
    requires
        config_wf(config),
    ensures
        document_config(config_document(config)) == Some(config_persistent(config)),
{
    let document = config_document(config);
    assert forall|i: int| 0 <= i < document.rebinds.len() implies (#[trigger] record_rebind(document.rebinds[i]))
        == Some(rebind_persistent(config.rebinds[i])) by {
        lemma_rebind_round_trip(config.rebinds[i]);
    }
    assert(document_readable(document));
    assert(document_config(document).unwrap().rebinds =~= config_persistent(config).rebinds);
}

impl Config {
    /// The configuration as a document. The running state of the modifiers is
    /// left out.
    pub fn to_document(&self) -> (document: Document)
        ensures
            document@ == config_document(self@),
    {
        let mut records: Vec<Record> = Vec::new();
        let mut i: usize = 0;
        while i < self.rebinds.len()
            invariant
                i <= self.rebinds.len(),
                records.len() == i,
                forall|j: int| 0 <= j < i ==> (#[trigger] records@[j])@ == rebind_record(self.rebinds@[j]@),
            decreases self.rebinds.len() - i,
        {
            records.push(rebind_to_record(&self.rebinds[i]));
            i += 1;
        }
        let document = Document {
            name: self.name.clone(),
            default_shift_mode: self.default_shift_mode.0,
            rebinds: records,
        };
        assert(document@.rebinds =~= config_document(self@).rebinds);
        document
    }

    /// Reads a configuration from a document, every modifier at rest. Fails,
    /// and gives no configuration, where a record describes no rebind.
    pub fn from_document(document: &Document) -> (result: Result<Config, Error>)
        ensures
            match document_config(document@) {
                Some(config) => result matches Ok(read) && read@ == config,
                None => result matches Err(Error::ConfigParse(reason)) && reason@ == "a record describes no rebind"@,
            },
    {
        let mut rebinds: Vec<Rebind> = Vec::new();
        let mut i: usize = 0;
        while i < document.rebinds.len()
            invariant
                i <= document.rebinds.len(),
                rebinds.len() == i,
                forall|j: int|
                    0 <= j < i ==> record_rebind(#[trigger] document@.rebinds[j]) == Some(rebinds@[j]@),
            decreases document.rebinds.len() - i,
        {
            assert(document@.rebinds[i as int] == document.rebinds@[i as int]@);
            match rebind_from_record(&document.rebinds[i]) {
                Some(rebind) => {
                    rebinds.push(rebind);
                },
                None => {
                    assert(!document_readable(document@));
                    return Err(Error::ConfigParse("a record describes no rebind".to_owned()));
                },
            }
            i += 1;
        }
        let config = Config {
            name: document.name.clone(),
            default_shift_mode: ShiftModeMask(document.default_shift_mode),
            rebinds,
        };
        assert(document_readable(document@));
        assert(config@.rebinds =~= document_config(document@).unwrap().rebinds);
        Ok(config)
    }
}

/// The GUID of the game pad that the sample configuration reads.
pub open spec fn sample_guid() -> Seq<char> {
    "030003f05e0400008e02000000007200"@
}

/// The name of a rule of the sample configuration that sends a channel to
/// the channel of the same number.
pub open spec fn straight_name(kind: Seq<char>, channel: u32) -> Seq<char> {
    kind + decimal_text(channel as nat) + "_To_"@ + decimal_text(channel as nat)
}

/// The rebind at a place of the sample configuration.
pub open spec fn sample_rebind(place: int) -> RebindView {
    if place == 0 {
        RebindView {
            name: "Enable_Shift_0b10000000"@,
            mode_mask: 0,
            rebind_type: RebindTypeView::Logical {
                rebind: LogicalRebindView::MomentaryEnableShiftMode {
                    src_device: sample_guid(),
                    src_button: 1,
                    shift_mask: 1,
                },
            },
        }
    } else if place <= 9 {
        RebindView {
            name: straight_name("Button_"@, (place + 1) as u32),
            mode_mask: 0,
            rebind_type: RebindTypeView::Reroute {
                rebind: RerouteRebindView::ButtonToButton {
                    src_device: sample_guid(),
                    src_button: (place + 1) as u32,
                    dst_device: 1,
                    dst_button: (place + 1) as u32,
                    modifier: ButtonToButtonModifier::Simple,
                },
            },
        }
    } else if place == 10 {
        RebindView {
            name: straight_name("Hat_"@, 1),
            mode_mask: 0,
            rebind_type: RebindTypeView::Reroute {
                rebind: RerouteRebindView::HatToHat {
                    src_device: sample_guid(),
                    src_hat: 1,
                    dst_device: 1,
                    dst_hat: 1,
                    modifier: HatToHatModifier::Simple,
                },
            },
        }
    } else if place <= 16 {
        RebindView {
            name: straight_name("Axis_"@, (place - 10) as u32),
            mode_mask: 0,
            rebind_type: RebindTypeView::Reroute {
                rebind: RerouteRebindView::AxisToAxis {
                    src_device: sample_guid(),
                    src_axis: (place - 10) as u32,
                    dst_device: 1,
                    dst_axis: (place - 10) as u32,
                    modifier: AxisToAxisModifierView::Parameterized {
                        params: AxisParamsView {
                            deadzone_center: 0,
                            clamp_min: 0,
                            clamp_max: 1_000_000,
                            invert: false,
                            linearity: 2_000_000,
                            offset: 0,
                            avg_filter: 1,
                            avg_head: 0,
                            avg_data: Seq::empty(),
                        },
                    },
                },
            },
        }
    } else if place == 17 {
        RebindView {
            name: "Merge_Axes_1_And_2_To_9"@,
            mode_mask: 0,
            rebind_type: RebindTypeView::Reroute {
                rebind: RerouteRebindView::MergeAxes {
                    src_0_device: sample_guid(),
                    src_0_axis: 1,
                    src_1_device: sample_guid(),
                    src_1_axis: 2,
                    dst_device: 1,
                    dst_axis: 9,
                    modifier: MergeAxesModifier::Add,
                },
            },
        }
    } else if place == 18 {
        RebindView {
            name: "Buttons_3_4_To_Axis_10"@,
            mode_mask: 0,
            rebind_type: RebindTypeView::Reroute {
                rebind: RerouteRebindView::TwoButtonsToAxis {
                    src_neg_device: sample_guid(),
                    src_neg_button: 3,
                    src_pos_device: sample_guid(),
                    src_pos_button: 4,
                    dst_device: 1,
                    dst_axis: 10,
                    modifier: TwoButtonsToAxisModifier::Linear { coefficient: 50_000, keep_value: true },
                },
            },
        }
    } else {
        RebindView {
            name: "Virtual_Axis_1_Button_Trim"@,
            mode_mask: 0,
            rebind_type: RebindTypeView::Virtual {
                rebind: VirtualRebind::VirtualAxisApplyButtonTrim {
                    axis_device: 1,
                    axis: 1,
                    trim_neg_device: 1,
                    trim_neg_button: 5,
                    trim_pos_device: 1,
                    trim_pos_button: 6,
                    trim_reset_device: 1,
                    trim_reset_button: 2,
                    modifier: VirtualAxisTrimModifier::Click {
                        params: VirtualAxisTrimParams {
                            value_normalized: 50_000,
                            accumulated: 0,
                            last_input_neg: false,
                            last_input_pos: false,
                        },
                    },
                },
            },
        }
    }
}

/// The sample configuration: a shift button, nine buttons, a hat and six
/// axes sent straight through, two axes merged, two buttons driving an axis
/// and a trim on the first virtual axis.
pub open spec fn sample_config() -> ConfigView {
    ConfigView { name: "Default Config"@, default_shift_mode: 0, rebinds: Seq::new(20, |place: int| sample_rebind(place)) }
}

/// The name of a rule that sends a channel to the channel of the same number.
fn straight(kind: &str, channel: u32) -> (name: String)
    ensures
        name@ == straight_name(kind@, channel),
{
    let digits = decimal(channel);
    let name = kind.to_owned().concat(digits.as_str()).concat("_To_").concat(digits.as_str());
    assert(name@ =~= straight_name(kind@, channel));
    name
}

impl Config {
    /// The sample configuration, for a game pad and the first virtual device.
    pub fn debug_xbox360_config() -> (config: Config)
        ensures
            config@ == sample_config(),
            config_wf(config@),
    {
        let guid: String = "030003f05e0400008e02000000007200".to_owned();
        let mut rebinds: Vec<Rebind> = Vec::new();
        rebinds.push(
            Rebind {
                name: "Enable_Shift_0b10000000".to_owned(),
                mode_mask: ShiftModeMask(0),
                rebind_type: RebindType::Logical {
                    rebind: LogicalRebind::MomentaryEnableShiftMode {
                        src_device: guid.clone(),
                        src_button: 1,
                        shift_mask: ShiftModeMask(1),
                    },
                },
            },
        );
        let mut button: u32 = 2;
        while button <= 10
            invariant
                2 <= button <= 11,
                guid@ == sample_guid(),
                rebinds@.len() == button - 1,
                forall|place: int| 0 <= place < rebinds@.len() ==> (#[trigger] rebinds@[place])@ == sample_rebind(place),
            decreases 11 - button,
        {
            rebinds.push(
                Rebind {
                    name: straight("Button_", button),
                    mode_mask: ShiftModeMask(0),
                    rebind_type: RebindType::Reroute {
                        rebind: RerouteRebind::ButtonToButton {
                            src_device: guid.clone(),
                            src_button: button,
                            dst_device: 1,
                            dst_button: button,
                            modifier: ButtonToButtonModifier::Simple,
                        },
                    },
                },
            );
            button += 1;
        }
        rebinds.push(
            Rebind {
                name: straight("Hat_", 1),
                mode_mask: ShiftModeMask(0),
                rebind_type: RebindType::Reroute {
                    rebind: RerouteRebind::HatToHat {
                        src_device: guid.clone(),
                        src_hat: 1,
                        dst_device: 1,
                        dst_hat: 1,
                        modifier: HatToHatModifier::Simple,
                    },
                },
            },
        );
        let mut axis: u32 = 1;
        while axis <= 6
            invariant
                1 <= axis <= 7,
                guid@ == sample_guid(),
                rebinds@.len() == axis + 10,
                forall|place: int| 0 <= place < rebinds@.len() ==> (#[trigger] rebinds@[place])@ == sample_rebind(place),
            decreases 7 - axis,
        {
            rebinds.push(
                Rebind {
                    name: straight("Axis_", axis),
                    mode_mask: ShiftModeMask(0),
                    rebind_type: RebindType::Reroute {
                        rebind: RerouteRebind::AxisToAxis {
                            src_device: guid.clone(),
                            src_axis: axis,
                            dst_device: 1,
                            dst_axis: axis,
                            modifier: AxisToAxisModifier::Parameterized {
                                params: AxisParams::new(0, 0, 1_000_000, false, 2_000_000, 0, 1),
                            },
                        },
                    },
                },
            );
            axis += 1;
        }
        rebinds.push(
            Rebind {
                name: "Merge_Axes_1_And_2_To_9".to_owned(),
                mode_mask: ShiftModeMask(0),
                rebind_type: RebindType::Reroute {
                    rebind: RerouteRebind::MergeAxes {
                        src_0_device: guid.clone(),
                        src_0_axis: 1,
                        src_1_device: guid.clone(),
                        src_1_axis: 2,
                        dst_device: 1,
                        dst_axis: 9,
                        modifier: MergeAxesModifier::Add,
                    },
                },
            },
        );
        rebinds.push(
            Rebind {
                name: "Buttons_3_4_To_Axis_10".to_owned(),
                mode_mask: ShiftModeMask(0),
                rebind_type: RebindType::Reroute {
                    rebind: RerouteRebind::TwoButtonsToAxis {
                        src_neg_device: guid.clone(),
                        src_neg_button: 3,
                        src_pos_device: guid.clone(),
                        src_pos_button: 4,
                        dst_device: 1,
                        dst_axis: 10,
                        modifier: TwoButtonsToAxisModifier::Linear { coefficient: 50_000, keep_value: true },
                    },
                },
            },
        );
        rebinds.push(
            Rebind {
                name: "Virtual_Axis_1_Button_Trim".to_owned(),
                mode_mask: ShiftModeMask(0),
                rebind_type: RebindType::Virtual {
                    rebind: VirtualRebind::VirtualAxisApplyButtonTrim {
                        axis_device: 1,
                        axis: 1,
                        trim_neg_device: 1,
                        trim_neg_button: 5,
                        trim_pos_device: 1,
                        trim_pos_button: 6,
                        trim_reset_device: 1,
                        trim_reset_button: 2,
                        modifier: VirtualAxisTrimModifier::Click { params: VirtualAxisTrimParams::new(50_000) },
                    },
                },
            },
        );
        let config = Config { name: "Default Config".to_owned(), default_shift_mode: ShiftModeMask(0), rebinds };
        assert(config@.rebinds =~= sample_config().rebinds);
        config
    }
}

} // verus!
