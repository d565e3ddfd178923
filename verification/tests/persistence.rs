use vjoy_manager::activation_interval::ActivationIntervalParams;
use vjoy_manager::axis_to_axis::{apply_axis_modifier, AxisParams, AxisToAxisModifier};
use vjoy_manager::button_to_button::ButtonToButtonModifier;
use vjoy_manager::config::Config;
use vjoy_manager::document::{Document, Key, Record, Tag, Value};
use vjoy_manager::error::Error;
use vjoy_manager::logical_rebind::LogicalRebind;
use vjoy_manager::persist::{rebind_from_record, rebind_to_record};
use vjoy_manager::previous::Previous;
use vjoy_manager::rebind::{Rebind, RebindType};
use vjoy_manager::reroute_rebind::RerouteRebind;
use vjoy_manager::shift_mode_mask::ShiftModeMask;
use vjoy_manager::two_buttons_to_axis::TwoButtonsToAxisModifier;
use vjoy_manager::virtual_axis_trim::{VirtualAxisTrimModifier, VirtualAxisTrimParams};
use vjoy_manager::virtual_rebind::VirtualRebind;

#[test]
fn default_config() {
    let config = Config::debug_xbox360_config();
    let document = config.to_document();
    let config_readback = Config::from_document(&document).unwrap();
    assert_eq!(config, config_readback);
}

#[test]
fn sample_configuration_is_as_described() {
    let config = Config::debug_xbox360_config();
    assert_eq!(config.name, "Default Config");
    assert_eq!(config.default_shift_mode, ShiftModeMask(0));
    assert_eq!(config.rebinds.len(), 20);
    let names: Vec<&str> = config.rebinds.iter().map(|r| r.name.as_str()).collect();
    assert_eq!(
        names,
        [
            "Enable_Shift_0b10000000",
            "Button_2_To_2",
            "Button_3_To_3",
            "Button_4_To_4",
            "Button_5_To_5",
            "Button_6_To_6",
            "Button_7_To_7",
            "Button_8_To_8",
            "Button_9_To_9",
            "Button_10_To_10",
            "Hat_1_To_1",
            "Axis_1_To_1",
            "Axis_2_To_2",
            "Axis_3_To_3",
            "Axis_4_To_4",
            "Axis_5_To_5",
            "Axis_6_To_6",
            "Merge_Axes_1_And_2_To_9",
            "Buttons_3_4_To_Axis_10",
            "Virtual_Axis_1_Button_Trim",
        ]
    );
    assert_eq!(
        config.rebinds[0].rebind_type,
        RebindType::Logical {
            rebind: LogicalRebind::MomentaryEnableShiftMode {
                src_device: "030003f05e0400008e02000000007200".to_string(),
                src_button: 1,
                shift_mask: ShiftModeMask(1),
            }
        }
    );
    assert_eq!(
        config.rebinds[16].rebind_type,
        RebindType::Reroute {
            rebind: RerouteRebind::AxisToAxis {
                src_device: "030003f05e0400008e02000000007200".to_string(),
                src_axis: 6,
                dst_device: 1,
                dst_axis: 6,
                modifier: AxisToAxisModifier::Parameterized {
                    params: AxisParams::new(0, 0, 1_000_000, false, 2_000_000, 0, 1)
                },
            }
        }
    );
    assert_eq!(Config::default().name, "Default config");
    assert!(Config::default().rebinds.is_empty());
}

fn reroute(name: &str, rebind: RerouteRebind) -> Rebind {
    Rebind { name: name.to_string(), mode_mask: ShiftModeMask(0b1010_0101), rebind_type: RebindType::Reroute { rebind } }
}

#[test]
fn running_state_is_not_persisted() {
    let mut filtered = AxisToAxisModifier::Parameterized { params: AxisParams::new(1, 2, 3, true, 4_000_000, -5, 6) };
    let never = |_shaped: i64, _linearity: u32| -> i32 { 0 };
    apply_axis_modifier(123, &mut filtered, &never);
    let running = Config {
        name: "running".to_string(),
        default_shift_mode: ShiftModeMask(7),
        rebinds: vec![
            reroute(
                "toggle",
                RerouteRebind::ButtonToButton {
                    src_device: "g".to_string(),
                    src_button: 1,
                    dst_device: 2,
                    dst_button: 3,
                    modifier: ButtonToButtonModifier::Toggle { last_input: true },
                },
            ),
            reroute(
                "interval",
                RerouteRebind::ButtonToButton {
                    src_device: "g".to_string(),
                    src_button: 1,
                    dst_device: 2,
                    dst_button: 3,
                    modifier: ButtonToButtonModifier::ActivationIntervalToggle {
                        params: ActivationIntervalParams {
                            interval_start: 1,
                            interval_end: 2,
                            sustain: None,
                            last_input: true,
                            activation_start: 77,
                            activation_end: 88,
                        },
                    },
                },
            ),
            reroute(
                "click",
                RerouteRebind::TwoButtonsToAxis {
                    src_neg_device: "n".to_string(),
                    src_neg_button: 1,
                    src_pos_device: "p".to_string(),
                    src_pos_button: 2,
                    dst_device: 3,
                    dst_axis: 4,
                    modifier: TwoButtonsToAxisModifier::Click { coefficient: 9, last_input_neg: true, last_input_pos: true },
                },
            ),
            reroute(
                "axis",
                RerouteRebind::AxisToAxis { src_device: "g".to_string(), src_axis: 1, dst_device: 2, dst_axis: 3, modifier: filtered },
            ),
            Rebind {
                name: "trim".to_string(),
                mode_mask: ShiftModeMask(0),
                rebind_type: RebindType::Virtual {
                    rebind: VirtualRebind::VirtualAxisApplyButtonTrim {
                        axis_device: 1,
                        axis: 2,
                        trim_neg_device: 3,
                        trim_neg_button: 4,
                        trim_pos_device: 5,
                        trim_pos_button: 6,
                        trim_reset_device: 7,
                        trim_reset_button: 8,
                        modifier: VirtualAxisTrimModifier::Linear {
                            params: VirtualAxisTrimParams {
                                value_normalized: 10,
                                accumulated: -400,
                                last_input_neg: true,
                                last_input_pos: true,
                            },
                        },
                    },
                },
            },
        ],
    };
    let read = Config::from_document(&running.to_document()).unwrap();
    assert_ne!(read, running);
    assert_eq!(read.name, "running");
    assert_eq!(read.default_shift_mode, ShiftModeMask(7));
    assert_eq!(read.rebinds.len(), 5);
    assert_eq!(
        read.rebinds[0],
        reroute(
            "toggle",
            RerouteRebind::ButtonToButton {
                src_device: "g".to_string(),
                src_button: 1,
                dst_device: 2,
                dst_button: 3,
                modifier: ButtonToButtonModifier::Toggle { last_input: false },
            },
        )
    );
    assert_eq!(
        read.rebinds[1],
        reroute(
            "interval",
            RerouteRebind::ButtonToButton {
                src_device: "g".to_string(),
                src_button: 1,
                dst_device: 2,
                dst_button: 3,
                modifier: ButtonToButtonModifier::ActivationIntervalToggle {
                    params: ActivationIntervalParams::new(1, 2, None)
                },
            },
        )
    );
    assert_eq!(
        read.rebinds[2],
        reroute(
            "click",
            RerouteRebind::TwoButtonsToAxis {
                src_neg_device: "n".to_string(),
                src_neg_button: 1,
                src_pos_device: "p".to_string(),
                src_pos_button: 2,
                dst_device: 3,
                dst_axis: 4,
                modifier: TwoButtonsToAxisModifier::Click { coefficient: 9, last_input_neg: false, last_input_pos: false },
            },
        )
    );
    assert_eq!(
        read.rebinds[3],
        reroute(
            "axis",
            RerouteRebind::AxisToAxis {
                src_device: "g".to_string(),
                src_axis: 1,
                dst_device: 2,
                dst_axis: 3,
                modifier: AxisToAxisModifier::Parameterized { params: AxisParams::new(1, 2, 3, true, 4_000_000, -5, 6) },
            },
        )
    );
    match &read.rebinds[4].rebind_type {
        RebindType::Virtual { rebind: VirtualRebind::VirtualAxisApplyButtonTrim { modifier, .. } } => {
            assert_eq!(*modifier, VirtualAxisTrimModifier::Linear { params: VirtualAxisTrimParams::new(10) });
        }
        _ => unreachable!(),
    }
    let again = Config::from_document(&read.to_document()).unwrap();
    assert_eq!(again, read);
}

#[test]
fn record_of_a_rebind_carries_its_tags() {
    let rebind = reroute(
        "b",
        RerouteRebind::ButtonToButton {
            src_device: "g".to_string(),
            src_button: 4,
            dst_device: 1,
            dst_button: 5,
            modifier: ButtonToButtonModifier::ActivationIntervalSimple {
                params: ActivationIntervalParams::new(10, 20, Some(30)),
            },
        },
    );
    let record = rebind_to_record(&rebind);
    assert_eq!(record.text(Key::Name), Some("b".to_string()));
    assert_eq!(record.integer(Key::ModeMask), Some(0b1010_0101));
    assert_eq!(record.tag(Key::RebindType), Some(Tag::Reroute));
    assert_eq!(record.tag(Key::Variant), Some(Tag::ButtonToButton));
    assert_eq!(record.tag(Key::Modifier), Some(Tag::ActivationIntervalSimple));
    assert_eq!(record.text(Key::SrcDevice), Some("g".to_string()));
    assert_eq!(record.integer(Key::SrcButton), Some(4));
    assert_eq!(record.integer(Key::DstDevice), Some(1));
    assert_eq!(record.integer(Key::DstButton), Some(5));
    assert_eq!(record.integer(Key::IntervalStart), Some(10));
    assert_eq!(record.integer(Key::IntervalEnd), Some(20));
    assert_eq!(record.integer(Key::Sustain), Some(30));
    assert_eq!(record.get(Key::Coefficient), None);
    assert_eq!(record.boolean(Key::KeepValue), None);
    assert_eq!(record.entries().len(), 12);
    assert_eq!(rebind_from_record(&record), Some(rebind));
}

fn hat_record() -> Record {
    let mut record = Record::new();
    record.insert(Key::Name, Value::Text("h".to_string()));
    record.insert(Key::ModeMask, Value::Integer(3));
    record.insert(Key::RebindType, Value::Tag(Tag::Reroute));
    record.insert(Key::Variant, Value::Tag(Tag::HatToHat));
    record.insert(Key::SrcDevice, Value::Text("g".to_string()));
    record.insert(Key::SrcHat, Value::Integer(1));
    record.insert(Key::DstDevice, Value::Integer(2));
    record.insert(Key::DstHat, Value::Integer(1));
    record.insert(Key::Modifier, Value::Tag(Tag::Simple));
    record
}

#[test]
fn malformed_records_describe_no_rebind() {
    assert!(rebind_from_record(&hat_record()).is_some());
    assert_eq!(rebind_from_record(&Record::new()), None);

    let mut out_of_range = hat_record();
    out_of_range.insert(Key::ModeMask, Value::Integer(256));
    assert_eq!(rebind_from_record(&out_of_range), None);

    let mut negative = hat_record();
    negative.insert(Key::SrcHat, Value::Integer(-1));
    assert_eq!(rebind_from_record(&negative), None);

    let mut wrong_kind = hat_record();
    wrong_kind.insert(Key::DstDevice, Value::Text("2".to_string()));
    assert_eq!(rebind_from_record(&wrong_kind), None);

    let mut wrong_modifier = hat_record();
    wrong_modifier.insert(Key::Modifier, Value::Tag(Tag::Toggle));
    assert_eq!(rebind_from_record(&wrong_modifier), None);

    let mut wrong_variant = hat_record();
    wrong_variant.insert(Key::Variant, Value::Tag(Tag::VirtualAxisApplyButtonTrim));
    assert_eq!(rebind_from_record(&wrong_variant), None);

    let missing = Record::from_entries(vec![
        (Key::Name, Value::Text("h".to_string())),
        (Key::ModeMask, Value::Integer(3)),
        (Key::RebindType, Value::Tag(Tag::Reroute)),
        (Key::Variant, Value::Tag(Tag::HatToHat)),
    ]);
    assert_eq!(rebind_from_record(&missing), None);

    let document = Document { name: "d".to_string(), default_shift_mode: 1, rebinds: vec![hat_record(), missing] };
    assert!(matches!(Config::from_document(&document), Err(Error::ConfigParse(_))));
    let good = Document { name: "d".to_string(), default_shift_mode: 1, rebinds: vec![hat_record()] };
    let config = Config::from_document(&good).unwrap();
    assert_eq!(config.name, "d");
    assert_eq!(config.default_shift_mode, ShiftModeMask(1));
    assert_eq!(config.rebinds.len(), 1);
}

#[test]
fn linearity_is_clamped_when_read() {
    let mut record = Record::new();
    record.insert(Key::Name, Value::Text("a".to_string()));
    record.insert(Key::ModeMask, Value::Integer(0));
    record.insert(Key::RebindType, Value::Tag(Tag::Reroute));
    record.insert(Key::Variant, Value::Tag(Tag::AxisToAxis));
    record.insert(Key::SrcDevice, Value::Text("g".to_string()));
    record.insert(Key::SrcAxis, Value::Integer(1));
    record.insert(Key::DstDevice, Value::Integer(1));
    record.insert(Key::DstAxis, Value::Integer(1));
    record.insert(Key::Modifier, Value::Tag(Tag::Parameterized));
    record.insert(Key::DeadzoneCenter, Value::Integer(0));
    record.insert(Key::ClampMin, Value::Integer(0));
    record.insert(Key::ClampMax, Value::Integer(1_000_000));
    record.insert(Key::Invert, Value::Boolean(false));
    record.insert(Key::Linearity, Value::Integer(50_000_000));
    record.insert(Key::Offset, Value::Integer(0));
    record.insert(Key::AvgFilter, Value::Integer(1));
    let rebind = rebind_from_record(&record).unwrap();
    match rebind.rebind_type {
        RebindType::Reroute { rebind: RerouteRebind::AxisToAxis { modifier: AxisToAxisModifier::Parameterized { params }, .. } } => {
            assert_eq!(params.linearity(), 10_000_000)
        }
        _ => unreachable!(),
    }
}

#[test]
fn later_entries_of_a_record_count() {
    let mut record = Record::new();
    assert_eq!(record.get(Key::Name), None);
    record.insert(Key::Offset, Value::Integer(1));
    record.insert(Key::Invert, Value::Boolean(true));
    record.insert(Key::Offset, Value::Integer(2));
    assert_eq!(record.integer(Key::Offset), Some(2));
    assert_eq!(record.boolean(Key::Invert), Some(true));
    assert_eq!(record.text(Key::Offset), None);
    assert_eq!(record.tag(Key::Invert), None);
    assert_eq!(record.get(Key::Invert), Some(&Value::Boolean(true)));
}

#[test]
fn keys_and_tags_have_written_names() {
    assert_eq!(Key::all().len(), 43);
    assert_eq!(Tag::all().len(), 20);
    for key in Key::all() {
        assert_eq!(Key::from_name(&key.name().to_string()), Some(key));
        assert_eq!(key.holds_tag(), matches!(key, Key::RebindType | Key::Variant | Key::Modifier));
    }
    for tag in Tag::all() {
        assert_eq!(Tag::from_name(&tag.name().to_string()), Some(tag));
    }
    assert_eq!(Key::ModeMask.name(), "mode_mask");
    assert_eq!(Key::Src0Device.name(), "src_0_device");
    assert_eq!(Key::TrimResetButton.name(), "trim_reset_button");
    assert_eq!(Tag::MomentaryEnableShiftMode.name(), "MomentaryEnableShiftMode");
    assert_eq!(Key::from_name(&"nothing".to_string()), None);
    assert_eq!(Tag::from_name(&"reroute".to_string()), None);
    assert_eq!(Tag::from_name(&"Reroute".to_string()), Some(Tag::Reroute));
}

#[test]
fn previous_run() {
    let fallback = "Cfg/config.toml".to_string();
    assert_eq!(Previous::default().load_cfg_path, None);
    assert_eq!(Previous::default().config_path(&fallback), "Cfg/config.toml");
    let previous = Previous { load_cfg_path: Some("elsewhere.toml".to_string()) };
    assert_eq!(previous.config_path(&fallback), "elsewhere.toml");
}
