use vjoy_manager::axis_to_axis::{AxisParams, AxisToAxisModifier};
use vjoy_manager::button_to_button::ButtonToButtonModifier;
use vjoy_manager::config::Config;
use vjoy_manager::device::{ButtonState, FourWayHat, HatState, InputState, PhysicalDevice, VirtualDevice};
use vjoy_manager::hat_to_hat::HatToHatModifier;
use vjoy_manager::logical_rebind::LogicalRebind;
use vjoy_manager::merge_axes::MergeAxesModifier;
use vjoy_manager::rebind::{Rebind, RebindType};
use vjoy_manager::rebind_processor::RebindProcessor;
use vjoy_manager::reroute_rebind::RerouteRebind;
use vjoy_manager::shift_mode_mask::ShiftModeMask;
use vjoy_manager::two_buttons_to_axis::TwoButtonsToAxisModifier;
use vjoy_manager::virtual_axis_trim::{VirtualAxisTrimModifier, VirtualAxisTrimParams};
use vjoy_manager::virtual_rebind::VirtualRebind;

fn identity_curve(shaped: i64, _linearity: u32) -> i32 {
    (shaped / 1_000_000) as i32
}

fn physical(guid: &str, buttons: Vec<bool>, axes: Vec<i32>, hats: Vec<i32>) -> PhysicalDevice {
    PhysicalDevice {
        guid: guid.to_string(),
        name: "pad".to_string(),
        input_state: InputState::from_channels(buttons, axes, hats),
        selected: false,
    }
}

fn virtual_device(id: u32) -> VirtualDevice {
    VirtualDevice {
        id,
        buttons: vec![ButtonState::Released; 8],
        axes: vec![0; 4],
        hats: vec![HatState::Discrete(FourWayHat::Centered), HatState::Continuous(u32::MAX)],
        selected: false,
    }
}

fn enable(name: &str, required: u8, button: u32, bits: u8) -> Rebind {
    Rebind {
        name: name.to_string(),
        mode_mask: ShiftModeMask(required),
        rebind_type: RebindType::Logical {
            rebind: LogicalRebind::MomentaryEnableShiftMode {
                src_device: "D".to_string(),
                src_button: button,
                shift_mask: ShiftModeMask(bits),
            },
        },
    }
}

fn disable(name: &str, required: u8, button: u32, bits: u8) -> Rebind {
    Rebind {
        name: name.to_string(),
        mode_mask: ShiftModeMask(required),
        rebind_type: RebindType::Logical {
            rebind: LogicalRebind::MomentaryDisableShiftMode {
                src_device: "D".to_string(),
                src_button: button,
                shift_mask: ShiftModeMask(bits),
            },
        },
    }
}

fn button_to_button(name: &str, required: u8, src: u32, dst: u32) -> Rebind {
    Rebind {
        name: name.to_string(),
        mode_mask: ShiftModeMask(required),
        rebind_type: RebindType::Reroute {
            rebind: RerouteRebind::ButtonToButton {
                src_device: "D".to_string(),
                src_button: src,
                dst_device: 1,
                dst_button: dst,
                modifier: ButtonToButtonModifier::Simple,
            },
        },
    }
}

fn config(default_shift_mode: u8, rebinds: Vec<Rebind>) -> Config {
    Config { name: "test".to_string(), default_shift_mode: ShiftModeMask(default_shift_mode), rebinds }
}

#[test]
fn momentary_shift_enable() {
    let mut processor = RebindProcessor::new(config(
        0,
        vec![enable("shift", 0, 1, 0b1000_0000), button_to_button("gated", 0b1000_0000, 2, 2)],
    ));
    let mut virtuals = vec![virtual_device(1)];
    let snapshot_a = vec![physical("D", vec![true, true], vec![], vec![])];
    assert!(processor.process(&snapshot_a, &mut virtuals, 0, 10_001, &identity_curve).is_ok());
    assert_eq!(processor.get_active_shift_mode(), ShiftModeMask(0b1000_0000));
    assert_eq!(virtuals[0].buttons[1], ButtonState::Pressed);

    let mut virtuals = vec![virtual_device(1)];
    let snapshot_b = vec![physical("D", vec![false, true], vec![], vec![])];
    assert!(processor.process(&snapshot_b, &mut virtuals, 20_000, 10_001, &identity_curve).is_ok());
    assert_eq!(processor.get_active_shift_mode(), ShiftModeMask(0b0000_0000));
    assert_eq!(virtuals[0].buttons[1], ButtonState::Released);
}

#[test]
fn a_gated_rebind_leaves_its_destination_as_it_is() {
    let mut processor = RebindProcessor::new(config(0, vec![button_to_button("gated", 0b0000_0100, 1, 1)]));
    let mut virtuals = vec![virtual_device(1)];
    virtuals[0].buttons[0] = ButtonState::Pressed;
    let before = virtuals.clone();
    let snapshot = vec![physical("D", vec![false], vec![], vec![])];
    processor.process(&snapshot, &mut virtuals, 0, 10_001, &identity_curve).unwrap();
    assert_eq!(virtuals, before);
}

#[test]
fn order_sensitive_logical_cascade() {
    let mut processor = RebindProcessor::new(config(
        0b0000_0001,
        vec![
            enable("r1", 0, 1, 0b1000_0000),
            disable("r2", 0, 1, 0b0000_0001),
            button_to_button("needs bit 7", 0b1000_0000, 2, 3),
            button_to_button("needs bit 0", 0b0000_0001, 2, 4),
        ],
    ));
    assert_eq!(processor.get_active_shift_mode(), ShiftModeMask(0b0000_0001));
    let mut virtuals = vec![virtual_device(1)];
    let snapshot = vec![physical("D", vec![true, true], vec![], vec![])];
    assert!(processor.process(&snapshot, &mut virtuals, 0, 10_001, &identity_curve).is_ok());
    assert_eq!(processor.get_active_shift_mode(), ShiftModeMask(0b1000_0000));
    assert_eq!(virtuals[0].buttons[2], ButtonState::Pressed);
    assert_eq!(virtuals[0].buttons[3], ButtonState::Released);
}

#[test]
fn later_logical_rebinds_see_the_updated_register() {
    let mut processor = RebindProcessor::new(config(
        0,
        vec![enable("second, gated by first", 0b0000_0001, 1, 0b0000_0010), enable("first", 0, 1, 0b0000_0001)],
    ));
    let mut virtuals = vec![virtual_device(1)];
    let snapshot = vec![physical("D", vec![true], vec![], vec![])];
    processor.process(&snapshot, &mut virtuals, 0, 10_001, &identity_curve).unwrap();
    assert_eq!(processor.get_active_shift_mode(), ShiftModeMask(0b0000_0001));
    processor.process(&snapshot, &mut virtuals, 0, 10_001, &identity_curve).unwrap();
    assert_eq!(processor.get_active_shift_mode(), ShiftModeMask(0b0000_0011));
}

#[test]
fn reroute_before_its_enabler_in_the_list_still_runs_in_the_same_tick() {
    let mut processor = RebindProcessor::new(config(
        0,
        vec![button_to_button("gated", 0b0100_0000, 2, 5), enable("shift", 0, 1, 0b0100_0000)],
    ));
    let mut virtuals = vec![virtual_device(1)];
    let snapshot = vec![physical("D", vec![true, true], vec![], vec![])];
    processor.process(&snapshot, &mut virtuals, 0, 10_001, &identity_curve).unwrap();
    assert_eq!(virtuals[0].buttons[4], ButtonState::Pressed);
}

#[test]
fn reroutes_write_in_list_order() {
    let mut processor = RebindProcessor::new(config(
        0,
        vec![button_to_button("first", 0, 1, 1), button_to_button("second", 0, 2, 1)],
    ));
    let mut virtuals = vec![virtual_device(1)];
    let snapshot = vec![physical("D", vec![true, false], vec![], vec![])];
    processor.process(&snapshot, &mut virtuals, 0, 10_001, &identity_curve).unwrap();
    assert_eq!(virtuals[0].buttons[0], ButtonState::Released);
    let mut swapped = RebindProcessor::new(config(
        0,
        vec![button_to_button("second", 0, 2, 1), button_to_button("first", 0, 1, 1)],
    ));
    swapped.process(&snapshot, &mut virtuals, 0, 10_001, &identity_curve).unwrap();
    assert_eq!(virtuals[0].buttons[0], ButtonState::Pressed);
}

#[test]
fn unresolved_rebinds_are_skipped_and_the_tick_goes_on() {
    let mut processor = RebindProcessor::new(config(
        0,
        vec![
            button_to_button("no such source", 0, 9, 1),
            button_to_button("no such destination", 0, 1, 99),
            button_to_button("empty", 0, 0, 1),
            button_to_button("fine", 0, 1, 2),
        ],
    ));
    let mut virtuals = vec![virtual_device(1)];
    let snapshot = vec![physical("D", vec![true], vec![], vec![])];
    assert!(processor.process(&snapshot, &mut virtuals, 0, 10_001, &identity_curve).is_ok());
    assert_eq!(virtuals[0].buttons[0], ButtonState::Released);
    assert_eq!(virtuals[0].buttons[1], ButtonState::Pressed);
}

#[test]
fn all_reroute_variants_write_their_destination() {
    let guid = "D".to_string();
    let rebinds = vec![
        Rebind {
            name: "hat discrete".to_string(),
            mode_mask: ShiftModeMask(0),
            rebind_type: RebindType::Reroute {
                rebind: RerouteRebind::HatToHat {
                    src_device: guid.clone(),
                    src_hat: 1,
                    dst_device: 1,
                    dst_hat: 1,
                    modifier: HatToHatModifier::Simple,
                },
            },
        },
        Rebind {
            name: "hat continuous".to_string(),
            mode_mask: ShiftModeMask(0),
            rebind_type: RebindType::Reroute {
                rebind: RerouteRebind::HatToHat {
                    src_device: guid.clone(),
                    src_hat: 1,
                    dst_device: 1,
                    dst_hat: 2,
                    modifier: HatToHatModifier::Simple,
                },
            },
        },
        Rebind {
            name: "axis".to_string(),
            mode_mask: ShiftModeMask(0),
            rebind_type: RebindType::Reroute {
                rebind: RerouteRebind::AxisToAxis {
                    src_device: guid.clone(),
                    src_axis: 1,
                    dst_device: 1,
                    dst_axis: 1,
                    modifier: AxisToAxisModifier::Parameterized { params: AxisParams::default() },
                },
            },
        },
        Rebind {
            name: "merge".to_string(),
            mode_mask: ShiftModeMask(0),
            rebind_type: RebindType::Reroute {
                rebind: RerouteRebind::MergeAxes {
                    src_0_device: guid.clone(),
                    src_0_axis: 1,
                    src_1_device: guid.clone(),
                    src_1_axis: 2,
                    dst_device: 1,
                    dst_axis: 2,
                    modifier: MergeAxesModifier::Add,
                },
            },
        },
        Rebind {
            name: "two buttons".to_string(),
            mode_mask: ShiftModeMask(0),
            rebind_type: RebindType::Reroute {
                rebind: RerouteRebind::TwoButtonsToAxis {
                    src_neg_device: guid.clone(),
                    src_neg_button: 1,
                    src_pos_device: guid.clone(),
                    src_pos_button: 2,
                    dst_device: 1,
                    dst_axis: 3,
                    modifier: TwoButtonsToAxisModifier::Absolute,
                },
            },
        },
    ];
    let mut processor = RebindProcessor::new(config(0, rebinds));
    let mut virtuals = vec![virtual_device(1)];
    let snapshot = vec![physical("D", vec![false, true], vec![32767, -100], vec![90])];
    processor.process(&snapshot, &mut virtuals, 0, 10_001, &identity_curve).unwrap();
    assert_eq!(virtuals[0].hats[0], HatState::Discrete(FourWayHat::East));
    assert_eq!(virtuals[0].hats[1], HatState::Continuous(9000));
    assert_eq!(virtuals[0].axes[0], 32767);
    assert_eq!(virtuals[0].axes[1], 32717);
    assert_eq!(virtuals[0].axes[2], 32767);
}

#[test]
fn virtual_phase_reads_what_the_reroute_phase_wrote() {
    let trim = Rebind {
        name: "trim".to_string(),
        mode_mask: ShiftModeMask(0),
        rebind_type: RebindType::Virtual {
            rebind: VirtualRebind::VirtualAxisApplyButtonTrim {
                axis_device: 1,
                axis: 1,
                trim_neg_device: 1,
                trim_neg_button: 5,
                trim_pos_device: 1,
                trim_pos_button: 6,
                trim_reset_device: 1,
                trim_reset_button: 2,
                modifier: VirtualAxisTrimModifier::Click { params: VirtualAxisTrimParams::new(500_000) },
            },
        },
    };
    let mut processor = RebindProcessor::new(config(0, vec![trim, button_to_button("raise", 0, 1, 6)]));
    let mut virtuals = vec![virtual_device(1)];
    let held = vec![physical("D", vec![true], vec![], vec![])];
    processor.process(&held, &mut virtuals, 0, 10_001, &identity_curve).unwrap();
    assert_eq!(virtuals[0].buttons[5], ButtonState::Pressed);
    assert_eq!(virtuals[0].axes[0], 16383);
}

#[test]
fn list_operations() {
    let mut processor = RebindProcessor::new(config(0, vec![]));
    for name in ["a", "b", "c", "d"] {
        processor.add_rebind(button_to_button(name, 0, 1, 1));
    }
    let names = |p: &RebindProcessor| p.get_active_rebinds().iter().map(|r| r.name.clone()).collect::<Vec<_>>();
    assert_eq!(names(&processor), ["a", "b", "c", "d"]);
    processor.move_rebind(0, 1);
    assert_eq!(names(&processor), ["b", "a", "c", "d"]);
    processor.move_rebind(3, -1);
    assert_eq!(names(&processor), ["b", "a", "d", "c"]);
    processor.move_rebind(1, -5);
    assert_eq!(names(&processor), ["a", "b", "d", "c"]);
    processor.move_rebind(3, 1);
    assert_eq!(names(&processor), ["a", "b", "d", "c"]);
    processor.move_rebind(7, -1);
    assert_eq!(names(&processor), ["a", "b", "d", "c"]);
    processor.move_rebind(0, 3);
    assert_eq!(names(&processor), ["c", "b", "d", "a"]);
    processor.move_rebind(2, 0);
    assert_eq!(names(&processor), ["c", "b", "d", "a"]);
    processor.remove_rebinds_from_keep(&vec![true, false, true]);
    assert_eq!(names(&processor), ["c", "d", "a"]);
    processor.duplicate_rebinds_from_copy(vec![button_to_button("x", 0, 1, 1), button_to_button("y", 0, 1, 1)]);
    assert_eq!(names(&processor), ["c", "d", "a", "x", "y"]);
    processor.remove_rebinds_from_keep(&vec![false, true, false, true, false, false, false]);
    assert_eq!(names(&processor), ["d", "x"]);
    processor.set_rebind(1, button_to_button("z", 0, 1, 1));
    processor.set_rebind(5, button_to_button("w", 0, 1, 1));
    assert_eq!(names(&processor), ["d", "z"]);
    processor.clear_all_rebinds();
    assert!(processor.get_active_rebinds().is_empty());
}

#[test]
fn loading_sets_the_register_to_the_default() {
    let mut processor = RebindProcessor::new(config(0b11, vec![]));
    assert_eq!(processor.get_active_shift_mode(), ShiftModeMask(0b11));
    processor.load_rebinds(config(0b100, vec![button_to_button("a", 0, 1, 1)]));
    assert_eq!(processor.get_active_shift_mode(), ShiftModeMask(0b100));
    assert_eq!(processor.save_rebinds(), &config(0b100, vec![button_to_button("a", 0, 1, 1)]));
}
