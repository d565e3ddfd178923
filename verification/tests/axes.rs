use vjoy_manager::axis_to_axis::{apply_axis_modifier, convert_axis_to_vjoy_range, floor_div, AxisParams, AxisToAxisModifier};
use vjoy_manager::device::{FourWayHat, HatPosition, HatState};
use vjoy_manager::hat_to_hat::{apply_hat_modifier, convert_hat_type_to_vjoy, HatToHatModifier};
use vjoy_manager::merge_axes::{apply_merge_axes_modifier, MergeAxesModifier};
use vjoy_manager::two_buttons_to_axis::{apply_two_buttons_to_axis_modifier, compute_click_step, compute_linear_step, TwoButtonsToAxisModifier};
use vjoy_manager::virtual_axis_trim::{apply_virtual_axis_trim_modifier, VirtualAxisTrimModifier, VirtualAxisTrimParams};

fn power_curve(shaped: i64, linearity: u32) -> i32 {
    let value = shaped as f64 / 1_000_000.0;
    let exponent = linearity as f64 / 1_000_000.0;
    (value.signum() * (value / 32767.0).abs().powf(exponent) * 32767.0).floor() as i32
}

fn unused_curve(_shaped: i64, _linearity: u32) -> i32 {
    panic!("the curve is not to be asked for a linearity of one")
}

fn axis(params: AxisParams) -> AxisToAxisModifier {
    AxisToAxisModifier::Parameterized { params }
}

#[test]
fn neutral_axis_is_the_identity() {
    let mut modifier = axis(AxisParams::new(0, 0, 1_000_000, false, 1_000_000, 0, 1));
    for input in [-32768, -32767, -16384, -1, 0, 1, 255, 16384, 32766, 32767] {
        assert_eq!(apply_axis_modifier(input, &mut modifier, &unused_curve), input);
    }
    let mut fresh = AxisToAxisModifier::default();
    assert_eq!(apply_axis_modifier(-12345, &mut fresh, &unused_curve), -12345);
}

#[test]
fn axis_linearity_two() {
    let mut modifier = axis(AxisParams::new(0, 0, 1_000_000, false, 2_000_000, 0, 1));
    let value = apply_axis_modifier(16384, &mut modifier, &power_curve);
    assert!(value == 8191 || value == 8192);
    assert_eq!(convert_axis_to_vjoy_range(value), 20479);
}

#[test]
fn axis_curve_is_asked_with_the_shaped_value_and_the_linearity() {
    let mut modifier = axis(AxisParams::new(0, 0, 1_000_000, true, 500_000, 100_000, 1));
    let seen = |shaped: i64, linearity: u32| -> i32 {
        assert_eq!(shaped, -1000 * 1_000_000 + 32767 * 100_000);
        assert_eq!(linearity, 500_000);
        77
    };
    assert_eq!(apply_axis_modifier(1000, &mut modifier, &seen), 77);
}

#[test]
fn axis_inversion_deadzone_clamp_and_offset() {
    let mut inverted = axis(AxisParams::new(0, 0, 1_000_000, true, 1_000_000, 0, 1));
    assert_eq!(apply_axis_modifier(1000, &mut inverted, &unused_curve), -1000);
    let mut dead = axis(AxisParams::new(100_000, 0, 1_000_000, false, 1_000_000, 0, 1));
    assert_eq!(apply_axis_modifier(3276, &mut dead, &unused_curve), 0);
    assert_eq!(apply_axis_modifier(-3276, &mut dead, &unused_curve), 0);
    assert_eq!(apply_axis_modifier(3277, &mut dead, &unused_curve), 3277);
    assert_eq!(apply_axis_modifier(-3277, &mut dead, &unused_curve), -3277);
    let mut all_dead = axis(AxisParams::new(1_000_000, 0, 1_000_000, true, 1_000_000, 0, 1));
    assert_eq!(apply_axis_modifier(-32768, &mut all_dead, &unused_curve), 0);
    assert_eq!(apply_axis_modifier(32767, &mut all_dead, &unused_curve), 0);
    let mut clamped = axis(AxisParams::new(0, 500_000, 500_000, false, 1_000_000, 0, 1));
    assert_eq!(apply_axis_modifier(-16384, &mut clamped, &unused_curve), -32768);
    assert_eq!(apply_axis_modifier(-16383, &mut clamped, &unused_curve), -16383);
    assert_eq!(apply_axis_modifier(16383, &mut clamped, &unused_curve), 16383);
    assert_eq!(apply_axis_modifier(16384, &mut clamped, &unused_curve), 32767);
    let mut offset = axis(AxisParams::new(0, 0, 1_000_000, false, 1_000_000, 500_000, 1));
    assert_eq!(apply_axis_modifier(0, &mut offset, &unused_curve), 16383);
    assert_eq!(apply_axis_modifier(100, &mut offset, &unused_curve), 16483);
}

#[test]
fn axis_average_over_a_window() {
    let mut modifier = axis(AxisParams::new(0, 0, 1_000_000, false, 1_000_000, 0, 4));
    assert_eq!(apply_axis_modifier(400, &mut modifier, &unused_curve), 100);
    assert_eq!(apply_axis_modifier(400, &mut modifier, &unused_curve), 200);
    assert_eq!(apply_axis_modifier(400, &mut modifier, &unused_curve), 300);
    assert_eq!(apply_axis_modifier(400, &mut modifier, &unused_curve), 400);
    assert_eq!(apply_axis_modifier(0, &mut modifier, &unused_curve), 300);
    assert_eq!(apply_axis_modifier(-3, &mut modifier, &unused_curve), 199);
}

#[test]
fn axis_window_of_zero_holds_one_sample() {
    let mut modifier = axis(AxisParams::new(0, 0, 1_000_000, false, 1_000_000, 0, 0));
    assert_eq!(apply_axis_modifier(500, &mut modifier, &unused_curve), 500);
    assert_eq!(apply_axis_modifier(-700, &mut modifier, &unused_curve), -700);
}

#[test]
fn axis_linearity_is_clamped_on_ingest() {
    assert_eq!(AxisParams::new(0, 0, 0, false, 5, 0, 1).linearity(), 100_000);
    assert_eq!(AxisParams::new(0, 0, 0, false, 99_999_999, 0, 1).linearity(), 10_000_000);
    assert_eq!(AxisParams::new(0, 0, 0, false, 2_500_000, 0, 1).linearity(), 2_500_000);
    let params = AxisParams::new(1, 2, 3, true, 1_000_000, -4, 5);
    assert_eq!(params.deadzone_center(), 1);
    assert_eq!(params.clamp_min(), 2);
    assert_eq!(params.clamp_max(), 3);
    assert!(params.invert());
    assert_eq!(params.offset(), -4);
    assert_eq!(params.avg_filter(), 5);
    assert_eq!(AxisParams::default(), AxisParams::new(0, 0, 1_000_000, false, 1_000_000, 0, 1));
}

#[test]
fn axis_persistent_form_has_an_empty_window() {
    let mut modifier = axis(AxisParams::new(0, 0, 1_000_000, false, 1_000_000, 0, 3));
    apply_axis_modifier(9, &mut modifier, &unused_curve);
    assert_ne!(modifier, axis(AxisParams::new(0, 0, 1_000_000, false, 1_000_000, 0, 3)));
    assert_eq!(modifier.persistent(), axis(AxisParams::new(0, 0, 1_000_000, false, 1_000_000, 0, 3)));
}

#[test]
fn vjoy_range_maps_the_ends_and_the_middle() {
    assert_eq!(convert_axis_to_vjoy_range(-32768), 0);
    assert_eq!(convert_axis_to_vjoy_range(32767), 32767);
    assert_eq!(convert_axis_to_vjoy_range(0), 16383);
    assert_eq!(convert_axis_to_vjoy_range(8191), 20479);
    assert_eq!(convert_axis_to_vjoy_range(-1), 16383);
    assert_eq!(convert_axis_to_vjoy_range(i32::MIN), 0);
    assert_eq!(convert_axis_to_vjoy_range(i32::MAX), 32767);
    assert_eq!(convert_axis_to_vjoy_range(-40000), 0);
    assert_eq!(convert_axis_to_vjoy_range(40000), 32767);
}

#[test]
fn division_rounds_down() {
    assert_eq!(floor_div(7, 2), 3);
    assert_eq!(floor_div(-7, 2), -4);
    assert_eq!(floor_div(-8, 2), -4);
    assert_eq!(floor_div(0, 5), 0);
    assert_eq!(floor_div(-1, 1_000_000), -1);
}

#[test]
fn merge_adds_and_saturates() {
    let mut modifier = MergeAxesModifier::Add;
    assert_eq!(apply_merge_axes_modifier(100, -30, &mut modifier), 70);
    assert_eq!(apply_merge_axes_modifier(32767, 32767, &mut modifier), 65534);
    assert_eq!(apply_merge_axes_modifier(i32::MAX, 1, &mut modifier), i32::MAX);
    assert_eq!(apply_merge_axes_modifier(i32::MIN, -1, &mut modifier), i32::MIN);
    assert_eq!(convert_axis_to_vjoy_range(apply_merge_axes_modifier(32767, 32767, &mut modifier)), 32767);
    assert_eq!(convert_axis_to_vjoy_range(apply_merge_axes_modifier(-32768, 32767, &mut modifier)), 16383);
    assert_eq!(MergeAxesModifier::default(), MergeAxesModifier::Add);
}

#[test]
fn hat_passes_through_and_converts() {
    let mut modifier = HatToHatModifier::default();
    for degrees in [-1, 0, 45, 90, 135, 180, 225, 270, 315] {
        assert_eq!(apply_hat_modifier(degrees, &mut modifier), degrees);
    }
    let discrete = HatState::Discrete(FourWayHat::Centered);
    assert_eq!(convert_hat_type_to_vjoy(discrete, -1), HatState::Discrete(FourWayHat::Centered));
    assert_eq!(convert_hat_type_to_vjoy(discrete, 0), HatState::Discrete(FourWayHat::North));
    assert_eq!(convert_hat_type_to_vjoy(discrete, 44), HatState::Discrete(FourWayHat::North));
    assert_eq!(convert_hat_type_to_vjoy(discrete, 45), HatState::Discrete(FourWayHat::East));
    assert_eq!(convert_hat_type_to_vjoy(discrete, 90), HatState::Discrete(FourWayHat::East));
    assert_eq!(convert_hat_type_to_vjoy(discrete, 135), HatState::Discrete(FourWayHat::South));
    assert_eq!(convert_hat_type_to_vjoy(discrete, 180), HatState::Discrete(FourWayHat::South));
    assert_eq!(convert_hat_type_to_vjoy(discrete, 225), HatState::Discrete(FourWayHat::West));
    assert_eq!(convert_hat_type_to_vjoy(discrete, 270), HatState::Discrete(FourWayHat::West));
    assert_eq!(convert_hat_type_to_vjoy(discrete, 315), HatState::Discrete(FourWayHat::North));
    let continuous = HatState::Continuous(0);
    assert_eq!(convert_hat_type_to_vjoy(continuous, -1), HatState::Continuous(u32::MAX));
    assert_eq!(convert_hat_type_to_vjoy(continuous, 0), HatState::Continuous(0));
    assert_eq!(convert_hat_type_to_vjoy(continuous, 45), HatState::Continuous(4500));
    assert_eq!(convert_hat_type_to_vjoy(continuous, 315), HatState::Continuous(31500));
}

#[test]
fn hat_positions_in_degrees() {
    assert_eq!(HatPosition::Centered.to_degrees(), -1);
    assert_eq!(HatPosition::Up.to_degrees(), 0);
    assert_eq!(HatPosition::RightUp.to_degrees(), 45);
    assert_eq!(HatPosition::Right.to_degrees(), 90);
    assert_eq!(HatPosition::RightDown.to_degrees(), 135);
    assert_eq!(HatPosition::Down.to_degrees(), 180);
    assert_eq!(HatPosition::LeftDown.to_degrees(), 225);
    assert_eq!(HatPosition::Left.to_degrees(), 270);
    assert_eq!(HatPosition::LeftUp.to_degrees(), 315);
}

#[test]
fn two_buttons_absolute() {
    let mut modifier = TwoButtonsToAxisModifier::default();
    assert_eq!(apply_two_buttons_to_axis_modifier(true, false, 5, &mut modifier, 0), 0);
    assert_eq!(apply_two_buttons_to_axis_modifier(false, true, 5, &mut modifier, 0), 32767);
    assert_eq!(apply_two_buttons_to_axis_modifier(true, true, 5, &mut modifier, 0), 16384);
    assert_eq!(apply_two_buttons_to_axis_modifier(false, false, 5, &mut modifier, 0), 16384);
}

#[test]
fn two_buttons_linear_centering() {
    let mut modifier = TwoButtonsToAxisModifier::Linear { coefficient: 1_000_000, keep_value: false };
    assert_eq!(compute_linear_step(1_000_000, 100_000), 3276);
    assert_eq!(apply_two_buttons_to_axis_modifier(false, false, 16384 + 1000, &mut modifier, 100_000), 16384);
    assert_eq!(apply_two_buttons_to_axis_modifier(false, false, 16384 - 1000, &mut modifier, 100_000), 16384);
    assert_eq!(apply_two_buttons_to_axis_modifier(false, false, 30000, &mut modifier, 100_000), 30000 - 3276);
    assert_eq!(apply_two_buttons_to_axis_modifier(false, false, 1000, &mut modifier, 100_000), 1000 + 3276);
    assert_eq!(apply_two_buttons_to_axis_modifier(false, false, 16384 + 3276, &mut modifier, 100_000), 16384);
    assert_eq!(apply_two_buttons_to_axis_modifier(false, false, 16384 + 3277, &mut modifier, 100_000), 16385);
}

#[test]
fn two_buttons_linear_moves_while_held() {
    let mut modifier = TwoButtonsToAxisModifier::Linear { coefficient: 1_000_000, keep_value: true };
    assert_eq!(apply_two_buttons_to_axis_modifier(true, false, 20000, &mut modifier, 100_000), 20000 - 3276);
    assert_eq!(apply_two_buttons_to_axis_modifier(false, true, 20000, &mut modifier, 100_000), 20000 + 3276);
    assert_eq!(apply_two_buttons_to_axis_modifier(true, true, 20000, &mut modifier, 100_000), 20000);
    assert_eq!(apply_two_buttons_to_axis_modifier(false, false, 20000, &mut modifier, 100_000), 20000);
    assert_eq!(apply_two_buttons_to_axis_modifier(true, false, 100, &mut modifier, 100_000), 0);
    assert_eq!(apply_two_buttons_to_axis_modifier(false, true, 32000, &mut modifier, 100_000), 32767);
    assert_eq!(apply_two_buttons_to_axis_modifier(false, false, 40000, &mut modifier, 100_000), 32767);
    assert_eq!(apply_two_buttons_to_axis_modifier(false, false, -5, &mut modifier, 100_000), 0);
}

#[test]
fn two_buttons_steps_are_at_least_one() {
    assert_eq!(compute_linear_step(0, 100_000), 1);
    assert_eq!(compute_linear_step(1_000_000, 0), 1);
    assert_eq!(compute_linear_step(50_000, 10_000), 16);
    assert_eq!(compute_linear_step(u32::MAX, u64::MAX), i32::MAX);
    assert_eq!(compute_click_step(0), 1);
    assert_eq!(compute_click_step(50_000), 1638);
    assert_eq!(compute_click_step(1_000_000), 32767);
    let mut slow = TwoButtonsToAxisModifier::Linear { coefficient: 0, keep_value: false };
    assert_eq!(apply_two_buttons_to_axis_modifier(false, true, 10, &mut slow, 1), 11);
    assert_eq!(apply_two_buttons_to_axis_modifier(false, false, 16385, &mut slow, 1), 16384);
}

#[test]
fn two_buttons_click_moves_on_rising_edges() {
    let mut modifier = TwoButtonsToAxisModifier::Click { coefficient: 100_000, last_input_neg: false, last_input_pos: false };
    assert_eq!(apply_two_buttons_to_axis_modifier(false, true, 16384, &mut modifier, 0), 16384 + 3276);
    assert_eq!(
        modifier,
        TwoButtonsToAxisModifier::Click { coefficient: 100_000, last_input_neg: false, last_input_pos: true }
    );
    assert_eq!(apply_two_buttons_to_axis_modifier(false, true, 19660, &mut modifier, 0), 19660);
    assert_eq!(apply_two_buttons_to_axis_modifier(true, false, 19660, &mut modifier, 0), 19660 - 3276);
    assert_eq!(apply_two_buttons_to_axis_modifier(false, false, 100, &mut modifier, 0), 100);
    assert_eq!(apply_two_buttons_to_axis_modifier(true, true, 100, &mut modifier, 0), 100);
    assert_eq!(
        modifier.persistent(),
        TwoButtonsToAxisModifier::Click { coefficient: 100_000, last_input_neg: false, last_input_pos: false }
    );
}

#[test]
fn trim_click() {
    let mut modifier = VirtualAxisTrimModifier::Click { params: VirtualAxisTrimParams::new(500_000) };
    assert_eq!(apply_virtual_axis_trim_modifier(0, false, true, false, 10_000, &mut modifier), 16383);
    match modifier {
        VirtualAxisTrimModifier::Click { params } => assert_eq!(params.accumulated, 500_000),
        _ => unreachable!(),
    }
    assert_eq!(apply_virtual_axis_trim_modifier(0, false, true, false, 10_000, &mut modifier), 16383);
    assert_eq!(apply_virtual_axis_trim_modifier(0, false, false, true, 10_000, &mut modifier), 0);
    match modifier {
        VirtualAxisTrimModifier::Click { params } => assert_eq!(params.accumulated, 0),
        _ => unreachable!(),
    }
}

#[test]
fn trim_click_is_limited_to_one_whole() {
    let mut modifier = VirtualAxisTrimModifier::Click { params: VirtualAxisTrimParams::new(700_000) };
    assert_eq!(apply_virtual_axis_trim_modifier(0, false, true, false, 0, &mut modifier), 22936);
    assert_eq!(apply_virtual_axis_trim_modifier(0, false, false, false, 0, &mut modifier), 22936);
    assert_eq!(apply_virtual_axis_trim_modifier(0, false, true, false, 0, &mut modifier), 32767);
    assert_eq!(apply_virtual_axis_trim_modifier(1000, false, false, false, 0, &mut modifier), 32767);
    assert_eq!(apply_virtual_axis_trim_modifier(0, true, false, false, 0, &mut modifier), 9830);
    assert_eq!(apply_virtual_axis_trim_modifier(0, false, false, false, 0, &mut modifier), 9830);
    assert_eq!(apply_virtual_axis_trim_modifier(0, true, false, false, 0, &mut modifier), 13106);
}

#[test]
fn trim_linear_moves_while_held() {
    let mut modifier = VirtualAxisTrimModifier::Linear { params: VirtualAxisTrimParams::new(500_000) };
    assert_eq!(apply_virtual_axis_trim_modifier(10000, false, true, false, 100_000, &mut modifier), 11638);
    assert_eq!(apply_virtual_axis_trim_modifier(10000, false, true, false, 100_000, &mut modifier), 13276);
    assert_eq!(apply_virtual_axis_trim_modifier(10000, true, false, false, 200_000, &mut modifier), 10000);
    assert_eq!(apply_virtual_axis_trim_modifier(10000, true, true, false, 200_000, &mut modifier), 10000);
    assert_eq!(apply_virtual_axis_trim_modifier(10000, false, true, true, 200_000, &mut modifier), 10000);
    assert_eq!(
        modifier.persistent(),
        VirtualAxisTrimModifier::Linear { params: VirtualAxisTrimParams::new(500_000) }
    );
    assert_eq!(VirtualAxisTrimModifier::default(), VirtualAxisTrimModifier::Click { params: VirtualAxisTrimParams::default() });
}
