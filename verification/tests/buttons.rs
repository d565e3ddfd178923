use vjoy_manager::activation_interval::ActivationIntervalParams;
use vjoy_manager::button_to_button::{apply_button_modifier, ButtonToButtonModifier};
use vjoy_manager::device::ButtonState;

#[test]
fn simple_button_shows_its_input() {
    for output in [ButtonState::Released, ButtonState::Pressed] {
        for time in [0u64, 1, 1_000_000] {
            let mut modifier = ButtonToButtonModifier::Simple;
            assert_eq!(apply_button_modifier(true, output, &mut modifier, time), ButtonState::Pressed);
            assert_eq!(apply_button_modifier(false, output, &mut modifier, time), ButtonState::Released);
            assert_eq!(modifier, ButtonToButtonModifier::Simple);
        }
    }
}

#[test]
fn toggle_flips_on_the_rising_edge_only() {
    let mut modifier = ButtonToButtonModifier::Toggle { last_input: false };
    let first = apply_button_modifier(true, ButtonState::Released, &mut modifier, 10);
    assert_eq!(first, ButtonState::Pressed);
    assert_eq!(modifier, ButtonToButtonModifier::Toggle { last_input: true });
    let second = apply_button_modifier(true, first, &mut modifier, 20);
    assert_eq!(second, ButtonState::Pressed);
    let third = apply_button_modifier(false, second, &mut modifier, 30);
    assert_eq!(third, ButtonState::Pressed);
    assert_eq!(modifier, ButtonToButtonModifier::Toggle { last_input: false });
    let fourth = apply_button_modifier(true, third, &mut modifier, 40);
    assert_eq!(fourth, ButtonState::Released);
}

#[test]
fn activation_interval_fires_on_release_and_sustains() {
    let mut modifier = ButtonToButtonModifier::ActivationIntervalSimple {
        params: ActivationIntervalParams::new(500_000, 1_000_000, Some(250_000)),
    };
    let out = ButtonState::Released;
    assert_eq!(apply_button_modifier(true, out, &mut modifier, 0), ButtonState::Released);
    assert_eq!(apply_button_modifier(true, out, &mut modifier, 300_000), ButtonState::Released);
    assert_eq!(apply_button_modifier(true, out, &mut modifier, 600_000), ButtonState::Released);
    assert_eq!(apply_button_modifier(false, out, &mut modifier, 700_000), ButtonState::Pressed);
    assert_eq!(apply_button_modifier(false, out, &mut modifier, 800_000), ButtonState::Pressed);
    assert_eq!(apply_button_modifier(false, out, &mut modifier, 940_000), ButtonState::Pressed);
    assert_eq!(apply_button_modifier(false, out, &mut modifier, 950_000), ButtonState::Released);
    assert_eq!(apply_button_modifier(false, out, &mut modifier, 990_000), ButtonState::Released);
    assert_eq!(apply_button_modifier(false, out, &mut modifier, 1_200_000), ButtonState::Released);
}

#[test]
fn activation_interval_ignores_a_press_that_is_too_short() {
    let mut params = ActivationIntervalParams::new(500_000, 1_000_000, Some(250_000));
    assert!(!params.update(true, 0, true));
    assert!(!params.update(false, 200_000, true));
    assert!(!params.update(false, 300_000, true));
}

#[test]
fn activation_interval_ignores_a_press_that_is_too_long() {
    let mut params = ActivationIntervalParams::new(500_000, 1_000_000, Some(250_000));
    assert!(!params.update(true, 0, true));
    assert!(!params.update(true, 900_000, true));
    assert!(!params.update(false, 1_000_000, true));
}

#[test]
fn activation_interval_without_sustain_fires_for_one_call() {
    let mut params = ActivationIntervalParams::new(500_000, 1_000_000, None);
    assert!(!params.update(true, 0, true));
    assert!(params.update(false, 700_000, true));
    assert!(!params.update(false, 710_000, true));
    let mut unsustained = ActivationIntervalParams::new(500_000, 1_000_000, Some(250_000));
    assert!(!unsustained.update(true, 0, false));
    assert!(unsustained.update(false, 700_000, false));
    assert!(!unsustained.update(false, 710_000, false));
}

#[test]
fn activation_interval_records_edges() {
    let mut params = ActivationIntervalParams::default();
    assert_eq!(params.interval_start, 500_000);
    assert_eq!(params.interval_end, 1_000_000);
    assert_eq!(params.sustain, Some(250_000));
    params.update(true, 40, true);
    assert_eq!(params.activation_start, 40);
    assert!(params.last_input);
    params.update(false, 90, true);
    assert_eq!(params.activation_end, 90);
    assert!(!params.last_input);
    assert_eq!(params.persistent(), ActivationIntervalParams::default());
}

#[test]
fn activation_interval_toggle_flips_when_the_debouncer_fires() {
    let mut modifier = ButtonToButtonModifier::ActivationIntervalToggle {
        params: ActivationIntervalParams::new(500_000, 1_000_000, Some(250_000)),
    };
    let mut out = ButtonState::Released;
    out = apply_button_modifier(true, out, &mut modifier, 0);
    assert_eq!(out, ButtonState::Released);
    out = apply_button_modifier(false, out, &mut modifier, 700_000);
    assert_eq!(out, ButtonState::Pressed);
    out = apply_button_modifier(false, out, &mut modifier, 710_000);
    assert_eq!(out, ButtonState::Pressed);
    out = apply_button_modifier(true, out, &mut modifier, 2_000_000);
    out = apply_button_modifier(false, out, &mut modifier, 2_600_000);
    assert_eq!(out, ButtonState::Released);
}

#[test]
fn button_states() {
    assert_eq!(ButtonState::from_bool(true), ButtonState::Pressed);
    assert_eq!(ButtonState::from_bool(false), ButtonState::Released);
    assert!(ButtonState::Pressed.is_pressed());
    assert!(!ButtonState::Released.is_pressed());
    assert_eq!(ButtonState::Pressed.toggled(), ButtonState::Released);
    assert_eq!(ButtonState::Released.toggled(), ButtonState::Pressed);
    assert_eq!(ButtonToButtonModifier::default(), ButtonToButtonModifier::Simple);
    assert_eq!(
        ButtonToButtonModifier::Toggle { last_input: true }.persistent(),
        ButtonToButtonModifier::Toggle { last_input: false }
    );
}
