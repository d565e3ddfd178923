use vjoy_manager::rebind::{Rebind, RebindType};
use vjoy_manager::shift_mode_mask::ShiftModeMask;
use vjoy_manager::virtual_rebind::VirtualRebind;

fn rule(required: u8) -> Rebind {
    Rebind {
        name: "rule".to_string(),
        mode_mask: ShiftModeMask(required),
        rebind_type: RebindType::Virtual { rebind: VirtualRebind::default() },
    }
}

#[test]
fn zero_mask_is_always_active() {
    for current in 0..=255u8 {
        assert!(rule(0).is_active(ShiftModeMask(current)));
        assert!(ShiftModeMask(0).is_satisfied_by(ShiftModeMask(current)));
    }
}

#[test]
fn rebind_is_active_exactly_when_its_bits_are_set() {
    for required in 0..=255u8 {
        for current in 0..=255u8 {
            let expected = (current & required) == required;
            assert_eq!(rule(required).is_active(ShiftModeMask(current)), expected);
        }
    }
}

#[test]
fn rebind_with_a_missing_bit_is_gated_off() {
    assert!(!rule(0b1000_0001).is_active(ShiftModeMask(0b1000_0000)));
    assert!(rule(0b1000_0001).is_active(ShiftModeMask(0b1100_0011)));
}

#[test]
fn enabling_and_disabling_bits() {
    assert_eq!(ShiftModeMask(0b0000_0101).enabled(ShiftModeMask(0b1000_0001)), ShiftModeMask(0b1000_0101));
    assert_eq!(ShiftModeMask(0b0000_0101).disabled(ShiftModeMask(0b1000_0001)), ShiftModeMask(0b0000_0100));
    assert_eq!(ShiftModeMask::default(), ShiftModeMask(0));
}

#[test]
fn mask_as_text_shows_the_highest_bit_first() {
    assert_eq!(ShiftModeMask(0b1000_0000).to_text(), "10000000");
    assert_eq!(ShiftModeMask(0b0000_0101).to_text(), "00000101");
    assert_eq!(ShiftModeMask(0).to_text(), "00000000");
    assert_eq!(ShiftModeMask(255).to_text(), "11111111");
}
