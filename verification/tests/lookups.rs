use vjoy_manager::device::{ButtonState, DeviceIdentifier, FourWayHat, HatPosition, HatState, InputState, PhysicalDevice, VirtualDevice};
use vjoy_manager::error::Error;
use vjoy_manager::logical_rebind::LogicalRebind;
use vjoy_manager::reroute_rebind::RerouteRebind;
use vjoy_manager::shift_mode_mask::ShiftModeMask;
use vjoy_manager::validate::{
    find_physical_device, find_virtual_device, validate_handle_virtual_axis, validate_handle_virtual_button,
    validate_handle_virtual_hat, validate_value_physical_axis, validate_value_physical_button,
    validate_value_physical_hat, validate_value_virtual_axis, validate_value_virtual_button,
    validate_value_virtual_hat,
};
use vjoy_manager::virtual_rebind::VirtualRebind;

fn physicals() -> Vec<PhysicalDevice> {
    vec![
        PhysicalDevice {
            guid: "A".to_string(),
            name: "first".to_string(),
            input_state: InputState::from_channels(vec![false, true], vec![-5, 7], vec![-1]),
            selected: false,
        },
        PhysicalDevice {
            guid: "B".to_string(),
            name: "second".to_string(),
            input_state: InputState::from_channels(vec![true], vec![], vec![270, 45]),
            selected: false,
        },
        PhysicalDevice {
            guid: "A".to_string(),
            name: "shadowed".to_string(),
            input_state: InputState::from_channels(vec![true, true, true], vec![], vec![]),
            selected: false,
        },
    ]
}

fn virtuals() -> Vec<VirtualDevice> {
    vec![
        VirtualDevice {
            id: 1,
            buttons: vec![ButtonState::Pressed, ButtonState::Released],
            axes: vec![11, 22, 33],
            hats: vec![HatState::Continuous(4500)],
            selected: false,
        },
        VirtualDevice { id: 2, buttons: vec![], axes: vec![44], hats: vec![HatState::Discrete(FourWayHat::West)], selected: false },
    ]
}

#[test]
fn physical_lookups_read_one_based_channels() {
    let devices = physicals();
    assert_eq!(validate_value_physical_button(&devices, &"A".to_string(), 1), Ok(false));
    assert_eq!(validate_value_physical_button(&devices, &"A".to_string(), 2), Ok(true));
    assert_eq!(validate_value_physical_button(&devices, &"B".to_string(), 1), Ok(true));
    assert_eq!(validate_value_physical_axis(&devices, &"A".to_string(), 1), Ok(-5));
    assert_eq!(validate_value_physical_axis(&devices, &"A".to_string(), 2), Ok(7));
    assert_eq!(validate_value_physical_hat(&devices, &"B".to_string(), 2), Ok(45));
    assert_eq!(validate_value_physical_hat(&devices, &"A".to_string(), 1), Ok(-1));
    assert_eq!(find_physical_device(&devices, &"A".to_string()), Some(0));
    assert_eq!(find_physical_device(&devices, &"B".to_string()), Some(1));
    assert_eq!(find_physical_device(&devices, &"C".to_string()), None);
}

#[test]
fn physical_lookups_fail_with_the_right_error() {
    let devices = physicals();
    let a = "A".to_string();
    assert_eq!(validate_value_physical_button(&devices, &a, 0), Err(Error::EmptyRebindOrInvalidID));
    assert_eq!(validate_value_physical_button(&devices, &String::new(), 1), Err(Error::EmptyRebindOrInvalidID));
    assert_eq!(validate_value_physical_hat(&devices, &a, 0), Err(Error::EmptyRebindOrInvalidID));
    assert_eq!(validate_value_physical_axis(&devices, &String::new(), 3), Err(Error::EmptyRebindOrInvalidID));
    assert_eq!(
        validate_value_physical_button(&devices, &a, 3),
        Err(Error::RebindValidatePhysicalButtonFailed("A".to_string(), 3))
    );
    assert_eq!(
        validate_value_physical_button(&devices, &"Z".to_string(), 1),
        Err(Error::RebindValidatePhysicalButtonFailed("Z".to_string(), 1))
    );
    assert_eq!(
        validate_value_physical_hat(&devices, &a, 2),
        Err(Error::RebindValidatePhysicalHatFailed("A".to_string(), 2))
    );
    assert_eq!(
        validate_value_physical_axis(&devices, &"B".to_string(), 1),
        Err(Error::RebindValidatePhysicalAxisFailed("B".to_string(), 1))
    );
}

#[test]
fn virtual_lookups_read_and_locate() {
    let devices = virtuals();
    assert_eq!(validate_value_virtual_button(&devices, 1, 1), Ok(true));
    assert_eq!(validate_value_virtual_button(&devices, 1, 2), Ok(false));
    assert_eq!(validate_value_virtual_axis(&devices, 1, 3), Ok(33));
    assert_eq!(validate_value_virtual_axis(&devices, 2, 1), Ok(44));
    assert_eq!(validate_value_virtual_hat(&devices, 1, 1), Ok(HatState::Continuous(4500)));
    assert_eq!(validate_value_virtual_hat(&devices, 2, 1), Ok(HatState::Discrete(FourWayHat::West)));
    assert_eq!(validate_handle_virtual_button(&devices, 1, 2), Ok((0, 1)));
    assert_eq!(validate_handle_virtual_axis(&devices, 2, 1), Ok((1, 0)));
    assert_eq!(validate_handle_virtual_hat(&devices, 2, 1), Ok((1, 0)));
    assert_eq!(find_virtual_device(&devices, 2), Some(1));
    assert_eq!(find_virtual_device(&devices, 3), None);
}

#[test]
fn virtual_lookups_fail_with_the_right_error() {
    let devices = virtuals();
    assert_eq!(validate_value_virtual_button(&devices, 0, 1), Err(Error::EmptyRebindOrInvalidID));
    assert_eq!(validate_value_virtual_button(&devices, 1, 0), Err(Error::EmptyRebindOrInvalidID));
    assert_eq!(validate_handle_virtual_axis(&devices, 0, 0), Err(Error::EmptyRebindOrInvalidID));
    assert_eq!(validate_handle_virtual_hat(&devices, 1, 0), Err(Error::EmptyRebindOrInvalidID));
    assert_eq!(validate_value_virtual_button(&devices, 2, 1), Err(Error::RebindValidateVirtualButtonFailed(2, 1)));
    assert_eq!(validate_value_virtual_button(&devices, 9, 1), Err(Error::RebindValidateVirtualButtonFailed(9, 1)));
    assert_eq!(validate_value_virtual_hat(&devices, 1, 2), Err(Error::RebindValidateVirtualHatFailed(1, 2)));
    assert_eq!(validate_value_virtual_axis(&devices, 2, 2), Err(Error::RebindValidateVirtualAxisFailed(2, 2)));
    assert_eq!(validate_handle_virtual_axis(&devices, 7, 1), Err(Error::RebindValidateVirtualAxisFailed(7, 1)));
}

#[test]
fn the_last_virtual_device_resolves() {
    let devices = virtuals();
    assert_eq!(validate_handle_virtual_axis(&devices, 2, 1), Ok((1, 0)));
    let single = vec![VirtualDevice { id: 1, buttons: vec![ButtonState::Released], axes: vec![], hats: vec![], selected: false }];
    assert_eq!(validate_handle_virtual_button(&single, 1, 1), Ok((0, 0)));
}

#[test]
fn rebinds_report_why_they_were_skipped() {
    let devices = physicals();
    let mut mask = ShiftModeMask(0b0000_1000);
    let mut unresolved = LogicalRebind::MomentaryEnableShiftMode {
        src_device: "A".to_string(),
        src_button: 9,
        shift_mask: ShiftModeMask(1),
    };
    assert_eq!(
        unresolved.process(&devices, &mut mask),
        Err(Error::RebindValidatePhysicalButtonFailed("A".to_string(), 9))
    );
    assert_eq!(mask, ShiftModeMask(0b0000_1000));
    let mut empty = LogicalRebind::default();
    assert_eq!(empty.process(&devices, &mut mask), Err(Error::EmptyRebindOrInvalidID));
    assert_eq!(mask, ShiftModeMask(0b0000_1000));
    let mut pressed = LogicalRebind::MomentaryDisableShiftMode {
        src_device: "A".to_string(),
        src_button: 2,
        shift_mask: ShiftModeMask(0b0000_1000),
    };
    assert_eq!(pressed.process(&devices, &mut mask), Ok(()));
    assert_eq!(mask, ShiftModeMask(0));
    let mut released = LogicalRebind::MomentaryDisableShiftMode {
        src_device: "A".to_string(),
        src_button: 1,
        shift_mask: ShiftModeMask(0b0000_0110),
    };
    assert_eq!(released.process(&devices, &mut mask), Ok(()));
    assert_eq!(mask, ShiftModeMask(0b0000_0110));

    let mut targets = virtuals();
    let before = targets.clone();
    let identity = |shaped: i64, _linearity: u32| -> i32 { (shaped / 1_000_000) as i32 };
    let mut reroute = RerouteRebind::default();
    assert!(reroute.process(&devices, &mut targets, 0, 0, &identity).is_err());
    assert_eq!(targets, before);
    let mut trim = VirtualRebind::default();
    assert_eq!(trim.process(&mut targets, 0), Err(Error::EmptyRebindOrInvalidID));
    assert_eq!(targets, before);
}

#[test]
fn snapshots_take_over_samples() {
    let mut state = InputState::new(2, 1, 1);
    assert_eq!(state.buttons(), &vec![false, false]);
    assert_eq!(state.axes(), &vec![0]);
    assert_eq!(state.hats(), &vec![-1]);
    assert_eq!((state.num_buttons(), state.num_axes(), state.num_hats()), (2, 1, 1));
    state.update(&vec![true, false], &vec![-32768], &vec![HatPosition::LeftDown]);
    assert_eq!(state.buttons(), &vec![true, false]);
    assert_eq!(state.axes(), &vec![-32768]);
    assert_eq!(state.hats(), &vec![225]);
    let mut device = PhysicalDevice::new("G".to_string(), "N".to_string(), 1, 2, 0);
    assert_eq!((device.num_buttons(), device.num_axes(), device.num_hats()), (1, 2, 0));
    device.update(&vec![true], &vec![5, 32767], &vec![]);
    assert_eq!(device.input_state.axes(), &vec![5, 32767]);
    assert_eq!(device.name(), "N");
    assert_eq!(device.guid, "G");
}

#[test]
fn identifiers() {
    let pad = DeviceIdentifier::SDL2("030003f0".to_string());
    let slot = DeviceIdentifier::VJoy(12);
    assert!(pad.same_device(&DeviceIdentifier::SDL2("030003f0".to_string())));
    assert!(!pad.same_device(&slot));
    assert!(!slot.same_device(&DeviceIdentifier::VJoy(13)));
    assert_eq!(pad.to_text(), "030003f0");
    assert_eq!(slot.to_text(), "12");
}

#[test]
fn failure_messages() {
    assert_eq!(Error::EmptyRebindOrInvalidID.message(), "rebind is empty.");
    assert_eq!(
        Error::RebindProcessingFailed("x".to_string()).message(),
        "processing rebind failed. Rebind name: x"
    );
    assert_eq!(
        Error::RebindValidatePhysicalButtonFailed("G".to_string(), 3).message(),
        "validating rebind failed. Physical src device: G | src button: 3"
    );
    assert_eq!(
        Error::RebindValidatePhysicalHatFailed("G".to_string(), 10).message(),
        "validating rebind failed. Physical src device: G | src hat: 10"
    );
    assert_eq!(
        Error::RebindValidatePhysicalAxisFailed("G".to_string(), 0).message(),
        "validating rebind failed. Physical src device: G | src axis: 0"
    );
    assert_eq!(
        Error::RebindValidateVirtualButtonFailed(1, 128).message(),
        "validating rebind failed. Virtual src device: 1 | src button: 128"
    );
    assert_eq!(
        Error::RebindValidateVirtualHatFailed(16, 4).message(),
        "validating rebind failed. Virtual src device: 16 | src hat: 4"
    );
    assert_eq!(
        Error::RebindValidateVirtualAxisFailed(4294967295, 7).message(),
        "validating rebind failed. Virtual src device: 4294967295 | src axis: 7"
    );
    assert_eq!(Error::Catch("why".to_string()).message(), "untyped error. Reason: why");
    assert_eq!(
        Error::ConfigParse("bad".to_string()).message(),
        "failed to deserialize config file. Reason: bad"
    );
    assert_eq!(Error::from_message("m".to_string()), Error::Catch("m".to_string()));
    assert!(Error::EmptyRebindOrInvalidID.is_per_tick());
    assert!(!Error::Catch(String::new()).is_per_tick());
}
