use vjoy_manager::button_to_button::ButtonToButtonModifier;
use vjoy_manager::config::Config;
use vjoy_manager::device::{ButtonState, DeviceIdentifier, HatPosition, HatState, PhysicalDevice, VirtualDevice};
use vjoy_manager::device_info::{physical_device_info_map, virtual_device_info_map, DeviceInfo, DevicesInfoMap};
use vjoy_manager::input::{physical_from_enumeration, Enumerated, Input, Sample, Tick, INPUT_PLOT_INTERVAL, INPUT_POLL_INTERVAL};
use vjoy_manager::rebind::{Rebind, RebindType};
use vjoy_manager::reroute_rebind::RerouteRebind;
use vjoy_manager::shift_mode_mask::ShiftModeMask;
use vjoy_manager::text::{binary, decimal};

fn identity_curve(shaped: i64, _linearity: u32) -> i32 {
    (shaped / 1_000_000) as i32
}

fn straight(src: u32, dst: u32) -> Rebind {
    Rebind {
        name: "straight".to_string(),
        mode_mask: ShiftModeMask(0),
        rebind_type: RebindType::Reroute {
            rebind: RerouteRebind::ButtonToButton {
                src_device: "G".to_string(),
                src_button: src,
                dst_device: 1,
                dst_button: dst,
                modifier: ButtonToButtonModifier::Simple,
            },
        },
    }
}

fn engine() -> Input {
    let mut input = Input::new(Config {
        name: "engine".to_string(),
        default_shift_mode: ShiftModeMask(0),
        rebinds: vec![straight(1, 1)],
    });
    input.set_devices(
        vec![PhysicalDevice::new("G".to_string(), "pad".to_string(), 2, 1, 1)],
        vec![VirtualDevice { id: 1, buttons: vec![ButtonState::Released; 2], axes: vec![0], hats: vec![], selected: false }],
    );
    input
}

fn pressed() -> Vec<Sample> {
    vec![Sample { buttons: vec![true, false], axes: vec![123], hats: vec![HatPosition::Up] }]
}

#[test]
fn tick_runs_only_after_the_poll_interval() {
    assert_eq!(INPUT_POLL_INTERVAL, 10_000);
    assert_eq!(INPUT_PLOT_INTERVAL, 10_000);
    let mut input = engine();
    assert_eq!(input.update(5_000, &pressed(), &identity_curve), Tick::Skipped);
    assert_eq!(input.update(10_000, &pressed(), &identity_curve), Tick::Skipped);
    assert_eq!(input.virtual_devices()[0].buttons[0], ButtonState::Released);
    assert_eq!(input.physical_devices()[0].input_state.buttons(), &vec![false, false]);
    assert_eq!(input.update(10_001, &pressed(), &identity_curve), Tick::Ran { plot: true });
    assert_eq!(input.virtual_devices()[0].buttons[0], ButtonState::Pressed);
    assert_eq!(input.physical_devices()[0].input_state.buttons(), &vec![true, false]);
    assert_eq!(input.physical_devices()[0].input_state.axes(), &vec![123]);
    assert_eq!(input.physical_devices()[0].input_state.hats(), &vec![0]);
    assert_eq!(input.update(20_001, &pressed(), &identity_curve), Tick::Skipped);
    assert_eq!(input.update(20_002, &pressed(), &identity_curve), Tick::Ran { plot: true });
    assert_eq!(input.update(3, &pressed(), &identity_curve), Tick::Skipped);
}

#[test]
fn plot_bounds_follow_the_latest_tick() {
    let mut input = engine();
    assert_eq!(input.get_plot_bounds_physical(), ((0, -32768), (0, 32767)));
    input.update(12_000_000, &pressed(), &identity_curve);
    assert_eq!(input.get_plot_bounds_physical(), ((2_000_000, -32768), (12_000_000, 32767)));
    assert_eq!(input.get_plot_bounds_virtual(), ((2_000_000, 0), (12_000_000, 32767)));
    input.update(12_500_000, &pressed(), &identity_curve);
    assert_eq!(input.get_plot_bounds_virtual(), ((2_500_000, 0), (12_500_000, 32767)));
    let mut early = engine();
    early.update(4_000_000, &pressed(), &identity_curve);
    assert_eq!(early.get_plot_bounds_virtual(), ((-6_000_000, 0), (4_000_000, 32767)));
}

#[test]
fn devices_without_a_sample_keep_their_snapshot() {
    let mut input = engine();
    assert_eq!(input.update(50_000, &vec![], &identity_curve), Tick::Ran { plot: true });
    assert_eq!(input.physical_devices()[0].input_state.buttons(), &vec![false, false]);
    assert_eq!(input.virtual_devices()[0].buttons[0], ButtonState::Released);
}

#[test]
fn refresh_is_needed_when_the_device_count_changes() {
    let input = engine();
    assert!(!input.needs_refresh(2));
    assert!(input.needs_refresh(1));
    assert!(input.needs_refresh(3));
    assert_eq!(input.physical_devices_count(), 1);
    assert_eq!(input.virtual_devices_count(), 1);
    assert!(!Input::new(Config::default()).needs_refresh(0));
}

#[test]
fn enumeration_sorts_out_the_virtual_devices() {
    let entry = |guid: &str, name: &str| Enumerated {
        guid: guid.to_string(),
        name: name.to_string(),
        num_buttons: 3,
        num_axes: 2,
        num_hats: 1,
    };
    let (devices, virtuals) = physical_from_enumeration(&vec![
        entry("aaaa", "stick"),
        entry("0300f80034120000adbe000000000000", "vJoy"),
        entry("bbbb", "throttle"),
        entry("0300f80034120000adbe000000000000", "vJoy"),
    ]);
    assert_eq!(virtuals, 2);
    assert_eq!(devices.len(), 2);
    assert_eq!(devices[0].guid, "aaaa");
    assert_eq!(devices[0].name(), "stick");
    assert_eq!(devices[1].guid, "bbbb");
    assert_eq!((devices[1].num_buttons(), devices[1].num_axes(), devices[1].num_hats()), (3, 2, 1));
    assert!(!devices[0].selected);
    assert_eq!(physical_from_enumeration(&vec![]), (vec![], 0));
}

#[test]
fn engine_forwards_list_operations() {
    let mut input = engine();
    assert_eq!(input.get_active_shift_mode(), ShiftModeMask(0));
    input.add_rebind(straight(2, 2));
    input.add_rebind(straight(2, 1));
    assert_eq!(input.get_active_rebinds().len(), 3);
    input.move_rebind(2, -2);
    assert_eq!(input.get_active_rebinds()[0], straight(2, 1));
    input.remove_rebinds_from_keep(&vec![false]);
    assert_eq!(input.get_active_rebinds().len(), 2);
    input.duplicate_rebinds_from_copy(vec![straight(1, 2)]);
    assert_eq!(input.get_active_rebinds()[2], straight(1, 2));
    assert_eq!(input.save_rebinds().rebinds.len(), 3);
    input.clear_all_rebinds();
    assert!(input.get_active_rebinds().is_empty());
    input.load_rebinds(Config { name: "n".to_string(), default_shift_mode: ShiftModeMask(9), rebinds: vec![] });
    assert_eq!(input.get_active_shift_mode(), ShiftModeMask(9));
    assert_eq!(input.save_rebinds().name, "n");
}

#[test]
fn selection_of_devices() {
    let mut input = Input::new(Config::default());
    input.set_devices(
        vec![
            PhysicalDevice::new("a".to_string(), "a".to_string(), 0, 0, 0),
            PhysicalDevice::new("b".to_string(), "b".to_string(), 0, 0, 0),
            PhysicalDevice::new("c".to_string(), "c".to_string(), 0, 0, 0),
        ],
        vec![],
    );
    assert_eq!(input.selected_physical_devices(), Vec::<usize>::new());
    input.select_physical_device(2, true);
    input.select_physical_device(0, true);
    input.select_physical_device(7, true);
    assert_eq!(input.selected_physical_devices(), vec![0, 2]);
    input.select_physical_device(0, false);
    assert_eq!(input.selected_physical_devices(), vec![2]);
    input.virtual_devices_mut().push(VirtualDevice {
        id: 4,
        buttons: vec![],
        axes: vec![],
        hats: vec![HatState::Continuous(0)],
        selected: true,
    });
    assert_eq!(input.virtual_devices_count(), 1);
    assert_eq!(input.selected_virtual_devices(), vec![0]);
    input.select_virtual_device(0, false);
    input.select_virtual_device(3, true);
    assert_eq!(input.selected_virtual_devices(), Vec::<usize>::new());
    assert!(!input.virtual_devices()[0].selected);
}

#[test]
fn device_information_is_found_by_identifier() {
    let physicals = vec![
        PhysicalDevice::new("aaaa".to_string(), "stick".to_string(), 12, 4, 1),
        PhysicalDevice::new("bbbb".to_string(), "throttle".to_string(), 30, 6, 2),
    ];
    let virtuals = vec![
        VirtualDevice { id: 1, buttons: vec![ButtonState::Released; 8], axes: vec![0; 3], hats: vec![], selected: false },
        VirtualDevice { id: 2, buttons: vec![], axes: vec![0; 8], hats: vec![HatState::Continuous(0)], selected: false },
    ];
    let map = DevicesInfoMap::new(&physicals, &virtuals);
    assert_eq!(map.physical_count(), 2);
    assert_eq!(map.virtual_count(), 2);
    assert_eq!(map.get_physical_name(&"aaaa".to_string()), "stick");
    assert_eq!(map.get_physical_name(&"bbbb".to_string()), "throttle");
    assert_eq!(map.get_physical_name(&"cccc".to_string()), "Unset");
    assert_eq!(map.get_physical_name(&String::new()), "Unset");
    assert_eq!(map.get_virtual_name(1), "vJoy device 1");
    assert_eq!(map.get_virtual_name(2), "vJoy device 2");
    assert_eq!(map.get_virtual_name(3), "Unset");
    assert_eq!(map.get_physical_limits(&"aaaa".to_string()), (12, 4, 1));
    assert_eq!(map.get_physical_limits(&"bbbb".to_string()), (30, 6, 2));
    assert_eq!(map.get_physical_limits(&"zzzz".to_string()), (0, 0, 0));
    assert_eq!(map.get_virtual_limits(1), (8, 3, 0));
    assert_eq!(map.get_virtual_limits(2), (0, 8, 1));
    assert_eq!(map.get_virtual_limits(0), (0, 0, 0));
}

#[test]
fn device_information_keeps_the_order_of_the_devices() {
    let physicals = vec![
        PhysicalDevice::new("zz".to_string(), "last in the alphabet".to_string(), 1, 0, 0),
        PhysicalDevice::new("aa".to_string(), "first in the alphabet".to_string(), 2, 0, 0),
        PhysicalDevice::new("zz".to_string(), "same guid again".to_string(), 3, 0, 0),
    ];
    let map = physical_device_info_map(&physicals);
    let entries: Vec<(DeviceIdentifier, DeviceInfo)> = map.iter().map(|(k, v)| (k.clone(), v.clone())).collect();
    assert_eq!(
        entries,
        vec![
            (
                DeviceIdentifier::SDL2("zz".to_string()),
                DeviceInfo { name: "same guid again".to_string(), num_buttons: 3, num_axes: 0, num_hats: 0 }
            ),
            (
                DeviceIdentifier::SDL2("aa".to_string()),
                DeviceInfo { name: "first in the alphabet".to_string(), num_buttons: 2, num_axes: 0, num_hats: 0 }
            ),
        ]
    );
    let virtuals = vec![VirtualDevice { id: 16, buttons: vec![], axes: vec![], hats: vec![], selected: false }];
    assert_eq!(virtuals[0].name(), "vJoy device 16");
    let map = virtual_device_info_map(&virtuals);
    assert_eq!(map.len(), 1);
    assert_eq!(map.get(&DeviceIdentifier::VJoy(16)), Some(&DeviceInfo::from_virtual(&virtuals[0])));
    assert_eq!(DeviceInfo::from_physical(&physicals[1]).name, "first in the alphabet");
}

#[test]
fn numbers_as_text() {
    assert_eq!(decimal(0), "0");
    assert_eq!(decimal(7), "7");
    assert_eq!(decimal(10), "10");
    assert_eq!(decimal(32767), "32767");
    assert_eq!(decimal(u32::MAX), "4294967295");
    assert_eq!(binary(0b0110_0001), "01100001");
}

#[test]
fn telemetry_records_the_axes_when_due() {
    let mut input = engine();
    assert_eq!(input.physical_axes_plot_data(0), vec![Vec::<(u64, i32)>::new()]);
    assert_eq!(input.virtual_axes_plot_data(0), vec![Vec::<(u64, i32)>::new()]);
    assert_eq!(input.physical_axes_plot_data(1), Vec::<Vec<(u64, i32)>>::new());
    assert_eq!(input.update(10_001, &pressed(), &identity_curve), Tick::Ran { plot: true });
    assert_eq!(input.physical_axes_plot_data(0), vec![vec![(10_001, 123)]]);
    assert_eq!(input.virtual_axes_plot_data(0), vec![vec![(10_001, 0)]]);
    let moved = vec![Sample { buttons: vec![false, false], axes: vec![-7], hats: vec![HatPosition::Centered] }];
    assert_eq!(input.update(30_000, &moved, &identity_curve), Tick::Ran { plot: true });
    assert_eq!(input.physical_axes_plot_data(0), vec![vec![(10_001, 123), (30_000, -7)]]);
    assert_eq!(input.update(35_000, &moved, &identity_curve), Tick::Skipped);
    assert_eq!(input.physical_axes_plot_data(0), vec![vec![(10_001, 123), (30_000, -7)]]);
}

#[test]
fn telemetry_keeps_the_latest_samples_only() {
    let mut input = engine();
    for tick in 1..=1030u64 {
        let sample = vec![Sample { buttons: vec![false, false], axes: vec![tick as i16], hats: vec![HatPosition::Centered] }];
        assert_eq!(input.update(tick * 20_000, &sample, &identity_curve), Tick::Ran { plot: true });
    }
    let data = input.physical_axes_plot_data(0);
    assert_eq!(data.len(), 1);
    assert_eq!(data[0].len(), 1024);
    assert_eq!(data[0][0], (7 * 20_000, 7));
    assert_eq!(data[0][1023], (1030 * 20_000, 1030));
    assert_eq!(input.virtual_axes_plot_data(0)[0].len(), 1024);
}

#[test]
fn new_devices_start_with_empty_telemetry() {
    let mut input = engine();
    input.update(10_001, &pressed(), &identity_curve);
    input.set_devices(
        vec![PhysicalDevice::new("H".to_string(), "other".to_string(), 0, 3, 0)],
        vec![],
    );
    assert_eq!(input.physical_axes_plot_data(0), vec![Vec::<(u64, i32)>::new(); 3]);
    assert_eq!(input.virtual_axes_plot_data(0), Vec::<Vec<(u64, i32)>>::new());
}

#[test]
fn engine_gives_the_device_information() {
    let mut input = engine();
    let physical = input.get_physical_device_info_map();
    assert_eq!(physical.len(), 1);
    assert_eq!(
        physical.get(&DeviceIdentifier::SDL2("G".to_string())),
        Some(&DeviceInfo { name: "pad".to_string(), num_buttons: 2, num_axes: 1, num_hats: 1 })
    );
    let virtuals = input.get_virtual_device_info_map();
    assert_eq!(
        virtuals.get(&DeviceIdentifier::VJoy(1)),
        Some(&DeviceInfo { name: "vJoy device 1".to_string(), num_buttons: 2, num_axes: 1, num_hats: 0 })
    );
    assert_eq!(virtuals.get(&DeviceIdentifier::VJoy(2)), None);
    input.physical_devices_mut()[0].selected = true;
    assert_eq!(input.selected_physical_devices(), vec![0]);
}
