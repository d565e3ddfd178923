//! The engine's front: it owns the devices and the processor and decides,
//! at each call, whether a tick is due and whether telemetry is.
//!
//! Enumerating and sampling the physical devices and publishing the virtual
//! ones is the caller's part; what was enumerated and sampled is handed in.

use vstd::prelude::*;
use indexmap::IndexMap;
use ringbuffer::AllocRingBuffer;
use crate::axis_to_axis::{curve_is_function, curve_of};
use crate::config::{Config, ConfigView};
use crate::device::{DeviceIdentifier, HatPosition, PhysicalDevice, PhysicalDeviceView, VirtualDevice, VirtualDeviceView, hats_in_degrees, physical_views, virtual_views, widen_axes};
use crate::device_info::{DeviceInfo, info_entries, physical_device_info_map, physical_entries, virtual_device_info_map, virtual_entries};
use crate::plot::{PLOT_CAPACITY, axes_plot_data, new_axis_plots, plots_capacities, plots_points, record_axes, recorded};
use crate::rebind::{Rebind, rebind_views};
use crate::rebind_processor::{RebindProcessor, kept_rebinds, moved_rebinds, tick_mask, tick_state};
use crate::shift_mode_mask::ShiftModeMask;

verus! {

/// Least time between two ticks, in microseconds.
pub const INPUT_POLL_INTERVAL: u64 = 10_000;

/// Least time between two telemetry samples, in microseconds.
pub const INPUT_PLOT_INTERVAL: u64 = 10_000;

/// Span of time that a plot shows, in microseconds.
pub const PLOT_SPAN: u64 = 10_000_000;

/// One sample of one physical device.
#[derive(Debug, Clone, PartialEq, Eq)]
pub struct Sample {
    pub buttons: Vec<bool>,
    pub axes: Vec<i16>,
    pub hats: Vec<HatPosition>,
}

/// A device as it was enumerated: its identity and its channel counts.
#[derive(Debug, Clone, PartialEq, Eq)]
pub struct Enumerated {
    pub guid: String,
    pub name: String,
    pub num_buttons: usize,
    pub num_axes: usize,
    pub num_hats: usize,
}

/// What a call of [`Input::update`] did.
#[derive(Debug, Clone, Copy, PartialEq, Eq, Structural)]
pub enum Tick {
    /// No tick was due; nothing changed.
    Skipped,
    /// A tick was run; `plot` says whether telemetry is due as well.
    Ran { plot: bool },
}

/// Whether a tick is due at `time`: more than the poll interval has passed
/// since the latest tick.
pub open spec fn tick_due(last_poll_time: u64, time: u64) -> bool {
    time - last_poll_time > INPUT_POLL_INTERVAL
}

/// Whether telemetry is due at `time`: the plot interval has passed since
/// the latest telemetry.
pub open spec fn plot_due(last_plot_time: u64, time: u64) -> bool {
    time - last_plot_time >= INPUT_PLOT_INTERVAL
}

/// The physical devices with the samples taken over: the sample at a place
/// goes to the device at that place, and a device without a sample stays as it is.
pub open spec fn sampled(devices: Seq<PhysicalDeviceView>, samples: Seq<Sample>) -> Seq<PhysicalDeviceView> {
    Seq::new(
        devices.len(),
        |i: int|
            if i < samples.len() {
                PhysicalDeviceView {
                    guid: devices[i].guid,
                    name: devices[i].name,
                    buttons: samples[i].buttons@,
                    axes: widen_axes(samples[i].axes@),
                    hats: hats_in_degrees(samples[i].hats@),
                }
            } else {
                devices[i]
            },
    )
}

/// Whether a GUID is that under which a virtual device shows up among the
/// enumerated ones.
pub open spec fn is_virtual_guid(guid: Seq<char>) -> bool {
    guid == "0300f80034120000adbe000000000000"@
}

/// A physical device as it is when it was just found: at rest.
pub open spec fn found_physical(entry: Enumerated) -> PhysicalDeviceView {
    PhysicalDeviceView {
        guid: entry.guid@,
        name: entry.name@,
        buttons: Seq::new(entry.num_buttons as nat, |i: int| false),
        axes: Seq::new(entry.num_axes as nat, |i: int| 0i32),
        hats: Seq::new(entry.num_hats as nat, |i: int| -1i32),
    }
}

/// Among the first `n` enumerated devices those that are physical, in
/// order and at rest.
pub open spec fn found_physicals(enumerated: Seq<Enumerated>, n: int) -> Seq<PhysicalDeviceView>
    decreases n,
{
    if n <= 0 {
        Seq::empty()
    } else if is_virtual_guid(enumerated[n - 1].guid@) {
        found_physicals(enumerated, n - 1)
    } else {
        found_physicals(enumerated, n - 1).push(found_physical(enumerated[n - 1]))
    }
}

/// Among the first `n` enumerated devices, the number of those that are virtual.
pub open spec fn virtual_count(enumerated: Seq<Enumerated>, n: int) -> int
    decreases n,
{
    if n <= 0 {
        0
    } else if is_virtual_guid(enumerated[n - 1].guid@) {
        virtual_count(enumerated, n - 1) + 1
    } else {
        virtual_count(enumerated, n - 1)
    }
}

/// Sorts out what was enumerated: the physical devices, at rest and in
/// order, and the number of entries that stand for virtual devices.
pub fn physical_from_enumeration(enumerated: &Vec<Enumerated>) -> (found: (Vec<PhysicalDevice>, usize))
    ensures
        found.1 == virtual_count(enumerated@, enumerated@.len() as int),
        physical_views(found.0@) == found_physicals(enumerated@, enumerated@.len() as int),
        forall|i: int| 0 <= i < found.0@.len() ==> !(#[trigger] found.0@[i]).selected,
{
    let virtual_guid: String = "0300f80034120000adbe000000000000".to_owned();
    let mut devices: Vec<PhysicalDevice> = Vec::new();
    let mut virtuals: usize = 0;
    let mut i: usize = 0;
    while i < enumerated.len()
        invariant
            i <= enumerated.len(),
            virtual_guid@ == "0300f80034120000adbe000000000000"@,
            virtuals == virtual_count(enumerated@, i as int),
            virtuals <= i,
            physical_views(devices@) == found_physicals(enumerated@, i as int),
            forall|j: int| 0 <= j < devices@.len() ==> !(#[trigger] devices@[j]).selected,
        decreases enumerated.len() - i,
    {
        let entry = &enumerated[i];
        if entry.guid == virtual_guid {
            virtuals += 1;
        } else {
            let ghost before = physical_views(devices@);
            let device = PhysicalDevice::new(
                entry.guid.clone(),
                entry.name.clone(),
                entry.num_buttons,
                entry.num_axes,
                entry.num_hats,
            );
            assert(device@ =~= found_physical(*entry));
            devices.push(device);
            assert(physical_views(devices@) =~= before.push(found_physical(*entry)));
        }
        i += 1;
    }
    (devices, virtuals)
}

/// What the buffers of the devices hold.
pub open spec fn all_points(plots: Seq<Vec<AllocRingBuffer<(u64, i32)>>>) -> Seq<Seq<Seq<(u64, i32)>>> {
    Seq::new(plots.len(), |device: int| plots_points(plots[device]@))
}

/// What the buffers of the devices were made to hold.
pub open spec fn all_capacities(plots: Seq<Vec<AllocRingBuffer<(u64, i32)>>>) -> Seq<Seq<nat>> {
    Seq::new(plots.len(), |device: int| plots_capacities(plots[device]@))
}

/// The axes of the physical devices.
pub open spec fn physical_axes(devices: Seq<PhysicalDeviceView>) -> Seq<Seq<i32>> {
    Seq::new(devices.len(), |device: int| devices[device].axes)
}

/// The axes of the virtual devices.
pub open spec fn virtual_axes(devices: Seq<VirtualDeviceView>) -> Seq<Seq<i32>> {
    Seq::new(devices.len(), |device: int| devices[device].axes)
}

/// Telemetry after the axes of the devices were recorded at `time`: one more
/// sample for each axis of each device that has buffers.
pub open spec fn all_recorded(
    points: Seq<Seq<Seq<(u64, i32)>>>,
    capacities: Seq<Seq<nat>>,
    axes: Seq<Seq<i32>>,
    time: u64,
) -> Seq<Seq<Seq<(u64, i32)>>> {
    Seq::new(
        points.len(),
        |device: int|
            if device < axes.len() {
                recorded(points[device], capacities[device], axes[device], time)
            } else {
                points[device]
            },
    )
}

/// Empty telemetry for devices with the given axes.
pub open spec fn fresh_points(axes: Seq<Seq<i32>>) -> Seq<Seq<Seq<(u64, i32)>>> {
    Seq::new(axes.len(), |device: int| Seq::new(axes[device].len(), |axis: int| Seq::<(u64, i32)>::empty()))
}

/// The capacities of fresh telemetry for devices with the given axes.
pub open spec fn fresh_capacities(axes: Seq<Seq<i32>>) -> Seq<Seq<nat>> {
    Seq::new(axes.len(), |device: int| Seq::new(axes[device].len(), |axis: int| PLOT_CAPACITY as nat))
}

/// Records the axes of the devices at `time`.
fn record_all(plots: &mut Vec<Vec<AllocRingBuffer<(u64, i32)>>>, axes: &Vec<Vec<i32>>, time: u64)
    ensures
        all_points(final(plots)@) == all_recorded(
            all_points(old(plots)@),
            all_capacities(old(plots)@),
            Seq::new(axes@.len(), |device: int| axes@[device]@),
            time,
        ),
        all_capacities(final(plots)@) == all_capacities(old(plots)@),
{
    let ghost before = plots@;
    let ghost values = Seq::new(axes@.len(), |device: int| axes@[device]@);
    let count = plots.len();
    let mut device: usize = 0;
    while device < count && device < axes.len()
        invariant
            device <= count,
            device <= axes@.len(),
            count == plots@.len(),
            count == before.len(),
            values == Seq::new(axes@.len(), |device: int| axes@[device]@),
            forall|d: int|
                0 <= d < count ==> plots_capacities((#[trigger] plots@[d])@) == plots_capacities(before[d]@),
            forall|d: int|
                0 <= d < device ==> plots_points((#[trigger] plots@[d])@) == recorded(
                    plots_points(before[d]@),
                    plots_capacities(before[d]@),
                    values[d],
                    time,
                ),
            forall|d: int| device <= d < count ==> (#[trigger] plots@[d]) == before[d],
        decreases count - device,
    {
        let ghost held = plots@;
        record_axes(&mut plots[device], &axes[device], time);
        assert forall|d: int| 0 <= d < count && d != device implies #[trigger] plots@[d] == held[d] by {}
        device += 1;
    }
    let ghost target = all_recorded(all_points(before), all_capacities(before), values, time);
    assert forall|d: int| 0 <= d < count implies #[trigger] all_points(plots@)[d] == target[d] by {
        assert(all_points(plots@)[d] == plots_points(plots@[d]@));
        assert(all_points(before)[d] == plots_points(before[d]@));
        assert(all_capacities(before)[d] == plots_capacities(before[d]@));
    }
    assert(all_points(plots@) =~= target);
    assert forall|d: int| 0 <= d < count implies #[trigger] all_capacities(plots@)[d] == all_capacities(before)[d] by {
        assert(all_capacities(plots@)[d] == plots_capacities(plots@[d]@));
        assert(all_capacities(before)[d] == plots_capacities(before[d]@));
    }
    assert(all_capacities(plots@) =~= all_capacities(before));
}

/// Empty buffers for devices with the given axes.
fn fresh_plots(axes: &Vec<Vec<i32>>) -> (plots: Vec<Vec<AllocRingBuffer<(u64, i32)>>>)
    ensures
        all_points(plots@) == fresh_points(Seq::new(axes@.len(), |device: int| axes@[device]@)),
        all_capacities(plots@) == fresh_capacities(Seq::new(axes@.len(), |device: int| axes@[device]@)),
{
    let ghost values = Seq::new(axes@.len(), |device: int| axes@[device]@);
    let mut plots: Vec<Vec<AllocRingBuffer<(u64, i32)>>> = Vec::new();
    let mut device: usize = 0;
    while device < axes.len()
        invariant
            device <= axes@.len(),
            plots@.len() == device,
            values == Seq::new(axes@.len(), |device: int| axes@[device]@),
            forall|d: int| 0 <= d < device ==> plots_points((#[trigger] plots@[d])@) == fresh_points(values)[d],
            forall|d: int|
                0 <= d < device ==> plots_capacities((#[trigger] plots@[d])@) == fresh_capacities(values)[d],
        decreases axes@.len() - device,
    {
        plots.push(new_axis_plots(axes[device].len()));
        device += 1;
    }
    assert(all_points(plots@) =~= fresh_points(values));
    assert(all_capacities(plots@) =~= fresh_capacities(values));
    plots
}

/// The axes of the physical devices.
fn axes_of_physicals(devices: &Vec<PhysicalDevice>) -> (axes: Vec<Vec<i32>>)
    ensures
        Seq::new(axes@.len(), |device: int| axes@[device]@) == physical_axes(physical_views(devices@)),
{
    let mut axes: Vec<Vec<i32>> = Vec::new();
    let mut device: usize = 0;
    while device < devices.len()
        invariant
            device <= devices@.len(),
            axes@.len() == device,
            forall|d: int| 0 <= d < device ==> (#[trigger] axes@[d])@ == devices@[d]@.axes,
        decreases devices@.len() - device,
    {
        axes.push(devices[device].input_state.axes().clone());
        device += 1;
    }
    assert(Seq::new(axes@.len(), |device: int| axes@[device]@) =~= physical_axes(physical_views(devices@)));
    axes
}

/// The axes of the virtual devices.
fn axes_of_virtuals(devices: &Vec<VirtualDevice>) -> (axes: Vec<Vec<i32>>)
    ensures
        Seq::new(axes@.len(), |device: int| axes@[device]@) == virtual_axes(virtual_views(devices@)),
{
    let mut axes: Vec<Vec<i32>> = Vec::new();
    let mut device: usize = 0;
    while device < devices.len()
        invariant
            device <= devices@.len(),
            axes@.len() == device,
            forall|d: int| 0 <= d < device ==> (#[trigger] axes@[d])@ == devices@[d]@.axes,
        decreases devices@.len() - device,
    {
        axes.push(devices[device].axes.clone());
        device += 1;
    }
    assert(Seq::new(axes@.len(), |device: int| axes@[device]@) =~= virtual_axes(virtual_views(devices@)));
    axes
}

/// The engine: devices, processor, telemetry and the two clocks.
pub struct Input {
    connected_physical_devices: Vec<PhysicalDevice>,
    active_virtual_devices: Vec<VirtualDevice>,
    physical_plots: Vec<Vec<AllocRingBuffer<(u64, i32)>>>,
    virtual_plots: Vec<Vec<AllocRingBuffer<(u64, i32)>>>,
    rebind_processor: RebindProcessor,
    x_bound_min: i128,
    x_bound_max: i128,
    last_poll_time: u64,
    last_plot_time: u64,
}

/// What an [`Input`] holds.
pub struct InputView {
    pub physicals: Seq<PhysicalDeviceView>,
    pub virtuals: Seq<VirtualDeviceView>,
    /// Telemetry of the physical devices: for each device and axis the samples, the oldest first.
    pub physical_plots: Seq<Seq<Seq<(u64, i32)>>>,
    /// For each buffer of the physical devices the number of samples it holds at most.
    pub physical_plot_capacities: Seq<Seq<nat>>,
    /// Telemetry of the virtual devices.
    pub virtual_plots: Seq<Seq<Seq<(u64, i32)>>>,
    /// For each buffer of the virtual devices the number of samples it holds at most.
    pub virtual_plot_capacities: Seq<Seq<nat>>,
    pub config: ConfigView,
    pub active_shift_mode: u8,
    pub x_bound_min: int,
    pub x_bound_max: int,
    pub last_poll_time: u64,
    pub last_plot_time: u64,
}

impl View for Input {
    type V = InputView;

    closed spec fn view(&self) -> InputView {
        InputView {
            physicals: physical_views(self.connected_physical_devices@),
            virtuals: virtual_views(self.active_virtual_devices@),
            physical_plots: all_points(self.physical_plots@),
            physical_plot_capacities: all_capacities(self.physical_plots@),
            virtual_plots: all_points(self.virtual_plots@),
            virtual_plot_capacities: all_capacities(self.virtual_plots@),
            config: self.rebind_processor@.config,
            active_shift_mode: self.rebind_processor@.active_shift_mode,
            x_bound_min: self.x_bound_min as int,
            x_bound_max: self.x_bound_max as int,
            last_poll_time: self.last_poll_time,
            last_plot_time: self.last_plot_time,
        }
    }
}

/// The engine after a call of [`Input::update`] at `time` with the given
/// samples: as it was where no tick is due; where one is, the samples taken
/// over, the rebinds evaluated on them, the axes recorded where telemetry is
/// due, and the clocks advanced.
pub open spec fn input_after(input: InputView, time: u64, samples: Seq<Sample>, curve: spec_fn(i64, u32) -> i32) -> InputView {
    if !tick_due(input.last_poll_time, time) {
        input
    } else {
        let physicals = sampled(input.physicals, samples);
        let state = tick_state(
            input.config.rebinds,
            physicals,
            input.virtuals,
            input.active_shift_mode,
            time,
            (time - input.last_poll_time) as u64,
            curve,
        );
        let plot = plot_due(input.last_plot_time, time);
        InputView {
            physicals,
            virtuals: state.virtuals,
            physical_plots: if plot {
                all_recorded(input.physical_plots, input.physical_plot_capacities, physical_axes(physicals), time)
            } else {
                input.physical_plots
            },
            physical_plot_capacities: input.physical_plot_capacities,
            virtual_plots: if plot {
                all_recorded(input.virtual_plots, input.virtual_plot_capacities, virtual_axes(state.virtuals), time)
            } else {
                input.virtual_plots
            },
            virtual_plot_capacities: input.virtual_plot_capacities,
            config: ConfigView {
                name: input.config.name,
                default_shift_mode: input.config.default_shift_mode,
                rebinds: state.rebinds,
            },
            active_shift_mode: tick_mask(input.config.rebinds, physicals, input.active_shift_mode),
            x_bound_min: time - PLOT_SPAN,
            x_bound_max: time as int,
            last_poll_time: time,
            last_plot_time: if plot_due(input.last_plot_time, time) {
                time
            } else {
                input.last_plot_time
            },
        }
    }
}

impl Input {
    /// An engine without devices, for `config`, with both clocks at zero.
    pub fn new(config: Config) -> (input: Input)
        ensures
            input@ == (InputView {
                physicals: Seq::empty(),
                virtuals: Seq::empty(),
                physical_plots: Seq::empty(),
                physical_plot_capacities: Seq::empty(),
                virtual_plots: Seq::empty(),
                virtual_plot_capacities: Seq::empty(),
                config: config@,
                active_shift_mode: config@.default_shift_mode,
                x_bound_min: 0,
                x_bound_max: 0,
                last_poll_time: 0,
                last_plot_time: 0,
            }),
    {
        let input = Input {
            connected_physical_devices: Vec::new(),
            active_virtual_devices: Vec::new(),
            physical_plots: Vec::new(),
            virtual_plots: Vec::new(),
            rebind_processor: RebindProcessor::new(config),
            x_bound_min: 0,
            x_bound_max: 0,
            last_poll_time: 0,
            last_plot_time: 0,
        };
        assert(input@.physicals =~= Seq::empty());
        assert(input@.virtuals =~= Seq::empty());
        assert(input@.physical_plots =~= Seq::empty());
        assert(input@.physical_plot_capacities =~= Seq::empty());
        assert(input@.virtual_plots =~= Seq::empty());
        assert(input@.virtual_plot_capacities =~= Seq::empty());
        input
    }

    /// Whether the devices have to be enumerated anew: the number of
    /// connected devices differs from the number of devices held.
    pub fn needs_refresh(&self, num_connected_devices_total: u32) -> (refresh: bool)
        ensures
            refresh == (num_connected_devices_total != self@.physicals.len() + self@.virtuals.len()),
    {
        let held: u128 = self.connected_physical_devices.len() as u128 + self.active_virtual_devices.len() as u128;
        num_connected_devices_total as u128 != held
    }

    /// Takes over newly enumerated devices, with empty telemetry for each
    /// of their axes; rebinds and clocks stay.
    pub fn set_devices(&mut self, physical_devices: Vec<PhysicalDevice>, virtual_devices: Vec<VirtualDevice>)
        ensures
            final(self)@ == (InputView {
                physicals: physical_views(physical_devices@),
                virtuals: virtual_views(virtual_devices@),
                physical_plots: fresh_points(physical_axes(physical_views(physical_devices@))),
                physical_plot_capacities: fresh_capacities(physical_axes(physical_views(physical_devices@))),
                virtual_plots: fresh_points(virtual_axes(virtual_views(virtual_devices@))),
                virtual_plot_capacities: fresh_capacities(virtual_axes(virtual_views(virtual_devices@))),
                ..old(self)@
            }),
    {
        self.physical_plots = fresh_plots(&axes_of_physicals(&physical_devices));
        self.virtual_plots = fresh_plots(&axes_of_virtuals(&virtual_devices));
        self.connected_physical_devices = physical_devices;
        self.active_virtual_devices = virtual_devices;
    }

    /// Runs a tick if one is due. A tick is due when more than
    /// `INPUT_POLL_INTERVAL` has passed since the latest one. Then the
    /// samples are taken over, the rebinds are evaluated with the time passed
    /// since the latest tick, and the poll clock is set to `time`. Telemetry is
    /// due with the tick when at least `INPUT_PLOT_INTERVAL` has passed since
    /// the latest telemetry; then the plot clock is set to `time` as well.
    pub fn update<C: Fn(i64, u32) -> i32>(&mut self, time: u64, samples: &Vec<Sample>, curve: &C) -> (tick: Tick)
        requires
            curve_is_function(curve),
        ensures
            final(self)@ == input_after(old(self)@, time, samples@, curve_of(curve)),
            tick == if tick_due(old(self)@.last_poll_time, time) {
                Tick::Ran { plot: plot_due(old(self)@.last_plot_time, time) }
            } else {
                Tick::Skipped
            },
    {
        if time <= self.last_poll_time || time - self.last_poll_time <= INPUT_POLL_INTERVAL {
            return Tick::Skipped;
        }
        let delta_t: u64 = time - self.last_poll_time;
        let plot: bool = time >= self.last_plot_time && time - self.last_plot_time >= INPUT_PLOT_INTERVAL;
        self.poll_connected_physical_devices(samples);
        if plot {
            record_all(&mut self.physical_plots, &axes_of_physicals(&self.connected_physical_devices), time);
        }
        let _ = self.rebind_processor.process(
            &self.connected_physical_devices,
            &mut self.active_virtual_devices,
            time,
            delta_t,
            curve,
        );
        if plot {
            record_all(&mut self.virtual_plots, &axes_of_virtuals(&self.active_virtual_devices), time);
        }
        self.x_bound_max = time as i128;
        self.x_bound_min = time as i128 - PLOT_SPAN as i128;
        if plot {
            self.last_plot_time = time;
        }
        self.last_poll_time = time;
        Tick::Ran { plot }
    }

    /// Takes the samples over into the snapshots of the physical devices.
    fn poll_connected_physical_devices(&mut self, samples: &Vec<Sample>)
        ensures
            physical_views(final(self).connected_physical_devices@) == sampled(
                physical_views(old(self).connected_physical_devices@),
                samples@,
            ),
            final(self).active_virtual_devices == old(self).active_virtual_devices,
            final(self).physical_plots == old(self).physical_plots,
            final(self).virtual_plots == old(self).virtual_plots,
            final(self).rebind_processor == old(self).rebind_processor,
            final(self).x_bound_min == old(self).x_bound_min,
            final(self).x_bound_max == old(self).x_bound_max,
            final(self).last_poll_time == old(self).last_poll_time,
            final(self).last_plot_time == old(self).last_plot_time,
    {
        let ghost before = physical_views(self.connected_physical_devices@);
        let count = self.connected_physical_devices.len();
        let mut i: usize = 0;
        while i < count && i < samples.len()
            invariant
                i <= count,
                count == self.connected_physical_devices.len(),
                count == before.len(),
                self.active_virtual_devices == old(self).active_virtual_devices,
                self.physical_plots == old(self).physical_plots,
                self.virtual_plots == old(self).virtual_plots,
                self.rebind_processor == old(self).rebind_processor,
                self.x_bound_min == old(self).x_bound_min,
                self.x_bound_max == old(self).x_bound_max,
                self.last_poll_time == old(self).last_poll_time,
                self.last_plot_time == old(self).last_plot_time,
                forall|j: int|
                    0 <= j < i ==> (#[trigger] physical_views(self.connected_physical_devices@)[j]) == sampled(
                        before,
                        samples@,
                    )[j],
                forall|j: int|
                    i <= j < count ==> (#[trigger] physical_views(self.connected_physical_devices@)[j]) == before[j],
            decreases count - i,
        {
            let ghost held = self.connected_physical_devices@;
            assert(physical_views(held)[i as int] == before[i as int]);
            let sample = &samples[i];
            self.connected_physical_devices[i].update(&sample.buttons, &sample.axes, &sample.hats);
            assert forall|j: int| 0 <= j < count && j != i implies (#[trigger] physical_views(
                self.connected_physical_devices@,
            )[j]) == physical_views(held)[j] by {
                assert(self.connected_physical_devices@[j] == held[j]);
            }
            assert(physical_views(self.connected_physical_devices@)[i as int] == sampled(before, samples@)[i as int]);
            i += 1;
        }
        assert(physical_views(self.connected_physical_devices@) =~= sampled(before, samples@));
    }

    /// Replaces the configuration and sets the register to its default.
    pub fn load_rebinds(&mut self, config: Config)
        ensures
            final(self)@ == (InputView {
                config: config@,
                active_shift_mode: config@.default_shift_mode,
                ..old(self)@
            }),
    {
        self.rebind_processor.load_rebinds(config);
    }

    /// The configuration, as it is to be saved.
    pub fn save_rebinds(&self) -> (config: &Config)
        ensures
            config@ == self@.config,
    {
        self.rebind_processor.save_rebinds()
    }

    /// Number of physical devices.
    pub fn physical_devices_count(&self) -> (count: usize)
        ensures
            count == self@.physicals.len(),
    {
        self.connected_physical_devices.len()
    }

    /// The physical devices.
    pub fn physical_devices(&self) -> (devices: &Vec<PhysicalDevice>)
        ensures
            physical_views(devices@) == self@.physicals,
    {
        &self.connected_physical_devices
    }

    /// The physical devices, for the caller to mark them.
    pub fn physical_devices_mut(&mut self) -> (devices: &mut Vec<PhysicalDevice>)
        ensures
            physical_views(devices@) == old(self)@.physicals,
            final(self)@ == (InputView { physicals: physical_views(final(devices)@), ..old(self)@ }),
    {
        &mut self.connected_physical_devices
    }

    /// Name and channel counts of the physical devices, each under its GUID,
    /// in the order of the devices.
    pub fn get_physical_device_info_map(&self) -> (map: IndexMap<DeviceIdentifier, DeviceInfo>)
        ensures
            info_entries(map) == physical_entries(self@.physicals, self@.physicals.len() as int),
    {
        physical_device_info_map(&self.connected_physical_devices)
    }

    /// Name and channel counts of the virtual devices, each under its slot
    /// number, in the order of the devices.
    pub fn get_virtual_device_info_map(&self) -> (map: IndexMap<DeviceIdentifier, DeviceInfo>)
        ensures
            info_entries(map) == virtual_entries(self@.virtuals, self@.virtuals.len() as int),
    {
        virtual_device_info_map(&self.active_virtual_devices)
    }

    /// Marks a physical device as selected or not; does nothing where there is no such device.
    pub fn select_physical_device(&mut self, index: usize, selected: bool)
        ensures
            final(self)@ == old(self)@,
            final(self).physical_selection() == if index < old(self).physical_selection().len() {
                old(self).physical_selection().update(index as int, selected)
            } else {
                old(self).physical_selection()
            },
    {
        if index < self.connected_physical_devices.len() {
            self.connected_physical_devices[index].selected = selected;
            assert(physical_views(self.connected_physical_devices@) =~= old(self)@.physicals);
            assert(self.physical_selection() =~= old(self).physical_selection().update(index as int, selected));
        }
    }

    /// The places of the physical devices that are selected, in ascending order.
    pub fn selected_physical_devices(&self) -> (places: Vec<usize>)
        ensures
            forall|i: int| 0 <= i < places@.len() ==> (#[trigger] places@[i]) < self.physical_selection().len(),
            forall|i: int| 0 <= i < places@.len() ==> self.physical_selection()[(#[trigger] places@[i]) as int],
            forall|i: int, j: int| 0 <= i < j < places@.len() ==> places@[i] < places@[j],
            forall|p: int|
                0 <= p < self.physical_selection().len() && self.physical_selection()[p] ==> places@.contains(
                    p as usize,
                ),
    {
        let mut places: Vec<usize> = Vec::new();
        let mut i: usize = 0;
        while i < self.connected_physical_devices.len()
            invariant
                i <= self.connected_physical_devices.len(),
                forall|k: int| 0 <= k < places@.len() ==> (#[trigger] places@[k]) < i,
                forall|k: int| 0 <= k < places@.len() ==> self.physical_selection()[(#[trigger] places@[k]) as int],
                forall|k: int, l: int| 0 <= k < l < places@.len() ==> places@[k] < places@[l],
                forall|p: int| 0 <= p < i && self.physical_selection()[p] ==> places@.contains(p as usize),
            decreases self.connected_physical_devices.len() - i,
        {
            if self.connected_physical_devices[i].selected {
                let ghost before = places@;
                places.push(i);
                assert forall|p: int| 0 <= p < i + 1 && self.physical_selection()[p] implies places@.contains(
                    p as usize,
                ) by {
                    if p < i {
                        let k = choose|k: int| 0 <= k < before.len() && before[k] == p as usize;
                        assert(places@[k] == p as usize);
                    } else {
                        assert(places@[places@.len() - 1] == p as usize);
                    }
                }
            }
            i += 1;
        }
        places
    }

    /// Which physical devices are selected, by place.
    pub closed spec fn physical_selection(&self) -> Seq<bool> {
        Seq::new(self.connected_physical_devices@.len(), |i: int| self.connected_physical_devices@[i].selected)
    }

    /// Marks a virtual device as selected or not; does nothing where there is no such device.
    pub fn select_virtual_device(&mut self, index: usize, selected: bool)
        ensures
            final(self)@ == (InputView {
                virtuals: if index < old(self)@.virtuals.len() {
                    old(self)@.virtuals.update(
                        index as int,
                        VirtualDeviceView { selected, ..old(self)@.virtuals[index as int] },
                    )
                } else {
                    old(self)@.virtuals
                },
                ..old(self)@
            }),
    {
        if index < self.active_virtual_devices.len() {
            self.active_virtual_devices[index].selected = selected;
            assert(virtual_views(self.active_virtual_devices@) =~= old(self)@.virtuals.update(
                index as int,
                VirtualDeviceView { selected, ..old(self)@.virtuals[index as int] },
            ));
        }
    }

    /// The places of the virtual devices that are selected, in ascending order.
    pub fn selected_virtual_devices(&self) -> (places: Vec<usize>)
        ensures
            forall|i: int| 0 <= i < places@.len() ==> (#[trigger] places@[i]) < self@.virtuals.len(),
            forall|i: int| 0 <= i < places@.len() ==> self@.virtuals[(#[trigger] places@[i]) as int].selected,
            forall|i: int, j: int| 0 <= i < j < places@.len() ==> places@[i] < places@[j],
            forall|p: int| 0 <= p < self@.virtuals.len() && self@.virtuals[p].selected ==> places@.contains(p as usize),
    {
        let mut places: Vec<usize> = Vec::new();
        let mut i: usize = 0;
        while i < self.active_virtual_devices.len()
            invariant
                i <= self.active_virtual_devices.len(),
                forall|k: int| 0 <= k < places@.len() ==> (#[trigger] places@[k]) < i,
                forall|k: int| 0 <= k < places@.len() ==> self@.virtuals[(#[trigger] places@[k]) as int].selected,
                forall|k: int, l: int| 0 <= k < l < places@.len() ==> places@[k] < places@[l],
                forall|p: int| 0 <= p < i && self@.virtuals[p].selected ==> places@.contains(p as usize),
            decreases self.active_virtual_devices.len() - i,
        {
            assert(self@.virtuals[i as int] == self.active_virtual_devices@[i as int]@);
            if self.active_virtual_devices[i].selected {
                let ghost before = places@;
                places.push(i);
                assert forall|p: int| 0 <= p < i + 1 && self@.virtuals[p].selected implies places@.contains(
                    p as usize,
                ) by {
                    if p < i {
                        let k = choose|k: int| 0 <= k < before.len() && before[k] == p as usize;
                        assert(places@[k] == p as usize);
                    } else {
                        assert(places@[places@.len() - 1] == p as usize);
                    }
                }
            }
            i += 1;
        }
        places
    }

    /// Number of virtual devices.
    pub fn virtual_devices_count(&self) -> (count: usize)
        ensures
            count == self@.virtuals.len(),
    {
        self.active_virtual_devices.len()
    }

    /// The virtual devices, as they are to be published.
    pub fn virtual_devices(&self) -> (devices: &Vec<VirtualDevice>)
        ensures
            virtual_views(devices@) == self@.virtuals,
    {
        &self.active_virtual_devices
    }

    /// The virtual devices, for the caller to take over what the back end reports.
    pub fn virtual_devices_mut(&mut self) -> (devices: &mut Vec<VirtualDevice>)
        ensures
            virtual_views(devices@) == old(self)@.virtuals,
            final(self)@ == (InputView { virtuals: virtual_views(final(devices)@), ..old(self)@ }),
    {
        &mut self.active_virtual_devices
    }

    /// Telemetry of a physical device: for each axis the samples, the oldest
    /// first; nothing where there is no such device.
    pub fn physical_axes_plot_data(&self, device: usize) -> (data: Vec<Vec<(u64, i32)>>)
        ensures
            if device < self@.physical_plots.len() {
                &&& data@.len() == self@.physical_plots[device as int].len()
                &&& forall|axis: int|
                    0 <= axis < data@.len() ==> (#[trigger] data@[axis])@ == self@.physical_plots[device as int][axis]
            } else {
                data@.len() == 0
            },
    {
        if device < self.physical_plots.len() {
            axes_plot_data(&self.physical_plots[device])
        } else {
            Vec::new()
        }
    }

    /// Telemetry of a virtual device: for each axis the samples, the oldest
    /// first; nothing where there is no such device.
    pub fn virtual_axes_plot_data(&self, device: usize) -> (data: Vec<Vec<(u64, i32)>>)
        ensures
            if device < self@.virtual_plots.len() {
                &&& data@.len() == self@.virtual_plots[device as int].len()
                &&& forall|axis: int|
                    0 <= axis < data@.len() ==> (#[trigger] data@[axis])@ == self@.virtual_plots[device as int][axis]
            } else {
                data@.len() == 0
            },
    {
        if device < self.virtual_plots.len() {
            axes_plot_data(&self.virtual_plots[device])
        } else {
            Vec::new()
        }
    }

    /// Corners of the plot of physical axes: time in microseconds, value in counts.
    pub fn get_plot_bounds_physical(&self) -> (bounds: ((i128, i32), (i128, i32)))
        ensures
            bounds == ((self@.x_bound_min as i128, -32768i32), (self@.x_bound_max as i128, 32767i32)),
    {
        ((self.x_bound_min, -32768), (self.x_bound_max, 32767))
    }

    /// Corners of the plot of virtual axes: time in microseconds, value in counts.
    pub fn get_plot_bounds_virtual(&self) -> (bounds: ((i128, i32), (i128, i32)))
        ensures
            bounds == ((self@.x_bound_min as i128, 0i32), (self@.x_bound_max as i128, 32767i32)),
    {
        ((self.x_bound_min, 0), (self.x_bound_max, 32767))
    }

    /// The live register.
    pub fn get_active_shift_mode(&self) -> (mask: ShiftModeMask)
        ensures
            mask.0 == self@.active_shift_mode,
    {
        self.rebind_processor.get_active_shift_mode()
    }

    /// The rebinds, in list order.
    pub fn get_active_rebinds(&self) -> (rebinds: &Vec<Rebind>)
        ensures
            rebind_views(rebinds@) == self@.config.rebinds,
    {
        self.rebind_processor.get_active_rebinds()
    }

    /// Appends a rebind to the list.
    pub fn add_rebind(&mut self, rebind: Rebind)
        ensures
            final(self)@ == (InputView {
                config: ConfigView { rebinds: old(self)@.config.rebinds.push(rebind@), ..old(self)@.config },
                ..old(self)@
            }),
    {
        self.rebind_processor.add_rebind(rebind);
    }

    /// Removes the rebinds whose flag in `keep` is `false`; a rebind without a flag stays.
    pub fn remove_rebinds_from_keep(&mut self, keep: &Vec<bool>)
        ensures
            final(self)@ == (InputView {
                config: ConfigView {
                    rebinds: kept_rebinds(old(self)@.config.rebinds, keep@, old(self)@.config.rebinds.len() as int),
                    ..old(self)@.config
                },
                ..old(self)@
            }),
    {
        self.rebind_processor.remove_rebinds_from_keep(keep);
    }

    /// Appends the rebinds of `copy` to the list, in their order.
    pub fn duplicate_rebinds_from_copy(&mut self, copy: Vec<Rebind>)
        ensures
            final(self)@ == (InputView {
                config: ConfigView { rebinds: old(self)@.config.rebinds + rebind_views(copy@), ..old(self)@.config },
                ..old(self)@
            }),
    {
        self.rebind_processor.duplicate_rebinds_from_copy(copy);
    }

    /// Exchanges the rebind at `index` with the one `mov` places further on.
    pub fn move_rebind(&mut self, index: usize, mov: isize)
        ensures
            final(self)@ == (InputView {
                config: ConfigView { rebinds: moved_rebinds(old(self)@.config.rebinds, index, mov), ..old(self)@.config },
                ..old(self)@
            }),
    {
        self.rebind_processor.move_rebind(index, mov);
    }

    /// Removes every rebind.
    pub fn clear_all_rebinds(&mut self)
        ensures
            final(self)@ == (InputView {
                config: ConfigView { rebinds: Seq::empty(), ..old(self)@.config },
                ..old(self)@
            }),
    {
        self.rebind_processor.clear_all_rebinds();
    }
}

} // verus!
