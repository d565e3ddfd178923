//! Telemetry: for each axis of a device the latest samples, each with its
//! time, in a buffer that drops the oldest sample when it is full.

use vstd::prelude::*;
use ringbuffer::{AllocRingBuffer, RingBuffer};

verus! {

/// Number of samples that the buffer of an axis holds.
pub const PLOT_CAPACITY: usize = 1024;

/// The bounded buffer of the `ringbuffer` crate.
#[verifier::external_type_specification]
#[verifier::external_body]
#[verifier::reject_recursive_types(T)]
pub struct ExAllocRingBuffer<T>(AllocRingBuffer<T>);

/// The samples in a buffer, the oldest first: time in microseconds and value.
pub uninterp spec fn plot_points(buffer: AllocRingBuffer<(u64, i32)>) -> Seq<(u64, i32)>;

/// The number of samples that a buffer was made to hold.
pub uninterp spec fn plot_capacity(buffer: AllocRingBuffer<(u64, i32)>) -> nat;

/// The samples after one more was put in: the oldest dropped where the
/// buffer was full.
pub open spec fn points_with(points: Seq<(u64, i32)>, capacity: nat, point: (u64, i32)) -> Seq<(u64, i32)> {
    if points.len() >= capacity {
        points.drop_first().push(point)
    } else {
        points.push(point)
    }
}

/// `AllocRingBuffer::new`: an empty buffer for `capacity` samples. It
/// panics for a capacity of zero, and the size of the allocation must fit.
#[verifier::external_body]
fn plot_new(capacity: usize) -> (buffer: AllocRingBuffer<(u64, i32)>)
    requires
        0 < capacity <= 0x0100_0000,
    ensures
        plot_points(buffer) == Seq::<(u64, i32)>::empty(),
        plot_capacity(buffer) == capacity,
{
    AllocRingBuffer::new(capacity)
}

/// `RingBuffer::enqueue`: puts a sample in after all others; where the
/// buffer holds as many as it was made for, the oldest leaves.
#[verifier::external_body]
fn plot_push(buffer: &mut AllocRingBuffer<(u64, i32)>, point: (u64, i32))
    ensures
        plot_points(*final(buffer)) == points_with(plot_points(*old(buffer)), plot_capacity(*old(buffer)), point),
        plot_capacity(*final(buffer)) == plot_capacity(*old(buffer)),
{
    let _ = buffer.enqueue(point);
}

/// `RingBuffer::to_vec`: the samples, the oldest first.
#[verifier::external_body]
fn plot_to_vec(buffer: &AllocRingBuffer<(u64, i32)>) -> (points: Vec<(u64, i32)>)
    ensures
        points@ == plot_points(*buffer),
{
    buffer.to_vec()
}

/// What the buffers of the axes of one device hold.
pub open spec fn plots_points(plots: Seq<AllocRingBuffer<(u64, i32)>>) -> Seq<Seq<(u64, i32)>> {
    Seq::new(plots.len(), |axis: int| plot_points(plots[axis]))
}

/// What the buffers of the axes of one device were made to hold.
pub open spec fn plots_capacities(plots: Seq<AllocRingBuffer<(u64, i32)>>) -> Seq<nat> {
    Seq::new(plots.len(), |axis: int| plot_capacity(plots[axis]))
}

/// The samples of the axes of one device after the values of the axes at
/// `time` were recorded: one more for each axis that has a buffer and a value.
pub open spec fn recorded(
    points: Seq<Seq<(u64, i32)>>,
    capacities: Seq<nat>,
    axes: Seq<i32>,
    time: u64,
) -> Seq<Seq<(u64, i32)>> {
    Seq::new(
        points.len(),
        |axis: int|
            if axis < axes.len() {
                points_with(points[axis], capacities[axis], (time, axes[axis]))
            } else {
                points[axis]
            },
    )
}

/// Empty buffers for the axes of one device.
pub fn new_axis_plots(num_axes: usize) -> (plots: Vec<AllocRingBuffer<(u64, i32)>>)
    ensures
        plots_points(plots@) == Seq::new(num_axes as nat, |axis: int| Seq::<(u64, i32)>::empty()),
        plots_capacities(plots@) == Seq::new(num_axes as nat, |axis: int| PLOT_CAPACITY as nat),
{
    let mut plots: Vec<AllocRingBuffer<(u64, i32)>> = Vec::new();
    let mut axis: usize = 0;
    while axis < num_axes
        invariant
            axis <= num_axes,
            plots@.len() == axis,
            forall|a: int| 0 <= a < axis ==> plot_points(#[trigger] plots@[a]) == Seq::<(u64, i32)>::empty(),
            forall|a: int| 0 <= a < axis ==> plot_capacity(#[trigger] plots@[a]) == PLOT_CAPACITY,
        decreases num_axes - axis,
    {
        plots.push(plot_new(PLOT_CAPACITY));
        axis += 1;
    }
    assert(plots_points(plots@) =~= Seq::new(num_axes as nat, |axis: int| Seq::<(u64, i32)>::empty()));
    assert(plots_capacities(plots@) =~= Seq::new(num_axes as nat, |axis: int| PLOT_CAPACITY as nat));
    plots
}

/// Records the values of the axes of one device at `time`.
pub fn record_axes(plots: &mut Vec<AllocRingBuffer<(u64, i32)>>, axes: &Vec<i32>, time: u64)
    ensures
        plots_points(final(plots)@) == recorded(plots_points(old(plots)@), plots_capacities(old(plots)@), axes@, time),
        plots_capacities(final(plots)@) == plots_capacities(old(plots)@),
{
    let ghost before = plots@;
    let count = plots.len();
    let mut axis: usize = 0;
    while axis < count && axis < axes.len()
        invariant
            axis <= count,
            axis <= axes@.len(),
            count == plots@.len(),
            count == before.len(),
            forall|a: int| 0 <= a < count ==> plot_capacity(#[trigger] plots@[a]) == plot_capacity(before[a]),
            forall|a: int|
                0 <= a < axis ==> plot_points(#[trigger] plots@[a]) == points_with(
                    plot_points(before[a]),
                    plot_capacity(before[a]),
                    (time, axes@[a]),
                ),
            forall|a: int| axis <= a < count ==> plot_points(#[trigger] plots@[a]) == plot_points(before[a]),
        decreases count - axis,
    {
        let ghost held = plots@;
        plot_push(&mut plots[axis], (time, axes[axis]));
        assert forall|a: int| 0 <= a < count && a != axis implies #[trigger] plots@[a] == held[a] by {}
        axis += 1;
    }
    let ghost target = recorded(plots_points(before), plots_capacities(before), axes@, time);
    assert forall|a: int| 0 <= a < count implies #[trigger] plots_points(plots@)[a] == target[a] by {
        assert(plots_points(plots@)[a] == plot_points(plots@[a]));
        assert(plots_points(before)[a] == plot_points(before[a]));
        assert(plots_capacities(before)[a] == plot_capacity(before[a]));
    }
    assert(plots_points(plots@) =~= target);
    assert(plots_capacities(plots@) =~= plots_capacities(before));
}

/// The samples of the axes of one device, for each axis the oldest first.
pub fn axes_plot_data(plots: &Vec<AllocRingBuffer<(u64, i32)>>) -> (data: Vec<Vec<(u64, i32)>>)
    ensures
        data@.len() == plots@.len(),
        forall|axis: int| 0 <= axis < data@.len() ==> (#[trigger] data@[axis])@ == plot_points(plots@[axis]),
{
    let mut data: Vec<Vec<(u64, i32)>> = Vec::new();
    let mut axis: usize = 0;
    while axis < plots.len()
        invariant
            axis <= plots.len(),
            data@.len() == axis,
            forall|a: int| 0 <= a < axis ==> (#[trigger] data@[a])@ == plot_points(plots@[a]),
        decreases plots.len() - axis,
    {
        data.push(plot_to_vec(&plots[axis]));
        axis += 1;
    }
    data
}

} // verus!
