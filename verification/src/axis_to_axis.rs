//! One input axis drives one output axis: averaged, inverted, cut by a
//! deadzone, clamped, offset and bent by a response curve.
//!
//! Values inside the pipeline are millionths of an axis count. The response
//! curve for a linearity other than one is a power with a real exponent; it is
//! not computed here but asked of the caller, as a function of the shaped
//! value and the linearity.

use vstd::prelude::*;
use crate::fixed::clamp_int;

verus! {

/// Shaping parameters and the averaging window of one axis. Fractions are
/// millionths.
#[derive(Debug, Clone, PartialEq, Eq)]
pub struct AxisParams {
    deadzone_center: u32,
    clamp_min: u32,
    clamp_max: u32,
    invert: bool,
    linearity: u32,
    offset: i32,
    avg_filter: usize,
    avg_head: usize,
    avg_data: Vec<i32>,
}

/// What an [`AxisParams`] holds.
pub struct AxisParamsView {
    /// Inputs within this fraction of the range around zero count as zero.
    pub deadzone_center: u32,
    /// Fraction of the lower half of the range that snaps to the lowest value.
    pub clamp_min: u32,
    /// Fraction of the upper half of the range above which values snap to the highest.
    pub clamp_max: u32,
    /// Whether the input is negated.
    pub invert: bool,
    /// Exponent of the response curve, between a tenth and ten.
    pub linearity: u32,
    /// Fraction of the range added after clamping.
    pub offset: i32,
    /// Number of samples averaged.
    pub avg_filter: usize,
    /// Where the next sample goes in the window. Not persisted.
    pub avg_head: usize,
    /// The window of latest samples. Not persisted.
    pub avg_data: Seq<i32>,
}

impl View for AxisParams {
    type V = AxisParamsView;

    closed spec fn view(&self) -> AxisParamsView {
        AxisParamsView {
            deadzone_center: self.deadzone_center,
            clamp_min: self.clamp_min,
            clamp_max: self.clamp_max,
            invert: self.invert,
            linearity: self.linearity,
            offset: self.offset,
            avg_filter: self.avg_filter,
            avg_head: self.avg_head,
            avg_data: self.avg_data@,
        }
    }
}

/// Lowest linearity: a tenth.
pub const LINEARITY_MIN: u32 = 100_000;

/// Highest linearity: ten.
pub const LINEARITY_MAX: u32 = 10_000_000;

/// A linearity as it is taken in: kept within `[LINEARITY_MIN, LINEARITY_MAX]`.
pub open spec fn linearity_ingested(linearity: u32) -> u32 {
    if linearity < LINEARITY_MIN {
        LINEARITY_MIN
    } else if linearity > LINEARITY_MAX {
        LINEARITY_MAX
    } else {
        linearity
    }
}

/// Validity of axis parameters: the linearity is in range and the window's
/// write position is inside the window, or at its start.
pub open spec fn axis_params_wf(params: AxisParamsView) -> bool {
    &&& LINEARITY_MIN <= params.linearity <= LINEARITY_MAX
    &&& (params.avg_head < params.avg_data.len() || params.avg_head == 0)
}

/// The parameters with an empty window, as they are after a reload.
pub open spec fn axis_params_persistent(params: AxisParamsView) -> AxisParamsView {
    AxisParamsView { avg_head: 0, avg_data: Seq::empty(), ..params }
}

/// Sum of the samples.
pub open spec fn seq_sum(samples: Seq<i32>) -> int
    decreases samples.len(),
{
    if samples.len() == 0 {
        0
    } else {
        seq_sum(samples.drop_last()) + samples.last()
    }
}

/// The window that the new sample is put into: a fresh one of zeros where
/// the number of samples to average has changed.
pub open spec fn window_before(params: AxisParamsView) -> (int, Seq<i32>) {
    if params.avg_filter != params.avg_data.len() {
        (0, Seq::new(params.avg_filter as nat, |i: int| 0i32))
    } else {
        (params.avg_head as int, params.avg_data)
    }
}

/// The window with the new sample in it.
pub open spec fn window_data_after(params: AxisParamsView, input: i32) -> Seq<i32> {
    let (head, data) = window_before(params);
    if head >= data.len() {
        data.push(input)
    } else {
        data.update(head, input)
    }
}

/// Where the sample after this one goes.
pub open spec fn window_head_after(params: AxisParamsView) -> int {
    let (head, data) = window_before(params);
    if head + 1 >= params.avg_filter {
        0
    } else {
        head + 1
    }
}

/// The parameters after a call with `input`.
pub open spec fn axis_params_after(params: AxisParamsView, input: i32) -> AxisParamsView {
    AxisParamsView {
        avg_head: window_head_after(params) as usize,
        avg_data: window_data_after(params, input),
        ..params
    }
}

/// Mean of the samples in millionths of a count, rounded down.
pub open spec fn mean_micro(samples: Seq<i32>) -> int {
    seq_sum(samples) * 1_000_000 / (samples.len() as int)
}

/// A mean, in millionths of a count, after inversion, deadzone, clamping
/// and offset.
pub open spec fn axis_shaped(params: AxisParamsView, mean: int) -> int {
    let inverted = if params.invert {
        -mean
    } else {
        mean
    };
    let dead = if -32768 * params.deadzone_center <= inverted <= 32768 * params.deadzone_center {
        0int
    } else {
        inverted
    };
    let clamped = if dead <= -32768 * 1_000_000 + 32768 * params.clamp_min {
        -32768 * 1_000_000int
    } else if dead >= 32767 * params.clamp_max {
        32767 * 1_000_000int
    } else {
        dead
    };
    clamped + 32767 * params.offset
}

/// The shaped value that a call with `input` arrives at, in millionths.
pub open spec fn axis_shaped_input(params: AxisParamsView, input: i32) -> int {
    axis_shaped(params, mean_micro(window_data_after(params, input)))
}

/// The result of a call with `input`: for a linearity of one the shaped
/// value in whole counts, rounded down, as far as 32 bits hold it; otherwise
/// what the response curve gives for the shaped value and the linearity.
pub open spec fn axis_output(params: AxisParamsView, input: i32, curve: spec_fn(i64, u32) -> i32) -> int {
    let shaped = axis_shaped_input(params, input);
    if params.linearity == 1_000_000 {
        clamp_int(shaped / 1_000_000, i32::MIN as int, i32::MAX as int)
    } else {
        curve(shaped as i64, params.linearity) as int
    }
}

/// A value of the range `[-32768, 32767]` mapped to the range of a virtual
/// axis, `[0, 32767]`; values outside go to the nearer end.
pub open spec fn vjoy_range(input: int) -> int {
    clamp_int((input + 32768) * 32767 / 65535, 0, 32767)
}

/// Whether a response curve can be asked about every value and linearity.
pub open spec fn curve_total<C: Fn(i64, u32) -> i32>(curve: &C) -> bool {
    forall|shaped: i64, linearity: u32| call_requires(*curve, (shaped, linearity))
}

/// The response curve as a function: what it answers for each value and linearity.
pub open spec fn curve_of<C: Fn(i64, u32) -> i32>(curve: &C) -> spec_fn(i64, u32) -> i32 {
    |shaped: i64, linearity: u32| choose|value: i32| call_ensures(*curve, (shaped, linearity), value)
}

/// Whether a response curve is a function of its arguments, defined everywhere.
pub open spec fn curve_is_function<C: Fn(i64, u32) -> i32>(curve: &C) -> bool {
    &&& curve_total(curve)
    &&& forall|shaped: i64, linearity: u32, value: i32| #[trigger]
        call_ensures(*curve, (shaped, linearity), value) ==> value == curve_of(curve)(shaped, linearity)
}

impl Default for AxisParams {
    fn default() -> (params: Self)
        ensures
            params@ == (AxisParamsView {
                deadzone_center: 0,
                clamp_min: 0,
                clamp_max: 1_000_000,
                invert: false,
                linearity: 1_000_000,
                offset: 0,
                avg_filter: 1,
                avg_head: 0,
                avg_data: Seq::empty(),
            }),
            axis_params_wf(params@),
    {
        AxisParams {
            deadzone_center: 0,
            clamp_min: 0,
            clamp_max: 1_000_000,
            invert: false,
            linearity: 1_000_000,
            offset: 0,
            avg_filter: 1,
            avg_head: 0,
            avg_data: Vec::new(),
        }
    }
}

impl AxisParams {
    /// Parameters with an empty window. The linearity is kept within
    /// `[LINEARITY_MIN, LINEARITY_MAX]`.
    pub fn new(deadzone_center: u32, clamp_min: u32, clamp_max: u32, invert: bool, linearity: u32, offset: i32, avg_filter: usize) -> (params: Self)
        ensures
            params@ == (AxisParamsView {
                deadzone_center,
                clamp_min,
                clamp_max,
                invert,
                linearity: linearity_ingested(linearity),
                offset,
                avg_filter,
                avg_head: 0,
                avg_data: Seq::empty(),
            }),
            axis_params_wf(params@),
    {
        let kept: u32 = if linearity < LINEARITY_MIN {
            LINEARITY_MIN
        } else if linearity > LINEARITY_MAX {
            LINEARITY_MAX
        } else {
            linearity
        };
        AxisParams {
            deadzone_center,
            clamp_min,
            clamp_max,
            invert,
            linearity: kept,
            offset,
            avg_filter,
            avg_head: 0,
            avg_data: Vec::new(),
        }
    }

    /// The deadzone around zero, in millionths.
    pub fn deadzone_center(&self) -> (value: u32)
        ensures
            value == self@.deadzone_center,
    {
        self.deadzone_center
    }

    /// The lower clamp, in millionths.
    pub fn clamp_min(&self) -> (value: u32)
        ensures
            value == self@.clamp_min,
    {
        self.clamp_min
    }

    /// The upper clamp, in millionths.
    pub fn clamp_max(&self) -> (value: u32)
        ensures
            value == self@.clamp_max,
    {
        self.clamp_max
    }

    /// Whether the input is negated.
    pub fn invert(&self) -> (value: bool)
        ensures
            value == self@.invert,
    {
        self.invert
    }

    /// The linearity, in millionths.
    pub fn linearity(&self) -> (value: u32)
        ensures
            value == self@.linearity,
    {
        self.linearity
    }

    /// The offset, in millionths.
    pub fn offset(&self) -> (value: i32)
        ensures
            value == self@.offset,
    {
        self.offset
    }

    /// The number of samples averaged.
    pub fn avg_filter(&self) -> (value: usize)
        ensures
            value == self@.avg_filter,
    {
        self.avg_filter
    }

    /// The parameters with an empty window, as they are after a reload.
    pub fn persistent(&self) -> (params: Self)
        ensures
            params@ == axis_params_persistent(self@),
    {
        AxisParams {
            deadzone_center: self.deadzone_center,
            clamp_min: self.clamp_min,
            clamp_max: self.clamp_max,
            invert: self.invert,
            linearity: self.linearity,
            offset: self.offset,
            avg_filter: self.avg_filter,
            avg_head: 0,
            avg_data: Vec::new(),
        }
    }

    /// Puts `input` into the averaging window and gives the mean of the
    /// window in millionths of a count, rounded down.
    fn push_sample(&mut self, input: i32) -> (mean: i64)
        ensures
            final(self)@ == axis_params_after(old(self)@, input),
            mean == mean_micro(window_data_after(old(self)@, input)),
            -2_147_483_648 * 1_000_000 <= mean <= 2_147_483_647 * 1_000_000,
    {
        if self.avg_filter != self.avg_data.len() {
            self.avg_head = 0;
            self.avg_data.clear();
            self.avg_data.resize(self.avg_filter, 0);
            assert(self.avg_data@ =~= Seq::new(self.avg_filter as nat, |i: int| 0i32));
        }
        if self.avg_head >= self.avg_data.len() {
            self.avg_data.push(input);
        } else {
            self.avg_data.set(self.avg_head, input);
        }
        self.avg_head = if self.avg_head == usize::MAX {
            0
        } else if self.avg_head + 1 >= self.avg_filter {
            0
        } else {
            self.avg_head + 1
        };
        let count: usize = self.avg_data.len();
        let mut sum: i128 = 0;
        let mut i: usize = 0;
        while i < count
            invariant
                i <= count,
                count == self.avg_data.len(),
                sum == seq_sum(self.avg_data@.take(i as int)),
                -2_147_483_648 * i <= sum <= 2_147_483_647 * i,
            decreases count - i,
        {
            assert(self.avg_data@.take(i + 1).drop_last() =~= self.avg_data@.take(i as int));
            sum = sum + self.avg_data[i] as i128;
            i += 1;
        }
        assert(self.avg_data@.take(count as int) =~= self.avg_data@);
        let scaled: i128 = sum * 1_000_000;
        let mean: i128 = floor_div(scaled, count as i128);
        proof {
            lemma_mean_bounds(sum as int, count as int);
        }
        mean as i64
    }
}

/// The bounds of a mean of `count` 32-bit samples, in millionths.
proof fn lemma_mean_bounds(sum: int, count: int)
    requires
        count > 0,
        -2_147_483_648 * count <= sum <= 2_147_483_647 * count,
    ensures
        -2_147_483_648 * 1_000_000 <= sum * 1_000_000 / count <= 2_147_483_647 * 1_000_000,
{
    let scaled = sum * 1_000_000;
    let q = scaled / count;
    vstd::arithmetic::div_mod::lemma_fundamental_div_mod(scaled, count);
    vstd::arithmetic::div_mod::lemma_mod_bound(scaled, count);
    assert(scaled == count * q + scaled % count);
    assert(scaled <= 2_147_483_647 * 1_000_000 * count && scaled >= -2_147_483_648 * 1_000_000 * count)
        by (nonlinear_arith)
        requires
            scaled == sum * 1_000_000,
            -2_147_483_648 * count <= sum <= 2_147_483_647 * count,
    ;
    assert(q <= 2_147_483_647 * 1_000_000) by (nonlinear_arith)
        requires
            count > 0,
            count * q <= scaled,
            scaled <= 2_147_483_647 * 1_000_000 * count,
    ;
    assert(q >= -2_147_483_648 * 1_000_000) by (nonlinear_arith)
        requires
            count > 0,
            count * q > scaled - count,
            scaled >= -2_147_483_648 * 1_000_000 * count,
    ;
}

/// Division rounded down.
pub fn floor_div(numerator: i128, denominator: i128) -> (quotient: i128)
    requires
        denominator > 0,
        -0x1000_0000_0000_0000_0000_0000_0000_0000 <= numerator <= 0x1000_0000_0000_0000_0000_0000_0000_0000,
        denominator <= 0x1000_0000_0000_0000_0000_0000_0000_0000,
    ensures
        quotient == numerator / denominator,
{
    if numerator >= 0 {
        numerator / denominator
    } else {
        let magnitude: i128 = -numerator;
        let up: i128 = (magnitude + denominator - 1) / denominator;
        proof {
            let rest = denominator * up - magnitude;
            vstd::arithmetic::div_mod::lemma_fundamental_div_mod(magnitude + denominator - 1, denominator as int);
            vstd::arithmetic::div_mod::lemma_mod_bound(magnitude + denominator - 1, denominator as int);
            assert(0 <= rest < denominator);
            assert(numerator == (-up) * denominator + rest) by (nonlinear_arith)
                requires
                    rest == denominator * up - magnitude,
                    magnitude == -numerator,
            ;
            vstd::arithmetic::div_mod::lemma_fundamental_div_mod_converse(numerator as int, denominator as int, -up, rest);
        }
        -up
    }
}

/// How one input axis drives one output axis.
#[derive(Debug, Clone, PartialEq, Eq)]
pub enum AxisToAxisModifier {
    /// By the parameters given.
    Parameterized { params: AxisParams },
}

/// What an [`AxisToAxisModifier`] holds.
pub enum AxisToAxisModifierView {
    Parameterized { params: AxisParamsView },
}

impl View for AxisToAxisModifier {
    type V = AxisToAxisModifierView;

    open spec fn view(&self) -> AxisToAxisModifierView {
        match self {
            AxisToAxisModifier::Parameterized { params } => AxisToAxisModifierView::Parameterized { params: params@ },
        }
    }
}

/// The parameters of a modifier.
pub open spec fn axis_modifier_params(modifier: AxisToAxisModifierView) -> AxisParamsView {
    match modifier {
        AxisToAxisModifierView::Parameterized { params } => params,
    }
}

/// The modifier after a call with `input`.
pub open spec fn axis_modifier_after(modifier: AxisToAxisModifierView, input: i32) -> AxisToAxisModifierView {
    AxisToAxisModifierView::Parameterized { params: axis_params_after(axis_modifier_params(modifier), input) }
}

/// The result of a call with `input`.
pub open spec fn axis_modifier_output(modifier: AxisToAxisModifierView, input: i32, curve: spec_fn(i64, u32) -> i32) -> int {
    axis_output(axis_modifier_params(modifier), input, curve)
}

impl Default for AxisToAxisModifier {
    fn default() -> (modifier: Self)
        ensures
            modifier@ == (AxisToAxisModifierView::Parameterized {
                params: AxisParamsView {
                    deadzone_center: 0,
                    clamp_min: 0,
                    clamp_max: 1_000_000,
                    invert: false,
                    linearity: 1_000_000,
                    offset: 0,
                    avg_filter: 1,
                    avg_head: 0,
                    avg_data: Seq::empty(),
                },
            }),
    {
        AxisToAxisModifier::Parameterized { params: AxisParams::default() }
    }
}

impl AxisToAxisModifier {
    /// The modifier with an empty window, as it is after a reload.
    pub fn persistent(&self) -> (modifier: Self)
        ensures
            modifier@ == (AxisToAxisModifierView::Parameterized {
                params: axis_params_persistent(axis_modifier_params(self@)),
            }),
    {
        match self {
            AxisToAxisModifier::Parameterized { params } => AxisToAxisModifier::Parameterized { params: params.persistent() },
        }
    }
}

/// A mean after inversion, deadzone, clamping and offset.
fn shape(params: &AxisParams, mean: i64) -> (shaped: i64)
    requires
        -2_147_483_648 * 1_000_000 <= mean <= 2_147_483_647 * 1_000_000,
    ensures
        shaped == axis_shaped(params@, mean as int),
        -2_147_483_648 * 1_000_000 - 32767 * 0x8000_0000 <= shaped <= 2_147_483_648 * 1_000_000 + 32767 * 0x8000_0000,
{
    let inverted: i64 = if params.invert {
        -mean
    } else {
        mean
    };
    let deadzone: i64 = params.deadzone_center as i64;
    let dead: i64 = if 0 - 32768 * deadzone <= inverted && inverted <= 32768 * deadzone {
        0
    } else {
        inverted
    };
    let clamped: i64 = if dead <= 32768 * (params.clamp_min as i64) - 32_768_000_000 {
        -32_768_000_000
    } else if dead >= 32767 * (params.clamp_max as i64) {
        32767 * 1_000_000
    } else {
        dead
    };
    clamped + 32767 * (params.offset as i64)
}

/// Feeds one sample through the modifier and gives the value for the output
/// axis, in the range of the input: averaged over the window, inverted, cut by
/// the deadzone, clamped, offset and bent by the response curve. The curve is
/// asked only where the linearity is not one.
pub fn apply_axis_modifier<C: Fn(i64, u32) -> i32>(input: i32, modifier: &mut AxisToAxisModifier, curve: &C) -> (value: i32)
    requires
        curve_is_function(curve),
    ensures
        value == axis_modifier_output(old(modifier)@, input, curve_of(curve)),
        final(modifier)@ == axis_modifier_after(old(modifier)@, input),
        axis_params_wf(axis_modifier_params(old(modifier)@)) ==> axis_params_wf(axis_modifier_params(final(modifier)@)),
{
    match modifier {
        AxisToAxisModifier::Parameterized { params } => {
            let mean: i64 = params.push_sample(input);
            let shaped: i64 = shape(params, mean);
            if params.linearity == 1_000_000 {
                let whole: i128 = floor_div(shaped as i128, 1_000_000);
                if whole < i32::MIN as i128 {
                    i32::MIN
                } else if whole > i32::MAX as i128 {
                    i32::MAX
                } else {
                    whole as i32
                }
            } else {
                curve(shaped, params.linearity)
            }
        },
    }
}

/// Maps a value of the range `[-32768, 32767]` to the range of a virtual
/// axis, `[0, 32767]`; values outside go to the nearer end.
pub fn convert_axis_to_vjoy_range(input: i32) -> (value: i32)
    ensures
        value == vjoy_range(input as int),
        0 <= value <= 32767,
{
    if input <= -32768 {
        assert((input + 32768) * 32767 / 65535 <= 0) by (nonlinear_arith)
            requires
                input + 32768 <= 0,
        ;
        0
    } else {
        let mapped: i64 = (input as i64 + 32768) * 32767 / 65535;
        if mapped > 32767 {
            32767
        } else {
            mapped as i32
        }
    }
}

/// With a linearity of one, no offset, no deadzone, nothing clamped away, no
/// inversion and a window of one sample, an input within `[-32768, 32767]`
/// comes out as it went in, whatever the response curve.
pub proof fn lemma_neutral_axis_is_identity(params: AxisParamsView, input: i32, curve: spec_fn(i64, u32) -> i32)
    requires
        axis_params_wf(params),
        params.linearity == 1_000_000,
        params.offset == 0,
        params.deadzone_center == 0,
        params.clamp_min == 0,
        params.clamp_max == 1_000_000,
        !params.invert,
        params.avg_filter == 1,
        -32768 <= input <= 32767,
    ensures
        axis_output(params, input, curve) == input,
{
    let data = window_data_after(params, input);
    assert(data =~= seq![input]);
    assert(data.drop_last() =~= Seq::<i32>::empty());
    assert(seq_sum(data) == input) by {
        reveal_with_fuel(seq_sum, 2);
    }
    assert(mean_micro(data) == input * 1_000_000);
    assert(input * 1_000_000 / 1_000_000 == input) by (nonlinear_arith);
}

} // verus!
