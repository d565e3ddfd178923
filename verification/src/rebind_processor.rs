//! The processor: it owns the configuration and the live shift-mode register
//! and evaluates the rebinds once per tick, in three phases.

use vstd::prelude::*;
use crate::axis_to_axis::{curve_is_function, curve_of};
use crate::config::{Config, ConfigView, sample_config};
use crate::device::{PhysicalDevice, PhysicalDeviceView, VirtualDevice, VirtualDeviceView, physical_views, virtual_views};
use crate::error::Error;
use crate::logical_rebind::{LogicalRebindView, logical_mask_after};
use crate::rebind::{Rebind, RebindType, RebindTypeView, RebindView, rebind_views};
use crate::reroute_rebind::{reroute_rebind_after, reroute_virtuals_after};
use crate::shift_mode_mask::{ShiftModeMask, mask_active};
use crate::validate::{Lookup, physical_button};
use crate::virtual_rebind::{virtual_rebind_after, virtual_virtuals_after};

verus! {

/// The register after one rebind had its turn in the logical phase: changed
/// only by a logical rebind that is active under the register as it stands.
pub open spec fn logical_tick(rebind: RebindView, physicals: Seq<PhysicalDeviceView>, mask: u8) -> u8 {
    match rebind.rebind_type {
        RebindTypeView::Logical { rebind: logical } => if mask_active(rebind.mode_mask, mask) {
            logical_mask_after(logical, physicals, mask)
        } else {
            mask
        },
        _ => mask,
    }
}

/// The register after the first `n` rebinds had their turn in the logical
/// phase, in list order, each seeing what the ones before it left.
pub open spec fn logical_phase(rebinds: Seq<RebindView>, physicals: Seq<PhysicalDeviceView>, mask: u8, n: int) -> u8
    decreases n,
{
    if n <= 0 {
        mask
    } else {
        logical_tick(rebinds[n - 1], physicals, logical_phase(rebinds, physicals, mask, n - 1))
    }
}

/// The rebinds and the virtual devices in the course of a tick.
pub struct TickState {
    pub rebinds: Seq<RebindView>,
    pub virtuals: Seq<VirtualDeviceView>,
}

/// Whether the rebind at `index` is evaluated in the reroute phase under `mask`.
pub open spec fn reroute_runs(rebinds: Seq<RebindView>, index: int, mask: u8) -> bool {
    rebinds[index].rebind_type is Reroute && mask_active(rebinds[index].mode_mask, mask)
}

/// Whether the rebind at `index` is evaluated in the virtual phase under `mask`.
pub open spec fn virtual_runs(rebinds: Seq<RebindView>, index: int, mask: u8) -> bool {
    rebinds[index].rebind_type is Virtual && mask_active(rebinds[index].mode_mask, mask)
}

/// The state after the rebind at `index` had its turn in the reroute phase.
pub open spec fn reroute_tick(
    state: TickState,
    index: int,
    physicals: Seq<PhysicalDeviceView>,
    mask: u8,
    time: u64,
    delta_t: u64,
    curve: spec_fn(i64, u32) -> i32,
) -> TickState {
    let rebind = state.rebinds[index];
    match rebind.rebind_type {
        RebindTypeView::Reroute { rebind: reroute } => if mask_active(rebind.mode_mask, mask) {
            TickState {
                rebinds: state.rebinds.update(
                    index,
                    RebindView {
                        name: rebind.name,
                        mode_mask: rebind.mode_mask,
                        rebind_type: RebindTypeView::Reroute {
                            rebind: reroute_rebind_after(reroute, physicals, state.virtuals, time),
                        },
                    },
                ),
                virtuals: reroute_virtuals_after(reroute, physicals, state.virtuals, time, delta_t, curve),
            }
        } else {
            state
        },
        _ => state,
    }
}

/// The state after the first `n` rebinds had their turn in the reroute phase.
pub open spec fn reroute_phase(
    state: TickState,
    physicals: Seq<PhysicalDeviceView>,
    mask: u8,
    time: u64,
    delta_t: u64,
    curve: spec_fn(i64, u32) -> i32,
    n: int,
) -> TickState
    decreases n,
{
    if n <= 0 {
        state
    } else {
        reroute_tick(
            reroute_phase(state, physicals, mask, time, delta_t, curve, n - 1),
            n - 1,
            physicals,
            mask,
            time,
            delta_t,
            curve,
        )
    }
}

/// The state after the rebind at `index` had its turn in the virtual phase.
pub open spec fn virtual_tick(state: TickState, index: int, mask: u8, delta_t: u64) -> TickState {
    let rebind = state.rebinds[index];
    match rebind.rebind_type {
        RebindTypeView::Virtual { rebind: virt } => if mask_active(rebind.mode_mask, mask) {
            TickState {
                rebinds: state.rebinds.update(
                    index,
                    RebindView {
                        name: rebind.name,
                        mode_mask: rebind.mode_mask,
                        rebind_type: RebindTypeView::Virtual {
                            rebind: virtual_rebind_after(virt, state.virtuals, delta_t),
                        },
                    },
                ),
                virtuals: virtual_virtuals_after(virt, state.virtuals, delta_t),
            }
        } else {
            state
        },
        _ => state,
    }
}

/// The state after the first `n` rebinds had their turn in the virtual phase.
pub open spec fn virtual_phase(state: TickState, mask: u8, delta_t: u64, n: int) -> TickState
    decreases n,
{
    if n <= 0 {
        state
    } else {
        virtual_tick(virtual_phase(state, mask, delta_t, n - 1), n - 1, mask, delta_t)
    }
}

/// The register after a tick: what the logical phase leaves.
pub open spec fn tick_mask(rebinds: Seq<RebindView>, physicals: Seq<PhysicalDeviceView>, mask: u8) -> u8 {
    logical_phase(rebinds, physicals, mask, rebinds.len() as int)
}

/// The state after the reroute phase of a tick, which is gated by the
/// register that the logical phase leaves.
pub open spec fn tick_rerouted(
    rebinds: Seq<RebindView>,
    physicals: Seq<PhysicalDeviceView>,
    virtuals: Seq<VirtualDeviceView>,
    mask: u8,
    time: u64,
    delta_t: u64,
    curve: spec_fn(i64, u32) -> i32,
) -> TickState {
    reroute_phase(
        TickState { rebinds, virtuals },
        physicals,
        tick_mask(rebinds, physicals, mask),
        time,
        delta_t,
        curve,
        rebinds.len() as int,
    )
}

/// The rebinds and the virtual devices after a tick: the virtual phase run
/// on what the reroute phase leaves, under the same register.
pub open spec fn tick_state(
    rebinds: Seq<RebindView>,
    physicals: Seq<PhysicalDeviceView>,
    virtuals: Seq<VirtualDeviceView>,
    mask: u8,
    time: u64,
    delta_t: u64,
    curve: spec_fn(i64, u32) -> i32,
) -> TickState {
    virtual_phase(
        tick_rerouted(rebinds, physicals, virtuals, mask, time, delta_t, curve),
        tick_mask(rebinds, physicals, mask),
        delta_t,
        rebinds.len() as int,
    )
}

/// The rebinds among the first `n` that are kept: those whose flag is set,
/// and those for which there is no flag.
pub open spec fn kept_rebinds(rebinds: Seq<RebindView>, keep: Seq<bool>, n: int) -> Seq<RebindView>
    decreases n,
{
    if n <= 0 {
        Seq::empty()
    } else if n - 1 < keep.len() && !keep[n - 1] {
        kept_rebinds(rebinds, keep, n - 1)
    } else {
        kept_rebinds(rebinds, keep, n - 1).push(rebinds[n - 1])
    }
}

/// Where a rebind at `index` goes when moved by `mov`: not below the first place.
pub open spec fn move_target(index: usize, mov: isize) -> int {
    if index + mov < 0 {
        0
    } else {
        index + mov
    }
}

/// The list with the rebinds at `index` and at its move target exchanged,
/// where both places exist and differ; the list as it is where not.
pub open spec fn moved_rebinds(rebinds: Seq<RebindView>, index: usize, mov: isize) -> Seq<RebindView> {
    let target = move_target(index, mov);
    if index < rebinds.len() && target < rebinds.len() && target != index {
        rebinds.update(index as int, rebinds[target]).update(target, rebinds[index as int])
    } else {
        rebinds
    }
}

/// Exchanges the rebinds at two places, `low` before `high`.
fn exchange(rebinds: &mut Vec<Rebind>, low: usize, high: usize)
    requires
        low < high < old(rebinds).len(),
    ensures
        final(rebinds)@ == old(rebinds)@.update(low as int, old(rebinds)@[high as int]).update(
            high as int,
            old(rebinds)@[low as int],
        ),
{
    let mut held = rebinds.remove(high);
    assert(rebinds@ == old(rebinds)@.remove(high as int));
    core::mem::swap(&mut rebinds[low], &mut held);
    assert(rebinds@ == old(rebinds)@.remove(high as int).update(low as int, old(rebinds)@[high as int]));
    assert(held == old(rebinds)@[low as int]);
    rebinds.insert(high, held);
    assert(rebinds@ =~= old(rebinds)@.update(low as int, old(rebinds)@[high as int]).update(
        high as int,
        old(rebinds)@[low as int],
    ));
}

/// Owns the configuration and the live shift-mode register.
pub struct RebindProcessor {
    config: Config,
    active_shift_mode: ShiftModeMask,
}

/// What a [`RebindProcessor`] holds.
pub struct RebindProcessorView {
    pub config: ConfigView,
    pub active_shift_mode: u8,
}

impl View for RebindProcessor {
    type V = RebindProcessorView;

    closed spec fn view(&self) -> RebindProcessorView {
        RebindProcessorView { config: self.config@, active_shift_mode: self.active_shift_mode.0 }
    }
}

impl RebindProcessor {
    /// A processor for `config`, with the register at the configuration's default.
    pub fn new(config: Config) -> (processor: Self)
        ensures
            processor@.config == config@,
            processor@.active_shift_mode == config@.default_shift_mode,
    {
        let active_shift_mode = config.default_shift_mode;
        RebindProcessor { config, active_shift_mode }
    }

    /// Replaces the configuration and sets the register to its default.
    pub fn load_rebinds(&mut self, config: Config)
        ensures
            final(self)@.config == config@,
            final(self)@.active_shift_mode == config@.default_shift_mode,
    {
        self.active_shift_mode = config.default_shift_mode;
        self.config = config;
    }

    /// Replaces the configuration by the sample configuration and sets the
    /// register to its default.
    pub fn add_debug_xbox360_config(&mut self)
        ensures
            final(self)@.config == sample_config(),
            final(self)@.active_shift_mode == 0,
    {
        self.load_rebinds(Config::debug_xbox360_config());
    }

    /// The configuration, as it is to be saved.
    pub fn save_rebinds(&self) -> (config: &Config)
        ensures
            config@ == self@.config,
    {
        &self.config
    }

    /// The live register.
    pub fn get_active_shift_mode(&self) -> (mask: ShiftModeMask)
        ensures
            mask.0 == self@.active_shift_mode,
    {
        self.active_shift_mode
    }

    /// The rebinds, in list order.
    pub fn get_active_rebinds(&self) -> (rebinds: &Vec<Rebind>)
        ensures
            rebind_views(rebinds@) == self@.config.rebinds,
    {
        &self.config.rebinds
    }

    /// Puts `rebind` in the place of the one at `index`; does nothing where
    /// there is no such place.
    pub fn set_rebind(&mut self, index: usize, rebind: Rebind)
        ensures
            final(self)@.active_shift_mode == old(self)@.active_shift_mode,
            final(self)@.config.name == old(self)@.config.name,
            final(self)@.config.default_shift_mode == old(self)@.config.default_shift_mode,
            final(self)@.config.rebinds == if index < old(self)@.config.rebinds.len() {
                old(self)@.config.rebinds.update(index as int, rebind@)
            } else {
                old(self)@.config.rebinds
            },
    {
        if index < self.config.rebinds.len() {
            self.config.rebinds[index] = rebind;
            assert(rebind_views(self.config.rebinds@) =~= old(self)@.config.rebinds.update(index as int, rebind@));
        }
    }

    /// Runs one tick. First every active logical rebind acts on the register,
    /// in list order, each seeing the register as the ones before it left it.
    /// Then every reroute rebind that is active under the resulting register
    /// is evaluated, in list order; then every active virtual rebind, on what
    /// the reroute phase wrote. A rebind whose references do not resolve is
    /// skipped for this tick. All three phases always run to the end.
    pub fn process<C: Fn(i64, u32) -> i32>(
        &mut self,
        physical_devices: &Vec<PhysicalDevice>,
        virtual_devices: &mut Vec<VirtualDevice>,
        time: u64,
        delta_t: u64,
        curve: &C,
    ) -> (result: Result<(), Error>)
        requires
            curve_is_function(curve),
        ensures
            result is Ok,
            final(self)@.config.name == old(self)@.config.name,
            final(self)@.config.default_shift_mode == old(self)@.config.default_shift_mode,
            final(self)@.active_shift_mode == tick_mask(
                old(self)@.config.rebinds,
                physical_views(physical_devices@),
                old(self)@.active_shift_mode,
            ),
            final(self)@.config.rebinds == tick_state(
                old(self)@.config.rebinds,
                physical_views(physical_devices@),
                virtual_views(old(virtual_devices)@),
                old(self)@.active_shift_mode,
                time,
                delta_t,
                curve_of(curve),
            ).rebinds,
            virtual_views(final(virtual_devices)@) == tick_state(
                old(self)@.config.rebinds,
                physical_views(physical_devices@),
                virtual_views(old(virtual_devices)@),
                old(self)@.active_shift_mode,
                time,
                delta_t,
                curve_of(curve),
            ).virtuals,
    {
        let ghost physicals = physical_views(physical_devices@);
        let ghost rebinds_0 = rebind_views(self.config.rebinds@);
        let ghost virtuals_0 = virtual_views(virtual_devices@);
        let ghost mask_0 = self.active_shift_mode.0;
        let count = self.config.rebinds.len();

        let mut i: usize = 0;
        while i < count
            invariant
                i <= count,
                count == self.config.rebinds.len(),
                physicals == physical_views(physical_devices@),
                rebind_views(self.config.rebinds@) == rebinds_0,
                self.config.name == old(self).config.name,
                self.config.default_shift_mode == old(self).config.default_shift_mode,
                self.active_shift_mode.0 == logical_phase(rebinds_0, physicals, mask_0, i as int),
            decreases count - i,
        {
            let ghost before = rebind_views(self.config.rebinds@);
            assert(before[i as int] == self.config.rebinds@[i as int]@);
            if self.config.rebinds[i].is_active(self.active_shift_mode) {
                match &mut self.config.rebinds[i].rebind_type {
                    RebindType::Logical { rebind } => {
                        let _ = rebind.process(physical_devices, &mut self.active_shift_mode);
                    },
                    _ => {},
                }
            }
            assert(rebind_views(self.config.rebinds@) =~= before);
            i += 1;
        }

        let ghost mask_1 = self.active_shift_mode.0;
        let ghost start = TickState { rebinds: rebinds_0, virtuals: virtuals_0 };
        let mut j: usize = 0;
        while j < count
            invariant
                j <= count,
                count == self.config.rebinds.len(),
                count == rebinds_0.len(),
                curve_is_function(curve),
                physicals == physical_views(physical_devices@),
                self.config.name == old(self).config.name,
                self.config.default_shift_mode == old(self).config.default_shift_mode,
                self.active_shift_mode.0 == mask_1,
                (TickState {
                    rebinds: rebind_views(self.config.rebinds@),
                    virtuals: virtual_views(virtual_devices@),
                }) == reroute_phase(start, physicals, mask_1, time, delta_t, curve_of(curve), j as int),
            decreases count - j,
        {
            let ghost before = rebind_views(self.config.rebinds@);
            let ghost virtuals_before = virtual_views(virtual_devices@);
            assert(before[j as int] == self.config.rebinds@[j as int]@);
            if self.config.rebinds[j].is_active(self.active_shift_mode) {
                match &mut self.config.rebinds[j].rebind_type {
                    RebindType::Reroute { rebind } => {
                        let _ = rebind.process(physical_devices, virtual_devices, time, delta_t, curve);
                    },
                    _ => {},
                }
            }
            assert(rebind_views(self.config.rebinds@) =~= reroute_tick(
                TickState { rebinds: before, virtuals: virtuals_before },
                j as int,
                physicals,
                mask_1,
                time,
                delta_t,
                curve_of(curve),
            ).rebinds);
            j += 1;
        }

        let ghost middle = reroute_phase(start, physicals, mask_1, time, delta_t, curve_of(curve), count as int);
        let mut k: usize = 0;
        while k < count
            invariant
                k <= count,
                count == self.config.rebinds.len(),
                count == rebinds_0.len(),
                self.config.name == old(self).config.name,
                self.config.default_shift_mode == old(self).config.default_shift_mode,
                self.active_shift_mode.0 == mask_1,
                (TickState {
                    rebinds: rebind_views(self.config.rebinds@),
                    virtuals: virtual_views(virtual_devices@),
                }) == virtual_phase(middle, mask_1, delta_t, k as int),
            decreases count - k,
        {
            let ghost before = rebind_views(self.config.rebinds@);
            let ghost virtuals_before = virtual_views(virtual_devices@);
            assert(before[k as int] == self.config.rebinds@[k as int]@);
            if self.config.rebinds[k].is_active(self.active_shift_mode) {
                match &mut self.config.rebinds[k].rebind_type {
                    RebindType::Virtual { rebind } => {
                        let _ = rebind.process(virtual_devices, delta_t);
                    },
                    _ => {},
                }
            }
            assert(rebind_views(self.config.rebinds@) =~= virtual_tick(
                TickState { rebinds: before, virtuals: virtuals_before },
                k as int,
                mask_1,
                delta_t,
            ).rebinds);
            k += 1;
        }
        Ok(())
    }

    /// Appends a rebind to the list.
    pub fn add_rebind(&mut self, rebind: Rebind)
        ensures
            final(self)@.active_shift_mode == old(self)@.active_shift_mode,
            final(self)@.config.name == old(self)@.config.name,
            final(self)@.config.default_shift_mode == old(self)@.config.default_shift_mode,
            final(self)@.config.rebinds == old(self)@.config.rebinds.push(rebind@),
    {
        self.config.rebinds.push(rebind);
        assert(rebind_views(self.config.rebinds@) =~= old(self)@.config.rebinds.push(rebind@));
    }

    /// Removes the rebinds whose flag in `keep` is `false`; a rebind without
    /// a flag stays. The order of those that stay is kept.
    pub fn remove_rebinds_from_keep(&mut self, keep: &Vec<bool>)
        ensures
            final(self)@.active_shift_mode == old(self)@.active_shift_mode,
            final(self)@.config.name == old(self)@.config.name,
            final(self)@.config.default_shift_mode == old(self)@.config.default_shift_mode,
            final(self)@.config.rebinds == kept_rebinds(
                old(self)@.config.rebinds,
                keep@,
                old(self)@.config.rebinds.len() as int,
            ),
    {
        let ghost listed = rebind_views(self.config.rebinds@);
        let count = self.config.rebinds.len();
        let mut place: usize = 0;
        let mut seen: usize = 0;
        while seen < count
            invariant
                place <= seen <= count,
                count == listed.len(),
                self.active_shift_mode == old(self).active_shift_mode,
                self.config.name == old(self).config.name,
                self.config.default_shift_mode == old(self).config.default_shift_mode,
                kept_rebinds(listed, keep@, seen as int).len() == place,
                rebind_views(self.config.rebinds@) == kept_rebinds(listed, keep@, seen as int) + listed.subrange(
                    seen as int,
                    count as int,
                ),
            decreases count - seen,
        {
            let ghost before = rebind_views(self.config.rebinds@);
            let stays = if seen < keep.len() {
                keep[seen]
            } else {
                true
            };
            assert(before.len() == place + (count - seen));
            assert(before[place as int] == listed[seen as int]);
            if stays {
                place += 1;
            } else {
                self.config.rebinds.remove(place);
                assert(rebind_views(self.config.rebinds@) =~= before.remove(place as int));
            }
            seen += 1;
            assert(rebind_views(self.config.rebinds@) =~= kept_rebinds(listed, keep@, seen as int) + listed.subrange(
                seen as int,
                count as int,
            ));
        }
        assert(rebind_views(self.config.rebinds@) =~= kept_rebinds(listed, keep@, count as int));
    }

    /// Appends the rebinds of `copy` to the list, in their order.
    pub fn duplicate_rebinds_from_copy(&mut self, copy: Vec<Rebind>)
        ensures
            final(self)@.active_shift_mode == old(self)@.active_shift_mode,
            final(self)@.config.name == old(self)@.config.name,
            final(self)@.config.default_shift_mode == old(self)@.config.default_shift_mode,
            final(self)@.config.rebinds == old(self)@.config.rebinds + rebind_views(copy@),
    {
        let mut copy = copy;
        let ghost added = copy@;
        self.config.rebinds.append(&mut copy);
        assert(rebind_views(self.config.rebinds@) =~= old(self)@.config.rebinds + rebind_views(added));
    }

    /// Exchanges the rebind at `index` with the one `mov` places further on,
    /// or at the first place where that would be before the list. Does
    /// nothing where one of the two places does not exist.
    pub fn move_rebind(&mut self, index: usize, mov: isize)
        ensures
            final(self)@.active_shift_mode == old(self)@.active_shift_mode,
            final(self)@.config.name == old(self)@.config.name,
            final(self)@.config.default_shift_mode == old(self)@.config.default_shift_mode,
            final(self)@.config.rebinds == moved_rebinds(old(self)@.config.rebinds, index, mov),
    {
        let count = self.config.rebinds.len();
        if index >= count {
            return ;
        }
        let wanted: i128 = index as i128 + mov as i128;
        if wanted >= count as i128 {
            return ;
        }
        let swap_index: usize = if wanted < 0 {
            0
        } else {
            wanted as usize
        };
        if swap_index == index {
            return ;
        }
        let low: usize = if index < swap_index {
            index
        } else {
            swap_index
        };
        let high: usize = if index < swap_index {
            swap_index
        } else {
            index
        };
        exchange(&mut self.config.rebinds, low, high);
        assert(rebind_views(self.config.rebinds@) =~= moved_rebinds(old(self)@.config.rebinds, index, mov));
    }

    /// Removes every rebind.
    pub fn clear_all_rebinds(&mut self)
        ensures
            final(self)@.active_shift_mode == old(self)@.active_shift_mode,
            final(self)@.config.name == old(self)@.config.name,
            final(self)@.config.default_shift_mode == old(self)@.config.default_shift_mode,
            final(self)@.config.rebinds == Seq::<RebindView>::empty(),
    {
        self.config.rebinds.clear();
        assert(rebind_views(self.config.rebinds@) =~= Seq::<RebindView>::empty());
    }
}

/// Whether a rebind, at its turn in the logical phase, leaves the bits of
/// `bits` set in a register that has them set.
pub open spec fn keeps_bits(rebind: RebindView, physicals: Seq<PhysicalDeviceView>, bits: u8) -> bool {
    forall|mask: u8| (mask & bits) == bits ==> (#[trigger] logical_tick(rebind, physicals, mask) & bits) == bits
}

/// Bits that are set after the first `from` rebinds of the logical phase are
/// still set after the first `to`, where none of the rebinds in between
/// clears any of them.
pub proof fn lemma_bits_stay(
    rebinds: Seq<RebindView>,
    physicals: Seq<PhysicalDeviceView>,
    mask: u8,
    bits: u8,
    from: int,
    to: int,
)
    requires
        0 <= from <= to <= rebinds.len(),
        (logical_phase(rebinds, physicals, mask, from) & bits) == bits,
        forall|k: int| from <= k < to ==> keeps_bits(#[trigger] rebinds[k], physicals, bits),
    ensures
        (logical_phase(rebinds, physicals, mask, to) & bits) == bits,
    decreases to - from,
{
    if from < to {
        lemma_bits_stay(rebinds, physicals, mask, bits, from, to - 1);
        assert(keeps_bits(rebinds[to - 1], physicals, bits));
    }
}

/// Before its turn in the reroute phase a rebind is as it was at the start
/// of the tick, and the list keeps its length throughout.
pub proof fn lemma_reroute_untouched_before_turn(
    state: TickState,
    physicals: Seq<PhysicalDeviceView>,
    mask: u8,
    time: u64,
    delta_t: u64,
    curve: spec_fn(i64, u32) -> i32,
    n: int,
    index: int,
)
    requires
        0 <= n <= index < state.rebinds.len(),
    ensures
        reroute_phase(state, physicals, mask, time, delta_t, curve, n).rebinds.len() == state.rebinds.len(),
        reroute_phase(state, physicals, mask, time, delta_t, curve, n).rebinds[index] == state.rebinds[index],
    decreases n,
{
    if n > 0 {
        lemma_reroute_untouched_before_turn(state, physicals, mask, time, delta_t, curve, n - 1, index);
    }
}

/// The phases are run in order whatever the order of the list. Let a logical
/// rebind that is evaluated in the tick enable shift-mode bits while its
/// button is held, let no logical rebind after it clear a bit that a given
/// reroute rebind requires, and let the reroute rebind require no bit but
/// those enabled. Then the reroute rebind is evaluated in the same tick: at
/// its turn its modifier is advanced and its destination written, from the
/// virtual devices as the rebinds before it left them.
pub proof fn lemma_enabled_reroute_runs(
    rebinds: Seq<RebindView>,
    physicals: Seq<PhysicalDeviceView>,
    virtuals: Seq<VirtualDeviceView>,
    mask: u8,
    time: u64,
    delta_t: u64,
    curve: spec_fn(i64, u32) -> i32,
    enabler: int,
    reroute: int,
)
    requires
        0 <= enabler < rebinds.len(),
        0 <= reroute < rebinds.len(),
        rebinds[enabler].rebind_type matches RebindTypeView::Logical {
            rebind: LogicalRebindView::MomentaryEnableShiftMode { src_device, src_button, shift_mask },
        } && physical_button(physicals, src_device, src_button) == Lookup::Found(true) && (shift_mask
            & rebinds[reroute].mode_mask) == rebinds[reroute].mode_mask,
        mask_active(rebinds[enabler].mode_mask, logical_phase(rebinds, physicals, mask, enabler)),
        rebinds[reroute].rebind_type is Reroute,
        forall|k: int|
            enabler < k < rebinds.len() ==> keeps_bits(#[trigger] rebinds[k], physicals, rebinds[reroute].mode_mask),
    ensures
        reroute_runs(rebinds, reroute, tick_mask(rebinds, physicals, mask)),
        ({
            let register = tick_mask(rebinds, physicals, mask);
            let start = TickState { rebinds, virtuals };
            let before = reroute_phase(start, physicals, register, time, delta_t, curve, reroute);
            let after = reroute_phase(start, physicals, register, time, delta_t, curve, reroute + 1);
            let rule = rebinds[reroute].rebind_type->Reroute_rebind;
            &&& after.rebinds[reroute].rebind_type == RebindTypeView::Reroute {
                rebind: reroute_rebind_after(rule, physicals, before.virtuals, time),
            }
            &&& after.virtuals == reroute_virtuals_after(rule, physicals, before.virtuals, time, delta_t, curve)
        }),
{
    let required = rebinds[reroute].mode_mask;
    let shift_mask = rebinds[enabler].rebind_type->Logical_rebind->MomentaryEnableShiftMode_shift_mask;
    let at_turn = logical_phase(rebinds, physicals, mask, enabler);
    let enabled = logical_phase(rebinds, physicals, mask, enabler + 1);
    assert(enabled == at_turn | shift_mask);
    assert(((at_turn | shift_mask) & required) == required) by (bit_vector)
        requires
            (shift_mask & required) == required,
    ;
    lemma_bits_stay(rebinds, physicals, mask, required, enabler + 1, rebinds.len() as int);
    let register = tick_mask(rebinds, physicals, mask);
    assert((!required | register) == 0xFFu8) by (bit_vector)
        requires
            (register & required) == required,
    ;
    lemma_reroute_untouched_before_turn(
        TickState { rebinds, virtuals },
        physicals,
        register,
        time,
        delta_t,
        curve,
        reroute,
        reroute,
    );
}

/// A reroute rebind whose required bits are not all set when the logical
/// phase ends is not evaluated in the tick: it and the virtual devices are, after
/// its turn, as they were before it.
pub proof fn lemma_gated_reroute_skipped(
    rebinds: Seq<RebindView>,
    physicals: Seq<PhysicalDeviceView>,
    virtuals: Seq<VirtualDeviceView>,
    mask: u8,
    time: u64,
    delta_t: u64,
    curve: spec_fn(i64, u32) -> i32,
    reroute: int,
)
    requires
        0 <= reroute < rebinds.len(),
        !mask_active(rebinds[reroute].mode_mask, tick_mask(rebinds, physicals, mask)),
    ensures
        ({
            let register = tick_mask(rebinds, physicals, mask);
            let start = TickState { rebinds, virtuals };
            reroute_phase(start, physicals, register, time, delta_t, curve, reroute + 1) == reroute_phase(
                start,
                physicals,
                register,
                time,
                delta_t,
                curve,
                reroute,
            )
        }),
{
    let register = tick_mask(rebinds, physicals, mask);
    lemma_reroute_untouched_before_turn(
        TickState { rebinds, virtuals },
        physicals,
        register,
        time,
        delta_t,
        curve,
        reroute,
        reroute,
    );
}

} // verus!
