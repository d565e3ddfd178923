//! A rebind: a named rule with the shift modes it requires.

use vstd::prelude::*;
use crate::logical_rebind::{LogicalRebind, LogicalRebindView};
use crate::reroute_rebind::{RerouteRebind, RerouteRebindView};
use crate::shift_mode_mask::{ShiftModeMask, mask_active};
use crate::virtual_rebind::VirtualRebind;

verus! {

/// What a rebind does, by the phase of the tick in which it is evaluated.
#[derive(Debug, Clone, PartialEq, Eq)]
pub enum RebindType {
    /// Acts on the shift-mode register.
    Logical { rebind: LogicalRebind },
    /// Reads physical channels and writes a virtual channel.
    Reroute { rebind: RerouteRebind },
    /// Reads and writes virtual channels.
    Virtual { rebind: VirtualRebind },
}

/// What a [`RebindType`] holds.
pub enum RebindTypeView {
    Logical { rebind: LogicalRebindView },
    Reroute { rebind: RerouteRebindView },
    Virtual { rebind: VirtualRebind },
}

impl View for RebindType {
    type V = RebindTypeView;

    open spec fn view(&self) -> RebindTypeView {
        match self {
            RebindType::Logical { rebind } => RebindTypeView::Logical { rebind: rebind@ },
            RebindType::Reroute { rebind } => RebindTypeView::Reroute { rebind: rebind@ },
            RebindType::Virtual { rebind } => RebindTypeView::Virtual { rebind: *rebind },
        }
    }
}

/// A named rule: the shift modes it requires and what it does.
#[derive(Debug, Clone, PartialEq, Eq)]
pub struct Rebind {
    pub name: String,
    pub mode_mask: ShiftModeMask,
    pub rebind_type: RebindType,
}

/// What a [`Rebind`] holds.
pub struct RebindView {
    pub name: Seq<char>,
    pub mode_mask: u8,
    pub rebind_type: RebindTypeView,
}

impl View for Rebind {
    type V = RebindView;

    open spec fn view(&self) -> RebindView {
        RebindView { name: self.name@, mode_mask: self.mode_mask.0, rebind_type: self.rebind_type@ }
    }
}

/// The rebinds of a list as the engine sees them.
pub open spec fn rebind_views(rebinds: Seq<Rebind>) -> Seq<RebindView> {
    Seq::new(rebinds.len(), |i: int| rebinds[i]@)
}

impl Rebind {
    /// Whether the rebind applies while `active_shift_mode` is the live
    /// register: every bit that it requires is set there.
    pub fn is_active(&self, active_shift_mode: ShiftModeMask) -> (active: bool)
        ensures
            active == mask_active(self@.mode_mask, active_shift_mode.0),
    {
        self.mode_mask.is_satisfied_by(active_shift_mode)
    }
}

} // verus!
