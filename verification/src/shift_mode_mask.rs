//! The shift-mode register and the rule by which it gates rebinds.

use vstd::prelude::*;
use crate::text::{binary, binary_text};

verus! {

/// Eight independent mode flags.
#[derive(Debug, Clone, Copy, PartialEq, Eq, Structural, Hash)]
pub struct ShiftModeMask(pub u8);

/// The gating rule: every bit set in `required` is set in `current`.
pub open spec fn mask_active(required: u8, current: u8) -> bool {
    (!required | current) == 0xFFu8
}

/// `current` with the bits of `bits` set.
pub open spec fn mask_enable(current: u8, bits: u8) -> u8 {
    current | bits
}

/// `current` with the bits of `bits` cleared.
pub open spec fn mask_disable(current: u8, bits: u8) -> u8 {
    current & !bits
}

impl Default for ShiftModeMask {
    fn default() -> (mask: Self)
        ensures
            mask.0 == 0,
    {
        ShiftModeMask(0)
    }
}

impl ShiftModeMask {
    /// Whether a rebind that requires `self` applies while `current` is the live register.
    pub fn is_satisfied_by(&self, current: ShiftModeMask) -> (active: bool)
        ensures
            active == mask_active(self.0, current.0),
    {
        (!self.0 | current.0) == 0xFFu8
    }

    /// The mask as eight binary digits, the highest bit first.
    pub fn to_text(&self) -> (text: String)
        ensures
            text@ == binary_text(self.0),
    {
        binary(self.0)
    }

    /// The register with the bits of `bits` set.
    pub fn enabled(&self, bits: ShiftModeMask) -> (mask: ShiftModeMask)
        ensures
            mask.0 == mask_enable(self.0, bits.0),
    {
        ShiftModeMask(self.0 | bits.0)
    }

    /// The register with the bits of `bits` cleared.
    pub fn disabled(&self, bits: ShiftModeMask) -> (mask: ShiftModeMask)
        ensures
            mask.0 == mask_disable(self.0, bits.0),
    {
        ShiftModeMask(self.0 & !bits.0)
    }
}

/// A required mask is active exactly when masking the register with it gives it back.
pub proof fn lemma_active_iff_subset(required: u8, current: u8)
    ensures
        mask_active(required, current) <==> (current & required) == required,
{
    assert(((!required | current) == 0xFFu8) <==> ((current & required) == required))
        by (bit_vector);
}

/// A required mask of zero is always active.
pub proof fn lemma_zero_always_active(current: u8)
    ensures
        mask_active(0, current),
{
    assert((!0u8 | current) == 0xFFu8) by (bit_vector);
}

} // verus!
