//! The computable core of the interrupt entry stub.
//!
//! On every hardware interrupt the stub must read the interrupt-enable and
//! interrupt-flag registers, determine which sources fired, clear the
//! handled flags, optionally chain to a secondary system-provided handler,
//! and return to the point of interruption. Which sources count as handled
//! is the one decision in that sequence, and this module states it; the
//! surrounding unverified binary performs the register loads, the
//! acknowledging store and the return. Nothing here assumes any further
//! behavior of an interrupt source.

use vstd::prelude::*;

use crate::bits::spec_get_bit;

verus! {

/// The sources the stub treats as handled: exactly those that are both
/// enabled and flagged. This is also the value to store back to the
/// interrupt-flag register, whose set bits acknowledge their source's flag
/// and leave every other flag alone.
pub fn handled_interrupt_sources(enabled: u16, flags: u16) -> (handled: u16)
    ensures
        handled == enabled & flags,
{
    enabled & flags
}

/// A source is handled exactly when it is both enabled and flagged; in
/// particular a disabled or quiet source is never acknowledged.
pub proof fn lemma_handled_sources_sound(enabled: u16, flags: u16, pos: u16)
    by (bit_vector)
    requires
        pos < 16,
    ensures
        spec_get_bit(enabled & flags, pos) == (spec_get_bit(enabled, pos) && spec_get_bit(
            flags,
            pos,
        )),
{
}

} // verus!
