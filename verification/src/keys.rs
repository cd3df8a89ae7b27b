//! The key input register value.
//!
//! Each of the ten buttons maps to one bit of the raw 16-bit value, and the
//! bits are active-low: a cleared bit means the button is pressed, a set bit
//! means it is released. Each accessor below reports whether its button is
//! pressed, and depends on its own bit alone.

use vstd::prelude::*;

use crate::bits::spec_get_bit;
use crate::bits::u16_get_bit;

verus! {

/// A snapshot of the key input register: ten active-low button bits.
#[derive(Clone, Copy, PartialEq, Eq, Structural)]
pub struct KeyInput(pub u16);

impl KeyInput {
    /// Whether the A button is pressed: bit 0 is clear.
    pub fn a(self) -> (r: bool)
        ensures
            r == !spec_get_bit(self.0, 0),
    {
        !u16_get_bit(0, self.0)
    }

    /// Whether the B button is pressed: bit 1 is clear.
    pub fn b(self) -> (r: bool)
        ensures
            r == !spec_get_bit(self.0, 1),
    {
        !u16_get_bit(1, self.0)
    }

    /// Whether the Select button is pressed: bit 2 is clear.
    pub fn select(self) -> (r: bool)
        ensures
            r == !spec_get_bit(self.0, 2),
    {
        !u16_get_bit(2, self.0)
    }

    /// Whether the Start button is pressed: bit 3 is clear.
    pub fn start(self) -> (r: bool)
        ensures
            r == !spec_get_bit(self.0, 3),
    {
        !u16_get_bit(3, self.0)
    }

    /// Whether Right is pressed: bit 4 is clear.
    pub fn right(self) -> (r: bool)
        ensures
            r == !spec_get_bit(self.0, 4),
    {
        !u16_get_bit(4, self.0)
    }

    /// Whether Left is pressed: bit 5 is clear.
    pub fn left(self) -> (r: bool)
        ensures
            r == !spec_get_bit(self.0, 5),
    {
        !u16_get_bit(5, self.0)
    }

    /// Whether Up is pressed: bit 6 is clear.
    pub fn up(self) -> (r: bool)
        ensures
            r == !spec_get_bit(self.0, 6),
    {
        !u16_get_bit(6, self.0)
    }

    /// Whether Down is pressed: bit 7 is clear.
    pub fn down(self) -> (r: bool)
        ensures
            r == !spec_get_bit(self.0, 7),
    {
        !u16_get_bit(7, self.0)
    }

    /// Whether the R shoulder button is pressed: bit 8 is clear.
    pub fn r(self) -> (r: bool)
        ensures
            r == !spec_get_bit(self.0, 8),
    {
        !u16_get_bit(8, self.0)
    }

    /// Whether the L shoulder button is pressed: bit 9 is clear.
    pub fn l(self) -> (r: bool)
        ensures
            r == !spec_get_bit(self.0, 9),
    {
        !u16_get_bit(9, self.0)
    }
}

/// A button report depends on its own bit alone: two raw values that agree
/// on bit `pos` yield the same report for the button at `pos`, however the
/// other bits differ.
pub proof fn lemma_button_independent_of_other_bits(raw_a: u16, raw_b: u16, pos: u16)
    by (bit_vector)
    requires
        pos < 16,
        raw_a & (1u16 << pos) == raw_b & (1u16 << pos),
    ensures
        spec_get_bit(raw_a, pos) == spec_get_bit(raw_b, pos),
{
}

} // verus!
