//! Display-related register values: colors and the display control value.

use vstd::prelude::*;

use crate::bits::spec_get_bit;
use crate::bits::spec_get_value;
use crate::bits::spec_with_bit;
use crate::bits::u16_get_value;
use crate::bits::u16_with_bit;

verus! {

/// The 16-bit color encoding: red in bits `0..=4`, green in bits `5..=9`,
/// blue in bits `10..=14`; five bits per channel. A channel value wider than
/// five bits is masked down, never rejected.
pub open spec fn spec_rgb(r: u16, g: u16, b: u16) -> u16 {
    (r & 31) | ((g & 31) << 5u16) | ((b & 31) << 10u16)
}

/// A 16-bit color with three packed five-bit channels.
#[derive(Clone, Copy, PartialEq, Eq, Structural)]
pub struct Color(pub u16);

impl Color {
    /// Packs three channel values into one color. Each channel is masked to
    /// its five-bit range, so values above 31 lose their high bits.
    #[must_use]
    pub fn rgb(r: u16, g: u16, b: u16) -> (c: Self)
        ensures
            c.0 == spec_rgb(r, g, b),
    {
        Color((r & 31) | ((g & 31) << 5u16) | ((b & 31) << 10u16))
    }

    /// The red channel, in `0..=31`.
    pub fn red(self) -> (r: u16)
        ensures
            r == spec_get_value(0, 4, self.0),
    {
        u16_get_value(0, 4, self.0)
    }

    /// The green channel, in `0..=31`.
    pub fn green(self) -> (g: u16)
        ensures
            g == spec_get_value(5, 9, self.0),
    {
        u16_get_value(5, 9, self.0)
    }

    /// The blue channel, in `0..=31`.
    pub fn blue(self) -> (b: u16)
        ensures
            b == spec_get_value(10, 14, self.0),
    {
        u16_get_value(10, 14, self.0)
    }
}

/// Packing three channels and extracting them again returns each channel
/// masked to its five-bit range, whatever the inputs were.
pub proof fn lemma_rgb_round_trip(r: u16, g: u16, b: u16)
    by (bit_vector)
    ensures
        spec_get_value(0, 4, spec_rgb(r, g, b)) == r & 31,
        spec_get_value(5, 9, spec_rgb(r, g, b)) == g & 31,
        spec_get_value(10, 14, spec_rgb(r, g, b)) == b & 31,
{
}

/// The display control value: a 16-bit bit-packed value whose fields select
/// the object tile mapping, forced blank, and whether objects are shown.
#[derive(Clone, Copy, PartialEq, Eq, Structural)]
pub struct DisplayControl(u16);

impl DisplayControl {
    /// The raw 16-bit form of the value.
    pub closed spec fn spec_bits(self) -> u16 {
        self.0
    }

    /// The value with every field zero.
    #[must_use]
    pub fn new() -> (d: Self)
        ensures
            d.spec_bits() == 0,
    {
        DisplayControl(0)
    }

    /// Replaces bit 6, which selects linear (one-dimensional) object tile
    /// mapping; every other bit is unchanged.
    #[must_use]
    pub fn with_linear_obj_tiles(self, linear: bool) -> (d: Self)
        ensures
            d.spec_bits() == spec_with_bit(self.spec_bits(), 6, linear),
    {
        DisplayControl(u16_with_bit(6, self.0, linear))
    }

    /// Replaces bit 7, which forces the display into blank; every other bit
    /// is unchanged.
    #[must_use]
    pub fn with_forced_blank(self, blank: bool) -> (d: Self)
        ensures
            d.spec_bits() == spec_with_bit(self.spec_bits(), 7, blank),
    {
        DisplayControl(u16_with_bit(7, self.0, blank))
    }

    /// Replaces bit 12, which enables object display; every other bit is
    /// unchanged.
    #[must_use]
    pub fn with_objects(self, objects: bool) -> (d: Self)
        ensures
            d.spec_bits() == spec_with_bit(self.spec_bits(), 12, objects),
    {
        DisplayControl(u16_with_bit(12, self.0, objects))
    }

    /// The raw 16-bit form, as it is stored to the display control
    /// register.
    pub fn to_u16(self) -> (r: u16)
        ensures
            r == self.spec_bits(),
    {
        self.0
    }

    /// Whether bit 6, linear object tile mapping, is set.
    pub fn linear_obj_tiles(self) -> (r: bool)
        ensures
            r == spec_get_bit(self.spec_bits(), 6),
    {
        crate::bits::u16_get_bit(6, self.0)
    }

    /// Whether bit 7, forced blank, is set.
    pub fn forced_blank(self) -> (r: bool)
        ensures
            r == spec_get_bit(self.spec_bits(), 7),
    {
        crate::bits::u16_get_bit(7, self.0)
    }

    /// Whether bit 12, object display, is set.
    pub fn objects(self) -> (r: bool)
        ensures
            r == spec_get_bit(self.spec_bits(), 12),
    {
        crate::bits::u16_get_bit(12, self.0)
    }
}

} // verus!
