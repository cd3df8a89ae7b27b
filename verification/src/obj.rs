//! Object (sprite) attribute values.
//!
//! Each object is described by three 16-bit attribute values. Only the
//! fields this runtime touches are exposed: the y coordinate in bits
//! `0..=7` of the first value, the x coordinate in bits `0..=9` and the
//! size in bits `14..=15` of the second, and the base tile index in bits
//! `0..=9` of the third. Every builder replaces its own field and leaves
//! all other bits of all three values unchanged, so builders on distinct
//! fields may be applied in any order.

use vstd::prelude::*;

use crate::bits::spec_get_value;
use crate::bits::spec_with_value;
use crate::bits::u16_get_value;
use crate::bits::u16_with_value;

verus! {

/// The first object attribute value; it carries the y coordinate in bits
/// `0..=7`.
#[derive(Clone, Copy, PartialEq, Eq, Structural, Default)]
pub struct ObjAttr0(pub u16);

impl ObjAttr0 {
    /// The value with every field zero.
    #[must_use]
    pub fn new() -> (a: Self)
        ensures
            a.0 == 0,
    {
        ObjAttr0(0)
    }

    /// Replaces the y coordinate, bits `0..=7`; a wider value is masked to
    /// eight bits. All other bits are unchanged.
    #[must_use]
    pub fn with_y(self, y: i16) -> (a: Self)
        ensures
            a.0 == spec_with_value(0, 7, self.0, y as u16),
    {
        ObjAttr0(u16_with_value(0, 7, self.0, y as u16))
    }

    /// The y coordinate stored in bits `0..=7`.
    pub fn y(self) -> (y: u16)
        ensures
            y == spec_get_value(0, 7, self.0),
    {
        u16_get_value(0, 7, self.0)
    }
}

/// The second object attribute value; it carries the x coordinate in bits
/// `0..=9` and the object size in bits `14..=15`.
#[derive(Clone, Copy, PartialEq, Eq, Structural, Default)]
pub struct ObjAttr1(pub u16);

impl ObjAttr1 {
    /// The value with every field zero.
    #[must_use]
    pub fn new() -> (a: Self)
        ensures
            a.0 == 0,
    {
        ObjAttr1(0)
    }

    /// Replaces the size, bits `14..=15`; a wider value is masked to two
    /// bits. All other bits are unchanged.
    #[must_use]
    pub fn with_size(self, size: u16) -> (a: Self)
        ensures
            a.0 == spec_with_value(14, 15, self.0, size),
    {
        ObjAttr1(u16_with_value(14, 15, self.0, size))
    }

    /// Replaces the x coordinate, bits `0..=9`; a wider value is masked to
    /// ten bits. All other bits are unchanged.
    #[must_use]
    pub fn with_x(self, x: i16) -> (a: Self)
        ensures
            a.0 == spec_with_value(0, 9, self.0, x as u16),
    {
        ObjAttr1(u16_with_value(0, 9, self.0, x as u16))
    }

    /// The size stored in bits `14..=15`.
    pub fn size(self) -> (s: u16)
        ensures
            s == spec_get_value(14, 15, self.0),
    {
        u16_get_value(14, 15, self.0)
    }

    /// The x coordinate stored in bits `0..=9`.
    pub fn x(self) -> (x: u16)
        ensures
            x == spec_get_value(0, 9, self.0),
    {
        u16_get_value(0, 9, self.0)
    }
}

/// The third object attribute value; it carries the base tile index in bits
/// `0..=9`.
#[derive(Clone, Copy, PartialEq, Eq, Structural, Default)]
pub struct ObjAttr2(pub u16);

impl ObjAttr2 {
    /// The value with every field zero.
    #[must_use]
    pub fn new() -> (a: Self)
        ensures
            a.0 == 0,
    {
        ObjAttr2(0)
    }

    /// Replaces the base tile index, bits `0..=9`; a wider value is masked
    /// to ten bits. All other bits are unchanged.
    #[must_use]
    pub fn with_tile(self, tile: u16) -> (a: Self)
        ensures
            a.0 == spec_with_value(0, 9, self.0, tile),
    {
        ObjAttr2(u16_with_value(0, 9, self.0, tile))
    }

    /// The base tile index stored in bits `0..=9`.
    pub fn tile(self) -> (t: u16)
        ensures
            t == spec_get_value(0, 9, self.0),
    {
        u16_get_value(0, 9, self.0)
    }
}

/// A full object attribute entry: the three 16-bit attribute values
/// together. Each builder forwards to the value that owns the field and
/// leaves the other two values untouched.
#[derive(Clone, Copy, PartialEq, Eq, Structural, Default)]
pub struct ObjAttr(pub ObjAttr0, pub ObjAttr1, pub ObjAttr2);

impl ObjAttr {
    /// The entry with every field of every value zero.
    #[must_use]
    pub fn new() -> (a: Self)
        ensures
            a.0.0 == 0,
            a.1.0 == 0,
            a.2.0 == 0,
    {
        ObjAttr(ObjAttr0::new(), ObjAttr1::new(), ObjAttr2::new())
    }

    /// Replaces the size field of the second value; everything else is
    /// unchanged.
    #[must_use]
    pub fn with_size(self, size: u16) -> (a: Self)
        ensures
            a.0 == self.0,
            a.1.0 == spec_with_value(14, 15, self.1.0, size),
            a.2 == self.2,
    {
        ObjAttr(self.0, self.1.with_size(size), self.2)
    }

    /// Replaces the base tile index of the third value; everything else is
    /// unchanged.
    #[must_use]
    pub fn with_tile(self, tile: u16) -> (a: Self)
        ensures
            a.0 == self.0,
            a.1 == self.1,
            a.2.0 == spec_with_value(0, 9, self.2.0, tile),
    {
        ObjAttr(self.0, self.1, self.2.with_tile(tile))
    }

    /// Replaces the x coordinate of the second value; everything else is
    /// unchanged.
    #[must_use]
    pub fn with_x(self, x: i16) -> (a: Self)
        ensures
            a.0 == self.0,
            a.1.0 == spec_with_value(0, 9, self.1.0, x as u16),
            a.2 == self.2,
    {
        ObjAttr(self.0, self.1.with_x(x), self.2)
    }

    /// Replaces the y coordinate of the first value; everything else is
    /// unchanged.
    #[must_use]
    pub fn with_y(self, y: i16) -> (a: Self)
        ensures
            a.0.0 == spec_with_value(0, 7, self.0.0, y as u16),
            a.1 == self.1,
            a.2 == self.2,
    {
        ObjAttr(self.0.with_y(y), self.1, self.2)
    }

    /// The size field of the second value.
    pub fn size(self) -> (s: u16)
        ensures
            s == spec_get_value(14, 15, self.1.0),
    {
        self.1.size()
    }

    /// The base tile index of the third value.
    pub fn tile(self) -> (t: u16)
        ensures
            t == spec_get_value(0, 9, self.2.0),
    {
        self.2.tile()
    }

    /// The x coordinate of the second value.
    pub fn x(self) -> (x: u16)
        ensures
            x == spec_get_value(0, 9, self.1.0),
    {
        self.1.x()
    }

    /// The y coordinate of the first value.
    pub fn y(self) -> (y: u16)
        ensures
            y == spec_get_value(0, 7, self.0.0),
    {
        self.0.y()
    }
}

/// The one pair of builders that share an attribute value, size and x, still
/// commutes, because their bit ranges `14..=15` and `0..=9` are disjoint.
/// Every other pair of builders touches different attribute values, so an
/// entry built from given field values is the same whatever the build order.
pub proof fn lemma_size_x_any_order(v: u16, size: u16, x: u16)
    ensures
        spec_with_value(0, 9, spec_with_value(14, 15, v, size), x) == spec_with_value(
            14,
            15,
            spec_with_value(0, 9, v, x),
            size,
        ),
{
    crate::bits::lemma_with_value_commutes(14, 15, size, 0, 9, x, v);
}

} // verus!
