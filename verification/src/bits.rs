//! Bit-field primitives for 16-bit hardware register values.
//!
//! A bit-packed register value is a fixed-width unsigned integer interpreted
//! as a mapping from contiguous bit ranges to semantic sub-values. The
//! operations here read and replace such sub-ranges; replacing a range never
//! affects bits outside it, and a value wider than its range is truncated by
//! masking (low bits kept) rather than rejected.

use vstd::prelude::*;

verus! {

/// All ones in bit positions `0..=(high - low)`: the mask a field value is
/// reduced by before it is stored in bits `low..=high`.
pub open spec fn val_mask_u16(low: u16, high: u16) -> u16
    recommends
        low <= high < 16,
{
    0xFFFFu16 >> (((15 + low) - high) as u16)
}

/// All ones in bit positions `low..=high` and zeros elsewhere.
pub open spec fn field_mask_u16(low: u16, high: u16) -> u16
    recommends
        low <= high < 16,
{
    val_mask_u16(low, high) << low
}

/// Whether bit `pos` of `val` is set.
pub open spec fn spec_get_bit(val: u16, pos: u16) -> bool
    recommends
        pos < 16,
{
    (val >> pos) & 1 == 1
}

/// `val` with bit `pos` replaced by `flag` and all other bits unchanged.
pub open spec fn spec_with_bit(val: u16, pos: u16, flag: bool) -> u16
    recommends
        pos < 16,
{
    if flag {
        val | (1u16 << pos)
    } else {
        val & !(1u16 << pos)
    }
}

/// The unsigned integer stored in bits `low..=high` of `val`, shifted so
/// that it starts at bit 0.
pub open spec fn spec_get_value(low: u16, high: u16, val: u16) -> u16
    recommends
        low <= high < 16,
{
    (val >> low) & val_mask_u16(low, high)
}

/// `old_val` with bits `low..=high` replaced by the low bits of `value` and
/// all other bits unchanged.
pub open spec fn spec_with_value(low: u16, high: u16, old_val: u16, value: u16) -> u16
    recommends
        low <= high < 16,
{
    (old_val & !field_mask_u16(low, high)) | ((value & val_mask_u16(low, high)) << low)
}

/// Reads one bit of a 16-bit register value.
pub fn u16_get_bit(pos: u16, val: u16) -> (r: bool)
    requires
        pos < 16,
    ensures
        r == spec_get_bit(val, pos),
{
    (val >> pos) & 1 == 1
}

/// Replaces one bit of a 16-bit register value, leaving every other bit
/// unchanged.
pub fn u16_with_bit(pos: u16, val: u16, flag: bool) -> (r: u16)
    requires
        pos < 16,
    ensures
        r == spec_with_bit(val, pos, flag),
{
    if flag {
        val | (1u16 << pos)
    } else {
        val & !(1u16 << pos)
    }
}

/// Reads the field stored in bits `low..=high` of a 16-bit register value.
pub fn u16_get_value(low: u16, high: u16, val: u16) -> (r: u16)
    requires
        low <= high < 16,
    ensures
        r == spec_get_value(low, high, val),
{
    let shift: u16 = (15 + low) - high;
    (val >> low) & (0xFFFFu16 >> shift)
}

/// Replaces the field stored in bits `low..=high` of a 16-bit register
/// value. A `value` wider than the field is masked down to the field width
/// (low bits kept, high bits discarded); bits outside `low..=high` are
/// unchanged.
pub fn u16_with_value(low: u16, high: u16, old_val: u16, value: u16) -> (r: u16)
    requires
        low <= high < 16,
    ensures
        r == spec_with_value(low, high, old_val, value),
{
    let shift: u16 = (15 + low) - high;
    let vmask: u16 = 0xFFFFu16 >> shift;
    (old_val & !(vmask << low)) | ((value & vmask) << low)
}

/// Reading a field back right after writing it yields the written value,
/// masked to the field width.
pub proof fn lemma_with_value_get_value(low: u16, high: u16, old_val: u16, value: u16)
    by (bit_vector)
    requires
        low <= high < 16,
    ensures
        spec_get_value(low, high, spec_with_value(low, high, old_val, value)) == value
            & val_mask_u16(low, high),
{
}

/// Writing a field leaves every bit outside the field as it was.
pub proof fn lemma_with_value_preserves_outside(
    low: u16,
    high: u16,
    old_val: u16,
    value: u16,
    pos: u16,
)
    by (bit_vector)
    requires
        low <= high < 16,
        pos < 16,
        pos < low || high < pos,
    ensures
        spec_get_bit(spec_with_value(low, high, old_val, value), pos) == spec_get_bit(
            old_val,
            pos,
        ),
{
}

/// Reading a bit back right after writing it yields the written flag.
pub proof fn lemma_with_bit_get_bit(pos: u16, val: u16, flag: bool)
    by (bit_vector)
    requires
        pos < 16,
    ensures
        spec_get_bit(spec_with_bit(val, pos, flag), pos) == flag,
{
}

/// Writing a bit leaves every other bit as it was.
pub proof fn lemma_with_bit_preserves_other(pos: u16, val: u16, flag: bool, other: u16)
    by (bit_vector)
    requires
        pos < 16,
        other < 16,
        other != pos,
    ensures
        spec_get_bit(spec_with_bit(val, pos, flag), other) == spec_get_bit(val, other),
{
}

/// Writes to two disjoint fields of the same value commute: the result does
/// not depend on the order of the two updates.
pub proof fn lemma_with_value_commutes(
    low_a: u16,
    high_a: u16,
    value_a: u16,
    low_b: u16,
    high_b: u16,
    value_b: u16,
    base: u16,
)
    by (bit_vector)
    requires
        low_a <= high_a < 16,
        low_b <= high_b < 16,
        high_a < low_b || high_b < low_a,
    ensures
        spec_with_value(low_b, high_b, spec_with_value(low_a, high_a, base, value_a), value_b)
            == spec_with_value(
            low_a,
            high_a,
            spec_with_value(low_b, high_b, base, value_b),
            value_a,
        ),
{
}

} // verus!
