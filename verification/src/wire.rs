//! Sixteen-bit values on the wire: the high byte goes first.

use vstd::prelude::*;

verus! {

/// The byte of a 16-bit value that is sent first.
pub open spec fn high_byte(value: u16) -> u8 {
    (value >> 8) as u8
}

/// The byte of a 16-bit value that is sent second.
pub open spec fn low_byte(value: u16) -> u8 {
    (value & 0xff) as u8
}

/// The byte of `value` that is sent first.
pub fn high(value: u16) -> (byte: u8)
    ensures
        byte == high_byte(value),
    no_unwind
{
    (value >> 8) as u8
}

/// The byte of `value` that is sent second.
pub fn low(value: u16) -> (byte: u8)
    ensures
        byte == low_byte(value),
    no_unwind
{
    (value & 0xff) as u8
}

/// The two bytes are the value's digits to the base 256, so together they
/// hold all of it.
pub proof fn lemma_bytes_hold_value(value: u16)
    ensures
        high_byte(value) == value / 256,
        low_byte(value) == value % 256,
        high_byte(value) * 256 + low_byte(value) == value,
{
    assert((value >> 8) as u8 == value / 256) by (bit_vector);
    assert((value & 0xff) as u8 == value % 256) by (bit_vector);
}

} // verus!
