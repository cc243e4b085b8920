//! Big-endian byte pairs for the sixteen-bit fields of command payloads.

use vstd::prelude::*;

verus! {

/// The most significant byte of `number`.
pub open spec fn high_byte(number: u16) -> u8 {
    (number / 256) as u8
}

/// The least significant byte of `number`.
pub open spec fn low_byte(number: u16) -> u8 {
    (number % 256) as u8
}

/// The sixteen-bit value whose big-endian encoding is `hi`, `lo`.
pub open spec fn joined(hi: u8, lo: u8) -> u16 {
    (hi * 256 + lo) as u16
}

/// Splits `number` into its big-endian byte pair, high byte first.
pub fn hi_lo(number: u16) -> (pair: (u8, u8))
    ensures
        pair.0 == high_byte(number),
        pair.1 == low_byte(number),
{
    let high: u16 = number >> 8;
    let low: u16 = number & 0x00ff;
    assert(number >> 8 == number / 256) by (bit_vector);
    assert(number & 0x00ff == number % 256) by (bit_vector);
    (high as u8, low as u8)
}

/// Joins a big-endian byte pair into the value it encodes.
pub fn from_hi_lo(hi: u8, lo: u8) -> (number: u16)
    ensures
        number == joined(hi, lo),
{
    let high: u16 = hi as u16;
    let low: u16 = lo as u16;
    high * 256 + low
}

/// Splitting a value and joining the pair gives the value back.
pub proof fn lemma_split_then_join(number: u16)
    ensures
        joined(high_byte(number), low_byte(number)) == number,
{
}

/// Joining a pair and splitting the value gives the pair back.
pub proof fn lemma_join_then_split(hi: u8, lo: u8)
    ensures
        high_byte(joined(hi, lo)) == hi,
        low_byte(joined(hi, lo)) == lo,
{
}

} // verus!
