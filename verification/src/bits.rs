//! Facts about masks and shifts, each proved by the bit-vector solver. The rest
//! of the library reasons in arithmetic and takes its bit-level facts from here.

use vstd::prelude::*;

verus! {

/// Masking keeps an address inside the mirrored image it selects.
pub proof fn lemma_mask_bounds(address: u16)
    by (bit_vector)
    ensures
        address & 0x07FF <= 0x07FF,
        address & 0x3FFF <= 0x3FFF,
        address & 0x7FFF <= 0x7FFF,
        address & 0xFF00 <= 0xFF00,
        address & 0x00FF <= 0x00FF,
        address >> 8 <= 0x00FF,
{
}

/// The stack pointer selects a byte of page 1.
pub proof fn lemma_stack_slot(sp: u8)
    by (bit_vector)
    ensures
        0x0100u16 | sp as u16 == 0x0100 + sp,
{
}

/// Flipping every bit of a byte takes it away from 255.
pub proof fn lemma_complement(value: u8)
    by (bit_vector)
    ensures
        value ^ 0xFF == 255 - value,
{
}

/// A byte pair and the 16-bit value it makes, in arithmetic.
pub proof fn lemma_word_bits(low: u8, high: u8)
    by (bit_vector)
    ensures
        low as u16 | (high as u16) << 8u16 == low + 256 * high,
{
}

/// The two bytes of a 16-bit value, the page of an address and its place in the
/// page, in arithmetic.
pub proof fn lemma_address_bits(address: u16)
    by (bit_vector)
    ensures
        address >> 8u16 == address / 256,
        address & 0x00FF == address % 256,
        address & 0xFF00 == 256 * (address / 256),
        address & 0x07FF == address % 0x0800,
        address & 0x3FFF == address % 0x4000,
        address & 0x7FFF == address % 0x8000,
{
}

/// A page and a place in a page put together.
pub proof fn lemma_page_join(page: u16, place: u16)
    by (bit_vector)
    requires
        page & 0x00FF == 0,
        place <= 0x00FF,
    ensures
        page | place == page + place,
{
}

/// Shifting a byte by one bit doubles it, dropping the top bit, or halves it.
pub proof fn lemma_shift_bits(value: u8)
    by (bit_vector)
    ensures
        value < 0x80 ==> value << 1u8 == 2 * value,
        value >= 0x80 ==> value << 1u8 == 2 * value - 256,
        value >> 1u8 == value / 2,
        (value & 1 == 1) == (value % 2 == 1),
        (value & 0x40 != 0) == (value % 128 >= 64),
{
}

/// Rotating a byte takes the carry in at the free end.
pub proof fn lemma_rotate_bits(value: u8, p: u8)
    by (bit_vector)
    ensures
        p & 0x01 != 0 ==> value << 1u8 | p & 0x01 == (value << 1u8) + 1,
        p & 0x01 == 0 ==> value << 1u8 | p & 0x01 == value << 1u8,
        p & 0x01 != 0 ==> value >> 1u8 | (p & 0x01) << 7u8 == value / 2 + 128,
        p & 0x01 == 0 ==> value >> 1u8 | (p & 0x01) << 7u8 == value / 2,
{
}

/// Bit 7 of the result differs from bit 7 of both terms exactly when the two
/// terms have the same sign and the result has the other.
pub proof fn lemma_overflow_bits(a: u8, operand: u8, result: u8)
    by (bit_vector)
    ensures
        ((a ^ result) & (operand ^ result) & 0x80 != 0) == ((a >= 0x80) == (operand >= 0x80) && (
        result >= 0x80) != (a >= 0x80)),
{
}

} // verus!
