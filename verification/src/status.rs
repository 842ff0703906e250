//! The status register: its eight flags and how they are set and cleared.

use vstd::prelude::*;

verus! {

pub const CARRY_FLAG: u8 = 0x01;

pub const ZERO_FLAG: u8 = 0x02;

pub const INTERRUPT_FLAG: u8 = 0x04;

pub const DECIMAL_FLAG: u8 = 0x08;

pub const BREAK_FLAG: u8 = 0x10;

pub const UNUSED_FLAG: u8 = 0x20;

pub const OVERFLOW_FLAG: u8 = 0x40;

pub const NEGATIVE_FLAG: u8 = 0x80;

/// Whether any bit of `flag` is set in the status byte `p`.
pub open spec fn flag_set(p: u8, flag: u8) -> bool {
    p & flag != 0
}

/// The status byte `p` with the bits of `flag` set or cleared.
pub open spec fn with_flag(p: u8, flag: u8, on: bool) -> u8 {
    if on {
        p | flag
    } else {
        p & !flag
    }
}

/// The status byte `p` with Zero and Negative taken from `data`.
pub open spec fn with_nz(p: u8, data: u8) -> u8 {
    with_flag(with_flag(p, ZERO_FLAG, data == 0), NEGATIVE_FLAG, data >= 0x80)
}

/// The status byte that is loaded from a byte taken off the stack: Break
/// cleared, Unused set.
pub open spec fn pulled_status(data: u8) -> u8 {
    data & !BREAK_FLAG | UNUSED_FLAG
}

/// The carry as a number to add.
pub open spec fn carry_in(p: u8) -> int {
    if flag_set(p, CARRY_FLAG) {
        1
    } else {
        0
    }
}

/// Whether `flag` is exactly one of the eight bits of the status byte.
pub open spec fn is_single_flag(flag: u8) -> bool {
    flag == CARRY_FLAG || flag == ZERO_FLAG || flag == INTERRUPT_FLAG || flag == DECIMAL_FLAG
        || flag == BREAK_FLAG || flag == UNUSED_FLAG || flag == OVERFLOW_FLAG || flag
        == NEGATIVE_FLAG
}

/// Setting or clearing one flag gives that flag the asked value and leaves each
/// other flag as it was.
pub proof fn lemma_with_flag(p: u8, flag: u8, on: bool, other: u8)
    requires
        is_single_flag(flag),
        is_single_flag(other),
    ensures
        flag_set(with_flag(p, flag, on), flag) == on,
        other != flag ==> flag_set(with_flag(p, flag, on), other) == flag_set(p, other),
{
    lemma_flag_bits(p, flag, other);
}

proof fn lemma_flag_bits(p: u8, flag: u8, other: u8)
    by (bit_vector)
    requires
        flag == 0x01 || flag == 0x02 || flag == 0x04 || flag == 0x08 || flag == 0x10 || flag
            == 0x20 || flag == 0x40 || flag == 0x80,
        other == 0x01 || other == 0x02 || other == 0x04 || other == 0x08 || other == 0x10
            || other == 0x20 || other == 0x40 || other == 0x80,
    ensures
        (p | flag) & flag != 0,
        (p & !flag) & flag == 0,
        other != flag ==> ((p | flag) & other != 0) == (p & other != 0),
        other != flag ==> ((p & !flag) & other != 0) == (p & other != 0),
{
}

/// The same for every status byte and every pair of flags at once.
pub proof fn lemma_flags()
    ensures
        forall|p: u8, flag: u8, on: bool, other: u8|
            is_single_flag(flag) && is_single_flag(other) ==> #[trigger] flag_set(
                with_flag(p, flag, on),
                other,
            ) == (if other == flag {
                on
            } else {
                flag_set(p, other)
            }),
{
    assert forall|p: u8, flag: u8, on: bool, other: u8|
        is_single_flag(flag) && is_single_flag(other) implies #[trigger] flag_set(
        with_flag(p, flag, on),
        other,
    ) == (if other == flag {
        on
    } else {
        flag_set(p, other)
    }) by {
        lemma_with_flag(p, flag, on, other);
    }
}

/// Zero and Negative follow the data; the six other flags stay.
pub proof fn lemma_with_nz(p: u8, data: u8, other: u8)
    requires
        is_single_flag(other),
    ensures
        flag_set(with_nz(p, data), ZERO_FLAG) == (data == 0),
        flag_set(with_nz(p, data), NEGATIVE_FLAG) == (data >= 0x80),
        other != ZERO_FLAG && other != NEGATIVE_FLAG ==> flag_set(with_nz(p, data), other)
            == flag_set(p, other),
{
    let q = with_flag(p, ZERO_FLAG, data == 0);
    lemma_with_flag(p, ZERO_FLAG, data == 0, other);
    lemma_with_flag(p, ZERO_FLAG, data == 0, NEGATIVE_FLAG);
    lemma_with_flag(p, ZERO_FLAG, data == 0, ZERO_FLAG);
    lemma_with_flag(q, NEGATIVE_FLAG, data >= 0x80, other);
    lemma_with_flag(q, NEGATIVE_FLAG, data >= 0x80, ZERO_FLAG);
    lemma_with_flag(q, NEGATIVE_FLAG, data >= 0x80, NEGATIVE_FLAG);
}

/// A status byte loaded from the stack has Unused set and Break clear, and each
/// other flag as the byte has it.
pub proof fn lemma_pulled_status(data: u8, other: u8)
    requires
        is_single_flag(other),
    ensures
        flag_set(pulled_status(data), UNUSED_FLAG),
        !flag_set(pulled_status(data), BREAK_FLAG),
        other != UNUSED_FLAG && other != BREAK_FLAG ==> flag_set(pulled_status(data), other)
            == flag_set(data, other),
{
    lemma_flag_bits(data, BREAK_FLAG, other);
    lemma_flag_bits(data & !BREAK_FLAG, UNUSED_FLAG, other);
    lemma_flag_bits(data & !BREAK_FLAG, UNUSED_FLAG, BREAK_FLAG);
    lemma_flag_bits(data, BREAK_FLAG, BREAK_FLAG);
}

/// The status byte after a reset is 0x24: Interrupt-disable and Unused are set
/// and nothing else.
pub proof fn lemma_reset_status()
    by (bit_vector)
    ensures
        0x04u8 | 0x20u8 == 0x24u8,
        0x24u8 & 0x20u8 != 0,
        0x24u8 & 0x04u8 != 0,
        0x24u8 & 0x01u8 == 0,
        0x24u8 & 0x02u8 == 0,
        0x24u8 & 0x08u8 == 0,
        0x24u8 & 0x10u8 == 0,
        0x24u8 & 0x40u8 == 0,
        0x24u8 & 0x80u8 == 0,
{
}

} // verus!
