//! The text of a trace line.

use vstd::prelude::*;
use vstd::string::StrSliceExecFns;
use vstd::string::StringExecFns;
use crate::cpu::TraceEntry;

verus! {

/// Width of the mnemonic column of a trace line.
pub const MNEMONIC_WIDTH: usize = 4;

/// Width of the operand column of a trace line.
pub const OPERAND_WIDTH: usize = 8;

/// The digit for a value below 16, in upper case.
pub open spec fn hex_digit(value: nat) -> Seq<char>
    recommends
        value < 16,
{
    if value == 0 {
        "0"@
    } else if value == 1 {
        "1"@
    } else if value == 2 {
        "2"@
    } else if value == 3 {
        "3"@
    } else if value == 4 {
        "4"@
    } else if value == 5 {
        "5"@
    } else if value == 6 {
        "6"@
    } else if value == 7 {
        "7"@
    } else if value == 8 {
        "8"@
    } else if value == 9 {
        "9"@
    } else if value == 10 {
        "A"@
    } else if value == 11 {
        "B"@
    } else if value == 12 {
        "C"@
    } else if value == 13 {
        "D"@
    } else if value == 14 {
        "E"@
    } else {
        "F"@
    }
}

/// `value` in decimal.
pub open spec fn decimal(value: nat) -> Seq<char>
    decreases value,
{
    if value < 10 {
        hex_digit(value)
    } else {
        decimal(value / 10) + hex_digit(value % 10)
    }
}

/// `value` in hexadecimal, with zeros in front up to `width` digits.
pub open spec fn hex_padded(value: nat, width: nat) -> Seq<char>
    decreases value + width,
{
    if value < 16 && width <= 1 {
        hex_digit(value)
    } else {
        hex_padded(
            value / 16,
            if width > 0 {
                (width - 1) as nat
            } else {
                0
            },
        ) + hex_digit(value % 16)
    }
}

/// `piece` written `count` times.
pub open spec fn repeated(piece: Seq<char>, count: nat) -> Seq<char>
    decreases count,
{
    if count == 0 {
        Seq::empty()
    } else {
        repeated(piece, (count - 1) as nat) + piece
    }
}

/// `text` with spaces behind it up to `width` characters.
pub open spec fn left_aligned(text: Seq<char>, width: nat) -> Seq<char> {
    if text.len() < width {
        text + repeated(" "@, (width - text.len()) as nat)
    } else {
        text
    }
}

/// A 32-bit signed value as the unsigned value with the same bits.
pub open spec fn as_unsigned(value: i32) -> nat {
    if value < 0 {
        (value + 0x1_0000_0000) as nat
    } else {
        value as nat
    }
}

/// The operand column: the operand bytes where there are any, else the
/// effective address, else nothing.
pub open spec fn operand_text(operand: Option<u16>, address: Option<i32>) -> Seq<char> {
    match operand {
        Some(bytes) => hex_padded(bytes as nat, 2),
        None => match address {
            Some(location) => hex_padded(as_unsigned(location), 4),
            None => Seq::empty(),
        },
    }
}

/// The line that stands for `entry` in a trace.
pub open spec fn line_of(entry: TraceEntry) -> Seq<char> {
    hex_padded(entry.pc as nat, 4) + " "@ + hex_padded(entry.opcode as nat, 2) + " "@
        + left_aligned(entry.mnemonic@, MNEMONIC_WIDTH as nat) + " "@ + left_aligned(
        operand_text(entry.operand, entry.operand_address),
        OPERAND_WIDTH as nat,
    ) + " A="@ + hex_padded(entry.a as nat, 2) + " X="@ + hex_padded(entry.x as nat, 2) + " Y="@
        + hex_padded(entry.y as nat, 2) + " P="@ + hex_padded(entry.p as nat, 2) + " SP="@
        + hex_padded(entry.sp as nat, 2) + " CYC="@ + decimal(entry.cycles as nat)
}

fn digit_text(value: u64) -> (text: &'static str)
    requires
        value < 16,
    ensures
        text@ == hex_digit(value as nat),
{
    if value == 0 {
        "0"
    } else if value == 1 {
        "1"
    } else if value == 2 {
        "2"
    } else if value == 3 {
        "3"
    } else if value == 4 {
        "4"
    } else if value == 5 {
        "5"
    } else if value == 6 {
        "6"
    } else if value == 7 {
        "7"
    } else if value == 8 {
        "8"
    } else if value == 9 {
        "9"
    } else if value == 10 {
        "A"
    } else if value == 11 {
        "B"
    } else if value == 12 {
        "C"
    } else if value == 13 {
        "D"
    } else if value == 14 {
        "E"
    } else {
        "F"
    }
}

/// Appends `value` in decimal.
pub fn push_decimal(out: &mut String, value: u64)
    ensures
        final(out)@ == old(out)@ + decimal(value as nat),
    decreases value,
{
    if value >= 10 {
        push_decimal(out, value / 10);
        out.append(digit_text(value % 10));
        assert(out@ =~= old(out)@ + decimal(value as nat));
    } else {
        out.append(digit_text(value));
    }
}

/// Appends `value` in hexadecimal with at least `width` digits.
pub fn push_hex(out: &mut String, value: u64, width: usize)
    ensures
        final(out)@ == old(out)@ + hex_padded(value as nat, width as nat),
    decreases value + width,
{
    if value < 16 && width <= 1 {
        out.append(digit_text(value));
    } else {
        let rest: usize = if width > 0 {
            width - 1
        } else {
            0
        };
        push_hex(out, value / 16, rest);
        out.append(digit_text(value % 16));
        assert(out@ =~= old(out)@ + hex_padded(value as nat, width as nat));
    }
}

/// Appends `piece` `count` times.
pub fn push_repeated(out: &mut String, piece: &str, count: usize)
    ensures
        final(out)@ == old(out)@ + repeated(piece@, count as nat),
{
    let mut done: usize = 0;
    assert(out@ =~= old(out)@ + repeated(piece@, 0));
    while done < count
        invariant
            done <= count,
            out@ == old(out)@ + repeated(piece@, done as nat),
        decreases count - done,
    {
        out.append(piece);
        done += 1;
        assert(out@ =~= old(out)@ + repeated(piece@, done as nat));
    }
}

/// Appends `text` and then spaces up to `width` characters.
pub fn push_left_aligned(out: &mut String, text: &str, width: usize)
    ensures
        final(out)@ == old(out)@ + left_aligned(text@, width as nat),
{
    let length = text.unicode_len();
    out.append(text);
    if length < width {
        push_repeated(out, " ", width - length);
        assert(out@ =~= old(out)@ + left_aligned(text@, width as nat));
    }
}

fn unsigned_of(value: i32) -> (bits: u64)
    ensures
        bits == as_unsigned(value),
{
    if value < 0 {
        (value as i64 + 0x1_0000_0000) as u64
    } else {
        value as u64
    }
}

/// The text of the operand column.
pub fn operand_column(operand: Option<u16>, address: Option<i32>) -> (text: String)
    ensures
        text@ == operand_text(operand, address),
{
    let mut text = String::new();
    match operand {
        Some(bytes) => {
            push_hex(&mut text, bytes as u64, 2);
        },
        None => match address {
            Some(location) => {
                push_hex(&mut text, unsigned_of(location), 4);
            },
            None => {},
        },
    }
    assert(text@ =~= operand_text(operand, address));
    text
}

impl TraceEntry {
    /// The entry as one line of a trace: program counter, opcode, mnemonic and
    /// operand, then the registers in hexadecimal and the cycle count in
    /// decimal.
    pub fn line(&self) -> (text: String)
        ensures
            text@ == line_of(*self),
    {
        let mut text = String::new();
        push_hex(&mut text, self.pc as u64, 4);
        text.append(" ");
        push_hex(&mut text, self.opcode as u64, 2);
        text.append(" ");
        push_left_aligned(&mut text, self.mnemonic.as_str(), MNEMONIC_WIDTH);
        text.append(" ");
        let operand = operand_column(self.operand, self.operand_address);
        push_left_aligned(&mut text, operand.as_str(), OPERAND_WIDTH);
        text.append(" A=");
        push_hex(&mut text, self.a as u64, 2);
        text.append(" X=");
        push_hex(&mut text, self.x as u64, 2);
        text.append(" Y=");
        push_hex(&mut text, self.y as u64, 2);
        text.append(" P=");
        push_hex(&mut text, self.p as u64, 2);
        text.append(" SP=");
        push_hex(&mut text, self.sp as u64, 2);
        text.append(" CYC=");
        push_decimal(&mut text, self.cycles);
        assert(text@ =~= line_of(*self));
        text
    }
}

} // verus!
