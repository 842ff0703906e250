//! Reader for the lines of a reference log: program counter, opcode and operand
//! bytes in hexadecimal, the mnemonic, then the registers as `A:`, `X:`, `Y:`,
//! `P:` and `SP:` in hexadecimal and the cycle count as `CYC:` in decimal.

use vstd::prelude::*;
use vstd::slice::slice_subrange;
use vstd::string::StringSliceAdditionalSpecFns;
use crate::cpu::TraceEntry;
use crate::opcode::Operation;

verus! {

/// The byte that parts the fields of a line.
pub const SPACE: u8 = 0x20;

/// The byte between the name of a register and its value.
pub const COLON: u8 = 0x3A;

/// The value of one digit, in base 10 or 16. Hexadecimal digits may be written
/// in either case.
pub open spec fn digit_value(byte: u8, base: nat) -> Option<nat> {
    if 0x30 <= byte <= 0x39 {
        Some((byte - 0x30) as nat)
    } else if base == 16 && 0x41 <= byte <= 0x46 {
        Some((byte - 0x41 + 10) as nat)
    } else if base == 16 && 0x61 <= byte <= 0x66 {
        Some((byte - 0x61 + 10) as nat)
    } else {
        None
    }
}

/// The number that `text` writes in `base`: one digit or more, and nothing
/// else.
pub open spec fn number(text: Seq<u8>, base: nat) -> Option<nat>
    decreases text.len(),
{
    if text.len() == 0 {
        None
    } else {
        match digit_value(text.last(), base) {
            None => None,
            Some(digit) => if text.len() == 1 {
                Some(digit)
            } else {
                match number(text.drop_last(), base) {
                    Some(front) => Some(front * base + digit),
                    None => None,
                }
            },
        }
    }
}

/// The number that `text` writes in `base`, if it is no more than `bound`.
pub open spec fn bounded(text: Seq<u8>, base: nat, bound: nat) -> Option<nat> {
    match number(text, base) {
        Some(value) => if value <= bound {
            Some(value)
        } else {
            None
        },
        None => None,
    }
}

/// The first place at or behind `from` that holds no space: the start of the
/// next field, or the end of the line.
pub open spec fn field_start(line: Seq<u8>, from: int) -> int
    decreases line.len() - from,
{
    if 0 <= from < line.len() && line[from] == SPACE {
        field_start(line, from + 1)
    } else {
        from
    }
}

/// The first place at or behind `from` that holds a space, or the end of the
/// line: the end of the field that starts at `from`.
pub open spec fn field_end(line: Seq<u8>, from: int) -> int
    decreases line.len() - from,
{
    if 0 <= from < line.len() && line[from] != SPACE {
        field_end(line, from + 1)
    } else {
        from
    }
}

/// A part of a line, from its first place to the place behind its last.
pub struct Field {
    pub start: int,
    pub end: int,
}

impl Field {
    pub open spec fn is_empty(self) -> bool {
        self.start >= self.end
    }

    pub open spec fn text(self, line: Seq<u8>) -> Seq<u8> {
        line.subrange(self.start, self.end)
    }
}

/// The next field at or behind `from`. It is empty where only spaces are left.
pub open spec fn field_at(line: Seq<u8>, from: int) -> Field {
    Field { start: field_start(line, from), end: field_end(line, field_start(line, from)) }
}

/// Whether `text` begins with `key` and a colon.
pub open spec fn has_key(text: Seq<u8>, key: Seq<u8>) -> bool {
    text.len() > key.len() && text.take(key.len() as int) == key && text[key.len() as int]
        == COLON
}

/// The value of a field that is made of `key`, a colon, and a number in
/// `base` that is no more than `bound`.
pub open spec fn keyed(text: Seq<u8>, key: Seq<u8>, base: nat, bound: nat) -> Option<nat> {
    if has_key(text, key) {
        bounded(text.skip((key.len() + 1) as int), base, bound)
    } else {
        None
    }
}

/// The first field at or behind `from` that begins with `key` and a colon.
pub open spec fn find_key(line: Seq<u8>, from: int, key: Seq<u8>) -> Option<Field>
    decreases line.len() - from,
    when 0 <= from <= line.len()
    via find_key_decreases
{
    let field = field_at(line, from);
    if field.is_empty() {
        None
    } else if has_key(field.text(line), key) {
        Some(field)
    } else {
        find_key(line, field.end, key)
    }
}

#[via_fn]
proof fn find_key_decreases(line: Seq<u8>, from: int, key: Seq<u8>) {
    lemma_field_bounds(line, from);
}

/// The last field at or behind `from`. It is empty where only spaces are left.
pub open spec fn last_field(line: Seq<u8>, from: int) -> Field
    decreases line.len() - from,
    when 0 <= from <= line.len()
    via last_field_decreases
{
    let field = field_at(line, from);
    if field.is_empty() {
        field
    } else if last_field(line, field.end).is_empty() {
        field
    } else {
        last_field(line, field.end)
    }
}

#[via_fn]
proof fn last_field_decreases(line: Seq<u8>, from: int) {
    lemma_field_bounds(line, from);
}

/// A field lies behind the place it was looked for from, and inside the line.
pub proof fn lemma_field_bounds(line: Seq<u8>, from: int)
    requires
        0 <= from <= line.len(),
    ensures
        from <= field_at(line, from).start <= field_at(line, from).end <= line.len(),
{
    lemma_start_bounds(line, from);
    lemma_end_bounds(line, field_start(line, from));
}

proof fn lemma_start_bounds(line: Seq<u8>, from: int)
    requires
        0 <= from <= line.len(),
    ensures
        from <= field_start(line, from) <= line.len(),
    decreases line.len() - from,
{
    if from < line.len() && line[from] == SPACE {
        lemma_start_bounds(line, from + 1);
    }
}

proof fn lemma_end_bounds(line: Seq<u8>, from: int)
    requires
        0 <= from <= line.len(),
    ensures
        from <= field_end(line, from) <= line.len(),
    decreases line.len() - from,
{
    if from < line.len() && line[from] != SPACE {
        lemma_end_bounds(line, from + 1);
    }
}

/// What the front of a line of the reference log holds: the program counter,
/// the opcode byte, the operand bytes as one little-endian value, and the
/// operation; `end` is the place behind the mnemonic.
pub struct Head {
    pub pc: u16,
    pub opcode: u8,
    pub operand: Option<u16>,
    pub operation: Operation,
    pub end: int,
}

/// The registers and the cycle count of a line of the reference log.
pub struct Registers {
    pub a: u8,
    pub x: u8,
    pub y: u8,
    pub p: u8,
    pub sp: u8,
    pub cycles: u64,
}

/// What a line of the reference log says.
pub struct Reference {
    pub head: Head,
    pub registers: Registers,
}

/// The byte that a field of two hexadecimal digits writes.
pub open spec fn byte_of(line: Seq<u8>, field: Field) -> Option<nat> {
    bounded(field.text(line), 16, 0xFF)
}

/// The front of a line: the program counter and the opcode in hexadecimal,
/// then the operand bytes, none, one or two fields of two digits each, then
/// the mnemonic of a documented operation.
pub open spec fn head_of(line: Seq<u8>) -> Option<Head> {
    let pc_field = field_at(line, 0);
    let opcode_field = field_at(line, pc_field.end);
    let third = field_at(line, opcode_field.end);
    let fourth = field_at(line, third.end);
    let fifth = field_at(line, fourth.end);
    match (bounded(pc_field.text(line), 16, 0xFFFF), byte_of(line, opcode_field)) {
        (Some(pc), Some(opcode)) => {
            if third.end - third.start != 2 {
                match Operation::named(third.text(line)) {
                    Some(operation) => Some(
                        Head {
                            pc: pc as u16,
                            opcode: opcode as u8,
                            operand: None,
                            operation,
                            end: third.end,
                        },
                    ),
                    None => None,
                }
            } else if fourth.end - fourth.start != 2 {
                match (byte_of(line, third), Operation::named(fourth.text(line))) {
                    (Some(low), Some(operation)) => Some(
                        Head {
                            pc: pc as u16,
                            opcode: opcode as u8,
                            operand: Some(low as u16),
                            operation,
                            end: fourth.end,
                        },
                    ),
                    _ => None,
                }
            } else {
                match (
                    byte_of(line, third),
                    byte_of(line, fourth),
                    Operation::named(fifth.text(line)),
                ) {
                    (Some(low), Some(high), Some(operation)) => Some(
                        Head {
                            pc: pc as u16,
                            opcode: opcode as u8,
                            operand: Some((low + 256 * high) as u16),
                            operation,
                            end: fifth.end,
                        },
                    ),
                    _ => None,
                }
            }
        },
        _ => None,
    }
}

/// The registers of a line, looked for behind `from`: the first field that
/// begins with `A:` and the four fields behind it give A, X, Y, P and SP in
/// hexadecimal; the last field of the line, which is none of these five, gives
/// the cycle count in decimal.
pub open spec fn registers_of(line: Seq<u8>, from: int) -> Option<Registers> {
    match find_key(line, from, "A".spec_bytes()) {
        None => None,
        Some(a_field) => {
            let x_field = field_at(line, a_field.end);
            let y_field = field_at(line, x_field.end);
            let p_field = field_at(line, y_field.end);
            let sp_field = field_at(line, p_field.end);
            let cycles_field = last_field(line, sp_field.end);
            match (
                keyed(a_field.text(line), "A".spec_bytes(), 16, 0xFF),
                keyed(x_field.text(line), "X".spec_bytes(), 16, 0xFF),
                keyed(y_field.text(line), "Y".spec_bytes(), 16, 0xFF),
                keyed(p_field.text(line), "P".spec_bytes(), 16, 0xFF),
                keyed(sp_field.text(line), "SP".spec_bytes(), 16, 0xFF),
                keyed(cycles_field.text(line), "CYC".spec_bytes(), 10, u64::MAX as nat),
            ) {
                (Some(a), Some(x), Some(y), Some(p), Some(sp), Some(cycles)) => Some(
                    Registers {
                        a: a as u8,
                        x: x as u8,
                        y: y as u8,
                        p: p as u8,
                        sp: sp as u8,
                        cycles: cycles as u64,
                    },
                ),
                _ => None,
            }
        },
    }
}

/// What a line of the reference log says, if it is one.
pub open spec fn reference_of(line: Seq<u8>) -> Option<Reference> {
    match head_of(line) {
        None => None,
        Some(head) => match registers_of(line, head.end) {
            None => None,
            Some(registers) => Some(Reference { head, registers }),
        },
    }
}

/// Whether `entry` holds what `reference` says. A line of the log gives no
/// effective address.
pub open spec fn entry_is(entry: TraceEntry, reference: Reference) -> bool {
    &&& entry.opcode == reference.head.opcode
    &&& entry.mnemonic@ == reference.head.operation.name()
    &&& entry.operand == reference.head.operand
    &&& entry.operand_address is None
    &&& entry.pc == reference.head.pc
    &&& entry.a == reference.registers.a
    &&& entry.x == reference.registers.x
    &&& entry.y == reference.registers.y
    &&& entry.p == reference.registers.p
    &&& entry.sp == reference.registers.sp
    &&& entry.cycles == reference.registers.cycles
}

fn digit_of(byte: u8, hex: bool) -> (digit: Option<u8>)
    ensures
        match digit {
            Some(value) => digit_value(byte, base_of(hex)) == Some(value as nat) && value < 16,
            None => digit_value(byte, base_of(hex)) is None,
        },
{
    if 0x30 <= byte && byte <= 0x39 {
        Some(byte - 0x30)
    } else if hex && 0x41 <= byte && byte <= 0x46 {
        Some(byte - 0x41 + 10)
    } else if hex && 0x61 <= byte && byte <= 0x66 {
        Some(byte - 0x61 + 10)
    } else {
        None
    }
}

/// The base of a number: 16 for hexadecimal, else 10.
pub open spec fn base_of(hex: bool) -> nat {
    if hex {
        16
    } else {
        10
    }
}

/// Reads the number that the bytes from `start` to `end` write.
pub fn parse_number(line: &[u8], start: usize, end: usize, hex: bool, bound: u64) -> (value:
    Option<u64>)
    requires
        start <= end <= line@.len(),
    ensures
        match value {
            Some(value) => bounded(
                line@.subrange(start as int, end as int),
                base_of(hex),
                bound as nat,
            ) == Some(value as nat),
            None => bounded(line@.subrange(start as int, end as int), base_of(hex), bound as nat)
                is None,
        },
{
    if start == end {
        return None;
    }
    let ghost base = base_of(hex);
    let mut total: u64 = 0;
    let mut valid = true;
    let mut fits = true;
    let mut index = start;
    while index < end
        invariant
            start <= index <= end <= line@.len(),
            base == base_of(hex),
            index == start ==> valid && fits && total == 0,
            index > start ==> (valid <==> number(
                line@.subrange(start as int, index as int),
                base,
            ) is Some),
            index > start && valid && fits ==> number(
                line@.subrange(start as int, index as int),
                base,
            ) == Some(total as nat) && total <= bound,
            index > start && valid && !fits ==> number(
                line@.subrange(start as int, index as int),
                base,
            ).unwrap() > bound,
        decreases end - index,
    {
        let ghost front = line@.subrange(start as int, index as int);
        let ghost text = line@.subrange(start as int, index + 1);
        assert(text.drop_last() =~= front);
        assert(text.last() == line@[index as int]);
        match digit_of(line[index], hex) {
            None => {
                valid = false;
            },
            Some(digit) => {
                if valid && fits {
                    let wide: u128 = if hex {
                        total as u128 * 16 + digit as u128
                    } else {
                        total as u128 * 10 + digit as u128
                    };
                    if wide > bound as u128 {
                        fits = false;
                    } else {
                        total = wide as u64;
                    }
                }
            },
        }
        index += 1;
    }
    assert(line@.subrange(start as int, index as int) == line@.subrange(start as int, end as int));
    if valid && fits {
        Some(total)
    } else {
        None
    }
}

/// Finds the next field at or behind `from`.
pub fn next_field(line: &[u8], from: usize) -> (field: (usize, usize))
    requires
        from <= line@.len(),
    ensures
        field.0 == field_at(line@, from as int).start,
        field.1 == field_at(line@, from as int).end,
        from <= field.0 <= field.1 <= line@.len(),
{
    let mut start = from;
    while start < line.len() && line[start] == SPACE
        invariant
            from <= start <= line@.len(),
            field_start(line@, start as int) == field_start(line@, from as int),
        decreases line@.len() - start,
    {
        start += 1;
    }
    let mut end = start;
    while end < line.len() && line[end] != SPACE
        invariant
            start <= end <= line@.len(),
            field_end(line@, end as int) == field_end(line@, start as int),
        decreases line@.len() - end,
    {
        end += 1;
    }
    (start, end)
}

/// Tells whether the bytes from `start` to `end` begin with `key` and a colon.
pub fn begins_with_key(line: &[u8], start: usize, end: usize, key: &str) -> (found: bool)
    requires
        start <= end <= line@.len(),
    ensures
        found == has_key(line@.subrange(start as int, end as int), key.spec_bytes()),
{
    let key_bytes = key.as_bytes();
    let length = key_bytes.len();
    let ghost text = line@.subrange(start as int, end as int);
    if end - start <= length {
        return false;
    }
    let mut index: usize = 0;
    while index < length
        invariant
            index <= length,
            length == key_bytes@.len(),
            key_bytes@ == key.spec_bytes(),
            start + length < end <= line@.len(),
            text == line@.subrange(start as int, end as int),
            forall|i: int| 0 <= i < index ==> text[i] == key_bytes@[i],
        decreases length - index,
    {
        if line[start + index] != key_bytes[index] {
            assert(text.take(length as int)[index as int] != key_bytes@[index as int]);
            return false;
        }
        index += 1;
    }
    assert(text.take(length as int) =~= key_bytes@);
    line[start + length] == COLON
}

/// Reads the value of a field that is made of `key`, a colon and a number.
pub fn parse_keyed(line: &[u8], start: usize, end: usize, key: &str, hex: bool, bound: u64) -> (value:
    Option<u64>)
    requires
        start <= end <= line@.len(),
    ensures
        match value {
            Some(value) => keyed(
                line@.subrange(start as int, end as int),
                key.spec_bytes(),
                base_of(hex),
                bound as nat,
            ) == Some(value as nat),
            None => keyed(
                line@.subrange(start as int, end as int),
                key.spec_bytes(),
                base_of(hex),
                bound as nat,
            ) is None,
        },
{
    if !begins_with_key(line, start, end, key) {
        return None;
    }
    let length = key.as_bytes().len();
    assert(line@.subrange(start as int, end as int).skip(length + 1) =~= line@.subrange(
        start + length + 1,
        end as int,
    ));
    parse_number(line, start + length + 1, end, hex, bound)
}

/// Finds the first field at or behind `from` that begins with `key` and a
/// colon.
pub fn seek_key(line: &[u8], from: usize, key: &str) -> (field: Option<(usize, usize)>)
    requires
        from <= line@.len(),
    ensures
        match field {
            Some(field) => find_key(line@, from as int, key.spec_bytes()) == Some(
                Field { start: field.0 as int, end: field.1 as int },
            ) && from <= field.0 <= field.1 <= line@.len(),
            None => find_key(line@, from as int, key.spec_bytes()) is None,
        },
{
    let mut cursor = from;
    loop
        invariant
            from <= cursor <= line@.len(),
            find_key(line@, cursor as int, key.spec_bytes()) == find_key(
                line@,
                from as int,
                key.spec_bytes(),
            ),
        decreases line@.len() - cursor,
    {
        let (start, end) = next_field(line, cursor);
        if start >= end {
            return None;
        }
        if begins_with_key(line, start, end, key) {
            return Some((start, end));
        }
        cursor = end;
    }
}

/// Finds the last field at or behind `from`.
pub fn seek_last_field(line: &[u8], from: usize) -> (field: (usize, usize))
    requires
        from <= line@.len(),
    ensures
        field.0 == last_field(line@, from as int).start,
        field.1 == last_field(line@, from as int).end,
        from <= field.0 <= field.1 <= line@.len(),
{
    let mut last = next_field(line, from);
    if last.0 >= last.1 {
        return last;
    }
    loop
        invariant
            from <= last.0 < last.1 <= line@.len(),
            last.0 == field_at(line@, last.0 as int).start,
            last.1 == field_at(line@, last.0 as int).end,
            last_field(line@, last.0 as int) == last_field(line@, from as int),
        decreases line@.len() - last.0,
    {
        let next = next_field(line, last.1);
        if next.0 >= next.1 {
            assert(last_field(line@, last.1 as int).is_empty());
            assert(last_field(line@, last.0 as int) == field_at(line@, last.0 as int));
            return last;
        }
        proof {
            lemma_field_restarts(line@, last.1 as int);
        }
        last = next;
    }
}

/// A field is found again from its own start.
pub proof fn lemma_field_restarts(line: Seq<u8>, from: int)
    requires
        0 <= from <= line.len(),
    ensures
        field_at(line, field_at(line, from).start) == field_at(line, from),
        last_field(line, field_at(line, from).start) == last_field(line, from),
    decreases line.len() - from,
{
    if from < line.len() && line[from] == SPACE {
        lemma_field_restarts(line, from + 1);
    }
    lemma_field_bounds(line, from);
}

fn parse_head(line: &[u8]) -> (parsed: Option<(u16, u8, Option<u16>, Operation, usize)>)
    ensures
        match parsed {
            Some(parsed) => head_of(line@) == Some(
                Head {
                    pc: parsed.0,
                    opcode: parsed.1,
                    operand: parsed.2,
                    operation: parsed.3,
                    end: parsed.4 as int,
                },
            ) && parsed.4 <= line@.len(),
            None => head_of(line@) is None,
        },
{
    let pc_field = next_field(line, 0);
    let opcode_field = next_field(line, pc_field.1);
    let third = next_field(line, opcode_field.1);
    let fourth = next_field(line, third.1);
    let fifth = next_field(line, fourth.1);
    let pc = match parse_number(line, pc_field.0, pc_field.1, true, 0xFFFF) {
        Some(pc) => pc as u16,
        None => {
            return None;
        },
    };
    let opcode = match parse_number(line, opcode_field.0, opcode_field.1, true, 0xFF) {
        Some(opcode) => opcode as u8,
        None => {
            return None;
        },
    };
    if third.1 - third.0 != 2 {
        return match Operation::from_mnemonic(slice_subrange(line, third.0, third.1)) {
            Some(operation) => Some((pc, opcode, None, operation, third.1)),
            None => None,
        };
    }
    let low = match parse_number(line, third.0, third.1, true, 0xFF) {
        Some(low) => low as u16,
        None => {
            return None;
        },
    };
    if fourth.1 - fourth.0 != 2 {
        return match Operation::from_mnemonic(slice_subrange(line, fourth.0, fourth.1)) {
            Some(operation) => Some((pc, opcode, Some(low), operation, fourth.1)),
            None => None,
        };
    }
    let high = match parse_number(line, fourth.0, fourth.1, true, 0xFF) {
        Some(high) => high as u16,
        None => {
            return None;
        },
    };
    match Operation::from_mnemonic(slice_subrange(line, fifth.0, fifth.1)) {
        Some(operation) => Some((pc, opcode, Some(low + 256 * high), operation, fifth.1)),
        None => None,
    }
}

fn parse_registers(line: &[u8], from: usize) -> (parsed: Option<(u8, u8, u8, u8, u8, u64)>)
    requires
        from <= line@.len(),
    ensures
        match parsed {
            Some(parsed) => registers_of(line@, from as int) == Some(
                Registers {
                    a: parsed.0,
                    x: parsed.1,
                    y: parsed.2,
                    p: parsed.3,
                    sp: parsed.4,
                    cycles: parsed.5,
                },
            ),
            None => registers_of(line@, from as int) is None,
        },
{
    let a_field = match seek_key(line, from, "A") {
        Some(field) => field,
        None => {
            return None;
        },
    };
    let x_field = next_field(line, a_field.1);
    let y_field = next_field(line, x_field.1);
    let p_field = next_field(line, y_field.1);
    let sp_field = next_field(line, p_field.1);
    let cycles_field = seek_last_field(line, sp_field.1);
    let a = parse_keyed(line, a_field.0, a_field.1, "A", true, 0xFF);
    let x = parse_keyed(line, x_field.0, x_field.1, "X", true, 0xFF);
    let y = parse_keyed(line, y_field.0, y_field.1, "Y", true, 0xFF);
    let p = parse_keyed(line, p_field.0, p_field.1, "P", true, 0xFF);
    let sp = parse_keyed(line, sp_field.0, sp_field.1, "SP", true, 0xFF);
    let cycles = parse_keyed(line, cycles_field.0, cycles_field.1, "CYC", false, u64::MAX);
    match (a, x, y, p, sp, cycles) {
        (Some(a), Some(x), Some(y), Some(p), Some(sp), Some(cycles)) => Some(
            (a as u8, x as u8, y as u8, p as u8, sp as u8, cycles),
        ),
        _ => None,
    }
}

/// Reads one line of the reference log. `None` for a line that is none.
pub fn parse_reference_line(line: &[u8]) -> (entry: Option<TraceEntry>)
    ensures
        match entry {
            Some(entry) => reference_of(line@) matches Some(reference) && entry_is(
                entry,
                reference,
            ),
            None => reference_of(line@) is None,
        },
{
    let (pc, opcode, operand, operation, end) = match parse_head(line) {
        Some(head) => head,
        None => {
            return None;
        },
    };
    let (a, x, y, p, sp, cycles) = match parse_registers(line, end) {
        Some(registers) => registers,
        None => {
            return None;
        },
    };
    Some(
        TraceEntry {
            opcode,
            mnemonic: operation.mnemonic().to_string(),
            operand,
            operand_address: None,
            a,
            x,
            y,
            p,
            pc,
            sp,
            cycles,
        },
    )
}

} // verus!
