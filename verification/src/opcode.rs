//! The opcode table: addressing modes, operations, and the instruction that
//! each documented opcode byte selects.

use vstd::prelude::*;

verus! {

/// How an instruction finds the value or the location it works on.
#[derive(Debug, Clone, Copy, PartialEq, Eq, Structural)]
pub enum AddressMode {
    Accumulator,
    Implied,
    Immediate,
    Relative,
    Zeropage,
    ZeropageX,
    ZeropageY,
    Absolute,
    AbsoluteX,
    AbsoluteY,
    Indirect,
    IndirectX,
    IndirectY,
}

impl AddressMode {
    /// Number of operand bytes that follow the opcode byte.
    pub open spec fn operand_len(self) -> nat {
        match self {
            AddressMode::Accumulator | AddressMode::Implied => 0,
            AddressMode::Absolute
            | AddressMode::AbsoluteX
            | AddressMode::AbsoluteY
            | AddressMode::Indirect => 2,
            _ => 1,
        }
    }

    /// Whether resolving the mode yields a location in memory.
    pub open spec fn has_address(self) -> bool {
        match self {
            AddressMode::Accumulator
            | AddressMode::Implied
            | AddressMode::Immediate
            | AddressMode::Relative => false,
            _ => true,
        }
    }

    /// Whether adding the index register can carry into the high byte of the
    /// address.
    pub open spec fn is_indexed_wide(self) -> bool {
        match self {
            AddressMode::AbsoluteX | AddressMode::AbsoluteY | AddressMode::IndirectY => true,
            _ => false,
        }
    }
}

/// The 56 documented operations.
#[derive(Debug, Clone, Copy, PartialEq, Eq, Structural)]
pub enum Operation {
    Adc,
    And,
    Asl,
    Bcc,
    Bcs,
    Beq,
    Bit,
    Bmi,
    Bne,
    Bpl,
    Brk,
    Bvc,
    Bvs,
    Clc,
    Cld,
    Cli,
    Clv,
    Cmp,
    Cpx,
    Cpy,
    Dec,
    Dex,
    Dey,
    Eor,
    Inc,
    Inx,
    Iny,
    Jmp,
    Jsr,
    Lda,
    Ldx,
    Ldy,
    Lsr,
    Nop,
    Ora,
    Pha,
    Php,
    Pla,
    Plp,
    Rol,
    Ror,
    Rti,
    Rts,
    Sbc,
    Sec,
    Sed,
    Sei,
    Sta,
    Stx,
    Sty,
    Tax,
    Tay,
    Tsx,
    Txa,
    Txs,
    Tya,
}

impl Operation {
    /// The three letters by which the operation is written.
    pub open spec fn name(self) -> Seq<char> {
        match self {
            Operation::Adc => "ADC"@,
            Operation::And => "AND"@,
            Operation::Asl => "ASL"@,
            Operation::Bcc => "BCC"@,
            Operation::Bcs => "BCS"@,
            Operation::Beq => "BEQ"@,
            Operation::Bit => "BIT"@,
            Operation::Bmi => "BMI"@,
            Operation::Bne => "BNE"@,
            Operation::Bpl => "BPL"@,
            Operation::Brk => "BRK"@,
            Operation::Bvc => "BVC"@,
            Operation::Bvs => "BVS"@,
            Operation::Clc => "CLC"@,
            Operation::Cld => "CLD"@,
            Operation::Cli => "CLI"@,
            Operation::Clv => "CLV"@,
            Operation::Cmp => "CMP"@,
            Operation::Cpx => "CPX"@,
            Operation::Cpy => "CPY"@,
            Operation::Dec => "DEC"@,
            Operation::Dex => "DEX"@,
            Operation::Dey => "DEY"@,
            Operation::Eor => "EOR"@,
            Operation::Inc => "INC"@,
            Operation::Inx => "INX"@,
            Operation::Iny => "INY"@,
            Operation::Jmp => "JMP"@,
            Operation::Jsr => "JSR"@,
            Operation::Lda => "LDA"@,
            Operation::Ldx => "LDX"@,
            Operation::Ldy => "LDY"@,
            Operation::Lsr => "LSR"@,
            Operation::Nop => "NOP"@,
            Operation::Ora => "ORA"@,
            Operation::Pha => "PHA"@,
            Operation::Php => "PHP"@,
            Operation::Pla => "PLA"@,
            Operation::Plp => "PLP"@,
            Operation::Rol => "ROL"@,
            Operation::Ror => "ROR"@,
            Operation::Rti => "RTI"@,
            Operation::Rts => "RTS"@,
            Operation::Sbc => "SBC"@,
            Operation::Sec => "SEC"@,
            Operation::Sed => "SED"@,
            Operation::Sei => "SEI"@,
            Operation::Sta => "STA"@,
            Operation::Stx => "STX"@,
            Operation::Sty => "STY"@,
            Operation::Tax => "TAX"@,
            Operation::Tay => "TAY"@,
            Operation::Tsx => "TSX"@,
            Operation::Txa => "TXA"@,
            Operation::Txs => "TXS"@,
            Operation::Tya => "TYA"@,
        }
    }

    pub fn mnemonic(&self) -> (text: &'static str)
        ensures
            text@ == self.name(),
    {
        match self {
            Operation::Adc => "ADC",
            Operation::And => "AND",
            Operation::Asl => "ASL",
            Operation::Bcc => "BCC",
            Operation::Bcs => "BCS",
            Operation::Beq => "BEQ",
            Operation::Bit => "BIT",
            Operation::Bmi => "BMI",
            Operation::Bne => "BNE",
            Operation::Bpl => "BPL",
            Operation::Brk => "BRK",
            Operation::Bvc => "BVC",
            Operation::Bvs => "BVS",
            Operation::Clc => "CLC",
            Operation::Cld => "CLD",
            Operation::Cli => "CLI",
            Operation::Clv => "CLV",
            Operation::Cmp => "CMP",
            Operation::Cpx => "CPX",
            Operation::Cpy => "CPY",
            Operation::Dec => "DEC",
            Operation::Dex => "DEX",
            Operation::Dey => "DEY",
            Operation::Eor => "EOR",
            Operation::Inc => "INC",
            Operation::Inx => "INX",
            Operation::Iny => "INY",
            Operation::Jmp => "JMP",
            Operation::Jsr => "JSR",
            Operation::Lda => "LDA",
            Operation::Ldx => "LDX",
            Operation::Ldy => "LDY",
            Operation::Lsr => "LSR",
            Operation::Nop => "NOP",
            Operation::Ora => "ORA",
            Operation::Pha => "PHA",
            Operation::Php => "PHP",
            Operation::Pla => "PLA",
            Operation::Plp => "PLP",
            Operation::Rol => "ROL",
            Operation::Ror => "ROR",
            Operation::Rti => "RTI",
            Operation::Rts => "RTS",
            Operation::Sbc => "SBC",
            Operation::Sec => "SEC",
            Operation::Sed => "SED",
            Operation::Sei => "SEI",
            Operation::Sta => "STA",
            Operation::Stx => "STX",
            Operation::Sty => "STY",
            Operation::Tax => "TAX",
            Operation::Tay => "TAY",
            Operation::Tsx => "TSX",
            Operation::Txa => "TXA",
            Operation::Txs => "TXS",
            Operation::Tya => "TYA",
        }
    }

    /// The operation that is written with the three letters `text`, given as
    /// upper-case ASCII.
    pub open spec fn named(text: Seq<u8>) -> Option<Operation> {
        if text.len() != 3 {
            None
        } else {
            Self::lettered(text[0], text[1], text[2])
        }
    }

    /// The operation that is written with the three given letters.
    pub open spec fn lettered(first: u8, second: u8, third: u8) -> Option<Operation> {
        match (first, second, third) {
            (0x41, 0x44, 0x43) => Some(Operation::Adc),
            (0x41, 0x4E, 0x44) => Some(Operation::And),
            (0x41, 0x53, 0x4C) => Some(Operation::Asl),
            (0x42, 0x43, 0x43) => Some(Operation::Bcc),
            (0x42, 0x43, 0x53) => Some(Operation::Bcs),
            (0x42, 0x45, 0x51) => Some(Operation::Beq),
            (0x42, 0x49, 0x54) => Some(Operation::Bit),
            (0x42, 0x4D, 0x49) => Some(Operation::Bmi),
            (0x42, 0x4E, 0x45) => Some(Operation::Bne),
            (0x42, 0x50, 0x4C) => Some(Operation::Bpl),
            (0x42, 0x52, 0x4B) => Some(Operation::Brk),
            (0x42, 0x56, 0x43) => Some(Operation::Bvc),
            (0x42, 0x56, 0x53) => Some(Operation::Bvs),
            (0x43, 0x4C, 0x43) => Some(Operation::Clc),
            (0x43, 0x4C, 0x44) => Some(Operation::Cld),
            (0x43, 0x4C, 0x49) => Some(Operation::Cli),
            (0x43, 0x4C, 0x56) => Some(Operation::Clv),
            (0x43, 0x4D, 0x50) => Some(Operation::Cmp),
            (0x43, 0x50, 0x58) => Some(Operation::Cpx),
            (0x43, 0x50, 0x59) => Some(Operation::Cpy),
            (0x44, 0x45, 0x43) => Some(Operation::Dec),
            (0x44, 0x45, 0x58) => Some(Operation::Dex),
            (0x44, 0x45, 0x59) => Some(Operation::Dey),
            (0x45, 0x4F, 0x52) => Some(Operation::Eor),
            (0x49, 0x4E, 0x43) => Some(Operation::Inc),
            (0x49, 0x4E, 0x58) => Some(Operation::Inx),
            (0x49, 0x4E, 0x59) => Some(Operation::Iny),
            (0x4A, 0x4D, 0x50) => Some(Operation::Jmp),
            (0x4A, 0x53, 0x52) => Some(Operation::Jsr),
            (0x4C, 0x44, 0x41) => Some(Operation::Lda),
            (0x4C, 0x44, 0x58) => Some(Operation::Ldx),
            (0x4C, 0x44, 0x59) => Some(Operation::Ldy),
            (0x4C, 0x53, 0x52) => Some(Operation::Lsr),
            (0x4E, 0x4F, 0x50) => Some(Operation::Nop),
            (0x4F, 0x52, 0x41) => Some(Operation::Ora),
            (0x50, 0x48, 0x41) => Some(Operation::Pha),
            (0x50, 0x48, 0x50) => Some(Operation::Php),
            (0x50, 0x4C, 0x41) => Some(Operation::Pla),
            (0x50, 0x4C, 0x50) => Some(Operation::Plp),
            (0x52, 0x4F, 0x4C) => Some(Operation::Rol),
            (0x52, 0x4F, 0x52) => Some(Operation::Ror),
            (0x52, 0x54, 0x49) => Some(Operation::Rti),
            (0x52, 0x54, 0x53) => Some(Operation::Rts),
            (0x53, 0x42, 0x43) => Some(Operation::Sbc),
            (0x53, 0x45, 0x43) => Some(Operation::Sec),
            (0x53, 0x45, 0x44) => Some(Operation::Sed),
            (0x53, 0x45, 0x49) => Some(Operation::Sei),
            (0x53, 0x54, 0x41) => Some(Operation::Sta),
            (0x53, 0x54, 0x58) => Some(Operation::Stx),
            (0x53, 0x54, 0x59) => Some(Operation::Sty),
            (0x54, 0x41, 0x58) => Some(Operation::Tax),
            (0x54, 0x41, 0x59) => Some(Operation::Tay),
            (0x54, 0x53, 0x58) => Some(Operation::Tsx),
            (0x54, 0x58, 0x41) => Some(Operation::Txa),
            (0x54, 0x58, 0x53) => Some(Operation::Txs),
            (0x54, 0x59, 0x41) => Some(Operation::Tya),
            _ => None,
        }
    }

    /// Finds the operation that is written with the letters `text`.
    pub fn from_mnemonic(text: &[u8]) -> (operation: Option<Operation>)
        ensures
            operation == Self::named(text@),
    {
        if text.len() != 3 {
            return None;
        }
        match (text[0], text[1], text[2]) {
            (0x41, 0x44, 0x43) => Some(Operation::Adc),
            (0x41, 0x4E, 0x44) => Some(Operation::And),
            (0x41, 0x53, 0x4C) => Some(Operation::Asl),
            (0x42, 0x43, 0x43) => Some(Operation::Bcc),
            (0x42, 0x43, 0x53) => Some(Operation::Bcs),
            (0x42, 0x45, 0x51) => Some(Operation::Beq),
            (0x42, 0x49, 0x54) => Some(Operation::Bit),
            (0x42, 0x4D, 0x49) => Some(Operation::Bmi),
            (0x42, 0x4E, 0x45) => Some(Operation::Bne),
            (0x42, 0x50, 0x4C) => Some(Operation::Bpl),
            (0x42, 0x52, 0x4B) => Some(Operation::Brk),
            (0x42, 0x56, 0x43) => Some(Operation::Bvc),
            (0x42, 0x56, 0x53) => Some(Operation::Bvs),
            (0x43, 0x4C, 0x43) => Some(Operation::Clc),
            (0x43, 0x4C, 0x44) => Some(Operation::Cld),
            (0x43, 0x4C, 0x49) => Some(Operation::Cli),
            (0x43, 0x4C, 0x56) => Some(Operation::Clv),
            (0x43, 0x4D, 0x50) => Some(Operation::Cmp),
            (0x43, 0x50, 0x58) => Some(Operation::Cpx),
            (0x43, 0x50, 0x59) => Some(Operation::Cpy),
            (0x44, 0x45, 0x43) => Some(Operation::Dec),
            (0x44, 0x45, 0x58) => Some(Operation::Dex),
            (0x44, 0x45, 0x59) => Some(Operation::Dey),
            (0x45, 0x4F, 0x52) => Some(Operation::Eor),
            (0x49, 0x4E, 0x43) => Some(Operation::Inc),
            (0x49, 0x4E, 0x58) => Some(Operation::Inx),
            (0x49, 0x4E, 0x59) => Some(Operation::Iny),
            (0x4A, 0x4D, 0x50) => Some(Operation::Jmp),
            (0x4A, 0x53, 0x52) => Some(Operation::Jsr),
            (0x4C, 0x44, 0x41) => Some(Operation::Lda),
            (0x4C, 0x44, 0x58) => Some(Operation::Ldx),
            (0x4C, 0x44, 0x59) => Some(Operation::Ldy),
            (0x4C, 0x53, 0x52) => Some(Operation::Lsr),
            (0x4E, 0x4F, 0x50) => Some(Operation::Nop),
            (0x4F, 0x52, 0x41) => Some(Operation::Ora),
            (0x50, 0x48, 0x41) => Some(Operation::Pha),
            (0x50, 0x48, 0x50) => Some(Operation::Php),
            (0x50, 0x4C, 0x41) => Some(Operation::Pla),
            (0x50, 0x4C, 0x50) => Some(Operation::Plp),
            (0x52, 0x4F, 0x4C) => Some(Operation::Rol),
            (0x52, 0x4F, 0x52) => Some(Operation::Ror),
            (0x52, 0x54, 0x49) => Some(Operation::Rti),
            (0x52, 0x54, 0x53) => Some(Operation::Rts),
            (0x53, 0x42, 0x43) => Some(Operation::Sbc),
            (0x53, 0x45, 0x43) => Some(Operation::Sec),
            (0x53, 0x45, 0x44) => Some(Operation::Sed),
            (0x53, 0x45, 0x49) => Some(Operation::Sei),
            (0x53, 0x54, 0x41) => Some(Operation::Sta),
            (0x53, 0x54, 0x58) => Some(Operation::Stx),
            (0x53, 0x54, 0x59) => Some(Operation::Sty),
            (0x54, 0x41, 0x58) => Some(Operation::Tax),
            (0x54, 0x41, 0x59) => Some(Operation::Tay),
            (0x54, 0x53, 0x58) => Some(Operation::Tsx),
            (0x54, 0x58, 0x41) => Some(Operation::Txa),
            (0x54, 0x58, 0x53) => Some(Operation::Txs),
            (0x54, 0x59, 0x41) => Some(Operation::Tya),
            _ => None,
        }
    }

    /// Operations that only read the value they are given.
    pub open spec fn reads_value(self) -> bool {
        match self {
            Operation::Adc
            | Operation::And
            | Operation::Bit
            | Operation::Cmp
            | Operation::Cpx
            | Operation::Cpy
            | Operation::Eor
            | Operation::Lda
            | Operation::Ldx
            | Operation::Ldy
            | Operation::Ora
            | Operation::Sbc => true,
            _ => false,
        }
    }

    /// Shifts and rotates: they read a value and write the result back, to
    /// memory or to the accumulator.
    pub open spec fn shifts(self) -> bool {
        match self {
            Operation::Asl | Operation::Lsr | Operation::Rol | Operation::Ror => true,
            _ => false,
        }
    }

    /// Operations that write to a location in memory.
    pub open spec fn writes_memory(self) -> bool {
        match self {
            Operation::Inc
            | Operation::Dec
            | Operation::Sta
            | Operation::Stx
            | Operation::Sty => true,
            _ => false,
        }
    }

    pub open spec fn is_branch(self) -> bool {
        match self {
            Operation::Bcc
            | Operation::Bcs
            | Operation::Beq
            | Operation::Bmi
            | Operation::Bne
            | Operation::Bpl
            | Operation::Bvc
            | Operation::Bvs => true,
            _ => false,
        }
    }

    /// Operations that load the program counter from somewhere else than the
    /// byte after the instruction.
    pub open spec fn transfers_control(self) -> bool {
        match self {
            Operation::Jmp | Operation::Jsr | Operation::Rts | Operation::Rti | Operation::Brk => true,
            _ => false,
        }
    }

    /// Whether the operation can work with what `mode` resolves to.
    pub open spec fn accepts(self, mode: AddressMode) -> bool {
        if self.reads_value() {
            mode == AddressMode::Immediate || mode.has_address()
        } else if self.shifts() {
            mode == AddressMode::Accumulator || mode.has_address()
        } else if self.writes_memory() || self == Operation::Jmp || self == Operation::Jsr {
            mode.has_address()
        } else if self.is_branch() {
            mode == AddressMode::Relative
        } else {
            mode == AddressMode::Implied
        }
    }
}

/// One slot of the opcode table.
#[derive(Debug, Clone, Copy, PartialEq, Eq, Structural)]
pub struct Instruction {
    pub opcode: u8,
    pub operation: Operation,
    /// Cycles that the instruction takes before any penalty.
    pub cycles: u8,
    pub address_mode: AddressMode,
    /// Whether crossing a page while resolving the operand costs one more cycle.
    pub check_page_cross: bool,
}

/// Most cycles that one instruction can take, penalties included.
pub const MAX_INSTRUCTION_CYCLES: u8 = 8;

/// The opcode table: the instruction that each documented opcode byte selects.
#[verifier::opaque]
pub open spec fn instruction_for(opcode: u8) -> Option<Instruction> {
    match opcode {
        0x00 => slot(0x00, Operation::Brk, 8, AddressMode::Implied, false),
        0x01 => slot(0x01, Operation::Ora, 6, AddressMode::IndirectX, false),
        0x05 => slot(0x05, Operation::Ora, 3, AddressMode::Zeropage, false),
        0x06 => slot(0x06, Operation::Asl, 5, AddressMode::Zeropage, false),
        0x08 => slot(0x08, Operation::Php, 3, AddressMode::Implied, false),
        0x09 => slot(0x09, Operation::Ora, 2, AddressMode::Immediate, false),
        0x0A => slot(0x0A, Operation::Asl, 2, AddressMode::Accumulator, false),
        0x0D => slot(0x0D, Operation::Ora, 4, AddressMode::Absolute, false),
        0x0E => slot(0x0E, Operation::Asl, 6, AddressMode::Absolute, false),
        0x10 => slot(0x10, Operation::Bpl, 2, AddressMode::Relative, false),
        0x11 => slot(0x11, Operation::Ora, 5, AddressMode::IndirectY, true),
        0x15 => slot(0x15, Operation::Ora, 4, AddressMode::ZeropageX, false),
        0x16 => slot(0x16, Operation::Asl, 6, AddressMode::ZeropageX, false),
        0x18 => slot(0x18, Operation::Clc, 2, AddressMode::Implied, false),
        0x19 => slot(0x19, Operation::Ora, 4, AddressMode::AbsoluteY, true),
        0x1D => slot(0x1D, Operation::Ora, 4, AddressMode::AbsoluteX, true),
        0x1E => slot(0x1E, Operation::Asl, 7, AddressMode::AbsoluteX, false),
        0x20 => slot(0x20, Operation::Jsr, 6, AddressMode::Absolute, false),
        0x21 => slot(0x21, Operation::And, 6, AddressMode::IndirectX, false),
        0x24 => slot(0x24, Operation::Bit, 3, AddressMode::Zeropage, false),
        0x25 => slot(0x25, Operation::And, 3, AddressMode::Zeropage, false),
        0x26 => slot(0x26, Operation::Rol, 5, AddressMode::Zeropage, false),
        0x28 => slot(0x28, Operation::Plp, 4, AddressMode::Implied, false),
        0x29 => slot(0x29, Operation::And, 2, AddressMode::Immediate, false),
        0x2A => slot(0x2A, Operation::Rol, 2, AddressMode::Accumulator, false),
        0x2C => slot(0x2C, Operation::Bit, 4, AddressMode::Absolute, false),
        0x2D => slot(0x2D, Operation::And, 4, AddressMode::Absolute, false),
        0x2E => slot(0x2E, Operation::Rol, 6, AddressMode::Absolute, false),
        0x30 => slot(0x30, Operation::Bmi, 2, AddressMode::Relative, false),
        0x31 => slot(0x31, Operation::And, 5, AddressMode::IndirectY, true),
        0x35 => slot(0x35, Operation::And, 4, AddressMode::ZeropageX, false),
        0x36 => slot(0x36, Operation::Rol, 6, AddressMode::ZeropageX, false),
        0x38 => slot(0x38, Operation::Sec, 2, AddressMode::Implied, false),
        0x39 => slot(0x39, Operation::And, 4, AddressMode::AbsoluteY, true),
        0x3D => slot(0x3D, Operation::And, 4, AddressMode::AbsoluteX, true),
        0x3E => slot(0x3E, Operation::Rol, 7, AddressMode::AbsoluteX, false),
        0x40 => slot(0x40, Operation::Rti, 6, AddressMode::Implied, false),
        0x41 => slot(0x41, Operation::Eor, 6, AddressMode::IndirectX, false),
        0x45 => slot(0x45, Operation::Eor, 3, AddressMode::Zeropage, false),
        0x46 => slot(0x46, Operation::Lsr, 5, AddressMode::Zeropage, false),
        0x48 => slot(0x48, Operation::Pha, 3, AddressMode::Implied, false),
        0x49 => slot(0x49, Operation::Eor, 2, AddressMode::Immediate, false),
        0x4A => slot(0x4A, Operation::Lsr, 2, AddressMode::Accumulator, false),
        0x4C => slot(0x4C, Operation::Jmp, 3, AddressMode::Absolute, false),
        0x4D => slot(0x4D, Operation::Eor, 4, AddressMode::Absolute, false),
        0x4E => slot(0x4E, Operation::Lsr, 6, AddressMode::Absolute, false),
        0x50 => slot(0x50, Operation::Bvc, 2, AddressMode::Relative, false),
        0x51 => slot(0x51, Operation::Eor, 5, AddressMode::IndirectY, true),
        0x55 => slot(0x55, Operation::Eor, 4, AddressMode::ZeropageX, false),
        0x56 => slot(0x56, Operation::Lsr, 6, AddressMode::ZeropageX, false),
        0x58 => slot(0x58, Operation::Cli, 2, AddressMode::Implied, false),
        0x59 => slot(0x59, Operation::Eor, 4, AddressMode::AbsoluteY, true),
        0x5D => slot(0x5D, Operation::Eor, 4, AddressMode::AbsoluteX, true),
        0x5E => slot(0x5E, Operation::Lsr, 7, AddressMode::AbsoluteX, false),
        0x60 => slot(0x60, Operation::Rts, 6, AddressMode::Implied, false),
        0x61 => slot(0x61, Operation::Adc, 6, AddressMode::IndirectX, false),
        0x65 => slot(0x65, Operation::Adc, 3, AddressMode::Zeropage, false),
        0x66 => slot(0x66, Operation::Ror, 5, AddressMode::Zeropage, false),
        0x68 => slot(0x68, Operation::Pla, 4, AddressMode::Implied, false),
        0x69 => slot(0x69, Operation::Adc, 2, AddressMode::Immediate, false),
        0x6A => slot(0x6A, Operation::Ror, 2, AddressMode::Accumulator, false),
        0x6C => slot(0x6C, Operation::Jmp, 5, AddressMode::Indirect, false),
        0x6D => slot(0x6D, Operation::Adc, 4, AddressMode::Absolute, false),
        0x6E => slot(0x6E, Operation::Ror, 6, AddressMode::Absolute, false),
        0x70 => slot(0x70, Operation::Bvs, 2, AddressMode::Relative, false),
        0x71 => slot(0x71, Operation::Adc, 5, AddressMode::IndirectY, true),
        0x75 => slot(0x75, Operation::Adc, 4, AddressMode::ZeropageX, false),
        0x76 => slot(0x76, Operation::Ror, 6, AddressMode::ZeropageX, false),
        0x78 => slot(0x78, Operation::Sei, 2, AddressMode::Implied, false),
        0x79 => slot(0x79, Operation::Adc, 4, AddressMode::AbsoluteY, true),
        0x7D => slot(0x7D, Operation::Adc, 4, AddressMode::AbsoluteX, true),
        0x7E => slot(0x7E, Operation::Ror, 7, AddressMode::AbsoluteX, false),
        0x81 => slot(0x81, Operation::Sta, 6, AddressMode::IndirectX, false),
        0x84 => slot(0x84, Operation::Sty, 3, AddressMode::Zeropage, false),
        0x85 => slot(0x85, Operation::Sta, 3, AddressMode::Zeropage, false),
        0x86 => slot(0x86, Operation::Stx, 3, AddressMode::Zeropage, false),
        0x88 => slot(0x88, Operation::Dey, 2, AddressMode::Implied, false),
        0x8A => slot(0x8A, Operation::Txa, 2, AddressMode::Implied, false),
        0x8C => slot(0x8C, Operation::Sty, 4, AddressMode::Absolute, false),
        0x8D => slot(0x8D, Operation::Sta, 4, AddressMode::Absolute, false),
        0x8E => slot(0x8E, Operation::Stx, 4, AddressMode::Absolute, false),
        0x90 => slot(0x90, Operation::Bcc, 2, AddressMode::Relative, false),
        0x91 => slot(0x91, Operation::Sta, 6, AddressMode::IndirectY, false),
        0x94 => slot(0x94, Operation::Sty, 4, AddressMode::ZeropageX, false),
        0x95 => slot(0x95, Operation::Sta, 4, AddressMode::ZeropageX, false),
        0x96 => slot(0x96, Operation::Stx, 4, AddressMode::ZeropageY, false),
        0x98 => slot(0x98, Operation::Tya, 2, AddressMode::Implied, false),
        0x99 => slot(0x99, Operation::Sta, 5, AddressMode::AbsoluteY, false),
        0x9A => slot(0x9A, Operation::Txs, 2, AddressMode::Implied, false),
        0x9D => slot(0x9D, Operation::Sta, 5, AddressMode::AbsoluteX, false),
        0xA0 => slot(0xA0, Operation::Ldy, 2, AddressMode::Immediate, false),
        0xA1 => slot(0xA1, Operation::Lda, 6, AddressMode::IndirectX, false),
        0xA2 => slot(0xA2, Operation::Ldx, 2, AddressMode::Immediate, false),
        0xA4 => slot(0xA4, Operation::Ldy, 3, AddressMode::Zeropage, false),
        0xA5 => slot(0xA5, Operation::Lda, 3, AddressMode::Zeropage, false),
        0xA6 => slot(0xA6, Operation::Ldx, 3, AddressMode::Zeropage, false),
        0xA8 => slot(0xA8, Operation::Tay, 2, AddressMode::Implied, false),
        0xA9 => slot(0xA9, Operation::Lda, 2, AddressMode::Immediate, false),
        0xAA => slot(0xAA, Operation::Tax, 2, AddressMode::Implied, false),
        0xAC => slot(0xAC, Operation::Ldy, 4, AddressMode::Absolute, false),
        0xAD => slot(0xAD, Operation::Lda, 4, AddressMode::Absolute, false),
        0xAE => slot(0xAE, Operation::Ldx, 4, AddressMode::Absolute, false),
        0xB0 => slot(0xB0, Operation::Bcs, 2, AddressMode::Relative, false),
        0xB1 => slot(0xB1, Operation::Lda, 5, AddressMode::IndirectY, true),
        0xB4 => slot(0xB4, Operation::Ldy, 4, AddressMode::ZeropageX, false),
        0xB5 => slot(0xB5, Operation::Lda, 4, AddressMode::ZeropageX, false),
        0xB6 => slot(0xB6, Operation::Ldx, 4, AddressMode::ZeropageY, false),
        0xB8 => slot(0xB8, Operation::Clv, 2, AddressMode::Implied, false),
        0xB9 => slot(0xB9, Operation::Lda, 4, AddressMode::AbsoluteY, true),
        0xBA => slot(0xBA, Operation::Tsx, 2, AddressMode::Implied, false),
        0xBC => slot(0xBC, Operation::Ldy, 4, AddressMode::AbsoluteX, true),
        0xBD => slot(0xBD, Operation::Lda, 4, AddressMode::AbsoluteX, true),
        0xBE => slot(0xBE, Operation::Ldx, 4, AddressMode::AbsoluteY, true),
        0xC0 => slot(0xC0, Operation::Cpy, 2, AddressMode::Immediate, false),
        0xC1 => slot(0xC1, Operation::Cmp, 6, AddressMode::IndirectX, false),
        0xC4 => slot(0xC4, Operation::Cpy, 3, AddressMode::Zeropage, false),
        0xC5 => slot(0xC5, Operation::Cmp, 3, AddressMode::Zeropage, false),
        0xC6 => slot(0xC6, Operation::Dec, 5, AddressMode::Zeropage, false),
        0xC8 => slot(0xC8, Operation::Iny, 2, AddressMode::Implied, false),
        0xC9 => slot(0xC9, Operation::Cmp, 2, AddressMode::Immediate, false),
        0xCA => slot(0xCA, Operation::Dex, 2, AddressMode::Implied, false),
        0xCC => slot(0xCC, Operation::Cpy, 4, AddressMode::Absolute, false),
        0xCD => slot(0xCD, Operation::Cmp, 4, AddressMode::Absolute, false),
        0xCE => slot(0xCE, Operation::Dec, 6, AddressMode::Absolute, false),
        0xD0 => slot(0xD0, Operation::Bne, 2, AddressMode::Relative, false),
        0xD1 => slot(0xD1, Operation::Cmp, 5, AddressMode::IndirectY, true),
        0xD5 => slot(0xD5, Operation::Cmp, 4, AddressMode::ZeropageX, false),
        0xD6 => slot(0xD6, Operation::Dec, 6, AddressMode::ZeropageX, false),
        0xD8 => slot(0xD8, Operation::Cld, 2, AddressMode::Implied, false),
        0xD9 => slot(0xD9, Operation::Cmp, 4, AddressMode::AbsoluteY, true),
        0xDD => slot(0xDD, Operation::Cmp, 4, AddressMode::AbsoluteX, true),
        0xDE => slot(0xDE, Operation::Dec, 7, AddressMode::AbsoluteX, false),
        0xE0 => slot(0xE0, Operation::Cpx, 2, AddressMode::Immediate, false),
        0xE1 => slot(0xE1, Operation::Sbc, 6, AddressMode::IndirectX, false),
        0xE4 => slot(0xE4, Operation::Cpx, 3, AddressMode::Zeropage, false),
        0xE5 => slot(0xE5, Operation::Sbc, 3, AddressMode::Zeropage, false),
        0xE6 => slot(0xE6, Operation::Inc, 5, AddressMode::Zeropage, false),
        0xE8 => slot(0xE8, Operation::Inx, 2, AddressMode::Implied, false),
        0xE9 => slot(0xE9, Operation::Sbc, 2, AddressMode::Immediate, false),
        0xEA => slot(0xEA, Operation::Nop, 2, AddressMode::Implied, false),
        0xEC => slot(0xEC, Operation::Cpx, 4, AddressMode::Absolute, false),
        0xED => slot(0xED, Operation::Sbc, 4, AddressMode::Absolute, false),
        0xEE => slot(0xEE, Operation::Inc, 6, AddressMode::Absolute, false),
        0xF0 => slot(0xF0, Operation::Beq, 2, AddressMode::Relative, false),
        0xF1 => slot(0xF1, Operation::Sbc, 5, AddressMode::IndirectY, true),
        0xF5 => slot(0xF5, Operation::Sbc, 4, AddressMode::ZeropageX, false),
        0xF6 => slot(0xF6, Operation::Inc, 6, AddressMode::ZeropageX, false),
        0xF8 => slot(0xF8, Operation::Sed, 2, AddressMode::Implied, false),
        0xF9 => slot(0xF9, Operation::Sbc, 4, AddressMode::AbsoluteY, true),
        0xFD => slot(0xFD, Operation::Sbc, 4, AddressMode::AbsoluteX, true),
        0xFE => slot(0xFE, Operation::Inc, 7, AddressMode::AbsoluteX, false),
        _ => None,
    }
}

/// A filled slot of the table.
pub open spec fn slot(
    opcode: u8,
    operation: Operation,
    cycles: u8,
    address_mode: AddressMode,
    check_page_cross: bool,
) -> Option<Instruction> {
    Some(Instruction { opcode, operation, cycles, address_mode, check_page_cross })
}

fn filled(
    opcode: u8,
    operation: Operation,
    cycles: u8,
    address_mode: AddressMode,
    check_page_cross: bool,
) -> (entry: Option<Instruction>)
    ensures
        entry == slot(opcode, operation, cycles, address_mode, check_page_cross),
{
    Some(Instruction { opcode, operation, cycles, address_mode, check_page_cross })
}

/// Looks an opcode byte up in the table. `None` for a byte that is no documented
/// opcode.
pub fn decode(opcode: u8) -> (entry: Option<Instruction>)
    ensures
        entry == instruction_for(opcode),
{
    reveal(instruction_for);
    match opcode {
        0x00 => filled(0x00, Operation::Brk, 8, AddressMode::Implied, false),
        0x01 => filled(0x01, Operation::Ora, 6, AddressMode::IndirectX, false),
        0x05 => filled(0x05, Operation::Ora, 3, AddressMode::Zeropage, false),
        0x06 => filled(0x06, Operation::Asl, 5, AddressMode::Zeropage, false),
        0x08 => filled(0x08, Operation::Php, 3, AddressMode::Implied, false),
        0x09 => filled(0x09, Operation::Ora, 2, AddressMode::Immediate, false),
        0x0A => filled(0x0A, Operation::Asl, 2, AddressMode::Accumulator, false),
        0x0D => filled(0x0D, Operation::Ora, 4, AddressMode::Absolute, false),
        0x0E => filled(0x0E, Operation::Asl, 6, AddressMode::Absolute, false),
        0x10 => filled(0x10, Operation::Bpl, 2, AddressMode::Relative, false),
        0x11 => filled(0x11, Operation::Ora, 5, AddressMode::IndirectY, true),
        0x15 => filled(0x15, Operation::Ora, 4, AddressMode::ZeropageX, false),
        0x16 => filled(0x16, Operation::Asl, 6, AddressMode::ZeropageX, false),
        0x18 => filled(0x18, Operation::Clc, 2, AddressMode::Implied, false),
        0x19 => filled(0x19, Operation::Ora, 4, AddressMode::AbsoluteY, true),
        0x1D => filled(0x1D, Operation::Ora, 4, AddressMode::AbsoluteX, true),
        0x1E => filled(0x1E, Operation::Asl, 7, AddressMode::AbsoluteX, false),
        0x20 => filled(0x20, Operation::Jsr, 6, AddressMode::Absolute, false),
        0x21 => filled(0x21, Operation::And, 6, AddressMode::IndirectX, false),
        0x24 => filled(0x24, Operation::Bit, 3, AddressMode::Zeropage, false),
        0x25 => filled(0x25, Operation::And, 3, AddressMode::Zeropage, false),
        0x26 => filled(0x26, Operation::Rol, 5, AddressMode::Zeropage, false),
        0x28 => filled(0x28, Operation::Plp, 4, AddressMode::Implied, false),
        0x29 => filled(0x29, Operation::And, 2, AddressMode::Immediate, false),
        0x2A => filled(0x2A, Operation::Rol, 2, AddressMode::Accumulator, false),
        0x2C => filled(0x2C, Operation::Bit, 4, AddressMode::Absolute, false),
        0x2D => filled(0x2D, Operation::And, 4, AddressMode::Absolute, false),
        0x2E => filled(0x2E, Operation::Rol, 6, AddressMode::Absolute, false),
        0x30 => filled(0x30, Operation::Bmi, 2, AddressMode::Relative, false),
        0x31 => filled(0x31, Operation::And, 5, AddressMode::IndirectY, true),
        0x35 => filled(0x35, Operation::And, 4, AddressMode::ZeropageX, false),
        0x36 => filled(0x36, Operation::Rol, 6, AddressMode::ZeropageX, false),
        0x38 => filled(0x38, Operation::Sec, 2, AddressMode::Implied, false),
        0x39 => filled(0x39, Operation::And, 4, AddressMode::AbsoluteY, true),
        0x3D => filled(0x3D, Operation::And, 4, AddressMode::AbsoluteX, true),
        0x3E => filled(0x3E, Operation::Rol, 7, AddressMode::AbsoluteX, false),
        0x40 => filled(0x40, Operation::Rti, 6, AddressMode::Implied, false),
        0x41 => filled(0x41, Operation::Eor, 6, AddressMode::IndirectX, false),
        0x45 => filled(0x45, Operation::Eor, 3, AddressMode::Zeropage, false),
        0x46 => filled(0x46, Operation::Lsr, 5, AddressMode::Zeropage, false),
        0x48 => filled(0x48, Operation::Pha, 3, AddressMode::Implied, false),
        0x49 => filled(0x49, Operation::Eor, 2, AddressMode::Immediate, false),
        0x4A => filled(0x4A, Operation::Lsr, 2, AddressMode::Accumulator, false),
        0x4C => filled(0x4C, Operation::Jmp, 3, AddressMode::Absolute, false),
        0x4D => filled(0x4D, Operation::Eor, 4, AddressMode::Absolute, false),
        0x4E => filled(0x4E, Operation::Lsr, 6, AddressMode::Absolute, false),
        0x50 => filled(0x50, Operation::Bvc, 2, AddressMode::Relative, false),
        0x51 => filled(0x51, Operation::Eor, 5, AddressMode::IndirectY, true),
        0x55 => filled(0x55, Operation::Eor, 4, AddressMode::ZeropageX, false),
        0x56 => filled(0x56, Operation::Lsr, 6, AddressMode::ZeropageX, false),
        0x58 => filled(0x58, Operation::Cli, 2, AddressMode::Implied, false),
        0x59 => filled(0x59, Operation::Eor, 4, AddressMode::AbsoluteY, true),
        0x5D => filled(0x5D, Operation::Eor, 4, AddressMode::AbsoluteX, true),
        0x5E => filled(0x5E, Operation::Lsr, 7, AddressMode::AbsoluteX, false),
        0x60 => filled(0x60, Operation::Rts, 6, AddressMode::Implied, false),
        0x61 => filled(0x61, Operation::Adc, 6, AddressMode::IndirectX, false),
        0x65 => filled(0x65, Operation::Adc, 3, AddressMode::Zeropage, false),
        0x66 => filled(0x66, Operation::Ror, 5, AddressMode::Zeropage, false),
        0x68 => filled(0x68, Operation::Pla, 4, AddressMode::Implied, false),
        0x69 => filled(0x69, Operation::Adc, 2, AddressMode::Immediate, false),
        0x6A => filled(0x6A, Operation::Ror, 2, AddressMode::Accumulator, false),
        0x6C => filled(0x6C, Operation::Jmp, 5, AddressMode::Indirect, false),
        0x6D => filled(0x6D, Operation::Adc, 4, AddressMode::Absolute, false),
        0x6E => filled(0x6E, Operation::Ror, 6, AddressMode::Absolute, false),
        0x70 => filled(0x70, Operation::Bvs, 2, AddressMode::Relative, false),
        0x71 => filled(0x71, Operation::Adc, 5, AddressMode::IndirectY, true),
        0x75 => filled(0x75, Operation::Adc, 4, AddressMode::ZeropageX, false),
        0x76 => filled(0x76, Operation::Ror, 6, AddressMode::ZeropageX, false),
        0x78 => filled(0x78, Operation::Sei, 2, AddressMode::Implied, false),
        0x79 => filled(0x79, Operation::Adc, 4, AddressMode::AbsoluteY, true),
        0x7D => filled(0x7D, Operation::Adc, 4, AddressMode::AbsoluteX, true),
        0x7E => filled(0x7E, Operation::Ror, 7, AddressMode::AbsoluteX, false),
        0x81 => filled(0x81, Operation::Sta, 6, AddressMode::IndirectX, false),
        0x84 => filled(0x84, Operation::Sty, 3, AddressMode::Zeropage, false),
        0x85 => filled(0x85, Operation::Sta, 3, AddressMode::Zeropage, false),
        0x86 => filled(0x86, Operation::Stx, 3, AddressMode::Zeropage, false),
        0x88 => filled(0x88, Operation::Dey, 2, AddressMode::Implied, false),
        0x8A => filled(0x8A, Operation::Txa, 2, AddressMode::Implied, false),
        0x8C => filled(0x8C, Operation::Sty, 4, AddressMode::Absolute, false),
        0x8D => filled(0x8D, Operation::Sta, 4, AddressMode::Absolute, false),
        0x8E => filled(0x8E, Operation::Stx, 4, AddressMode::Absolute, false),
        0x90 => filled(0x90, Operation::Bcc, 2, AddressMode::Relative, false),
        0x91 => filled(0x91, Operation::Sta, 6, AddressMode::IndirectY, false),
        0x94 => filled(0x94, Operation::Sty, 4, AddressMode::ZeropageX, false),
        0x95 => filled(0x95, Operation::Sta, 4, AddressMode::ZeropageX, false),
        0x96 => filled(0x96, Operation::Stx, 4, AddressMode::ZeropageY, false),
        0x98 => filled(0x98, Operation::Tya, 2, AddressMode::Implied, false),
        0x99 => filled(0x99, Operation::Sta, 5, AddressMode::AbsoluteY, false),
        0x9A => filled(0x9A, Operation::Txs, 2, AddressMode::Implied, false),
        0x9D => filled(0x9D, Operation::Sta, 5, AddressMode::AbsoluteX, false),
        0xA0 => filled(0xA0, Operation::Ldy, 2, AddressMode::Immediate, false),
        0xA1 => filled(0xA1, Operation::Lda, 6, AddressMode::IndirectX, false),
        0xA2 => filled(0xA2, Operation::Ldx, 2, AddressMode::Immediate, false),
        0xA4 => filled(0xA4, Operation::Ldy, 3, AddressMode::Zeropage, false),
        0xA5 => filled(0xA5, Operation::Lda, 3, AddressMode::Zeropage, false),
        0xA6 => filled(0xA6, Operation::Ldx, 3, AddressMode::Zeropage, false),
        0xA8 => filled(0xA8, Operation::Tay, 2, AddressMode::Implied, false),
        0xA9 => filled(0xA9, Operation::Lda, 2, AddressMode::Immediate, false),
        0xAA => filled(0xAA, Operation::Tax, 2, AddressMode::Implied, false),
        0xAC => filled(0xAC, Operation::Ldy, 4, AddressMode::Absolute, false),
        0xAD => filled(0xAD, Operation::Lda, 4, AddressMode::Absolute, false),
        0xAE => filled(0xAE, Operation::Ldx, 4, AddressMode::Absolute, false),
        0xB0 => filled(0xB0, Operation::Bcs, 2, AddressMode::Relative, false),
        0xB1 => filled(0xB1, Operation::Lda, 5, AddressMode::IndirectY, true),
        0xB4 => filled(0xB4, Operation::Ldy, 4, AddressMode::ZeropageX, false),
        0xB5 => filled(0xB5, Operation::Lda, 4, AddressMode::ZeropageX, false),
        0xB6 => filled(0xB6, Operation::Ldx, 4, AddressMode::ZeropageY, false),
        0xB8 => filled(0xB8, Operation::Clv, 2, AddressMode::Implied, false),
        0xB9 => filled(0xB9, Operation::Lda, 4, AddressMode::AbsoluteY, true),
        0xBA => filled(0xBA, Operation::Tsx, 2, AddressMode::Implied, false),
        0xBC => filled(0xBC, Operation::Ldy, 4, AddressMode::AbsoluteX, true),
        0xBD => filled(0xBD, Operation::Lda, 4, AddressMode::AbsoluteX, true),
        0xBE => filled(0xBE, Operation::Ldx, 4, AddressMode::AbsoluteY, true),
        0xC0 => filled(0xC0, Operation::Cpy, 2, AddressMode::Immediate, false),
        0xC1 => filled(0xC1, Operation::Cmp, 6, AddressMode::IndirectX, false),
        0xC4 => filled(0xC4, Operation::Cpy, 3, AddressMode::Zeropage, false),
        0xC5 => filled(0xC5, Operation::Cmp, 3, AddressMode::Zeropage, false),
        0xC6 => filled(0xC6, Operation::Dec, 5, AddressMode::Zeropage, false),
        0xC8 => filled(0xC8, Operation::Iny, 2, AddressMode::Implied, false),
        0xC9 => filled(0xC9, Operation::Cmp, 2, AddressMode::Immediate, false),
        0xCA => filled(0xCA, Operation::Dex, 2, AddressMode::Implied, false),
        0xCC => filled(0xCC, Operation::Cpy, 4, AddressMode::Absolute, false),
        0xCD => filled(0xCD, Operation::Cmp, 4, AddressMode::Absolute, false),
        0xCE => filled(0xCE, Operation::Dec, 6, AddressMode::Absolute, false),
        0xD0 => filled(0xD0, Operation::Bne, 2, AddressMode::Relative, false),
        0xD1 => filled(0xD1, Operation::Cmp, 5, AddressMode::IndirectY, true),
        0xD5 => filled(0xD5, Operation::Cmp, 4, AddressMode::ZeropageX, false),
        0xD6 => filled(0xD6, Operation::Dec, 6, AddressMode::ZeropageX, false),
        0xD8 => filled(0xD8, Operation::Cld, 2, AddressMode::Implied, false),
        0xD9 => filled(0xD9, Operation::Cmp, 4, AddressMode::AbsoluteY, true),
        0xDD => filled(0xDD, Operation::Cmp, 4, AddressMode::AbsoluteX, true),
        0xDE => filled(0xDE, Operation::Dec, 7, AddressMode::AbsoluteX, false),
        0xE0 => filled(0xE0, Operation::Cpx, 2, AddressMode::Immediate, false),
        0xE1 => filled(0xE1, Operation::Sbc, 6, AddressMode::IndirectX, false),
        0xE4 => filled(0xE4, Operation::Cpx, 3, AddressMode::Zeropage, false),
        0xE5 => filled(0xE5, Operation::Sbc, 3, AddressMode::Zeropage, false),
        0xE6 => filled(0xE6, Operation::Inc, 5, AddressMode::Zeropage, false),
        0xE8 => filled(0xE8, Operation::Inx, 2, AddressMode::Implied, false),
        0xE9 => filled(0xE9, Operation::Sbc, 2, AddressMode::Immediate, false),
        0xEA => filled(0xEA, Operation::Nop, 2, AddressMode::Implied, false),
        0xEC => filled(0xEC, Operation::Cpx, 4, AddressMode::Absolute, false),
        0xED => filled(0xED, Operation::Sbc, 4, AddressMode::Absolute, false),
        0xEE => filled(0xEE, Operation::Inc, 6, AddressMode::Absolute, false),
        0xF0 => filled(0xF0, Operation::Beq, 2, AddressMode::Relative, false),
        0xF1 => filled(0xF1, Operation::Sbc, 5, AddressMode::IndirectY, true),
        0xF5 => filled(0xF5, Operation::Sbc, 4, AddressMode::ZeropageX, false),
        0xF6 => filled(0xF6, Operation::Inc, 6, AddressMode::ZeropageX, false),
        0xF8 => filled(0xF8, Operation::Sed, 2, AddressMode::Implied, false),
        0xF9 => filled(0xF9, Operation::Sbc, 4, AddressMode::AbsoluteY, true),
        0xFD => filled(0xFD, Operation::Sbc, 4, AddressMode::AbsoluteX, true),
        0xFE => filled(0xFE, Operation::Inc, 7, AddressMode::AbsoluteX, false),
        _ => None,
    }
}

/// Every filled slot carries its own opcode byte, pairs its operation with a
/// mode that the operation accepts, and takes between 2 and 8 cycles.
pub proof fn lemma_table_is_consistent(opcode: u8)
    ensures
        instruction_for(opcode) matches Some(entry) ==> {
            &&& entry.opcode == opcode
            &&& entry.operation.accepts(entry.address_mode)
            &&& 2 <= entry.cycles <= MAX_INSTRUCTION_CYCLES
        },
{
    reveal(instruction_for);
}

/// Crossing a page costs a cycle exactly for the operations that only read
/// their value through a mode whose index can carry into the high byte.
pub proof fn lemma_page_penalty(opcode: u8)
    ensures
        instruction_for(opcode) matches Some(entry) ==> (entry.check_page_cross <==> (
            entry.operation.reads_value() && entry.address_mode.is_indexed_wide())),
{
    reveal(instruction_for);
}

/// A slot that charges for crossing a page takes 4 or 5 cycles before that;
/// a branch takes 2, has a relative operand and is not charged by the table.
pub proof fn lemma_penalty_slots(opcode: u8)
    ensures
        instruction_for(opcode) matches Some(entry) ==> {
            &&& entry.check_page_cross ==> entry.cycles <= 5
            &&& entry.operation.is_branch() ==> entry.cycles == 2 && !entry.check_page_cross
                && entry.address_mode == AddressMode::Relative
        },
{
    reveal(instruction_for);
}

} // verus!
