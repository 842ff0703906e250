//! The model of the processor and its memory as plain values: what every
//! addressing mode resolves to, what every operation does, and what one
//! instruction comes to.

use vstd::prelude::*;
use crate::bus::BusState;
use crate::cpu::TraceEntry;
use crate::opcode::AddressMode;
use crate::opcode::Instruction;
use crate::opcode::MAX_INSTRUCTION_CYCLES;
use crate::opcode::Operation;
use crate::opcode::instruction_for;
use crate::status::BREAK_FLAG;
use crate::status::CARRY_FLAG;
use crate::status::DECIMAL_FLAG;
use crate::status::INTERRUPT_FLAG;
use crate::status::NEGATIVE_FLAG;
use crate::status::OVERFLOW_FLAG;
use crate::status::UNUSED_FLAG;
use crate::status::ZERO_FLAG;
use crate::status::carry_in;
use crate::status::flag_set;
use crate::status::pulled_status;
use crate::status::with_flag;
use crate::status::with_nz;

verus! {

/// Page of memory that holds the stack.
pub const STACK_BASE_ADDR: u16 = 0x0100;

pub const NMI_VECTOR_ADDR: u16 = 0xFFFA;

pub const RESET_VECTOR_ADDR: u16 = 0xFFFC;

pub const IRQ_VECTOR_ADDR: u16 = 0xFFFE;

/// The effective address that stands for the accumulator.
pub const ACCUMULATOR_ADDR: i32 = -1;

/// Stack pointer after a reset.
pub const RESET_STACK_POINTER: u8 = 0xFD;

/// Cycle count after a reset.
pub const RESET_CYCLES: u64 = 7;

/// `value` reduced to eight bits.
pub open spec fn wrap8(value: int) -> u8 {
    (value % 0x100) as u8
}

/// `value` reduced to sixteen bits.
pub open spec fn wrap16(value: int) -> u16 {
    (value % 0x1_0000) as u16
}

/// The 16-bit value with the given low and high byte.
pub open spec fn word(low: u8, high: u8) -> u16 {
    low as u16 | (high as u16) << 8
}

pub open spec fn high_byte(value: u16) -> u8 {
    (value >> 8) as u8
}

pub open spec fn low_byte(value: u16) -> u8 {
    (value & 0x00FF) as u8
}

/// Whether two addresses lie in different pages.
pub open spec fn page_crossed(address1: u16, address2: u16) -> bool {
    address1 & 0xFF00 != address2 & 0xFF00
}

/// The address after `address` within the same page: the last byte of a page is
/// followed by the first byte of that page.
pub open spec fn next_in_page(address: u16) -> u16 {
    (address & 0xFF00) | (wrap16(address + 1) & 0x00FF)
}

/// The address of the stack slot that the stack pointer selects.
pub open spec fn stack_address(sp: u8) -> u16 {
    STACK_BASE_ADDR | sp as u16
}

/// The operand byte of a branch as a signed distance.
pub open spec fn branch_offset(operand: u8) -> int {
    if operand >= 0x80 {
        operand - 0x100
    } else {
        operand as int
    }
}

/// Where a taken branch goes: the distance is added to the address of the next
/// instruction.
pub open spec fn branch_target(pc: u16, operand: u8) -> u16 {
    wrap16(pc + branch_offset(operand))
}

/// Bit 7 of the sum differs from bit 7 of both terms.
pub open spec fn signed_overflow(a: u8, operand: u8, result: u8) -> bool {
    (a ^ result) & (operand ^ result) & 0x80 != 0
}

/// What resolving an addressing mode yields: the operand bytes as they were
/// read, the effective address, and whether indexing left the page.
pub struct Resolved {
    pub operand: Option<u16>,
    pub address: Option<i32>,
    pub page_crossed: bool,
}

/// The processor with its memory, as plain values.
pub struct CpuState {
    pub a: u8,
    pub x: u8,
    pub y: u8,
    pub p: u8,
    pub sp: u8,
    pub pc: u16,
    pub bus: BusState,
    /// Cycles that the instruction under way has added on its own account.
    pub curr_cycles: u8,
    pub total_cycles: u64,
    /// The operand bytes of the last instruction, as they were read.
    pub operand: Option<u16>,
    /// The effective address of the last instruction.
    pub operand_address: Option<i32>,
    pub address_mode: AddressMode,
    pub is_page_crossed: bool,
}

impl CpuState {
    pub open spec fn wf(self) -> bool {
        self.bus.wf()
    }

    /// The state of a processor that was just made around `bus`.
    pub open spec fn initial(bus: BusState) -> CpuState {
        CpuState {
            a: 0,
            x: 0,
            y: 0,
            p: 0,
            sp: 0,
            pc: 0,
            bus,
            curr_cycles: 0,
            total_cycles: 0,
            operand: None,
            operand_address: None,
            address_mode: AddressMode::Implied,
            is_page_crossed: false,
        }
    }

    /// The state after a reset, with the program counter from `pc` or, without
    /// one, from the reset vector.
    pub open spec fn reset(self, pc: Option<u16>) -> CpuState {
        CpuState {
            a: 0,
            x: 0,
            y: 0,
            sp: RESET_STACK_POINTER,
            total_cycles: RESET_CYCLES,
            p: INTERRUPT_FLAG | UNUSED_FLAG,
            pc: match pc {
                Some(address) => address,
                None => self.read_word(RESET_VECTOR_ADDR),
            },
            ..self
        }
    }

    pub open spec fn read(self, address: u16) -> u8 {
        self.bus.read(address)
    }

    pub open spec fn written(self, address: u16, data: u8) -> CpuState {
        CpuState { bus: self.bus.write(address, data), ..self }
    }

    /// The little-endian word at `address`.
    pub open spec fn read_word(self, address: u16) -> u16 {
        word(self.read(address), self.read(wrap16(address + 1)))
    }

    /// The little-endian word at `address` whose high byte is taken from the
    /// same page as its low byte.
    pub open spec fn read_word_in_page(self, address: u16) -> u16 {
        word(self.read(address), self.read(next_in_page(address)))
    }

    pub open spec fn advanced(self, count: int) -> CpuState {
        CpuState { pc: wrap16(self.pc + count), ..self }
    }

    // Addressing modes. The program counter points at the first operand byte.

    pub open spec fn resolved_immediate(self) -> Resolved {
        Resolved {
            operand: Some(self.read(self.pc) as u16),
            address: None,
            page_crossed: self.is_page_crossed,
        }
    }

    pub open spec fn resolved_zeropage(self, index: u8) -> Resolved {
        let base = self.read(self.pc);
        Resolved {
            operand: Some(base as u16),
            address: Some(wrap8(base + index) as i32),
            page_crossed: self.is_page_crossed,
        }
    }

    pub open spec fn resolved_absolute(self, index: u8) -> Resolved {
        let base = self.read_word(self.pc);
        let effective = wrap16(base + index);
        Resolved {
            operand: Some(base),
            address: Some(effective as i32),
            page_crossed: page_crossed(base, effective),
        }
    }

    pub open spec fn resolved_indirect(self) -> Resolved {
        let pointer = self.read_word(self.pc);
        Resolved {
            operand: Some(pointer),
            address: Some(self.read_word_in_page(pointer) as i32),
            page_crossed: self.is_page_crossed,
        }
    }

    pub open spec fn resolved_indirect_x(self) -> Resolved {
        let base = self.read(self.pc);
        let pointer = wrap8(base + self.x);
        Resolved {
            operand: Some(base as u16),
            address: Some(self.read_word_in_page(pointer as u16) as i32),
            page_crossed: self.is_page_crossed,
        }
    }

    pub open spec fn resolved_indirect_y(self) -> Resolved {
        let pointer = self.read(self.pc);
        let base = self.read_word_in_page(pointer as u16);
        let effective = wrap16(base + self.y);
        Resolved {
            operand: Some(pointer as u16),
            address: Some(effective as i32),
            page_crossed: page_crossed(base, effective),
        }
    }

    /// What `mode` resolves to in this state.
    #[verifier::opaque]
    pub open spec fn resolved(self, mode: AddressMode) -> Resolved {
        match mode {
            AddressMode::Accumulator => Resolved {
                operand: None,
                address: Some(ACCUMULATOR_ADDR),
                page_crossed: self.is_page_crossed,
            },
            AddressMode::Implied => Resolved {
                operand: None,
                address: None,
                page_crossed: self.is_page_crossed,
            },
            AddressMode::Immediate => self.resolved_immediate(),
            AddressMode::Relative => self.resolved_immediate(),
            AddressMode::Zeropage => self.resolved_zeropage(0),
            AddressMode::ZeropageX => self.resolved_zeropage(self.x),
            AddressMode::ZeropageY => self.resolved_zeropage(self.y),
            AddressMode::Absolute => self.resolved_absolute(0),
            AddressMode::AbsoluteX => self.resolved_absolute(self.x),
            AddressMode::AbsoluteY => self.resolved_absolute(self.y),
            AddressMode::Indirect => self.resolved_indirect(),
            AddressMode::IndirectX => self.resolved_indirect_x(),
            AddressMode::IndirectY => self.resolved_indirect_y(),
        }
    }

    /// The state after the operand bytes of `mode` were read: the program
    /// counter is past them and the page flag is as the mode leaves it.
    pub open spec fn fetched(self, mode: AddressMode) -> CpuState {
        CpuState {
            is_page_crossed: self.resolved(mode).page_crossed,
            ..self.advanced(mode.operand_len() as int)
        }
    }

    /// The state after `mode` was resolved and the result was kept for the
    /// operation.
    pub open spec fn resolve(self, mode: AddressMode) -> CpuState {
        CpuState {
            operand: self.resolved(mode).operand,
            operand_address: self.resolved(mode).address,
            address_mode: mode,
            ..self.fetched(mode)
        }
    }

    // What the operation is given.

    /// Whether the resolved operand yields a byte: the accumulator, a byte of
    /// memory, or the operand byte itself.
    pub open spec fn has_value(self) -> bool {
        match self.operand_address {
            Some(address) => ACCUMULATOR_ADDR <= address <= 0xFFFF,
            None => self.operand matches Some(literal) && literal <= 0xFF,
        }
    }

    /// Whether the resolved operand names a location in memory.
    pub open spec fn has_address(self) -> bool {
        self.operand_address matches Some(address) && 0 <= address <= 0xFFFF
    }

    /// Whether a result can be written back at `address`: to the accumulator in
    /// accumulator mode, else to a location in memory.
    pub open spec fn can_store(self, address: Option<i32>) -> bool {
        self.address_mode == AddressMode::Accumulator || (address matches Some(location) && 0
            <= location <= 0xFFFF)
    }

    /// Whether the result of the operation can be written back.
    pub open spec fn has_target(self) -> bool {
        self.can_store(self.operand_address)
    }

    /// The value that the operation works on.
    pub open spec fn operand_value(self) -> u16 {
        match self.operand_address {
            Some(address) => if address == ACCUMULATOR_ADDR {
                self.a as u16
            } else {
                self.read(address as u16) as u16
            },
            None => self.operand.unwrap(),
        }
    }

    pub open spec fn operand_byte(self) -> u8 {
        self.operand_value() as u8
    }

    /// The location that the operation works on.
    pub open spec fn target(self) -> u16 {
        self.operand_address.unwrap() as u16
    }

    /// The state after `data` was written at `address`: to the accumulator in
    /// accumulator mode, else to memory.
    pub open spec fn stored_at(self, address: Option<i32>, data: u8) -> CpuState {
        if self.address_mode == AddressMode::Accumulator {
            CpuState { a: data, ..self }
        } else {
            self.written(address.unwrap() as u16, data)
        }
    }

    /// The state after the operation wrote `data` back.
    pub open spec fn stored(self, data: u8) -> CpuState {
        self.stored_at(self.operand_address, data)
    }

    // Stack.

    pub open spec fn pushed(self, data: u8) -> CpuState {
        CpuState { sp: wrap8(self.sp - 1), ..self.written(stack_address(self.sp), data) }
    }

    /// The byte that a pop takes off the stack.
    pub open spec fn top(self) -> u8 {
        self.read(stack_address(wrap8(self.sp + 1)))
    }

    pub open spec fn popped(self) -> CpuState {
        CpuState { sp: wrap8(self.sp + 1), ..self }
    }

    // Status.

    pub open spec fn flagged(self, flag: u8, on: bool) -> CpuState {
        CpuState { p: with_flag(self.p, flag, on), ..self }
    }

    pub open spec fn nz_from(self, data: u8) -> CpuState {
        CpuState { p: with_nz(self.p, data), ..self }
    }

    // Operations.

    pub open spec fn brk(self) -> CpuState {
        let return_addr = wrap16(self.pc + 1);
        let saved = self.pushed(high_byte(return_addr)).pushed(low_byte(return_addr)).pushed(
            self.p | BREAK_FLAG,
        );
        CpuState { pc: saved.read_word(IRQ_VECTOR_ADDR), ..saved.flagged(INTERRUPT_FLAG, true) }
    }

    pub open spec fn php(self) -> CpuState {
        self.pushed(self.p | BREAK_FLAG)
    }

    pub open spec fn plp(self) -> CpuState {
        CpuState { p: pulled_status(self.top()), ..self.popped() }
    }

    pub open spec fn pha(self) -> CpuState {
        self.pushed(self.a)
    }

    pub open spec fn pla(self) -> CpuState {
        CpuState { a: self.top(), ..self.popped() }.nz_from(self.top())
    }

    pub open spec fn clc(self) -> CpuState {
        self.flagged(CARRY_FLAG, false)
    }

    pub open spec fn sec(self) -> CpuState {
        self.flagged(CARRY_FLAG, true)
    }

    pub open spec fn cli(self) -> CpuState {
        self.flagged(INTERRUPT_FLAG, false)
    }

    pub open spec fn sei(self) -> CpuState {
        self.flagged(INTERRUPT_FLAG, true)
    }

    pub open spec fn clv(self) -> CpuState {
        self.flagged(OVERFLOW_FLAG, false)
    }

    pub open spec fn cld(self) -> CpuState {
        self.flagged(DECIMAL_FLAG, false)
    }

    pub open spec fn sed(self) -> CpuState {
        self.flagged(DECIMAL_FLAG, true)
    }

    pub open spec fn bit(self) -> CpuState {
        let operand = self.operand_byte();
        self.flagged(ZERO_FLAG, self.a & operand == 0).flagged(
            OVERFLOW_FLAG,
            operand & 0x40 != 0,
        ).flagged(NEGATIVE_FLAG, operand >= 0x80)
    }

    pub open spec fn rol(self) -> CpuState {
        let operand = self.operand_byte();
        let rotated = operand << 1 | self.p & CARRY_FLAG;
        self.flagged(CARRY_FLAG, operand >= 0x80).nz_from(rotated).stored(rotated)
    }

    pub open spec fn ror(self) -> CpuState {
        let operand = self.operand_byte();
        let rotated = operand >> 1 | (self.p & CARRY_FLAG) << 7;
        self.flagged(CARRY_FLAG, operand & 1 == 1).nz_from(rotated).stored(rotated)
    }

    pub open spec fn asl(self) -> CpuState {
        let operand = self.operand_byte();
        let result = operand << 1;
        self.flagged(CARRY_FLAG, operand >= 0x80).nz_from(result).stored(result)
    }

    pub open spec fn lsr(self) -> CpuState {
        let operand = self.operand_byte();
        let result = operand >> 1;
        self.flagged(CARRY_FLAG, operand & 1 == 1).nz_from(result).stored(result)
    }

    pub open spec fn rti(self) -> CpuState {
        let status = self.popped();
        let low = status.popped();
        let high = low.popped();
        CpuState { p: pulled_status(self.top()), pc: word(status.top(), low.top()), ..high }
    }

    pub open spec fn rts(self) -> CpuState {
        let low = self.popped();
        let high = low.popped();
        CpuState { pc: wrap16(word(self.top(), low.top()) + 1), ..high }
    }

    pub open spec fn jmp(self) -> CpuState {
        CpuState { pc: self.target(), ..self }
    }

    pub open spec fn jsr(self) -> CpuState {
        let return_addr = wrap16(self.pc - 1);
        let saved = self.pushed(high_byte(return_addr)).pushed(low_byte(return_addr));
        CpuState { pc: self.target(), ..saved }
    }

    pub open spec fn ora(self) -> CpuState {
        let result = self.a | self.operand_byte();
        CpuState { a: result, ..self }.nz_from(result)
    }

    pub open spec fn and(self) -> CpuState {
        let result = self.a & self.operand_byte();
        CpuState { a: result, ..self }.nz_from(result)
    }

    pub open spec fn eor(self) -> CpuState {
        let result = self.a ^ self.operand_byte();
        CpuState { a: result, ..self }.nz_from(result)
    }

    /// Adds `operand` and the carry to the accumulator. Decimal mode has no
    /// effect.
    pub open spec fn add_with_carry(self, operand: u8) -> CpuState {
        let sum = self.a + operand + carry_in(self.p);
        let result = wrap8(sum);
        CpuState { a: result, ..self }.flagged(CARRY_FLAG, sum > 0xFF).flagged(
            OVERFLOW_FLAG,
            signed_overflow(self.a, operand, result),
        ).nz_from(result)
    }

    pub open spec fn adc(self) -> CpuState {
        self.add_with_carry(self.operand_byte())
    }

    pub open spec fn sbc(self) -> CpuState {
        self.add_with_carry(self.operand_byte() ^ 0xFF)
    }

    pub open spec fn sta(self) -> CpuState {
        self.stored(self.a)
    }

    pub open spec fn stx(self) -> CpuState {
        self.stored(self.x)
    }

    pub open spec fn sty(self) -> CpuState {
        self.stored(self.y)
    }

    pub open spec fn inx(self) -> CpuState {
        let result = wrap8(self.x + 1);
        CpuState { x: result, ..self }.nz_from(result)
    }

    pub open spec fn dex(self) -> CpuState {
        let result = wrap8(self.x - 1);
        CpuState { x: result, ..self }.nz_from(result)
    }

    pub open spec fn iny(self) -> CpuState {
        let result = wrap8(self.y + 1);
        CpuState { y: result, ..self }.nz_from(result)
    }

    pub open spec fn dey(self) -> CpuState {
        let result = wrap8(self.y - 1);
        CpuState { y: result, ..self }.nz_from(result)
    }

    pub open spec fn inc(self) -> CpuState {
        let result = wrap8(self.operand_byte() + 1);
        self.nz_from(result).stored(result)
    }

    pub open spec fn dec(self) -> CpuState {
        let result = wrap8(self.operand_byte() - 1);
        self.nz_from(result).stored(result)
    }

    /// The state after `count` increments of the resolved location.
    pub open spec fn inc_times(self, count: nat) -> CpuState
        decreases count,
    {
        if count == 0 {
            self
        } else {
            self.inc().inc_times((count - 1) as nat)
        }
    }

    /// The state after `count` decrements of the resolved location.
    pub open spec fn dec_times(self, count: nat) -> CpuState
        decreases count,
    {
        if count == 0 {
            self
        } else {
            self.dec().dec_times((count - 1) as nat)
        }
    }

    pub open spec fn txa(self) -> CpuState {
        CpuState { a: self.x, ..self }.nz_from(self.x)
    }

    pub open spec fn tya(self) -> CpuState {
        CpuState { a: self.y, ..self }.nz_from(self.y)
    }

    pub open spec fn txs(self) -> CpuState {
        CpuState { sp: self.x, ..self }
    }

    pub open spec fn tax(self) -> CpuState {
        CpuState { x: self.a, ..self }.nz_from(self.a)
    }

    pub open spec fn tsx(self) -> CpuState {
        CpuState { x: self.sp, ..self }.nz_from(self.sp)
    }

    pub open spec fn tay(self) -> CpuState {
        CpuState { y: self.a, ..self }.nz_from(self.a)
    }

    pub open spec fn ldx(self) -> CpuState {
        let operand = self.operand_byte();
        CpuState { x: operand, ..self }.nz_from(operand)
    }

    pub open spec fn ldy(self) -> CpuState {
        let operand = self.operand_byte();
        CpuState { y: operand, ..self }.nz_from(operand)
    }

    pub open spec fn lda(self) -> CpuState {
        let operand = self.operand_byte();
        CpuState { a: operand, ..self }.nz_from(operand)
    }

    /// Compares `register` with the operand: Carry says that the register is
    /// not smaller, Zero and Negative come from the difference.
    pub open spec fn compared(self, register: u8) -> CpuState {
        let operand = self.operand_byte();
        self.flagged(CARRY_FLAG, register >= operand).nz_from(wrap8(register - operand))
    }

    pub open spec fn cmp(self) -> CpuState {
        self.compared(self.a)
    }

    pub open spec fn cpx(self) -> CpuState {
        self.compared(self.x)
    }

    pub open spec fn cpy(self) -> CpuState {
        self.compared(self.y)
    }

    /// Cycles that a branch adds to its base: none when it is not taken, one
    /// when it is, one more when the target lies in another page.
    pub open spec fn branch_cycles(self, condition: bool) -> int {
        if !condition {
            0
        } else if page_crossed(self.pc, branch_target(self.pc, self.operand_byte())) {
            2
        } else {
            1
        }
    }

    pub open spec fn branch(self, condition: bool) -> CpuState {
        if condition {
            CpuState {
                curr_cycles: (self.curr_cycles + self.branch_cycles(condition)) as u8,
                pc: branch_target(self.pc, self.operand_byte()),
                ..self
            }
        } else {
            self
        }
    }

    pub open spec fn bpl(self) -> CpuState {
        self.branch(!flag_set(self.p, NEGATIVE_FLAG))
    }

    pub open spec fn bmi(self) -> CpuState {
        self.branch(flag_set(self.p, NEGATIVE_FLAG))
    }

    pub open spec fn bvc(self) -> CpuState {
        self.branch(!flag_set(self.p, OVERFLOW_FLAG))
    }

    pub open spec fn bvs(self) -> CpuState {
        self.branch(flag_set(self.p, OVERFLOW_FLAG))
    }

    pub open spec fn bcc(self) -> CpuState {
        self.branch(!flag_set(self.p, CARRY_FLAG))
    }

    pub open spec fn bcs(self) -> CpuState {
        self.branch(flag_set(self.p, CARRY_FLAG))
    }

    pub open spec fn bne(self) -> CpuState {
        self.branch(!flag_set(self.p, ZERO_FLAG))
    }

    pub open spec fn beq(self) -> CpuState {
        self.branch(flag_set(self.p, ZERO_FLAG))
    }

    /// Whether `operation` is a branch whose condition holds.
    pub open spec fn branch_taken(self, operation: Operation) -> bool {
        match operation {
            Operation::Bpl => !flag_set(self.p, NEGATIVE_FLAG),
            Operation::Bmi => flag_set(self.p, NEGATIVE_FLAG),
            Operation::Bvc => !flag_set(self.p, OVERFLOW_FLAG),
            Operation::Bvs => flag_set(self.p, OVERFLOW_FLAG),
            Operation::Bcc => !flag_set(self.p, CARRY_FLAG),
            Operation::Bcs => flag_set(self.p, CARRY_FLAG),
            Operation::Bne => !flag_set(self.p, ZERO_FLAG),
            Operation::Beq => flag_set(self.p, ZERO_FLAG),
            _ => false,
        }
    }

    /// Whether the resolved operand gives `operation` what it works on.
    pub open spec fn ready_for(self, operation: Operation) -> bool {
        &&& operation.reads_value() || operation.is_branch() ==> self.has_value()
        &&& operation.shifts() ==> self.has_value() && self.has_target()
        &&& operation.writes_memory() ==> self.has_address() && self.address_mode
            != AddressMode::Accumulator
        &&& operation == Operation::Jmp || operation == Operation::Jsr ==> self.has_address()
        &&& operation.is_branch() ==> self.curr_cycles <= 0xFD
    }

    /// The state after `operation` ran on the resolved operand.
    #[verifier::opaque]
    pub open spec fn execute(self, operation: Operation) -> CpuState {
        match operation {
            Operation::Adc => self.adc(),
            Operation::And => self.and(),
            Operation::Asl => self.asl(),
            Operation::Bcc => self.bcc(),
            Operation::Bcs => self.bcs(),
            Operation::Beq => self.beq(),
            Operation::Bit => self.bit(),
            Operation::Bmi => self.bmi(),
            Operation::Bne => self.bne(),
            Operation::Bpl => self.bpl(),
            Operation::Brk => self.brk(),
            Operation::Bvc => self.bvc(),
            Operation::Bvs => self.bvs(),
            Operation::Clc => self.clc(),
            Operation::Cld => self.cld(),
            Operation::Cli => self.cli(),
            Operation::Clv => self.clv(),
            Operation::Cmp => self.cmp(),
            Operation::Cpx => self.cpx(),
            Operation::Cpy => self.cpy(),
            Operation::Dec => self.dec(),
            Operation::Dex => self.dex(),
            Operation::Dey => self.dey(),
            Operation::Eor => self.eor(),
            Operation::Inc => self.inc(),
            Operation::Inx => self.inx(),
            Operation::Iny => self.iny(),
            Operation::Jmp => self.jmp(),
            Operation::Jsr => self.jsr(),
            Operation::Lda => self.lda(),
            Operation::Ldx => self.ldx(),
            Operation::Ldy => self.ldy(),
            Operation::Lsr => self.lsr(),
            Operation::Nop => self,
            Operation::Ora => self.ora(),
            Operation::Pha => self.pha(),
            Operation::Php => self.php(),
            Operation::Pla => self.pla(),
            Operation::Plp => self.plp(),
            Operation::Rol => self.rol(),
            Operation::Ror => self.ror(),
            Operation::Rti => self.rti(),
            Operation::Rts => self.rts(),
            Operation::Sbc => self.sbc(),
            Operation::Sec => self.sec(),
            Operation::Sed => self.sed(),
            Operation::Sei => self.sei(),
            Operation::Sta => self.sta(),
            Operation::Stx => self.stx(),
            Operation::Sty => self.sty(),
            Operation::Tax => self.tax(),
            Operation::Tay => self.tay(),
            Operation::Tsx => self.tsx(),
            Operation::Txa => self.txa(),
            Operation::Txs => self.txs(),
            Operation::Tya => self.tya(),
        }
    }

    /// Resolving a mode that an operation accepts gives the operation what it
    /// works on.
    pub proof fn lemma_resolve_makes_ready(self, operation: Operation, mode: AddressMode)
        requires
            operation.accepts(mode),
            self.curr_cycles <= 0xFD,
        ensures
            self.resolve(mode).ready_for(operation),
    {
        reveal(CpuState::resolved);
    }

    /// No operation touches the page flag.
    pub proof fn lemma_execute_keeps_page_flag(self, operation: Operation)
        ensures
            self.execute(operation).is_page_crossed == self.is_page_crossed,
    {
        reveal(CpuState::execute);
    }

    /// Only a branch adds cycles on its own account: none, one or two. No
    /// operation touches the count of all cycles.
    pub proof fn lemma_execute_adds_cycles(self, operation: Operation)
        requires
            self.curr_cycles <= 0xFD,
        ensures
            self.execute(operation).curr_cycles == self.curr_cycles + (if operation.is_branch() {
                self.branch_cycles(self.branch_taken(operation))
            } else {
                0
            }),
            0 <= self.branch_cycles(self.branch_taken(operation)) <= 2,
            self.execute(operation).total_cycles == self.total_cycles,
    {
        reveal(CpuState::execute);
    }

    // One instruction.

    /// The table slot of the opcode byte at the program counter.
    pub open spec fn fetch(self) -> Option<Instruction> {
        instruction_for(self.read(self.pc))
    }

    /// The state in which the operand bytes of the instruction at the program
    /// counter are read: past the opcode byte, with the instruction's own
    /// cycle count and page flag cleared.
    pub open spec fn begun(self) -> CpuState {
        CpuState { curr_cycles: 0, is_page_crossed: false, ..self.advanced(1) }
    }

    /// Cycles of an instruction that has run: what it added itself, the
    /// table's count, and one more where the table asks for it and resolving
    /// the operand left the page.
    pub open spec fn cycles_of(self, instruction: Instruction) -> int {
        self.curr_cycles + instruction.cycles + if instruction.check_page_cross
            && self.is_page_crossed {
            1int
        } else {
            0int
        }
    }

    /// The state after the cycles of `instruction` were counted.
    pub open spec fn settled(self, instruction: Instruction) -> CpuState {
        CpuState {
            curr_cycles: self.cycles_of(instruction) as u8,
            total_cycles: (self.total_cycles + self.cycles_of(instruction)) as u64,
            is_page_crossed: false,
            ..self
        }
    }

    /// The state after `instruction`, whose opcode byte lies at the program
    /// counter, has resolved its operand and done its work.
    pub open spec fn executed(self, instruction: Instruction) -> CpuState {
        self.begun().resolve(instruction.address_mode).execute(instruction.operation)
    }

    /// The state after `instruction`, whose opcode byte lies at the program
    /// counter, has run and its cycles were counted.
    pub open spec fn run(self, instruction: Instruction) -> CpuState {
        self.executed(instruction).settled(instruction)
    }

    /// The state after the instruction at the program counter.
    pub open spec fn step(self) -> CpuState
        recommends
            self.fetch() is Some,
    {
        self.run(self.fetch().unwrap())
    }

    /// Cycles that the instruction at the program counter takes.
    pub open spec fn step_cycles(self) -> int
        recommends
            self.fetch() is Some,
    {
        self.executed(self.fetch().unwrap()).cycles_of(self.fetch().unwrap())
    }

    /// Whether an instruction can be run whatever it costs: the byte at the
    /// program counter is a documented opcode, and the cycle counter has room
    /// for the longest instruction. This is what can be told before the
    /// instruction has run.
    pub open spec fn can_step(self) -> bool {
        &&& self.fetch() is Some
        &&& self.total_cycles + MAX_INSTRUCTION_CYCLES <= u64::MAX
    }

    /// Whether `entry` is the trace entry of the instruction at the program
    /// counter: the opcode byte and its mnemonic, the registers and the cycle
    /// count as they are in this state, and the operand as the instruction
    /// resolves it.
    pub open spec fn traced(self, entry: TraceEntry) -> bool
        recommends
            self.fetch() is Some,
    {
        &&& entry.opcode == self.read(self.pc)
        &&& entry.mnemonic@ == self.fetch().unwrap().operation.name()
        &&& entry.operand == self.step().operand
        &&& entry.operand_address == self.step().operand_address
        &&& entry.a == self.a
        &&& entry.x == self.x
        &&& entry.y == self.y
        &&& entry.p == self.p
        &&& entry.pc == self.pc
        &&& entry.sp == self.sp
        &&& entry.cycles == self.total_cycles
    }

    /// Whether the instruction at the program counter hands control to the
    /// instruction behind it: it is no jump, call, return or break, and no
    /// branch whose condition holds.
    pub open spec fn falls_through(self) -> bool
        recommends
            self.fetch() is Some,
    {
        let operation = self.fetch().unwrap().operation;
        !operation.transfers_control() && !self.branch_taken(operation)
    }

    /// The address behind the instruction at the program counter: past the
    /// opcode byte and the operand bytes.
    pub open spec fn following_pc(self) -> u16
        recommends
            self.fetch() is Some,
    {
        wrap16(self.pc + 1 + self.fetch().unwrap().address_mode.operand_len())
    }

    /// Cycles that the instruction at the program counter takes beyond those of
    /// its table slot. A branch takes one when it is taken and one more when
    /// its target lies in another page than the instruction behind it. Of the
    /// others, one that only reads its value takes one when its mode adds an
    /// index to a 16-bit address and the sum lies in another page; one that
    /// writes never does.
    pub open spec fn extra_cycles(self) -> int
        recommends
            self.fetch() is Some,
    {
        let instruction = self.fetch().unwrap();
        if instruction.operation.is_branch() {
            let target = branch_target(self.following_pc(), self.read(wrap16(self.pc + 1)));
            if !self.branch_taken(instruction.operation) {
                0
            } else if page_crossed(self.following_pc(), target) {
                2
            } else {
                1
            }
        } else if instruction.operation.reads_value() && instruction.address_mode.is_indexed_wide()
            && self.begun().resolved(instruction.address_mode).page_crossed {
            1
        } else {
            0
        }
    }

    /// Whether the instruction at the program counter can be run: the byte
    /// there is a documented opcode, and the cycle counter has room for the
    /// cycles that this instruction takes.
    pub open spec fn admits_step(self) -> bool {
        &&& self.fetch() is Some
        &&& self.total_cycles + self.step_cycles() <= u64::MAX
    }
}

} // verus!
