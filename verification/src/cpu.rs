//! The processor: registers, addressing modes, the 56 documented operations,
//! and the step that runs one instruction. What each function does is stated
//! over the model in `machine`.

use vstd::prelude::*;
use vstd::pervasive::unreached;
use vstd::std_specs::cmp::PartialEqSpecImpl;
use crate::bits::lemma_mask_bounds;
use crate::bus::CpuBus;
use crate::machine::ACCUMULATOR_ADDR;
use crate::machine::CpuState;
use crate::machine::IRQ_VECTOR_ADDR;
use crate::machine::RESET_CYCLES;
use crate::machine::RESET_STACK_POINTER;
use crate::machine::RESET_VECTOR_ADDR;
use crate::machine::STACK_BASE_ADDR;
use crate::machine::high_byte;
use crate::machine::low_byte;
use crate::machine::page_crossed;
use crate::machine::word;
use crate::opcode::AddressMode;
use crate::opcode::MAX_INSTRUCTION_CYCLES;
use crate::opcode::Operation;
use crate::opcode::decode;
use crate::opcode::lemma_table_is_consistent;
use crate::status::BREAK_FLAG;
use crate::status::CARRY_FLAG;
use crate::status::DECIMAL_FLAG;
use crate::status::INTERRUPT_FLAG;
use crate::status::NEGATIVE_FLAG;
use crate::status::OVERFLOW_FLAG;
use crate::status::UNUSED_FLAG;
use crate::status::ZERO_FLAG;
use crate::status::flag_set;
use crate::status::lemma_reset_status;
use crate::theorems::lemma_step_advances_pc;
use crate::theorems::lemma_step_cycles;
use crate::theorems::lemma_step_cycles_bounds;
use crate::theorems::lemma_step_keeps_unused;

verus! {

/// The processor: its registers, its bus, and what the instruction under way
/// has resolved.
#[derive(Debug)]
pub struct Cpu {
    a: u8,
    x: u8,
    y: u8,
    p: u8,
    sp: u8,
    pc: u16,
    bus: CpuBus,
    curr_cycles: u8,
    total_cycles: u64,
    operand: Option<u16>,
    operand_address: Option<i32>,
    address_mode: AddressMode,
    is_page_crossed: bool,
}

/// One line of a trace: the registers as they were before an instruction, and
/// what the instruction resolved.
#[derive(Debug)]
pub struct TraceEntry {
    pub opcode: u8,
    pub mnemonic: String,
    pub operand: Option<u16>,
    pub operand_address: Option<i32>,
    pub a: u8,
    pub x: u8,
    pub y: u8,
    pub p: u8,
    pub pc: u16,
    pub sp: u8,
    pub cycles: u64,
}

impl TraceEntry {
    /// Whether two entries agree on everything but what was resolved: two
    /// traces are held against each other by this.
    pub open spec fn agrees_with(self, other: TraceEntry) -> bool {
        &&& self.opcode == other.opcode
        &&& self.mnemonic@ == other.mnemonic@
        &&& self.a == other.a
        &&& self.x == other.x
        &&& self.y == other.y
        &&& self.p == other.p
        &&& self.pc == other.pc
        &&& self.sp == other.sp
        &&& self.cycles == other.cycles
    }
}

impl PartialEq for TraceEntry {
    fn eq(&self, other: &Self) -> (equal: bool) {
        self.opcode == other.opcode && self.mnemonic == other.mnemonic && self.a == other.a
            && self.x == other.x && self.y == other.y && self.p == other.p && self.pc
            == other.pc && self.sp == other.sp && self.cycles == other.cycles
    }
}

impl PartialEqSpecImpl for TraceEntry {
    open spec fn obeys_eq_spec() -> bool {
        true
    }

    open spec fn eq_spec(&self, other: &Self) -> bool {
        self.agrees_with(*other)
    }
}

/// The 16-bit value with the given low and high byte.
pub fn make_word(low: u8, high: u8) -> (value: u16)
    ensures
        value == word(low, high),
{
    low as u16 | (high as u16) << 8
}

pub fn upper_byte(value: u16) -> (byte: u8)
    ensures
        byte == high_byte(value),
{
    proof {
        lemma_mask_bounds(value);
    }
    (value >> 8) as u8
}

pub fn lower_byte(value: u16) -> (byte: u8)
    ensures
        byte == low_byte(value),
{
    proof {
        lemma_mask_bounds(value);
    }
    (value & 0x00FF) as u8
}

impl View for Cpu {
    type V = CpuState;

    closed spec fn view(&self) -> CpuState {
        CpuState {
            a: self.a,
            x: self.x,
            y: self.y,
            p: self.p,
            sp: self.sp,
            pc: self.pc,
            bus: self.bus@,
            curr_cycles: self.curr_cycles,
            total_cycles: self.total_cycles,
            operand: self.operand,
            operand_address: self.operand_address,
            address_mode: self.address_mode,
            is_page_crossed: self.is_page_crossed,
        }
    }
}

impl Cpu {
    /// A processor around `bus` with every register zero. It is not ready to
    /// run before `reset`.
    pub fn new(bus: CpuBus) -> (cpu: Self)
        ensures
            cpu@ == CpuState::initial(bus@),
    {
        Self {
            a: 0,
            x: 0,
            y: 0,
            p: 0,
            sp: 0,
            pc: 0,
            bus: bus,
            curr_cycles: 0,
            total_cycles: 0,
            operand: None,
            operand_address: None,
            address_mode: AddressMode::Implied,
            is_page_crossed: false,
        }
    }

    /// Tells whether `step` can be called: the byte at the program counter is a
    /// documented opcode, and the cycle counter has room for the longest
    /// instruction.
    pub fn can_step(&self) -> (ready: bool)
        ensures
            ready == self@.can_step(),
            ready ==> self@.admits_step(),
    {
        proof {
            if self@.fetch() is Some {
                lemma_step_cycles_bounds(self@);
            }
        }
        decode(self.bus.read(self.pc)).is_some() && self.total_cycles <= u64::MAX
            - MAX_INSTRUCTION_CYCLES as u64
    }

    pub fn a(&self) -> (value: u8)
        ensures
            value == self@.a,
    {
        self.a
    }

    pub fn x(&self) -> (value: u8)
        ensures
            value == self@.x,
    {
        self.x
    }

    pub fn y(&self) -> (value: u8)
        ensures
            value == self@.y,
    {
        self.y
    }

    pub fn p(&self) -> (value: u8)
        ensures
            value == self@.p,
    {
        self.p
    }

    pub fn sp(&self) -> (value: u8)
        ensures
            value == self@.sp,
    {
        self.sp
    }

    pub fn pc(&self) -> (value: u16)
        ensures
            value == self@.pc,
    {
        self.pc
    }

    pub fn total_cycles(&self) -> (value: u64)
        ensures
            value == self@.total_cycles,
    {
        self.total_cycles
    }

    /// Reads the byte that the processor sees at `address`.
    pub fn peek(&self, address: u16) -> (data: u8)
        ensures
            data == self@.read(address),
    {
        self.bus.read(address)
    }

    /// Puts the registers into their state after power-up. The program counter
    /// is `pc`, or without one the reset vector.
    pub fn reset(&mut self, pc: Option<u16>)
        ensures
            final(self)@ == old(self)@.reset(pc),
            final(self)@.p == 0x24,
            flag_set(final(self)@.p, UNUSED_FLAG),
    {
        proof {
            lemma_reset_status();
        }
        self.a = 0;
        self.x = 0;
        self.y = 0;
        self.sp = RESET_STACK_POINTER;
        self.total_cycles = RESET_CYCLES;
        self.p = INTERRUPT_FLAG | UNUSED_FLAG;
        self.pc = match pc {
            Some(addr) => addr,
            None => self.read_word(RESET_VECTOR_ADDR),
        }
    }

    /// Runs the instruction at the program counter and returns the cycles it
    /// took.
    pub fn step(&mut self) -> (cycles: u8)
        requires
            old(self)@.admits_step(),
        ensures
            final(self)@ == old(self)@.step(),
            cycles == old(self)@.step_cycles(),
            final(self)@.total_cycles == old(self)@.total_cycles + cycles,
            2 <= cycles <= 8,
            cycles == old(self)@.fetch().unwrap().cycles + old(self)@.extra_cycles(),
            old(self)@.falls_through() ==> final(self)@.pc == old(self)@.following_pc(),
            flag_set(old(self)@.p, UNUSED_FLAG) ==> flag_set(final(self)@.p, UNUSED_FLAG),
    {
        proof {
            lemma_step_cycles_bounds(old(self)@);
            lemma_step_cycles(old(self)@);
            if old(self)@.falls_through() {
                lemma_step_advances_pc(old(self)@);
            }
            if flag_set(old(self)@.p, UNUSED_FLAG) {
                lemma_step_keeps_unused(old(self)@);
            }
        }
        self.curr_cycles = 0;
        self.is_page_crossed = false;
        let opcode = self.bus.read(self.pc);
        self.pc = self.pc.wrapping_add(1);
        let instruction = match decode(opcode) {
            Some(instruction) => instruction,
            None => unreached(),
        };
        proof {
            assert(self@ == old(self)@.begun());
            assert(old(self)@.fetch() == Some(instruction));
            lemma_table_is_consistent(opcode);
            self@.lemma_resolve_makes_ready(instruction.operation, instruction.address_mode);
        }
        self.resolve(instruction.address_mode);
        proof {
            self@.lemma_execute_adds_cycles(instruction.operation);
        }
        self.execute(instruction.operation);
        assert(self@ == old(self)@.executed(instruction));
        self.curr_cycles += instruction.cycles;
        if instruction.check_page_cross && self.is_page_crossed {
            self.curr_cycles += 1;
        }
        self.is_page_crossed = false;
        self.total_cycles += self.curr_cycles as u64;
        self.curr_cycles
    }

    /// Runs the instruction at the program counter and returns its trace
    /// entry: the registers as they were before it, with the operand that it
    /// resolved.
    pub fn trace_step(&mut self) -> (entry: TraceEntry)
        requires
            old(self)@.admits_step(),
        ensures
            final(self)@ == old(self)@.step(),
            old(self)@.traced(entry),
    {
        let a = self.a;
        let x = self.x;
        let y = self.y;
        let p = self.p;
        let pc = self.pc;
        let sp = self.sp;
        let cycles = self.total_cycles;
        let opcode = self.bus.read(self.pc);
        let instruction = match decode(opcode) {
            Some(instruction) => instruction,
            None => unreached(),
        };
        self.step();
        TraceEntry {
            opcode: opcode,
            mnemonic: instruction.operation.mnemonic().to_string(),
            operand: self.operand,
            operand_address: self.operand_address,
            a: a,
            x: x,
            y: y,
            p: p,
            pc: pc,
            sp: sp,
            cycles,
        }
    }

    /// Resolves `mode` and keeps the result for the operation.
    fn resolve(&mut self, mode: AddressMode)
        ensures
            final(self)@ == old(self)@.resolve(mode),
    {
        proof {
            reveal(CpuState::resolved);
        }
        self.address_mode = mode;
        let (operand, address) = match mode {
            AddressMode::Accumulator => (None, Some(ACCUMULATOR_ADDR)),
            AddressMode::Implied => (None, None),
            AddressMode::Immediate => self.resolve_immediate(),
            AddressMode::Relative => self.resolve_relative(),
            AddressMode::Zeropage => self.resolve_zeropage(0),
            AddressMode::ZeropageX => self.resolve_zeropage(self.x),
            AddressMode::ZeropageY => self.resolve_zeropage(self.y),
            AddressMode::Absolute => self.resolve_absolute(0),
            AddressMode::AbsoluteX => self.resolve_absolute(self.x),
            AddressMode::AbsoluteY => self.resolve_absolute(self.y),
            AddressMode::Indirect => self.resolve_indirect(),
            AddressMode::IndirectX => self.resolve_indirect_x(),
            AddressMode::IndirectY => self.resolve_indirect_y(),
        };
        self.operand = operand;
        self.operand_address = address;
    }

    /// Runs `operation` on what was resolved.
    fn execute(&mut self, operation: Operation)
        requires
            old(self)@.ready_for(operation),
        ensures
            final(self)@ == old(self)@.execute(operation),
    {
        proof {
            reveal(CpuState::execute);
        }
        match operation {
            Operation::Adc => self.adc(),
            Operation::And => self.and(),
            Operation::Asl => self.asl(),
            Operation::Bcc => self.bcc(),
            Operation::Bcs => self.bcs(),
            Operation::Beq => self.beq(),
            Operation::Bit => self.bit(),
            Operation::Bmi => self.bmi(),
            Operation::Bne => self.bne(),
            Operation::Bpl => self.bpl(),
            Operation::Brk => self.brk(),
            Operation::Bvc => self.bvc(),
            Operation::Bvs => self.bvs(),
            Operation::Clc => self.clc(),
            Operation::Cld => self.cld(),
            Operation::Cli => self.cli(),
            Operation::Clv => self.clv(),
            Operation::Cmp => self.cmp(),
            Operation::Cpx => self.cpx(),
            Operation::Cpy => self.cpy(),
            Operation::Dec => self.dec(),
            Operation::Dex => self.dex(),
            Operation::Dey => self.dey(),
            Operation::Eor => self.eor(),
            Operation::Inc => self.inc(),
            Operation::Inx => self.inx(),
            Operation::Iny => self.iny(),
            Operation::Jmp => self.jmp(),
            Operation::Jsr => self.jsr(),
            Operation::Lda => self.lda(),
            Operation::Ldx => self.ldx(),
            Operation::Ldy => self.ldy(),
            Operation::Lsr => self.lsr(),
            Operation::Nop => self.nop(),
            Operation::Ora => self.ora(),
            Operation::Pha => self.pha(),
            Operation::Php => self.php(),
            Operation::Pla => self.pla(),
            Operation::Plp => self.plp(),
            Operation::Rol => self.rol(),
            Operation::Ror => self.ror(),
            Operation::Rti => self.rti(),
            Operation::Rts => self.rts(),
            Operation::Sbc => self.sbc(),
            Operation::Sec => self.sec(),
            Operation::Sed => self.sed(),
            Operation::Sei => self.sei(),
            Operation::Sta => self.sta(),
            Operation::Stx => self.stx(),
            Operation::Sty => self.sty(),
            Operation::Tax => self.tax(),
            Operation::Tay => self.tay(),
            Operation::Tsx => self.tsx(),
            Operation::Txa => self.txa(),
            Operation::Txs => self.txs(),
            Operation::Tya => self.tya(),
        }
    }

    fn read_word(&self, address: u16) -> (value: u16)
        ensures
            value == self@.read_word(address),
    {
        make_word(self.bus.read(address), self.bus.read(address.wrapping_add(1)))
    }

    fn resolve_immediate(&mut self) -> (resolved: (Option<u16>, Option<i32>))
        ensures
            resolved.0 == old(self)@.resolved_immediate().operand,
            resolved.1 == old(self)@.resolved_immediate().address,
            final(self)@ == old(self)@.advanced(1),
    {
        let operand = self.bus.read(self.pc);
        self.pc = self.pc.wrapping_add(1);
        (Some(operand as u16), None)
    }

    fn resolve_relative(&mut self) -> (resolved: (Option<u16>, Option<i32>))
        ensures
            resolved.0 == old(self)@.resolved_immediate().operand,
            resolved.1 == old(self)@.resolved_immediate().address,
            final(self)@ == old(self)@.advanced(1),
    {
        let offset = self.bus.read(self.pc);
        self.pc = self.pc.wrapping_add(1);
        (Some(offset as u16), None)
    }

    fn resolve_zeropage(&mut self, index: u8) -> (resolved: (Option<u16>, Option<i32>))
        ensures
            resolved.0 == old(self)@.resolved_zeropage(index).operand,
            resolved.1 == old(self)@.resolved_zeropage(index).address,
            final(self)@ == old(self)@.advanced(1),
    {
        let base_addr = self.bus.read(self.pc);
        self.pc = self.pc.wrapping_add(1);
        (Some(base_addr as u16), Some(base_addr.wrapping_add(index) as i32))
    }

    fn is_page_crossed(address1: u16, address2: u16) -> (crossed: bool)
        ensures
            crossed == page_crossed(address1, address2),
    {
        address1 & 0xFF00 != address2 & 0xFF00
    }

    fn read_address_around_page(&self, address: u16) -> (pointer: u16)
        ensures
            pointer == self@.read_word_in_page(address),
    {
        let next = (address & 0xFF00) | (address.wrapping_add(1) & 0x00FF);
        make_word(self.bus.read(address), self.bus.read(next))
    }

    fn resolve_absolute(&mut self, index: u8) -> (resolved: (Option<u16>, Option<i32>))
        ensures
            resolved.0 == old(self)@.resolved_absolute(index).operand,
            resolved.1 == old(self)@.resolved_absolute(index).address,
            final(self)@ == (CpuState {
                is_page_crossed: old(self)@.resolved_absolute(index).page_crossed,
                ..old(self)@.advanced(2)
            }),
    {
        let base_addr = self.read_word(self.pc);
        self.pc = self.pc.wrapping_add(2);
        let effective_addr = base_addr.wrapping_add(index as u16);
        self.is_page_crossed = Self::is_page_crossed(base_addr, effective_addr);
        (Some(base_addr), Some(effective_addr as i32))
    }

    fn resolve_indirect(&mut self) -> (resolved: (Option<u16>, Option<i32>))
        ensures
            resolved.0 == old(self)@.resolved_indirect().operand,
            resolved.1 == old(self)@.resolved_indirect().address,
            final(self)@ == old(self)@.advanced(2),
    {
        let pointer = self.read_word(self.pc);
        self.pc = self.pc.wrapping_add(2);
        let effective_addr = self.read_address_around_page(pointer);
        (Some(pointer), Some(effective_addr as i32))
    }

    fn resolve_indirect_x(&mut self) -> (resolved: (Option<u16>, Option<i32>))
        ensures
            resolved.0 == old(self)@.resolved_indirect_x().operand,
            resolved.1 == old(self)@.resolved_indirect_x().address,
            final(self)@ == old(self)@.advanced(1),
    {
        let base_addr = self.bus.read(self.pc);
        self.pc = self.pc.wrapping_add(1);
        let zeropage_addr = base_addr.wrapping_add(self.x);
        let effective_addr = self.read_address_around_page(zeropage_addr as u16);
        (Some(base_addr as u16), Some(effective_addr as i32))
    }

    fn resolve_indirect_y(&mut self) -> (resolved: (Option<u16>, Option<i32>))
        ensures
            resolved.0 == old(self)@.resolved_indirect_y().operand,
            resolved.1 == old(self)@.resolved_indirect_y().address,
            final(self)@ == (CpuState {
                is_page_crossed: old(self)@.resolved_indirect_y().page_crossed,
                ..old(self)@.advanced(1)
            }),
    {
        let pointer = self.bus.read(self.pc) as u16;
        self.pc = self.pc.wrapping_add(1);
        let base_addr = self.read_address_around_page(pointer);
        let effective_addr = base_addr.wrapping_add(self.y as u16);
        self.is_page_crossed = Self::is_page_crossed(base_addr, effective_addr);
        (Some(pointer), Some(effective_addr as i32))
    }

    fn get_operand(&self) -> (value: u16)
        requires
            self@.has_value(),
        ensures
            value == self@.operand_value(),
            value <= 0xFF,
    {
        match self.operand_address {
            Some(addr) => {
                if addr == ACCUMULATOR_ADDR {
                    self.a as u16
                } else {
                    self.bus.read(addr as u16) as u16
                }
            },
            None => self.operand.unwrap(),
        }
    }

    fn operand_byte(&self) -> (value: u8)
        requires
            self@.has_value(),
        ensures
            value == self@.operand_byte(),
    {
        self.get_operand() as u8
    }

    fn store(&mut self, address: Option<i32>, data: u8)
        requires
            old(self)@.can_store(address),
        ensures
            final(self)@ == old(self)@.stored_at(address, data),
    {
        match self.address_mode {
            AddressMode::Accumulator => self.a = data,
            _ => match address {
                Some(addr) => self.bus.write(addr as u16, data),
                None => unreached(),
            },
        }
    }

    fn push_stack(&mut self, data: u8)
        ensures
            final(self)@ == old(self)@.pushed(data),
    {
        self.bus.write(STACK_BASE_ADDR | self.sp as u16, data);
        self.sp = self.sp.wrapping_sub(1);
    }

    fn pop_stack(&mut self) -> (data: u8)
        ensures
            data == old(self)@.top(),
            final(self)@ == old(self)@.popped(),
    {
        self.sp = self.sp.wrapping_add(1);
        self.bus.read(STACK_BASE_ADDR | self.sp as u16)
    }

    fn set_flag(&mut self, flag: u8, is_need_set: bool)
        ensures
            final(self)@ == old(self)@.flagged(flag, is_need_set),
    {
        if is_need_set {
            self.p |= flag;
        } else {
            self.p &= !flag;
        }
    }

    fn set_nz_flags(&mut self, data: u8)
        ensures
            final(self)@ == old(self)@.nz_from(data),
    {
        self.set_flag(ZERO_FLAG, data == 0);
        self.set_flag(NEGATIVE_FLAG, data >= 0x80);
    }

    fn brk(&mut self)
        ensures
            final(self)@ == old(self)@.brk(),
    {
        let return_addr = self.pc.wrapping_add(1);
        self.push_stack(upper_byte(return_addr));
        self.push_stack(lower_byte(return_addr));
        self.push_stack(self.p | BREAK_FLAG);
        self.p |= INTERRUPT_FLAG;
        self.pc = self.read_word(IRQ_VECTOR_ADDR);
    }

    fn php(&mut self)
        ensures
            final(self)@ == old(self)@.php(),
    {
        self.push_stack(self.p | BREAK_FLAG);
    }

    fn plp(&mut self)
        ensures
            final(self)@ == old(self)@.plp(),
    {
        self.p = self.pop_stack() & !BREAK_FLAG | UNUSED_FLAG;
    }

    fn pha(&mut self)
        ensures
            final(self)@ == old(self)@.pha(),
    {
        self.push_stack(self.a);
    }

    fn pla(&mut self)
        ensures
            final(self)@ == old(self)@.pla(),
    {
        self.a = self.pop_stack();
        self.set_nz_flags(self.a);
    }

    fn clc(&mut self)
        ensures
            final(self)@ == old(self)@.clc(),
    {
        self.p &= !CARRY_FLAG;
    }

    fn sec(&mut self)
        ensures
            final(self)@ == old(self)@.sec(),
    {
        self.p |= CARRY_FLAG;
    }

    fn cli(&mut self)
        ensures
            final(self)@ == old(self)@.cli(),
    {
        self.p &= !INTERRUPT_FLAG;
    }

    fn sei(&mut self)
        ensures
            final(self)@ == old(self)@.sei(),
    {
        self.p |= INTERRUPT_FLAG;
    }

    fn clv(&mut self)
        ensures
            final(self)@ == old(self)@.clv(),
    {
        self.p &= !OVERFLOW_FLAG;
    }

    fn cld(&mut self)
        ensures
            final(self)@ == old(self)@.cld(),
    {
        self.p &= !DECIMAL_FLAG;
    }

    fn sed(&mut self)
        ensures
            final(self)@ == old(self)@.sed(),
    {
        self.p |= DECIMAL_FLAG;
    }

    fn bit(&mut self)
        requires
            old(self)@.has_value(),
        ensures
            final(self)@ == old(self)@.bit(),
    {
        let operand = self.operand_byte();
        self.set_flag(ZERO_FLAG, (self.a & operand) == 0);
        self.set_flag(OVERFLOW_FLAG, operand & 0x40 != 0);
        self.set_flag(NEGATIVE_FLAG, operand >= 0x80);
    }

    fn rol(&mut self)
        requires
            old(self)@.has_value(),
            old(self)@.has_target(),
        ensures
            final(self)@ == old(self)@.rol(),
    {
        let operand = self.operand_byte();
        let rotated = operand << 1 | self.p & CARRY_FLAG;
        self.set_flag(CARRY_FLAG, operand >= 0x80);
        self.set_nz_flags(rotated);
        self.store(self.operand_address, rotated);
    }

    fn ror(&mut self)
        requires
            old(self)@.has_value(),
            old(self)@.has_target(),
        ensures
            final(self)@ == old(self)@.ror(),
    {
        let operand = self.operand_byte();
        let rotated = operand >> 1 | (self.p & CARRY_FLAG) << 7;
        self.set_flag(CARRY_FLAG, (operand & 1) == 1);
        self.set_nz_flags(rotated);
        self.store(self.operand_address, rotated);
    }

    fn rti(&mut self)
        ensures
            final(self)@ == old(self)@.rti(),
    {
        self.p = self.pop_stack() & !BREAK_FLAG | UNUSED_FLAG;
        let low = self.pop_stack();
        let high = self.pop_stack();
        self.pc = make_word(low, high);
    }

    fn rts(&mut self)
        ensures
            final(self)@ == old(self)@.rts(),
    {
        let low = self.pop_stack();
        let high = self.pop_stack();
        self.pc = make_word(low, high).wrapping_add(1);
    }

    fn jmp(&mut self)
        requires
            old(self)@.has_address(),
        ensures
            final(self)@ == old(self)@.jmp(),
    {
        self.pc = self.operand_address.unwrap() as u16;
    }

    fn jsr(&mut self)
        requires
            old(self)@.has_address(),
        ensures
            final(self)@ == old(self)@.jsr(),
    {
        let return_addr = self.pc.wrapping_sub(1);
        self.push_stack(upper_byte(return_addr));
        self.push_stack(lower_byte(return_addr));
        self.pc = self.operand_address.unwrap() as u16;
    }

    fn ora(&mut self)
        requires
            old(self)@.has_value(),
        ensures
            final(self)@ == old(self)@.ora(),
    {
        self.a |= self.operand_byte();
        self.set_nz_flags(self.a);
    }

    fn asl(&mut self)
        requires
            old(self)@.has_value(),
            old(self)@.has_target(),
        ensures
            final(self)@ == old(self)@.asl(),
    {
        let operand = self.operand_byte();
        let result = operand << 1;
        self.set_flag(CARRY_FLAG, operand >= 0x80);
        self.set_nz_flags(result);
        self.store(self.operand_address, result);
    }

    fn and(&mut self)
        requires
            old(self)@.has_value(),
        ensures
            final(self)@ == old(self)@.and(),
    {
        self.a &= self.operand_byte();
        self.set_nz_flags(self.a);
    }

    fn eor(&mut self)
        requires
            old(self)@.has_value(),
        ensures
            final(self)@ == old(self)@.eor(),
    {
        self.a ^= self.operand_byte();
        self.set_nz_flags(self.a);
    }

    fn lsr(&mut self)
        requires
            old(self)@.has_value(),
            old(self)@.has_target(),
        ensures
            final(self)@ == old(self)@.lsr(),
    {
        let operand = self.operand_byte();
        let result = operand >> 1;
        self.set_flag(CARRY_FLAG, (operand & 1) == 1);
        self.set_nz_flags(result);
        self.store(self.operand_address, result);
    }

    fn adc_(&mut self, operand: u8)
        ensures
            final(self)@ == old(self)@.add_with_carry(operand),
    {
        let carry: u16 = if self.p & CARRY_FLAG != 0 {
            1
        } else {
            0
        };
        let sum: u16 = self.a as u16 + operand as u16 + carry;
        let result: u8 = (sum % 0x100) as u8;
        let overflow = (self.a ^ result) & (operand ^ result) & 0x80 != 0;
        self.a = result;
        self.set_flag(CARRY_FLAG, sum > 0xFF);
        self.set_flag(OVERFLOW_FLAG, overflow);
        self.set_nz_flags(result);
    }

    fn adc(&mut self)
        requires
            old(self)@.has_value(),
        ensures
            final(self)@ == old(self)@.adc(),
    {
        self.adc_(self.operand_byte());
    }

    fn sbc(&mut self)
        requires
            old(self)@.has_value(),
        ensures
            final(self)@ == old(self)@.sbc(),
    {
        self.adc_(self.operand_byte() ^ 0xFF);
    }

    fn sta(&mut self)
        requires
            old(self)@.has_target(),
        ensures
            final(self)@ == old(self)@.sta(),
    {
        self.store(self.operand_address, self.a);
    }

    fn sty(&mut self)
        requires
            old(self)@.has_target(),
        ensures
            final(self)@ == old(self)@.sty(),
    {
        self.store(self.operand_address, self.y);
    }

    fn stx(&mut self)
        requires
            old(self)@.has_target(),
        ensures
            final(self)@ == old(self)@.stx(),
    {
        self.store(self.operand_address, self.x);
    }

    fn inx(&mut self)
        ensures
            final(self)@ == old(self)@.inx(),
    {
        self.x = self.x.wrapping_add(1);
        self.set_nz_flags(self.x);
    }

    fn dex(&mut self)
        ensures
            final(self)@ == old(self)@.dex(),
    {
        self.x = self.x.wrapping_sub(1);
        self.set_nz_flags(self.x);
    }

    fn iny(&mut self)
        ensures
            final(self)@ == old(self)@.iny(),
    {
        self.y = self.y.wrapping_add(1);
        self.set_nz_flags(self.y);
    }

    fn dey(&mut self)
        ensures
            final(self)@ == old(self)@.dey(),
    {
        self.y = self.y.wrapping_sub(1);
        self.set_nz_flags(self.y);
    }

    fn inc(&mut self)
        requires
            old(self)@.has_value(),
            old(self)@.has_target(),
        ensures
            final(self)@ == old(self)@.inc(),
    {
        let result = self.operand_byte().wrapping_add(1);
        self.set_nz_flags(result);
        self.store(self.operand_address, result);
    }

    fn dec(&mut self)
        requires
            old(self)@.has_value(),
            old(self)@.has_target(),
        ensures
            final(self)@ == old(self)@.dec(),
    {
        let result = self.operand_byte().wrapping_sub(1);
        self.set_nz_flags(result);
        self.store(self.operand_address, result);
    }

    fn txa(&mut self)
        ensures
            final(self)@ == old(self)@.txa(),
    {
        self.a = self.x;
        self.set_nz_flags(self.a);
    }

    fn tya(&mut self)
        ensures
            final(self)@ == old(self)@.tya(),
    {
        self.a = self.y;
        self.set_nz_flags(self.a);
    }

    fn tax(&mut self)
        ensures
            final(self)@ == old(self)@.tax(),
    {
        self.x = self.a;
        self.set_nz_flags(self.x);
    }

    fn tsx(&mut self)
        ensures
            final(self)@ == old(self)@.tsx(),
    {
        self.x = self.sp;
        self.set_nz_flags(self.x);
    }

    fn tay(&mut self)
        ensures
            final(self)@ == old(self)@.tay(),
    {
        self.y = self.a;
        self.set_nz_flags(self.y);
    }

    fn txs(&mut self)
        ensures
            final(self)@ == old(self)@.txs(),
    {
        self.sp = self.x;
    }

    fn ldx(&mut self)
        requires
            old(self)@.has_value(),
        ensures
            final(self)@ == old(self)@.ldx(),
    {
        self.x = self.operand_byte();
        self.set_nz_flags(self.x);
    }

    fn ldy(&mut self)
        requires
            old(self)@.has_value(),
        ensures
            final(self)@ == old(self)@.ldy(),
    {
        self.y = self.operand_byte();
        self.set_nz_flags(self.y);
    }

    fn lda(&mut self)
        requires
            old(self)@.has_value(),
        ensures
            final(self)@ == old(self)@.lda(),
    {
        self.a = self.operand_byte();
        self.set_nz_flags(self.a);
    }

    fn cmp_(&mut self, register: u8)
        requires
            old(self)@.has_value(),
        ensures
            final(self)@ == old(self)@.compared(register),
    {
        let operand = self.operand_byte();
        let result = register.wrapping_sub(operand);
        self.set_flag(CARRY_FLAG, register >= operand);
        self.set_nz_flags(result);
    }

    fn cmp(&mut self)
        requires
            old(self)@.has_value(),
        ensures
            final(self)@ == old(self)@.cmp(),
    {
        self.cmp_(self.a);
    }

    fn cpx(&mut self)
        requires
            old(self)@.has_value(),
        ensures
            final(self)@ == old(self)@.cpx(),
    {
        self.cmp_(self.x);
    }

    fn cpy(&mut self)
        requires
            old(self)@.has_value(),
        ensures
            final(self)@ == old(self)@.cpy(),
    {
        self.cmp_(self.y);
    }

    fn branch(&mut self, condition: bool)
        requires
            old(self)@.has_value(),
            old(self)@.curr_cycles <= 0xFD,
        ensures
            final(self)@ == old(self)@.branch(condition),
    {
        if !condition {
            return ;
        }
        self.curr_cycles += 1;
        let operand = self.operand_byte();
        let offset: i16 = if operand >= 0x80 {
            operand as i16 - 0x100
        } else {
            operand as i16
        };
        let address = self.pc.wrapping_add_signed(offset);
        if Self::is_page_crossed(self.pc, address) {
            self.curr_cycles += 1;
        }
        self.pc = address;
    }

    fn bpl(&mut self)
        requires
            old(self)@.has_value(),
            old(self)@.curr_cycles <= 0xFD,
        ensures
            final(self)@ == old(self)@.bpl(),
    {
        self.branch((self.p & NEGATIVE_FLAG) == 0);
    }

    fn bmi(&mut self)
        requires
            old(self)@.has_value(),
            old(self)@.curr_cycles <= 0xFD,
        ensures
            final(self)@ == old(self)@.bmi(),
    {
        self.branch((self.p & NEGATIVE_FLAG) != 0);
    }

    fn bvc(&mut self)
        requires
            old(self)@.has_value(),
            old(self)@.curr_cycles <= 0xFD,
        ensures
            final(self)@ == old(self)@.bvc(),
    {
        self.branch((self.p & OVERFLOW_FLAG) == 0);
    }

    fn bvs(&mut self)
        requires
            old(self)@.has_value(),
            old(self)@.curr_cycles <= 0xFD,
        ensures
            final(self)@ == old(self)@.bvs(),
    {
        self.branch((self.p & OVERFLOW_FLAG) != 0);
    }

    fn bcc(&mut self)
        requires
            old(self)@.has_value(),
            old(self)@.curr_cycles <= 0xFD,
        ensures
            final(self)@ == old(self)@.bcc(),
    {
        self.branch((self.p & CARRY_FLAG) == 0);
    }

    fn bcs(&mut self)
        requires
            old(self)@.has_value(),
            old(self)@.curr_cycles <= 0xFD,
        ensures
            final(self)@ == old(self)@.bcs(),
    {
        self.branch((self.p & CARRY_FLAG) != 0);
    }

    fn bne(&mut self)
        requires
            old(self)@.has_value(),
            old(self)@.curr_cycles <= 0xFD,
        ensures
            final(self)@ == old(self)@.bne(),
    {
        self.branch((self.p & ZERO_FLAG) == 0);
    }

    fn beq(&mut self)
        requires
            old(self)@.has_value(),
            old(self)@.curr_cycles <= 0xFD,
        ensures
            final(self)@ == old(self)@.beq(),
    {
        self.branch((self.p & ZERO_FLAG) != 0);
    }

    fn nop(&mut self)
        ensures
            final(self)@ == old(self)@,
    {
    }

    /// The RAM of every processor has its full size.
    pub proof fn lemma_wf(&self)
        ensures
            self@.wf(),
    {
        self.bus.lemma_wf();
    }
}

} // verus!
