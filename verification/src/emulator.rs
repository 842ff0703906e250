//! A machine ready to run: a processor on a bus with a cartridge, reset.

use vstd::prelude::*;
use crate::bus::BusState;
use crate::bus::CpuBus;
use crate::cpu::Cpu;
use crate::cpu::TraceEntry;
use crate::machine::CpuState;
use crate::rom::Cartridge;
use crate::theorems::lemma_step_counts_cycles;
use crate::theorems::lemma_step_cycles_bounds;

verus! {

/// A machine: a processor on a bus with a cartridge, after its reset.
#[derive(Debug)]
pub struct Emulator {
    cpu: Cpu,
}

/// Where a machine came to rest: the program counter and the byte it holds
/// there.
#[derive(Debug, Clone, Copy, PartialEq, Eq, Structural)]
pub struct Halt {
    pub pc: u16,
    pub opcode: u8,
}

/// The state in which a machine comes to rest: instructions are run as long as
/// one can be run.
pub open spec fn ran(state: CpuState) -> CpuState
    decreases u64::MAX - state.total_cycles,
    via ran_decreases
{
    if state.can_step() {
        ran(state.step())
    } else {
        state
    }
}

#[via_fn]
proof fn ran_decreases(state: CpuState) {
    if state.can_step() {
        lemma_step_cycles_bounds(state);
        lemma_step_counts_cycles(state);
    }
}

impl View for Emulator {
    type V = CpuState;

    closed spec fn view(&self) -> CpuState {
        self.cpu@
    }
}

impl Emulator {
    /// A machine around `cartridge`, reset, with the program counter at
    /// `cpu_pc` or, without one, at the reset vector.
    pub fn new(cartridge: Cartridge, cpu_pc: Option<u16>) -> (emulator: Self)
        ensures
            emulator@ == CpuState::initial(BusState::initial(cartridge@)).reset(cpu_pc),
    {
        let mut emulator = Self { cpu: Cpu::new(CpuBus::new(cartridge)) };
        emulator.cpu.reset(cpu_pc);
        emulator
    }

    /// Runs instructions until the byte at the program counter is no documented
    /// opcode, or the cycle counter is about to run over, and tells where that
    /// was.
    pub fn run(&mut self) -> (halt: Halt)
        ensures
            final(self)@ == ran(old(self)@),
            !final(self)@.can_step(),
            halt.pc == final(self)@.pc,
            halt.opcode == final(self)@.read(final(self)@.pc),
    {
        while self.cpu.can_step()
            invariant
                ran(self@) == ran(old(self)@),
            ensures
                self@ == ran(old(self)@),
                !self@.can_step(),
            decreases u64::MAX - self@.total_cycles,
        {
            self.cpu.step();
        }
        Halt { pc: self.cpu.pc(), opcode: self.cpu.peek(self.cpu.pc()) }
    }

    /// Runs one instruction, if one can be run, and returns its trace entry.
    pub fn trace_step(&mut self) -> (entry: Option<TraceEntry>)
        ensures
            match entry {
                Some(entry) => old(self)@.can_step() && old(self)@.traced(entry) && final(self)@
                    == old(self)@.step(),
                None => !old(self)@.can_step() && final(self)@ == old(self)@,
            },
    {
        if self.cpu.can_step() {
            Some(self.cpu.trace_step())
        } else {
            None
        }
    }

    /// The processor of the machine.
    pub fn cpu(&self) -> (cpu: &Cpu)
        ensures
            cpu@ == self@,
    {
        &self.cpu
    }
}

} // verus!
