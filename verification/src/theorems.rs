//! What holds of the machine: invariants of the step, the cost of branches
//! and page crossings, round trips through the stack, and the arithmetic
//! reading of the bit-level definitions.

use vstd::prelude::*;
use crate::bits::lemma_address_bits;
use crate::bits::lemma_complement;
use crate::bits::lemma_mask_bounds;
use crate::bits::lemma_overflow_bits;
use crate::bits::lemma_page_join;
use crate::bits::lemma_rotate_bits;
use crate::bits::lemma_shift_bits;
use crate::bits::lemma_stack_slot;
use crate::bits::lemma_word_bits;
use crate::bus::BusState;
use crate::bus::RAM_WINDOW_END;
use crate::machine::CpuState;
use crate::machine::branch_offset;
use crate::machine::branch_target;
use crate::machine::high_byte;
use crate::machine::low_byte;
use crate::machine::next_in_page;
use crate::machine::page_crossed;
use crate::machine::signed_overflow;
use crate::machine::stack_address;
use crate::machine::word;
use crate::machine::wrap16;
use crate::machine::wrap8;
use crate::mapper::Mapper0View;
use crate::mapper::PRG_BANK_SIZE;
use crate::opcode::AddressMode;
use crate::opcode::Operation;
use crate::opcode::lemma_page_penalty;
use crate::opcode::lemma_penalty_slots;
use crate::opcode::lemma_table_is_consistent;
use crate::status::BREAK_FLAG;
use crate::status::CARRY_FLAG;
use crate::status::NEGATIVE_FLAG;
use crate::status::UNUSED_FLAG;
use crate::status::ZERO_FLAG;
use crate::status::carry_in;
use crate::status::flag_set;
use crate::status::is_single_flag;
use crate::status::lemma_flags;
use crate::status::lemma_pulled_status;
use crate::status::lemma_with_flag;
use crate::status::lemma_with_nz;
use crate::status::with_flag;
use crate::status::with_nz;

verus! {

/// Setting or clearing another flag, or Zero and Negative together, leaves the
/// Unused flag set.
proof fn lemma_unused_stays()
    ensures
        forall|p: u8, flag: u8, on: bool|
            flag_set(p, UNUSED_FLAG) && is_single_flag(flag) && flag != UNUSED_FLAG
                ==> flag_set(#[trigger] with_flag(p, flag, on), UNUSED_FLAG),
        forall|p: u8, data: u8|
            flag_set(p, UNUSED_FLAG) ==> flag_set(#[trigger] with_nz(p, data), UNUSED_FLAG),
{
    assert forall|p: u8, flag: u8, on: bool|
        flag_set(p, UNUSED_FLAG) && is_single_flag(flag) && flag != UNUSED_FLAG implies flag_set(
        #[trigger] with_flag(p, flag, on),
        UNUSED_FLAG,
    ) by {
        lemma_with_flag(p, flag, on, UNUSED_FLAG);
    }
    assert forall|p: u8, data: u8| flag_set(p, UNUSED_FLAG) implies flag_set(
        #[trigger] with_nz(p, data),
        UNUSED_FLAG,
    ) by {
        lemma_with_nz(p, data, UNUSED_FLAG);
    }
}

/// No operation clears the Unused flag.
pub proof fn lemma_execute_keeps_unused(state: CpuState, operation: Operation)
    requires
        flag_set(state.p, UNUSED_FLAG),
    ensures
        flag_set(state.execute(operation).p, UNUSED_FLAG),
{
    reveal(CpuState::execute);
    lemma_unused_stays();
    lemma_pulled_status(state.top(), UNUSED_FLAG);
}

/// Once the Unused flag is set, as it is after a reset, it is set after every
/// instruction.
pub proof fn lemma_step_keeps_unused(state: CpuState)
    requires
        state.fetch() is Some,
        flag_set(state.p, UNUSED_FLAG),
    ensures
        flag_set(state.step().p, UNUSED_FLAG),
{
    let instruction = state.fetch().unwrap();
    lemma_execute_keeps_unused(
        state.begun().resolve(instruction.address_mode),
        instruction.operation,
    );
}

/// Every stack slot lies in page 1, from 0x0100 to 0x01FF.
pub proof fn lemma_stack_stays_in_page(sp: u8)
    ensures
        0x0100 <= stack_address(sp) <= 0x01FF,
        stack_address(sp) == 0x0100 + sp,
{
    lemma_stack_slot(sp);
}

/// A write leaves the RAM its size, and a read at the written address gives
/// the byte back where the address lies in the RAM window.
pub proof fn lemma_write_keeps_size(bus: BusState, address: u16, data: u8)
    requires
        bus.wf(),
    ensures
        bus.write(address, data).wf(),
        address < RAM_WINDOW_END ==> bus.write(address, data).read(address) == data,
        address >= RAM_WINDOW_END ==> bus.write(address, data) == bus,
{
    lemma_mask_bounds(address);
}

/// A byte that was pushed is the byte that the next pop takes, and the stack
/// pointer is back where it was.
pub proof fn lemma_push_then_pop(state: CpuState, data: u8)
    requires
        state.wf(),
    ensures
        state.pushed(data).top() == data,
        state.pushed(data).popped().sp == state.sp,
{
    lemma_stack_slot(state.sp);
    lemma_mask_bounds(stack_address(state.sp));
}

/// An instruction adds its cycles to the count of all cycles, and it takes at
/// least 2 and at most 8.
pub proof fn lemma_step_counts_cycles(state: CpuState)
    requires
        state.admits_step(),
    ensures
        state.step().total_cycles == state.total_cycles + state.step_cycles(),
        state.step().curr_cycles == state.step_cycles(),
        2 <= state.step_cycles() <= 8,
{
    let instruction = state.fetch().unwrap();
    lemma_step_cycles_bounds(state);
    state.begun().resolve(instruction.address_mode).lemma_execute_adds_cycles(
        instruction.operation,
    );
}

/// Where the cycle counter has room for the longest instruction, it has room
/// for the one at the program counter.
pub proof fn lemma_can_step_admits(state: CpuState)
    requires
        state.can_step(),
    ensures
        state.admits_step(),
{
    lemma_step_cycles_bounds(state);
}

/// An instruction takes at least 2 and at most 8 cycles.
pub proof fn lemma_step_cycles_bounds(state: CpuState)
    requires
        state.fetch() is Some,
    ensures
        2 <= state.step_cycles() <= 8,
{
    let instruction = state.fetch().unwrap();
    let resolved = state.begun().resolve(instruction.address_mode);
    lemma_table_is_consistent(state.read(state.pc));
    lemma_penalty_slots(state.read(state.pc));
    resolved.lemma_execute_adds_cycles(instruction.operation);
}

/// Unless the instruction is a taken branch, a jump, a call, a return or a
/// break, the program counter moves past the opcode byte and the operand
/// bytes.
pub proof fn lemma_step_advances_pc(state: CpuState)
    requires
        state.fetch() is Some,
        state.falls_through(),
    ensures
        state.step().pc == state.following_pc(),
        state.following_pc() == wrap16(
            state.pc + 1 + state.fetch().unwrap().address_mode.operand_len(),
        ),
{
    let instruction = state.fetch().unwrap();
    let resolved = state.begun().resolve(instruction.address_mode);
    assert(resolved.p == state.p);
    lemma_execute_keeps_pc(resolved, instruction.operation);
}

/// An operation that is neither a taken branch nor a jump, a call, a return or
/// a break leaves the program counter alone.
pub proof fn lemma_execute_keeps_pc(state: CpuState, operation: Operation)
    requires
        !operation.transfers_control(),
        !state.branch_taken(operation),
    ensures
        state.execute(operation).pc == state.pc,
{
    reveal(CpuState::execute);
}

/// Adding an operand with the carry clear, setting the carry and subtracting
/// the same operand gives the accumulator back.
pub proof fn lemma_adc_then_sbc_restores_accumulator(state: CpuState, operand: u8)
    requires
        !flag_set(state.p, CARRY_FLAG),
    ensures
        state.add_with_carry(operand).sec().add_with_carry(operand ^ 0xFF).a == state.a,
{
    lemma_adc_then_sbc(state, operand);
}

/// Adding an operand with the carry clear, where the sum does not fit in a
/// byte, then setting the carry and subtracting the same operand gives the
/// accumulator and the carry back.
pub proof fn lemma_adc_then_sbc_restores(state: CpuState, operand: u8)
    requires
        !flag_set(state.p, CARRY_FLAG),
        state.a + operand > 0xFF,
    ensures
        state.add_with_carry(operand).sec().add_with_carry(operand ^ 0xFF).a == state.a,
        flag_set(
            state.add_with_carry(operand).sec().add_with_carry(operand ^ 0xFF).p,
            CARRY_FLAG,
        ) == flag_set(state.p, CARRY_FLAG),
{
    lemma_adc_then_sbc(state, operand);
}

/// What adding an operand, setting the carry and subtracting the same operand
/// leaves: the accumulator plus the carry that came in, and a carry that says
/// whether the sum, cut to a byte, is at least the operand.
pub proof fn lemma_adc_then_sbc(state: CpuState, operand: u8)
    ensures
        state.add_with_carry(operand).sec().add_with_carry(operand ^ 0xFF).a == wrap8(
            state.a + carry_in(state.p),
        ),
        flag_set(
            state.add_with_carry(operand).sec().add_with_carry(operand ^ 0xFF).p,
            CARRY_FLAG,
        ) == (wrap8(state.a + operand + carry_in(state.p)) >= operand),
{
    lemma_flags();
    lemma_complement(operand);
    let added = state.add_with_carry(operand);
    let set = added.sec();
    assert(carry_in(set.p) == 1);
    assert(added.a == wrap8(state.a + operand + carry_in(state.p)));
    let sum = set.a + (operand ^ 0xFF) + 1;
    assert(sum == added.a + 256 - operand);
}

/// Pushing the accumulator and pulling it again leaves the accumulator, the
/// stack pointer and every flag but Zero and Negative as they were.
pub proof fn lemma_pha_then_pla(state: CpuState, flag: u8)
    requires
        state.wf(),
        is_single_flag(flag),
        flag != ZERO_FLAG,
        flag != NEGATIVE_FLAG,
    ensures
        state.pha().pla().a == state.a,
        state.pha().pla().sp == state.sp,
        flag_set(state.pha().pla().p, flag) == flag_set(state.p, flag),
{
    lemma_push_then_pop(state, state.a);
    lemma_with_nz(state.p, state.a, flag);
}

/// Pushing the status and pulling it again clears Break, sets Unused, and
/// leaves the stack pointer and each other flag as they were, whatever the
/// status was.
pub proof fn lemma_php_then_plp(state: CpuState, flag: u8)
    requires
        state.wf(),
        is_single_flag(flag),
        flag != BREAK_FLAG,
        flag != UNUSED_FLAG,
    ensures
        !flag_set(state.php().plp().p, BREAK_FLAG),
        flag_set(state.php().plp().p, UNUSED_FLAG),
        flag_set(state.php().plp().p, flag) == flag_set(state.p, flag),
        state.php().plp().sp == state.sp,
{
    lemma_push_then_pop(state, state.p | BREAK_FLAG);
    lemma_pulled_status(state.p | BREAK_FLAG, flag);
    lemma_with_flag(state.p, BREAK_FLAG, true, flag);
}

/// A branch takes 2 cycles when it is not taken, 3 when it is taken, and 4
/// when it is taken to another page than that of the next instruction.
pub proof fn lemma_branch_cycles(state: CpuState)
    requires
        state.fetch() is Some,
        state.fetch().unwrap().operation.is_branch(),
    ensures
        ({
            let taken = state.branch_taken(state.fetch().unwrap().operation);
            let next = wrap16(state.pc + 2);
            let target = branch_target(next, state.read(wrap16(state.pc + 1)));
            &&& state.step_cycles() == if !taken {
                2int
            } else if page_crossed(next, target) {
                4int
            } else {
                3int
            }
            &&& state.step().pc == if taken {
                target
            } else {
                next
            }
        }),
{
    let instruction = state.fetch().unwrap();
    let operation = instruction.operation;
    lemma_penalty_slots(state.read(state.pc));
    let resolved = state.begun().resolve(instruction.address_mode);
    assert(resolved.p == state.p);
    assert(resolved.pc == wrap16(state.pc + 2));
    assert(resolved.operand_byte() == state.read(wrap16(state.pc + 1))) by {
        reveal(CpuState::resolved);
    }
    resolved.lemma_execute_adds_cycles(operation);
    assert(resolved.execute(operation).pc == if resolved.branch_taken(operation) {
        branch_target(resolved.pc, resolved.operand_byte())
    } else {
        resolved.pc
    }) by {
        reveal(CpuState::execute);
    }
}

/// An instruction that is no branch takes the cycles of its table slot, and
/// one more if it only reads its value, through a mode whose index can carry
/// into the high byte, and the index did carry. A store or a shift through such
/// a mode never takes the extra cycle.
pub proof fn lemma_page_cross_penalty(state: CpuState)
    requires
        state.fetch() is Some,
        !state.fetch().unwrap().operation.is_branch(),
    ensures
        ({
            let instruction = state.fetch().unwrap();
            let crossed = state.begun().resolved(instruction.address_mode).page_crossed;
            state.step_cycles() == instruction.cycles + if instruction.operation.reads_value()
                && instruction.address_mode.is_indexed_wide() && crossed {
                1int
            } else {
                0int
            }
        }),
{
    let instruction = state.fetch().unwrap();
    let resolved = state.begun().resolve(instruction.address_mode);
    lemma_page_penalty(state.read(state.pc));
    resolved.lemma_execute_adds_cycles(instruction.operation);
    resolved.lemma_execute_keeps_page_flag(instruction.operation);
}

/// An instruction takes the cycles of its table slot and, on top, what a taken
/// branch or an index that left the page costs.
pub proof fn lemma_step_cycles(state: CpuState)
    requires
        state.fetch() is Some,
    ensures
        state.step_cycles() == state.fetch().unwrap().cycles + state.extra_cycles(),
{
    let instruction = state.fetch().unwrap();
    lemma_penalty_slots(state.read(state.pc));
    if instruction.operation.is_branch() {
        lemma_branch_cycles(state);
    } else {
        lemma_page_cross_penalty(state);
    }
}

/// Whether the index carried into the high byte, for each mode where it can.
pub proof fn lemma_page_cross_of_indexed_modes(state: CpuState)
    ensures
        state.resolved(AddressMode::AbsoluteX).page_crossed == page_crossed(
            state.read_word(state.pc),
            wrap16(state.read_word(state.pc) + state.x),
        ),
        state.resolved(AddressMode::AbsoluteY).page_crossed == page_crossed(
            state.read_word(state.pc),
            wrap16(state.read_word(state.pc) + state.y),
        ),
        state.resolved(AddressMode::IndirectY).page_crossed == page_crossed(
            state.read_word_in_page(state.read(state.pc) as u16),
            wrap16(state.read_word_in_page(state.read(state.pc) as u16) + state.y),
        ),
{
    reveal(CpuState::resolved);
}

/// Whether the resolved operand names a cell of the RAM.
pub open spec fn targets_ram(state: CpuState) -> bool {
    &&& state.has_address()
    &&& state.address_mode != AddressMode::Accumulator
    &&& state.target() < RAM_WINDOW_END
}

/// After `count` increments of a cell of the RAM the cell holds its value plus
/// `count`, cut to a byte; Zero and Negative are those of the last result; the
/// registers and each other flag are as they were.
pub proof fn lemma_inc_times(state: CpuState, count: nat, flag: u8)
    requires
        state.wf(),
        targets_ram(state),
        is_single_flag(flag),
        flag != ZERO_FLAG,
        flag != NEGATIVE_FLAG,
    ensures
        ({
            let after = state.inc_times(count);
            let value = wrap8(state.read(state.target()) + count);
            &&& after.wf()
            &&& after.read(state.target()) == value
            &&& after.operand_address == state.operand_address
            &&& after.address_mode == state.address_mode
            &&& after.a == state.a && after.x == state.x && after.y == state.y
            &&& after.sp == state.sp && after.pc == state.pc
            &&& flag_set(after.p, flag) == flag_set(state.p, flag)
            &&& count > 0 ==> flag_set(after.p, ZERO_FLAG) == (value == 0)
            &&& count > 0 ==> flag_set(after.p, NEGATIVE_FLAG) == (value >= 0x80)
        }),
    decreases count,
{
    if count > 0 {
        let once = state.inc();
        let result = wrap8(state.read(state.target()) + 1);
        lemma_mask_bounds(state.target());
        lemma_with_nz(state.p, result, flag);
        assert(once.read(state.target()) == result);
        lemma_inc_times(once, (count - 1) as nat, flag);
    }
}

/// 256 increments of a cell of the RAM bring back its value, with Zero and
/// Negative as that value sets them.
pub proof fn lemma_inc_256_times(state: CpuState)
    requires
        state.wf(),
        targets_ram(state),
    ensures
        ({
            let after = state.inc_times(256);
            let value = state.read(state.target());
            &&& after.read(state.target()) == value
            &&& flag_set(after.p, ZERO_FLAG) == (value == 0)
            &&& flag_set(after.p, NEGATIVE_FLAG) == (value >= 0x80)
        }),
{
    lemma_inc_times(state, 256, CARRY_FLAG);
}

/// After `count` decrements of a cell of the RAM the cell holds its value minus
/// `count`, cut to a byte; Zero and Negative are those of the last result; the
/// registers and each other flag are as they were.
pub proof fn lemma_dec_times(state: CpuState, count: nat, flag: u8)
    requires
        state.wf(),
        targets_ram(state),
        is_single_flag(flag),
        flag != ZERO_FLAG,
        flag != NEGATIVE_FLAG,
    ensures
        ({
            let after = state.dec_times(count);
            let value = wrap8(state.read(state.target()) - count);
            &&& after.wf()
            &&& after.read(state.target()) == value
            &&& after.operand_address == state.operand_address
            &&& after.address_mode == state.address_mode
            &&& after.a == state.a && after.x == state.x && after.y == state.y
            &&& after.sp == state.sp && after.pc == state.pc
            &&& flag_set(after.p, flag) == flag_set(state.p, flag)
            &&& count > 0 ==> flag_set(after.p, ZERO_FLAG) == (value == 0)
            &&& count > 0 ==> flag_set(after.p, NEGATIVE_FLAG) == (value >= 0x80)
        }),
    decreases count,
{
    if count > 0 {
        let once = state.dec();
        let result = wrap8(state.read(state.target()) - 1);
        lemma_mask_bounds(state.target());
        lemma_with_nz(state.p, result, flag);
        assert(once.read(state.target()) == result);
        lemma_dec_times(once, (count - 1) as nat, flag);
    }
}

/// 256 decrements of a cell of the RAM bring back its value, with Zero and
/// Negative as that value sets them.
pub proof fn lemma_dec_256_times(state: CpuState)
    requires
        state.wf(),
        targets_ram(state),
    ensures
        ({
            let after = state.dec_times(256);
            let value = state.read(state.target());
            &&& after.read(state.target()) == value
            &&& flag_set(after.p, ZERO_FLAG) == (value == 0)
            &&& flag_set(after.p, NEGATIVE_FLAG) == (value >= 0x80)
        }),
{
    lemma_dec_times(state, 256, CARRY_FLAG);
}

/// A word is its low byte plus 256 times its high byte, and gives both bytes
/// back.
pub proof fn lemma_word(low: u8, high: u8)
    ensures
        word(low, high) == low + 256 * high,
        low_byte(word(low, high)) == low,
        high_byte(word(low, high)) == high,
{
    lemma_word_bits(low, high);
    lemma_address_bits(word(low, high));
}

/// The high byte of a value is the value divided by 256, the low byte is the
/// rest, and the two make the value again.
pub proof fn lemma_bytes(value: u16)
    ensures
        high_byte(value) == value / 256,
        low_byte(value) == value % 256,
        word(low_byte(value), high_byte(value)) == value,
{
    lemma_address_bits(value);
    lemma_word_bits(low_byte(value), high_byte(value));
}

/// Two addresses lie in different pages exactly when they differ in their
/// high byte.
pub proof fn lemma_page_crossed(address1: u16, address2: u16)
    ensures
        page_crossed(address1, address2) <==> address1 / 256 != address2 / 256,
{
    lemma_address_bits(address1);
    lemma_address_bits(address2);
}

/// The address after the last byte of a page is the first byte of that page;
/// any other address is followed by the next one.
pub proof fn lemma_next_in_page(address: u16)
    ensures
        next_in_page(address) == if address % 256 == 255 {
            address - 255
        } else {
            address + 1
        },
{
    let following = wrap16(address + 1);
    lemma_address_bits(address);
    lemma_address_bits(following);
    lemma_address_bits(address & 0xFF00);
    lemma_page_join(address & 0xFF00, following & 0x00FF);
}

/// The RAM shows four times in its window: an address selects the cell at the
/// address modulo the size of the RAM.
pub proof fn lemma_ram_is_mirrored(address: u16)
    ensures
        BusState::ram_index(address) == address % 0x0800,
{
    lemma_address_bits(address);
}

/// A program image of one bank shows twice in its window, a larger one fills
/// the window from its start.
pub proof fn lemma_program_is_mirrored(mapper: Mapper0View, address: u16)
    requires
        address >= 0x8000,
    ensures
        mapper.prg_offset(address) == if mapper.prg.len() > PRG_BANK_SIZE {
            address - 0x8000
        } else {
            (address - 0x8000) % 0x4000
        },
{
    lemma_address_bits(address);
}

/// The overflow flag of an addition says that the sum of the two terms and the
/// carry, taken as signed bytes, does not fit in a signed byte.
pub proof fn lemma_signed_overflow(a: u8, operand: u8, carry: bool)
    ensures
        ({
            let sum = a + operand + if carry {
                1int
            } else {
                0int
            };
            let signed_sum = branch_offset(a) + branch_offset(operand) + if carry {
                1int
            } else {
                0int
            };
            signed_overflow(a, operand, wrap8(sum)) <==> !(-128 <= signed_sum <= 127)
        }),
{
    let sum = a + operand + if carry {
        1int
    } else {
        0int
    };
    lemma_overflow_bits(a, operand, wrap8(sum));
}

/// What the shifts and rotates make of a byte: the double without its top bit
/// or the half, with the carry taken in at the free end by the rotates.
pub proof fn lemma_shifted(value: u8, p: u8)
    ensures
        value << 1 == (2 * value) % 256,
        value >> 1 == value / 2,
        value << 1 | p & CARRY_FLAG == (2 * value) % 256 + carry_in(p),
        value >> 1 | (p & CARRY_FLAG) << 7 == value / 2 + 128 * carry_in(p),
        (value & 1 == 1) <==> value % 2 == 1,
{
    lemma_shift_bits(value);
    lemma_rotate_bits(value, p);
}

/// A call followed by a return comes back behind the call, with the stack
/// pointer where it was.
pub proof fn lemma_jsr_then_rts(state: CpuState)
    requires
        state.wf(),
    ensures
        state.jsr().rts().pc == state.pc,
        state.jsr().rts().sp == state.sp,
{
    let return_addr = wrap16(state.pc - 1);
    let first = state.pushed(high_byte(return_addr));
    let second = first.pushed(low_byte(return_addr));
    lemma_write_keeps_size(state.bus, stack_address(state.sp), high_byte(return_addr));
    lemma_push_then_pop(first, low_byte(return_addr));
    lemma_push_then_pop(state, high_byte(return_addr));
    lemma_bytes(return_addr);
    lemma_stack_slot(state.sp);
    lemma_stack_slot(first.sp);
    lemma_mask_bounds(stack_address(state.sp));
    lemma_mask_bounds(stack_address(first.sp));
    lemma_address_bits(stack_address(state.sp));
    lemma_address_bits(stack_address(first.sp));
    let called = state.jsr();
    assert(called.sp == second.sp);
    assert(called.top() == low_byte(return_addr));
    assert(called.popped().top() == high_byte(return_addr));
}

} // verus!
