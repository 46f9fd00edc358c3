//! What holds of every state of the machine: properties of the addressing
//! modes, of single instructions, of one cycle and of whole runs.

use vstd::prelude::*;
use crate::memory::{
    overlay, with_program, with_word, word_at, MAX_PROGRAM_LEN, MEMORY_SIZE, PROGRAM_BASE,
    RESET_VECTOR,
};
use crate::opcode::{AddressingMode, OpCode, ProcessorAction};
use crate::state::{signed, wrap8, CpuFault, CpuState, ExecutionState};
use crate::status_flags::FlagSet;
use crate::table::{decode, lemma_break_encoding, lemma_decode};

verus! {

/// Zero-page indexed addressing stays within page zero: the operand byte
/// plus the index register wraps around at 256, so the effective address is
/// below `0x100` whatever the operand and the register hold.
pub proof fn lemma_zero_page_indexed_wraps(s: CpuState)
    ensures
        s.operand_address(AddressingMode::ZeroPage_X) < 0x100,
        s.operand_address(AddressingMode::ZeroPage_X) == (s.read(s.program_counter)
            + s.register_x) % 256,
        s.operand_address(AddressingMode::ZeroPage_Y) < 0x100,
        s.operand_address(AddressingMode::ZeroPage_Y) == (s.read(s.program_counter)
            + s.register_y) % 256,
        s.operand_address(AddressingMode::ZeroPage) < 0x100,
{
}

/// An indirect mode fetches both bytes of its pointer from page zero: the
/// low byte at the pointer, the high byte at the pointer plus one wrapped
/// around at 256.
pub proof fn lemma_indirect_pointer_stays_in_page_zero(s: CpuState, ptr: u8)
    ensures
        s.zero_page_word(ptr) == s.memory[ptr as int] + 256 * s.memory[(ptr + 1) % 256],
{
}

/// A branch that is not taken moves the program counter past its offset
/// byte and changes nothing else.
pub proof fn lemma_branch_not_taken(s: CpuState)
    requires
        s.program_counter < 0xFFFF,
    ensures
        s.branch(false) == (CpuState { program_counter: (s.program_counter + 1) as u16, ..s }),
{
}

/// A branch that is taken goes forward by an offset below 128 and backward
/// by one of 128 or more, counted from the byte after the offset byte.
pub proof fn lemma_branch_taken(s: CpuState)
    ensures
        s.branch(true).program_counter == (s.program_counter + 1 + signed(
            s.read(s.program_counter),
        )) % 65536,
        -128 <= signed(s.read(s.program_counter)) <= 127,
        s.branch(true) == (CpuState { program_counter: s.branch(true).program_counter, ..s }),
{
}

/// A cycle on a branch whose condition does not hold leaves the program
/// counter at the opcode byte of the next instruction, two bytes on, and
/// changes nothing else.
pub proof fn lemma_step_branch_not_taken(s: CpuState, opcode: OpCode)
    requires
        decode(s.read(s.program_counter)) == Some(opcode),
        opcode.action.is_branch(),
        s.program_counter + 2 <= 0xFFFF,
        opcode.action == ProcessorAction::BCC ==> s.status.carry,
        opcode.action == ProcessorAction::BCS ==> !s.status.carry,
        opcode.action == ProcessorAction::BEQ ==> !s.status.zero,
    ensures
        s.step_outcome() == ExecutionState::Running,
        s.step() == (CpuState { program_counter: (s.program_counter + 2) as u16, ..s }),
        s.step().program_counter == s.program_counter + opcode.bytes,
{
    lemma_decode(s.read(s.program_counter));
}

/// A cycle that does not fault leaves the program counter one past the
/// whole encoded instruction, unless the instruction is a branch.
pub proof fn lemma_step_advances_past_instruction(s: CpuState, opcode: OpCode)
    requires
        decode(s.read(s.program_counter)) == Some(opcode),
        !(s.step_outcome() is Faulted),
        !opcode.action.is_branch(),
    ensures
        s.step().program_counter == s.program_counter + opcode.bytes,
        1 <= opcode.bytes <= 3,
{
    lemma_decode(s.read(s.program_counter));
}

/// The faults of a cycle. A byte that the table does not hold is reported
/// with its value and the address it was fetched from. The table pairs every
/// kind with a handler and with a mode that the handler resolves, so the two
/// faults that speak of the table's own entries never end a cycle. What is
/// left is an instruction that reaches past the top of the address space.
pub proof fn lemma_step_faults(s: CpuState)
    ensures
        decode(s.read(s.program_counter)) is None <==> s.step_outcome() == ExecutionState::Faulted(
            CpuFault::UnrecognizedOpcode {
                byte: s.read(s.program_counter),
                address: s.program_counter,
            },
        ),
        s.step_outcome() matches ExecutionState::Faulted(fault) ==> {
            ||| fault == (CpuFault::UnrecognizedOpcode {
                byte: s.read(s.program_counter),
                address: s.program_counter,
            })
            ||| fault == (CpuFault::AddressOutOfRange { address: s.program_counter })
        },
        s.step_outcome() is Faulted ==> s.step() == s,
        s.program_counter <= 0xFFFF - 3 ==> (s.step_outcome() is Faulted <==> decode(
            s.read(s.program_counter),
        ) is None),
{
    lemma_decode(s.read(s.program_counter));
}

/// A cycle halts exactly on a break instruction that lies below the top of
/// the address space, and then only moves the program counter past it.
pub proof fn lemma_step_halts(s: CpuState)
    ensures
        s.step_outcome() == ExecutionState::Halted <==> s.read(s.program_counter) == 0x00
            && s.program_counter < 0xFFFF,
        s.step_outcome() == ExecutionState::Halted ==> s.step() == s.fetched(),
{
    let byte = s.read(s.program_counter);
    lemma_decode(byte);
    lemma_break_encoding(byte);
}

/// No cycle touches what no wired instruction uses: the stack pointer, index
/// register Y, and the four flags besides negative, overflow, zero and
/// carry. The always-set bit stays as it was. Memory keeps its size.
pub proof fn lemma_step_keeps_unused(s: CpuState)
    ensures
        s.step().register_s == s.register_s,
        s.step().register_y == s.register_y,
        s.step().status.dummy_flag == s.status.dummy_flag,
        s.step().status.b_flag == s.status.b_flag,
        s.step().status.decimal == s.status.decimal,
        s.step().status.interrupt_disable == s.status.interrupt_disable,
        s.wf() ==> s.step().wf(),
{
}

/// The overflow rule of addition, on bytes. Flipping the top bit of a byte
/// adds 128 to its value as a signed number; the operand and the old
/// accumulator both differ in sign from the low byte of the sum exactly when
/// the sum of the two flipped bytes and the carry is below 128 or above 383.
proof fn lemma_overflow_rule(a: u8, data: u8, carry: u8, result: u8)
    by (bit_vector)
    requires
        carry <= 1,
        result == ((a as u16) + (data as u16) + (carry as u16)) % 256,
    ensures
        ((data ^ result) & (result ^ a) & 0x80 != 0) <==> (((a ^ 0x80) as u16) + ((data
            ^ 0x80) as u16) + (carry as u16) < 128 || ((a ^ 0x80) as u16) + ((data ^ 0x80) as u16)
            + (carry as u16) > 383),
        (a ^ 0x80) as u16 == (if a >= 128 { (a - 128) as u16 } else { (a + 128) as u16 }),
        (data ^ 0x80) as u16 == (if data >= 128 { (data - 128) as u16 } else { (data + 128) as u16 }),
{
}

/// Addition into the accumulator is addition of numbers: the accumulator
/// takes the sum modulo 256, carry says that the unsigned sum did not fit in
/// a byte, and overflow says that the signed sum did not.
pub proof fn lemma_add_to_accumulator(s: CpuState, data: u8)
    ensures
        ({
            let carry_in = if s.status.carry { 1int } else { 0int };
            let sum = s.add_to_accumulator(data);
            &&& sum.register_a == (s.register_a + data + carry_in) % 256
            &&& sum.status.carry <==> s.register_a + data + carry_in >= 256
            &&& sum.status.overflow <==> !(-128 <= signed(s.register_a) + signed(data) + carry_in
                <= 127)
            &&& sum == (CpuState {
                register_a: sum.register_a,
                status: FlagSet {
                    carry: sum.status.carry,
                    overflow: sum.status.overflow,
                    ..s.status
                },
                ..s
            })
        }),
{
    let carry: u8 = if s.status.carry { 1 } else { 0 };
    lemma_overflow_rule(s.register_a, data, carry, s.add_to_accumulator(data).register_a);
}

/// Subtraction with carry is subtraction of numbers with a borrow: the
/// operand is added as its complement `255 - operand`, so the accumulator
/// takes accumulator minus operand minus borrow modulo 256, where a clear
/// carry going in is a borrow of one, and the carry coming out is set exactly
/// when no borrow was needed.
pub proof fn lemma_sbc_subtracts(s: CpuState, opcode: OpCode)
    ensures
        ({
            let operand = s.operand(opcode.mode);
            let borrow = if s.status.carry { 0int } else { 1int };
            let after = s.sbc(opcode);
            &&& wrap8(-operand - 1) == 255 - operand
            &&& after.register_a == (s.register_a - operand - borrow) % 256
            &&& after.status.carry <==> s.register_a - operand - borrow >= 0
            &&& after.status.zero <==> after.register_a == 0
            &&& after.status.negative <==> after.register_a >= 128
        }),
{
}

/// Once a run has halted or faulted, more cycles change nothing: there is
/// one terminal condition for each run, and no resumption after it.
pub proof fn lemma_run_ends_once(s: CpuState, limit: nat, more: nat)
    requires
        s.run_outcome(limit) != ExecutionState::Running,
        limit <= more,
    ensures
        s.run_outcome(more) == s.run_outcome(limit),
        s.run(more) == s.run(limit),
    decreases limit,
{
    if limit > 0 && s.step_outcome() == ExecutionState::Running {
        lemma_run_ends_once(s.step(), (limit - 1) as nat, (more - 1) as nat);
    }
}

/// A run that is still going after `first` cycles goes on from where it
/// stands: `first + then` cycles are `first` cycles and `then` more.
pub proof fn lemma_run_continues(s: CpuState, first: nat, then: nat)
    requires
        s.run_outcome(first) == ExecutionState::Running,
    ensures
        s.run_outcome(first + then) == s.run(first).run_outcome(then),
        s.run(first + then) == s.run(first).run(then),
    decreases first,
{
    if first > 0 {
        lemma_run_continues(s.step(), (first - 1) as nat, then);
    }
}

/// One cycle is a run of one.
pub proof fn lemma_run_one(s: CpuState)
    ensures
        s.run_outcome(1) == s.step_outcome(),
        s.run(1) == s.step(),
{
    reveal_with_fuel(CpuState::run_outcome, 2);
    reveal_with_fuel(CpuState::run, 2);
}

/// A run keeps what no wired instruction uses, as each of its cycles does.
pub proof fn lemma_run_keeps_unused(s: CpuState, limit: nat)
    ensures
        s.run(limit).register_s == s.register_s,
        s.run(limit).register_y == s.register_y,
        s.run(limit).status.dummy_flag == s.status.dummy_flag,
        s.run(limit).status.b_flag == s.status.b_flag,
        s.run(limit).status.decimal == s.status.decimal,
        s.run(limit).status.interrupt_disable == s.status.interrupt_disable,
        s.wf() ==> s.run(limit).wf(),
    decreases limit,
{
    if limit > 0 {
        lemma_step_keeps_unused(s);
        if s.step_outcome() == ExecutionState::Running {
            lemma_run_keeps_unused(s.step(), (limit - 1) as nat);
        }
    }
}

/// A byte that was written is the byte that is read back, and a write
/// touches no other address.
pub proof fn lemma_read_after_write(s: CpuState, addr: u16, data: u8, other: u16)
    requires
        s.wf(),
    ensures
        s.write(addr, data).read(addr) == data,
        other != addr ==> s.write(addr, data).read(other) == s.read(other),
        s.write(addr, data).wf(),
{
}

/// A 16-bit value is stored low byte first, and is read back as it was
/// written.
pub proof fn lemma_word_round_trip(mem: Seq<u8>, addr: u16, value: u16)
    requires
        mem.len() == MEMORY_SIZE,
        addr < 0xFFFF,
    ensures
        word_at(with_word(mem, addr as int, value), addr as int) == value,
        with_word(mem, addr as int, value)[addr as int] == value % 256,
        with_word(mem, addr as int, value)[addr + 1] == value / 256,
        forall|k: int|
            0 <= k < MEMORY_SIZE && k != addr && k != addr + 1 ==> with_word(
                mem,
                addr as int,
                value,
            )[k] == mem[k],
{
}

/// What loading does to memory: the reset vector holds the load base, the
/// program's bytes stand from the load base upwards except where the reset
/// vector overwrites them, and everything below the load base and above the
/// program is kept. After a reset the program counter is at the load base.
pub proof fn lemma_load(s: CpuState, program: Seq<u8>)
    requires
        s.wf(),
        program.len() <= MAX_PROGRAM_LEN,
    ensures
        s.load(program).wf(),
        s.load(program).read_word(RESET_VECTOR) == PROGRAM_BASE,
        s.load(program).reset().program_counter == PROGRAM_BASE,
        s.load(program).reset() == CpuState::power_up(s.load(program).memory).reset(),
        forall|i: int|
            0 <= i < program.len() && PROGRAM_BASE + i != RESET_VECTOR && PROGRAM_BASE + i
                != RESET_VECTOR + 1 ==> s.load(program).memory[PROGRAM_BASE + i] == program[i],
        forall|k: int|
            0 <= k < MEMORY_SIZE && !(PROGRAM_BASE <= k < PROGRAM_BASE + program.len()) && k
                != RESET_VECTOR && k != RESET_VECTOR + 1 ==> s.load(program).memory[k]
                == s.memory[k],
{
    let copied = overlay(s.memory, PROGRAM_BASE as int, program);
    lemma_word_round_trip(copied, RESET_VECTOR, PROGRAM_BASE);
    assert(s.load(program).memory == with_program(s.memory, program));
}

/// The always-set bit is set by a reset and stays set however long the
/// machine runs from there.
pub proof fn lemma_always_set_bit(s: CpuState, limit: nat)
    ensures
        s.reset().status.dummy_flag,
        s.reset().run(limit).status.dummy_flag,
{
    lemma_run_keeps_unused(s.reset(), limit);
}

} // verus!
