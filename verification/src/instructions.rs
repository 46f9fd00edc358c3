//! The instruction handlers: one state transition per instruction kind.
//!
//! Each handler starts with the program counter at the first byte after the
//! opcode byte, and leaves it at the first byte after the instruction, or at
//! the target of a branch.

use vstd::prelude::*;
use crate::opcode::{AddressingMode, OpCode};
use crate::processor::Processor;

verus! {

/// Shifting a byte left by one doubles it in 8-bit wraparound arithmetic, and
/// its top bit is set exactly when it is at least 128.
proof fn lemma_shift_left(value: u8)
    by (bit_vector)
    ensures
        value << 1u8 == (2 * value) % 256,
        (value >> 7u8 == 1) <==> value >= 128,
{
}

/// Moves the program counter past the operand bytes of `opcode`.
pub fn advance_program_counter(cpu: &mut Processor, opcode: &OpCode)
    requires
        old(cpu)@.can_advance(*opcode),
    ensures
        final(cpu)@ == old(cpu)@.advance(*opcode),
{
    cpu.program_counter = cpu.program_counter + (opcode.bytes - 1) as u16;
}

/// Adds `data` and the carry flag to the accumulator, and sets carry and
/// overflow from the sum.
pub fn register_a_add(cpu: &mut Processor, data: u8)
    ensures
        final(cpu)@ == old(cpu)@.add_to_accumulator(data),
{
    let carry_in: u16 = if cpu.status.carry() { 1 } else { 0 };
    let sum: u16 = cpu.register_a as u16 + data as u16 + carry_in;
    cpu.status.set_carry(sum > 0xff);
    let result: u8 = (sum % 256) as u8;
    cpu.status.set_overflow((data ^ result) & (result ^ cpu.register_a) & 0x80 != 0);
    cpu.register_a = result;
}

/// Add with carry: the accumulator takes accumulator plus operand plus carry.
pub fn adc(cpu: &mut Processor, opcode: &OpCode)
    requires
        old(cpu)@.can_resolve(opcode.mode),
        old(cpu)@.can_advance(*opcode),
    ensures
        final(cpu)@ == old(cpu)@.adc(*opcode),
{
    let addr = cpu.get_operand_address(&opcode.mode);
    let addend = cpu.mem_read(addr);
    register_a_add(cpu, addend);
    let result = cpu.register_a;
    cpu.status.zero_negative_flags(result);
    advance_program_counter(cpu, opcode);
}

/// Logical and: the accumulator takes accumulator and operand.
pub fn and(cpu: &mut Processor, opcode: &OpCode)
    requires
        old(cpu)@.can_resolve(opcode.mode),
        old(cpu)@.can_advance(*opcode),
    ensures
        final(cpu)@ == old(cpu)@.and(*opcode),
{
    let addr = cpu.get_operand_address(&opcode.mode);
    let operand = cpu.mem_read(addr);
    let result = cpu.register_a & operand;
    cpu.register_a = result;
    cpu.status.zero_negative_flags(result);
    advance_program_counter(cpu, opcode);
}

/// Arithmetic shift left, of the accumulator when the mode names no address
/// and of the operand in memory otherwise.
pub fn asl(cpu: &mut Processor, opcode: &OpCode)
    requires
        opcode.mode != AddressingMode::NoneAddressing ==> old(cpu)@.can_resolve(opcode.mode),
        old(cpu)@.can_advance(*opcode),
    ensures
        final(cpu)@ == old(cpu)@.asl(*opcode),
{
    if opcode.mode == AddressingMode::NoneAddressing {
        asl_accumulator(cpu, opcode);
        return ;
    }
    let addr = cpu.get_operand_address(&opcode.mode);
    let value = cpu.mem_read(addr);
    proof {
        lemma_shift_left(value);
    }
    cpu.status.set_carry(value >> 7 == 1);
    let shifted = value << 1;
    cpu.mem_write(addr, shifted);
    cpu.status.zero_negative_flags(shifted);
    advance_program_counter(cpu, opcode);
}

/// Arithmetic shift left of the accumulator.
pub fn asl_accumulator(cpu: &mut Processor, opcode: &OpCode)
    requires
        opcode.mode == AddressingMode::NoneAddressing,
        old(cpu)@.can_advance(*opcode),
    ensures
        final(cpu)@ == old(cpu)@.asl(*opcode),
{
    let value = cpu.register_a;
    proof {
        lemma_shift_left(value);
    }
    cpu.status.set_carry(value >> 7 == 1);
    let shifted = value << 1;
    cpu.register_a = shifted;
    cpu.status.zero_negative_flags(shifted);
    advance_program_counter(cpu, opcode);
}

/// Branch if carry clear.
pub fn bcc(cpu: &mut Processor)
    ensures
        final(cpu)@ == old(cpu)@.bcc(),
{
    let carry = cpu.status.carry();
    cpu.branch(!carry);
}

/// Branch if carry set.
pub fn bcs(cpu: &mut Processor)
    ensures
        final(cpu)@ == old(cpu)@.bcs(),
{
    let carry = cpu.status.carry();
    cpu.branch(carry);
}

/// Branch if the zero flag is set.
pub fn beq(cpu: &mut Processor)
    ensures
        final(cpu)@ == old(cpu)@.beq(),
{
    let zero = cpu.status.zero();
    cpu.branch(zero);
}

/// Bit test. The accumulator itself takes accumulator and operand; overflow
/// and negative take bits 6 and 7 of that result.
pub fn bit(cpu: &mut Processor, opcode: &OpCode)
    requires
        old(cpu)@.can_resolve(opcode.mode),
        old(cpu)@.can_advance(*opcode),
    ensures
        final(cpu)@ == old(cpu)@.bit(*opcode),
{
    let addr = cpu.get_operand_address(&opcode.mode);
    let operand = cpu.mem_read(addr);
    let result = cpu.register_a & operand;
    cpu.status.set_overflow(result & 0b0100_0000 != 0);
    cpu.status.set_negative(result & 0b1000_0000 != 0);
    cpu.register_a = result;
    cpu.status.zero_negative_flags(result);
    advance_program_counter(cpu, opcode);
}

/// Increment X with 8-bit wraparound.
pub fn inx(cpu: &mut Processor)
    ensures
        final(cpu)@ == old(cpu)@.inx(),
{
    let result = cpu.register_x.wrapping_add(1);
    cpu.register_x = result;
    cpu.status.zero_negative_flags(result);
}

/// Load the accumulator with the operand.
pub fn lda(cpu: &mut Processor, opcode: &OpCode)
    requires
        old(cpu)@.can_resolve(opcode.mode),
        old(cpu)@.can_advance(*opcode),
    ensures
        final(cpu)@ == old(cpu)@.lda(*opcode),
{
    let addr = cpu.get_operand_address(&opcode.mode);
    let value = cpu.mem_read(addr);
    cpu.register_a = value;
    cpu.status.zero_negative_flags(value);
    advance_program_counter(cpu, opcode);
}

/// Subtract with carry: addition of the operand negated and lessened by one
/// in 8-bit wraparound arithmetic, so that a clear carry is a borrow.
pub fn sbc(cpu: &mut Processor, opcode: &OpCode)
    requires
        old(cpu)@.can_resolve(opcode.mode),
        old(cpu)@.can_advance(*opcode),
    ensures
        final(cpu)@ == old(cpu)@.sbc(*opcode),
{
    let addr = cpu.get_operand_address(&opcode.mode);
    let addend = cpu.mem_read(addr);
    register_a_add(cpu, 255 - addend);
    let result = cpu.register_a;
    cpu.status.zero_negative_flags(result);
    advance_program_counter(cpu, opcode);
}

/// Store the accumulator at the operand address. No flag changes.
pub fn sta(cpu: &mut Processor, opcode: &OpCode)
    requires
        old(cpu)@.can_resolve(opcode.mode),
        old(cpu)@.can_advance(*opcode),
    ensures
        final(cpu)@ == old(cpu)@.sta(*opcode),
{
    let addr = cpu.get_operand_address(&opcode.mode);
    let value = cpu.register_a;
    cpu.mem_write(addr, value);
    advance_program_counter(cpu, opcode);
}

/// Transfer the accumulator to X.
pub fn tax(cpu: &mut Processor)
    ensures
        final(cpu)@ == old(cpu)@.tax(),
{
    let value = cpu.register_a;
    cpu.register_x = value;
    cpu.status.zero_negative_flags(value);
}

} // verus!
