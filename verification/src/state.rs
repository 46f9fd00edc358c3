//! The mathematical model of the machine: its state as plain values, and
//! each instruction as a function from state to state.

use vstd::prelude::*;
use crate::memory::{with_program, word_at, MEMORY_SIZE};
use crate::opcode::{AddressingMode, OpCode, ProcessorAction};
use crate::status_flags::FlagSet;
use crate::table::decode;

verus! {

/// Why a run stopped without halting.
#[derive(Debug, Copy, Clone, Eq, PartialEq, Structural)]
pub enum CpuFault {
    /// The fetched byte matches no entry of the opcode table.
    UnrecognizedOpcode { byte: u8, address: u16 },
    /// The fetched byte is in the table, but its kind has no handler.
    UnimplementedOpcode { byte: u8, address: u16 },
    /// The instruction's handler resolves an operand address, and the
    /// entry's mode names none.
    InvalidAddressingMode { byte: u8, address: u16 },
    /// The instruction at `address` does not lie wholly below the top of the
    /// address space.
    AddressOutOfRange { address: u16 },
    /// The program is longer than the space above the load base.
    ProgramTooLarge { length: usize },
}

/// Where the execution loop stands.
#[derive(Debug, Copy, Clone, Eq, PartialEq, Structural)]
pub enum ExecutionState {
    /// More instructions may be fetched.
    Running,
    /// A break instruction ended the run.
    Halted,
    /// The run ended on a fault.
    Faulted(CpuFault),
}

/// The value of `i` in 8-bit wraparound arithmetic.
pub open spec fn wrap8(i: int) -> u8 {
    (i % 256) as u8
}

/// The value of `i` in 16-bit wraparound arithmetic.
pub open spec fn wrap16(i: int) -> u16 {
    (i % 65536) as u16
}

/// A byte read as a two's-complement number.
pub open spec fn signed(byte: u8) -> int {
    if byte >= 128 {
        byte - 256
    } else {
        byte as int
    }
}

/// The state of the machine as plain values.
pub struct CpuState {
    pub register_a: u8,
    pub register_x: u8,
    pub register_y: u8,
    pub register_s: u8,
    pub status: FlagSet,
    pub program_counter: u16,
    pub memory: Seq<u8>,
}

impl CpuState {
    /// Memory has one byte for each 16-bit address.
    pub open spec fn wf(self) -> bool {
        self.memory.len() == MEMORY_SIZE
    }

    /// The power-up state over the given memory: registers and program
    /// counter zero, only the always-set flag set.
    pub open spec fn power_up(memory: Seq<u8>) -> CpuState {
        CpuState {
            register_a: 0,
            register_x: 0,
            register_y: 0,
            register_s: 0,
            status: FlagSet::power_up(),
            program_counter: 0,
            memory,
        }
    }

    /// The byte at `addr`.
    pub open spec fn read(self, addr: u16) -> u8 {
        self.memory[addr as int]
    }

    /// The little-endian 16-bit value at `addr` and `addr + 1`.
    pub open spec fn read_word(self, addr: u16) -> u16 {
        word_at(self.memory, addr as int) as u16
    }

    /// The little-endian 16-bit value at the zero-page address `ptr`, its
    /// high byte fetched from `ptr + 1` wrapped within page zero.
    pub open spec fn zero_page_word(self, ptr: u8) -> u16 {
        (self.read(ptr as u16) + 256 * self.read(wrap8(ptr + 1) as u16)) as u16
    }

    /// This state with `data` stored at `addr`.
    pub open spec fn write(self, addr: u16, data: u8) -> CpuState {
        CpuState { memory: self.memory.update(addr as int, data), ..self }
    }

    /// This state with `program` loaded: its bytes from the load base
    /// upwards, and the load base in the reset vector.
    pub open spec fn load(self, program: Seq<u8>) -> CpuState {
        CpuState { memory: with_program(self.memory, program), ..self }
    }

    /// This state after a reset: power-up registers and flags, memory kept,
    /// the program counter loaded from the reset vector.
    pub open spec fn reset(self) -> CpuState {
        CpuState {
            program_counter: self.read_word(crate::memory::RESET_VECTOR),
            ..CpuState::power_up(self.memory)
        }
    }

    /// Whether an operand address can be resolved in `mode` with the program
    /// counter at the first operand byte: the mode names an address, and a
    /// two-byte operand lies below the top of the address space.
    pub open spec fn can_resolve(self, mode: AddressingMode) -> bool {
        &&& mode != AddressingMode::NoneAddressing
        &&& mode.reads_word() ==> self.program_counter < 0xFFFF
    }

    /// The effective address of an instruction in `mode`, with the program
    /// counter at the first operand byte.
    pub open spec fn operand_address(self, mode: AddressingMode) -> u16 {
        let pc = self.program_counter;
        match mode {
            AddressingMode::Immediate => pc,
            AddressingMode::ZeroPage => self.read(pc) as u16,
            AddressingMode::ZeroPage_X => wrap8(self.read(pc) + self.register_x) as u16,
            AddressingMode::ZeroPage_Y => wrap8(self.read(pc) + self.register_y) as u16,
            AddressingMode::Absolute => self.read_word(pc),
            AddressingMode::Absolute_X => wrap16(self.read_word(pc) + self.register_x),
            AddressingMode::Absolute_Y => wrap16(self.read_word(pc) + self.register_y),
            AddressingMode::Indirect_X => self.zero_page_word(
                wrap8(self.read(pc) + self.register_x),
            ),
            AddressingMode::Indirect_Y => wrap16(
                self.zero_page_word(self.read(pc)) + self.register_y,
            ),
            AddressingMode::Relative => wrap16(pc + 1 + signed(self.read(pc))),
            AddressingMode::NoneAddressing => pc,
        }
    }

    /// The operand of an instruction in `mode`: the byte at its effective
    /// address.
    pub open spec fn operand(self, mode: AddressingMode) -> u8 {
        self.read(self.operand_address(mode))
    }

    /// Whether the program counter can move past the operand bytes of
    /// `opcode` without leaving the address space.
    pub open spec fn can_advance(self, opcode: OpCode) -> bool {
        1 <= opcode.bytes && self.program_counter + opcode.bytes - 1 <= 0xFFFF
    }

    /// This state with the program counter moved past the operand bytes of
    /// `opcode`.
    pub open spec fn advance(self, opcode: OpCode) -> CpuState {
        CpuState {
            program_counter: (self.program_counter + opcode.bytes - 1) as u16,
            ..self
        }
    }

    /// This state with zero and negative recomputed from `value`.
    pub open spec fn with_zero_negative(self, value: u8) -> CpuState {
        CpuState { status: self.status.with_zero_negative(value), ..self }
    }

    /// The core of addition: accumulator plus `data` plus carry-in. The
    /// accumulator takes the low eight bits of the sum, carry is set exactly
    /// when the sum exceeds `0xFF`, and overflow exactly when `data` and the
    /// old accumulator both differ in sign from the result.
    pub open spec fn add_to_accumulator(self, data: u8) -> CpuState {
        let sum = self.register_a + data + (if self.status.carry { 1int } else { 0int });
        let result = wrap8(sum);
        CpuState {
            register_a: result,
            status: FlagSet {
                carry: sum > 0xFF,
                overflow: (data ^ result) & (result ^ self.register_a) & 0x80 != 0,
                ..self.status
            },
            ..self
        }
    }

    /// Add with carry.
    pub open spec fn adc(self, opcode: OpCode) -> CpuState {
        let sum = self.add_to_accumulator(self.operand(opcode.mode));
        sum.with_zero_negative(sum.register_a).advance(opcode)
    }

    /// Subtract with carry: addition of the operand negated and lessened by
    /// one in 8-bit wraparound arithmetic, so that a clear carry is a borrow.
    pub open spec fn sbc(self, opcode: OpCode) -> CpuState {
        let sum = self.add_to_accumulator(wrap8(-self.operand(opcode.mode) - 1));
        sum.with_zero_negative(sum.register_a).advance(opcode)
    }

    /// Logical and into the accumulator.
    pub open spec fn and(self, opcode: OpCode) -> CpuState {
        let result = self.register_a & self.operand(opcode.mode);
        CpuState { register_a: result, ..self }.with_zero_negative(result).advance(opcode)
    }

    /// This state with carry taking the top bit of `value`.
    pub open spec fn with_shift_carry(self, value: u8) -> CpuState {
        CpuState { status: FlagSet { carry: value >= 128, ..self.status }, ..self }
    }

    /// Shift left by one: of the accumulator when the mode names no address,
    /// else of the operand in memory. Carry takes the bit shifted out.
    pub open spec fn asl(self, opcode: OpCode) -> CpuState {
        if opcode.mode == AddressingMode::NoneAddressing {
            let shifted = wrap8(2 * self.register_a);
            CpuState {
                register_a: shifted,
                ..self.with_shift_carry(self.register_a)
            }.with_zero_negative(shifted).advance(opcode)
        } else {
            let addr = self.operand_address(opcode.mode);
            let value = self.read(addr);
            let shifted = wrap8(2 * value);
            self.with_shift_carry(value).write(addr, shifted).with_zero_negative(shifted).advance(
                opcode,
            )
        }
    }

    /// Bit test: the accumulator takes accumulator and operand; overflow
    /// takes bit 6 of the result, negative bit 7, zero whether it is 0.
    pub open spec fn bit(self, opcode: OpCode) -> CpuState {
        let result = self.register_a & self.operand(opcode.mode);
        CpuState {
            register_a: result,
            status: FlagSet { overflow: result & 0x40 != 0, ..self.status },
            ..self
        }.with_zero_negative(result).advance(opcode)
    }

    /// Load the accumulator.
    pub open spec fn lda(self, opcode: OpCode) -> CpuState {
        let value = self.operand(opcode.mode);
        CpuState { register_a: value, ..self }.with_zero_negative(value).advance(opcode)
    }

    /// Store the accumulator; no flag changes.
    pub open spec fn sta(self, opcode: OpCode) -> CpuState {
        self.write(self.operand_address(opcode.mode), self.register_a).advance(opcode)
    }

    /// Transfer the accumulator to X.
    pub open spec fn tax(self) -> CpuState {
        CpuState { register_x: self.register_a, ..self }.with_zero_negative(self.register_a)
    }

    /// Increment X with 8-bit wraparound.
    pub open spec fn inx(self) -> CpuState {
        let result = wrap8(self.register_x + 1);
        CpuState { register_x: result, ..self }.with_zero_negative(result)
    }

    /// A conditional branch, with the program counter at the offset byte:
    /// taken, it goes to the relative target; not taken, it moves past the
    /// offset byte.
    pub open spec fn branch(self, condition: bool) -> CpuState {
        CpuState {
            program_counter: if condition {
                self.operand_address(AddressingMode::Relative)
            } else {
                wrap16(self.program_counter + 1)
            },
            ..self
        }
    }

    /// Branch if carry clear.
    pub open spec fn bcc(self) -> CpuState {
        self.branch(!self.status.carry)
    }

    /// Branch if carry set.
    pub open spec fn bcs(self) -> CpuState {
        self.branch(self.status.carry)
    }

    /// Branch if zero set.
    pub open spec fn beq(self) -> CpuState {
        self.branch(self.status.zero)
    }

    /// Whether the instruction `opcode`, whose opcode byte is at the program
    /// counter, lies wholly below the top of the address space: the byte
    /// after the opcode byte, the operand bytes that the handler moves past,
    /// the byte after a branch's offset, and a two-byte operand that the
    /// handler reads.
    pub open spec fn fits(self, opcode: OpCode) -> bool {
        &&& self.program_counter < 0xFFFF
        &&& opcode.action.is_branch() ==> self.program_counter + 2 <= 0xFFFF
        &&& opcode.advances() ==> 1 <= opcode.bytes && self.program_counter + opcode.bytes
            <= 0xFFFF
        &&& opcode.resolves_operand() && opcode.mode.reads_word() ==> self.program_counter + 1
            < 0xFFFF
    }

    /// The fault on which the instruction `opcode`, whose opcode byte is at
    /// the program counter, ends the run; none if it can be executed.
    pub open spec fn fault(self, opcode: OpCode) -> Option<CpuFault> {
        let address = self.program_counter;
        if !opcode.action.is_wired() {
            Some(CpuFault::UnimplementedOpcode { byte: opcode.hex, address })
        } else if opcode.action.needs_address() && opcode.mode == AddressingMode::NoneAddressing {
            Some(CpuFault::InvalidAddressingMode { byte: opcode.hex, address })
        } else if !self.fits(opcode) {
            Some(CpuFault::AddressOutOfRange { address })
        } else {
            None
        }
    }

    /// This state with the program counter moved past the opcode byte.
    pub open spec fn fetched(self) -> CpuState {
        CpuState { program_counter: (self.program_counter + 1) as u16, ..self }
    }

    /// The effect of the handler of `opcode` on this state, in which the
    /// program counter is at the first byte after the opcode byte. A break
    /// has no handler and no effect.
    pub open spec fn dispatch(self, opcode: OpCode) -> CpuState {
        match opcode.action {
            ProcessorAction::ADC => self.adc(opcode),
            ProcessorAction::AND => self.and(opcode),
            ProcessorAction::ASL => self.asl(opcode),
            ProcessorAction::BCC => self.bcc(),
            ProcessorAction::BCS => self.bcs(),
            ProcessorAction::BEQ => self.beq(),
            ProcessorAction::BIT => self.bit(opcode),
            ProcessorAction::INX => self.inx(),
            ProcessorAction::LDA => self.lda(opcode),
            ProcessorAction::SBC => self.sbc(opcode),
            ProcessorAction::STA => self.sta(opcode),
            ProcessorAction::TAX => self.tax(),
            _ => self,
        }
    }

    /// Where the loop stands after the instruction `opcode`, whose opcode
    /// byte is at the program counter.
    pub open spec fn execute_outcome(self, opcode: OpCode) -> ExecutionState {
        match self.fault(opcode) {
            Some(fault) => ExecutionState::Faulted(fault),
            None => if opcode.action == ProcessorAction::BRK {
                ExecutionState::Halted
            } else {
                ExecutionState::Running
            },
        }
    }

    /// The state after the instruction `opcode`, whose opcode byte is at the
    /// program counter. A fault leaves the state as it was.
    pub open spec fn execute(self, opcode: OpCode) -> CpuState {
        if self.fault(opcode) is Some {
            self
        } else {
            self.fetched().dispatch(opcode)
        }
    }

    /// Where the loop stands after one fetch-decode-execute cycle.
    pub open spec fn step_outcome(self) -> ExecutionState {
        let byte = self.read(self.program_counter);
        match decode(byte) {
            Some(opcode) => self.execute_outcome(opcode),
            None => ExecutionState::Faulted(
                CpuFault::UnrecognizedOpcode { byte, address: self.program_counter },
            ),
        }
    }

    /// The state after one fetch-decode-execute cycle. A fault leaves the
    /// state as it was.
    pub open spec fn step(self) -> CpuState {
        match decode(self.read(self.program_counter)) {
            Some(opcode) => self.execute(opcode),
            None => self,
        }
    }

    /// Where the loop stands after at most `limit` cycles: it stops at the
    /// first cycle that halts or faults, and is still running if none of
    /// the `limit` cycles did.
    pub open spec fn run_outcome(self, limit: nat) -> ExecutionState
        decreases limit,
    {
        if limit == 0 {
            ExecutionState::Running
        } else if self.step_outcome() == ExecutionState::Running {
            self.step().run_outcome((limit - 1) as nat)
        } else {
            self.step_outcome()
        }
    }

    /// The state after at most `limit` cycles, the last of them the first
    /// that halts or faults.
    pub open spec fn run(self, limit: nat) -> CpuState
        decreases limit,
    {
        if limit == 0 {
            self
        } else if self.step_outcome() == ExecutionState::Running {
            self.step().run((limit - 1) as nat)
        } else {
            self.step()
        }
    }
}

} // verus!
