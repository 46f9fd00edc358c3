//! The processor: registers, flags, program counter and memory, with the
//! addressing-mode resolver and the fetch-decode-execute loop.

use vstd::prelude::*;
use crate::memory::{with_word, Memory, MAX_PROGRAM_LEN, MEMORY_SIZE, RESET_VECTOR};
use crate::instructions;
use crate::opcode::{AddressingMode, OpCode, ProcessorAction};
use crate::state::{signed, wrap16, wrap8, CpuFault, CpuState, ExecutionState};
use crate::status_flags::CPUStatusFlags;
use crate::table::{cpu_opcodes, find_opcode, opcode_table};

verus! {

/// The most cycles that one call of [`Processor::run`] performs.
pub const RUN_LIMIT: u64 = 0xFFFF_FFFF_FFFF_FFFF;

/// The state of one emulated processor. Contracts speak of it through its
/// view, a [`CpuState`].
pub struct Processor {
    /// The accumulator.
    pub register_a: u8,
    /// Index register X.
    pub register_x: u8,
    /// Index register Y.
    pub register_y: u8,
    /// The stack pointer; tracked, and used by no instruction yet.
    pub register_s: u8,
    /// The status flags.
    pub status: CPUStatusFlags,
    /// Address of the next byte to fetch.
    pub program_counter: u16,
    /// The memory, owned by the processor alone.
    pub memory: Memory,
}

impl View for Processor {
    type V = CpuState;

    open spec fn view(&self) -> CpuState {
        CpuState {
            register_a: self.register_a,
            register_x: self.register_x,
            register_y: self.register_y,
            register_s: self.register_s,
            status: self.status@,
            program_counter: self.program_counter,
            memory: self.memory@,
        }
    }
}

/// The sum of two bytes in 8-bit wraparound arithmetic.
fn add_wrapping_u8(a: u8, b: u8) -> (sum: u8)
    ensures
        sum == wrap8(a + b),
{
    a.wrapping_add(b)
}

/// The sum of an address and a byte in 16-bit wraparound arithmetic.
fn add_wrapping_u16(a: u16, b: u8) -> (sum: u16)
    ensures
        sum == wrap16(a + b),
{
    a.wrapping_add(b as u16)
}

/// The target of a relative branch whose offset byte is at `pc`: the address
/// after the offset byte plus the signed offset, in 16-bit wraparound
/// arithmetic.
fn relative_target(pc: u16, offset: u8) -> (target: u16)
    ensures
        target == wrap16(pc + 1 + signed(offset)),
{
    let next = pc.wrapping_add(1);
    if offset < 128 {
        next.wrapping_add(offset as u16)
    } else {
        next.wrapping_sub(256 - offset as u16)
    }
}

impl Processor {
    /// The memory of every processor covers the whole address space.
    pub proof fn lemma_wf(&self)
        ensures
            self@.wf(),
    {
        self.memory.lemma_covers_address_space();
    }

    /// A processor in the power-up state, with all of memory zero.
    pub fn new() -> (cpu: Self)
        ensures
            cpu@.wf(),
            cpu@ == CpuState::power_up(cpu@.memory),
            forall|i: int| 0 <= i < MEMORY_SIZE ==> cpu@.memory[i] == 0,
    {
        Processor {
            register_a: 0,
            register_x: 0,
            register_y: 0,
            register_s: 0,
            status: CPUStatusFlags::default(),
            program_counter: 0,
            memory: Memory::new(),
        }
    }

    /// The byte at `addr`.
    pub fn mem_read(&self, addr: u16) -> (data: u8)
        ensures
            data == self@.read(addr),
    {
        self.memory.read(addr)
    }

    /// Stores `data` at `addr`; nothing else changes.
    pub fn mem_write(&mut self, addr: u16, data: u8)
        ensures
            final(self)@ == old(self)@.write(addr, data),
            final(self)@.wf(),
    {
        self.memory.write(addr, data);
    }

    /// The little-endian 16-bit value at `pos` and `pos + 1`.
    pub fn mem_read_u16(&self, pos: u16) -> (data: u16)
        requires
            pos < 0xFFFF,
        ensures
            data == self@.read_word(pos),
    {
        self.memory.read_u16(pos)
    }

    /// Stores `data` little-endian at `pos` and `pos + 1`; nothing else
    /// changes.
    pub fn mem_write_u16(&mut self, pos: u16, data: u16)
        requires
            pos < 0xFFFF,
        ensures
            final(self)@ == (CpuState {
                memory: with_word(old(self)@.memory, pos as int, data),
                ..old(self)@
            }),
            final(self)@.wf(),
    {
        self.memory.write_u16(pos, data);
    }

    /// Copies `program` to the load base and points the reset vector at it.
    /// A program longer than the space above the load base is refused, and
    /// nothing changes.
    pub fn load(&mut self, program: Vec<u8>) -> (loaded: Result<(), CpuFault>)
        ensures
            program@.len() <= MAX_PROGRAM_LEN ==> loaded is Ok && final(self)@ == old(self)@.load(
                program@,
            ),
            program@.len() > MAX_PROGRAM_LEN ==> loaded == Err::<(), CpuFault>(
                CpuFault::ProgramTooLarge { length: program.len() },
            ) && final(self)@ == old(self)@,
            final(self)@.wf(),
    {
        proof {
            self.lemma_wf();
        }
        if program.len() > MAX_PROGRAM_LEN {
            return Err(CpuFault::ProgramTooLarge { length: program.len() });
        }
        self.memory.load(&program);
        Ok(())
    }

    /// Puts registers and flags back to their power-up values and loads the
    /// program counter from the reset vector. Memory is kept.
    pub fn reset(&mut self)
        ensures
            final(self)@ == old(self)@.reset(),
    {
        self.register_a = 0;
        self.register_x = 0;
        self.register_y = 0;
        self.register_s = 0;
        self.status = CPUStatusFlags::default();
        self.program_counter = self.mem_read_u16(RESET_VECTOR);
    }

    /// A conditional branch, with the program counter at the offset byte.
    /// Taken, the program counter goes to the address after the offset byte
    /// plus the signed offset, with 16-bit wraparound; not taken, it moves
    /// past the offset byte.
    pub fn branch(&mut self, condition: bool)
        ensures
            final(self)@ == old(self)@.branch(condition),
    {
        if condition {
            self.program_counter = self.get_operand_address(&AddressingMode::Relative);
        } else {
            self.program_counter = add_wrapping_u16(self.program_counter, 1);
        }
    }

    /// The little-endian 16-bit value at the zero-page address `ptr`; the
    /// high byte comes from `ptr + 1` wrapped within page zero.
    fn zero_page_word(&self, ptr: u8) -> (word: u16)
        ensures
            word == self@.zero_page_word(ptr),
    {
        let lo = self.mem_read(ptr as u16);
        let hi = self.mem_read(add_wrapping_u8(ptr, 1) as u16);
        lo as u16 + (hi as u16) * 256
    }

    /// Whether an operand address can be resolved in `mode` with the program
    /// counter at the first operand byte.
    pub fn can_resolve(&self, mode: &AddressingMode) -> (ok: bool)
        ensures
            ok == self@.can_resolve(*mode),
    {
        match mode {
            AddressingMode::NoneAddressing => false,
            _ => !mode.reads_word() || self.program_counter < 0xFFFF,
        }
    }

    /// Whether the program counter can move past the operand bytes of
    /// `opcode` without leaving the address space.
    pub fn can_advance(&self, opcode: &OpCode) -> (ok: bool)
        ensures
            ok == self@.can_advance(*opcode),
    {
        opcode.bytes >= 1 && 0xFFFF - self.program_counter >= (opcode.bytes - 1) as u16
    }

    /// The effective address of an instruction in `mode`, with the program
    /// counter at the first operand byte.
    pub fn get_operand_address(&self, mode: &AddressingMode) -> (addr: u16)
        requires
            self@.can_resolve(*mode),
        ensures
            addr == self@.operand_address(*mode),
    {
        let pc = self.program_counter;
        match mode {
            AddressingMode::Immediate => pc,
            AddressingMode::ZeroPage => self.mem_read(pc) as u16,
            AddressingMode::Absolute => self.mem_read_u16(pc),
            AddressingMode::ZeroPage_X => {
                let pos = self.mem_read(pc);
                add_wrapping_u8(pos, self.register_x) as u16
            },
            AddressingMode::ZeroPage_Y => {
                let pos = self.mem_read(pc);
                add_wrapping_u8(pos, self.register_y) as u16
            },
            AddressingMode::Absolute_X => {
                let base = self.mem_read_u16(pc);
                add_wrapping_u16(base, self.register_x)
            },
            AddressingMode::Absolute_Y => {
                let base = self.mem_read_u16(pc);
                add_wrapping_u16(base, self.register_y)
            },
            AddressingMode::Indirect_X => {
                let base = self.mem_read(pc);
                self.zero_page_word(add_wrapping_u8(base, self.register_x))
            },
            AddressingMode::Indirect_Y => {
                let base = self.mem_read(pc);
                let deref_base = self.zero_page_word(base);
                add_wrapping_u16(deref_base, self.register_y)
            },
            AddressingMode::Relative => {
                let offset = self.mem_read(pc);
                relative_target(pc, offset)
            },
            AddressingMode::NoneAddressing => pc,
        }
    }

    /// Whether the instruction `opcode`, whose opcode byte is at the program
    /// counter, lies wholly below the top of the address space.
    pub fn fits(&self, opcode: &OpCode) -> (ok: bool)
        ensures
            ok == self@.fits(*opcode),
    {
        let pc = self.program_counter;
        if pc == 0xFFFF {
            return false;
        }
        if opcode.action.is_branch() && pc == 0xFFFE {
            return false;
        }
        if opcode.advances() && (opcode.bytes == 0 || 0xFFFF - pc < opcode.bytes as u16) {
            return false;
        }
        if opcode.resolves_operand() && opcode.mode.reads_word() && pc == 0xFFFE {
            return false;
        }
        true
    }

    /// Executes the instruction `opcode`, whose opcode byte is at the program
    /// counter: moves past the opcode byte and hands over to the handler of
    /// its kind. A kind without a handler, a mode that the handler cannot
    /// resolve, and an instruction that reaches past the top of the address
    /// space are faults, and leave the processor as it was.
    pub fn execute(&mut self, opcode: &OpCode) -> (outcome: ExecutionState)
        ensures
            outcome == old(self)@.execute_outcome(*opcode),
            final(self)@ == old(self)@.execute(*opcode),
    {
        let address = self.program_counter;
        if !opcode.action.is_wired() {
            return ExecutionState::Faulted(
                CpuFault::UnimplementedOpcode { byte: opcode.hex, address },
            );
        }
        if opcode.action.needs_address() && opcode.mode == AddressingMode::NoneAddressing {
            return ExecutionState::Faulted(
                CpuFault::InvalidAddressingMode { byte: opcode.hex, address },
            );
        }
        if !self.fits(opcode) {
            return ExecutionState::Faulted(CpuFault::AddressOutOfRange { address });
        }
        self.program_counter = address + 1;
        match opcode.action {
            ProcessorAction::ADC => instructions::adc(self, opcode),
            ProcessorAction::AND => instructions::and(self, opcode),
            ProcessorAction::ASL => instructions::asl(self, opcode),
            ProcessorAction::BCC => instructions::bcc(self),
            ProcessorAction::BCS => instructions::bcs(self),
            ProcessorAction::BEQ => instructions::beq(self),
            ProcessorAction::BIT => instructions::bit(self, opcode),
            ProcessorAction::BRK => {
                return ExecutionState::Halted;
            },
            ProcessorAction::INX => instructions::inx(self),
            ProcessorAction::LDA => instructions::lda(self, opcode),
            ProcessorAction::SBC => instructions::sbc(self, opcode),
            ProcessorAction::STA => instructions::sta(self, opcode),
            ProcessorAction::TAX => instructions::tax(self),
            _ => {},
        }
        ExecutionState::Running
    }

    /// One fetch-decode-execute cycle against the given copy of the opcode
    /// table.
    fn step_with(&mut self, table: &Vec<OpCode>) -> (outcome: ExecutionState)
        requires
            table@ == opcode_table(),
        ensures
            outcome == old(self)@.step_outcome(),
            final(self)@ == old(self)@.step(),
    {
        let address = self.program_counter;
        let byte = self.mem_read(address);
        match find_opcode(table, byte) {
            Some(opcode) => self.execute(&opcode),
            None => ExecutionState::Faulted(CpuFault::UnrecognizedOpcode { byte, address }),
        }
    }

    /// One fetch-decode-execute cycle: fetches the byte at the program
    /// counter, looks it up in the opcode table and executes the instruction
    /// it encodes. A byte that the table does not hold is a fault that names
    /// the byte and its address, and leaves the processor as it was.
    pub fn step(&mut self) -> (outcome: ExecutionState)
        ensures
            outcome == old(self)@.step_outcome(),
            final(self)@ == old(self)@.step(),
    {
        let table = cpu_opcodes();
        self.step_with(&table)
    }

    /// Runs cycles until one halts or faults, and at most `limit` of them.
    /// The result is `Running` exactly when none of `limit` cycles ended
    /// the run.
    pub fn run_for(&mut self, limit: u64) -> (outcome: ExecutionState)
        ensures
            outcome == old(self)@.run_outcome(limit as nat),
            final(self)@ == old(self)@.run(limit as nat),
    {
        let table = cpu_opcodes();
        let ghost start = self@;
        let mut remaining = limit;
        while remaining > 0
            invariant
                table@ == opcode_table(),
                start == old(self)@,
                start.run_outcome(limit as nat) == self@.run_outcome(remaining as nat),
                start.run(limit as nat) == self@.run(remaining as nat),
            decreases remaining,
        {
            let outcome = self.step_with(&table);
            if outcome != ExecutionState::Running {
                return outcome;
            }
            remaining = remaining - 1;
        }
        ExecutionState::Running
    }

    /// Runs cycles until one halts or faults.
    pub fn run(&mut self) -> (outcome: ExecutionState)
        ensures
            outcome == old(self)@.run_outcome(RUN_LIMIT as nat),
            final(self)@ == old(self)@.run(RUN_LIMIT as nat),
    {
        self.run_for(RUN_LIMIT)
    }

    /// Loads `program`, resets the processor and runs it. A program that is
    /// too long to load is a fault, and leaves the processor as it was.
    pub fn load_and_run(&mut self, program: Vec<u8>) -> (outcome: ExecutionState)
        ensures
            program@.len() > MAX_PROGRAM_LEN ==> outcome == ExecutionState::Faulted(
                CpuFault::ProgramTooLarge { length: program.len() },
            ) && final(self)@ == old(self)@,
            program@.len() <= MAX_PROGRAM_LEN ==> outcome == old(self)@.load(
                program@,
            ).reset().run_outcome(RUN_LIMIT as nat) && final(self)@ == old(self)@.load(
                program@,
            ).reset().run(RUN_LIMIT as nat),
    {
        match self.load(program) {
            Err(fault) => ExecutionState::Faulted(fault),
            Ok(()) => {
                self.reset();
                self.run()
            },
        }
    }
}

} // verus!
