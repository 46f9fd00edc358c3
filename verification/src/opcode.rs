//! Instruction kinds, addressing modes and opcode-table entries.

use vstd::prelude::*;

verus! {

/// How an instruction finds its operand.
#[allow(non_camel_case_types)]
#[derive(Debug, Copy, Clone, Eq, PartialEq, Structural)]
pub enum AddressingMode {
    Immediate,
    ZeroPage,
    ZeroPage_X,
    ZeroPage_Y,
    Absolute,
    Absolute_X,
    Absolute_Y,
    Indirect_X,
    Indirect_Y,
    /// A signed one-byte offset from the address after the operand.
    Relative,
    /// Implied or accumulator: the instruction has no operand address.
    NoneAddressing,
}

/// The instruction mnemonics of the processor family.
#[allow(clippy::upper_case_acronyms)]
#[derive(Debug, Copy, Clone, Eq, PartialEq, Structural)]
pub enum ProcessorAction {
    ADC,
    AND,
    ASL,
    BCC,
    BCS,
    BEQ,
    BIT,
    BMI,
    BNE,
    BPL,
    BRK,
    BVC,
    BVS,
    CLC,
    CLD,
    CLI,
    CLV,
    CMP,
    CPX,
    CPY,
    DEC,
    DEX,
    DEY,
    EOR,
    INC,
    INX,
    INY,
    JMP,
    JSR,
    LDA,
    LDX,
    LDY,
    LSR,
    NOP,
    ORA,
    PHA,
    PHP,
    PLA,
    PLP,
    ROL,
    ROR,
    RTI,
    RTS,
    SBC,
    SEC,
    SED,
    SEI,
    STA,
    STX,
    STY,
    TAX,
    TAY,
    TSX,
    TXA,
    TXS,
    TYA,
}

/// One entry of the opcode table.
#[derive(Debug, Copy, Clone, Eq, PartialEq, Structural)]
pub struct OpCode {
    /// The byte that encodes the instruction.
    pub hex: u8,
    /// The instruction kind.
    pub action: ProcessorAction,
    /// Encoded length: the opcode byte and its operand bytes.
    pub bytes: u8,
    /// Base cycle count; recorded, never used to pace execution.
    pub cycles: u8,
    /// How the operand is found.
    pub mode: AddressingMode,
}

impl AddressingMode {
    /// The encoded length of an instruction in this mode: the opcode byte
    /// plus the operand bytes that the mode reads.
    pub open spec fn encoded_length(self) -> int {
        match self {
            AddressingMode::NoneAddressing => 1,
            AddressingMode::Absolute | AddressingMode::Absolute_X | AddressingMode::Absolute_Y => 3,
            _ => 2,
        }
    }

    /// Whether the mode reads a two-byte operand.
    pub open spec fn spec_reads_word(&self) -> bool {
        *self == AddressingMode::Absolute || *self == AddressingMode::Absolute_X || *self
            == AddressingMode::Absolute_Y
    }

    /// Whether the mode reads a two-byte operand.
    #[verifier::when_used_as_spec(spec_reads_word)]
    pub fn reads_word(&self) -> (yes: bool)
        ensures
            yes == self.spec_reads_word(),
    {
        match self {
            AddressingMode::Absolute | AddressingMode::Absolute_X | AddressingMode::Absolute_Y => true,
            _ => false,
        }
    }

    /// The encoded length of an instruction in this mode.
    pub fn length(&self) -> (len: u8)
        ensures
            len == self.encoded_length(),
    {
        match self {
            AddressingMode::NoneAddressing => 1,
            AddressingMode::Absolute | AddressingMode::Absolute_X | AddressingMode::Absolute_Y => 3,
            _ => 2,
        }
    }
}

impl ProcessorAction {
    /// Whether the dispatcher has a handler for this kind.
    pub open spec fn spec_is_wired(&self) -> bool {
        match self {
            ProcessorAction::ADC
            | ProcessorAction::AND
            | ProcessorAction::ASL
            | ProcessorAction::BCC
            | ProcessorAction::BCS
            | ProcessorAction::BEQ
            | ProcessorAction::BIT
            | ProcessorAction::BRK
            | ProcessorAction::INX
            | ProcessorAction::LDA
            | ProcessorAction::SBC
            | ProcessorAction::STA
            | ProcessorAction::TAX => true,
            _ => false,
        }
    }

    /// Whether the dispatcher has a handler for this kind.
    #[verifier::when_used_as_spec(spec_is_wired)]
    pub fn is_wired(&self) -> (yes: bool)
        ensures
            yes == self.spec_is_wired(),
    {
        match self {
            ProcessorAction::ADC
            | ProcessorAction::AND
            | ProcessorAction::ASL
            | ProcessorAction::BCC
            | ProcessorAction::BCS
            | ProcessorAction::BEQ
            | ProcessorAction::BIT
            | ProcessorAction::BRK
            | ProcessorAction::INX
            | ProcessorAction::LDA
            | ProcessorAction::SBC
            | ProcessorAction::STA
            | ProcessorAction::TAX => true,
            _ => false,
        }
    }

    /// Whether this kind is a conditional branch.
    pub open spec fn spec_is_branch(&self) -> bool {
        *self == ProcessorAction::BCC || *self == ProcessorAction::BCS || *self
            == ProcessorAction::BEQ
    }

    /// Whether this kind is a conditional branch.
    #[verifier::when_used_as_spec(spec_is_branch)]
    pub fn is_branch(&self) -> (yes: bool)
        ensures
            yes == self.spec_is_branch(),
    {
        match self {
            ProcessorAction::BCC | ProcessorAction::BCS | ProcessorAction::BEQ => true,
            _ => false,
        }
    }

    /// Whether this kind takes no operand at all.
    pub open spec fn is_implied(&self) -> bool {
        *self == ProcessorAction::BRK || *self == ProcessorAction::INX || *self
            == ProcessorAction::TAX
    }

    /// Whether the handler of this kind always resolves an operand address.
    pub open spec fn spec_needs_address(&self) -> bool {
        match self {
            ProcessorAction::ADC
            | ProcessorAction::AND
            | ProcessorAction::BIT
            | ProcessorAction::LDA
            | ProcessorAction::SBC
            | ProcessorAction::STA => true,
            _ => false,
        }
    }

    /// Whether the handler of this kind always resolves an operand address.
    #[verifier::when_used_as_spec(spec_needs_address)]
    pub fn needs_address(&self) -> (yes: bool)
        ensures
            yes == self.spec_needs_address(),
    {
        match self {
            ProcessorAction::ADC
            | ProcessorAction::AND
            | ProcessorAction::BIT
            | ProcessorAction::LDA
            | ProcessorAction::SBC
            | ProcessorAction::STA => true,
            _ => false,
        }
    }
}

impl OpCode {
    /// A table entry with the given fields.
    pub fn new(
        hex: u8,
        human: ProcessorAction,
        bytes: u8,
        cycles: u8,
        mode: AddressingMode,
    ) -> (opcode: Self)
        ensures
            opcode == (OpCode { hex, action: human, bytes, cycles, mode }),
    {
        OpCode { hex, action: human, bytes, cycles, mode }
    }

    /// Whether the kind's handler resolves an operand address for this
    /// entry: always for some kinds, and for a shift unless it works on the
    /// accumulator.
    pub open spec fn spec_resolves_operand(&self) -> bool {
        self.action.needs_address() || (self.action == ProcessorAction::ASL && self.mode
            != AddressingMode::NoneAddressing)
    }

    /// Whether the kind's handler resolves an operand address for this
    /// entry.
    #[verifier::when_used_as_spec(spec_resolves_operand)]
    pub fn resolves_operand(&self) -> (yes: bool)
        ensures
            yes == self.spec_resolves_operand(),
    {
        self.action.needs_address() || (self.action == ProcessorAction::ASL && self.mode
            != AddressingMode::NoneAddressing)
    }

    /// Whether the kind's handler moves the program counter past the
    /// entry's operand bytes.
    pub open spec fn spec_advances(&self) -> bool {
        self.action.needs_address() || self.action == ProcessorAction::ASL
    }

    /// Whether the kind's handler moves the program counter past the
    /// entry's operand bytes.
    #[verifier::when_used_as_spec(spec_advances)]
    pub fn advances(&self) -> (yes: bool)
        ensures
            yes == self.spec_advances(),
    {
        self.action.needs_address() || self.action == ProcessorAction::ASL
    }

    /// Whether the entry's length is the one its addressing mode calls for.
    pub open spec fn length_matches_mode(self) -> bool {
        self.bytes == self.mode.encoded_length()
    }

    /// Whether the entry pairs its kind with a mode that the kind's handler
    /// can work with: a handler that resolves an operand address has a mode
    /// that names one, a branch and nothing else takes a relative offset, and
    /// a kind without operand has no mode.
    pub open spec fn well_paired(self) -> bool {
        &&& self.action.needs_address() ==> self.mode != AddressingMode::NoneAddressing
        &&& self.action.is_branch() <==> self.mode == AddressingMode::Relative
        &&& self.action.is_implied() ==> self.mode == AddressingMode::NoneAddressing
    }
}

} // verus!
