//! The opcode table: which byte encodes which instruction.

use vstd::prelude::*;
use crate::opcode::{AddressingMode, OpCode, ProcessorAction};

verus! {

/// The entry with the given fields.
pub open spec fn entry(
    hex: u8,
    action: ProcessorAction,
    bytes: u8,
    cycles: u8,
    mode: AddressingMode,
) -> OpCode {
    OpCode { hex, action, bytes, cycles, mode }
}

/// The opcode table of the machine.
pub open spec fn opcode_table() -> Seq<OpCode> {
    seq![
        // ADC: Add with carry
        entry(0x69, ProcessorAction::ADC, 2, 2, AddressingMode::Immediate),
        entry(0x65, ProcessorAction::ADC, 2, 3, AddressingMode::ZeroPage),
        entry(0x75, ProcessorAction::ADC, 2, 4, AddressingMode::ZeroPage_X),
        entry(0x6d, ProcessorAction::ADC, 3, 4, AddressingMode::Absolute),
        entry(0x7d, ProcessorAction::ADC, 3, 4, AddressingMode::Absolute_X),
        entry(0x79, ProcessorAction::ADC, 3, 4, AddressingMode::Absolute_Y),
        entry(0x61, ProcessorAction::ADC, 2, 6, AddressingMode::Indirect_X),
        entry(0x71, ProcessorAction::ADC, 2, 5, AddressingMode::Indirect_Y),
        // AND: Logical and
        entry(0x29, ProcessorAction::AND, 2, 2, AddressingMode::Immediate),
        entry(0x25, ProcessorAction::AND, 2, 3, AddressingMode::ZeroPage),
        entry(0x23, ProcessorAction::AND, 2, 4, AddressingMode::ZeroPage_X),
        entry(0x2d, ProcessorAction::AND, 3, 4, AddressingMode::Absolute),
        entry(0x3d, ProcessorAction::AND, 3, 4, AddressingMode::Absolute_X),
        entry(0x39, ProcessorAction::AND, 3, 4, AddressingMode::Absolute_Y),
        entry(0x21, ProcessorAction::AND, 2, 6, AddressingMode::Indirect_X),
        entry(0x31, ProcessorAction::AND, 2, 5, AddressingMode::Indirect_Y),
        // ASL: Arithmetic shift left
        entry(0x0a, ProcessorAction::ASL, 1, 2, AddressingMode::NoneAddressing),
        entry(0x06, ProcessorAction::ASL, 2, 5, AddressingMode::ZeroPage),
        entry(0x16, ProcessorAction::ASL, 2, 6, AddressingMode::ZeroPage_X),
        entry(0x0e, ProcessorAction::ASL, 3, 6, AddressingMode::Absolute),
        entry(0x1e, ProcessorAction::ASL, 3, 7, AddressingMode::Absolute_X),
        // BCC: Branch if carry clear
        entry(0x90, ProcessorAction::BCC, 2, 2, AddressingMode::Relative),
        // BCS: Branch if carry set
        entry(0xb0, ProcessorAction::BCS, 2, 2, AddressingMode::Relative),
        // BEQ: Branch if equal
        entry(0xf0, ProcessorAction::BEQ, 2, 2, AddressingMode::Relative),
        // BIT: Bit test
        entry(0x24, ProcessorAction::BIT, 2, 3, AddressingMode::ZeroPage),
        entry(0x2c, ProcessorAction::BIT, 3, 4, AddressingMode::Absolute),
        // BRK: Force interrupt
        entry(0x00, ProcessorAction::BRK, 1, 7, AddressingMode::NoneAddressing),
        // INX: Increment X
        entry(0xe8, ProcessorAction::INX, 1, 2, AddressingMode::NoneAddressing),
        // LDA: Load accumulator
        entry(0xa9, ProcessorAction::LDA, 2, 2, AddressingMode::Immediate),
        entry(0xa5, ProcessorAction::LDA, 2, 3, AddressingMode::ZeroPage),
        entry(0xb5, ProcessorAction::LDA, 2, 4, AddressingMode::ZeroPage_X),
        entry(0xad, ProcessorAction::LDA, 3, 4, AddressingMode::Absolute),
        entry(0xbd, ProcessorAction::LDA, 3, 4, AddressingMode::Absolute_X),
        entry(0xb9, ProcessorAction::LDA, 3, 4, AddressingMode::Absolute_Y),
        entry(0xa1, ProcessorAction::LDA, 2, 6, AddressingMode::Indirect_X),
        entry(0xb1, ProcessorAction::LDA, 2, 4, AddressingMode::Indirect_Y),
        // SBC: Subtract with carry
        entry(0xe9, ProcessorAction::SBC, 2, 2, AddressingMode::Immediate),
        entry(0xe5, ProcessorAction::SBC, 2, 3, AddressingMode::ZeroPage),
        entry(0xf5, ProcessorAction::SBC, 2, 4, AddressingMode::ZeroPage_X),
        entry(0xed, ProcessorAction::SBC, 3, 4, AddressingMode::Absolute),
        entry(0xfd, ProcessorAction::SBC, 3, 4, AddressingMode::Absolute_X),
        entry(0xf9, ProcessorAction::SBC, 3, 4, AddressingMode::Absolute_Y),
        entry(0xe1, ProcessorAction::SBC, 2, 6, AddressingMode::Indirect_X),
        entry(0xf1, ProcessorAction::SBC, 2, 5, AddressingMode::Indirect_Y),
        // STA: Store accumulator
        entry(0x85, ProcessorAction::STA, 2, 3, AddressingMode::ZeroPage),
        entry(0x95, ProcessorAction::STA, 2, 4, AddressingMode::ZeroPage_X),
        entry(0x8d, ProcessorAction::STA, 3, 4, AddressingMode::Absolute),
        entry(0x9d, ProcessorAction::STA, 3, 5, AddressingMode::Absolute_X),
        entry(0x99, ProcessorAction::STA, 3, 5, AddressingMode::Absolute_Y),
        entry(0x81, ProcessorAction::STA, 2, 6, AddressingMode::Indirect_X),
        entry(0x91, ProcessorAction::STA, 2, 6, AddressingMode::Indirect_Y),
        // TAX: Transfer accumulator to X
        entry(0xaa, ProcessorAction::TAX, 1, 2, AddressingMode::NoneAddressing),
    ]
}

/// The opcode table of the machine, built afresh.
pub fn cpu_opcodes() -> (table: Vec<OpCode>)
    ensures
        table@ == opcode_table(),
{
    let table = vec![
        // ADC: Add with carry
        OpCode::new(0x69, ProcessorAction::ADC, 2, 2, AddressingMode::Immediate),
        OpCode::new(0x65, ProcessorAction::ADC, 2, 3, AddressingMode::ZeroPage),
        OpCode::new(0x75, ProcessorAction::ADC, 2, 4, AddressingMode::ZeroPage_X),
        OpCode::new(0x6d, ProcessorAction::ADC, 3, 4, AddressingMode::Absolute),
        OpCode::new(0x7d, ProcessorAction::ADC, 3, 4, AddressingMode::Absolute_X),
        OpCode::new(0x79, ProcessorAction::ADC, 3, 4, AddressingMode::Absolute_Y),
        OpCode::new(0x61, ProcessorAction::ADC, 2, 6, AddressingMode::Indirect_X),
        OpCode::new(0x71, ProcessorAction::ADC, 2, 5, AddressingMode::Indirect_Y),
        // AND: Logical and
        OpCode::new(0x29, ProcessorAction::AND, 2, 2, AddressingMode::Immediate),
        OpCode::new(0x25, ProcessorAction::AND, 2, 3, AddressingMode::ZeroPage),
        OpCode::new(0x23, ProcessorAction::AND, 2, 4, AddressingMode::ZeroPage_X),
        OpCode::new(0x2d, ProcessorAction::AND, 3, 4, AddressingMode::Absolute),
        OpCode::new(0x3d, ProcessorAction::AND, 3, 4, AddressingMode::Absolute_X),
        OpCode::new(0x39, ProcessorAction::AND, 3, 4, AddressingMode::Absolute_Y),
        OpCode::new(0x21, ProcessorAction::AND, 2, 6, AddressingMode::Indirect_X),
        OpCode::new(0x31, ProcessorAction::AND, 2, 5, AddressingMode::Indirect_Y),
        // ASL: Arithmetic shift left
        OpCode::new(0x0a, ProcessorAction::ASL, 1, 2, AddressingMode::NoneAddressing),
        OpCode::new(0x06, ProcessorAction::ASL, 2, 5, AddressingMode::ZeroPage),
        OpCode::new(0x16, ProcessorAction::ASL, 2, 6, AddressingMode::ZeroPage_X),
        OpCode::new(0x0e, ProcessorAction::ASL, 3, 6, AddressingMode::Absolute),
        OpCode::new(0x1e, ProcessorAction::ASL, 3, 7, AddressingMode::Absolute_X),
        // BCC: Branch if carry clear
        OpCode::new(0x90, ProcessorAction::BCC, 2, 2, AddressingMode::Relative),
        // BCS: Branch if carry set
        OpCode::new(0xb0, ProcessorAction::BCS, 2, 2, AddressingMode::Relative),
        // BEQ: Branch if equal
        OpCode::new(0xf0, ProcessorAction::BEQ, 2, 2, AddressingMode::Relative),
        // BIT: Bit test
        OpCode::new(0x24, ProcessorAction::BIT, 2, 3, AddressingMode::ZeroPage),
        OpCode::new(0x2c, ProcessorAction::BIT, 3, 4, AddressingMode::Absolute),
        // BRK: Force interrupt
        OpCode::new(0x00, ProcessorAction::BRK, 1, 7, AddressingMode::NoneAddressing),
        // INX: Increment X
        OpCode::new(0xe8, ProcessorAction::INX, 1, 2, AddressingMode::NoneAddressing),
        // LDA: Load accumulator
        OpCode::new(0xa9, ProcessorAction::LDA, 2, 2, AddressingMode::Immediate),
        OpCode::new(0xa5, ProcessorAction::LDA, 2, 3, AddressingMode::ZeroPage),
        OpCode::new(0xb5, ProcessorAction::LDA, 2, 4, AddressingMode::ZeroPage_X),
        OpCode::new(0xad, ProcessorAction::LDA, 3, 4, AddressingMode::Absolute),
        OpCode::new(0xbd, ProcessorAction::LDA, 3, 4, AddressingMode::Absolute_X),
        OpCode::new(0xb9, ProcessorAction::LDA, 3, 4, AddressingMode::Absolute_Y),
        OpCode::new(0xa1, ProcessorAction::LDA, 2, 6, AddressingMode::Indirect_X),
        OpCode::new(0xb1, ProcessorAction::LDA, 2, 4, AddressingMode::Indirect_Y),
        // SBC: Subtract with carry
        OpCode::new(0xe9, ProcessorAction::SBC, 2, 2, AddressingMode::Immediate),
        OpCode::new(0xe5, ProcessorAction::SBC, 2, 3, AddressingMode::ZeroPage),
        OpCode::new(0xf5, ProcessorAction::SBC, 2, 4, AddressingMode::ZeroPage_X),
        OpCode::new(0xed, ProcessorAction::SBC, 3, 4, AddressingMode::Absolute),
        OpCode::new(0xfd, ProcessorAction::SBC, 3, 4, AddressingMode::Absolute_X),
        OpCode::new(0xf9, ProcessorAction::SBC, 3, 4, AddressingMode::Absolute_Y),
        OpCode::new(0xe1, ProcessorAction::SBC, 2, 6, AddressingMode::Indirect_X),
        OpCode::new(0xf1, ProcessorAction::SBC, 2, 5, AddressingMode::Indirect_Y),
        // STA: Store accumulator
        OpCode::new(0x85, ProcessorAction::STA, 2, 3, AddressingMode::ZeroPage),
        OpCode::new(0x95, ProcessorAction::STA, 2, 4, AddressingMode::ZeroPage_X),
        OpCode::new(0x8d, ProcessorAction::STA, 3, 4, AddressingMode::Absolute),
        OpCode::new(0x9d, ProcessorAction::STA, 3, 5, AddressingMode::Absolute_X),
        OpCode::new(0x99, ProcessorAction::STA, 3, 5, AddressingMode::Absolute_Y),
        OpCode::new(0x81, ProcessorAction::STA, 2, 6, AddressingMode::Indirect_X),
        OpCode::new(0x91, ProcessorAction::STA, 2, 6, AddressingMode::Indirect_Y),
        // TAX: Transfer accumulator to X
        OpCode::new(0xaa, ProcessorAction::TAX, 1, 2, AddressingMode::NoneAddressing),
    ];
    assert(table@ =~= opcode_table());
    table
}

/// Whether entry `i` is the first entry of `table` that `byte` encodes.
pub open spec fn is_first_match(table: Seq<OpCode>, byte: u8, i: int) -> bool {
    &&& 0 <= i < table.len()
    &&& table[i].hex == byte
    &&& forall|j: int| 0 <= j < i ==> table[j].hex != byte
}

/// The first entry of `table` that `byte` encodes, if there is one.
pub open spec fn lookup(table: Seq<OpCode>, byte: u8) -> Option<OpCode> {
    if exists|i: int| is_first_match(table, byte, i) {
        Some(table[choose|i: int| is_first_match(table, byte, i)])
    } else {
        None
    }
}

/// The instruction that `byte` encodes on this machine, if it is one.
pub open spec fn decode(byte: u8) -> Option<OpCode> {
    lookup(opcode_table(), byte)
}

/// Searches `table` for the first entry that `byte` encodes.
pub fn find_opcode(table: &Vec<OpCode>, byte: u8) -> (found: Option<OpCode>)
    ensures
        found == lookup(table@, byte),
        found matches Some(opcode) ==> opcode.hex == byte && table@.contains(opcode),
        found is None <==> forall|i: int| 0 <= i < table@.len() ==> table@[i].hex != byte,
{
    let mut i: usize = 0;
    while i < table.len()
        invariant
            i <= table@.len(),
            forall|j: int| 0 <= j < i ==> table@[j].hex != byte,
        decreases table@.len() - i,
    {
        if table[i].hex == byte {
            proof {
                let at = i as int;
                assert(is_first_match(table@, byte, at));
                let chosen = choose|k: int| is_first_match(table@, byte, k);
                assert(chosen == at);
            }
            return Some(table[i]);
        }
        i = i + 1;
    }
    proof {
        assert forall|k: int| !is_first_match(table@, byte, k) by {}
    }
    None
}

/// The table has an entry for each encoding that the machine knows.
pub proof fn lemma_table_len()
    ensures
        opcode_table().len() == 52,
{
}

/// Every entry of the table has the length that its addressing mode calls
/// for, pairs its kind with a mode that the kind's handler can work with, and
/// is of a kind that has a handler.
pub proof fn lemma_table_entries_sound(i: int)
    requires
        0 <= i < opcode_table().len(),
    ensures
        opcode_table()[i].length_matches_mode(),
        opcode_table()[i].well_paired(),
        opcode_table()[i].action.is_wired(),
{
}

/// No two entries of the table have the same encoding.
pub proof fn lemma_table_hex_unique(i: int, j: int)
    requires
        0 <= i < opcode_table().len(),
        0 <= j < opcode_table().len(),
        opcode_table()[i].hex == opcode_table()[j].hex,
    ensures
        i == j,
{
}

/// What `decode` gives for a byte is the one entry of the table with that
/// encoding, and it gives nothing exactly when the table has no such entry.
pub proof fn lemma_decode(byte: u8)
    ensures
        decode(byte) matches Some(opcode) ==> {
            &&& opcode.hex == byte
            &&& opcode_table().contains(opcode)
            &&& opcode.length_matches_mode()
            &&& opcode.well_paired()
            &&& opcode.action.is_wired()
        },
        decode(byte) is None <==> forall|i: int|
            0 <= i < opcode_table().len() ==> opcode_table()[i].hex != byte,
{
    let table = opcode_table();
    if exists|i: int| is_first_match(table, byte, i) {
        let at = choose|i: int| is_first_match(table, byte, i);
        lemma_table_entries_sound(at);
    } else {
        assert forall|i: int| 0 <= i < table.len() implies table[i].hex != byte by {
            if table[i].hex == byte {
                lemma_has_first_match(table, byte, i);
            }
        }
    }
}

/// A table that holds an encoding at all holds a first entry with it.
proof fn lemma_has_first_match(table: Seq<OpCode>, byte: u8, i: int)
    requires
        0 <= i < table.len(),
        table[i].hex == byte,
    ensures
        exists|k: int| is_first_match(table, byte, k),
    decreases i,
{
    if forall|j: int| 0 <= j < i ==> table[j].hex != byte {
        assert(is_first_match(table, byte, i));
    } else {
        let j = choose|j: int| 0 <= j < i && table[j].hex == byte;
        lemma_has_first_match(table, byte, j);
    }
}

/// Zero, and no other byte, encodes a break.
pub proof fn lemma_break_encoding(byte: u8)
    ensures
        (decode(byte) matches Some(opcode) && opcode.action == ProcessorAction::BRK) <==> byte
            == 0,
{
    let table = opcode_table();
    if byte == 0 {
        assert(is_first_match(table, byte, 26));
        let at = choose|i: int| is_first_match(table, byte, i);
        lemma_table_hex_unique(at, 26);
    } else if exists|i: int| is_first_match(table, byte, i) {
        let at = choose|i: int| is_first_match(table, byte, i);
        lemma_break_entry(at);
    }
}

/// The one break entry of the table is encoded by zero.
proof fn lemma_break_entry(i: int)
    requires
        0 <= i < opcode_table().len(),
    ensures
        opcode_table()[i].action == ProcessorAction::BRK ==> opcode_table()[i].hex == 0,
{
}

} // verus!
