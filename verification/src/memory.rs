//! Flat byte-addressable memory covering the whole 16-bit address space.

use vstd::prelude::*;

verus! {

/// Number of bytes in the address space: every 16-bit address is backed.
pub const MEMORY_SIZE: usize = 0x10000;

/// Address at which a loaded program starts.
pub const PROGRAM_BASE: u16 = 0x8000;

/// Address of the two-byte little-endian reset vector.
pub const RESET_VECTOR: u16 = 0xFFFC;

/// Longest program that fits between the load base and the top of memory.
pub const MAX_PROGRAM_LEN: usize = 0x8000;

/// The little-endian 16-bit value at `addr`: low byte first.
pub open spec fn word_at(mem: Seq<u8>, addr: int) -> int {
    mem[addr] + 256 * mem[addr + 1]
}

/// `mem` with `value` stored little-endian at `addr` and `addr + 1`.
pub open spec fn with_word(mem: Seq<u8>, addr: int, value: u16) -> Seq<u8> {
    mem.update(addr, (value % 256) as u8).update(addr + 1, (value / 256) as u8)
}

/// `mem` with `data` copied over it from `base` upwards.
pub open spec fn overlay(mem: Seq<u8>, base: int, data: Seq<u8>) -> Seq<u8> {
    Seq::new(
        mem.len(),
        |i: int|
            if base <= i < base + data.len() {
                data[i - base]
            } else {
                mem[i]
            },
    )
}

/// `mem` after loading `program`: its bytes from the load base upwards, then
/// the load base written to the reset vector.
pub open spec fn with_program(mem: Seq<u8>, program: Seq<u8>) -> Seq<u8> {
    with_word(overlay(mem, PROGRAM_BASE as int, program), RESET_VECTOR as int, PROGRAM_BASE)
}

/// The memory of the machine. Its view is the sequence of its bytes, which
/// always has one entry for each 16-bit address.
pub struct Memory {
    bytes: [u8; MEMORY_SIZE],
}

impl View for Memory {
    type V = Seq<u8>;

    closed spec fn view(&self) -> Seq<u8> {
        self.bytes@
    }
}

impl Memory {
    /// Every memory has one byte for each 16-bit address.
    pub proof fn lemma_covers_address_space(&self)
        ensures
            self@.len() == MEMORY_SIZE,
    {
    }

    /// Memory with every byte zero.
    pub fn new() -> (mem: Self)
        ensures
            mem@.len() == MEMORY_SIZE,
            forall|i: int| 0 <= i < MEMORY_SIZE ==> mem@[i] == 0,
    {
        Memory { bytes: [0u8; MEMORY_SIZE] }
    }

    /// The byte at `addr`.
    pub fn read(&self, addr: u16) -> (data: u8)
        ensures
            self@.len() == MEMORY_SIZE,
            data == self@[addr as int],
    {
        self.bytes[addr as usize]
    }

    /// Stores `data` at `addr`; every other byte is kept.
    pub fn write(&mut self, addr: u16, data: u8)
        ensures
            final(self)@.len() == MEMORY_SIZE,
            final(self)@ == old(self)@.update(addr as int, data),
    {
        self.bytes[addr as usize] = data;
    }

    /// The little-endian 16-bit value at `pos` and `pos + 1`.
    pub fn read_u16(&self, pos: u16) -> (data: u16)
        requires
            pos < 0xFFFF,
        ensures
            self@.len() == MEMORY_SIZE,
            data == word_at(self@, pos as int),
    {
        let lo = self.read(pos);
        let hi = self.read(pos + 1);
        lo as u16 + (hi as u16) * 256
    }

    /// Stores `data` little-endian at `pos` and `pos + 1`; every other byte
    /// is kept.
    pub fn write_u16(&mut self, pos: u16, data: u16)
        requires
            pos < 0xFFFF,
        ensures
            final(self)@.len() == MEMORY_SIZE,
            final(self)@ == with_word(old(self)@, pos as int, data),
    {
        self.write(pos, (data % 256) as u8);
        self.write(pos + 1, (data / 256) as u8);
    }

    /// Copies `program` to the load base and points the reset vector at it.
    pub fn load(&mut self, program: &Vec<u8>)
        requires
            program@.len() <= MAX_PROGRAM_LEN,
        ensures
            final(self)@.len() == MEMORY_SIZE,
            final(self)@ == with_program(old(self)@, program@),
    {
        let n = program.len();
        let mut i: usize = 0;
        while i < n
            invariant
                n == program@.len(),
                n <= MAX_PROGRAM_LEN,
                i <= n,
                self.bytes@.len() == MEMORY_SIZE,
                forall|k: int|
                    0 <= k < MEMORY_SIZE ==> self.bytes@[k] == (if PROGRAM_BASE <= k
                        < PROGRAM_BASE + i {
                        program@[k - PROGRAM_BASE]
                    } else {
                        old(self)@[k]
                    }),
            decreases n - i,
        {
            self.bytes[PROGRAM_BASE as usize + i] = program[i];
            i = i + 1;
        }
        assert(self.bytes@ =~= overlay(old(self)@, PROGRAM_BASE as int, program@));
        self.write_u16(RESET_VECTOR, PROGRAM_BASE);
    }
}

} // verus!
