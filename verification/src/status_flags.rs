//! The packed processor status register.
//!
//! The register is one byte. From the top bit down it holds: negative,
//! overflow, a bit that is always set on power-up, the break bit, decimal,
//! interrupt-disable, zero, carry. Contracts speak of it through its view, a
//! [`FlagSet`] of eight independent booleans.

use vstd::prelude::*;

verus! {

/// Bit position of the negative flag.
pub const NEGATIVE_BIT: usize = 7;

/// Bit position of the overflow flag.
pub const OVERFLOW_BIT: usize = 6;

/// Bit position of the bit that power-up sets and no instruction reads.
pub const DUMMY_BIT: usize = 5;

/// Bit position of the break flag.
pub const BREAK_BIT: usize = 4;

/// Bit position of the decimal flag.
pub const DECIMAL_BIT: usize = 3;

/// Bit position of the interrupt-disable flag.
pub const INTERRUPT_DISABLE_BIT: usize = 2;

/// Bit position of the zero flag.
pub const ZERO_BIT: usize = 1;

/// Bit position of the carry flag.
pub const CARRY_BIT: usize = 0;

/// The eight flags as independent booleans: the mathematical model of the
/// status register.
pub struct FlagSet {
    pub negative: bool,
    pub overflow: bool,
    pub dummy_flag: bool,
    pub b_flag: bool,
    pub decimal: bool,
    pub interrupt_disable: bool,
    pub zero: bool,
    pub carry: bool,
}

/// Whether bit `pos` of `byte` is set.
pub open spec fn bit_is_set(byte: u8, pos: u8) -> bool {
    (byte >> pos) & 1 == 1
}

impl FlagSet {
    /// The flags that a packed byte encodes.
    pub open spec fn unpack(byte: u8) -> FlagSet {
        FlagSet {
            negative: bit_is_set(byte, 7),
            overflow: bit_is_set(byte, 6),
            dummy_flag: bit_is_set(byte, 5),
            b_flag: bit_is_set(byte, 4),
            decimal: bit_is_set(byte, 3),
            interrupt_disable: bit_is_set(byte, 2),
            zero: bit_is_set(byte, 1),
            carry: bit_is_set(byte, 0),
        }
    }

    /// The packed byte of these flags, as a number.
    pub open spec fn pack(self) -> int {
        (if self.negative { 128int } else { 0 })
            + (if self.overflow { 64int } else { 0 })
            + (if self.dummy_flag { 32int } else { 0 })
            + (if self.b_flag { 16int } else { 0 })
            + (if self.decimal { 8int } else { 0 })
            + (if self.interrupt_disable { 4int } else { 0 })
            + (if self.zero { 2int } else { 0 })
            + (if self.carry { 1int } else { 0 })
    }

    /// These flags with the one at bit `pos` replaced by `value`.
    pub open spec fn with_bit(self, pos: int, value: bool) -> FlagSet {
        if pos == 7 {
            FlagSet { negative: value, ..self }
        } else if pos == 6 {
            FlagSet { overflow: value, ..self }
        } else if pos == 5 {
            FlagSet { dummy_flag: value, ..self }
        } else if pos == 4 {
            FlagSet { b_flag: value, ..self }
        } else if pos == 3 {
            FlagSet { decimal: value, ..self }
        } else if pos == 2 {
            FlagSet { interrupt_disable: value, ..self }
        } else if pos == 1 {
            FlagSet { zero: value, ..self }
        } else if pos == 0 {
            FlagSet { carry: value, ..self }
        } else {
            self
        }
    }

    /// The flag at bit `pos`.
    pub open spec fn bit(self, pos: int) -> bool {
        if pos == 7 {
            self.negative
        } else if pos == 6 {
            self.overflow
        } else if pos == 5 {
            self.dummy_flag
        } else if pos == 4 {
            self.b_flag
        } else if pos == 3 {
            self.decimal
        } else if pos == 2 {
            self.interrupt_disable
        } else if pos == 1 {
            self.zero
        } else {
            self.carry
        }
    }

    /// The power-up flags: only the always-set bit is set.
    pub open spec fn power_up() -> FlagSet {
        FlagSet {
            negative: false,
            overflow: false,
            dummy_flag: true,
            b_flag: false,
            decimal: false,
            interrupt_disable: false,
            zero: false,
            carry: false,
        }
    }

    /// These flags with zero and negative recomputed from `value`: zero is
    /// set exactly when `value` is 0, negative exactly when its top bit is
    /// set (the byte is at least 128), whatever the flags were before.
    pub open spec fn with_zero_negative(self, value: u8) -> FlagSet {
        FlagSet { zero: value == 0, negative: value >= 128, ..self }
    }
}

/// Reads one bit of a packed byte through `bit_struct::GetSet::get_raw`, for
/// a one-bit field at position `POS`: the byte shifted right by `POS` and
/// masked to its lowest bit.
#[verifier::external_body]
fn field_get<const POS: usize>(byte: u8) -> (bit: u8)
    requires
        POS < 8,
    ensures
        bit == (byte >> (POS as u8)) & 1,
{
    let mut storage = byte;
    bit_struct::GetSet::<u8, bit_struct::u1, POS, POS>::new(&mut storage).get_raw()
}

/// Writes one bit of a packed byte through `bit_struct::GetSet::set`, for a
/// one-bit field at position `POS`: the bit at `POS` is cleared and then takes
/// `value`; the other seven bits of the byte are kept.
#[verifier::external_body]
fn field_set<const POS: usize>(byte: u8, value: bool) -> (updated: u8)
    requires
        POS < 8,
    ensures
        updated == (byte & !(1u8 << (POS as u8))) | ((if value {
            1u8
        } else {
            0u8
        }) << (POS as u8)),
{
    let mut storage = byte;
    let bit = if value { bit_struct::u1::TRUE } else { bit_struct::u1::FALSE };
    bit_struct::GetSet::<u8, bit_struct::u1, POS, POS>::new(&mut storage).set(bit);
    storage
}

/// Writing bit `pos` changes that bit and no other.
proof fn lemma_write_bit(byte: u8, pos: u8, value: u8)
    by (bit_vector)
    requires
        pos < 8,
        value <= 1,
    ensures
        forall|j: u8|
            j < 8 ==> (#[trigger] ((((byte & !(1u8 << pos)) | (value << pos)) >> j) & 1)) == (if j
                == pos {
                value
            } else {
                (byte >> j) & 1
            }),
{
}

/// The processor status register: eight flags packed into one byte.
#[derive(Clone, Copy, Debug)]
pub struct CPUStatusFlags {
    bits: u8,
}

impl View for CPUStatusFlags {
    type V = FlagSet;

    closed spec fn view(&self) -> FlagSet {
        FlagSet::unpack(self.bits)
    }
}

impl CPUStatusFlags {
    /// The flag at bit `POS`.
    fn read<const POS: usize>(&self) -> (flag: bool)
        requires
            POS < 8,
        ensures
            flag == self@.bit(POS as int),
    {
        field_get::<POS>(self.bits) == 1
    }

    /// Replaces the flag at bit `POS` and keeps the other seven.
    fn write<const POS: usize>(&mut self, value: bool)
        requires
            POS < 8,
        ensures
            final(self)@ == old(self)@.with_bit(POS as int, value),
    {
        let updated = field_set::<POS>(self.bits, value);
        proof {
            lemma_write_bit(self.bits, POS as u8, if value { 1u8 } else { 0u8 });
        }
        self.bits = updated;
    }
}

/// Zero and negative depend on the value alone: zero is set exactly when the
/// value is 0, negative exactly when bit 7 of the value is set, whatever the
/// flags were before; and the other six flags are kept.
pub proof fn lemma_zero_negative(flags: FlagSet, other: FlagSet, value: u8)
    ensures
        flags.with_zero_negative(value).zero <==> value == 0,
        flags.with_zero_negative(value).negative <==> value & 0x80 != 0,
        flags.with_zero_negative(value).zero == other.with_zero_negative(value).zero,
        flags.with_zero_negative(value).negative == other.with_zero_negative(value).negative,
        flags.with_zero_negative(value) == (FlagSet {
            zero: flags.with_zero_negative(value).zero,
            negative: flags.with_zero_negative(value).negative,
            ..flags
        }),
        !(flags.with_zero_negative(value).zero && flags.with_zero_negative(value).negative),
{
    lemma_top_bit(value);
}

/// Packing is the inverse of unpacking: the flags that a byte encodes pack
/// into that byte.
pub proof fn lemma_pack_unpack(byte: u8)
    ensures
        FlagSet::unpack(byte).pack() == byte,
{
    lemma_bits_sum(byte);
}

/// Unpacking is the inverse of packing: every set of flags is what its
/// packed byte encodes.
pub proof fn lemma_unpack_pack(flags: FlagSet)
    ensures
        0 <= flags.pack() < 256,
        FlagSet::unpack(flags.pack() as u8) == flags,
{
    let n: u8 = if flags.negative { 1 } else { 0 };
    let v: u8 = if flags.overflow { 1 } else { 0 };
    let u: u8 = if flags.dummy_flag { 1 } else { 0 };
    let b: u8 = if flags.b_flag { 1 } else { 0 };
    let d: u8 = if flags.decimal { 1 } else { 0 };
    let i: u8 = if flags.interrupt_disable { 1 } else { 0 };
    let z: u8 = if flags.zero { 1 } else { 0 };
    let c: u8 = if flags.carry { 1 } else { 0 };
    lemma_sum_bits(n, v, u, b, d, i, z, c);
}

/// Each bit of a byte built as a sum of weighted bits is the bit that went
/// into the sum.
proof fn lemma_sum_bits(n: u8, v: u8, u: u8, b: u8, d: u8, i: u8, z: u8, c: u8)
    by (bit_vector)
    requires
        n <= 1,
        v <= 1,
        u <= 1,
        b <= 1,
        d <= 1,
        i <= 1,
        z <= 1,
        c <= 1,
    ensures
        ({
            let byte = (n * 128 + v * 64 + u * 32 + b * 16 + d * 8 + i * 4 + z * 2 + c) as u8;
            &&& (byte >> 7u8) & 1 == n
            &&& (byte >> 6u8) & 1 == v
            &&& (byte >> 5u8) & 1 == u
            &&& (byte >> 4u8) & 1 == b
            &&& (byte >> 3u8) & 1 == d
            &&& (byte >> 2u8) & 1 == i
            &&& (byte >> 1u8) & 1 == z
            &&& (byte >> 0u8) & 1 == c
        }),
{
}

/// A byte is the sum of the weights of its set bits, and every bit read out
/// of it is 0 or 1.
proof fn lemma_bits_sum(byte: u8)
    by (bit_vector)
    ensures
        byte == ((byte >> 7u8) & 1) * 128 + ((byte >> 6u8) & 1) * 64 + ((byte >> 5u8) & 1) * 32 + ((
        byte >> 4u8) & 1) * 16 + ((byte >> 3u8) & 1) * 8 + ((byte >> 2u8) & 1) * 4 + ((byte
            >> 1u8) & 1) * 2 + ((byte >> 0u8) & 1),
        forall|j: u8| j < 8 ==> (#[trigger] ((byte >> j) & 1)) <= 1,
{
}

/// The top bit of a byte is set exactly when masking with `0x80` leaves
/// something, which is exactly when the byte is at least 128.
pub proof fn lemma_top_bit(byte: u8)
    by (bit_vector)
    ensures
        ((byte >> 7u8) & 1 == 1) <==> (byte & 0x80 != 0),
        ((byte >> 7u8) & 1 == 1) <==> byte >= 128,
{
}

impl CPUStatusFlags {
    /// A register holding the eight given flags.
    pub fn new(
        negative: bool,
        overflow: bool,
        dummy_flag: bool,
        b_flag: bool,
        decimal: bool,
        interrupt_disable: bool,
        zero: bool,
        carry: bool,
    ) -> (flags: Self)
        ensures
            flags@ == (FlagSet {
                negative,
                overflow,
                dummy_flag,
                b_flag,
                decimal,
                interrupt_disable,
                zero,
                carry,
            }),
    {
        let mut flags = CPUStatusFlags { bits: 0 };
        flags.write::<NEGATIVE_BIT>(negative);
        flags.write::<OVERFLOW_BIT>(overflow);
        flags.write::<DUMMY_BIT>(dummy_flag);
        flags.write::<BREAK_BIT>(b_flag);
        flags.write::<DECIMAL_BIT>(decimal);
        flags.write::<INTERRUPT_DISABLE_BIT>(interrupt_disable);
        flags.write::<ZERO_BIT>(zero);
        flags.write::<CARRY_BIT>(carry);
        flags
    }

    /// The register that a packed byte encodes.
    pub fn from_raw(byte: u8) -> (flags: Self)
        ensures
            flags@ == FlagSet::unpack(byte),
    {
        CPUStatusFlags { bits: byte }
    }

    /// The packed byte: a bit-accurate snapshot of the register.
    pub fn raw(self) -> (byte: u8)
        ensures
            byte == self@.pack(),
            FlagSet::unpack(byte) == self@,
    {
        proof {
            lemma_bits_sum(self.bits);
        }
        self.bits
    }

    /// Reads the negative flag.
    pub fn negative(&self) -> (flag: bool)
        ensures
            flag == self@.negative,
    {
        self.read::<NEGATIVE_BIT>()
    }

    /// Writes the negative flag; the other seven flags are kept.
    pub fn set_negative(&mut self, value: bool)
        ensures
            final(self)@ == (FlagSet { negative: value, ..old(self)@ }),
    {
        self.write::<NEGATIVE_BIT>(value);
    }

    /// Reads the overflow flag.
    pub fn overflow(&self) -> (flag: bool)
        ensures
            flag == self@.overflow,
    {
        self.read::<OVERFLOW_BIT>()
    }

    /// Writes the overflow flag; the other seven flags are kept.
    pub fn set_overflow(&mut self, value: bool)
        ensures
            final(self)@ == (FlagSet { overflow: value, ..old(self)@ }),
    {
        self.write::<OVERFLOW_BIT>(value);
    }

    /// Reads the bit that power-up sets.
    pub fn dummy_flag(&self) -> (flag: bool)
        ensures
            flag == self@.dummy_flag,
    {
        self.read::<DUMMY_BIT>()
    }

    /// Writes the bit that power-up sets; the other seven flags are kept.
    pub fn set_dummy_flag(&mut self, value: bool)
        ensures
            final(self)@ == (FlagSet { dummy_flag: value, ..old(self)@ }),
    {
        self.write::<DUMMY_BIT>(value);
    }

    /// Reads the break flag.
    pub fn b_flag(&self) -> (flag: bool)
        ensures
            flag == self@.b_flag,
    {
        self.read::<BREAK_BIT>()
    }

    /// Writes the break flag; the other seven flags are kept.
    pub fn set_b_flag(&mut self, value: bool)
        ensures
            final(self)@ == (FlagSet { b_flag: value, ..old(self)@ }),
    {
        self.write::<BREAK_BIT>(value);
    }

    /// Reads the decimal flag.
    pub fn decimal(&self) -> (flag: bool)
        ensures
            flag == self@.decimal,
    {
        self.read::<DECIMAL_BIT>()
    }

    /// Writes the decimal flag; the other seven flags are kept.
    pub fn set_decimal(&mut self, value: bool)
        ensures
            final(self)@ == (FlagSet { decimal: value, ..old(self)@ }),
    {
        self.write::<DECIMAL_BIT>(value);
    }

    /// Reads the interrupt-disable flag.
    pub fn interrupt_disable(&self) -> (flag: bool)
        ensures
            flag == self@.interrupt_disable,
    {
        self.read::<INTERRUPT_DISABLE_BIT>()
    }

    /// Writes the interrupt-disable flag; the other seven flags are kept.
    pub fn set_interrupt_disable(&mut self, value: bool)
        ensures
            final(self)@ == (FlagSet { interrupt_disable: value, ..old(self)@ }),
    {
        self.write::<INTERRUPT_DISABLE_BIT>(value);
    }

    /// Reads the zero flag.
    pub fn zero(&self) -> (flag: bool)
        ensures
            flag == self@.zero,
    {
        self.read::<ZERO_BIT>()
    }

    /// Writes the zero flag; the other seven flags are kept.
    pub fn set_zero(&mut self, value: bool)
        ensures
            final(self)@ == (FlagSet { zero: value, ..old(self)@ }),
    {
        self.write::<ZERO_BIT>(value);
    }

    /// Reads the carry flag.
    pub fn carry(&self) -> (flag: bool)
        ensures
            flag == self@.carry,
    {
        self.read::<CARRY_BIT>()
    }

    /// Writes the carry flag; the other seven flags are kept.
    pub fn set_carry(&mut self, value: bool)
        ensures
            final(self)@ == (FlagSet { carry: value, ..old(self)@ }),
    {
        self.write::<CARRY_BIT>(value);
    }

    /// Recomputes zero and negative from `target`: zero is set exactly when
    /// `target` is 0, negative exactly when bit 7 of `target` is set. Neither
    /// depends on what the flags were, and the other six are kept.
    pub fn zero_negative_flags(&mut self, target: u8)
        ensures
            final(self)@ == old(self)@.with_zero_negative(target),
            final(self)@.zero <==> target == 0,
            final(self)@.negative <==> target & 0x80 != 0,
    {
        proof {
            lemma_top_bit(target);
        }
        self.set_zero(target == 0);
        self.set_negative(target & 0x80 != 0);
    }
}

impl Default for CPUStatusFlags {
    /// The power-up register: only the always-set bit is set.
    fn default() -> (flags: Self)
        ensures
            flags@ == FlagSet::power_up(),
    {
        CPUStatusFlags::new(false, false, true, false, false, false, false, false)
    }
}

} // verus!
