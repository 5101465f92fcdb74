//! The four condition flags and their packed byte form.

use vstd::prelude::*;

verus! {

/// Bit of the packed byte that holds the zero flag.
pub const ZERO_FLAG_BYTE_POSITION: u8 = 7;

/// Bit of the packed byte that holds the subtract flag.
pub const SUBTRACT_FLAG_BYTE_POSITION: u8 = 6;

/// Bit of the packed byte that holds the half-carry flag.
pub const HALF_CARRY_FLAG_BYTE_POSITION: u8 = 5;

/// Bit of the packed byte that holds the carry flag.
pub const CARRY_FLAG_BYTE_POSITION: u8 = 4;

/// The condition flags of the processor.
///
/// Two values are equal exactly when their four flags are equal; the low
/// nibble of a packed byte never takes part.
#[derive(Clone, Copy, Debug, PartialEq, Eq, Structural)]
pub struct FlagsRegister {
    pub zero: bool,
    pub subtract: bool,
    pub half_carry: bool,
    pub carry: bool,
}

impl FlagsRegister {
    /// The packed byte: zero in bit 7, subtract in bit 6, half-carry in
    /// bit 5, carry in bit 4, and the low nibble clear.
    pub open spec fn packed(self) -> u8 {
        ((if self.zero { 128int } else { 0 })
            + (if self.subtract { 64int } else { 0 })
            + (if self.half_carry { 32int } else { 0 })
            + (if self.carry { 16int } else { 0 })) as u8
    }

    /// The flags that a byte holds in its high nibble.
    pub open spec fn unpacked(byte: u8) -> FlagsRegister {
        FlagsRegister {
            zero: (byte / 128) % 2 == 1,
            subtract: (byte / 64) % 2 == 1,
            half_carry: (byte / 32) % 2 == 1,
            carry: (byte / 16) % 2 == 1,
        }
    }

    /// The register with every flag false.
    pub open spec fn cleared() -> FlagsRegister {
        FlagsRegister { zero: false, subtract: false, half_carry: false, carry: false }
    }

    /// The register with every flag false.
    pub fn new() -> (flags: FlagsRegister)
        ensures
            flags == FlagsRegister::cleared(),
    {
        FlagsRegister { zero: false, subtract: false, half_carry: false, carry: false }
    }

    /// Sets all four flags to false.
    pub fn clear(&mut self)
        ensures
            *final(self) == FlagsRegister::cleared(),
    {
        self.zero = false;
        self.subtract = false;
        self.half_carry = false;
        self.carry = false;
    }

    /// Packs the flags into a byte.
    pub fn to_byte(&self) -> (byte: u8)
        ensures
            byte == self.packed(),
            byte % 16 == 0,
            FlagsRegister::unpacked(byte) == *self,
    {
        let z: u8 = if self.zero { 1 } else { 0 };
        let n: u8 = if self.subtract { 1 } else { 0 };
        let h: u8 = if self.half_carry { 1 } else { 0 };
        let c: u8 = if self.carry { 1 } else { 0 };
        let byte: u8 = z << ZERO_FLAG_BYTE_POSITION | n << SUBTRACT_FLAG_BYTE_POSITION
            | h << HALF_CARRY_FLAG_BYTE_POSITION | c << CARRY_FLAG_BYTE_POSITION;
        assert(byte == z * 128 + n * 64 + h * 32 + c * 16) by (bit_vector)
            requires
                z <= 1,
                n <= 1,
                h <= 1,
                c <= 1,
                byte == z << 7u8 | n << 6u8 | h << 5u8 | c << 4u8,
        ;
        byte
    }

    /// Unpacks the flags from the high nibble of a byte; the low nibble is
    /// ignored.
    pub fn from_byte(byte: u8) -> (flags: FlagsRegister)
        ensures
            flags == FlagsRegister::unpacked(byte),
            flags.packed() == byte - byte % 16,
    {
        let zero = ((byte >> ZERO_FLAG_BYTE_POSITION) & 0b1) != 0;
        let subtract = ((byte >> SUBTRACT_FLAG_BYTE_POSITION) & 0b1) != 0;
        let half_carry = ((byte >> HALF_CARRY_FLAG_BYTE_POSITION) & 0b1) != 0;
        let carry = ((byte >> CARRY_FLAG_BYTE_POSITION) & 0b1) != 0;
        assert(((byte >> 7u8) & 1 != 0) == ((byte / 128) % 2 == 1)) by (bit_vector);
        assert(((byte >> 6u8) & 1 != 0) == ((byte / 64) % 2 == 1)) by (bit_vector);
        assert(((byte >> 5u8) & 1 != 0) == ((byte / 32) % 2 == 1)) by (bit_vector);
        assert(((byte >> 4u8) & 1 != 0) == ((byte / 16) % 2 == 1)) by (bit_vector);
        FlagsRegister { zero, subtract, half_carry, carry }
    }
}

impl From<u8> for FlagsRegister {
    /// Same as [`FlagsRegister::from_byte`].
    fn from(byte: u8) -> (flags: FlagsRegister) {
        FlagsRegister::from_byte(byte)
    }
}

impl vstd::std_specs::convert::FromSpecImpl<u8> for FlagsRegister {
    open spec fn obeys_from_spec() -> bool {
        true
    }

    open spec fn from_spec(byte: u8) -> FlagsRegister {
        FlagsRegister::unpacked(byte)
    }
}

impl From<FlagsRegister> for u8 {
    /// Same as [`FlagsRegister::to_byte`].
    fn from(flags: FlagsRegister) -> (byte: u8) {
        flags.to_byte()
    }
}

impl vstd::std_specs::convert::FromSpecImpl<FlagsRegister> for u8 {
    open spec fn obeys_from_spec() -> bool {
        true
    }

    open spec fn from_spec(flags: FlagsRegister) -> u8 {
        flags.packed()
    }
}

/// Packing and then unpacking gives back the same flags.
pub proof fn lemma_unpack_packed(flags: FlagsRegister)
    ensures
        FlagsRegister::unpacked(flags.packed()) == flags,
{
}

/// Unpacking and then packing keeps the high nibble of a byte and clears
/// its low nibble.
pub proof fn lemma_pack_unpacked(byte: u8)
    ensures
        FlagsRegister::unpacked(byte).packed() == byte - byte % 16,
        byte % 16 == 0 ==> FlagsRegister::unpacked(byte).packed() == byte,
{
}

} // verus!
