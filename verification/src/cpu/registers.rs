//! The register file: seven 8-bit registers, the flags, and the four
//! 16-bit pairs that are read and written through them.

use vstd::prelude::*;
use crate::cpu::flags_register::{lemma_pack_unpacked, FlagsRegister};

verus! {

/// The register file.
///
/// A pair is not stored: it is the high register times 256 plus the low
/// one, and the low half of AF is the packed flags.
#[derive(Clone, Copy, Debug, PartialEq, Eq, Structural)]
pub struct Registers {
    pub a: u8,
    pub b: u8,
    pub c: u8,
    pub d: u8,
    pub e: u8,
    pub f: FlagsRegister,
    pub h: u8,
    pub l: u8,
}

/// The 16-bit value with the given high and low bytes.
pub open spec fn pair(high: u8, low: u8) -> u16 {
    (high * 256 + low) as u16
}

/// The high byte of a 16-bit value.
pub open spec fn high_byte(value: u16) -> u8 {
    (value / 256) as u8
}

/// The low byte of a 16-bit value.
pub open spec fn low_byte(value: u16) -> u8 {
    (value % 256) as u8
}

/// Shifting the high byte up and setting the low byte under it gives the
/// pair.
pub proof fn lemma_pair_bits(high: u8, low: u8)
    by (bit_vector)
    ensures
        (high as u16) << 8 | low as u16 == high * 256 + low,
{
}

/// Joins a high and a low byte into a pair.
fn join(high: u8, low: u8) -> (value: u16)
    ensures
        value == pair(high, low),
{
    proof {
        lemma_pair_bits(high, low);
    }
    (high as u16) << 8 | low as u16
}

/// Splits a pair into its high and its low byte.
fn split(value: u16) -> (bytes: (u8, u8))
    ensures
        bytes.0 == high_byte(value),
        bytes.1 == low_byte(value),
{
    let high: u16 = (value & 0xFF00) >> 8;
    let low: u16 = value & 0x00FF;
    assert(high == value / 256 && low == value % 256) by (bit_vector)
        requires
            high == (value & 0xFF00) >> 8,
            low == value & 0x00FF,
    ;
    (high as u8, low as u8)
}

impl Registers {
    /// The register file at reset: every register zero, every flag false.
    pub open spec fn zeroed() -> Registers {
        Registers { a: 0, b: 0, c: 0, d: 0, e: 0, f: FlagsRegister::cleared(), h: 0, l: 0 }
    }

    /// The pair AF: `a` high, the packed flags low.
    pub open spec fn af(self) -> u16 {
        pair(self.a, self.f.packed())
    }

    /// The pair BC.
    pub open spec fn bc(self) -> u16 {
        pair(self.b, self.c)
    }

    /// The pair DE.
    pub open spec fn de(self) -> u16 {
        pair(self.d, self.e)
    }

    /// The pair HL.
    pub open spec fn hl(self) -> u16 {
        pair(self.h, self.l)
    }

    /// The register file after AF is written: the low nibble of `value` is
    /// lost, since the flags keep four bits only.
    pub open spec fn with_af(self, value: u16) -> Registers {
        Registers { a: high_byte(value), f: FlagsRegister::unpacked(low_byte(value)), ..self }
    }

    /// The register file after BC is written.
    pub open spec fn with_bc(self, value: u16) -> Registers {
        Registers { b: high_byte(value), c: low_byte(value), ..self }
    }

    /// The register file after DE is written.
    pub open spec fn with_de(self, value: u16) -> Registers {
        Registers { d: high_byte(value), e: low_byte(value), ..self }
    }

    /// The register file after HL is written.
    pub open spec fn with_hl(self, value: u16) -> Registers {
        Registers { h: high_byte(value), l: low_byte(value), ..self }
    }

    /// The register file at reset.
    pub fn new() -> (registers: Registers)
        ensures
            registers == Registers::zeroed(),
    {
        Registers { a: 0, b: 0, c: 0, d: 0, e: 0, f: FlagsRegister::new(), h: 0, l: 0 }
    }

    /// Reads the pair AF.
    pub fn get_af(&self) -> (value: u16)
        ensures
            value == self.af(),
    {
        join(self.a, self.f.to_byte())
    }

    /// Writes the pair AF; the other registers stay. The low nibble of `value` is dropped.
    pub fn set_af(&mut self, value: u16)
        ensures
            *final(self) == old(self).with_af(value),
            final(self).af() == value - value % 16,
    {
        let (high, low) = split(value);
        self.a = high;
        self.f = FlagsRegister::from_byte(low);
        proof {
            lemma_af_drops_low_nibble(*old(self), value);
        }
    }

    /// Reads the pair BC.
    pub fn get_bc(&self) -> (value: u16)
        ensures
            value == self.bc(),
    {
        join(self.b, self.c)
    }

    /// Writes the pair BC; the other registers stay.
    pub fn set_bc(&mut self, value: u16)
        ensures
            *final(self) == old(self).with_bc(value),
            final(self).bc() == value,
    {
        let (high, low) = split(value);
        self.b = high;
        self.c = low;
    }

    /// Reads the pair DE.
    pub fn get_de(&self) -> (value: u16)
        ensures
            value == self.de(),
    {
        join(self.d, self.e)
    }

    /// Writes the pair DE; the other registers stay.
    pub fn set_de(&mut self, value: u16)
        ensures
            *final(self) == old(self).with_de(value),
            final(self).de() == value,
    {
        let (high, low) = split(value);
        self.d = high;
        self.e = low;
    }

    /// Reads the pair HL.
    pub fn get_hl(&self) -> (value: u16)
        ensures
            value == self.hl(),
    {
        join(self.h, self.l)
    }

    /// Writes the pair HL; the other registers stay.
    pub fn set_hl(&mut self, value: u16)
        ensures
            *final(self) == old(self).with_hl(value),
            final(self).hl() == value,
    {
        let (high, low) = split(value);
        self.h = high;
        self.l = low;
    }
}

/// Writing BC, DE or HL and reading the pair back gives the value written,
/// whatever the register file held before.
pub proof fn lemma_pair_round_trip(registers: Registers, value: u16)
    ensures
        registers.with_bc(value).bc() == value,
        registers.with_de(value).de() == value,
        registers.with_hl(value).hl() == value,
{
}

/// Writing AF and reading it back gives the value written with its low
/// nibble cleared: the flags keep the high nibble of the low byte only.
pub proof fn lemma_af_drops_low_nibble(registers: Registers, value: u16)
    ensures
        registers.with_af(value).af() == value - value % 16,
{
    lemma_pack_unpacked(low_byte(value));
    assert((value % 256) % 16 == value % 16) by (bit_vector);
}

/// Writing AF and reading it back gives the value written, where the low
/// nibble of the value is clear.
pub proof fn lemma_af_round_trip(registers: Registers, value: u16)
    requires
        value % 16 == 0,
    ensures
        registers.with_af(value).af() == value,
{
    lemma_af_drops_low_nibble(registers, value);
}

/// Writing one pair leaves the other three as they were.
pub proof fn lemma_pairs_independent(registers: Registers, value: u16)
    ensures
        registers.with_af(value).bc() == registers.bc(),
        registers.with_af(value).de() == registers.de(),
        registers.with_af(value).hl() == registers.hl(),
        registers.with_bc(value).af() == registers.af(),
        registers.with_bc(value).de() == registers.de(),
        registers.with_bc(value).hl() == registers.hl(),
        registers.with_de(value).af() == registers.af(),
        registers.with_de(value).bc() == registers.bc(),
        registers.with_de(value).hl() == registers.hl(),
        registers.with_hl(value).af() == registers.af(),
        registers.with_hl(value).bc() == registers.bc(),
        registers.with_hl(value).de() == registers.de(),
{
}

} // verus!
