//! Instructions as typed values, and the two tables that assign them to
//! opcode bytes.

use vstd::prelude::*;

verus! {

/// One instruction. Instructions of one family share a variant and differ
/// in the operand that the variant carries.
#[derive(Clone, Copy, Debug, PartialEq, Eq, Structural)]
pub enum Instruction {
    ADD(ArithmeticTarget),
    ADC(ArithmeticTarget),
    SUB(ArithmeticTarget),
    SBC(ArithmeticTarget),
    AND(ArithmeticTarget),
    OR(ArithmeticTarget),
    XOR(ArithmeticTarget),
    CP(ArithmeticTarget),
    LD(LoadType),
    BIT(BitPosition),
}

/// Where an arithmetic or logic instruction takes its operand from: a
/// register, or the byte that HL points to.
#[derive(Clone, Copy, Debug, PartialEq, Eq, Structural)]
pub enum ArithmeticTarget {
    A,
    B,
    C,
    D,
    E,
    H,
    L,
    HLI,
}

/// Where a byte load stores: a register, or the byte that HL points to.
#[derive(Clone, Copy, Debug, PartialEq, Eq, Structural)]
pub enum LoadByteTarget {
    A,
    B,
    C,
    D,
    E,
    H,
    L,
    HLI,
}

/// Where a byte load reads: a register, the byte after the opcode, or the
/// byte that HL points to.
#[derive(Clone, Copy, Debug, PartialEq, Eq, Structural)]
pub enum LoadByteSource {
    A,
    B,
    C,
    D,
    E,
    H,
    L,
    D8,
    HLI,
}

/// The three shapes of a load.
#[derive(Clone, Copy, Debug, PartialEq, Eq, Structural)]
pub enum LoadType {
    Byte(LoadByteTarget, LoadByteSource),
    Word(LoadWordTarget),
    IndirectFromA(Indirect),
}

/// Where a word load stores the word that follows the opcode.
#[derive(Clone, Copy, Debug, PartialEq, Eq, Structural)]
pub enum LoadWordTarget {
    BC,
    DE,
    HL,
    SP,
}

/// How a store of the accumulator finds its address.
#[derive(Clone, Copy, Debug, PartialEq, Eq, Structural)]
pub enum Indirect {
    BCIndirect,
    DEIndirect,
    HLIndirectMinus,
    HLIndirectPlus,
    WordIndirect,
    LastByteIndirect,
}

/// A bit of a byte, B0 the lowest.
#[derive(Clone, Copy, Debug, PartialEq, Eq, Structural)]
pub enum BitPosition {
    B0,
    B1,
    B2,
    B3,
    B4,
    B5,
    B6,
    B7,
}

/// The operand that the low three bits of an arithmetic opcode select.
pub open spec fn operand_at(index: int) -> ArithmeticTarget {
    if index == 0 {
        ArithmeticTarget::B
    } else if index == 1 {
        ArithmeticTarget::C
    } else if index == 2 {
        ArithmeticTarget::D
    } else if index == 3 {
        ArithmeticTarget::E
    } else if index == 4 {
        ArithmeticTarget::H
    } else if index == 5 {
        ArithmeticTarget::L
    } else if index == 6 {
        ArithmeticTarget::HLI
    } else {
        ArithmeticTarget::A
    }
}

/// The instruction of the family that bits 3 to 5 of an arithmetic opcode
/// select, on the given operand.
pub open spec fn arithmetic_at(family: int, target: ArithmeticTarget) -> Instruction {
    if family == 0 {
        Instruction::ADD(target)
    } else if family == 1 {
        Instruction::ADC(target)
    } else if family == 2 {
        Instruction::SUB(target)
    } else if family == 3 {
        Instruction::SBC(target)
    } else if family == 4 {
        Instruction::AND(target)
    } else if family == 5 {
        Instruction::XOR(target)
    } else if family == 6 {
        Instruction::OR(target)
    } else {
        Instruction::CP(target)
    }
}

impl Instruction {
    /// The table of opcodes without prefix.
    ///
    /// The bytes 0x80 to 0xBF are the eight arithmetic and logic families,
    /// eight opcodes each, one for each operand. Besides them three loads
    /// are assigned. Every other byte has no instruction.
    pub open spec fn decoded_not_prefixed(byte: u8) -> Option<Instruction> {
        if 0x80 <= byte <= 0xBF {
            Some(arithmetic_at((byte - 0x80) / 8, operand_at((byte % 8) as int)))
        } else if byte == 0x21 {
            Some(Instruction::LD(LoadType::Word(LoadWordTarget::HL)))
        } else if byte == 0x31 {
            Some(Instruction::LD(LoadType::Word(LoadWordTarget::SP)))
        } else if byte == 0x32 {
            Some(Instruction::LD(LoadType::IndirectFromA(Indirect::HLIndirectMinus)))
        } else {
            None
        }
    }

    /// The table of opcodes that follow the prefix byte: the test of bit 7
    /// is assigned, and nothing else.
    pub open spec fn decoded_prefixed(byte: u8) -> Option<Instruction> {
        if byte == 0x7c {
            Some(Instruction::BIT(BitPosition::B7))
        } else {
            None
        }
    }

    /// The instruction assigned to `byte` in the table that `prefixed`
    /// selects, if there is one.
    pub open spec fn decoded(byte: u8, prefixed: bool) -> Option<Instruction> {
        if prefixed {
            Instruction::decoded_prefixed(byte)
        } else {
            Instruction::decoded_not_prefixed(byte)
        }
    }

    /// Decodes one opcode byte. `None` means that the byte has no
    /// instruction in the table chosen; the caller decides what that means.
    pub fn from_byte(byte: u8, prefixed: bool) -> (instruction: Option<Instruction>)
        ensures
            instruction == Instruction::decoded(byte, prefixed),
    {
        if prefixed {
            Instruction::from_byte_prefixed(byte)
        } else {
            Instruction::from_byte_not_prefixed(byte)
        }
    }

    /// Decodes a byte that followed the prefix byte.
    pub fn from_byte_prefixed(byte: u8) -> (instruction: Option<Instruction>)
        ensures
            instruction == Instruction::decoded_prefixed(byte),
    {
        match byte {
            0x7c => Some(Instruction::BIT(BitPosition::B7)),
            _ => None,
        }
    }

    /// Decodes a byte that no prefix byte preceded.
    pub fn from_byte_not_prefixed(byte: u8) -> (instruction: Option<Instruction>)
        ensures
            instruction == Instruction::decoded_not_prefixed(byte),
    {
        match byte {
            0x80 => Some(Instruction::ADD(ArithmeticTarget::B)),
            0x81 => Some(Instruction::ADD(ArithmeticTarget::C)),
            0x82 => Some(Instruction::ADD(ArithmeticTarget::D)),
            0x83 => Some(Instruction::ADD(ArithmeticTarget::E)),
            0x84 => Some(Instruction::ADD(ArithmeticTarget::H)),
            0x85 => Some(Instruction::ADD(ArithmeticTarget::L)),
            0x86 => Some(Instruction::ADD(ArithmeticTarget::HLI)),
            0x87 => Some(Instruction::ADD(ArithmeticTarget::A)),
            0x88 => Some(Instruction::ADC(ArithmeticTarget::B)),
            0x89 => Some(Instruction::ADC(ArithmeticTarget::C)),
            0x8a => Some(Instruction::ADC(ArithmeticTarget::D)),
            0x8b => Some(Instruction::ADC(ArithmeticTarget::E)),
            0x8c => Some(Instruction::ADC(ArithmeticTarget::H)),
            0x8d => Some(Instruction::ADC(ArithmeticTarget::L)),
            0x8e => Some(Instruction::ADC(ArithmeticTarget::HLI)),
            0x8f => Some(Instruction::ADC(ArithmeticTarget::A)),
            0x90 => Some(Instruction::SUB(ArithmeticTarget::B)),
            0x91 => Some(Instruction::SUB(ArithmeticTarget::C)),
            0x92 => Some(Instruction::SUB(ArithmeticTarget::D)),
            0x93 => Some(Instruction::SUB(ArithmeticTarget::E)),
            0x94 => Some(Instruction::SUB(ArithmeticTarget::H)),
            0x95 => Some(Instruction::SUB(ArithmeticTarget::L)),
            0x96 => Some(Instruction::SUB(ArithmeticTarget::HLI)),
            0x97 => Some(Instruction::SUB(ArithmeticTarget::A)),
            0x98 => Some(Instruction::SBC(ArithmeticTarget::B)),
            0x99 => Some(Instruction::SBC(ArithmeticTarget::C)),
            0x9a => Some(Instruction::SBC(ArithmeticTarget::D)),
            0x9b => Some(Instruction::SBC(ArithmeticTarget::E)),
            0x9c => Some(Instruction::SBC(ArithmeticTarget::H)),
            0x9d => Some(Instruction::SBC(ArithmeticTarget::L)),
            0x9e => Some(Instruction::SBC(ArithmeticTarget::HLI)),
            0x9f => Some(Instruction::SBC(ArithmeticTarget::A)),
            0xa0 => Some(Instruction::AND(ArithmeticTarget::B)),
            0xa1 => Some(Instruction::AND(ArithmeticTarget::C)),
            0xa2 => Some(Instruction::AND(ArithmeticTarget::D)),
            0xa3 => Some(Instruction::AND(ArithmeticTarget::E)),
            0xa4 => Some(Instruction::AND(ArithmeticTarget::H)),
            0xa5 => Some(Instruction::AND(ArithmeticTarget::L)),
            0xa6 => Some(Instruction::AND(ArithmeticTarget::HLI)),
            0xa7 => Some(Instruction::AND(ArithmeticTarget::A)),
            0xa8 => Some(Instruction::XOR(ArithmeticTarget::B)),
            0xa9 => Some(Instruction::XOR(ArithmeticTarget::C)),
            0xaa => Some(Instruction::XOR(ArithmeticTarget::D)),
            0xab => Some(Instruction::XOR(ArithmeticTarget::E)),
            0xac => Some(Instruction::XOR(ArithmeticTarget::H)),
            0xad => Some(Instruction::XOR(ArithmeticTarget::L)),
            0xae => Some(Instruction::XOR(ArithmeticTarget::HLI)),
            0xaf => Some(Instruction::XOR(ArithmeticTarget::A)),
            0xb0 => Some(Instruction::OR(ArithmeticTarget::B)),
            0xb1 => Some(Instruction::OR(ArithmeticTarget::C)),
            0xb2 => Some(Instruction::OR(ArithmeticTarget::D)),
            0xb3 => Some(Instruction::OR(ArithmeticTarget::E)),
            0xb4 => Some(Instruction::OR(ArithmeticTarget::H)),
            0xb5 => Some(Instruction::OR(ArithmeticTarget::L)),
            0xb6 => Some(Instruction::OR(ArithmeticTarget::HLI)),
            0xb7 => Some(Instruction::OR(ArithmeticTarget::A)),
            0xb8 => Some(Instruction::CP(ArithmeticTarget::B)),
            0xb9 => Some(Instruction::CP(ArithmeticTarget::C)),
            0xba => Some(Instruction::CP(ArithmeticTarget::D)),
            0xbb => Some(Instruction::CP(ArithmeticTarget::E)),
            0xbc => Some(Instruction::CP(ArithmeticTarget::H)),
            0xbd => Some(Instruction::CP(ArithmeticTarget::L)),
            0xbe => Some(Instruction::CP(ArithmeticTarget::HLI)),
            0xbf => Some(Instruction::CP(ArithmeticTarget::A)),
            0x31 => Some(Instruction::LD(LoadType::Word(LoadWordTarget::SP))),
            0x21 => Some(Instruction::LD(LoadType::Word(LoadWordTarget::HL))),
            0x32 => Some(Instruction::LD(LoadType::IndirectFromA(Indirect::HLIndirectMinus))),
            _ => None,
        }
    }
}

/// The bytes that have an instruction: 0x80 to 0xBF and three loads without
/// prefix, one bit test with it.
pub proof fn lemma_assigned_opcodes(byte: u8)
    ensures
        Instruction::decoded(byte, false) is Some <==> (0x80 <= byte <= 0xBF || byte == 0x21
            || byte == 0x31 || byte == 0x32),
        Instruction::decoded(byte, true) is Some <==> byte == 0x7c,
{
}

/// No instruction has two opcodes: two bytes that decode to the same
/// instruction, each in either table, are the same byte of the same table.
pub proof fn lemma_decoding_injective(first: u8, first_prefixed: bool, second: u8, second_prefixed: bool)
    requires
        Instruction::decoded(first, first_prefixed) is Some,
        Instruction::decoded(first, first_prefixed) == Instruction::decoded(
            second,
            second_prefixed,
        ),
    ensures
        first == second,
        first_prefixed == second_prefixed,
{
}

} // verus!
