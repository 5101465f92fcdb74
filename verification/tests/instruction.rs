use lib_rust_boi::cpu::instruction::{
    ArithmeticTarget, BitPosition, Indirect, Instruction, LoadType, LoadWordTarget,
};

fn expected_operand(index: u8) -> ArithmeticTarget {
    match index {
        0 => ArithmeticTarget::B,
        1 => ArithmeticTarget::C,
        2 => ArithmeticTarget::D,
        3 => ArithmeticTarget::E,
        4 => ArithmeticTarget::H,
        5 => ArithmeticTarget::L,
        6 => ArithmeticTarget::HLI,
        _ => ArithmeticTarget::A,
    }
}

#[test]
fn arithmetic_opcodes_decode_by_family_and_operand() {
    for index in 0u8..8 {
        let operand = expected_operand(index);
        assert_eq!(Instruction::from_byte(0x80 + index, false), Some(Instruction::ADD(operand)));
        assert_eq!(Instruction::from_byte(0x88 + index, false), Some(Instruction::ADC(operand)));
        assert_eq!(Instruction::from_byte(0x90 + index, false), Some(Instruction::SUB(operand)));
        assert_eq!(Instruction::from_byte(0x98 + index, false), Some(Instruction::SBC(operand)));
        assert_eq!(Instruction::from_byte(0xA0 + index, false), Some(Instruction::AND(operand)));
        assert_eq!(Instruction::from_byte(0xA8 + index, false), Some(Instruction::XOR(operand)));
        assert_eq!(Instruction::from_byte(0xB0 + index, false), Some(Instruction::OR(operand)));
        assert_eq!(Instruction::from_byte(0xB8 + index, false), Some(Instruction::CP(operand)));
    }
}

#[test]
fn some_opcodes_by_hand() {
    assert_eq!(
        Instruction::from_byte(0x80, false),
        Some(Instruction::ADD(ArithmeticTarget::B))
    );
    assert_eq!(
        Instruction::from_byte(0x8e, false),
        Some(Instruction::ADC(ArithmeticTarget::HLI))
    );
    assert_eq!(
        Instruction::from_byte(0x97, false),
        Some(Instruction::SUB(ArithmeticTarget::A))
    );
    assert_eq!(
        Instruction::from_byte(0xaf, false),
        Some(Instruction::XOR(ArithmeticTarget::A))
    );
    assert_eq!(
        Instruction::from_byte(0xb1, false),
        Some(Instruction::OR(ArithmeticTarget::C))
    );
    assert_eq!(
        Instruction::from_byte(0xbd, false),
        Some(Instruction::CP(ArithmeticTarget::L))
    );
}

#[test]
fn load_opcodes_decode() {
    assert_eq!(
        Instruction::from_byte(0x31, false),
        Some(Instruction::LD(LoadType::Word(LoadWordTarget::SP)))
    );
    assert_eq!(
        Instruction::from_byte(0x21, false),
        Some(Instruction::LD(LoadType::Word(LoadWordTarget::HL)))
    );
    assert_eq!(
        Instruction::from_byte(0x32, false),
        Some(Instruction::LD(LoadType::IndirectFromA(Indirect::HLIndirectMinus)))
    );
}

#[test]
fn other_unprefixed_bytes_have_no_instruction() {
    let mut assigned: u32 = 0;
    for byte in 0..=u8::MAX {
        let decoded = Instruction::from_byte(byte, false);
        let expected = (0x80..=0xBF).contains(&byte) || byte == 0x21 || byte == 0x31 || byte == 0x32;
        assert_eq!(decoded.is_some(), expected);
        assert_eq!(decoded, Instruction::from_byte_not_prefixed(byte));
        if decoded.is_some() {
            assigned += 1;
        }
    }
    assert_eq!(assigned, 67);
    assert_eq!(Instruction::from_byte(0x00, false), None);
    assert_eq!(Instruction::from_byte(0xCB, false), None);
    assert_eq!(Instruction::from_byte(0x7c, false), None);
    assert_eq!(Instruction::from_byte(0xFF, false), None);
}

#[test]
fn prefixed_table_holds_the_bit_test_alone() {
    for byte in 0..=u8::MAX {
        let decoded = Instruction::from_byte(byte, true);
        assert_eq!(decoded, Instruction::from_byte_prefixed(byte));
        if byte == 0x7c {
            assert_eq!(decoded, Some(Instruction::BIT(BitPosition::B7)));
        } else {
            assert_eq!(decoded, None);
        }
    }
}

#[test]
fn decoding_is_repeatable() {
    for byte in 0..=u8::MAX {
        assert_eq!(Instruction::from_byte(byte, false), Instruction::from_byte(byte, false));
        assert_eq!(Instruction::from_byte(byte, true), Instruction::from_byte(byte, true));
    }
}

#[test]
fn distinct_opcodes_decode_to_distinct_instructions() {
    for first in 0..=u8::MAX {
        for second in 0..first {
            let a = Instruction::from_byte(first, false);
            let b = Instruction::from_byte(second, false);
            if a.is_some() {
                assert_ne!(a, b);
            }
        }
    }
}
