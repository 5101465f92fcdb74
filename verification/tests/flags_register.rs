use lib_rust_boi::cpu::flags_register::FlagsRegister;

#[test]
fn flags_round_trip_through_a_byte() {
    for bits in 0u8..16 {
        let flags = FlagsRegister {
            zero: bits & 8 != 0,
            subtract: bits & 4 != 0,
            half_carry: bits & 2 != 0,
            carry: bits & 1 != 0,
        };
        assert_eq!(FlagsRegister::from_byte(flags.to_byte()), flags);
        assert_eq!(FlagsRegister::from(u8::from(flags)), flags);
        assert_eq!(flags.to_byte(), bits << 4);
    }
}

#[test]
fn bytes_round_trip_but_for_the_low_nibble() {
    for byte in 0..=u8::MAX {
        assert_eq!(FlagsRegister::from_byte(byte).to_byte(), byte & 0xF0);
    }
}

#[test]
fn each_flag_has_its_bit() {
    let none = FlagsRegister::new();
    assert_eq!(FlagsRegister { zero: true, ..none }.to_byte(), 0b1000_0000);
    assert_eq!(FlagsRegister { subtract: true, ..none }.to_byte(), 0b0100_0000);
    assert_eq!(FlagsRegister { half_carry: true, ..none }.to_byte(), 0b0010_0000);
    assert_eq!(FlagsRegister { carry: true, ..none }.to_byte(), 0b0001_0000);
    assert_eq!(none.to_byte(), 0);
    assert_eq!(FlagsRegister::from_byte(0b1000_0000), FlagsRegister { zero: true, ..none });
    assert_eq!(FlagsRegister::from_byte(0b0100_0000), FlagsRegister { subtract: true, ..none });
    assert_eq!(FlagsRegister::from_byte(0b0010_0000), FlagsRegister { half_carry: true, ..none });
    assert_eq!(FlagsRegister::from_byte(0b0001_0000), FlagsRegister { carry: true, ..none });
}

#[test]
fn low_nibble_does_not_affect_equality() {
    assert_eq!(FlagsRegister::from_byte(0b1010_0000), FlagsRegister::from_byte(0b1010_1111));
    assert_eq!(FlagsRegister::from_byte(0x0F), FlagsRegister::new());
    assert_ne!(FlagsRegister::from_byte(0x10), FlagsRegister::from_byte(0x20));
}

#[test]
fn clear_resets_every_flag() {
    let mut flags = FlagsRegister { zero: true, subtract: true, half_carry: true, carry: true };
    assert_eq!(flags.to_byte(), 0xF0);
    flags.clear();
    assert_eq!(flags, FlagsRegister { zero: false, subtract: false, half_carry: false, carry: false });
    assert_eq!(flags.to_byte(), 0x00);
}
