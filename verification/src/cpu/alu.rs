//! What the arithmetic and logic instructions compute, as mathematics: the
//! result byte and the flags, from the accumulator, the operand and the
//! carry that comes in.

use vstd::prelude::*;
use crate::cpu::flags_register::FlagsRegister;
use crate::cpu::instruction::BitPosition;

verus! {

/// 1 where a carry comes in, else 0.
pub open spec fn carry_value(carry_in: bool) -> int {
    if carry_in {
        1
    } else {
        0
    }
}

/// The low eight bits of accumulator plus operand plus carry.
pub open spec fn sum(a: u8, value: u8, carry_in: bool) -> u8 {
    ((a + value + carry_value(carry_in)) % 256) as u8
}

/// The flags after an addition: zero from the result, half-carry where the
/// low nibbles and the carry together pass 0xF, carry where the whole sum
/// passes 0xFF.
pub open spec fn sum_flags(a: u8, value: u8, carry_in: bool) -> FlagsRegister {
    FlagsRegister {
        zero: sum(a, value, carry_in) == 0,
        subtract: false,
        half_carry: a % 16 + value % 16 + carry_value(carry_in) > 0xF,
        carry: a + value + carry_value(carry_in) > 0xFF,
    }
}

/// The low eight bits of accumulator minus operand minus carry.
pub open spec fn difference(a: u8, value: u8, carry_in: bool) -> u8 {
    ((a - value - carry_value(carry_in)) % 256) as u8
}

/// The flags after a subtraction: zero from the result, half-carry where
/// the low nibble of the accumulator is less than that of the operand plus
/// the carry, carry where the whole difference falls below 0.
pub open spec fn difference_flags(a: u8, value: u8, carry_in: bool) -> FlagsRegister {
    FlagsRegister {
        zero: difference(a, value, carry_in) == 0,
        subtract: true,
        half_carry: a % 16 < value % 16 + carry_value(carry_in),
        carry: a - value - carry_value(carry_in) < 0,
    }
}

/// The flags after AND, OR or XOR: zero from the result, half-carry as the
/// instruction fixes it, the other two false.
pub open spec fn logic_flags(result: u8, half_carry: bool) -> FlagsRegister {
    FlagsRegister { zero: result == 0, subtract: false, half_carry, carry: false }
}

/// The value of a bit as a number: 1 for B0, 128 for B7.
pub open spec fn bit_weight(position: BitPosition) -> int {
    match position {
        BitPosition::B0 => 1,
        BitPosition::B1 => 2,
        BitPosition::B2 => 4,
        BitPosition::B3 => 8,
        BitPosition::B4 => 16,
        BitPosition::B5 => 32,
        BitPosition::B6 => 64,
        BitPosition::B7 => 128,
    }
}

/// Whether the bit of `value` at `position` is 1.
pub open spec fn bit_is_set(value: u8, position: BitPosition) -> bool {
    (value as int / bit_weight(position)) % 2 == 1
}

/// The flags after a bit test: zero exactly when the bit is 0, subtract
/// false, half-carry true, carry as it was.
pub open spec fn bit_test_flags(value: u8, position: BitPosition, before: FlagsRegister)
    -> FlagsRegister {
    FlagsRegister {
        zero: !bit_is_set(value, position),
        subtract: false,
        half_carry: true,
        carry: before.carry,
    }
}

/// The low nibble of a byte, taken with a mask, is its remainder by 16.
pub proof fn lemma_low_nibble(value: u8)
    by (bit_vector)
    ensures
        value & 0xF == value % 16,
{
}

/// A comparison sets the zero flag exactly when accumulator and operand are
/// equal, and the carry flag exactly when the accumulator is the smaller.
pub proof fn lemma_compare_flags(a: u8, value: u8)
    ensures
        difference_flags(a, value, false).zero == (a == value),
        difference_flags(a, value, false).carry == (a < value),
{
}

} // verus!
