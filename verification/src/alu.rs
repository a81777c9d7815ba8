//! Word arithmetic: the operations of the instruction set on 32-bit words.
//!
//! Each function computes with the machine's own integer operations and is
//! proved to give the word that the mathematical model names.

use crate::instruction::sign_extend;
use crate::machine;
use crate::machine::{
    arithmetic_shift_right, flag, signed, truncated_quotient, truncated_remainder, wrap,
};
use vstd::arithmetic::div_mod::{
    lemma_div_is_strictly_smaller, lemma_div_nonincreasing, lemma_div_pos_is_pos,
    lemma_fundamental_div_mod,
};
use vstd::prelude::*;

verus! {

proof fn lemma_signed_bits(value: u32)
    by (bit_vector)
    ensures
        value as i32 == sign_extend(value as int, 0x8000_0000),
{
}

proof fn lemma_unsigned_bits(value: i32)
    by (bit_vector)
    ensures
        value as u32 == (value as int % 0x1_0000_0000) as u32,
{
}

proof fn lemma_extend_bits(byte: u8, halfword: u16)
    by (bit_vector)
    ensures
        byte as i8 as i32 == sign_extend(byte as int, 0x80),
        halfword as i16 as i32 == sign_extend(halfword as int, 0x8000),
{
}

proof fn lemma_truncate_bits(value: u32)
    by (bit_vector)
    ensures
        value as u8 == value % 0x100,
        value as u16 == value % 0x1_0000,
        value & 0b11111 == value % 32,
        value & !0b1 == value - value % 2,
        value & 0b11 == value % 4,
{
}

proof fn lemma_upper_bits(imm: i32)
    by (bit_vector)
    ensures
        (imm as u32) << 12 == ((imm * 0x1000) as int % 0x1_0000_0000) as u32,
{
}

proof fn lemma_shift_bits(value: u32, amount: u32)
    by (bit_vector)
    requires
        amount < 32,
    ensures
        ((value as i32) >> amount) as u32 == if value < 0x8000_0000 {
            value >> amount
        } else {
            !(!value >> amount)
        },
{
}

proof fn lemma_high_bits_signed(product: i64)
    by (bit_vector)
    ensures
        (product >> 32) as u32 == ((product as int / 0x1_0000_0000) % 0x1_0000_0000) as u32,
{
}

proof fn lemma_high_bits(product: u64)
    by (bit_vector)
    ensures
        (product >> 32) as u32 == ((product as int / 0x1_0000_0000) % 0x1_0000_0000) as u32,
{
}

proof fn lemma_low_word_bits(value: u64)
    by (bit_vector)
    ensures
        value as u32 == value % 0x1_0000_0000,
{
}

/// Division by a negative number: the quotient changes its sign, the
/// remainder stays.
proof fn lemma_negative_divisor(a: int, y: int)
    requires
        y < 0,
    ensures
        a / y == -(a / (-y)),
        a % y == a % (-y),
{
    let b = -y;
    let q = a / b;
    let r = a % b;
    lemma_fundamental_div_mod(a, b);
    assert(0 <= r < b) by (nonlinear_arith)
        requires
            b > 0,
            r == a % b,
    ;
    let q2 = a / y;
    let r2 = a % y;
    assert(a == y * q2 + r2 && 0 <= r2 < b) by (nonlinear_arith)
        requires
            y < 0,
            b == -y,
            q2 == a / y,
            r2 == a % y,
    ;
    assert(y * (q2 + q) == r - r2) by (nonlinear_arith)
        requires
            a == b * q + r,
            a == y * q2 + r2,
            b == -y,
    ;
    assert(q2 + q == 0) by (nonlinear_arith)
        requires
            y * (q2 + q) == r - r2,
            0 <= r < -y,
            0 <= r2 < -y,
            y < 0,
    ;
}

/// Division and remainder of machine integers, which round towards zero, in
/// terms of the quotient and remainder of the mathematical integers.
proof fn lemma_division(x: int, y: int)
    requires
        y != 0,
    ensures
        x >= 0 ==> x / y == truncated_quotient(x, y),
        x < 0 ==> -((-x) / y) == truncated_quotient(x, y),
        x >= 0 ==> x % y == truncated_remainder(x, y),
        x < 0 ==> -((-x) % y) == truncated_remainder(x, y),
        x >= 0 ==> -x <= truncated_quotient(x, y) <= x,
        x < 0 ==> x <= truncated_quotient(x, y) <= -x,
        truncated_quotient(x, y) == -x ==> x == 0 || y == -1,
{
    let a = if x < 0 {
        -x
    } else {
        x
    };
    let b = if y < 0 {
        -y
    } else {
        y
    };
    if y < 0 {
        lemma_negative_divisor(a, y);
    }
    lemma_fundamental_div_mod(a, b);
    lemma_div_pos_is_pos(a, b);
    lemma_div_nonincreasing(a, b);
    if a > 0 && b > 1 {
        lemma_div_is_strictly_smaller(a, b);
    }
    let q = a / b;
    assert(y * (-q) == -(y * q) && (-y) * q == -(y * q)) by (nonlinear_arith);
}

/// `value` read as a two's-complement number.
pub(crate) fn to_signed(value: u32) -> (r: i32)
    ensures
        r == signed(value),
{
    proof {
        lemma_signed_bits(value);
    }
    value as i32
}

/// The word that stands for `value` in two's complement.
pub(crate) fn to_unsigned(value: i32) -> (r: u32)
    ensures
        r == wrap(value as int),
{
    proof {
        reveal(wrap);
        lemma_unsigned_bits(value);
    }
    value as u32
}

/// The word that stands for a sign-extended immediate.
pub(crate) fn extend(imm: i16) -> (r: u32)
    ensures
        r == wrap(imm as int),
{
    to_unsigned(imm as i32)
}

/// A loaded byte, sign-extended to a word.
pub(crate) fn extend_byte(byte: u8) -> (r: u32)
    ensures
        r == wrap(sign_extend(byte as int, 0x80)),
{
    proof {
        lemma_extend_bits(byte, 0);
    }
    to_unsigned(byte as i8 as i32)
}

/// A loaded halfword, sign-extended to a word.
pub(crate) fn extend_halfword(halfword: u16) -> (r: u32)
    ensures
        r == wrap(sign_extend(halfword as int, 0x8000)),
{
    proof {
        lemma_extend_bits(0, halfword);
    }
    to_unsigned(halfword as i16 as i32)
}

/// The low word of a 64-bit number.
pub(crate) fn low_word(value: u64) -> (r: u32)
    ensures
        r == value % 0x1_0000_0000,
{
    proof {
        lemma_low_word_bits(value);
    }
    value as u32
}

/// The low byte of a word.
pub(crate) fn low_byte(value: u32) -> (r: u8)
    ensures
        r == machine::low_byte(value),
{
    proof {
        reveal(machine::low_byte);
        lemma_truncate_bits(value);
    }
    value as u8
}

/// The low halfword of a word.
pub(crate) fn low_halfword(value: u32) -> (r: u16)
    ensures
        r == machine::low_halfword(value),
{
    proof {
        reveal(machine::low_halfword);
        lemma_truncate_bits(value);
    }
    value as u16
}

/// Whether `value` is a multiple of four.
pub(crate) fn is_word_aligned(value: u32) -> (r: bool)
    ensures
        r == (value % 4 == 0),
{
    proof {
        lemma_truncate_bits(value);
    }
    value & 0b11 == 0b00
}

/// A 20-bit immediate moved into the upper bits of a word.
pub(crate) fn upper(imm: i32) -> (r: u32)
    ensures
        r == wrap(imm * 0x1000),
{
    proof {
        reveal(wrap);
        lemma_upper_bits(imm);
    }
    (imm as u32) << 12
}

/// `base` plus a signed offset of sixteen bits.
pub(crate) fn offset(base: u32, imm: i16) -> (r: u32)
    ensures
        r == wrap(base + imm),
{
    proof {
        reveal(wrap);
    }
    base.wrapping_add(extend(imm))
}

/// `base` plus a signed offset of thirty-two bits.
pub(crate) fn long_offset(base: u32, imm: i32) -> (r: u32)
    ensures
        r == wrap(base + imm),
{
    proof {
        reveal(wrap);
    }
    base.wrapping_add(to_unsigned(imm))
}

/// `base` plus a 20-bit immediate moved into the upper bits.
pub(crate) fn upper_offset(base: u32, imm: i32) -> (r: u32)
    ensures
        r == wrap(base + imm * 0x1000),
{
    proof {
        reveal(wrap);
    }
    base.wrapping_add(upper(imm))
}

/// The target of an indirect jump: an address with its lowest bit cleared.
pub(crate) fn jump_target(base: u32, imm: i16) -> (r: u32)
    ensures
        r == machine::clear_low_bit(wrap(base + imm)),
{
    proof {
        reveal(machine::clear_low_bit);
    }
    let target = offset(base, imm);
    proof {
        lemma_truncate_bits(target);
    }
    target & !0b1
}

/// The address of the instruction that follows the one at `pc`.
pub(crate) fn next_instruction(pc: u32) -> (r: u32)
    ensures
        r == wrap(pc + 4),
{
    proof {
        reveal(wrap);
    }
    pc.wrapping_add(4)
}

/// The sum, modulo 2^32.
pub(crate) fn sum(a: u32, b: u32) -> (r: u32)
    ensures
        r == wrap(a + b),
{
    proof {
        reveal(wrap);
    }
    a.wrapping_add(b)
}

/// The difference, modulo 2^32.
pub(crate) fn difference(a: u32, b: u32) -> (r: u32)
    ensures
        r == wrap(a - b),
{
    proof {
        reveal(wrap);
    }
    a.wrapping_sub(b)
}

/// A logical left shift by the low five bits of `amount`.
pub(crate) fn shift_left(value: u32, amount: u32) -> (r: u32)
    ensures
        r == value << machine::shift_amount(amount),
{
    proof {
        reveal(machine::shift_amount);
        lemma_truncate_bits(amount);
    }
    value << (amount & 0b11111)
}

/// A logical right shift by the low five bits of `amount`.
pub(crate) fn shift_right(value: u32, amount: u32) -> (r: u32)
    ensures
        r == value >> machine::shift_amount(amount),
{
    proof {
        reveal(machine::shift_amount);
        lemma_truncate_bits(amount);
    }
    value >> (amount & 0b11111)
}

/// An arithmetic right shift by the low five bits of `amount`.
pub(crate) fn shift_right_arithmetic(value: u32, amount: u32) -> (r: u32)
    ensures
        r == arithmetic_shift_right(value, machine::shift_amount(amount)),
{
    proof {
        reveal(machine::shift_amount);
        lemma_truncate_bits(amount);
        lemma_shift_bits(value, amount & 0b11111);
    }
    ((value as i32) >> (amount & 0b11111)) as u32
}

/// An arithmetic right shift by the amount that an instruction holds.
pub(crate) fn shift_right_arithmetic_by(value: u32, shamt: u8) -> (r: u32)
    requires
        shamt < 32,
    ensures
        r == arithmetic_shift_right(value, shamt as u32),
{
    proof {
        reveal(machine::shift_amount);
    }
    shift_right_arithmetic(value, shamt as u32)
}

/// 1 if `a` is less than `b` as signed numbers, else 0.
pub(crate) fn less_than(a: u32, b: u32) -> (r: u32)
    ensures
        r == flag(signed(a) < signed(b)),
{
    if to_signed(a) < to_signed(b) {
        1
    } else {
        0
    }
}

/// 1 if `a`, as a signed number, is less than `imm`, else 0.
pub(crate) fn less_than_immediate(a: u32, imm: i16) -> (r: u32)
    ensures
        r == flag(signed(a) < imm),
{
    if to_signed(a) < imm as i32 {
        1
    } else {
        0
    }
}

/// 1 if `a` is less than `b` as unsigned numbers, else 0.
pub(crate) fn less_than_unsigned(a: u32, b: u32) -> (r: u32)
    ensures
        r == flag(a < b),
{
    if a < b {
        1
    } else {
        0
    }
}

/// The low word of the product.
pub(crate) fn multiply(a: u32, b: u32) -> (r: u32)
    ensures
        r == machine::multiply(a, b),
{
    proof {
        reveal(wrap);
        reveal(machine::multiply);
    }
    let v1 = to_signed(a);
    let v2 = to_signed(b);
    to_unsigned(v1.wrapping_mul(v2))
}

/// The high word of the product of two signed numbers.
pub(crate) fn multiply_high(a: u32, b: u32) -> (r: u32)
    ensures
        r == machine::multiply_high(a, b),
{
    proof {
        reveal(wrap);
        reveal(machine::multiply_high);
    }
    let v1 = to_signed(a) as i64;
    let v2 = to_signed(b) as i64;
    assert(-0x4000_0000_0000_0000 <= v1 * v2 <= 0x4000_0000_0000_0000) by (nonlinear_arith)
        requires
            -0x8000_0000 <= v1 < 0x8000_0000,
            -0x8000_0000 <= v2 < 0x8000_0000,
    ;
    let product = v1 * v2;
    proof {
        lemma_high_bits_signed(product);
    }
    (product >> 32) as u32
}

/// The high word of the product of a signed number and an unsigned one.
pub(crate) fn multiply_high_mixed(a: u32, b: u32) -> (r: u32)
    ensures
        r == machine::multiply_high_mixed(a, b),
{
    proof {
        reveal(wrap);
        reveal(machine::multiply_high_mixed);
    }
    let v1 = to_signed(a) as i64;
    let v2 = b as i64;
    assert(-0x8000_0000_0000_0000 <= v1 * v2 <= 0x7FFF_FFFF_0000_0000) by (nonlinear_arith)
        requires
            -0x8000_0000 <= v1 < 0x8000_0000,
            0 <= v2 < 0x1_0000_0000,
    ;
    let product = v1 * v2;
    proof {
        lemma_high_bits_signed(product);
    }
    (product >> 32) as u32
}

/// The high word of the product of two unsigned numbers.
pub(crate) fn multiply_high_unsigned(a: u32, b: u32) -> (r: u32)
    ensures
        r == machine::multiply_high_unsigned(a, b),
{
    proof {
        reveal(wrap);
        reveal(machine::multiply_high_unsigned);
    }
    let v1 = a as u64;
    let v2 = b as u64;
    assert(0 <= v1 * v2 <= 0xFFFF_FFFE_0000_0001) by (nonlinear_arith)
        requires
            0 <= v1 < 0x1_0000_0000,
            0 <= v2 < 0x1_0000_0000,
    ;
    let product = v1 * v2;
    proof {
        lemma_high_bits(product);
    }
    (product >> 32) as u32
}

/// Signed division as the instruction set defines it, also by zero.
pub(crate) fn divide(a: u32, b: u32) -> (r: u32)
    ensures
        r == machine::divide(a, b),
{
    proof {
        reveal(wrap);
        reveal(machine::divide);
    }
    let v1 = to_signed(a);
    let v2 = to_signed(b);
    if v2 == 0 {
        u32::MAX
    } else if v1 == i32::MIN && v2 == -1 {
        a
    } else {
        proof {
            lemma_division(v1 as int, v2 as int);
        }
        to_unsigned(v1 / v2)
    }
}

/// Unsigned division as the instruction set defines it, also by zero.
pub(crate) fn divide_unsigned(a: u32, b: u32) -> (r: u32)
    ensures
        r == machine::divide_unsigned(a, b),
{
    proof {
        reveal(machine::divide_unsigned);
    }
    if b == 0 {
        u32::MAX
    } else {
        a / b
    }
}

/// The remainder of signed division, also by zero.
pub(crate) fn remainder(a: u32, b: u32) -> (r: u32)
    ensures
        r == machine::remainder(a, b),
{
    proof {
        reveal(wrap);
        reveal(machine::remainder);
    }
    let v1 = to_signed(a);
    let v2 = to_signed(b);
    if v2 == 0 {
        a
    } else if v1 == i32::MIN && v2 == -1 {
        0
    } else {
        proof {
            lemma_division(v1 as int, v2 as int);
        }
        to_unsigned(v1 % v2)
    }
}

/// The remainder of unsigned division, also by zero.
pub(crate) fn remainder_unsigned(a: u32, b: u32) -> (r: u32)
    ensures
        r == machine::remainder_unsigned(a, b),
{
    proof {
        reveal(machine::remainder_unsigned);
    }
    if b == 0 {
        a
    } else {
        a % b
    }
}

} // verus!
