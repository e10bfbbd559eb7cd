//! Bridges between the bitwise operations that the interpreter computes with
//! and the arithmetic that the model is stated in.

use crate::flags::{flag, lemma_flag_masks, CARRY};
use crate::model::{high_byte, low_byte, signed, word, wrap_byte, wrap_word};
use crate::semantics::{bottom_bit, shifted_left, shifted_right, top_bit};
use vstd::prelude::*;

verus! {

/// Shifting the high byte into place and or-ing the low byte in composes
/// the 16-bit value.
pub proof fn lemma_word_of_bytes(lo: u8, hi: u8)
    ensures
        ((hi as u16) << 8) | (lo as u16) == word(lo, hi),
{
    let l = lo as u16;
    let h = hi as u16;
    assert((h << 8) | l == l + 0x100 * h) by (bit_vector)
        requires
            l < 0x100,
            h < 0x100,
    ;
}

/// Shifting and masking a 16-bit value takes its two bytes apart.
pub proof fn lemma_bytes_of_word(value: u16)
    ensures
        (value >> 8) as u8 == high_byte(value),
        (value & 0xff) as u8 == low_byte(value),
{
    assert(value >> 8 == value / 0x100) by (bit_vector);
    assert(value & 0xff == value % 0x100) by (bit_vector);
}

/// Going forward by an offset below `0x80`, and back by the distance of a
/// higher one from `0x100`, from the address after the offset byte, is
/// adding the signed offset to that address.
pub proof fn lemma_branch_target(pc: u16, offset: u8)
    ensures
        offset < 0x80 ==> wrap_word(wrap_word(pc + 1) + offset) == wrap_word(
            pc + 1 + signed(offset),
        ),
        offset >= 0x80 ==> wrap_word(wrap_word(pc + 1) - (0x100 - offset)) == wrap_word(
            pc + 1 + signed(offset),
        ),
{
}

/// Masks read the two end bits of a byte.
pub proof fn lemma_end_bits(value: u8)
    ensures
        (value & 0x80 != 0) == top_bit(value),
        (value & 0x01 == 0x01) == bottom_bit(value),
{
    assert((value & 0x80 != 0) == (value >= 0x80)) by (bit_vector);
    assert((value & 0x01 == 0x01) == (value % 2 == 1)) by (bit_vector);
}

/// Doubling a byte modulo 2^8 and or-ing a carry bit in is a left shift
/// with the carry entering at bit 0.
pub proof fn lemma_shift_left(value: u8, doubled: u8, carry_bit: u8)
    requires
        doubled == (2 * value) % 0x100,
        carry_bit <= 1,
    ensures
        doubled | carry_bit == shifted_left(value, carry_bit == 1),
        doubled == shifted_left(value, false),
{
    assert(doubled | carry_bit == doubled + carry_bit) by (bit_vector)
        requires
            doubled == (2 * value) % 0x100,
            carry_bit <= 1,
    ;
}

/// Halving a byte and or-ing a carry bit in at the top is a right shift
/// with the carry entering at bit 7.
pub proof fn lemma_shift_right(value: u8, carry_bit: u8)
    requires
        carry_bit <= 1,
    ensures
        (value / 2) | (carry_bit << 7) == shifted_right(value, carry_bit == 1),
        value / 2 == shifted_right(value, false),
{
    assert((value / 2) | (carry_bit << 7) == value / 2 + 0x80 * carry_bit) by (bit_vector)
        requires
            carry_bit <= 1,
    ;
}

/// The sign test that the interpreter makes for V, and the mask formula for
/// it, both say that the sum overflows as a signed one: the two addends
/// agree in bit 7 and the result differs from them.
pub proof fn lemma_sign_change(a: u8, value: u8, carry: u8, result: u8)
    requires
        carry <= 1,
        result == wrap_byte(a + value + carry),
    ensures
        ((a & 0x80) == (value & 0x80) && (value & 0x80) != (result & 0x80)) == (signed(a) + signed(
            value,
        ) + carry < -0x80 || signed(a) + signed(value) + carry > 0x7F),
        ((a ^ result) & (value ^ result) & 0x80 != 0) == (signed(a) + signed(value) + carry < -0x80
            || signed(a) + signed(value) + carry > 0x7F),
{
    assert(((a & 0x80) == (value & 0x80) && (value & 0x80) != (result & 0x80)) == ((a < 0x80
        && value < 0x80 && result >= 0x80) || (a >= 0x80 && value >= 0x80 && result < 0x80)))
        by (bit_vector);
    assert(((a ^ result) & (value ^ result) & 0x80 != 0) == ((a < 0x80 && value < 0x80 && result
        >= 0x80) || (a >= 0x80 && value >= 0x80 && result < 0x80))) by (bit_vector);
}

/// Masking the status byte with the carry mask gives the carry as a number.
pub proof fn lemma_carry_bit(status: u8)
    ensures
        status & CARRY == if flag(status, CARRY) { 1u8 } else { 0u8 },
{
    lemma_flag_masks(status, CARRY);
    assert(status & 0x01 <= 1) by (bit_vector);
}

/// The one's complement of a byte is its distance from `0xFF`.
pub proof fn lemma_complement(value: u8)
    ensures
        !value == 0xFF - value,
{
    assert(!value == 0xFF - value) by (bit_vector);
}

} // verus!
