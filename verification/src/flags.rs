//! Layout of the processor status byte and operations on its single flags.
//!
//! The status register is kept as one packed byte, because several
//! instructions push and pull it whole. The functions here give names to the
//! bits, say in arithmetic what it is to read and to write one flag, and
//! tie that to the masking that the interpreter computes with.

use vstd::prelude::*;

verus! {

/// Carry: the ninth bit of the last addition, shift or comparison.
pub const CARRY: u8 = 0x01;

/// Zero: the last result was `0x00`.
pub const ZERO: u8 = 0x02;

/// Interrupt disable.
pub const INTERRUPT_DISABLE: u8 = 0x04;

/// Decimal mode; it can be set and cleared, arithmetic stays binary.
pub const DECIMAL: u8 = 0x08;

/// Break: exists only in copies of the status byte on the stack.
pub const BREAK: u8 = 0x10;

/// The unused bit, conventionally 1 in copies on the stack.
pub const UNUSED: u8 = 0x20;

/// Overflow: the last addition or subtraction overflowed as a signed one.
pub const OVERFLOW: u8 = 0x40;

/// Negative: bit 7 of the last result.
pub const NEGATIVE: u8 = 0x80;

/// `mask` selects exactly one of the eight status flags.
pub open spec fn is_flag(mask: u8) -> bool {
    mask == CARRY || mask == ZERO || mask == INTERRUPT_DISABLE || mask == DECIMAL || mask == BREAK
        || mask == UNUSED || mask == OVERFLOW || mask == NEGATIVE
}

/// Whether the flag selected by `mask` is set in `status`: the binary digit
/// of `status` at the place of `mask`.
pub open spec fn flag(status: u8, mask: u8) -> bool {
    (status / mask) % 2 == 1
}

/// `status` with the flag selected by `mask` set (`on`) or cleared.
pub open spec fn with_flag(status: u8, mask: u8, on: bool) -> u8 {
    if flag(status, mask) == on {
        status
    } else if on {
        (status + mask) as u8
    } else {
        (status - mask) as u8
    }
}

/// Bit 7 of a byte, the sign under the two's-complement reading.
pub open spec fn sign_bit(value: u8) -> bool {
    value >= 0x80
}

/// `status` after an instruction that reports `result` in Z and N:
/// Z is set iff `result` is zero, N is a copy of bit 7 of `result`.
pub open spec fn with_zero_negative(status: u8, result: u8) -> u8 {
    with_flag(with_flag(status, ZERO, result == 0), NEGATIVE, sign_bit(result))
}

/// The status byte as PHP pushes it: B and the unused bit forced to 1.
pub open spec fn pushed_status(status: u8) -> u8 {
    with_flag(with_flag(status, BREAK, true), UNUSED, true)
}

/// The status byte as PLP and RTI take it from the stack: B cleared, the
/// unused bit set.
pub open spec fn pulled_status(value: u8) -> u8 {
    with_flag(with_flag(value, BREAK, false), UNUSED, true)
}

/// Masking reads a flag, or-ing the mask in sets it, and-ing with the
/// complement of the mask clears it.
pub proof fn lemma_flag_masks(status: u8, mask: u8)
    requires
        is_flag(mask),
    ensures
        (status & mask != 0) == flag(status, mask),
        (status & mask == mask) == flag(status, mask),
        status | mask == with_flag(status, mask, true),
        status & !mask == with_flag(status, mask, false),
{
    assert((status & mask != 0) == ((status / mask) % 2 == 1) && (status & mask == mask) == ((status
        / mask) % 2 == 1) && (status | mask) == (if (status / mask) % 2 == 1 {
        status
    } else {
        (status + mask) as u8
    }) && (status & !mask) == (if (status / mask) % 2 == 1 {
        (status - mask) as u8
    } else {
        status
    })) by (bit_vector)
        requires
            mask == 0x01 || mask == 0x02 || mask == 0x04 || mask == 0x08 || mask == 0x10 || mask
                == 0x20 || mask == 0x40 || mask == 0x80,
    ;
}

/// Masking with `0x80` reads the sign of a byte.
pub proof fn lemma_sign_mask(value: u8)
    ensures
        (value & NEGATIVE != 0) == sign_bit(value),
        sign_bit(value) == flag(value, NEGATIVE),
{
    assert((value & 0x80 != 0) == (value >= 0x80)) by (bit_vector);
}

/// Setting or clearing a flag makes that flag read as it was written.
pub proof fn lemma_with_flag_writes(status: u8, mask: u8, on: bool)
    requires
        is_flag(mask),
    ensures
        flag(with_flag(status, mask, on), mask) == on,
{
    lemma_flag_masks(status, mask);
    assert(mask != 0 ==> ((status | mask) & mask != 0) && ((status & !mask) & mask == 0))
        by (bit_vector);
    lemma_flag_masks(status | mask, mask);
    lemma_flag_masks(status & !mask, mask);
}

/// Setting or clearing a flag leaves every other flag as it was.
pub proof fn lemma_with_flag_keeps(status: u8, mask: u8, other: u8, on: bool)
    requires
        is_flag(mask),
        is_flag(other),
        mask != other,
    ensures
        flag(with_flag(status, mask, on), other) == flag(status, other),
{
    lemma_flag_masks(status, mask);
    lemma_flag_masks(status, other);
    lemma_flag_masks(status | mask, other);
    lemma_flag_masks(status & !mask, other);
    assert(mask & other == 0 ==> ((status | mask) & other == status & other) && ((status & !mask)
        & other == status & other)) by (bit_vector);
    assert(mask & other == 0) by (bit_vector)
        requires
            mask == 0x01 || mask == 0x02 || mask == 0x04 || mask == 0x08 || mask == 0x10 || mask
                == 0x20 || mask == 0x40 || mask == 0x80,
            other == 0x01 || other == 0x02 || other == 0x04 || other == 0x08 || other == 0x10
                || other == 0x20 || other == 0x40 || other == 0x80,
            mask != other,
    ;
}

/// A status byte is determined by its eight flags.
pub proof fn lemma_status_by_flags(p: u8, q: u8)
    requires
        forall|mask: u8| is_flag(mask) ==> flag(p, mask) == flag(q, mask),
    ensures
        p == q,
{
    assert(is_flag(CARRY) && is_flag(ZERO) && is_flag(INTERRUPT_DISABLE) && is_flag(DECIMAL)
        && is_flag(BREAK) && is_flag(UNUSED) && is_flag(OVERFLOW) && is_flag(NEGATIVE));
    lemma_mask_reads(p);
    lemma_mask_reads(q);
    assert(p == q) by (bit_vector)
        requires
            (p & 0x01 != 0) == (q & 0x01 != 0),
            (p & 0x02 != 0) == (q & 0x02 != 0),
            (p & 0x04 != 0) == (q & 0x04 != 0),
            (p & 0x08 != 0) == (q & 0x08 != 0),
            (p & 0x10 != 0) == (q & 0x10 != 0),
            (p & 0x20 != 0) == (q & 0x20 != 0),
            (p & 0x40 != 0) == (q & 0x40 != 0),
            (p & 0x80 != 0) == (q & 0x80 != 0),
    ;
}

/// Each of the eight masks reads its flag.
proof fn lemma_mask_reads(status: u8)
    ensures
        (status & 0x01 != 0) == flag(status, CARRY),
        (status & 0x02 != 0) == flag(status, ZERO),
        (status & 0x04 != 0) == flag(status, INTERRUPT_DISABLE),
        (status & 0x08 != 0) == flag(status, DECIMAL),
        (status & 0x10 != 0) == flag(status, BREAK),
        (status & 0x20 != 0) == flag(status, UNUSED),
        (status & 0x40 != 0) == flag(status, OVERFLOW),
        (status & 0x80 != 0) == flag(status, NEGATIVE),
{
    lemma_flag_masks(status, CARRY);
    lemma_flag_masks(status, ZERO);
    lemma_flag_masks(status, INTERRUPT_DISABLE);
    lemma_flag_masks(status, DECIMAL);
    lemma_flag_masks(status, BREAK);
    lemma_flag_masks(status, UNUSED);
    lemma_flag_masks(status, OVERFLOW);
    lemma_flag_masks(status, NEGATIVE);
}

/// After a result is reported in Z and N, Z says whether it was zero, N
/// holds its bit 7, and the six other flags are untouched.
pub proof fn lemma_zero_negative(status: u8, result: u8)
    ensures
        flag(with_zero_negative(status, result), ZERO) == (result == 0),
        flag(with_zero_negative(status, result), NEGATIVE) == (result & 0x80 != 0),
        forall|mask: u8|
            is_flag(mask) && mask != ZERO && mask != NEGATIVE ==> flag(
                with_zero_negative(status, result),
                mask,
            ) == flag(status, mask),
{
    let z = with_flag(status, ZERO, result == 0);
    lemma_sign_mask(result);
    lemma_with_flag_writes(status, ZERO, result == 0);
    lemma_with_flag_keeps(status, ZERO, NEGATIVE, result == 0);
    lemma_with_flag_writes(z, NEGATIVE, sign_bit(result));
    lemma_with_flag_keeps(z, NEGATIVE, ZERO, sign_bit(result));
    assert forall|mask: u8| is_flag(mask) && mask != ZERO && mask != NEGATIVE implies flag(
        with_zero_negative(status, result),
        mask,
    ) == flag(status, mask) by {
        lemma_with_flag_keeps(status, ZERO, mask, result == 0);
        lemma_with_flag_keeps(z, NEGATIVE, mask, sign_bit(result));
    }
}

/// What PHP pushes has B and the unused bit set and the six other flags of
/// the status register.
pub proof fn lemma_pushed_status(status: u8)
    ensures
        flag(pushed_status(status), BREAK),
        flag(pushed_status(status), UNUSED),
        forall|mask: u8|
            is_flag(mask) && mask != BREAK && mask != UNUSED ==> flag(pushed_status(status), mask)
                == flag(status, mask),
{
    let b = with_flag(status, BREAK, true);
    lemma_with_flag_writes(status, BREAK, true);
    lemma_with_flag_writes(b, UNUSED, true);
    lemma_with_flag_keeps(b, UNUSED, BREAK, true);
    assert forall|mask: u8| is_flag(mask) && mask != BREAK && mask != UNUSED implies flag(
        pushed_status(status),
        mask,
    ) == flag(status, mask) by {
        lemma_with_flag_keeps(status, BREAK, mask, true);
        lemma_with_flag_keeps(b, UNUSED, mask, true);
    }
}

/// What PLP and RTI load has B clear, the unused bit set and the six other
/// flags of the byte that was pulled.
pub proof fn lemma_pulled_status(value: u8)
    ensures
        !flag(pulled_status(value), BREAK),
        flag(pulled_status(value), UNUSED),
        forall|mask: u8|
            is_flag(mask) && mask != BREAK && mask != UNUSED ==> flag(pulled_status(value), mask)
                == flag(value, mask),
{
    let b = with_flag(value, BREAK, false);
    lemma_with_flag_writes(value, BREAK, false);
    lemma_with_flag_writes(b, UNUSED, true);
    lemma_with_flag_keeps(b, UNUSED, BREAK, true);
    assert forall|mask: u8| is_flag(mask) && mask != BREAK && mask != UNUSED implies flag(
        pulled_status(value),
        mask,
    ) == flag(value, mask) by {
        lemma_with_flag_keeps(value, BREAK, mask, false);
        lemma_with_flag_keeps(b, UNUSED, mask, true);
    }
}

} // verus!
