//! Laws of the instruction set, proved of the model that the interpreter is
//! verified against.

use crate::bits::lemma_sign_change;
use crate::cpu::AddressingMode;
use crate::flags::{
    flag, is_flag, lemma_with_flag_keeps, lemma_with_flag_writes, lemma_zero_negative, with_flag,
    with_zero_negative, CARRY, NEGATIVE, OVERFLOW, ZERO,
};
use crate::model::{
    high_byte, low_byte, signed, word, wrap_byte, wrap_word, CpuState, MEMORY_SIZE, RESET_VECTOR,
};
use crate::opcodes::{accepts, instruction, instruction_len, lemma_decode_encode, Mnemonic};
use crate::semantics::{
    bottom_bit, lemma_accepted_executes, sets_program_counter, shifted_left, shifted_right, top_bit,
};
use vstd::prelude::*;

verus! {

/// A byte that is written is read back, and no other address changes.
pub proof fn lemma_write_read(state: CpuState, addr: u16, data: u8, other: u16)
    requires
        state.wf(),
    ensures
        state.write(addr, data).wf(),
        state.write(addr, data).read(addr) == data,
        other != addr ==> state.write(addr, data).read(other) == state.read(other),
{
}

/// The two bytes of a 16-bit value compose it again, low byte first.
pub proof fn lemma_word_bytes(value: u16, lo: u8, hi: u8)
    ensures
        word(low_byte(value), high_byte(value)) == value,
        low_byte(word(lo, hi)) == lo,
        high_byte(word(lo, hi)) == hi,
{
}

/// A 16-bit value that is written is read back, also where it wraps from
/// the last address to the first.
pub proof fn lemma_write_read_u16(state: CpuState, addr: u16, data: u16)
    requires
        state.wf(),
    ensures
        state.write_u16(addr, data).read_u16(addr) == data,
{
    lemma_word_bytes(data, 0, 0);
}

/// What is pushed is pulled again, and the stack pointer is back where it
/// was.
pub proof fn lemma_push_pull(state: CpuState, data: u8)
    requires
        state.wf(),
    ensures
        state.push(data).pulled() == data,
        state.push(data).pull().stack_pointer == state.stack_pointer,
{
}

/// A 16-bit value that is pushed is pulled again, and the stack pointer is
/// back where it was.
pub proof fn lemma_push_pull_u16(state: CpuState, data: u16)
    requires
        state.wf(),
    ensures
        state.push_u16(data).pulled_u16() == data,
        state.push_u16(data).pull_u16().stack_pointer == state.stack_pointer,
{
    let high = state.push(high_byte(data));
    let both = high.push(low_byte(data));
    lemma_push_pull(high, low_byte(data));
    assert(both.pull().pulled() == high_byte(data));
}

/// PHA followed by PLA restores the accumulator and leaves the stack
/// pointer where it was.
pub proof fn lemma_pha_pla(state: CpuState)
    requires
        state.wf(),
    ensures
        state.pha().pla().register_a == state.register_a,
        state.pha().pla().stack_pointer == state.stack_pointer,
{
    lemma_push_pull(state, state.register_a);
}

/// After a program is loaded, a reset points the program counter at its
/// base.
pub proof fn lemma_load_reset(state: CpuState, base: u16, program: Seq<u8>)
    requires
        state.wf(),
        base + program.len() <= MEMORY_SIZE,
    ensures
        state.load(base, program).wf(),
        state.load(base, program).reset().program_counter == base,
{
    lemma_word_bytes(base, 0, 0);
}

/// A loaded program is in memory from its base upwards, but for what the
/// reset vector covers of it.
pub proof fn lemma_load_places(state: CpuState, base: u16, program: Seq<u8>, i: int)
    requires
        state.wf(),
        base + program.len() <= MEMORY_SIZE,
        0 <= i < program.len(),
        base + i != RESET_VECTOR,
        base + i != RESET_VECTOR + 1,
    ensures
        state.load(base, program).read((base + i) as u16) == program[i],
        state.load(base, program).reset().read((base + i) as u16) == program[i],
{
}

/// The memory keeps covering the address space through a routine.
pub proof fn lemma_execute_wf(state: CpuState, mnemonic: Mnemonic, mode: AddressingMode)
    requires
        state.wf(),
    ensures
        state.execute(mnemonic, mode) matches Some(next) ==> next.wf(),
{
    reveal(CpuState::execute);
}

/// The memory keeps covering the address space through a turn of the
/// cycle.
pub proof fn lemma_step_wf(state: CpuState)
    requires
        state.wf(),
    ensures
        state.step().wf(),
{
    match instruction(state.opcode()) {
        Some((mnemonic, mode)) => lemma_execute_wf(state.fetched(), mnemonic, mode),
        None => {},
    }
}

/// LDA puts the operand into the accumulator; afterwards Z says whether it
/// is zero and N is its bit 7.
pub proof fn lemma_lda_flags(state: CpuState, mode: AddressingMode)
    requires
        state.operand_address(mode) is Some,
    ensures
        state.lda(mode) matches Some(next) && ({
            let value = state.read(state.operand_address(mode)->0);
            &&& next.register_a == value
            &&& flag(next.status, ZERO) == (value == 0)
            &&& flag(next.status, NEGATIVE) == (value & 0x80 != 0)
        }),
{
    let value = state.read(state.operand_address(mode)->0);
    lemma_zero_negative(state.status, value);
}

/// ADC computes the integer sum of the accumulator, the operand and the
/// carry: the accumulator takes the sum modulo 256, C is set iff the sum
/// does not fit in a byte, Z and N report the result, and V is set iff the
/// result differs in bit 7 from both the accumulator and the operand.
pub proof fn lemma_adc(state: CpuState, value: u8)
    ensures
        ({
            let a = state.register_a;
            let sum = a + value + (if flag(state.status, CARRY) { 1int } else { 0int });
            let result = (sum % 256) as u8;
            let next = state.add_with_carry(value);
            &&& next.register_a == result
            &&& flag(next.status, CARRY) == (sum >= 256)
            &&& flag(next.status, ZERO) == (result == 0)
            &&& flag(next.status, NEGATIVE) == (result & 0x80 != 0)
            &&& flag(next.status, OVERFLOW) == (((a ^ result) & (value ^ result)) & 0x80 != 0)
        }),
{
    let a = state.register_a;
    let carry: u8 = if flag(state.status, CARRY) { 1 } else { 0 };
    let sum = a + value + carry;
    let result = wrap_byte(sum);
    let signed_sum = signed(a) + signed(value) + carry;
    let overflow = signed_sum < -0x80 || signed_sum > 0x7F;
    let with_c = with_flag(state.status, CARRY, sum > 0xFF);
    let with_v = with_flag(with_c, OVERFLOW, overflow);
    lemma_sign_change(a, value, carry, result);
    lemma_with_flag_writes(state.status, CARRY, sum > 0xFF);
    lemma_with_flag_keeps(with_c, OVERFLOW, CARRY, overflow);
    lemma_with_flag_writes(with_c, OVERFLOW, overflow);
    lemma_zero_negative(with_v, result);
    let next = state.add_with_carry(value);
    assert(next.status == with_zero_negative(with_v, result));
    assert(is_flag(CARRY) && is_flag(OVERFLOW));
    assert(flag(next.status, CARRY) == flag(with_v, CARRY));
    assert(flag(next.status, OVERFLOW) == flag(with_v, OVERFLOW));
}

/// The V flag of ADC is signed overflow: it is set iff the sum of the
/// accumulator and the operand, read as two's-complement numbers, and the
/// carry lies outside the range of a signed byte.
pub proof fn lemma_adc_signed_overflow(state: CpuState, value: u8)
    ensures
        ({
            let sum = signed(state.register_a) + signed(value) + state.carry();
            flag(state.add_with_carry(value).status, OVERFLOW) == (sum < -128 || sum > 127)
        }),
{
    let a = state.register_a;
    let carry: u8 = if flag(state.status, CARRY) { 1 } else { 0 };
    lemma_sign_change(a, value, carry, wrap_byte(a + value + carry));
    lemma_adc(state, value);
}

/// SBC subtracts the operand and the borrow, which is the complement of the
/// carry: the accumulator takes the difference modulo 256, and C is set iff
/// no borrow was needed.
pub proof fn lemma_sbc(state: CpuState, mode: AddressingMode)
    requires
        state.operand_address(mode) is Some,
    ensures
        state.sbc(mode) matches Some(next) && ({
            let value = state.read(state.operand_address(mode)->0);
            let difference = state.register_a - value - (1 - state.carry());
            &&& next.register_a == wrap_byte(difference)
            &&& flag(next.status, CARRY) == (difference >= 0)
        }),
{
    let value = state.read(state.operand_address(mode)->0);
    lemma_adc(state, (0xFF - value) as u8);
}

/// A comparison sets Z iff the register equals the operand and C iff the
/// register is not below it; N is bit 7 of the wrapping difference.
pub proof fn lemma_compare(state: CpuState, register: u8, value: u8)
    ensures
        ({
            let next = state.compare(register, value);
            &&& flag(next.status, ZERO) == (register == value)
            &&& flag(next.status, CARRY) == (register >= value)
            &&& flag(next.status, NEGATIVE) == (wrap_byte(register - value) & 0x80 != 0)
            &&& next.register_a == state.register_a
            &&& next.register_x == state.register_x
            &&& next.register_y == state.register_y
        }),
{
    let with_c = with_flag(state.status, CARRY, register >= value);
    lemma_with_flag_writes(state.status, CARRY, register >= value);
    lemma_zero_negative(with_c, wrap_byte(register - value));
    let next = state.compare(register, value);
    assert(next.status == with_zero_negative(with_c, wrap_byte(register - value)));
    assert(is_flag(CARRY));
    assert(flag(next.status, CARRY) == flag(with_c, CARRY));
    assert((wrap_byte(register - value) == 0) == (register == value));
}

/// CMP compares the accumulator: afterwards Z is clear iff the accumulator
/// differs from the operand, and C is set iff the accumulator is not below
/// it.
pub proof fn lemma_cmp_flags(state: CpuState, mode: AddressingMode)
    requires
        state.operand_address(mode) is Some,
    ensures
        state.cmp(mode) matches Some(next) && ({
            let value = state.read(state.operand_address(mode)->0);
            &&& !flag(next.status, ZERO) == (state.register_a != value)
            &&& flag(next.status, CARRY) == (state.register_a >= value)
        }),
{
    lemma_compare(state, state.register_a, state.read(state.operand_address(mode)->0));
}

/// The results of the shifts and rotates in the bitwise form: the value
/// moved by one bit, with the carry entering at the free end, and the bit
/// at the other end leaving.
pub proof fn lemma_shift_bits(value: u8, carry: bool)
    ensures
        shifted_left(value, carry) == (value << 1) | (if carry { 1u8 } else { 0u8 }),
        shifted_right(value, carry) == (value >> 1) | (if carry { 0x80u8 } else { 0u8 }),
        top_bit(value) == (value & 0x80 != 0),
        bottom_bit(value) == (value & 0x01 != 0),
{
    let bit: u8 = if carry { 1 } else { 0 };
    assert((value << 1) | bit == (2 * value + bit) % 0x100) by (bit_vector)
        requires
            bit <= 1,
    ;
    assert((value >> 1) | (bit << 7) == value / 2 + 0x80 * bit) by (bit_vector)
        requires
            bit <= 1,
    ;
    assert(bit << 7 == if bit == 1 { 0x80u8 } else { 0u8 }) by (bit_vector)
        requires
            bit <= 1,
    ;
    assert((value & 0x80 != 0) == (value >= 0x80)) by (bit_vector);
    assert((value & 0x01 != 0) == (value % 2 == 1)) by (bit_vector);
}

/// The routine of an instruction that does not set the program counter
/// leaves it where the fetch has put it.
pub proof fn lemma_routine_keeps_program_counter(
    state: CpuState,
    mnemonic: Mnemonic,
    mode: AddressingMode,
)
    requires
        !sets_program_counter(state, mnemonic),
    ensures
        state.execute(mnemonic, mode) matches Some(next) ==> next.program_counter
            == state.program_counter,
{
    reveal(CpuState::execute);
}

/// After the fetch, an instruction that does not set the program counter
/// leaves it moved over the operand bytes.
pub proof fn lemma_turn_advances(fetched: CpuState, mnemonic: Mnemonic, mode: AddressingMode)
    requires
        accepts(mnemonic, mode),
        !sets_program_counter(fetched, mnemonic),
    ensures
        fetched.turn(mnemonic, mode).program_counter == wrap_word(
            fetched.program_counter + instruction_len(mode) - 1,
        ),
{
    lemma_accepted_executes(fetched, mnemonic, mode);
    lemma_routine_keeps_program_counter(fetched, mnemonic, mode);
}

/// An instruction at address `base` leaves the program counter at `base`
/// plus its length, unless it sets the program counter itself.
pub proof fn lemma_program_counter_advances(
    state: CpuState,
    mnemonic: Mnemonic,
    mode: AddressingMode,
)
    requires
        instruction(state.opcode()) == Some((mnemonic, mode)),
        !sets_program_counter(state, mnemonic),
    ensures
        state.step().program_counter == wrap_word(state.program_counter + instruction_len(mode)),
{
    lemma_decode_encode(state.opcode(), mnemonic, mode);
    lemma_turn_advances(state.fetched(), mnemonic, mode);
}

/// The routines that the dispatch selects for JSR and for RTS.
proof fn lemma_call_and_return(caller: CpuState, callee: CpuState)
    ensures
        caller.execute(Mnemonic::JSR, AddressingMode::Absolute) == caller.jsr(
            AddressingMode::Absolute,
        ),
        callee.execute(Mnemonic::RTS, AddressingMode::Implied) == Some(callee.rts()),
{
    reveal(CpuState::execute);
}

/// JSR followed by RTS returns to the instruction after the JSR, with the
/// stack pointer where it was: if a JSR is fetched at `base`, and the byte
/// at its target is an RTS once the return address is on the stack, then
/// two turns of the cycle leave the program counter at `base + 3`.
///
/// A target equal to the address of the operand is left out: the
/// interpreter takes a routine that leaves the program counter where the
/// fetch has put it for one that did not jump.
pub proof fn lemma_jsr_rts(state: CpuState)
    requires
        state.wf(),
        instruction(state.opcode()) == Some((Mnemonic::JSR, AddressingMode::Absolute)),
        state.fetched().read_u16(state.fetched().program_counter)
            != state.fetched().program_counter,
        instruction(state.step().opcode()) == Some((Mnemonic::RTS, AddressingMode::Implied)),
    ensures
        state.step().program_counter == state.fetched().read_u16(state.fetched().program_counter),
        state.step().step().program_counter == wrap_word(state.program_counter + 3),
        state.step().step().stack_pointer == state.stack_pointer,
{
    let fetched = state.fetched();
    let target = fetched.read_u16(fetched.program_counter);
    lemma_call_and_return(fetched, state.step().fetched());
    let pushed = wrap_word(fetched.program_counter + 1);
    let called = fetched.push_u16(pushed).jump(target);
    assert(fetched.execute(Mnemonic::JSR, AddressingMode::Absolute) == Some(called));
    assert(state.step() == called);
    lemma_push_pull_u16(fetched, pushed);
    let entered = called.fetched();
    assert(entered.pulled_u16() == pushed);
    let returned = entered.pull_u16().jump(wrap_word(pushed + 1));
    assert(entered.execute(Mnemonic::RTS, AddressingMode::Implied) == Some(returned));
    assert(called.step() == returned.advanced(entered.program_counter, 1));
}

} // verus!
