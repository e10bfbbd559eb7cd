//! The semantic routine of each instruction.
//!
//! A routine runs with the program counter at the first operand byte. One
//! that reads an operand takes the addressing mode and fails, leaving the
//! machine untouched, under a mode that has no operand.

use crate::bits::{
    lemma_carry_bit, lemma_complement, lemma_end_bits, lemma_shift_left, lemma_shift_right,
    lemma_sign_change,
};
use crate::cpu::{AddressingMode, CpuError, Mem, CPU};
use crate::flags::{
    flag, lemma_flag_masks, BREAK, CARRY, DECIMAL, INTERRUPT_DISABLE, NEGATIVE, OVERFLOW, UNUSED,
    ZERO,
};
use crate::laws::{lemma_adc, lemma_cmp_flags, lemma_lda_flags};
use crate::model::wrap_byte;
use crate::semantics::performed;
use vstd::prelude::*;

verus! {

impl CPU {
    /// Adds `value` and the carry to the accumulator, with C, V, Z and N
    /// reporting the sum.
    ///
    /// With `sum` the integer sum of the accumulator, `value` and the carry:
    /// the accumulator takes `sum` modulo 256, C says whether `sum` needs a
    /// ninth bit, Z and N report the result, and V says whether the result
    /// differs in bit 7 from both addends.
    pub fn add_to_register_a(&mut self, value: u8)
        ensures
            final(self)@ == old(self)@.add_with_carry(value),
            final(self).register_a == wrap_byte(old(self).register_a + value + old(self)@.carry()),
            flag(final(self).status, CARRY) == (old(self).register_a + value + old(self)@.carry()
                >= 256),
            flag(final(self).status, ZERO) == (final(self).register_a == 0),
            flag(final(self).status, NEGATIVE) == (final(self).register_a & 0x80 != 0),
            flag(final(self).status, OVERFLOW) == ((old(self).register_a ^ final(self).register_a)
                & (value ^ final(self).register_a) & 0x80 != 0),
    {
        let carry = self.status & CARRY;
        proof {
            lemma_carry_bit(self.status);
            lemma_adc(self@, value);
        }
        let sum: u16 = self.register_a as u16 + value as u16 + carry as u16;
        let carry_flag = sum > 0xff;
        let result: u8 = if carry_flag {
            (sum - 0x100) as u8
        } else {
            sum as u8
        };
        let overflow_flag = (self.register_a & 0b10000000) == (value & 0b10000000) && (value
            & 0b10000000) != (result & 0b10000000);
        proof {
            lemma_sign_change(self.register_a, value, carry, result);
        }

        self.set_flag(CARRY, carry_flag);
        self.set_flag(OVERFLOW, overflow_flag);
        self.set_register_a(result);
    }

    /// Moves the program counter to the branch target if `condition` holds.
    pub fn branch(&mut self, condition: bool)
        ensures
            final(self)@ == old(self)@.branch(condition),
    {
        if condition {
            if let Ok(addr) = self.get_operand_address(&AddressingMode::Relative) {
                self.program_counter = addr;
            }
        }
    }

    /// Compares `target` with the operand: C is set iff `target` is not
    /// below it, Z and N report the wrapping difference.
    pub fn compare(&mut self, mode: &AddressingMode, target: u8) -> (result: Result<(), CpuError>)
        ensures
            performed(old(self)@, old(self)@.compare_operand(*mode, target), result, final(self)@),
    {
        let addr = self.get_operand_address(mode)?;
        let value = self.mem_read(addr);
        let result = target.wrapping_sub(value);
        let carry_flag = target >= value;

        self.set_flag(CARRY, carry_flag);
        self.update_zero_and_negative_flags(result);
        Ok(())
    }


    /// ADC: adds the operand and the carry to the accumulator.
    pub fn adc(&mut self, mode: &AddressingMode) -> (result: Result<(), CpuError>)
        ensures
            performed(old(self)@, old(self)@.adc(*mode), result, final(self)@),
    {
        let addr = self.get_operand_address(mode)?;
        let value = self.mem_read(addr);
        self.add_to_register_a(value);
        Ok(())
    }

    /// AND: bitwise and of the accumulator and the operand.
    pub fn and(&mut self, mode: &AddressingMode) -> (result: Result<(), CpuError>)
        ensures
            performed(old(self)@, old(self)@.and(*mode), result, final(self)@),
    {
        let addr = self.get_operand_address(mode)?;
        let value = self.mem_read(addr);
        self.set_register_a(self.register_a & value);
        Ok(())
    }

    /// ASL: shifts the accumulator or the operand left by one bit; bit 7 goes
    /// to C.
    pub fn asl(&mut self, mode: &AddressingMode) -> (result: Result<(), CpuError>)
        ensures
            performed(old(self)@, old(self)@.asl(*mode), result, final(self)@),
    {
        let (result, carry_flag) = if *mode == AddressingMode::Accumulator {
            let value = self.register_a;
            let result = value.wrapping_mul(2);
            let carry_flag = value & 0b10000000 != 0;
            proof {
                lemma_end_bits(value);
                lemma_shift_left(value, result, 0);
            }
            self.register_a = result;
            (result, carry_flag)
        } else {
            let addr = self.get_operand_address(mode)?;
            let value = self.mem_read(addr);
            let result = value.wrapping_mul(2);
            let carry_flag = value & 0b10000000 != 0;
            proof {
                lemma_end_bits(value);
                lemma_shift_left(value, result, 0);
            }
            self.mem_write(addr, result);
            (result, carry_flag)
        };

        self.set_flag(CARRY, carry_flag);
        self.update_zero_and_negative_flags(result);
        Ok(())
    }

    /// BCC: branches if C is clear.
    pub fn bcc(&mut self, _mode: &AddressingMode)
        ensures
            final(self)@ == old(self)@.bcc(),
    {
        self.branch(!self.flag(CARRY));
    }

    /// BCS: branches if C is set.
    pub fn bcs(&mut self, _mode: &AddressingMode)
        ensures
            final(self)@ == old(self)@.bcs(),
    {
        self.branch(self.flag(CARRY));
    }

    /// BEQ: branches if Z is set.
    pub fn beq(&mut self, _mode: &AddressingMode)
        ensures
            final(self)@ == old(self)@.beq(),
    {
        self.branch(self.flag(ZERO));
    }

    /// BIT: Z says whether the accumulator and the operand share no bit; N and V
    /// take bits 7 and 6 of the operand.
    pub fn bit(&mut self, mode: &AddressingMode) -> (result: Result<(), CpuError>)
        ensures
            performed(old(self)@, old(self)@.bit(*mode), result, final(self)@),
    {
        let addr = self.get_operand_address(mode)?;
        let value = self.mem_read(addr);
        let result = self.register_a & value;
        proof {
            lemma_flag_masks(value, NEGATIVE);
            lemma_flag_masks(value, OVERFLOW);
        }

        self.set_flag(ZERO, result == 0);
        self.set_flag(NEGATIVE, value & NEGATIVE != 0);
        self.set_flag(OVERFLOW, value & OVERFLOW != 0);
        Ok(())
    }

    /// BMI: branches if N is set.
    pub fn bmi(&mut self, _mode: &AddressingMode)
        ensures
            final(self)@ == old(self)@.bmi(),
    {
        self.branch(self.flag(NEGATIVE));
    }

    /// BNE: branches if Z is clear.
    pub fn bne(&mut self, _mode: &AddressingMode)
        ensures
            final(self)@ == old(self)@.bne(),
    {
        self.branch(!self.flag(ZERO));
    }

    /// BPL: branches if N is clear.
    pub fn bpl(&mut self, _mode: &AddressingMode)
        ensures
            final(self)@ == old(self)@.bpl(),
    {
        self.branch(!self.flag(NEGATIVE));
    }

    /// BVC: branches if V is clear.
    pub fn bvc(&mut self, _mode: &AddressingMode)
        ensures
            final(self)@ == old(self)@.bvc(),
    {
        self.branch(!self.flag(OVERFLOW));
    }

    /// BVS: branches if V is set.
    pub fn bvs(&mut self, _mode: &AddressingMode)
        ensures
            final(self)@ == old(self)@.bvs(),
    {
        self.branch(self.flag(OVERFLOW));
    }

    /// CLC: clears C.
    pub fn clc(&mut self, _mode: &AddressingMode)
        ensures
            final(self)@ == old(self)@.clc(),
    {
        self.set_flag(CARRY, false);
    }

    /// CLD: clears D.
    pub fn cld(&mut self, _mode: &AddressingMode)
        ensures
            final(self)@ == old(self)@.cld(),
    {
        self.set_flag(DECIMAL, false);
    }

    /// CLI: clears I.
    pub fn cli(&mut self, _mode: &AddressingMode)
        ensures
            final(self)@ == old(self)@.cli(),
    {
        self.set_flag(INTERRUPT_DISABLE, false);
    }

    /// CLV: clears V.
    pub fn clv(&mut self, _mode: &AddressingMode)
        ensures
            final(self)@ == old(self)@.clv(),
    {
        self.set_flag(OVERFLOW, false);
    }

    /// CMP: compares the accumulator with the operand. Afterwards Z is
    /// clear iff the two differ, and C is set iff the accumulator is not
    /// below the operand.
    pub fn cmp(&mut self, mode: &AddressingMode) -> (result: Result<(), CpuError>)
        ensures
            performed(old(self)@, old(self)@.cmp(*mode), result, final(self)@),
            old(self)@.operand(*mode) matches Some(value) ==> !flag(final(self).status, ZERO) == (
            old(self).register_a != value),
            old(self)@.operand(*mode) matches Some(value) ==> flag(final(self).status, CARRY) == (
            old(self).register_a >= value),
    {
        proof {
            if self@.operand_address(*mode) is Some {
                lemma_cmp_flags(self@, *mode);
            }
        }
        self.compare(mode, self.register_a)
    }

    /// CPX: compares X with the operand.
    pub fn cpx(&mut self, mode: &AddressingMode) -> (result: Result<(), CpuError>)
        ensures
            performed(old(self)@, old(self)@.cpx(*mode), result, final(self)@),
    {
        self.compare(mode, self.register_x)
    }

    /// CPY: compares Y with the operand.
    pub fn cpy(&mut self, mode: &AddressingMode) -> (result: Result<(), CpuError>)
        ensures
            performed(old(self)@, old(self)@.cpy(*mode), result, final(self)@),
    {
        self.compare(mode, self.register_y)
    }

    /// DEC: decrements the operand in memory.
    pub fn dec(&mut self, mode: &AddressingMode) -> (result: Result<(), CpuError>)
        ensures
            performed(old(self)@, old(self)@.dec(*mode), result, final(self)@),
    {
        let addr = self.get_operand_address(mode)?;
        let value = self.mem_read(addr);
        let result = value.wrapping_sub(1);
        self.mem_write(addr, result);
        self.update_zero_and_negative_flags(result);
        Ok(())
    }

    /// DEX: decrements X.
    pub fn dex(&mut self, _mode: &AddressingMode)
        ensures
            final(self)@ == old(self)@.dex(),
    {
        self.register_x = self.register_x.wrapping_sub(1);
        self.update_zero_and_negative_flags(self.register_x);
    }

    /// DEY: decrements Y.
    pub fn dey(&mut self, _mode: &AddressingMode)
        ensures
            final(self)@ == old(self)@.dey(),
    {
        self.register_y = self.register_y.wrapping_sub(1);
        self.update_zero_and_negative_flags(self.register_y);
    }

    /// EOR: bitwise exclusive or of the accumulator and the operand.
    pub fn eor(&mut self, mode: &AddressingMode) -> (result: Result<(), CpuError>)
        ensures
            performed(old(self)@, old(self)@.eor(*mode), result, final(self)@),
    {
        let addr = self.get_operand_address(mode)?;
        let value = self.mem_read(addr);
        self.set_register_a(self.register_a ^ value);
        Ok(())
    }

    /// INC: increments the operand in memory.
    pub fn inc(&mut self, mode: &AddressingMode) -> (result: Result<(), CpuError>)
        ensures
            performed(old(self)@, old(self)@.inc(*mode), result, final(self)@),
    {
        let addr = self.get_operand_address(mode)?;
        let value = self.mem_read(addr);
        let result = value.wrapping_add(1);
        self.mem_write(addr, result);
        self.update_zero_and_negative_flags(result);
        Ok(())
    }

    /// INX: increments X.
    pub fn inx(&mut self, _mode: &AddressingMode)
        ensures
            final(self)@ == old(self)@.inx(),
    {
        self.register_x = self.register_x.wrapping_add(1);
        self.update_zero_and_negative_flags(self.register_x);
    }

    /// INY: increments Y.
    pub fn iny(&mut self, _mode: &AddressingMode)
        ensures
            final(self)@ == old(self)@.iny(),
    {
        self.register_y = self.register_y.wrapping_add(1);
        self.update_zero_and_negative_flags(self.register_y);
    }

    /// JMP: moves the program counter to the operand address.
    pub fn jmp(&mut self, mode: &AddressingMode) -> (result: Result<(), CpuError>)
        ensures
            performed(old(self)@, old(self)@.jmp(*mode), result, final(self)@),
    {
        let addr = self.get_operand_address(mode)?;
        self.program_counter = addr;
        Ok(())
    }

    /// JSR: pushes the address of the last byte of the instruction, then jumps.
    pub fn jsr(&mut self, mode: &AddressingMode) -> (result: Result<(), CpuError>)
        ensures
            performed(old(self)@, old(self)@.jsr(*mode), result, final(self)@),
    {
        let addr = self.get_operand_address(mode)?;
        self.stack_push_u16(self.program_counter.wrapping_add(1));
        self.program_counter = addr;
        Ok(())
    }

    /// LDA: loads the accumulator from the operand. Afterwards Z says
    /// whether the accumulator is zero, and N is its bit 7.
    pub fn lda(&mut self, mode: &AddressingMode) -> (result: Result<(), CpuError>)
        ensures
            performed(old(self)@, old(self)@.lda(*mode), result, final(self)@),
            result is Ok ==> flag(final(self).status, ZERO) == (final(self).register_a == 0),
            result is Ok ==> flag(final(self).status, NEGATIVE) == (final(self).register_a & 0x80
                != 0),
    {
        proof {
            if self@.operand_address(*mode) is Some {
                lemma_lda_flags(self@, *mode);
            }
        }
        let addr = self.get_operand_address(mode)?;
        let value = self.mem_read(addr);
        self.register_a = value;
        self.update_zero_and_negative_flags(self.register_a);
        Ok(())
    }

    /// LDX: loads X from the operand.
    pub fn ldx(&mut self, mode: &AddressingMode) -> (result: Result<(), CpuError>)
        ensures
            performed(old(self)@, old(self)@.ldx(*mode), result, final(self)@),
    {
        let addr = self.get_operand_address(mode)?;
        let value = self.mem_read(addr);
        self.register_x = value;
        self.update_zero_and_negative_flags(self.register_x);
        Ok(())
    }

    /// LDY: loads Y from the operand.
    pub fn ldy(&mut self, mode: &AddressingMode) -> (result: Result<(), CpuError>)
        ensures
            performed(old(self)@, old(self)@.ldy(*mode), result, final(self)@),
    {
        let addr = self.get_operand_address(mode)?;
        let value = self.mem_read(addr);
        self.register_y = value;
        self.update_zero_and_negative_flags(self.register_y);
        Ok(())
    }

    /// LSR: shifts the accumulator or the operand right by one bit; bit 0 goes
    /// to C.
    pub fn lsr(&mut self, mode: &AddressingMode) -> (result: Result<(), CpuError>)
        ensures
            performed(old(self)@, old(self)@.lsr(*mode), result, final(self)@),
    {
        let (result, carry_flag) = if *mode == AddressingMode::Accumulator {
            let value = self.register_a;
            let result = value / 2;
            let carry_flag = value & 0b00000001 == 0b00000001;
            proof {
                lemma_end_bits(value);
                lemma_shift_right(value, 0);
            }
            self.register_a = result;
            (result, carry_flag)
        } else {
            let addr = self.get_operand_address(mode)?;
            let value = self.mem_read(addr);
            let result = value / 2;
            let carry_flag = value & 0b00000001 == 0b00000001;
            proof {
                lemma_end_bits(value);
                lemma_shift_right(value, 0);
            }
            self.mem_write(addr, result);
            (result, carry_flag)
        };

        self.set_flag(CARRY, carry_flag);
        self.update_zero_and_negative_flags(result);
        Ok(())
    }

    /// NOP: does nothing.
    pub fn nop(&mut self, _mode: &AddressingMode)
        ensures
            final(self)@ == old(self)@.nop(),
    {
    }

    /// ORA: bitwise or of the accumulator and the operand.
    pub fn ora(&mut self, mode: &AddressingMode) -> (result: Result<(), CpuError>)
        ensures
            performed(old(self)@, old(self)@.ora(*mode), result, final(self)@),
    {
        let addr = self.get_operand_address(mode)?;
        let value = self.mem_read(addr);
        self.set_register_a(self.register_a | value);
        Ok(())
    }

    /// PHA: pushes the accumulator.
    pub fn pha(&mut self, _mode: &AddressingMode)
        ensures
            final(self)@ == old(self)@.pha(),
    {
        self.stack_push(self.register_a);
    }

    /// PHP: pushes the status byte with B and the unused bit set.
    pub fn php(&mut self, _mode: &AddressingMode)
        ensures
            final(self)@ == old(self)@.php(),
    {
        proof {
            lemma_flag_masks(self.status, BREAK);
            lemma_flag_masks(self.status | BREAK, UNUSED);
        }
        self.stack_push(self.status | BREAK | UNUSED);
    }

    /// PLA: pulls the accumulator and reports it in Z and N.
    pub fn pla(&mut self, _mode: &AddressingMode)
        ensures
            final(self)@ == old(self)@.pla(),
    {
        let value = self.stack_pop();
        self.set_register_a(value);
    }

    /// PLP: pulls the status byte, with B cleared and the unused bit set.
    pub fn plp(&mut self, _mode: &AddressingMode)
        ensures
            final(self)@ == old(self)@.plp(),
    {
        let value = self.stack_pop();
        proof {
            lemma_flag_masks(value, BREAK);
            lemma_flag_masks(value & !BREAK, UNUSED);
        }
        self.status = value & !BREAK | UNUSED;
    }

    /// ROL: rotates the accumulator or the operand left through C.
    pub fn rol(&mut self, mode: &AddressingMode) -> (result: Result<(), CpuError>)
        ensures
            performed(old(self)@, old(self)@.rol(*mode), result, final(self)@),
    {
        proof {
            lemma_carry_bit(self.status);
        }
        let (result, carry_flag) = if *mode == AddressingMode::Accumulator {
            let value = self.register_a;
            let doubled = value.wrapping_mul(2);
            let result = doubled | (self.status & CARRY);
            let carry_flag = value & 0b10000000 != 0;
            proof {
                lemma_end_bits(value);
                lemma_shift_left(value, doubled, self.status & CARRY);
            }
            self.register_a = result;
            (result, carry_flag)
        } else {
            let addr = self.get_operand_address(mode)?;
            let value = self.mem_read(addr);
            let doubled = value.wrapping_mul(2);
            let result = doubled | (self.status & CARRY);
            let carry_flag = value & 0b10000000 != 0;
            proof {
                lemma_end_bits(value);
                lemma_shift_left(value, doubled, self.status & CARRY);
            }
            self.mem_write(addr, result);
            (result, carry_flag)
        };

        self.set_flag(CARRY, carry_flag);
        self.update_zero_and_negative_flags(result);
        Ok(())
    }

    /// ROR: rotates the accumulator or the operand right through C.
    pub fn ror(&mut self, mode: &AddressingMode) -> (result: Result<(), CpuError>)
        ensures
            performed(old(self)@, old(self)@.ror(*mode), result, final(self)@),
    {
        proof {
            lemma_carry_bit(self.status);
        }
        let (result, carry_flag) = if *mode == AddressingMode::Accumulator {
            let value = self.register_a;
            let result = (value / 2) | ((self.status & CARRY) << 7);
            let carry_flag = value & 0b00000001 == 0b00000001;
            proof {
                lemma_end_bits(value);
                lemma_shift_right(value, self.status & CARRY);
            }
            self.register_a = result;
            (result, carry_flag)
        } else {
            let addr = self.get_operand_address(mode)?;
            let value = self.mem_read(addr);
            let result = (value / 2) | ((self.status & CARRY) << 7);
            let carry_flag = value & 0b00000001 == 0b00000001;
            proof {
                lemma_end_bits(value);
                lemma_shift_right(value, self.status & CARRY);
            }
            self.mem_write(addr, result);
            (result, carry_flag)
        };

        self.set_flag(CARRY, carry_flag);
        self.update_zero_and_negative_flags(result);
        Ok(())
    }

    /// RTI: pulls the status byte as PLP does, then the program counter.
    pub fn rti(&mut self, _mode: &AddressingMode)
        ensures
            final(self)@ == old(self)@.rti(),
    {
        let value = self.stack_pop();
        proof {
            lemma_flag_masks(value, BREAK);
            lemma_flag_masks(value & !BREAK, UNUSED);
        }
        self.status = value & !BREAK | UNUSED;
        self.program_counter = self.stack_pop_u16();
    }

    /// RTS: pulls the program counter and moves it one further.
    pub fn rts(&mut self, _mode: &AddressingMode)
        ensures
            final(self)@ == old(self)@.rts(),
    {
        let addr = self.stack_pop_u16().wrapping_add(1);
        self.program_counter = addr;
    }

    /// SBC: subtracts the operand and the borrow by adding the complement of the
    /// operand.
    pub fn sbc(&mut self, mode: &AddressingMode) -> (result: Result<(), CpuError>)
        ensures
            performed(old(self)@, old(self)@.sbc(*mode), result, final(self)@),
    {
        let addr = self.get_operand_address(mode)?;
        let value = self.mem_read(addr);
        proof {
            lemma_complement(value);
        }
        self.add_to_register_a(!value);
        Ok(())
    }

    /// SEC: sets C.
    pub fn sec(&mut self, _mode: &AddressingMode)
        ensures
            final(self)@ == old(self)@.sec(),
    {
        self.set_flag(CARRY, true);
    }

    /// SED: sets D.
    pub fn sed(&mut self, _mode: &AddressingMode)
        ensures
            final(self)@ == old(self)@.sed(),
    {
        self.set_flag(DECIMAL, true);
    }

    /// SEI: sets I.
    pub fn sei(&mut self, _mode: &AddressingMode)
        ensures
            final(self)@ == old(self)@.sei(),
    {
        self.set_flag(INTERRUPT_DISABLE, true);
    }

    /// STA: stores the accumulator at the operand address.
    pub fn sta(&mut self, mode: &AddressingMode) -> (result: Result<(), CpuError>)
        ensures
            performed(old(self)@, old(self)@.sta(*mode), result, final(self)@),
    {
        let addr = self.get_operand_address(mode)?;
        self.mem_write(addr, self.register_a);
        Ok(())
    }

    /// STX: stores X at the operand address.
    pub fn stx(&mut self, mode: &AddressingMode) -> (result: Result<(), CpuError>)
        ensures
            performed(old(self)@, old(self)@.stx(*mode), result, final(self)@),
    {
        let addr = self.get_operand_address(mode)?;
        self.mem_write(addr, self.register_x);
        Ok(())
    }

    /// STY: stores Y at the operand address.
    pub fn sty(&mut self, mode: &AddressingMode) -> (result: Result<(), CpuError>)
        ensures
            performed(old(self)@, old(self)@.sty(*mode), result, final(self)@),
    {
        let addr = self.get_operand_address(mode)?;
        self.mem_write(addr, self.register_y);
        Ok(())
    }

    /// TAX: copies the accumulator to X.
    pub fn tax(&mut self)
        ensures
            final(self)@ == old(self)@.tax(),
    {
        self.register_x = self.register_a;
        self.update_zero_and_negative_flags(self.register_x);
    }

    /// TAY: copies the accumulator to Y.
    pub fn tay(&mut self)
        ensures
            final(self)@ == old(self)@.tay(),
    {
        self.register_y = self.register_a;
        self.update_zero_and_negative_flags(self.register_y);
    }

    /// TSX: copies the stack pointer to X.
    pub fn tsx(&mut self)
        ensures
            final(self)@ == old(self)@.tsx(),
    {
        self.register_x = self.stack_pointer;
        self.update_zero_and_negative_flags(self.register_x);
    }

    /// TXA: copies X to the accumulator.
    pub fn txa(&mut self)
        ensures
            final(self)@ == old(self)@.txa(),
    {
        self.register_a = self.register_x;
        self.update_zero_and_negative_flags(self.register_a);
    }

    /// TXS: copies X to the stack pointer.
    pub fn txs(&mut self)
        ensures
            final(self)@ == old(self)@.txs(),
    {
        self.stack_pointer = self.register_x;
    }

    /// TYA: copies Y to the accumulator.
    pub fn tya(&mut self)
        ensures
            final(self)@ == old(self)@.tya(),
    {
        self.register_a = self.register_y;
        self.update_zero_and_negative_flags(self.register_a);
    }
}

} // verus!
