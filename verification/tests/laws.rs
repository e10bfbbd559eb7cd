//! The laws of the instruction set, checked on every byte or every pair.

use mos6502::cpu::{AddressingMode, Mem, StepOutcome, CPU};
use mos6502::flags::{CARRY, NEGATIVE, OVERFLOW, ZERO};
use mos6502::opcodes::{lookup, Mnemonic};

fn sets_program_counter(mnemonic: Mnemonic) -> bool {
    matches!(mnemonic, Mnemonic::JMP | Mnemonic::JSR | Mnemonic::RTS | Mnemonic::RTI)
}

/// A status byte under which the branch `mnemonic` is not taken.
fn status_that_falls_through(mnemonic: Mnemonic) -> u8 {
    match mnemonic {
        Mnemonic::BCC => CARRY,
        Mnemonic::BNE => ZERO,
        Mnemonic::BPL => NEGATIVE,
        Mnemonic::BVC => OVERFLOW,
        _ => 0,
    }
}

#[test]
fn program_counter_advances_by_instruction_length() {
    let mut seen = 0;
    for code in 0..=255u8 {
        let Some(opcode) = lookup(code) else { continue };
        seen += 1;
        if sets_program_counter(opcode.mnemonic) {
            continue;
        }
        for base in [0x0600u16, 0x00fe, 0xfffe, 0xffff] {
            let mut cpu = CPU::new();
            cpu.mem_write(base, code);
            cpu.mem_write(base.wrapping_add(1), 0x10);
            cpu.mem_write(base.wrapping_add(2), 0x20);
            cpu.status = status_that_falls_through(opcode.mnemonic);
            cpu.program_counter = base;
            let outcome = cpu.step();
            let expected =
                if code == 0x00 { StepOutcome::Halted } else { StepOutcome::Running };
            assert_eq!(outcome, Ok(expected), "opcode {code:#04x}");
            assert_eq!(
                cpu.program_counter,
                base.wrapping_add(opcode.len as u16),
                "opcode {code:#04x} at {base:#06x}"
            );
        }
    }
    assert_eq!(seen, 151);
}

#[test]
fn lda_reports_every_byte_in_zero_and_negative() {
    for value in 0..=255u8 {
        for before in [0x00u8, 0xff] {
            let mut cpu = CPU::new();
            cpu.mem_write(0x0000, value);
            cpu.status = before;
            assert_eq!(cpu.lda(&AddressingMode::Immediate), Ok(()));
            assert_eq!(cpu.register_a, value);
            assert_eq!(cpu.status & ZERO != 0, value == 0);
            assert_eq!(cpu.status & NEGATIVE != 0, value & 0x80 != 0);
            assert_eq!(cpu.status & !(ZERO | NEGATIVE), before & !(ZERO | NEGATIVE));
        }
    }
}

#[test]
fn adc_agrees_with_the_integer_sum() {
    let mut cpu = CPU::new();
    for a in 0..=255u8 {
        for b in 0..=255u8 {
            for carry in 0..=1u8 {
                cpu.register_a = a;
                cpu.status = carry;
                cpu.add_to_register_a(b);
                let sum = a as u32 + b as u32 + carry as u32;
                let result = (sum % 256) as u8;
                assert_eq!(cpu.register_a, result);
                assert_eq!(cpu.status & CARRY != 0, sum >= 256);
                assert_eq!(cpu.status & ZERO != 0, result == 0);
                assert_eq!(cpu.status & NEGATIVE != 0, result & 0x80 != 0);
                assert_eq!(
                    cpu.status & OVERFLOW != 0,
                    ((a ^ result) & (b ^ result)) & 0x80 != 0
                );
                let signed = a as i8 as i32 + b as i8 as i32 + carry as i32;
                assert_eq!(cpu.status & OVERFLOW != 0, !(-128..=127).contains(&signed));
            }
        }
    }
}

#[test]
fn sbc_agrees_with_the_integer_difference() {
    let mut cpu = CPU::new();
    for a in 0..=255u8 {
        for b in 0..=255u8 {
            for carry in 0..=1u8 {
                cpu.register_a = a;
                cpu.status = carry;
                cpu.program_counter = 0x0010;
                cpu.mem_write(0x0010, b);
                assert_eq!(cpu.sbc(&AddressingMode::Immediate), Ok(()));
                let difference = a as i32 - b as i32 - (1 - carry as i32);
                assert_eq!(cpu.register_a, difference.rem_euclid(256) as u8);
                assert_eq!(cpu.status & CARRY != 0, difference >= 0);
                let signed = a as i8 as i32 - b as i8 as i32 - (1 - carry as i32);
                assert_eq!(cpu.status & OVERFLOW != 0, !(-128..=127).contains(&signed));
            }
        }
    }
}

#[test]
fn cmp_orders_the_accumulator_and_the_operand() {
    let mut cpu = CPU::new();
    for a in 0..=255u8 {
        for m in 0..=255u8 {
            cpu.register_a = a;
            cpu.status = 0;
            cpu.program_counter = 0x0010;
            cpu.mem_write(0x0010, m);
            assert_eq!(cpu.cmp(&AddressingMode::Immediate), Ok(()));
            assert_eq!(cpu.status & ZERO == 0, a != m);
            assert_eq!(cpu.status & CARRY != 0, a >= m);
            assert_eq!(cpu.status & NEGATIVE != 0, a.wrapping_sub(m) & 0x80 != 0);
            assert_eq!(cpu.register_a, a);
        }
    }
}

#[test]
fn pha_then_pla_restores_accumulator_and_stack_pointer() {
    let mut cpu = CPU::new();
    for value in 0..=255u8 {
        for sp in [0xfdu8, 0x00, 0x01, 0xff, 0x80] {
            cpu.register_a = value;
            cpu.stack_pointer = sp;
            cpu.pha(&AddressingMode::Implied);
            assert_eq!(cpu.stack_pointer, sp.wrapping_sub(1));
            assert_eq!(cpu.mem_read(0x0100 + sp as u16), value);
            cpu.register_a = !value;
            cpu.pla(&AddressingMode::Implied);
            assert_eq!(cpu.register_a, value);
            assert_eq!(cpu.stack_pointer, sp);
        }
    }
}

#[test]
fn stack_round_trip_of_a_word() {
    let mut cpu = CPU::new();
    for sp in [0xfdu8, 0x00, 0x01, 0xff] {
        for value in [0x0000u16, 0x1234, 0xffff, 0x00ff, 0xff00] {
            cpu.stack_pointer = sp;
            cpu.stack_push_u16(value);
            assert_eq!(cpu.stack_pointer, sp.wrapping_sub(2));
            assert_eq!(cpu.mem_read(0x0100 + sp as u16), (value >> 8) as u8);
            assert_eq!(cpu.mem_read(0x0100 + sp.wrapping_sub(1) as u16), value as u8);
            assert_eq!(cpu.stack_pop_u16(), value);
            assert_eq!(cpu.stack_pointer, sp);
        }
    }
}

#[test]
fn jsr_to_rts_returns_behind_the_jsr() {
    let mut cpu = CPU::new();
    // JSR $0610; BRK ... at $0610: RTS
    let mut program = vec![0x20, 0x10, 0x06, 0x00];
    program.resize(0x10, 0xea);
    program.push(0x60);
    cpu.load(program);
    cpu.reset();
    assert_eq!(cpu.step(), Ok(StepOutcome::Running));
    assert_eq!(cpu.program_counter, 0x0610);
    assert_eq!(cpu.stack_pointer, 0xfb);
    assert_eq!(cpu.mem_read_u16(0x01fc), 0x0602);
    assert_eq!(cpu.step(), Ok(StepOutcome::Running));
    assert_eq!(cpu.program_counter, 0x0603);
    assert_eq!(cpu.stack_pointer, 0xfd);
    assert_eq!(cpu.step(), Ok(StepOutcome::Halted));
}
