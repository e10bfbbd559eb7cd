//! The effective address under each addressing mode, and the memory bus.

use mos6502::cpu::{AddressingMode, CpuError, Mem, CPU};

fn cpu_at(pc: u16, operand: &[u8]) -> CPU {
    let mut cpu = CPU::new();
    cpu.program_counter = pc;
    let mut addr = pc;
    for byte in operand {
        cpu.mem_write(addr, *byte);
        addr = addr.wrapping_add(1);
    }
    cpu
}

#[test]
fn modes_without_operand_are_rejected() {
    let cpu = cpu_at(0x0200, &[0x42, 0x43]);
    for mode in
        [AddressingMode::Implied, AddressingMode::Accumulator, AddressingMode::NoneAddressing]
    {
        assert_eq!(cpu.get_operand_address(&mode), Err(CpuError::InvalidAddressingMode));
    }
}

#[test]
fn immediate_is_the_program_counter() {
    let cpu = cpu_at(0x0200, &[0x42]);
    assert_eq!(cpu.get_operand_address(&AddressingMode::Immediate), Ok(0x0200));
    let cpu = cpu_at(0xffff, &[0x42]);
    assert_eq!(cpu.get_operand_address(&AddressingMode::Immediate), Ok(0xffff));
}

#[test]
fn zero_page_reads_one_byte() {
    let cpu = cpu_at(0x0200, &[0x42, 0xff]);
    assert_eq!(cpu.get_operand_address(&AddressingMode::ZeroPage), Ok(0x0042));
}

#[test]
fn zero_page_indexed_wraps_within_page_zero() {
    let mut cpu = cpu_at(0x0200, &[0xff]);
    cpu.register_x = 0x02;
    cpu.register_y = 0x90;
    assert_eq!(cpu.get_operand_address(&AddressingMode::ZeroPage_X), Ok(0x0001));
    assert_eq!(cpu.get_operand_address(&AddressingMode::ZeroPage_Y), Ok(0x008f));
    let mut cpu = cpu_at(0x0200, &[0x10]);
    cpu.register_x = 0x01;
    cpu.register_y = 0x02;
    assert_eq!(cpu.get_operand_address(&AddressingMode::ZeroPage_X), Ok(0x0011));
    assert_eq!(cpu.get_operand_address(&AddressingMode::ZeroPage_Y), Ok(0x0012));
}

#[test]
fn relative_adds_the_signed_offset_to_the_address_after_it() {
    let cases: [(u16, u8, u16); 9] = [
        (0x0200, 0x00, 0x0201),
        (0x0200, 0x05, 0x0206),
        (0x0200, 0x7f, 0x0280),
        (0x0200, 0x80, 0x0181),
        (0x0200, 0xfb, 0x01fc),
        (0x0200, 0xff, 0x0200),
        (0xffff, 0x01, 0x0001),
        (0x0000, 0x80, 0xff81),
        (0xfffe, 0x7f, 0x007e),
    ];
    for (pc, offset, target) in cases {
        let cpu = cpu_at(pc, &[offset]);
        assert_eq!(
            cpu.get_operand_address(&AddressingMode::Relative),
            Ok(target),
            "offset {offset:#04x} at {pc:#06x}"
        );
    }
}

#[test]
fn absolute_reads_a_little_endian_word() {
    let cpu = cpu_at(0x0200, &[0x34, 0x12]);
    assert_eq!(cpu.get_operand_address(&AddressingMode::Absolute), Ok(0x1234));
    let cpu = cpu_at(0xffff, &[0x34, 0x12]);
    assert_eq!(cpu.mem_read(0x0000), 0x12);
    assert_eq!(cpu.get_operand_address(&AddressingMode::Absolute), Ok(0x1234));
}

#[test]
fn absolute_indexed_wraps_in_the_address_space() {
    let mut cpu = cpu_at(0x0200, &[0xf0, 0xff]);
    cpu.register_x = 0x20;
    cpu.register_y = 0x0f;
    assert_eq!(cpu.get_operand_address(&AddressingMode::Absolute_X), Ok(0x0010));
    assert_eq!(cpu.get_operand_address(&AddressingMode::Absolute_Y), Ok(0xffff));
    let mut cpu = cpu_at(0x0200, &[0x10, 0x32]);
    cpu.register_x = 0x01;
    cpu.register_y = 0x10;
    assert_eq!(cpu.get_operand_address(&AddressingMode::Absolute_X), Ok(0x3211));
    assert_eq!(cpu.get_operand_address(&AddressingMode::Absolute_Y), Ok(0x3220));
}

#[test]
fn indirect_reads_the_word_that_the_operand_points_to() {
    let mut cpu = cpu_at(0x0200, &[0x34, 0x12]);
    cpu.mem_write_u16(0x1234, 0xbeef);
    assert_eq!(cpu.get_operand_address(&AddressingMode::Indirect), Ok(0xbeef));
    let mut cpu = cpu_at(0x0200, &[0xff, 0x12]);
    cpu.mem_write(0x12ff, 0xcd);
    cpu.mem_write(0x1300, 0xab);
    cpu.mem_write(0x1200, 0x99);
    assert_eq!(cpu.get_operand_address(&AddressingMode::Indirect), Ok(0xabcd));
}

#[test]
fn indexed_indirect_finds_its_pointer_in_page_zero() {
    let mut cpu = cpu_at(0x0200, &[0x10]);
    cpu.register_x = 0x01;
    cpu.mem_write_u16(0x0011, 0x5432);
    assert_eq!(cpu.get_operand_address(&AddressingMode::Indirect_X), Ok(0x5432));
    let mut cpu = cpu_at(0x0200, &[0xfe]);
    cpu.register_x = 0x03;
    cpu.mem_write_u16(0x0001, 0x1122);
    assert_eq!(cpu.get_operand_address(&AddressingMode::Indirect_X), Ok(0x1122));
    let mut cpu = cpu_at(0x0200, &[0xfe]);
    cpu.register_x = 0x01;
    cpu.mem_write(0x00ff, 0x44);
    cpu.mem_write(0x0100, 0x33);
    assert_eq!(cpu.get_operand_address(&AddressingMode::Indirect_X), Ok(0x3344));
}

#[test]
fn indirect_indexed_adds_y_to_the_pointer() {
    let mut cpu = cpu_at(0x0200, &[0x10]);
    cpu.register_y = 0x10;
    cpu.mem_write_u16(0x0010, 0x7654);
    assert_eq!(cpu.get_operand_address(&AddressingMode::Indirect_Y), Ok(0x7664));
    cpu.mem_write_u16(0x0010, 0xfff8);
    assert_eq!(cpu.get_operand_address(&AddressingMode::Indirect_Y), Ok(0x0008));
}

#[test]
fn bus_reads_what_was_written() {
    let mut cpu = CPU::new();
    for addr in [0x0000u16, 0x00ff, 0x0100, 0x7fff, 0x8000, 0xfffc, 0xffff] {
        cpu.mem_write(addr, (addr >> 3) as u8 ^ 0x5a);
    }
    for addr in [0x0000u16, 0x00ff, 0x0100, 0x7fff, 0x8000, 0xfffc, 0xffff] {
        assert_eq!(cpu.mem_read(addr), (addr >> 3) as u8 ^ 0x5a);
    }
    assert_eq!(cpu.mem_read(0x0001), 0);
}

#[test]
fn words_are_little_endian() {
    let mut cpu = CPU::new();
    cpu.mem_write_u16(0x1000, 0xabcd);
    assert_eq!(cpu.mem_read(0x1000), 0xcd);
    assert_eq!(cpu.mem_read(0x1001), 0xab);
    assert_eq!(cpu.mem_read_u16(0x1000), 0xabcd);
    cpu.mem_write(0x2000, 0x34);
    cpu.mem_write(0x2001, 0x12);
    assert_eq!(cpu.mem_read_u16(0x2000), 0x1234);
}

#[test]
fn a_word_at_the_last_address_continues_at_the_first() {
    let mut cpu = CPU::new();
    cpu.mem_write_u16(0xffff, 0xabcd);
    assert_eq!(cpu.mem_read(0xffff), 0xcd);
    assert_eq!(cpu.mem_read(0x0000), 0xab);
    assert_eq!(cpu.mem_read_u16(0xffff), 0xabcd);
}

#[test]
fn stack_lives_in_page_one_and_wraps() {
    let mut cpu = CPU::new();
    cpu.stack_push(0x11);
    assert_eq!(cpu.mem_read(0x01fd), 0x11);
    assert_eq!(cpu.stack_pointer, 0xfc);
    cpu.stack_pointer = 0x00;
    cpu.stack_push(0x22);
    assert_eq!(cpu.mem_read(0x0100), 0x22);
    assert_eq!(cpu.stack_pointer, 0xff);
    cpu.stack_push(0x33);
    assert_eq!(cpu.mem_read(0x01ff), 0x33);
    assert_eq!(cpu.stack_pointer, 0xfe);
    assert_eq!(cpu.stack_pop(), 0x33);
    assert_eq!(cpu.stack_pop(), 0x22);
    assert_eq!(cpu.stack_pointer, 0x00);
}
