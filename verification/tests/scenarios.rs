//! End-to-end programs with the whole of what they leave behind.

use mos6502::cpu::{CpuError, Mem, CPU};

#[test]
fn lda_immediate_zero_sets_only_the_zero_flag() {
    let mut cpu = CPU::new();
    assert_eq!(cpu.load_and_run(vec![0xa9, 0x00, 0x00]), Ok(()));
    assert_eq!(cpu.register_a, 0x00);
    assert_eq!(cpu.status & 0b0000_0010, 0b0000_0010);
    assert_eq!(cpu.status & 0b1000_0000, 0);
    assert_eq!(cpu.program_counter, 0x0603);
}

#[test]
fn lda_immediate_negative_sets_only_the_negative_flag() {
    let mut cpu = CPU::new();
    assert_eq!(cpu.load_and_run(vec![0xa9, 0x80, 0x00]), Ok(()));
    assert_eq!(cpu.register_a, 0x80);
    assert_eq!(cpu.status & 0b1000_0000, 0b1000_0000);
    assert_eq!(cpu.status & 0b0000_0010, 0);
}

#[test]
fn inx_wraps_from_ff_to_one() {
    let mut cpu = CPU::new();
    cpu.load(vec![0xe8, 0xe8, 0x00]);
    cpu.reset();
    cpu.register_x = 0xff;
    assert_eq!(cpu.run(), Ok(()));
    assert_eq!(cpu.register_x, 0x01);
    assert_eq!(cpu.status & 0b1000_0010, 0);
}

#[test]
fn lda_indirect_y_follows_the_pointer() {
    let mut cpu = CPU::new();
    cpu.load(vec![0xb1, 0x10, 0x00]);
    cpu.reset();
    cpu.mem_write_u16(0x10, 0x7654);
    cpu.mem_write(0x7664, 0x5b);
    cpu.register_y = 0x10;
    assert_eq!(cpu.run(), Ok(()));
    assert_eq!(cpu.register_a, 0x5b);
}

#[test]
fn sta_zero_page_stores_the_accumulator() {
    let mut cpu = CPU::new();
    cpu.load(vec![0x85, 0x10, 0x00]);
    cpu.reset();
    cpu.register_a = 0x5c;
    assert_eq!(cpu.run(), Ok(()));
    assert_eq!(cpu.mem_read(0x10), 0x5c);
}

#[test]
fn load_transfer_increment() {
    let mut cpu = CPU::new();
    assert_eq!(cpu.load_and_run(vec![0xa9, 0xc0, 0xaa, 0xe8, 0x00]), Ok(()));
    assert_eq!(cpu.register_a, 0xc0);
    assert_eq!(cpu.register_x, 0xc1);
    assert_eq!(cpu.status, 0b1000_0000);
    assert_eq!(cpu.program_counter, 0x0605);
}

#[test]
fn construction_zeroes_everything_but_the_stack_pointer() {
    let cpu = CPU::new();
    assert_eq!(cpu.register_a, 0);
    assert_eq!(cpu.register_x, 0);
    assert_eq!(cpu.register_y, 0);
    assert_eq!(cpu.status, 0);
    assert_eq!(cpu.program_counter, 0);
    assert_eq!(cpu.stack_pointer, 0xfd);
    for addr in [0x0000u16, 0x00ff, 0x0100, 0x01ff, 0x0600, 0xfffc, 0xffff] {
        assert_eq!(cpu.mem_read(addr), 0);
    }
    let other = CPU::default();
    assert_eq!(other.stack_pointer, 0xfd);
    assert_eq!(other.memory.len(), 0x10000);
}

#[test]
fn load_places_the_program_and_the_reset_vector() {
    let mut cpu = CPU::new();
    cpu.register_a = 7;
    cpu.load(vec![0x01, 0x02, 0x03]);
    assert_eq!(cpu.mem_read(0x05ff), 0);
    assert_eq!(cpu.mem_read(0x0600), 0x01);
    assert_eq!(cpu.mem_read(0x0601), 0x02);
    assert_eq!(cpu.mem_read(0x0602), 0x03);
    assert_eq!(cpu.mem_read(0x0603), 0);
    assert_eq!(cpu.mem_read(0xfffc), 0x00);
    assert_eq!(cpu.mem_read(0xfffd), 0x06);
    assert_eq!(cpu.register_a, 7);
    assert_eq!(cpu.program_counter, 0);
}

#[test]
fn load_at_takes_the_base_as_a_parameter() {
    let mut cpu = CPU::new();
    cpu.load_at(0x8000, &vec![0xe8, 0x00]);
    assert_eq!(cpu.mem_read(0x8000), 0xe8);
    assert_eq!(cpu.mem_read_u16(0xfffc), 0x8000);
    cpu.reset();
    assert_eq!(cpu.program_counter, 0x8000);
    assert_eq!(cpu.run(), Ok(()));
    assert_eq!(cpu.register_x, 1);
    assert_eq!(cpu.program_counter, 0x8002);
}

#[test]
fn load_up_to_the_last_byte_then_the_vector_wins() {
    let mut cpu = CPU::new();
    let program = vec![0xaa; 0x10000 - 0x0600];
    cpu.load(program);
    assert_eq!(cpu.mem_read(0xffff), 0xaa);
    assert_eq!(cpu.mem_read(0xfffb), 0xaa);
    assert_eq!(cpu.mem_read_u16(0xfffc), 0x0600);
    let mut empty = CPU::new();
    empty.load_at(0xffff, &vec![0x42]);
    assert_eq!(empty.mem_read(0xffff), 0x42);
    assert_eq!(empty.mem_read_u16(0xfffc), 0xffff);
}

#[test]
fn reset_zeroes_registers_and_reads_the_vector() {
    let mut cpu = CPU::new();
    cpu.register_a = 1;
    cpu.register_x = 2;
    cpu.register_y = 3;
    cpu.status = 0xff;
    cpu.stack_pointer = 0x10;
    cpu.program_counter = 0x1234;
    cpu.mem_write_u16(0xfffc, 0xc000);
    cpu.mem_write(0x0042, 0x99);
    cpu.reset();
    assert_eq!(cpu.register_a, 0);
    assert_eq!(cpu.register_x, 0);
    assert_eq!(cpu.register_y, 0);
    assert_eq!(cpu.status, 0);
    assert_eq!(cpu.stack_pointer, 0xfd);
    assert_eq!(cpu.program_counter, 0xc000);
    assert_eq!(cpu.mem_read(0x0042), 0x99);
}

#[test]
fn unknown_opcode_aborts_the_run() {
    let mut cpu = CPU::new();
    assert_eq!(cpu.load_and_run(vec![0xe8, 0x02, 0x00]), Err(CpuError::UnknownOpcode(0x02)));
    assert_eq!(cpu.register_x, 1);
    assert_eq!(cpu.program_counter, 0x0602);
}

#[test]
fn brk_ends_the_run_behind_the_opcode() {
    let mut cpu = CPU::new();
    assert_eq!(cpu.load_and_run(vec![0x00]), Ok(()));
    assert_eq!(cpu.program_counter, 0x0601);
    assert_eq!(cpu.status, 0);
    assert_eq!(cpu.stack_pointer, 0xfd);
}

#[test]
fn observer_runs_after_each_instruction_and_not_after_brk() {
    let mut cpu = CPU::new();
    cpu.load(vec![0xa9, 0x05, 0xaa, 0xe8, 0x00]);
    cpu.reset();
    let mut seen = Vec::new();
    let result = cpu.run_with_callback(|cpu| seen.push((cpu.program_counter, cpu.register_x)));
    assert_eq!(result, Ok(()));
    assert_eq!(seen, vec![(0x0602, 0), (0x0603, 5), (0x0604, 6)]);
    assert_eq!(cpu.program_counter, 0x0605);
}

#[test]
fn what_the_observer_writes_the_next_fetch_sees() {
    let mut cpu = CPU::new();
    // INX; INX; INX; BRK, where the observer turns the second INX into BRK.
    cpu.load(vec![0xe8, 0xe8, 0xe8, 0x00]);
    cpu.reset();
    let result = cpu.run_with_callback(|cpu| cpu.mem_write(0x0601, 0x00));
    assert_eq!(result, Ok(()));
    assert_eq!(cpu.register_x, 1);
    assert_eq!(cpu.program_counter, 0x0602);
}

#[test]
fn observer_sees_an_unknown_opcode_as_an_error() {
    let mut cpu = CPU::new();
    cpu.load(vec![0xea, 0xff]);
    cpu.reset();
    let mut calls = 0;
    let result = cpu.run_with_callback(|_| calls += 1);
    assert_eq!(result, Err(CpuError::UnknownOpcode(0xff)));
    assert_eq!(calls, 1);
}
