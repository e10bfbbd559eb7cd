//! The processor: register file, memory bus and instruction interpreter.

use crate::bits::{lemma_branch_target, lemma_bytes_of_word, lemma_word_of_bytes};
use crate::flags::{flag, is_flag, lemma_flag_masks, lemma_sign_mask, NEGATIVE, ZERO};
use crate::model::{high_byte, low_byte, word, wrap_word, CpuState};
use vstd::prelude::*;

verus! {

/// The rule by which an instruction finds its operand.
#[derive(Debug, Clone, Copy, PartialEq, Eq, Structural)]
#[allow(non_camel_case_types)]
pub enum AddressingMode {
    /// No operand.
    Implied,
    /// The operand is the accumulator.
    Accumulator,
    /// The operand is the byte after the opcode.
    Immediate,
    /// The byte after the opcode is an address in page zero.
    ZeroPage,
    /// Page zero, with X added to the address within the page.
    ZeroPage_X,
    /// Page zero, with Y added to the address within the page.
    ZeroPage_Y,
    /// The byte after the opcode is a signed offset from the address after
    /// it.
    Relative,
    /// The two bytes after the opcode are the address.
    Absolute,
    /// Absolute, with X added to the address.
    Absolute_X,
    /// Absolute, with Y added to the address.
    Absolute_Y,
    /// The two bytes after the opcode point to the address.
    Indirect,
    /// The byte after the opcode, with X added within page zero, points to
    /// the address.
    Indirect_X,
    /// The byte after the opcode points, in page zero, to an address to
    /// which Y is added.
    Indirect_Y,
    /// Marker for the absence of an addressing mode; no instruction has it.
    NoneAddressing,
}

/// The failures that abort execution.
#[derive(Debug, Clone, Copy, PartialEq, Eq, Structural)]
pub enum CpuError {
    /// The byte that was fetched is not in the opcode table.
    UnknownOpcode(u8),
    /// An operand address was asked for under a mode that has no operand.
    InvalidAddressingMode,
}

/// How one turn of the fetch-decode-execute cycle ended.
#[derive(Debug, Clone, Copy, PartialEq, Eq, Structural)]
pub enum StepOutcome {
    /// An instruction was executed; the next one can be fetched.
    Running,
    /// BRK was fetched.
    Halted,
}

/// The processor with its memory.
pub struct CPU {
    /// The accumulator.
    pub register_a: u8,
    /// The index register X.
    pub register_x: u8,
    /// The index register Y.
    pub register_y: u8,
    /// The status flags, packed as `flags` lays them out.
    pub status: u8,
    /// Address of the next byte to fetch.
    pub program_counter: u16,
    /// Offset into page one of the next free stack slot.
    pub stack_pointer: u8,
    /// The whole address space. Hosts go through the bus, `Mem`.
    pub memory: [u8; 65536],
}

impl View for CPU {
    type V = CpuState;

    open spec fn view(&self) -> CpuState {
        CpuState {
            register_a: self.register_a,
            register_x: self.register_x,
            register_y: self.register_y,
            status: self.status,
            program_counter: self.program_counter,
            stack_pointer: self.stack_pointer,
            memory: self.memory@,
        }
    }
}

impl Default for CPU {
    fn default() -> (cpu: CPU)
        ensures
            cpu@ == CpuState::power_on(),
    {
        let cpu = CPU {
            register_a: 0,
            register_x: 0,
            register_y: 0,
            status: 0,
            program_counter: 0,
            stack_pointer: 0xFD,
            memory: [0;65536],
        };
        assert(cpu.memory@ =~= CpuState::power_on().memory);
        cpu
    }
}

/// The memory bus: byte and little-endian 16-bit access to a flat 16-bit
/// address space in which every address is valid.
pub trait Mem {
    /// The byte that the bus holds at `addr`.
    spec fn byte_at(&self, addr: u16) -> u8;

    /// Reads the byte at `addr`.
    fn mem_read(&self, addr: u16) -> (data: u8)
        ensures
            data == self.byte_at(addr),
    ;

    /// Stores `data` at `addr`; no other address changes.
    fn mem_write(&mut self, addr: u16, data: u8)
        ensures
            final(self).byte_at(addr) == data,
            forall|a: u16| a != addr ==> final(self).byte_at(a) == old(self).byte_at(a),
    ;

    /// Reads the little-endian 16-bit value at `pos` and the address after
    /// it, which for the last address is the first.
    fn mem_read_u16(&self, pos: u16) -> (data: u16)
        ensures
            data == word(self.byte_at(pos), self.byte_at(wrap_word(pos + 1))),
    ;

    /// Stores `data` little-endian at `pos` and the address after it.
    fn mem_write_u16(&mut self, pos: u16, data: u16)
        ensures
            final(self).byte_at(pos) == low_byte(data),
            final(self).byte_at(wrap_word(pos + 1)) == high_byte(data),
            forall|a: u16|
                a != pos && a != wrap_word(pos + 1) ==> final(self).byte_at(a) == old(self)
                    .byte_at(a),
    ;
}

impl Mem for CPU {
    open spec fn byte_at(&self, addr: u16) -> u8 {
        self@.read(addr)
    }

    fn mem_read(&self, addr: u16) -> (data: u8)
        ensures
            data == self@.read(addr),
    {
        self.memory[addr as usize]
    }

    fn mem_write(&mut self, addr: u16, data: u8)
        ensures
            final(self)@ == old(self)@.write(addr, data),
    {
        self.memory[addr as usize] = data;
    }

    fn mem_read_u16(&self, pos: u16) -> (data: u16)
        ensures
            data == self@.read_u16(pos),
    {
        let lo = self.mem_read(pos);
        let hi = self.mem_read(pos.wrapping_add(1));
        proof {
            lemma_word_of_bytes(lo, hi);
        }
        ((hi as u16) << 8) | (lo as u16)
    }

    fn mem_write_u16(&mut self, pos: u16, data: u16)
        ensures
            final(self)@ == old(self)@.write_u16(pos, data),
    {
        let hi = (data >> 8) as u8;
        let lo = (data & 0xff) as u8;
        proof {
            lemma_bytes_of_word(data);
        }
        self.mem_write(pos, lo);
        self.mem_write(pos.wrapping_add(1), hi);
    }
}

impl CPU {
    /// A processor with registers and memory zeroed and the stack pointer
    /// at `0xFD`.
    pub fn new() -> (cpu: CPU)
        ensures
            cpu@ == CpuState::power_on(),
    {
        CPU::default()
    }

    /// Pulls one byte from the stack.
    pub fn stack_pop(&mut self) -> (data: u8)
        ensures
            data == old(self)@.pulled(),
            final(self)@ == old(self)@.pull(),
    {
        self.stack_pointer = self.stack_pointer.wrapping_add(1);
        self.mem_read(0x0100 + self.stack_pointer as u16)
    }

    /// Pushes one byte onto the stack.
    pub fn stack_push(&mut self, data: u8)
        ensures
            final(self)@ == old(self)@.push(data),
    {
        self.mem_write(0x0100 + self.stack_pointer as u16, data);
        self.stack_pointer = self.stack_pointer.wrapping_sub(1);
    }

    /// Pulls a 16-bit value from the stack, low byte first.
    pub fn stack_pop_u16(&mut self) -> (data: u16)
        ensures
            data == old(self)@.pulled_u16(),
            final(self)@ == old(self)@.pull_u16(),
    {
        let lo = self.stack_pop();
        let hi = self.stack_pop();
        proof {
            lemma_word_of_bytes(lo, hi);
        }
        ((hi as u16) << 8) | (lo as u16)
    }

    /// Pushes a 16-bit value onto the stack, high byte first.
    pub fn stack_push_u16(&mut self, data: u16)
        ensures
            final(self)@ == old(self)@.push_u16(data),
    {
        let hi = (data >> 8) as u8;
        let lo = (data & 0xff) as u8;
        proof {
            lemma_bytes_of_word(data);
        }
        self.stack_push(hi);
        self.stack_push(lo);
    }

    /// The effective address of the operand under `mode`, with the program
    /// counter at the first operand byte.
    pub fn get_operand_address(&self, mode: &AddressingMode) -> (result: Result<u16, CpuError>)
        ensures
            self@.operand_address(*mode) matches Some(addr) ==> result == Ok::<u16, CpuError>(addr),
            self@.operand_address(*mode) is None ==> result == Err::<u16, CpuError>(
                CpuError::InvalidAddressingMode,
            ),
    {
        match mode {
            AddressingMode::Implied => Err(CpuError::InvalidAddressingMode),
            AddressingMode::Accumulator => Err(CpuError::InvalidAddressingMode),
            AddressingMode::Immediate => Ok(self.program_counter),
            AddressingMode::ZeroPage => Ok(self.mem_read(self.program_counter) as u16),
            AddressingMode::ZeroPage_X => {
                let pos = self.mem_read(self.program_counter);
                Ok(pos.wrapping_add(self.register_x) as u16)
            },
            AddressingMode::ZeroPage_Y => {
                let pos = self.mem_read(self.program_counter);
                Ok(pos.wrapping_add(self.register_y) as u16)
            },
            AddressingMode::Relative => {
                let offset = self.mem_read(self.program_counter);
                let next = self.program_counter.wrapping_add(1);
                proof {
                    lemma_branch_target(self.program_counter, offset);
                }
                if offset < 0x80 {
                    Ok(next.wrapping_add(offset as u16))
                } else {
                    Ok(next.wrapping_sub(0x100 - offset as u16))
                }
            },
            AddressingMode::Absolute => Ok(self.mem_read_u16(self.program_counter)),
            AddressingMode::Absolute_X => {
                let base = self.mem_read_u16(self.program_counter);
                Ok(base.wrapping_add(self.register_x as u16))
            },
            AddressingMode::Absolute_Y => {
                let base = self.mem_read_u16(self.program_counter);
                Ok(base.wrapping_add(self.register_y as u16))
            },
            AddressingMode::Indirect => {
                let base = self.mem_read_u16(self.program_counter);
                Ok(self.mem_read_u16(base))
            },
            AddressingMode::Indirect_X => {
                let base = self.mem_read(self.program_counter);
                let ptr = base.wrapping_add(self.register_x);
                Ok(self.mem_read_u16(ptr as u16))
            },
            AddressingMode::Indirect_Y => {
                let base = self.mem_read(self.program_counter);
                let deref_base = self.mem_read_u16(base as u16);
                Ok(deref_base.wrapping_add(self.register_y as u16))
            },
            AddressingMode::NoneAddressing => Err(CpuError::InvalidAddressingMode),
        }
    }

    /// Whether the flag that `mask` selects is set.
    pub fn flag(&self, mask: u8) -> (set: bool)
        requires
            is_flag(mask),
        ensures
            set == flag(self.status, mask),
    {
        proof {
            lemma_flag_masks(self.status, mask);
        }
        self.status & mask != 0
    }

    /// Sets or clears the flag that `mask` selects.
    pub fn set_flag(&mut self, mask: u8, on: bool)
        requires
            is_flag(mask),
        ensures
            final(self)@ == old(self)@.flagged(mask, on),
    {
        proof {
            lemma_flag_masks(self.status, mask);
        }
        if on {
            self.status |= mask;
        } else {
            self.status &= !mask;
        }
    }

    /// Reports `result` in Z and N.
    pub fn update_zero_and_negative_flags(&mut self, result: u8)
        ensures
            final(self)@ == old(self)@.report(result),
    {
        proof {
            lemma_sign_mask(result);
        }
        self.set_flag(ZERO, result == 0);
        self.set_flag(NEGATIVE, result & 0b10000000 != 0);
    }

    /// Puts `value` into the accumulator and reports it in Z and N.
    pub fn set_register_a(&mut self, value: u8)
        ensures
            final(self)@ == old(self)@.load_a(value),
    {
        self.register_a = value;
        self.update_zero_and_negative_flags(self.register_a);
    }
}

} // verus!
