//! The mathematical model of the machine: the register file and the 64 KiB
//! address space as plain values, with the memory bus, the page-one stack and
//! the addressing modes as functions on them.

use crate::cpu::AddressingMode;
use vstd::prelude::*;

verus! {

/// Number of bytes in the address space.
pub const MEMORY_SIZE: usize = 0x10000;

/// Address of the little-endian reset vector.
pub const RESET_VECTOR: u16 = 0xFFFC;

/// First address of page one, which holds the stack.
pub const STACK_BASE: u16 = 0x0100;

/// Address at which `load` places a program.
pub const PROGRAM_BASE: u16 = 0x0600;

/// Value of the stack pointer after construction and after a reset.
pub const STACK_RESET: u8 = 0xFD;

/// `value` reduced modulo 2^8.
pub open spec fn wrap_byte(value: int) -> u8 {
    (value % 0x100) as u8
}

/// `value` reduced modulo 2^16.
pub open spec fn wrap_word(value: int) -> u16 {
    (value % 0x10000) as u16
}

/// The 16-bit value with low byte `lo` and high byte `hi`.
pub open spec fn word(lo: u8, hi: u8) -> u16 {
    (lo + 0x100 * hi) as u16
}

/// The low byte of a 16-bit value.
pub open spec fn low_byte(value: u16) -> u8 {
    (value % 0x100) as u8
}

/// The high byte of a 16-bit value.
pub open spec fn high_byte(value: u16) -> u8 {
    (value / 0x100) as u8
}

/// A byte read as a two's-complement number.
pub open spec fn signed(value: u8) -> int {
    if value >= 0x80 {
        value - 0x100
    } else {
        value as int
    }
}

/// The address in page one that the stack pointer `sp` designates.
pub open spec fn stack_address(sp: u8) -> u16 {
    (STACK_BASE + sp) as u16
}

/// The whole state of the machine.
#[verifier::ext_equal]
pub struct CpuState {
    pub register_a: u8,
    pub register_x: u8,
    pub register_y: u8,
    pub status: u8,
    pub program_counter: u16,
    pub stack_pointer: u8,
    pub memory: Seq<u8>,
}

impl CpuState {
    /// The state in which the processor is constructed: registers and
    /// memory zeroed, the stack pointer at its reset value.
    pub open spec fn power_on() -> CpuState {
        CpuState {
            register_a: 0,
            register_x: 0,
            register_y: 0,
            status: 0,
            program_counter: 0,
            stack_pointer: STACK_RESET,
            memory: Seq::new(MEMORY_SIZE as nat, |i: int| 0u8),
        }
    }

    /// The memory covers the whole 16-bit address space.
    pub open spec fn wf(self) -> bool {
        self.memory.len() == MEMORY_SIZE
    }

    /// The byte at `addr`.
    pub open spec fn read(self, addr: u16) -> u8 {
        self.memory[addr as int]
    }

    /// The little-endian 16-bit value at `addr` and the address after it.
    pub open spec fn read_u16(self, addr: u16) -> u16 {
        word(self.read(addr), self.read(wrap_word(addr + 1)))
    }

    /// The state with `data` stored at `addr`.
    pub open spec fn write(self, addr: u16, data: u8) -> CpuState {
        CpuState { memory: self.memory.update(addr as int, data), ..self }
    }

    /// The state with `data` stored little-endian at `addr` and the address
    /// after it.
    pub open spec fn write_u16(self, addr: u16, data: u16) -> CpuState {
        self.write(addr, low_byte(data)).write(wrap_word(addr + 1), high_byte(data))
    }

    /// The state with the bytes of `program` copied to memory from `base`
    /// upwards.
    pub open spec fn place(self, base: u16, program: Seq<u8>) -> CpuState {
        CpuState {
            memory: Seq::new(
                self.memory.len(),
                |i: int|
                    if base <= i < base + program.len() {
                        program[i - base]
                    } else {
                        self.memory[i]
                    },
            ),
            ..self
        }
    }

    /// The state after a program is loaded at `base`: its bytes are in
    /// memory, then the reset vector is set to `base`.
    pub open spec fn load(self, base: u16, program: Seq<u8>) -> CpuState {
        self.place(base, program).write_u16(RESET_VECTOR, base)
    }

    /// The state after a reset: A, X, Y and the status are zero, the stack
    /// pointer is at its reset value, and the program counter holds what the
    /// reset vector points to.
    pub open spec fn reset(self) -> CpuState {
        CpuState {
            register_a: 0,
            register_x: 0,
            register_y: 0,
            status: 0,
            stack_pointer: STACK_RESET,
            program_counter: self.read_u16(RESET_VECTOR),
            ..self
        }
    }

    /// The state with `program_counter` replaced.
    pub open spec fn jump(self, target: u16) -> CpuState {
        CpuState { program_counter: target, ..self }
    }

    /// The state with `status` replaced.
    pub open spec fn with_status(self, status: u8) -> CpuState {
        CpuState { status, ..self }
    }

    /// The state after `data` is pushed: stored at the stack pointer, which
    /// then moves down by one, wrapping within page one.
    pub open spec fn push(self, data: u8) -> CpuState {
        CpuState {
            stack_pointer: wrap_byte(self.stack_pointer - 1),
            ..self.write(stack_address(self.stack_pointer), data)
        }
    }

    /// The state after one byte is pulled: the stack pointer moves up by one,
    /// wrapping within page one.
    pub open spec fn pull(self) -> CpuState {
        CpuState { stack_pointer: wrap_byte(self.stack_pointer + 1), ..self }
    }

    /// The byte that a pull hands out: the one above the stack pointer.
    pub open spec fn pulled(self) -> u8 {
        self.read(stack_address(wrap_byte(self.stack_pointer + 1)))
    }

    /// The state after a 16-bit value is pushed, high byte first.
    pub open spec fn push_u16(self, data: u16) -> CpuState {
        self.push(high_byte(data)).push(low_byte(data))
    }

    /// The state after a 16-bit value is pulled.
    pub open spec fn pull_u16(self) -> CpuState {
        self.pull().pull()
    }

    /// The 16-bit value that a 16-bit pull hands out, low byte first.
    pub open spec fn pulled_u16(self) -> u16 {
        word(self.pulled(), self.pull().pulled())
    }

    /// The operand under `mode`: the byte at the effective address.
    pub open spec fn operand(self, mode: AddressingMode) -> Option<u8> {
        match self.operand_address(mode) {
            Some(addr) => Some(self.read(addr)),
            None => None,
        }
    }

    /// The effective address of the operand under `mode`, with the program
    /// counter at the first operand byte. `None` for the modes that have no
    /// memory operand.
    pub open spec fn operand_address(self, mode: AddressingMode) -> Option<u16> {
        let pc = self.program_counter;
        match mode {
            AddressingMode::Implied => None,
            AddressingMode::Accumulator => None,
            AddressingMode::NoneAddressing => None,
            AddressingMode::Immediate => Some(pc),
            AddressingMode::ZeroPage => Some(self.read(pc) as u16),
            AddressingMode::ZeroPage_X => Some(
                wrap_byte(self.read(pc) + self.register_x) as u16,
            ),
            AddressingMode::ZeroPage_Y => Some(
                wrap_byte(self.read(pc) + self.register_y) as u16,
            ),
            AddressingMode::Relative => Some(wrap_word(pc + 1 + signed(self.read(pc)))),
            AddressingMode::Absolute => Some(self.read_u16(pc)),
            AddressingMode::Absolute_X => Some(wrap_word(self.read_u16(pc) + self.register_x)),
            AddressingMode::Absolute_Y => Some(wrap_word(self.read_u16(pc) + self.register_y)),
            AddressingMode::Indirect => Some(self.read_u16(self.read_u16(pc))),
            AddressingMode::Indirect_X => Some(
                self.read_u16(wrap_byte(self.read(pc) + self.register_x) as u16),
            ),
            AddressingMode::Indirect_Y => Some(
                wrap_word(self.read_u16(self.read(pc) as u16) + self.register_y),
            ),
        }
    }
}

} // verus!
