//! The opcode table: which instruction and addressing mode each of the 151
//! documented opcode bytes stands for, and how long the instruction is.

use crate::cpu::AddressingMode;
use vstd::prelude::*;

verus! {

/// The instructions of the processor, by their assembler names.
#[derive(Debug, Clone, Copy, PartialEq, Eq, Structural)]
pub enum Mnemonic {
    /// Add memory and carry to the accumulator.
    ADC,
    /// Bitwise and of accumulator and memory.
    AND,
    /// Shift left by one bit.
    ASL,
    /// Branch if carry is clear.
    BCC,
    /// Branch if carry is set.
    BCS,
    /// Branch if zero is set.
    BEQ,
    /// Test bits of memory against the accumulator.
    BIT,
    /// Branch if negative is set.
    BMI,
    /// Branch if zero is clear.
    BNE,
    /// Branch if negative is clear.
    BPL,
    /// Stop the interpreter.
    BRK,
    /// Branch if overflow is clear.
    BVC,
    /// Branch if overflow is set.
    BVS,
    /// Clear carry.
    CLC,
    /// Clear decimal mode.
    CLD,
    /// Clear interrupt disable.
    CLI,
    /// Clear overflow.
    CLV,
    /// Compare memory with the accumulator.
    CMP,
    /// Compare memory with X.
    CPX,
    /// Compare memory with Y.
    CPY,
    /// Decrement memory.
    DEC,
    /// Decrement X.
    DEX,
    /// Decrement Y.
    DEY,
    /// Bitwise exclusive or of accumulator and memory.
    EOR,
    /// Increment memory.
    INC,
    /// Increment X.
    INX,
    /// Increment Y.
    INY,
    /// Jump.
    JMP,
    /// Jump to a subroutine.
    JSR,
    /// Load the accumulator.
    LDA,
    /// Load X.
    LDX,
    /// Load Y.
    LDY,
    /// Shift right by one bit.
    LSR,
    /// Do nothing.
    NOP,
    /// Bitwise or of accumulator and memory.
    ORA,
    /// Push the accumulator.
    PHA,
    /// Push the status byte.
    PHP,
    /// Pull the accumulator.
    PLA,
    /// Pull the status byte.
    PLP,
    /// Rotate left through carry.
    ROL,
    /// Rotate right through carry.
    ROR,
    /// Return from an interrupt.
    RTI,
    /// Return from a subroutine.
    RTS,
    /// Subtract memory and borrow from the accumulator.
    SBC,
    /// Set carry.
    SEC,
    /// Set decimal mode.
    SED,
    /// Set interrupt disable.
    SEI,
    /// Store the accumulator.
    STA,
    /// Store X.
    STX,
    /// Store Y.
    STY,
    /// Copy the accumulator to X.
    TAX,
    /// Copy the accumulator to Y.
    TAY,
    /// Copy the stack pointer to X.
    TSX,
    /// Copy X to the accumulator.
    TXA,
    /// Copy X to the stack pointer.
    TXS,
    /// Copy Y to the accumulator.
    TYA,
}

/// One entry of the opcode table.
#[derive(Debug, Clone, Copy, PartialEq, Eq, Structural)]
pub struct OpCode {
    /// The opcode byte.
    pub code: u8,
    /// The instruction it selects.
    pub mnemonic: Mnemonic,
    /// Length of the whole instruction in bytes, opcode included.
    pub len: u8,
    /// How the instruction finds its operand.
    pub mode: AddressingMode,
}

/// Length in bytes of an instruction with the given addressing mode: the
/// opcode byte and the operand bytes that the mode reads.
pub open spec fn instruction_len(mode: AddressingMode) -> u8 {
    match mode {
        AddressingMode::Implied | AddressingMode::Accumulator | AddressingMode::NoneAddressing => 1,
        AddressingMode::Immediate
        | AddressingMode::ZeroPage
        | AddressingMode::ZeroPage_X
        | AddressingMode::ZeroPage_Y
        | AddressingMode::Relative
        | AddressingMode::Indirect_X
        | AddressingMode::Indirect_Y => 2,
        AddressingMode::Absolute
        | AddressingMode::Absolute_X
        | AddressingMode::Absolute_Y
        | AddressingMode::Indirect => 3,
    }
}

/// The decode table: the instruction and addressing mode that `code` stands
/// for, `None` for a byte that is no documented opcode.
///
/// The table is opaque, so that a proof which looks no opcode up does not
/// pay for its size. `lemma_decode_encode` gives one entry,
/// `reveal(instruction)` all of them.
#[verifier::opaque]
pub open spec fn instruction(code: u8) -> Option<(Mnemonic, AddressingMode)> {
    match code {
        0x69 => Some((Mnemonic::ADC, AddressingMode::Immediate)),
        0x65 => Some((Mnemonic::ADC, AddressingMode::ZeroPage)),
        0x75 => Some((Mnemonic::ADC, AddressingMode::ZeroPage_X)),
        0x6d => Some((Mnemonic::ADC, AddressingMode::Absolute)),
        0x7d => Some((Mnemonic::ADC, AddressingMode::Absolute_X)),
        0x79 => Some((Mnemonic::ADC, AddressingMode::Absolute_Y)),
        0x61 => Some((Mnemonic::ADC, AddressingMode::Indirect_X)),
        0x71 => Some((Mnemonic::ADC, AddressingMode::Indirect_Y)),
        0x29 => Some((Mnemonic::AND, AddressingMode::Immediate)),
        0x25 => Some((Mnemonic::AND, AddressingMode::ZeroPage)),
        0x35 => Some((Mnemonic::AND, AddressingMode::ZeroPage_X)),
        0x2d => Some((Mnemonic::AND, AddressingMode::Absolute)),
        0x3d => Some((Mnemonic::AND, AddressingMode::Absolute_X)),
        0x39 => Some((Mnemonic::AND, AddressingMode::Absolute_Y)),
        0x21 => Some((Mnemonic::AND, AddressingMode::Indirect_X)),
        0x31 => Some((Mnemonic::AND, AddressingMode::Indirect_Y)),
        0x0a => Some((Mnemonic::ASL, AddressingMode::Accumulator)),
        0x06 => Some((Mnemonic::ASL, AddressingMode::ZeroPage)),
        0x16 => Some((Mnemonic::ASL, AddressingMode::ZeroPage_X)),
        0x0e => Some((Mnemonic::ASL, AddressingMode::Absolute)),
        0x1e => Some((Mnemonic::ASL, AddressingMode::Absolute_X)),
        0x90 => Some((Mnemonic::BCC, AddressingMode::Relative)),
        0xb0 => Some((Mnemonic::BCS, AddressingMode::Relative)),
        0xf0 => Some((Mnemonic::BEQ, AddressingMode::Relative)),
        0x24 => Some((Mnemonic::BIT, AddressingMode::ZeroPage)),
        0x2c => Some((Mnemonic::BIT, AddressingMode::Absolute)),
        0x30 => Some((Mnemonic::BMI, AddressingMode::Relative)),
        0xd0 => Some((Mnemonic::BNE, AddressingMode::Relative)),
        0x10 => Some((Mnemonic::BPL, AddressingMode::Relative)),
        0x00 => Some((Mnemonic::BRK, AddressingMode::Implied)),
        0x50 => Some((Mnemonic::BVC, AddressingMode::Relative)),
        0x70 => Some((Mnemonic::BVS, AddressingMode::Relative)),
        0x18 => Some((Mnemonic::CLC, AddressingMode::Implied)),
        0xd8 => Some((Mnemonic::CLD, AddressingMode::Implied)),
        0x58 => Some((Mnemonic::CLI, AddressingMode::Implied)),
        0xb8 => Some((Mnemonic::CLV, AddressingMode::Implied)),
        0xc9 => Some((Mnemonic::CMP, AddressingMode::Immediate)),
        0xc5 => Some((Mnemonic::CMP, AddressingMode::ZeroPage)),
        0xd5 => Some((Mnemonic::CMP, AddressingMode::ZeroPage_X)),
        0xcd => Some((Mnemonic::CMP, AddressingMode::Absolute)),
        0xdd => Some((Mnemonic::CMP, AddressingMode::Absolute_X)),
        0xd9 => Some((Mnemonic::CMP, AddressingMode::Absolute_Y)),
        0xc1 => Some((Mnemonic::CMP, AddressingMode::Indirect_X)),
        0xd1 => Some((Mnemonic::CMP, AddressingMode::Indirect_Y)),
        0xe0 => Some((Mnemonic::CPX, AddressingMode::Immediate)),
        0xe4 => Some((Mnemonic::CPX, AddressingMode::ZeroPage)),
        0xec => Some((Mnemonic::CPX, AddressingMode::Absolute)),
        0xc0 => Some((Mnemonic::CPY, AddressingMode::Immediate)),
        0xc4 => Some((Mnemonic::CPY, AddressingMode::ZeroPage)),
        0xcc => Some((Mnemonic::CPY, AddressingMode::Absolute)),
        0xc6 => Some((Mnemonic::DEC, AddressingMode::ZeroPage)),
        0xd6 => Some((Mnemonic::DEC, AddressingMode::ZeroPage_X)),
        0xce => Some((Mnemonic::DEC, AddressingMode::Absolute)),
        0xde => Some((Mnemonic::DEC, AddressingMode::Absolute_X)),
        0xca => Some((Mnemonic::DEX, AddressingMode::Implied)),
        0x88 => Some((Mnemonic::DEY, AddressingMode::Implied)),
        0x49 => Some((Mnemonic::EOR, AddressingMode::Immediate)),
        0x45 => Some((Mnemonic::EOR, AddressingMode::ZeroPage)),
        0x55 => Some((Mnemonic::EOR, AddressingMode::ZeroPage_X)),
        0x4d => Some((Mnemonic::EOR, AddressingMode::Absolute)),
        0x5d => Some((Mnemonic::EOR, AddressingMode::Absolute_X)),
        0x59 => Some((Mnemonic::EOR, AddressingMode::Absolute_Y)),
        0x41 => Some((Mnemonic::EOR, AddressingMode::Indirect_X)),
        0x51 => Some((Mnemonic::EOR, AddressingMode::Indirect_Y)),
        0xe6 => Some((Mnemonic::INC, AddressingMode::ZeroPage)),
        0xf6 => Some((Mnemonic::INC, AddressingMode::ZeroPage_X)),
        0xee => Some((Mnemonic::INC, AddressingMode::Absolute)),
        0xfe => Some((Mnemonic::INC, AddressingMode::Absolute_X)),
        0xe8 => Some((Mnemonic::INX, AddressingMode::Implied)),
        0xc8 => Some((Mnemonic::INY, AddressingMode::Implied)),
        0x4c => Some((Mnemonic::JMP, AddressingMode::Absolute)),
        0x6c => Some((Mnemonic::JMP, AddressingMode::Indirect)),
        0x20 => Some((Mnemonic::JSR, AddressingMode::Absolute)),
        0xa9 => Some((Mnemonic::LDA, AddressingMode::Immediate)),
        0xa5 => Some((Mnemonic::LDA, AddressingMode::ZeroPage)),
        0xb5 => Some((Mnemonic::LDA, AddressingMode::ZeroPage_X)),
        0xad => Some((Mnemonic::LDA, AddressingMode::Absolute)),
        0xbd => Some((Mnemonic::LDA, AddressingMode::Absolute_X)),
        0xb9 => Some((Mnemonic::LDA, AddressingMode::Absolute_Y)),
        0xa1 => Some((Mnemonic::LDA, AddressingMode::Indirect_X)),
        0xb1 => Some((Mnemonic::LDA, AddressingMode::Indirect_Y)),
        0xa2 => Some((Mnemonic::LDX, AddressingMode::Immediate)),
        0xa6 => Some((Mnemonic::LDX, AddressingMode::ZeroPage)),
        0xb6 => Some((Mnemonic::LDX, AddressingMode::ZeroPage_Y)),
        0xae => Some((Mnemonic::LDX, AddressingMode::Absolute)),
        0xbe => Some((Mnemonic::LDX, AddressingMode::Absolute_Y)),
        0xa0 => Some((Mnemonic::LDY, AddressingMode::Immediate)),
        0xa4 => Some((Mnemonic::LDY, AddressingMode::ZeroPage)),
        0xb4 => Some((Mnemonic::LDY, AddressingMode::ZeroPage_X)),
        0xac => Some((Mnemonic::LDY, AddressingMode::Absolute)),
        0xbc => Some((Mnemonic::LDY, AddressingMode::Absolute_X)),
        0x4a => Some((Mnemonic::LSR, AddressingMode::Accumulator)),
        0x46 => Some((Mnemonic::LSR, AddressingMode::ZeroPage)),
        0x56 => Some((Mnemonic::LSR, AddressingMode::ZeroPage_X)),
        0x4e => Some((Mnemonic::LSR, AddressingMode::Absolute)),
        0x5e => Some((Mnemonic::LSR, AddressingMode::Absolute_X)),
        0xea => Some((Mnemonic::NOP, AddressingMode::Implied)),
        0x09 => Some((Mnemonic::ORA, AddressingMode::Immediate)),
        0x05 => Some((Mnemonic::ORA, AddressingMode::ZeroPage)),
        0x15 => Some((Mnemonic::ORA, AddressingMode::ZeroPage_X)),
        0x0d => Some((Mnemonic::ORA, AddressingMode::Absolute)),
        0x1d => Some((Mnemonic::ORA, AddressingMode::Absolute_X)),
        0x19 => Some((Mnemonic::ORA, AddressingMode::Absolute_Y)),
        0x01 => Some((Mnemonic::ORA, AddressingMode::Indirect_X)),
        0x11 => Some((Mnemonic::ORA, AddressingMode::Indirect_Y)),
        0x48 => Some((Mnemonic::PHA, AddressingMode::Implied)),
        0x08 => Some((Mnemonic::PHP, AddressingMode::Implied)),
        0x68 => Some((Mnemonic::PLA, AddressingMode::Implied)),
        0x28 => Some((Mnemonic::PLP, AddressingMode::Implied)),
        0x2a => Some((Mnemonic::ROL, AddressingMode::Accumulator)),
        0x26 => Some((Mnemonic::ROL, AddressingMode::ZeroPage)),
        0x36 => Some((Mnemonic::ROL, AddressingMode::ZeroPage_X)),
        0x2e => Some((Mnemonic::ROL, AddressingMode::Absolute)),
        0x3e => Some((Mnemonic::ROL, AddressingMode::Absolute_X)),
        0x6a => Some((Mnemonic::ROR, AddressingMode::Accumulator)),
        0x66 => Some((Mnemonic::ROR, AddressingMode::ZeroPage)),
        0x76 => Some((Mnemonic::ROR, AddressingMode::ZeroPage_X)),
        0x6e => Some((Mnemonic::ROR, AddressingMode::Absolute)),
        0x7e => Some((Mnemonic::ROR, AddressingMode::Absolute_X)),
        0x40 => Some((Mnemonic::RTI, AddressingMode::Implied)),
        0x60 => Some((Mnemonic::RTS, AddressingMode::Implied)),
        0xe9 => Some((Mnemonic::SBC, AddressingMode::Immediate)),
        0xe5 => Some((Mnemonic::SBC, AddressingMode::ZeroPage)),
        0xf5 => Some((Mnemonic::SBC, AddressingMode::ZeroPage_X)),
        0xed => Some((Mnemonic::SBC, AddressingMode::Absolute)),
        0xfd => Some((Mnemonic::SBC, AddressingMode::Absolute_X)),
        0xf9 => Some((Mnemonic::SBC, AddressingMode::Absolute_Y)),
        0xe1 => Some((Mnemonic::SBC, AddressingMode::Indirect_X)),
        0xf1 => Some((Mnemonic::SBC, AddressingMode::Indirect_Y)),
        0x38 => Some((Mnemonic::SEC, AddressingMode::Implied)),
        0xf8 => Some((Mnemonic::SED, AddressingMode::Implied)),
        0x78 => Some((Mnemonic::SEI, AddressingMode::Implied)),
        0x85 => Some((Mnemonic::STA, AddressingMode::ZeroPage)),
        0x95 => Some((Mnemonic::STA, AddressingMode::ZeroPage_X)),
        0x8d => Some((Mnemonic::STA, AddressingMode::Absolute)),
        0x9d => Some((Mnemonic::STA, AddressingMode::Absolute_X)),
        0x99 => Some((Mnemonic::STA, AddressingMode::Absolute_Y)),
        0x81 => Some((Mnemonic::STA, AddressingMode::Indirect_X)),
        0x91 => Some((Mnemonic::STA, AddressingMode::Indirect_Y)),
        0x86 => Some((Mnemonic::STX, AddressingMode::ZeroPage)),
        0x96 => Some((Mnemonic::STX, AddressingMode::ZeroPage_Y)),
        0x8e => Some((Mnemonic::STX, AddressingMode::Absolute)),
        0x84 => Some((Mnemonic::STY, AddressingMode::ZeroPage)),
        0x94 => Some((Mnemonic::STY, AddressingMode::ZeroPage_X)),
        0x8c => Some((Mnemonic::STY, AddressingMode::Absolute)),
        0xaa => Some((Mnemonic::TAX, AddressingMode::Implied)),
        0xa8 => Some((Mnemonic::TAY, AddressingMode::Implied)),
        0xba => Some((Mnemonic::TSX, AddressingMode::Implied)),
        0x8a => Some((Mnemonic::TXA, AddressingMode::Implied)),
        0x9a => Some((Mnemonic::TXS, AddressingMode::Implied)),
        0x98 => Some((Mnemonic::TYA, AddressingMode::Implied)),
        _ => None,
    }
}

/// The table entry of `code`.
pub open spec fn entry(code: u8) -> Option<OpCode> {
    match instruction(code) {
        Some((mnemonic, mode)) => Some(OpCode { code, mnemonic, len: instruction_len(mode), mode }),
        None => None,
    }
}

/// The assembler's view of the table: the opcode byte of `mnemonic` under
/// `mode`, `None` where the instruction does not accept the mode.
pub open spec fn encoding(mnemonic: Mnemonic, mode: AddressingMode) -> Option<u8> {
    match mnemonic {
        Mnemonic::ADC => match mode {
            AddressingMode::Immediate => Some(0x69),
            AddressingMode::ZeroPage => Some(0x65),
            AddressingMode::ZeroPage_X => Some(0x75),
            AddressingMode::Absolute => Some(0x6d),
            AddressingMode::Absolute_X => Some(0x7d),
            AddressingMode::Absolute_Y => Some(0x79),
            AddressingMode::Indirect_X => Some(0x61),
            AddressingMode::Indirect_Y => Some(0x71),
            _ => None,
        },
        Mnemonic::AND => match mode {
            AddressingMode::Immediate => Some(0x29),
            AddressingMode::ZeroPage => Some(0x25),
            AddressingMode::ZeroPage_X => Some(0x35),
            AddressingMode::Absolute => Some(0x2d),
            AddressingMode::Absolute_X => Some(0x3d),
            AddressingMode::Absolute_Y => Some(0x39),
            AddressingMode::Indirect_X => Some(0x21),
            AddressingMode::Indirect_Y => Some(0x31),
            _ => None,
        },
        Mnemonic::ASL => match mode {
            AddressingMode::Accumulator => Some(0x0a),
            AddressingMode::ZeroPage => Some(0x06),
            AddressingMode::ZeroPage_X => Some(0x16),
            AddressingMode::Absolute => Some(0x0e),
            AddressingMode::Absolute_X => Some(0x1e),
            _ => None,
        },
        Mnemonic::BCC => if mode == AddressingMode::Relative { Some(0x90) } else { None },
        Mnemonic::BCS => if mode == AddressingMode::Relative { Some(0xb0) } else { None },
        Mnemonic::BEQ => if mode == AddressingMode::Relative { Some(0xf0) } else { None },
        Mnemonic::BIT => match mode {
            AddressingMode::ZeroPage => Some(0x24),
            AddressingMode::Absolute => Some(0x2c),
            _ => None,
        },
        Mnemonic::BMI => if mode == AddressingMode::Relative { Some(0x30) } else { None },
        Mnemonic::BNE => if mode == AddressingMode::Relative { Some(0xd0) } else { None },
        Mnemonic::BPL => if mode == AddressingMode::Relative { Some(0x10) } else { None },
        Mnemonic::BRK => if mode == AddressingMode::Implied { Some(0x00) } else { None },
        Mnemonic::BVC => if mode == AddressingMode::Relative { Some(0x50) } else { None },
        Mnemonic::BVS => if mode == AddressingMode::Relative { Some(0x70) } else { None },
        Mnemonic::CLC => if mode == AddressingMode::Implied { Some(0x18) } else { None },
        Mnemonic::CLD => if mode == AddressingMode::Implied { Some(0xd8) } else { None },
        Mnemonic::CLI => if mode == AddressingMode::Implied { Some(0x58) } else { None },
        Mnemonic::CLV => if mode == AddressingMode::Implied { Some(0xb8) } else { None },
        Mnemonic::CMP => match mode {
            AddressingMode::Immediate => Some(0xc9),
            AddressingMode::ZeroPage => Some(0xc5),
            AddressingMode::ZeroPage_X => Some(0xd5),
            AddressingMode::Absolute => Some(0xcd),
            AddressingMode::Absolute_X => Some(0xdd),
            AddressingMode::Absolute_Y => Some(0xd9),
            AddressingMode::Indirect_X => Some(0xc1),
            AddressingMode::Indirect_Y => Some(0xd1),
            _ => None,
        },
        Mnemonic::CPX => match mode {
            AddressingMode::Immediate => Some(0xe0),
            AddressingMode::ZeroPage => Some(0xe4),
            AddressingMode::Absolute => Some(0xec),
            _ => None,
        },
        Mnemonic::CPY => match mode {
            AddressingMode::Immediate => Some(0xc0),
            AddressingMode::ZeroPage => Some(0xc4),
            AddressingMode::Absolute => Some(0xcc),
            _ => None,
        },
        Mnemonic::DEC => match mode {
            AddressingMode::ZeroPage => Some(0xc6),
            AddressingMode::ZeroPage_X => Some(0xd6),
            AddressingMode::Absolute => Some(0xce),
            AddressingMode::Absolute_X => Some(0xde),
            _ => None,
        },
        Mnemonic::DEX => if mode == AddressingMode::Implied { Some(0xca) } else { None },
        Mnemonic::DEY => if mode == AddressingMode::Implied { Some(0x88) } else { None },
        Mnemonic::EOR => match mode {
            AddressingMode::Immediate => Some(0x49),
            AddressingMode::ZeroPage => Some(0x45),
            AddressingMode::ZeroPage_X => Some(0x55),
            AddressingMode::Absolute => Some(0x4d),
            AddressingMode::Absolute_X => Some(0x5d),
            AddressingMode::Absolute_Y => Some(0x59),
            AddressingMode::Indirect_X => Some(0x41),
            AddressingMode::Indirect_Y => Some(0x51),
            _ => None,
        },
        Mnemonic::INC => match mode {
            AddressingMode::ZeroPage => Some(0xe6),
            AddressingMode::ZeroPage_X => Some(0xf6),
            AddressingMode::Absolute => Some(0xee),
            AddressingMode::Absolute_X => Some(0xfe),
            _ => None,
        },
        Mnemonic::INX => if mode == AddressingMode::Implied { Some(0xe8) } else { None },
        Mnemonic::INY => if mode == AddressingMode::Implied { Some(0xc8) } else { None },
        Mnemonic::JMP => match mode {
            AddressingMode::Absolute => Some(0x4c),
            AddressingMode::Indirect => Some(0x6c),
            _ => None,
        },
        Mnemonic::JSR => if mode == AddressingMode::Absolute { Some(0x20) } else { None },
        Mnemonic::LDA => match mode {
            AddressingMode::Immediate => Some(0xa9),
            AddressingMode::ZeroPage => Some(0xa5),
            AddressingMode::ZeroPage_X => Some(0xb5),
            AddressingMode::Absolute => Some(0xad),
            AddressingMode::Absolute_X => Some(0xbd),
            AddressingMode::Absolute_Y => Some(0xb9),
            AddressingMode::Indirect_X => Some(0xa1),
            AddressingMode::Indirect_Y => Some(0xb1),
            _ => None,
        },
        Mnemonic::LDX => match mode {
            AddressingMode::Immediate => Some(0xa2),
            AddressingMode::ZeroPage => Some(0xa6),
            AddressingMode::ZeroPage_Y => Some(0xb6),
            AddressingMode::Absolute => Some(0xae),
            AddressingMode::Absolute_Y => Some(0xbe),
            _ => None,
        },
        Mnemonic::LDY => match mode {
            AddressingMode::Immediate => Some(0xa0),
            AddressingMode::ZeroPage => Some(0xa4),
            AddressingMode::ZeroPage_X => Some(0xb4),
            AddressingMode::Absolute => Some(0xac),
            AddressingMode::Absolute_X => Some(0xbc),
            _ => None,
        },
        Mnemonic::LSR => match mode {
            AddressingMode::Accumulator => Some(0x4a),
            AddressingMode::ZeroPage => Some(0x46),
            AddressingMode::ZeroPage_X => Some(0x56),
            AddressingMode::Absolute => Some(0x4e),
            AddressingMode::Absolute_X => Some(0x5e),
            _ => None,
        },
        Mnemonic::NOP => if mode == AddressingMode::Implied { Some(0xea) } else { None },
        Mnemonic::ORA => match mode {
            AddressingMode::Immediate => Some(0x09),
            AddressingMode::ZeroPage => Some(0x05),
            AddressingMode::ZeroPage_X => Some(0x15),
            AddressingMode::Absolute => Some(0x0d),
            AddressingMode::Absolute_X => Some(0x1d),
            AddressingMode::Absolute_Y => Some(0x19),
            AddressingMode::Indirect_X => Some(0x01),
            AddressingMode::Indirect_Y => Some(0x11),
            _ => None,
        },
        Mnemonic::PHA => if mode == AddressingMode::Implied { Some(0x48) } else { None },
        Mnemonic::PHP => if mode == AddressingMode::Implied { Some(0x08) } else { None },
        Mnemonic::PLA => if mode == AddressingMode::Implied { Some(0x68) } else { None },
        Mnemonic::PLP => if mode == AddressingMode::Implied { Some(0x28) } else { None },
        Mnemonic::ROL => match mode {
            AddressingMode::Accumulator => Some(0x2a),
            AddressingMode::ZeroPage => Some(0x26),
            AddressingMode::ZeroPage_X => Some(0x36),
            AddressingMode::Absolute => Some(0x2e),
            AddressingMode::Absolute_X => Some(0x3e),
            _ => None,
        },
        Mnemonic::ROR => match mode {
            AddressingMode::Accumulator => Some(0x6a),
            AddressingMode::ZeroPage => Some(0x66),
            AddressingMode::ZeroPage_X => Some(0x76),
            AddressingMode::Absolute => Some(0x6e),
            AddressingMode::Absolute_X => Some(0x7e),
            _ => None,
        },
        Mnemonic::RTI => if mode == AddressingMode::Implied { Some(0x40) } else { None },
        Mnemonic::RTS => if mode == AddressingMode::Implied { Some(0x60) } else { None },
        Mnemonic::SBC => match mode {
            AddressingMode::Immediate => Some(0xe9),
            AddressingMode::ZeroPage => Some(0xe5),
            AddressingMode::ZeroPage_X => Some(0xf5),
            AddressingMode::Absolute => Some(0xed),
            AddressingMode::Absolute_X => Some(0xfd),
            AddressingMode::Absolute_Y => Some(0xf9),
            AddressingMode::Indirect_X => Some(0xe1),
            AddressingMode::Indirect_Y => Some(0xf1),
            _ => None,
        },
        Mnemonic::SEC => if mode == AddressingMode::Implied { Some(0x38) } else { None },
        Mnemonic::SED => if mode == AddressingMode::Implied { Some(0xf8) } else { None },
        Mnemonic::SEI => if mode == AddressingMode::Implied { Some(0x78) } else { None },
        Mnemonic::STA => match mode {
            AddressingMode::ZeroPage => Some(0x85),
            AddressingMode::ZeroPage_X => Some(0x95),
            AddressingMode::Absolute => Some(0x8d),
            AddressingMode::Absolute_X => Some(0x9d),
            AddressingMode::Absolute_Y => Some(0x99),
            AddressingMode::Indirect_X => Some(0x81),
            AddressingMode::Indirect_Y => Some(0x91),
            _ => None,
        },
        Mnemonic::STX => match mode {
            AddressingMode::ZeroPage => Some(0x86),
            AddressingMode::ZeroPage_Y => Some(0x96),
            AddressingMode::Absolute => Some(0x8e),
            _ => None,
        },
        Mnemonic::STY => match mode {
            AddressingMode::ZeroPage => Some(0x84),
            AddressingMode::ZeroPage_X => Some(0x94),
            AddressingMode::Absolute => Some(0x8c),
            _ => None,
        },
        Mnemonic::TAX => if mode == AddressingMode::Implied { Some(0xaa) } else { None },
        Mnemonic::TAY => if mode == AddressingMode::Implied { Some(0xa8) } else { None },
        Mnemonic::TSX => if mode == AddressingMode::Implied { Some(0xba) } else { None },
        Mnemonic::TXA => if mode == AddressingMode::Implied { Some(0x8a) } else { None },
        Mnemonic::TXS => if mode == AddressingMode::Implied { Some(0x9a) } else { None },
        Mnemonic::TYA => if mode == AddressingMode::Implied { Some(0x98) } else { None },
    }
}

/// Whether `mnemonic` can be used with `mode`.
pub open spec fn accepts(mnemonic: Mnemonic, mode: AddressingMode) -> bool {
    encoding(mnemonic, mode) is Some
}

/// Looks `code` up in the opcode table.
pub fn lookup(code: u8) -> (op: Option<OpCode>)
    ensures
        op == entry(code),
        op matches Some(o) ==> accepts(o.mnemonic, o.mode),
{
    let (mnemonic, len, mode) = match code {
        0x69 => (Mnemonic::ADC, 2, AddressingMode::Immediate),
        0x65 => (Mnemonic::ADC, 2, AddressingMode::ZeroPage),
        0x75 => (Mnemonic::ADC, 2, AddressingMode::ZeroPage_X),
        0x6d => (Mnemonic::ADC, 3, AddressingMode::Absolute),
        0x7d => (Mnemonic::ADC, 3, AddressingMode::Absolute_X),
        0x79 => (Mnemonic::ADC, 3, AddressingMode::Absolute_Y),
        0x61 => (Mnemonic::ADC, 2, AddressingMode::Indirect_X),
        0x71 => (Mnemonic::ADC, 2, AddressingMode::Indirect_Y),
        0x29 => (Mnemonic::AND, 2, AddressingMode::Immediate),
        0x25 => (Mnemonic::AND, 2, AddressingMode::ZeroPage),
        0x35 => (Mnemonic::AND, 2, AddressingMode::ZeroPage_X),
        0x2d => (Mnemonic::AND, 3, AddressingMode::Absolute),
        0x3d => (Mnemonic::AND, 3, AddressingMode::Absolute_X),
        0x39 => (Mnemonic::AND, 3, AddressingMode::Absolute_Y),
        0x21 => (Mnemonic::AND, 2, AddressingMode::Indirect_X),
        0x31 => (Mnemonic::AND, 2, AddressingMode::Indirect_Y),
        0x0a => (Mnemonic::ASL, 1, AddressingMode::Accumulator),
        0x06 => (Mnemonic::ASL, 2, AddressingMode::ZeroPage),
        0x16 => (Mnemonic::ASL, 2, AddressingMode::ZeroPage_X),
        0x0e => (Mnemonic::ASL, 3, AddressingMode::Absolute),
        0x1e => (Mnemonic::ASL, 3, AddressingMode::Absolute_X),
        0x90 => (Mnemonic::BCC, 2, AddressingMode::Relative),
        0xb0 => (Mnemonic::BCS, 2, AddressingMode::Relative),
        0xf0 => (Mnemonic::BEQ, 2, AddressingMode::Relative),
        0x24 => (Mnemonic::BIT, 2, AddressingMode::ZeroPage),
        0x2c => (Mnemonic::BIT, 3, AddressingMode::Absolute),
        0x30 => (Mnemonic::BMI, 2, AddressingMode::Relative),
        0xd0 => (Mnemonic::BNE, 2, AddressingMode::Relative),
        0x10 => (Mnemonic::BPL, 2, AddressingMode::Relative),
        0x00 => (Mnemonic::BRK, 1, AddressingMode::Implied),
        0x50 => (Mnemonic::BVC, 2, AddressingMode::Relative),
        0x70 => (Mnemonic::BVS, 2, AddressingMode::Relative),
        0x18 => (Mnemonic::CLC, 1, AddressingMode::Implied),
        0xd8 => (Mnemonic::CLD, 1, AddressingMode::Implied),
        0x58 => (Mnemonic::CLI, 1, AddressingMode::Implied),
        0xb8 => (Mnemonic::CLV, 1, AddressingMode::Implied),
        0xc9 => (Mnemonic::CMP, 2, AddressingMode::Immediate),
        0xc5 => (Mnemonic::CMP, 2, AddressingMode::ZeroPage),
        0xd5 => (Mnemonic::CMP, 2, AddressingMode::ZeroPage_X),
        0xcd => (Mnemonic::CMP, 3, AddressingMode::Absolute),
        0xdd => (Mnemonic::CMP, 3, AddressingMode::Absolute_X),
        0xd9 => (Mnemonic::CMP, 3, AddressingMode::Absolute_Y),
        0xc1 => (Mnemonic::CMP, 2, AddressingMode::Indirect_X),
        0xd1 => (Mnemonic::CMP, 2, AddressingMode::Indirect_Y),
        0xe0 => (Mnemonic::CPX, 2, AddressingMode::Immediate),
        0xe4 => (Mnemonic::CPX, 2, AddressingMode::ZeroPage),
        0xec => (Mnemonic::CPX, 3, AddressingMode::Absolute),
        0xc0 => (Mnemonic::CPY, 2, AddressingMode::Immediate),
        0xc4 => (Mnemonic::CPY, 2, AddressingMode::ZeroPage),
        0xcc => (Mnemonic::CPY, 3, AddressingMode::Absolute),
        0xc6 => (Mnemonic::DEC, 2, AddressingMode::ZeroPage),
        0xd6 => (Mnemonic::DEC, 2, AddressingMode::ZeroPage_X),
        0xce => (Mnemonic::DEC, 3, AddressingMode::Absolute),
        0xde => (Mnemonic::DEC, 3, AddressingMode::Absolute_X),
        0xca => (Mnemonic::DEX, 1, AddressingMode::Implied),
        0x88 => (Mnemonic::DEY, 1, AddressingMode::Implied),
        0x49 => (Mnemonic::EOR, 2, AddressingMode::Immediate),
        0x45 => (Mnemonic::EOR, 2, AddressingMode::ZeroPage),
        0x55 => (Mnemonic::EOR, 2, AddressingMode::ZeroPage_X),
        0x4d => (Mnemonic::EOR, 3, AddressingMode::Absolute),
        0x5d => (Mnemonic::EOR, 3, AddressingMode::Absolute_X),
        0x59 => (Mnemonic::EOR, 3, AddressingMode::Absolute_Y),
        0x41 => (Mnemonic::EOR, 2, AddressingMode::Indirect_X),
        0x51 => (Mnemonic::EOR, 2, AddressingMode::Indirect_Y),
        0xe6 => (Mnemonic::INC, 2, AddressingMode::ZeroPage),
        0xf6 => (Mnemonic::INC, 2, AddressingMode::ZeroPage_X),
        0xee => (Mnemonic::INC, 3, AddressingMode::Absolute),
        0xfe => (Mnemonic::INC, 3, AddressingMode::Absolute_X),
        0xe8 => (Mnemonic::INX, 1, AddressingMode::Implied),
        0xc8 => (Mnemonic::INY, 1, AddressingMode::Implied),
        0x4c => (Mnemonic::JMP, 3, AddressingMode::Absolute),
        0x6c => (Mnemonic::JMP, 3, AddressingMode::Indirect),
        0x20 => (Mnemonic::JSR, 3, AddressingMode::Absolute),
        0xa9 => (Mnemonic::LDA, 2, AddressingMode::Immediate),
        0xa5 => (Mnemonic::LDA, 2, AddressingMode::ZeroPage),
        0xb5 => (Mnemonic::LDA, 2, AddressingMode::ZeroPage_X),
        0xad => (Mnemonic::LDA, 3, AddressingMode::Absolute),
        0xbd => (Mnemonic::LDA, 3, AddressingMode::Absolute_X),
        0xb9 => (Mnemonic::LDA, 3, AddressingMode::Absolute_Y),
        0xa1 => (Mnemonic::LDA, 2, AddressingMode::Indirect_X),
        0xb1 => (Mnemonic::LDA, 2, AddressingMode::Indirect_Y),
        0xa2 => (Mnemonic::LDX, 2, AddressingMode::Immediate),
        0xa6 => (Mnemonic::LDX, 2, AddressingMode::ZeroPage),
        0xb6 => (Mnemonic::LDX, 2, AddressingMode::ZeroPage_Y),
        0xae => (Mnemonic::LDX, 3, AddressingMode::Absolute),
        0xbe => (Mnemonic::LDX, 3, AddressingMode::Absolute_Y),
        0xa0 => (Mnemonic::LDY, 2, AddressingMode::Immediate),
        0xa4 => (Mnemonic::LDY, 2, AddressingMode::ZeroPage),
        0xb4 => (Mnemonic::LDY, 2, AddressingMode::ZeroPage_X),
        0xac => (Mnemonic::LDY, 3, AddressingMode::Absolute),
        0xbc => (Mnemonic::LDY, 3, AddressingMode::Absolute_X),
        0x4a => (Mnemonic::LSR, 1, AddressingMode::Accumulator),
        0x46 => (Mnemonic::LSR, 2, AddressingMode::ZeroPage),
        0x56 => (Mnemonic::LSR, 2, AddressingMode::ZeroPage_X),
        0x4e => (Mnemonic::LSR, 3, AddressingMode::Absolute),
        0x5e => (Mnemonic::LSR, 3, AddressingMode::Absolute_X),
        0xea => (Mnemonic::NOP, 1, AddressingMode::Implied),
        0x09 => (Mnemonic::ORA, 2, AddressingMode::Immediate),
        0x05 => (Mnemonic::ORA, 2, AddressingMode::ZeroPage),
        0x15 => (Mnemonic::ORA, 2, AddressingMode::ZeroPage_X),
        0x0d => (Mnemonic::ORA, 3, AddressingMode::Absolute),
        0x1d => (Mnemonic::ORA, 3, AddressingMode::Absolute_X),
        0x19 => (Mnemonic::ORA, 3, AddressingMode::Absolute_Y),
        0x01 => (Mnemonic::ORA, 2, AddressingMode::Indirect_X),
        0x11 => (Mnemonic::ORA, 2, AddressingMode::Indirect_Y),
        0x48 => (Mnemonic::PHA, 1, AddressingMode::Implied),
        0x08 => (Mnemonic::PHP, 1, AddressingMode::Implied),
        0x68 => (Mnemonic::PLA, 1, AddressingMode::Implied),
        0x28 => (Mnemonic::PLP, 1, AddressingMode::Implied),
        0x2a => (Mnemonic::ROL, 1, AddressingMode::Accumulator),
        0x26 => (Mnemonic::ROL, 2, AddressingMode::ZeroPage),
        0x36 => (Mnemonic::ROL, 2, AddressingMode::ZeroPage_X),
        0x2e => (Mnemonic::ROL, 3, AddressingMode::Absolute),
        0x3e => (Mnemonic::ROL, 3, AddressingMode::Absolute_X),
        0x6a => (Mnemonic::ROR, 1, AddressingMode::Accumulator),
        0x66 => (Mnemonic::ROR, 2, AddressingMode::ZeroPage),
        0x76 => (Mnemonic::ROR, 2, AddressingMode::ZeroPage_X),
        0x6e => (Mnemonic::ROR, 3, AddressingMode::Absolute),
        0x7e => (Mnemonic::ROR, 3, AddressingMode::Absolute_X),
        0x40 => (Mnemonic::RTI, 1, AddressingMode::Implied),
        0x60 => (Mnemonic::RTS, 1, AddressingMode::Implied),
        0xe9 => (Mnemonic::SBC, 2, AddressingMode::Immediate),
        0xe5 => (Mnemonic::SBC, 2, AddressingMode::ZeroPage),
        0xf5 => (Mnemonic::SBC, 2, AddressingMode::ZeroPage_X),
        0xed => (Mnemonic::SBC, 3, AddressingMode::Absolute),
        0xfd => (Mnemonic::SBC, 3, AddressingMode::Absolute_X),
        0xf9 => (Mnemonic::SBC, 3, AddressingMode::Absolute_Y),
        0xe1 => (Mnemonic::SBC, 2, AddressingMode::Indirect_X),
        0xf1 => (Mnemonic::SBC, 2, AddressingMode::Indirect_Y),
        0x38 => (Mnemonic::SEC, 1, AddressingMode::Implied),
        0xf8 => (Mnemonic::SED, 1, AddressingMode::Implied),
        0x78 => (Mnemonic::SEI, 1, AddressingMode::Implied),
        0x85 => (Mnemonic::STA, 2, AddressingMode::ZeroPage),
        0x95 => (Mnemonic::STA, 2, AddressingMode::ZeroPage_X),
        0x8d => (Mnemonic::STA, 3, AddressingMode::Absolute),
        0x9d => (Mnemonic::STA, 3, AddressingMode::Absolute_X),
        0x99 => (Mnemonic::STA, 3, AddressingMode::Absolute_Y),
        0x81 => (Mnemonic::STA, 2, AddressingMode::Indirect_X),
        0x91 => (Mnemonic::STA, 2, AddressingMode::Indirect_Y),
        0x86 => (Mnemonic::STX, 2, AddressingMode::ZeroPage),
        0x96 => (Mnemonic::STX, 2, AddressingMode::ZeroPage_Y),
        0x8e => (Mnemonic::STX, 3, AddressingMode::Absolute),
        0x84 => (Mnemonic::STY, 2, AddressingMode::ZeroPage),
        0x94 => (Mnemonic::STY, 2, AddressingMode::ZeroPage_X),
        0x8c => (Mnemonic::STY, 3, AddressingMode::Absolute),
        0xaa => (Mnemonic::TAX, 1, AddressingMode::Implied),
        0xa8 => (Mnemonic::TAY, 1, AddressingMode::Implied),
        0xba => (Mnemonic::TSX, 1, AddressingMode::Implied),
        0x8a => (Mnemonic::TXA, 1, AddressingMode::Implied),
        0x9a => (Mnemonic::TXS, 1, AddressingMode::Implied),
        0x98 => (Mnemonic::TYA, 1, AddressingMode::Implied),
        _ => {
            proof {
                reveal(instruction);
            }
            return None;
        },
    };
    proof {
        reveal(instruction);
        lemma_decode_encode(code, mnemonic, mode);
    }
    Some(OpCode { code, mnemonic, len, mode })
}

/// The decode table and the assembler's table hold the same entries: a byte
/// decodes to an instruction and a mode exactly if they encode to that byte.
pub proof fn lemma_decode_encode(code: u8, mnemonic: Mnemonic, mode: AddressingMode)
    ensures
        instruction(code) == Some((mnemonic, mode)) <==> encoding(mnemonic, mode) == Some(code),
{
    reveal(instruction);
}

/// No instruction accepts the marker mode `NoneAddressing`, and every entry
/// of the table is one, two or three bytes long.
pub proof fn lemma_entry_len(code: u8)
    ensures
        entry(code) matches Some(op) ==> 1 <= op.len <= 3 && op.code == code,
        entry(code) matches Some(op) ==> op.mode != AddressingMode::NoneAddressing,
{
    reveal(instruction);
}

} // verus!
