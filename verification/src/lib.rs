//! The core of an emulator for the MOS 6502: register file, flat memory bus,
//! addressing-mode decoder, opcode table and instruction interpreter, with
//! every executable function verified against a mathematical model of the
//! processor.
//!
//! - `model` holds the machine state as plain values, with the bus, the
//!   stack and the addressing modes as functions on it;
//! - `flags` lays out the status byte;
//! - `opcodes` is the opcode table;
//! - `semantics` says what each instruction and one turn of the
//!   fetch-decode-execute cycle do to the model, and when a run ends;
//! - `cpu` is the processor itself with its bus, `instructions` its
//!   routines, `interpreter` loading, reset and the cycle;
//! - `bits` ties the bitwise operations of the code to the arithmetic of the
//!   model;
//! - `laws` proves what holds of the instruction set as a whole.

pub mod bits;
pub mod cpu;
pub mod flags;
pub mod instructions;
pub mod interpreter;
pub mod laws;
pub mod model;
pub mod opcodes;
pub mod semantics;

pub use cpu::{AddressingMode, CpuError, Mem, StepOutcome, CPU};
pub use model::CpuState;
pub use opcodes::{Mnemonic, OpCode};
