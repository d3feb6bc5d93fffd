//! An instruction-set emulator for an 8-bit accumulator machine of the 6502
//! family: a flat memory, a register file with status flags, an opcode table,
//! an addressing-mode resolver and a fetch-decode-execute engine.
//!
//! `machine` holds the mathematical model that the contracts speak of;
//! `processor` holds the executable processor, proved against it.

pub mod error;
pub mod flags;
pub mod machine;
pub mod memory;
pub mod opcode;
pub mod processor;
pub mod screen;

pub use crate::error::CpuError;
pub use crate::flags::Flag;
pub use crate::memory::Memory;
pub use crate::opcode::{AddressingMode, OpCode};
pub use crate::processor::CPU;
