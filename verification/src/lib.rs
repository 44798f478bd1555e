//! The instruction-decode stage of a 6502 emulator.
//!
//! [`decode`] classifies an instruction word: it finds the addressing mode and
//! the operation that the opcode byte selects, and records the operand width
//! and the base cycle count that a fetch/execute stage needs. It executes
//! nothing and reads no memory.
//!
//! The opcode byte is bits 0-7 of the word; bits 8-15 are the caller's. A word
//! that names no instruction is an ordinary outcome, a [`DecodeError`], and no
//! word makes the decoder panic.
pub mod addressing_mode;
pub mod cycles;
pub mod error;
pub mod group;
pub mod instruction;
pub mod laws;
pub mod operation_type;
pub mod ungrouped;

pub use crate::addressing_mode::AddressingMode;
pub use crate::error::DecodeError;
pub use crate::group::Group;
pub use crate::instruction::{decode, DecodedInstruction, Instruction};
pub use crate::operation_type::OperationType;
