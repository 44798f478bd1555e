//! The instructions that no group encodes.
//!
//! A few opcode bytes name an instruction outright: their bit patterns fall
//! into slots of group zero and group two, yet the fields say nothing true
//! about them. Both resolvers look a byte up here before they read any field.
use vstd::prelude::*;
use crate::addressing_mode::AddressingMode;
use crate::group::{group_field, is_branch_spec, lemma_fields, opcode_byte};
use crate::operation_type::OperationType;

verus! {

/// The instruction that an opcode byte names outright, if it names one.
///
/// The pushes and pulls are classed `Stack`, the subroutine call `Absolute`,
/// and everything else `Implied`.
pub open spec fn ungrouped_spec(instruction: u16) -> Option<(OperationType, AddressingMode)> {
    let byte = opcode_byte(instruction);
    if byte == 0x00 {
        Some((OperationType::BRK, AddressingMode::Implied))
    } else if byte == 0x20 {
        Some((OperationType::JSR, AddressingMode::Absolute))
    } else if byte == 0x40 {
        Some((OperationType::RTI, AddressingMode::Implied))
    } else if byte == 0x60 {
        Some((OperationType::RTS, AddressingMode::Implied))
    } else if byte == 0x08 {
        Some((OperationType::PHP, AddressingMode::Stack))
    } else if byte == 0x28 {
        Some((OperationType::PLP, AddressingMode::Stack))
    } else if byte == 0x48 {
        Some((OperationType::PHA, AddressingMode::Stack))
    } else if byte == 0x68 {
        Some((OperationType::PLA, AddressingMode::Stack))
    } else if byte == 0x88 {
        Some((OperationType::DEY, AddressingMode::Implied))
    } else if byte == 0xA8 {
        Some((OperationType::TAY, AddressingMode::Implied))
    } else if byte == 0xC8 {
        Some((OperationType::INY, AddressingMode::Implied))
    } else if byte == 0xE8 {
        Some((OperationType::INX, AddressingMode::Implied))
    } else if byte == 0x18 {
        Some((OperationType::CLC, AddressingMode::Implied))
    } else if byte == 0x38 {
        Some((OperationType::SEC, AddressingMode::Implied))
    } else if byte == 0x58 {
        Some((OperationType::CLI, AddressingMode::Implied))
    } else if byte == 0x78 {
        Some((OperationType::SEI, AddressingMode::Implied))
    } else if byte == 0x98 {
        Some((OperationType::TYA, AddressingMode::Implied))
    } else if byte == 0xB8 {
        Some((OperationType::CLV, AddressingMode::Implied))
    } else if byte == 0xD8 {
        Some((OperationType::CLD, AddressingMode::Implied))
    } else if byte == 0xF8 {
        Some((OperationType::SED, AddressingMode::Implied))
    } else if byte == 0x8A {
        Some((OperationType::TXA, AddressingMode::Implied))
    } else if byte == 0x9A {
        Some((OperationType::TXS, AddressingMode::Implied))
    } else if byte == 0xAA {
        Some((OperationType::TAX, AddressingMode::Implied))
    } else if byte == 0xBA {
        Some((OperationType::TSX, AddressingMode::Implied))
    } else if byte == 0xCA {
        Some((OperationType::DEX, AddressingMode::Implied))
    } else if byte == 0xEA {
        Some((OperationType::NOP, AddressingMode::Implied))
    } else {
        None
    }
}

/// Looks an opcode byte up among the instructions that no group encodes.
pub fn ungrouped(instruction: u16) -> (r: Option<(OperationType, AddressingMode)>)
    ensures
        r == ungrouped_spec(instruction),
{
    let byte: u16 = instruction & 0x00FF;
    match byte {
        0x00 => Some((OperationType::BRK, AddressingMode::Implied)),
        0x20 => Some((OperationType::JSR, AddressingMode::Absolute)),
        0x40 => Some((OperationType::RTI, AddressingMode::Implied)),
        0x60 => Some((OperationType::RTS, AddressingMode::Implied)),
        0x08 => Some((OperationType::PHP, AddressingMode::Stack)),
        0x28 => Some((OperationType::PLP, AddressingMode::Stack)),
        0x48 => Some((OperationType::PHA, AddressingMode::Stack)),
        0x68 => Some((OperationType::PLA, AddressingMode::Stack)),
        0x88 => Some((OperationType::DEY, AddressingMode::Implied)),
        0xA8 => Some((OperationType::TAY, AddressingMode::Implied)),
        0xC8 => Some((OperationType::INY, AddressingMode::Implied)),
        0xE8 => Some((OperationType::INX, AddressingMode::Implied)),
        0x18 => Some((OperationType::CLC, AddressingMode::Implied)),
        0x38 => Some((OperationType::SEC, AddressingMode::Implied)),
        0x58 => Some((OperationType::CLI, AddressingMode::Implied)),
        0x78 => Some((OperationType::SEI, AddressingMode::Implied)),
        0x98 => Some((OperationType::TYA, AddressingMode::Implied)),
        0xB8 => Some((OperationType::CLV, AddressingMode::Implied)),
        0xD8 => Some((OperationType::CLD, AddressingMode::Implied)),
        0xF8 => Some((OperationType::SED, AddressingMode::Implied)),
        0x8A => Some((OperationType::TXA, AddressingMode::Implied)),
        0x9A => Some((OperationType::TXS, AddressingMode::Implied)),
        0xAA => Some((OperationType::TAX, AddressingMode::Implied)),
        0xBA => Some((OperationType::TSX, AddressingMode::Implied)),
        0xCA => Some((OperationType::DEX, AddressingMode::Implied)),
        0xEA => Some((OperationType::NOP, AddressingMode::Implied)),
        _ => None,
    }
}

/// No ungrouped byte lies in the unassigned group, and none matches the
/// branch template: the three ways of reading a byte never compete.
pub proof fn lemma_ungrouped_is_apart(instruction: u16)
    requires
        ungrouped_spec(instruction) is Some,
    ensures
        group_field(instruction) != 3,
        !is_branch_spec(instruction),
{
    lemma_fields(instruction);
}

} // verus!
