//! The operation-type resolver: which mnemonic an opcode byte selects.
use vstd::prelude::*;
use crate::error::DecodeError;
use crate::group::{
    group, group_spec, is_branch, is_branch_spec, lemma_fields, opcode, operation_field, Group,
};
use crate::ungrouped::{lemma_ungrouped_is_apart, ungrouped, ungrouped_spec};

verus! {

/// The mnemonics of the instruction set.
#[derive(Debug, Clone, Copy, PartialEq, Eq, Structural)]
pub enum OperationType {
    ADC,
    AND,
    ASL,
    BCC,
    BCS,
    BEQ,
    BIT,
    BMI,
    BNE,
    BPL,
    BRK,
    BVC,
    BVS,
    CLC,
    CLD,
    CLI,
    CLV,
    CMP,
    CPX,
    CPY,
    DEC,
    DEX,
    DEY,
    EOR,
    INC,
    INX,
    INY,
    JMP,
    JSR,
    LDA,
    LDX,
    LDY,
    LSR,
    NOP,
    ORA,
    PHA,
    PHP,
    PLA,
    PLP,
    ROL,
    ROR,
    RTI,
    RTS,
    SBC,
    SEC,
    SED,
    SEI,
    STA,
    STX,
    STY,
    TAX,
    TAY,
    TSX,
    TXA,
    TXS,
    TYA,
}

/// The branch mnemonics, by operation field in ascending order.
///
/// Bits 6-7 name the flag tested (negative, overflow, carry, zero) and bit 5
/// the state that takes the branch (clear, then set).
pub open spec fn branch_operation(operation: u16) -> Option<OperationType> {
    match operation {
        0 => Some(OperationType::BPL),
        1 => Some(OperationType::BMI),
        2 => Some(OperationType::BVC),
        3 => Some(OperationType::BVS),
        4 => Some(OperationType::BCC),
        5 => Some(OperationType::BCS),
        6 => Some(OperationType::BNE),
        7 => Some(OperationType::BEQ),
        _ => None,
    }
}

/// The per-group mnemonic tables, by operation field in ascending order.
///
/// Group zero assigns nothing to `000`, and both `010` and `011` to the jump.
pub open spec fn group_operation(group: Group, operation: u16) -> Option<OperationType> {
    match group {
        Group::One => match operation {
            0 => Some(OperationType::ORA),
            1 => Some(OperationType::AND),
            2 => Some(OperationType::EOR),
            3 => Some(OperationType::ADC),
            4 => Some(OperationType::STA),
            5 => Some(OperationType::LDA),
            6 => Some(OperationType::CMP),
            7 => Some(OperationType::SBC),
            _ => None,
        },
        Group::Two => match operation {
            0 => Some(OperationType::ASL),
            1 => Some(OperationType::ROL),
            2 => Some(OperationType::LSR),
            3 => Some(OperationType::ROR),
            4 => Some(OperationType::STX),
            5 => Some(OperationType::LDX),
            6 => Some(OperationType::DEC),
            7 => Some(OperationType::INC),
            _ => None,
        },
        Group::Zero => match operation {
            1 => Some(OperationType::BIT),
            2 => Some(OperationType::JMP),
            3 => Some(OperationType::JMP),
            4 => Some(OperationType::STY),
            5 => Some(OperationType::LDY),
            6 => Some(OperationType::CPY),
            7 => Some(OperationType::CPX),
            _ => None,
        },
    }
}

/// The operation of an instruction word.
///
/// The rules apply in this order: a byte that names an instruction outright;
/// then the branch template; then the table of the byte's group.
pub open spec fn operation_spec(instruction: u16) -> Result<OperationType, DecodeError> {
    match ungrouped_spec(instruction) {
        Some((operation, _)) => Ok(operation),
        None => if is_branch_spec(instruction) {
            match branch_operation(operation_field(instruction)) {
                Some(operation) => Ok(operation),
                None => Err(DecodeError::InvalidOpcode),
            }
        } else {
            match group_spec(instruction) {
                Err(e) => Err(e),
                Ok(g) => match group_operation(g, operation_field(instruction)) {
                    Some(operation) => Ok(operation),
                    None => Err(DecodeError::InvalidOpcode),
                },
            }
        },
    }
}

/// Resolves the operation of `instruction`.
///
/// Fails with `UnsupportedGroup` exactly when bits 0-1 are `11`, and with
/// `InvalidOpcode` when the group assigns no mnemonic to the operation field.
pub fn operation_type(instruction: u16) -> (r: Result<OperationType, DecodeError>)
    ensures
        r == operation_spec(instruction),
        r == Err::<OperationType, DecodeError>(DecodeError::UnsupportedGroup) <==> instruction
            & 0x0003 == 0x0003,
{
    proof {
        lemma_fields(instruction);
        if ungrouped_spec(instruction) is Some {
            lemma_ungrouped_is_apart(instruction);
        }
    }
    match ungrouped(instruction) {
        Some((operation, _)) => {
            return Ok(operation);
        },
        None => {},
    }
    if is_branch(instruction) {
        return match instruction & 0x00FF {
            0x0010 => Ok(OperationType::BPL),
            0x0030 => Ok(OperationType::BMI),
            0x0050 => Ok(OperationType::BVC),
            0x0070 => Ok(OperationType::BVS),
            0x0090 => Ok(OperationType::BCC),
            0x00B0 => Ok(OperationType::BCS),
            0x00D0 => Ok(OperationType::BNE),
            0x00F0 => Ok(OperationType::BEQ),
            _ => Err(DecodeError::InvalidOpcode),
        };
    }
    match group(instruction) {
        Ok(Group::One) => match opcode(instruction) {
            0x0000 => Ok(OperationType::ORA),
            0x0020 => Ok(OperationType::AND),
            0x0040 => Ok(OperationType::EOR),
            0x0060 => Ok(OperationType::ADC),
            0x0080 => Ok(OperationType::STA),
            0x00A0 => Ok(OperationType::LDA),
            0x00C0 => Ok(OperationType::CMP),
            0x00E0 => Ok(OperationType::SBC),
            _ => Err(DecodeError::InvalidOpcode),
        },
        Ok(Group::Two) => match opcode(instruction) {
            0x0000 => Ok(OperationType::ASL),
            0x0020 => Ok(OperationType::ROL),
            0x0040 => Ok(OperationType::LSR),
            0x0060 => Ok(OperationType::ROR),
            0x0080 => Ok(OperationType::STX),
            0x00A0 => Ok(OperationType::LDX),
            0x00C0 => Ok(OperationType::DEC),
            0x00E0 => Ok(OperationType::INC),
            _ => Err(DecodeError::InvalidOpcode),
        },
        Ok(Group::Zero) => match opcode(instruction) {
            0x0020 => Ok(OperationType::BIT),
            0x0040 | 0x0060 => Ok(OperationType::JMP),
            0x0080 => Ok(OperationType::STY),
            0x00A0 => Ok(OperationType::LDY),
            0x00C0 => Ok(OperationType::CPY),
            0x00E0 => Ok(OperationType::CPX),
            _ => Err(DecodeError::InvalidOpcode),
        },
        Err(e) => Err(e),
    }
}

} // verus!
