//! The addressing-mode resolver: how an opcode byte locates its operand.
use vstd::prelude::*;
use crate::error::DecodeError;
use crate::group::{
    group, group_spec, is_branch, is_branch_spec, lemma_fields, mode_field, opcode,
    operation_field, Group,
};
use crate::ungrouped::{lemma_ungrouped_is_apart, ungrouped, ungrouped_spec};

verus! {

/// The addressing modes of the instruction set.
#[derive(Debug, Clone, Copy, PartialEq, Eq, Structural)]
pub enum AddressingMode {
    Immediate,
    Absolute,
    ZeroPage,
    Accumulator,
    Implied,
    ZeroPageIndirectIndexedY,
    ZeroPageIndexedIndirectX,
    ZeroPageX,
    ZeroPageY,
    AbsoluteX,
    AbsoluteY,
    Relative,
    AbsoluteIndirect,
    Stack,
}

/// The number of operand bytes that follow the opcode byte in a given mode.
pub open spec fn operand_width_spec(mode: AddressingMode) -> u8 {
    match mode {
        AddressingMode::Implied | AddressingMode::Accumulator | AddressingMode::Stack => 0,
        AddressingMode::Immediate
        | AddressingMode::ZeroPage
        | AddressingMode::ZeroPageX
        | AddressingMode::ZeroPageY
        | AddressingMode::ZeroPageIndexedIndirectX
        | AddressingMode::ZeroPageIndirectIndexedY
        | AddressingMode::Relative => 1,
        AddressingMode::Absolute
        | AddressingMode::AbsoluteX
        | AddressingMode::AbsoluteY
        | AddressingMode::AbsoluteIndirect => 2,
    }
}

/// Computes the number of operand bytes that follow the opcode byte.
pub fn operand_width(mode: AddressingMode) -> (width: u8)
    ensures
        width == operand_width_spec(mode),
        width <= 2,
{
    match mode {
        AddressingMode::Implied | AddressingMode::Accumulator | AddressingMode::Stack => 0,
        AddressingMode::Immediate
        | AddressingMode::ZeroPage
        | AddressingMode::ZeroPageX
        | AddressingMode::ZeroPageY
        | AddressingMode::ZeroPageIndexedIndirectX
        | AddressingMode::ZeroPageIndirectIndexedY
        | AddressingMode::Relative => 1,
        AddressingMode::Absolute
        | AddressingMode::AbsoluteX
        | AddressingMode::AbsoluteY
        | AddressingMode::AbsoluteIndirect => 2,
    }
}

/// The indexing policy of group two: the store-X and load-X slots (operation
/// field `100` and `101`) index by Y, since X is the register they move; every
/// other slot indexes by X.
pub open spec fn indexes_by_y(operation: u16) -> bool {
    operation == 4 || operation == 5
}

/// The per-group mode tables, by mode field in ascending order.
///
/// Group one assigns all eight values. Group two leaves `100` and `110`
/// unassigned and asks the operation field which register indexes. Group zero
/// assigns five values.
pub open spec fn group_mode(group: Group, mode: u16, operation: u16) -> Option<AddressingMode> {
    match group {
        Group::One => match mode {
            0 => Some(AddressingMode::ZeroPageIndexedIndirectX),
            1 => Some(AddressingMode::ZeroPage),
            2 => Some(AddressingMode::Immediate),
            3 => Some(AddressingMode::Absolute),
            4 => Some(AddressingMode::ZeroPageIndirectIndexedY),
            5 => Some(AddressingMode::ZeroPageX),
            6 => Some(AddressingMode::AbsoluteY),
            7 => Some(AddressingMode::AbsoluteX),
            _ => None,
        },
        Group::Two => match mode {
            0 => Some(AddressingMode::Immediate),
            1 => Some(AddressingMode::ZeroPage),
            2 => Some(AddressingMode::Accumulator),
            3 => Some(AddressingMode::Absolute),
            5 => Some(
                if indexes_by_y(operation) {
                    AddressingMode::ZeroPageY
                } else {
                    AddressingMode::ZeroPageX
                },
            ),
            7 => Some(
                if indexes_by_y(operation) {
                    AddressingMode::AbsoluteY
                } else {
                    AddressingMode::AbsoluteX
                },
            ),
            _ => None,
        },
        Group::Zero => match mode {
            0 => Some(AddressingMode::Immediate),
            1 => Some(AddressingMode::ZeroPage),
            3 => Some(AddressingMode::Absolute),
            5 => Some(AddressingMode::ZeroPageX),
            7 => Some(AddressingMode::AbsoluteX),
            _ => None,
        },
    }
}

/// The addressing mode of an instruction word.
///
/// A branch is `Relative` whatever else its bits may say; a byte that names an
/// instruction outright has that instruction's mode; any other byte is read
/// through the table of its group.
pub open spec fn mode_spec(instruction: u16) -> Result<AddressingMode, DecodeError> {
    if is_branch_spec(instruction) {
        Ok(AddressingMode::Relative)
    } else {
        match ungrouped_spec(instruction) {
            Some((_, mode)) => Ok(mode),
            None => match group_spec(instruction) {
                Err(e) => Err(e),
                Ok(g) => match group_mode(
                    g,
                    mode_field(instruction),
                    operation_field(instruction),
                ) {
                    Some(mode) => Ok(mode),
                    None => Err(DecodeError::InvalidOpcode),
                },
            },
        }
    }
}

/// Resolves the addressing mode of `instruction`.
///
/// Fails with `UnsupportedGroup` exactly when bits 0-1 are `11`, and with
/// `InvalidOpcode` when the group assigns no mode to the mode field.
pub fn addressing_mode(instruction: u16) -> (r: Result<AddressingMode, DecodeError>)
    ensures
        r == mode_spec(instruction),
        is_branch_spec(instruction) ==> r == Ok::<AddressingMode, DecodeError>(
            AddressingMode::Relative,
        ),
        r == Err::<AddressingMode, DecodeError>(DecodeError::UnsupportedGroup) <==> instruction
            & 0x0003 == 0x0003,
{
    proof {
        lemma_fields(instruction);
        if ungrouped_spec(instruction) is Some {
            lemma_ungrouped_is_apart(instruction);
        }
    }
    if is_branch(instruction) {
        return Ok(AddressingMode::Relative);
    }
    match ungrouped(instruction) {
        Some((_, mode)) => {
            return Ok(mode);
        },
        None => {},
    }
    let bits_2_to_4: u16 = instruction & 0x001C;
    match group(instruction) {
        Ok(Group::One) => match bits_2_to_4 {
            0x0000 => Ok(AddressingMode::ZeroPageIndexedIndirectX),
            0x0004 => Ok(AddressingMode::ZeroPage),
            0x0008 => Ok(AddressingMode::Immediate),
            0x000C => Ok(AddressingMode::Absolute),
            0x0010 => Ok(AddressingMode::ZeroPageIndirectIndexedY),
            0x0014 => Ok(AddressingMode::ZeroPageX),
            0x0018 => Ok(AddressingMode::AbsoluteY),
            0x001C => Ok(AddressingMode::AbsoluteX),
            _ => Err(DecodeError::InvalidOpcode),
        },
        Ok(Group::Two) => match bits_2_to_4 {
            0x0000 => Ok(AddressingMode::Immediate),
            0x0004 => Ok(AddressingMode::ZeroPage),
            0x0008 => Ok(AddressingMode::Accumulator),
            0x000C => Ok(AddressingMode::Absolute),
            0x0014 => match opcode(instruction) {
                0x0080 | 0x00A0 => Ok(AddressingMode::ZeroPageY),
                _ => Ok(AddressingMode::ZeroPageX),
            },
            0x001C => match opcode(instruction) {
                0x0080 | 0x00A0 => Ok(AddressingMode::AbsoluteY),
                _ => Ok(AddressingMode::AbsoluteX),
            },
            _ => Err(DecodeError::InvalidOpcode),
        },
        Ok(Group::Zero) => match bits_2_to_4 {
            0x0000 => Ok(AddressingMode::Immediate),
            0x0004 => Ok(AddressingMode::ZeroPage),
            0x000C => Ok(AddressingMode::Absolute),
            0x0014 => Ok(AddressingMode::ZeroPageX),
            0x001C => Ok(AddressingMode::AbsoluteX),
            _ => Err(DecodeError::InvalidOpcode),
        },
        Err(e) => Err(e),
    }
}

} // verus!
