//! The instruction decoder: one record per instruction word.
use vstd::prelude::*;
use crate::addressing_mode::{
    addressing_mode, mode_spec, operand_width, operand_width_spec, AddressingMode,
};
use crate::cycles::{base_cycles, cycle_table};
use crate::error::DecodeError;
use crate::group::{group, group_spec, Group};
use crate::laws::{lemma_cycle_table_complete, lemma_decode_outcomes, lemma_resolver_outcomes};
use crate::operation_type::{operation_spec, operation_type, OperationType};

verus! {

/// Everything the later stages need to know about one instruction word.
#[derive(Debug, Clone, Copy, PartialEq, Eq, Structural)]
pub struct DecodedInstruction {
    /// The word that was decoded, high byte included.
    pub raw: u16,
    /// The group that bits 0-1 of the opcode byte select.
    pub group: Group,
    /// How the instruction locates its operand.
    pub mode: AddressingMode,
    /// What the instruction does.
    pub operation: OperationType,
    /// The number of operand bytes that follow the opcode byte: 0, 1 or 2.
    pub operand_width: u8,
    /// The cycle count of the instruction before any penalty.
    pub base_cycles: u8,
}

impl DecodedInstruction {
    /// A record is well formed when it is what its own word decodes to.
    pub open spec fn well_formed(self) -> bool {
        decode_spec(self.raw) == Ok::<DecodedInstruction, DecodeError>(self)
    }
}

/// What an instruction word decodes to.
///
/// The group is classified first, so a word of the unassigned group fails with
/// `UnsupportedGroup`; then the mode and the operation are resolved, and either
/// may fail with `InvalidOpcode`. The operand width follows from the mode and
/// the base cycles from the cycle table.
pub open spec fn decode_spec(raw: u16) -> Result<DecodedInstruction, DecodeError> {
    match group_spec(raw) {
        Err(e) => Err(e),
        Ok(group) => match mode_spec(raw) {
            Err(e) => Err(e),
            Ok(mode) => match operation_spec(raw) {
                Err(e) => Err(e),
                Ok(operation) => Ok(
                    DecodedInstruction {
                        raw,
                        group,
                        mode,
                        operation,
                        operand_width: operand_width_spec(mode),
                        base_cycles: cycle_table(mode, operation).unwrap(),
                    },
                ),
            },
        },
    }
}

/// Decodes one instruction word.
///
/// Every word gives exactly one outcome: a record, `UnsupportedGroup` or
/// `InvalidOpcode`. The outcome depends on the word alone.
pub fn decode(raw: u16) -> (r: Result<DecodedInstruction, DecodeError>)
    ensures
        r == decode_spec(raw),
        r == Err::<DecodedInstruction, DecodeError>(DecodeError::UnsupportedGroup) <==> raw
            & 0x0003 == 0x0003,
        r matches Ok(d) ==> d.well_formed() && d.operand_width <= 2 && cycle_table(
            d.mode,
            d.operation,
        ) == Some(d.base_cycles),
{
    let group = match group(raw) {
        Ok(group) => group,
        Err(e) => {
            return Err(e);
        },
    };
    let mode = match addressing_mode(raw) {
        Ok(mode) => mode,
        Err(e) => {
            return Err(e);
        },
    };
    let operation = match operation_type(raw) {
        Ok(operation) => operation,
        Err(e) => {
            return Err(e);
        },
    };
    proof {
        lemma_cycle_table_complete(raw);
    }
    Ok(
        DecodedInstruction {
            raw,
            group,
            mode,
            operation,
            operand_width: operand_width(mode),
            base_cycles: base_cycles(mode, operation).unwrap(),
        },
    )
}

/// The base cycle count of an instruction word: the cycle table's entry for
/// its mode and operation, and zero for a word that names no instruction.
pub open spec fn word_cycles(instruction: u16) -> u8 {
    match (mode_spec(instruction), operation_spec(instruction)) {
        (Ok(mode), Ok(operation)) => cycle_table(mode, operation).unwrap(),
        _ => 0,
    }
}

/// An instruction word, with its base cycle count and a flags byte beside it.
#[derive(Debug, Clone, Copy, PartialEq, Eq, Structural)]
pub struct Instruction {
    /// The instruction word: the opcode byte in bits 0-7.
    pub instruction: u16,
    /// The base cycle count of the word, zero where the word names no
    /// instruction.
    pub cycles: u8,
    /// The flags byte; zero until `set_flags` stores another.
    pub flags: u8,
}

impl Instruction {
    /// An instruction is well formed when its cycle count is that of its word.
    pub open spec fn well_formed(self) -> bool {
        self.cycles == word_cycles(self.instruction)
    }

    /// Wraps an instruction word and looks up its base cycle count.
    ///
    /// Where the word has a mode and an operation, `cycles` is the cycle
    /// table's entry for the pair, the count that `decode` records for the same
    /// word; where it has not, `cycles` is zero. No flag is set.
    pub fn new(instr: u16) -> (r: Instruction)
        ensures
            r == (Instruction { instruction: instr, cycles: word_cycles(instr), flags: 0 }),
            r.well_formed(),
            match (mode_spec(instr), operation_spec(instr)) {
                (Ok(mode), Ok(operation)) => cycle_table(mode, operation) == Some(r.cycles),
                _ => r.cycles == 0,
            },
            match decode_spec(instr) {
                Ok(d) => r.cycles == d.base_cycles && cycle_table(d.mode, d.operation) == Some(
                    r.cycles,
                ),
                Err(_) => r.cycles == 0,
            },
    {
        proof {
            lemma_cycle_table_complete(instr);
            lemma_resolver_outcomes(instr);
            lemma_decode_outcomes(instr);
        }
        let cycles: u8 = match addressing_mode(instr) {
            Ok(mode) => match operation_type(instr) {
                Ok(operation) => base_cycles(mode, operation).unwrap(),
                Err(_) => 0,
            },
            Err(_) => 0,
        };
        Instruction { instruction: instr, cycles, flags: 0 }
    }

    /// Resolves the addressing mode of the wrapped word.
    pub fn get_addressing_mode(&self) -> (r: Result<AddressingMode, DecodeError>)
        ensures
            r == mode_spec(self.instruction),
    {
        addressing_mode(self.instruction)
    }

    /// Resolves the operation of the wrapped word.
    pub fn get_operation_type(&self) -> (r: Result<OperationType, DecodeError>)
        ensures
            r == operation_spec(self.instruction),
    {
        operation_type(self.instruction)
    }

    /// Stores the flags byte, leaving the word and its cycle count as they
    /// were.
    pub fn set_flags(&mut self, flags: u8)
        ensures
            *final(self) == (Instruction { flags: flags, ..*old(self) }),
            old(self).well_formed() ==> final(self).well_formed(),
    {
        self.flags = flags;
    }
}

} // verus!
