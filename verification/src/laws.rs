//! What holds of the decoder on every instruction word.
use vstd::prelude::*;
use crate::addressing_mode::{mode_spec, AddressingMode};
use crate::cycles::cycle_table;
use crate::error::DecodeError;
use crate::group::{
    group_field, group_spec, is_branch_spec, lemma_fields, opcode_byte, operation_field, Group,
};
use crate::instruction::{decode_spec, DecodedInstruction};
use crate::operation_type::{branch_operation, operation_spec, OperationType};
use crate::ungrouped::{lemma_ungrouped_is_apart, ungrouped_spec};

verus! {

/// The cycle table is complete: whenever a word has both a mode and an
/// operation, the table holds a count for the pair.
pub proof fn lemma_cycle_table_complete(raw: u16)
    ensures
        mode_spec(raw) matches Ok(mode) ==> (operation_spec(raw) matches Ok(operation)
            ==> cycle_table(mode, operation) is Some),
{
    lemma_fields(raw);
}

/// The opcode bytes to which group two assigns no addressing mode: mode
/// fields `100` and `110`, without the two bytes of the latter column that
/// move the stack pointer.
pub open spec fn modeless_byte(byte: u16) -> bool {
    ||| byte == 0x12 || byte == 0x32 || byte == 0x52 || byte == 0x72 || byte == 0x92 || byte
        == 0xB2 || byte == 0xD2 || byte == 0xF2
    ||| byte == 0x1A || byte == 0x3A || byte == 0x5A || byte == 0x7A || byte == 0xDA || byte
        == 0xFA
}

/// The opcode bytes to which group zero assigns no mnemonic: what is left of
/// operation field `000` once the ungrouped bytes and the branch are taken out.
pub open spec fn nameless_byte(byte: u16) -> bool {
    byte == 0x04 || byte == 0x0C || byte == 0x14 || byte == 0x1C
}

/// The eighteen opcode bytes of the three groups that name no instruction.
pub open spec fn unassigned_byte(byte: u16) -> bool {
    modeless_byte(byte) || nameless_byte(byte)
}

/// Where the resolvers fail: each fails with `UnsupportedGroup` on the
/// unassigned group and with `InvalidOpcode` on its own unassigned bytes, and
/// succeeds on every other word.
pub proof fn lemma_resolver_outcomes(raw: u16)
    ensures
        mode_spec(raw) == Err::<AddressingMode, DecodeError>(DecodeError::UnsupportedGroup)
            <==> group_field(raw) == 3,
        mode_spec(raw) == Err::<AddressingMode, DecodeError>(DecodeError::InvalidOpcode)
            <==> modeless_byte(opcode_byte(raw)),
        operation_spec(raw) == Err::<OperationType, DecodeError>(DecodeError::UnsupportedGroup)
            <==> group_field(raw) == 3,
        operation_spec(raw) == Err::<OperationType, DecodeError>(DecodeError::InvalidOpcode)
            <==> nameless_byte(opcode_byte(raw)),
{
    lemma_fields(raw);
}

/// Every word has exactly one outcome, and the opcode byte says which: a word
/// of the unassigned group fails with `UnsupportedGroup`, a word with one of
/// the eighteen unassigned bytes fails with `InvalidOpcode`, and every other
/// word decodes.
pub proof fn lemma_decode_outcomes(raw: u16)
    ensures
        decode_spec(raw) == Err::<DecodedInstruction, DecodeError>(DecodeError::UnsupportedGroup)
            <==> group_field(raw) == 3,
        decode_spec(raw) == Err::<DecodedInstruction, DecodeError>(DecodeError::InvalidOpcode)
            <==> unassigned_byte(opcode_byte(raw)),
        decode_spec(raw) is Ok <==> group_field(raw) != 3 && !unassigned_byte(opcode_byte(raw)),
        unassigned_byte(opcode_byte(raw)) ==> group_field(raw) != 3,
{
    lemma_fields(raw);
}

/// Decoding is repeatable: any two outcomes of decoding one word are equal,
/// and the word kept in a record decodes to that record again.
pub proof fn lemma_decode_repeatable(
    raw: u16,
    first: Result<DecodedInstruction, DecodeError>,
    second: Result<DecodedInstruction, DecodeError>,
)
    requires
        first == decode_spec(raw),
        second == decode_spec(raw),
    ensures
        first == second,
        first matches Ok(d) ==> d.raw == raw && decode_spec(d.raw) == first,
{
}

/// Bits 8-15 are never read: two words with the same opcode byte have the
/// same group, mode and operation, and decode to records that differ in the
/// word they keep and in nothing else.
pub proof fn lemma_high_byte_ignored(a: u16, b: u16)
    requires
        opcode_byte(a) == opcode_byte(b),
    ensures
        group_spec(a) == group_spec(b),
        mode_spec(a) == mode_spec(b),
        operation_spec(a) == operation_spec(b),
        match decode_spec(a) {
            Ok(d) => decode_spec(b) == Ok::<DecodedInstruction, DecodeError>(
                DecodedInstruction { raw: b, ..d },
            ),
            Err(e) => decode_spec(b) == Err::<DecodedInstruction, DecodeError>(e),
        },
{
    lemma_fields(a);
    lemma_fields(b);
}

/// A word that matches the branch template is `Relative`, whatever its other
/// bits are. It always names one of the eight branches, so the failure that
/// the branch rule allows for never happens, and it decodes with one operand
/// byte.
pub proof fn lemma_branch_precedence(raw: u16)
    requires
        is_branch_spec(raw),
    ensures
        mode_spec(raw) == Ok::<AddressingMode, DecodeError>(AddressingMode::Relative),
        branch_operation(operation_field(raw)) matches Some(operation) && operation_spec(raw)
            == Ok::<OperationType, DecodeError>(operation),
        decode_spec(raw) matches Ok(d) && d.mode == AddressingMode::Relative && d.operand_width
            == 1 && d.base_cycles == 2,
{
    lemma_fields(raw);
    if ungrouped_spec(raw) is Some {
        lemma_ungrouped_is_apart(raw);
    }
}

/// A word whose bits 0-1 are `11` fails with `UnsupportedGroup` in the
/// classifier, in both resolvers and in the decoder.
pub proof fn lemma_unsupported_group(raw: u16)
    requires
        raw & 0x0003 == 0x0003,
    ensures
        group_spec(raw) == Err::<Group, DecodeError>(DecodeError::UnsupportedGroup),
        mode_spec(raw) == Err::<AddressingMode, DecodeError>(DecodeError::UnsupportedGroup),
        operation_spec(raw) == Err::<OperationType, DecodeError>(DecodeError::UnsupportedGroup),
        decode_spec(raw) == Err::<DecodedInstruction, DecodeError>(DecodeError::UnsupportedGroup),
{
    lemma_fields(raw);
    if ungrouped_spec(raw) is Some {
        lemma_ungrouped_is_apart(raw);
    }
}

} // verus!
