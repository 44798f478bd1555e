//! The group classifier: the fields of an opcode byte, the group that bits 0-1
//! select, and the conditional-branch template.
//!
//! An opcode byte is laid out as `aaabbbcc`: bits 5-7 (`aaa`) select the
//! operation, bits 2-4 (`bbb`) the addressing mode, bits 0-1 (`cc`) the group.
//! Bits 8-15 of an instruction word belong to the caller and are never read.
use vstd::prelude::*;
use crate::error::DecodeError;

verus! {

/// The family an opcode belongs to, selected by bits 0-1 of the opcode byte.
///
/// The mode field and the operation field mean something different in each
/// group, so both resolvers dispatch on the group first.
#[derive(Debug, Clone, Copy, PartialEq, Eq, Structural)]
pub enum Group {
    /// Bits 0-1 are `00`: control, compare and index-register instructions.
    Zero,
    /// Bits 0-1 are `01`: accumulator arithmetic and logic.
    One,
    /// Bits 0-1 are `10`: shifts, rotates and X-register instructions.
    Two,
}

impl Group {
    /// The value of bits 0-1 that selects this group.
    pub open spec fn selector(self) -> u16 {
        match self {
            Group::Zero => 0,
            Group::One => 1,
            Group::Two => 2,
        }
    }

    /// Returns the value of bits 0-1 that selects this group.
    pub fn bits(self) -> (r: u16)
        ensures
            r == self.selector(),
            r <= 2,
    {
        match self {
            Group::Zero => 0,
            Group::One => 1,
            Group::Two => 2,
        }
    }
}

/// The opcode byte of an instruction word: bits 0-7.
pub open spec fn opcode_byte(instruction: u16) -> u16 {
    instruction & 0x00FF
}

/// Bits 0-1 of the opcode byte, as a number from 0 to 3.
pub open spec fn group_field(instruction: u16) -> u16 {
    instruction & 0x0003
}

/// Bits 2-4 of the opcode byte, as a number from 0 to 7.
pub open spec fn mode_field(instruction: u16) -> u16 {
    (instruction >> 2) & 0x0007
}

/// Bits 5-7 of the opcode byte, as a number from 0 to 7.
pub open spec fn operation_field(instruction: u16) -> u16 {
    (instruction >> 5) & 0x0007
}

/// The group that bits 0-1 select; the combination `11` selects none.
pub open spec fn group_spec(instruction: u16) -> Result<Group, DecodeError> {
    if group_field(instruction) == 0 {
        Ok(Group::Zero)
    } else if group_field(instruction) == 1 {
        Ok(Group::One)
    } else if group_field(instruction) == 2 {
        Ok(Group::Two)
    } else {
        Err(DecodeError::UnsupportedGroup)
    }
}

/// The conditional-branch template `xxy10000`: the low four bits are zero and
/// bit 4 is set. `xx` is the condition code and `y` the polarity.
pub open spec fn is_branch_spec(instruction: u16) -> bool {
    instruction & 0x001F == 0x0010
}

/// How the fields make up the opcode byte, in plain arithmetic.
///
/// The default solver knows nothing of `&` and `>>`; every proof about the
/// decoding tables starts from these equations.
pub proof fn lemma_fields(instruction: u16)
    ensures
        group_field(instruction) <= 3,
        mode_field(instruction) <= 7,
        operation_field(instruction) <= 7,
        opcode_byte(instruction) == 32 * operation_field(instruction) + 4 * mode_field(
            instruction,
        ) + group_field(instruction),
        instruction & 0x001F == 4 * mode_field(instruction) + group_field(instruction),
        instruction & 0x001C == 4 * mode_field(instruction),
        instruction & 0x00E0 == 32 * operation_field(instruction),
{
    assert(instruction & 0x0003 <= 3) by (bit_vector);
    assert((instruction >> 2) & 0x0007 <= 7) by (bit_vector);
    assert((instruction >> 5) & 0x0007 <= 7) by (bit_vector);
    assert(instruction & 0x00FF == 32 * ((instruction >> 5) & 0x0007) + 4 * ((instruction >> 2)
        & 0x0007) + (instruction & 0x0003)) by (bit_vector);
    assert(instruction & 0x001F == 4 * ((instruction >> 2) & 0x0007) + (instruction & 0x0003))
        by (bit_vector);
    assert(instruction & 0x001C == 4 * ((instruction >> 2) & 0x0007)) by (bit_vector);
    assert(instruction & 0x00E0 == 32 * ((instruction >> 5) & 0x0007)) by (bit_vector);
}

/// Classifies `instruction` by bits 0-1 of its opcode byte.
///
/// Fails with `UnsupportedGroup` exactly when those bits are `11`.
pub fn group(instruction: u16) -> (r: Result<Group, DecodeError>)
    ensures
        r == group_spec(instruction),
        r matches Ok(g) ==> g.selector() == instruction & 0x0003,
        r == Err::<Group, DecodeError>(DecodeError::UnsupportedGroup) <==> instruction & 0x0003
            == 0x0003,
{
    let selector: u16 = instruction & 0x0003;
    proof {
        lemma_fields(instruction);
    }
    match selector {
        0x0000 => Ok(Group::Zero),
        0x0001 => Ok(Group::One),
        0x0002 => Ok(Group::Two),
        _ => Err(DecodeError::UnsupportedGroup),
    }
}

/// Tells whether `instruction` is a conditional branch.
///
/// Branches reuse the bit positions of the mode field, so this test comes
/// before any dispatch on the group.
pub fn is_branch(instruction: u16) -> (b: bool)
    ensures
        b == is_branch_spec(instruction),
{
    instruction & 0x001F == 0x0010
}

/// Isolates the operation field, bits 5-7, leaving it in place.
pub fn opcode(instruction: u16) -> (r: u16)
    ensures
        r == instruction & 0x00E0,
        r == 32 * operation_field(instruction),
{
    proof {
        lemma_fields(instruction);
    }
    instruction & 0x00E0
}

} // verus!
