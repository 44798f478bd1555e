use vstd::prelude::*;

verus! {

/// Why a word could not be classified.
///
/// Both failures are ordinary values: a caller can treat an undecodable word as a
/// trap, a halt or a skipped byte, as it sees fit.
#[derive(Debug, Clone, Copy, PartialEq, Eq, Structural)]
pub enum DecodeError {
    /// Bits 0-1 of the opcode byte are `11`, a combination the instruction set
    /// leaves unassigned.
    UnsupportedGroup,
    /// The group (or the branch shape) is valid, but no addressing mode or no
    /// mnemonic is assigned to the slot the word selects.
    InvalidOpcode,
}

} // verus!
