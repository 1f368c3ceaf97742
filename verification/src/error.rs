use vstd::prelude::*;

verus! {

/// Errors surfaced by the instruction codec and the instruction builders.
#[derive(Clone, Copy, Debug, PartialEq, Eq, Structural)]
pub enum TokenError {
    /// Malformed or unrecognized encoding: empty input, unknown tag,
    /// truncated fixed-width field, or a bad discriminant byte.
    InvalidInstruction,
    /// The multisignature signer-count bounds were violated.
    MissingRequiredSignature,
    /// The target program identifier is not the token program's.
    IncorrectProgramId,
}

} // verus!
