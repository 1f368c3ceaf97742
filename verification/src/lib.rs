//! Instruction codec and instruction builders for the token program's
//! binary wire format: a tag-dispatched encoding of the operation catalog,
//! plus per-operation account-reference-list construction.
use vstd::prelude::*;

pub mod builder;
pub mod envelope;
pub mod error;
pub mod instruction;
pub mod pubkey;
pub mod sysvar;

use crate::error::TokenError;
use crate::pubkey::Pubkey;

verus! {

/// The token program's identifier, as 32 bytes: the base58 decoding of
/// the well-known address `TokenkegQfeZyiNwAJbNbGKPFXCWuBvf9Ss623VQ5DA`.
pub open spec fn spec_token_program_id() -> Seq<u8> {
    seq![
        6u8, 221u8, 246u8, 225u8, 215u8, 101u8, 161u8, 147u8,
        217u8, 203u8, 225u8, 70u8, 206u8, 235u8, 121u8, 172u8,
        28u8, 180u8, 133u8, 237u8, 95u8, 91u8, 55u8, 145u8,
        58u8, 140u8, 245u8, 133u8, 126u8, 255u8, 0u8, 169u8,
    ]
}

/// The token program's identifier.
pub fn id() -> (r: Pubkey)
    ensures
        r@ == spec_token_program_id(),
{
    let bytes: [u8; 32] = [
        6u8, 221u8, 246u8, 225u8, 215u8, 101u8, 161u8, 147u8,
        217u8, 203u8, 225u8, 70u8, 206u8, 235u8, 121u8, 172u8,
        28u8, 180u8, 133u8, 237u8, 95u8, 91u8, 55u8, 145u8,
        58u8, 140u8, 245u8, 133u8, 126u8, 255u8, 0u8, 169u8,
    ];
    proof {
        assert(bytes@ =~= spec_token_program_id());
    }
    Pubkey::new_from_array(bytes)
}

/// Confirms that the given identifier is the token program's own.
pub fn check_program_account(spl_token_program_id: &Pubkey) -> (r: Result<(), TokenError>)
    ensures
        spl_token_program_id@ == spec_token_program_id() ==> r is Ok,
        spl_token_program_id@ != spec_token_program_id() ==> (r matches Err(e)
            && e == TokenError::IncorrectProgramId),
{
    let expected = id();
    if spl_token_program_id.eq_bytes(&expected) {
        Ok(())
    } else {
        Err(TokenError::IncorrectProgramId)
    }
}

} // verus!
