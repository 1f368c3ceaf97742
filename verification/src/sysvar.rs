//! The well-known sysvar identifiers that instruction envelopes reference.
use vstd::prelude::*;

use crate::pubkey::Pubkey;

verus! {

/// The rent sysvar's identifier, as 32 bytes: the base58 decoding of the
/// fixed address `SysvarRent111111111111111111111111111111111`, under
/// which the runtime exposes rent configuration.
pub open spec fn spec_rent_sysvar_id() -> Seq<u8> {
    seq![
        6u8, 167u8, 213u8, 23u8, 25u8, 44u8, 92u8, 81u8,
        33u8, 140u8, 201u8, 76u8, 61u8, 74u8, 241u8, 127u8,
        88u8, 218u8, 238u8, 8u8, 155u8, 161u8, 253u8, 68u8,
        227u8, 219u8, 217u8, 138u8, 0u8, 0u8, 0u8, 0u8,
    ]
}

/// Relies on `solana_program::sysvar::rent::id()`: the fixed constant
/// address declared as `SysvarRent111111111111111111111111111111111`,
/// whose base58 decoding is the 32 bytes of `spec_rent_sysvar_id`.
#[verifier::external_body]
#[allow(deprecated)]
pub(crate) fn rent_id() -> (r: Pubkey)
    ensures
        r@ == spec_rent_sysvar_id(),
{
    let key = solana_program::sysvar::rent::id();
    Pubkey::new_from_array(key.to_bytes())
}

} // verus!
