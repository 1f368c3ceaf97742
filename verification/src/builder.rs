//! One constructor per operation: each validates its constraints, packs
//! the payload through the codec, and assembles the ordered
//! account-reference list per that operation's convention.
use vstd::prelude::*;

use crate::check_program_account;
use crate::envelope::{
    append_authority_metas, append_readonly_metas, meta_v, metas_v, signer_views,
    spec_authority_metas, spec_multisig_metas, AccountMeta, EnvelopeV, Instruction,
};
use crate::error::TokenError;
use crate::instruction::{spec_pack, AuthorityType, InstructionV, TokenInstruction};
use crate::pubkey::{opt_key_view, OptionalPubkey, Pubkey};
use crate::spec_token_program_id;
use crate::sysvar::{rent_id, spec_rent_sysvar_id};

verus! {

/// Minimum number of multisignature signers.
pub const MIN_SIGNERS: usize = 1;

/// Maximum number of multisignature signers.
pub const MAX_SIGNERS: usize = 1;

/// Whether a signer count lies within the protocol's inclusive bounds.
pub open spec fn spec_valid_signer_count(n: int) -> bool {
    MIN_SIGNERS <= n <= MAX_SIGNERS
}

/// Whether a required-signature count `m` and a supplied signer count `n`
/// together form a valid multisignature shape.
pub open spec fn spec_multisig_shape_ok(m: int, n: int) -> bool {
    spec_valid_signer_count(m) && spec_valid_signer_count(n) && m <= n
}

/// Checks that a signer count lies within the protocol's inclusive bounds.
pub fn is_valid_signer_index(index: usize) -> (r: bool)
    ensures
        r == spec_valid_signer_count(index as int),
{
    MIN_SIGNERS <= index && index <= MAX_SIGNERS
}

/// Creates an `InitializeMint` instruction.
pub fn initialize_mint(
    token_program_id: &Pubkey,
    mint_pubkey: &Pubkey,
    mint_authority_pubkey: &Pubkey,
    freeze_authority_pubkey: Option<&Pubkey>,
    decimals: u8,
) -> (r: Result<Instruction, TokenError>)
    ensures
        token_program_id@ != spec_token_program_id() ==> (r matches Err(e) && e
            == TokenError::IncorrectProgramId),
        token_program_id@ == spec_token_program_id() ==> (r matches Ok(ix) && ix@ == (EnvelopeV {
            program_id: token_program_id@,
            accounts: seq![
                meta_v(mint_pubkey@, false, true),
                meta_v(spec_rent_sysvar_id(), false, false),
            ],
            data: spec_pack(
                InstructionV::InitializeMint {
                    decimals,
                    mint_authority: mint_authority_pubkey@,
                    freeze_authority: opt_key_view(freeze_authority_pubkey),
                },
            ),
        })),
{
    check_program_account(token_program_id)?;
    let freeze_authority = match freeze_authority_pubkey {
        Some(key) => OptionalPubkey::Present(*key),
        None => OptionalPubkey::Absent,
    };
    let data = (TokenInstruction::InitializeMint {
        mint_authority: *mint_authority_pubkey,
        freeze_authority,
        decimals,
    }).pack();

    let mut accounts: Vec<AccountMeta> = Vec::new();
    accounts.push(AccountMeta::new(*mint_pubkey, false));
    accounts.push(AccountMeta::new_readonly(rent_id(), false));
    proof {
        assert(metas_v(accounts@) =~= seq![
            meta_v(mint_pubkey@, false, true),
            meta_v(spec_rent_sysvar_id(), false, false),
        ]);
    }

    Ok(Instruction { program_id: *token_program_id, accounts, data })
}

/// Creates an `InitializeAccount` instruction.
pub fn initialize_account(
    token_program_id: &Pubkey,
    account_pubkey: &Pubkey,
    mint_pubkey: &Pubkey,
    owner_pubkey: &Pubkey,
) -> (r: Result<Instruction, TokenError>)
    ensures
        token_program_id@ != spec_token_program_id() ==> (r matches Err(e) && e
            == TokenError::IncorrectProgramId),
        token_program_id@ == spec_token_program_id() ==> (r matches Ok(ix) && ix@ == (EnvelopeV {
            program_id: token_program_id@,
            accounts: seq![
                meta_v(account_pubkey@, false, true),
                meta_v(mint_pubkey@, false, false),
                meta_v(owner_pubkey@, false, false),
                meta_v(spec_rent_sysvar_id(), false, false),
            ],
            data: spec_pack(InstructionV::InitializeAccount),
        })),
{
    check_program_account(token_program_id)?;
    let data = (TokenInstruction::InitializeAccount).pack();

    let mut accounts: Vec<AccountMeta> = Vec::new();
    accounts.push(AccountMeta::new(*account_pubkey, false));
    accounts.push(AccountMeta::new_readonly(*mint_pubkey, false));
    accounts.push(AccountMeta::new_readonly(*owner_pubkey, false));
    accounts.push(AccountMeta::new_readonly(rent_id(), false));
    proof {
        assert(metas_v(accounts@) =~= seq![
            meta_v(account_pubkey@, false, true),
            meta_v(mint_pubkey@, false, false),
            meta_v(owner_pubkey@, false, false),
            meta_v(spec_rent_sysvar_id(), false, false),
        ]);
    }

    Ok(Instruction { program_id: *token_program_id, accounts, data })
}

/// Creates an `InitializeMultisig` instruction.
///
/// Fails with the missing-signature error, before any encoding work, when
/// `m` or the supplied signer count falls outside the protocol's signer
/// bounds or `m` exceeds the signer count.
pub fn initialize_multisig(
    token_program_id: &Pubkey,
    multisig_pubkey: &Pubkey,
    signer_pubkeys: &[&Pubkey],
    m: u8,
) -> (r: Result<Instruction, TokenError>)
    ensures
        token_program_id@ != spec_token_program_id() ==> (r matches Err(e) && e
            == TokenError::IncorrectProgramId),
        token_program_id@ == spec_token_program_id() && !spec_multisig_shape_ok(
            m as int,
            signer_pubkeys@.len() as int,
        ) ==> (r matches Err(e) && e == TokenError::MissingRequiredSignature),
        token_program_id@ == spec_token_program_id() && spec_multisig_shape_ok(
            m as int,
            signer_pubkeys@.len() as int,
        ) ==> (r matches Ok(ix) && ix@ == (EnvelopeV {
            program_id: token_program_id@,
            accounts: seq![
                meta_v(multisig_pubkey@, false, true),
                meta_v(spec_rent_sysvar_id(), false, false),
            ] + spec_multisig_metas(signer_views(signer_pubkeys@)),
            data: spec_pack(InstructionV::InitializeMultisig { m }),
        })),
{
    check_program_account(token_program_id)?;
    if !is_valid_signer_index(m as usize) || !is_valid_signer_index(signer_pubkeys.len())
        || m as usize > signer_pubkeys.len() {
        return Err(TokenError::MissingRequiredSignature);
    }
    let data = (TokenInstruction::InitializeMultisig { m }).pack();

    let mut accounts: Vec<AccountMeta> = Vec::new();
    accounts.push(AccountMeta::new(*multisig_pubkey, false));
    accounts.push(AccountMeta::new_readonly(rent_id(), false));
    let ghost prefix = accounts@;
    proof {
        assert(metas_v(prefix) =~= seq![
            meta_v(multisig_pubkey@, false, true),
            meta_v(spec_rent_sysvar_id(), false, false),
        ]);
    }
    append_readonly_metas(&mut accounts, signer_pubkeys);

    Ok(Instruction { program_id: *token_program_id, accounts, data })
}

/// Creates a `Transfer` instruction.
pub fn transfer(
    token_program_id: &Pubkey,
    source_pubkey: &Pubkey,
    destination_pubkey: &Pubkey,
    authority_pubkey: &Pubkey,
    signer_pubkeys: &[&Pubkey],
    amount: u64,
) -> (r: Result<Instruction, TokenError>)
    ensures
        token_program_id@ != spec_token_program_id() ==> (r matches Err(e) && e
            == TokenError::IncorrectProgramId),
        token_program_id@ == spec_token_program_id() ==> (r matches Ok(ix) && ix@ == (EnvelopeV {
            program_id: token_program_id@,
            accounts: seq![
                meta_v(source_pubkey@, false, true),
                meta_v(destination_pubkey@, false, true),
            ] + spec_authority_metas(authority_pubkey@, signer_views(signer_pubkeys@)),
            data: spec_pack(InstructionV::Transfer { amount }),
        })),
{
    check_program_account(token_program_id)?;
    let data = (TokenInstruction::Transfer { amount }).pack();

    let mut accounts: Vec<AccountMeta> = Vec::new();
    accounts.push(AccountMeta::new(*source_pubkey, false));
    accounts.push(AccountMeta::new(*destination_pubkey, false));
    let ghost prefix = accounts@;
    proof {
        assert(metas_v(prefix) =~= seq![
            meta_v(source_pubkey@, false, true),
            meta_v(destination_pubkey@, false, true),
        ]);
    }
    append_authority_metas(&mut accounts, authority_pubkey, signer_pubkeys);

    Ok(Instruction { program_id: *token_program_id, accounts, data })
}

/// Creates an `InitializeAccount2` instruction.
pub fn initialize_account2(
    token_program_id: &Pubkey,
    account_pubkey: &Pubkey,
    mint_pubkey: &Pubkey,
    owner_pubkey: &Pubkey,
) -> (r: Result<Instruction, TokenError>)
    ensures
        token_program_id@ != spec_token_program_id() ==> (r matches Err(e) && e
            == TokenError::IncorrectProgramId),
        token_program_id@ == spec_token_program_id() ==> (r matches Ok(ix) && ix@ == (EnvelopeV {
            program_id: token_program_id@,
            accounts: seq![
                meta_v(account_pubkey@, false, true),
                meta_v(mint_pubkey@, false, false),
                meta_v(spec_rent_sysvar_id(), false, false),
            ],
            data: spec_pack(InstructionV::InitializeAccount2 { owner: owner_pubkey@ }),
        })),
{
    check_program_account(token_program_id)?;
    let data = (TokenInstruction::InitializeAccount2 { owner: *owner_pubkey }).pack();

    let mut accounts: Vec<AccountMeta> = Vec::new();
    accounts.push(AccountMeta::new(*account_pubkey, false));
    accounts.push(AccountMeta::new_readonly(*mint_pubkey, false));
    accounts.push(AccountMeta::new_readonly(rent_id(), false));
    proof {
        assert(metas_v(accounts@) =~= seq![
            meta_v(account_pubkey@, false, true),
            meta_v(mint_pubkey@, false, false),
            meta_v(spec_rent_sysvar_id(), false, false),
        ]);
    }

    Ok(Instruction { program_id: *token_program_id, accounts, data })
}

/// Creates an `Approve` instruction.
pub fn approve(
    token_program_id: &Pubkey,
    source_pubkey: &Pubkey,
    delegate_pubkey: &Pubkey,
    owner_pubkey: &Pubkey,
    signer_pubkeys: &[&Pubkey],
    amount: u64,
) -> (r: Result<Instruction, TokenError>)
    ensures
        token_program_id@ != spec_token_program_id() ==> (r matches Err(e) && e
            == TokenError::IncorrectProgramId),
        token_program_id@ == spec_token_program_id() ==> (r matches Ok(ix) && ix@ == (EnvelopeV {
            program_id: token_program_id@,
            accounts: seq![
                meta_v(source_pubkey@, false, true),
                meta_v(delegate_pubkey@, false, false),
            ] + spec_authority_metas(owner_pubkey@, signer_views(signer_pubkeys@)),
            data: spec_pack(InstructionV::Approve { amount }),
        })),
{
    check_program_account(token_program_id)?;
    let data = (TokenInstruction::Approve { amount }).pack();

    let mut accounts: Vec<AccountMeta> = Vec::new();
    accounts.push(AccountMeta::new(*source_pubkey, false));
    accounts.push(AccountMeta::new_readonly(*delegate_pubkey, false));
    let ghost prefix = accounts@;
    proof {
        assert(metas_v(prefix) =~= seq![
            meta_v(source_pubkey@, false, true),
            meta_v(delegate_pubkey@, false, false),
        ]);
    }
    append_authority_metas(&mut accounts, owner_pubkey, signer_pubkeys);

    Ok(Instruction { program_id: *token_program_id, accounts, data })
}

/// Creates a `Revoke` instruction.
pub fn revoke(
    token_program_id: &Pubkey,
    source_pubkey: &Pubkey,
    owner_pubkey: &Pubkey,
    signer_pubkeys: &[&Pubkey],
) -> (r: Result<Instruction, TokenError>)
    ensures
        token_program_id@ != spec_token_program_id() ==> (r matches Err(e) && e
            == TokenError::IncorrectProgramId),
        token_program_id@ == spec_token_program_id() ==> (r matches Ok(ix) && ix@ == (EnvelopeV {
            program_id: token_program_id@,
            accounts: seq![
                meta_v(source_pubkey@, false, true),
            ] + spec_authority_metas(owner_pubkey@, signer_views(signer_pubkeys@)),
            data: spec_pack(InstructionV::Revoke),
        })),
{
    check_program_account(token_program_id)?;
    let data = (TokenInstruction::Revoke).pack();

    let mut accounts: Vec<AccountMeta> = Vec::new();
    accounts.push(AccountMeta::new(*source_pubkey, false));
    let ghost prefix = accounts@;
    proof {
        assert(metas_v(prefix) =~= seq![
            meta_v(source_pubkey@, false, true),
        ]);
    }
    append_authority_metas(&mut accounts, owner_pubkey, signer_pubkeys);

    Ok(Instruction { program_id: *token_program_id, accounts, data })
}

/// Creates a `SetAuthority` instruction.
pub fn set_authority(
    token_program_id: &Pubkey,
    owned_pubkey: &Pubkey,
    new_authority_pubkey: Option<&Pubkey>,
    authority_type: AuthorityType,
    owner_pubkey: &Pubkey,
    signer_pubkeys: &[&Pubkey],
) -> (r: Result<Instruction, TokenError>)
    ensures
        token_program_id@ != spec_token_program_id() ==> (r matches Err(e) && e
            == TokenError::IncorrectProgramId),
        token_program_id@ == spec_token_program_id() ==> (r matches Ok(ix) && ix@ == (EnvelopeV {
            program_id: token_program_id@,
            accounts: seq![
                meta_v(owned_pubkey@, false, true),
            ] + spec_authority_metas(owner_pubkey@, signer_views(signer_pubkeys@)),
            data: spec_pack(
                InstructionV::SetAuthority {
                    authority_type,
                    new_authority: opt_key_view(new_authority_pubkey),
                },
            ),
        })),
{
    check_program_account(token_program_id)?;
    let new_authority = match new_authority_pubkey {
        Some(key) => OptionalPubkey::Present(*key),
        None => OptionalPubkey::Absent,
    };
    let data = (TokenInstruction::SetAuthority { authority_type, new_authority }).pack();

    let mut accounts: Vec<AccountMeta> = Vec::new();
    accounts.push(AccountMeta::new(*owned_pubkey, false));
    let ghost prefix = accounts@;
    proof {
        assert(metas_v(prefix) =~= seq![
            meta_v(owned_pubkey@, false, true),
        ]);
    }
    append_authority_metas(&mut accounts, owner_pubkey, signer_pubkeys);

    Ok(Instruction { program_id: *token_program_id, accounts, data })
}

/// Creates a `MintTo` instruction.
pub fn mint_to(
    token_program_id: &Pubkey,
    mint_pubkey: &Pubkey,
    account_pubkey: &Pubkey,
    owner_pubkey: &Pubkey,
    signer_pubkeys: &[&Pubkey],
    amount: u64,
) -> (r: Result<Instruction, TokenError>)
    ensures
        token_program_id@ != spec_token_program_id() ==> (r matches Err(e) && e
            == TokenError::IncorrectProgramId),
        token_program_id@ == spec_token_program_id() ==> (r matches Ok(ix) && ix@ == (EnvelopeV {
            program_id: token_program_id@,
            accounts: seq![
                meta_v(mint_pubkey@, false, true),
                meta_v(account_pubkey@, false, true),
            ] + spec_authority_metas(owner_pubkey@, signer_views(signer_pubkeys@)),
            data: spec_pack(InstructionV::MintTo { amount }),
        })),
{
    check_program_account(token_program_id)?;
    let data = (TokenInstruction::MintTo { amount }).pack();

    let mut accounts: Vec<AccountMeta> = Vec::new();
    accounts.push(AccountMeta::new(*mint_pubkey, false));
    accounts.push(AccountMeta::new(*account_pubkey, false));
    let ghost prefix = accounts@;
    proof {
        assert(metas_v(prefix) =~= seq![
            meta_v(mint_pubkey@, false, true),
            meta_v(account_pubkey@, false, true),
        ]);
    }
    append_authority_metas(&mut accounts, owner_pubkey, signer_pubkeys);

    Ok(Instruction { program_id: *token_program_id, accounts, data })
}

/// Creates a `Burn` instruction.
pub fn burn(
    token_program_id: &Pubkey,
    account_pubkey: &Pubkey,
    mint_pubkey: &Pubkey,
    authority_pubkey: &Pubkey,
    signer_pubkeys: &[&Pubkey],
    amount: u64,
) -> (r: Result<Instruction, TokenError>)
    ensures
        token_program_id@ != spec_token_program_id() ==> (r matches Err(e) && e
            == TokenError::IncorrectProgramId),
        token_program_id@ == spec_token_program_id() ==> (r matches Ok(ix) && ix@ == (EnvelopeV {
            program_id: token_program_id@,
            accounts: seq![
                meta_v(account_pubkey@, false, true),
                meta_v(mint_pubkey@, false, true),
            ] + spec_authority_metas(authority_pubkey@, signer_views(signer_pubkeys@)),
            data: spec_pack(InstructionV::Burn { amount }),
        })),
{
    check_program_account(token_program_id)?;
    let data = (TokenInstruction::Burn { amount }).pack();

    let mut accounts: Vec<AccountMeta> = Vec::new();
    accounts.push(AccountMeta::new(*account_pubkey, false));
    accounts.push(AccountMeta::new(*mint_pubkey, false));
    let ghost prefix = accounts@;
    proof {
        assert(metas_v(prefix) =~= seq![
            meta_v(account_pubkey@, false, true),
            meta_v(mint_pubkey@, false, true),
        ]);
    }
    append_authority_metas(&mut accounts, authority_pubkey, signer_pubkeys);

    Ok(Instruction { program_id: *token_program_id, accounts, data })
}

/// Creates a `CloseAccount` instruction.
pub fn close_account(
    token_program_id: &Pubkey,
    account_pubkey: &Pubkey,
    destination_pubkey: &Pubkey,
    owner_pubkey: &Pubkey,
    signer_pubkeys: &[&Pubkey],
) -> (r: Result<Instruction, TokenError>)
    ensures
        token_program_id@ != spec_token_program_id() ==> (r matches Err(e) && e
            == TokenError::IncorrectProgramId),
        token_program_id@ == spec_token_program_id() ==> (r matches Ok(ix) && ix@ == (EnvelopeV {
            program_id: token_program_id@,
            accounts: seq![
                meta_v(account_pubkey@, false, true),
                meta_v(destination_pubkey@, false, true),
            ] + spec_authority_metas(owner_pubkey@, signer_views(signer_pubkeys@)),
            data: spec_pack(InstructionV::CloseAccount),
        })),
{
    check_program_account(token_program_id)?;
    let data = (TokenInstruction::CloseAccount).pack();

    let mut accounts: Vec<AccountMeta> = Vec::new();
    accounts.push(AccountMeta::new(*account_pubkey, false));
    accounts.push(AccountMeta::new(*destination_pubkey, false));
    let ghost prefix = accounts@;
    proof {
        assert(metas_v(prefix) =~= seq![
            meta_v(account_pubkey@, false, true),
            meta_v(destination_pubkey@, false, true),
        ]);
    }
    append_authority_metas(&mut accounts, owner_pubkey, signer_pubkeys);

    Ok(Instruction { program_id: *token_program_id, accounts, data })
}

/// Creates a `FreezeAccount` instruction.
pub fn freeze_account(
    token_program_id: &Pubkey,
    account_pubkey: &Pubkey,
    mint_pubkey: &Pubkey,
    owner_pubkey: &Pubkey,
    signer_pubkeys: &[&Pubkey],
) -> (r: Result<Instruction, TokenError>)
    ensures
        token_program_id@ != spec_token_program_id() ==> (r matches Err(e) && e
            == TokenError::IncorrectProgramId),
        token_program_id@ == spec_token_program_id() ==> (r matches Ok(ix) && ix@ == (EnvelopeV {
            program_id: token_program_id@,
            accounts: seq![
                meta_v(account_pubkey@, false, true),
                meta_v(mint_pubkey@, false, false),
            ] + spec_authority_metas(owner_pubkey@, signer_views(signer_pubkeys@)),
            data: spec_pack(InstructionV::FreezeAccount),
        })),
{
    check_program_account(token_program_id)?;
    let data = (TokenInstruction::FreezeAccount).pack();

    let mut accounts: Vec<AccountMeta> = Vec::new();
    accounts.push(AccountMeta::new(*account_pubkey, false));
    accounts.push(AccountMeta::new_readonly(*mint_pubkey, false));
    let ghost prefix = accounts@;
    proof {
        assert(metas_v(prefix) =~= seq![
            meta_v(account_pubkey@, false, true),
            meta_v(mint_pubkey@, false, false),
        ]);
    }
    append_authority_metas(&mut accounts, owner_pubkey, signer_pubkeys);

    Ok(Instruction { program_id: *token_program_id, accounts, data })
}

/// Creates a `ThawAccount` instruction.
pub fn thaw_account(
    token_program_id: &Pubkey,
    account_pubkey: &Pubkey,
    mint_pubkey: &Pubkey,
    owner_pubkey: &Pubkey,
    signer_pubkeys: &[&Pubkey],
) -> (r: Result<Instruction, TokenError>)
    ensures
        token_program_id@ != spec_token_program_id() ==> (r matches Err(e) && e
            == TokenError::IncorrectProgramId),
        token_program_id@ == spec_token_program_id() ==> (r matches Ok(ix) && ix@ == (EnvelopeV {
            program_id: token_program_id@,
            accounts: seq![
                meta_v(account_pubkey@, false, true),
                meta_v(mint_pubkey@, false, false),
            ] + spec_authority_metas(owner_pubkey@, signer_views(signer_pubkeys@)),
            data: spec_pack(InstructionV::ThawAccount),
        })),
{
    check_program_account(token_program_id)?;
    let data = (TokenInstruction::ThawAccount).pack();

    let mut accounts: Vec<AccountMeta> = Vec::new();
    accounts.push(AccountMeta::new(*account_pubkey, false));
    accounts.push(AccountMeta::new_readonly(*mint_pubkey, false));
    let ghost prefix = accounts@;
    proof {
        assert(metas_v(prefix) =~= seq![
            meta_v(account_pubkey@, false, true),
            meta_v(mint_pubkey@, false, false),
        ]);
    }
    append_authority_metas(&mut accounts, owner_pubkey, signer_pubkeys);

    Ok(Instruction { program_id: *token_program_id, accounts, data })
}

/// Creates a `TransferChecked` instruction.
pub fn transfer_checked(
    token_program_id: &Pubkey,
    source_pubkey: &Pubkey,
    mint_pubkey: &Pubkey,
    destination_pubkey: &Pubkey,
    authority_pubkey: &Pubkey,
    signer_pubkeys: &[&Pubkey],
    amount: u64,
    decimals: u8,
) -> (r: Result<Instruction, TokenError>)
    ensures
        token_program_id@ != spec_token_program_id() ==> (r matches Err(e) && e
            == TokenError::IncorrectProgramId),
        token_program_id@ == spec_token_program_id() ==> (r matches Ok(ix) && ix@ == (EnvelopeV {
            program_id: token_program_id@,
            accounts: seq![
                meta_v(source_pubkey@, false, true),
                meta_v(mint_pubkey@, false, false),
                meta_v(destination_pubkey@, false, true),
            ] + spec_authority_metas(authority_pubkey@, signer_views(signer_pubkeys@)),
            data: spec_pack(InstructionV::TransferChecked { amount, decimals }),
        })),
{
    check_program_account(token_program_id)?;
    let data = (TokenInstruction::TransferChecked { amount, decimals }).pack();

    let mut accounts: Vec<AccountMeta> = Vec::new();
    accounts.push(AccountMeta::new(*source_pubkey, false));
    accounts.push(AccountMeta::new_readonly(*mint_pubkey, false));
    accounts.push(AccountMeta::new(*destination_pubkey, false));
    let ghost prefix = accounts@;
    proof {
        assert(metas_v(prefix) =~= seq![
            meta_v(source_pubkey@, false, true),
            meta_v(mint_pubkey@, false, false),
            meta_v(destination_pubkey@, false, true),
        ]);
    }
    append_authority_metas(&mut accounts, authority_pubkey, signer_pubkeys);

    Ok(Instruction { program_id: *token_program_id, accounts, data })
}

/// Creates an `ApproveChecked` instruction.
pub fn approve_checked(
    token_program_id: &Pubkey,
    source_pubkey: &Pubkey,
    mint_pubkey: &Pubkey,
    delegate_pubkey: &Pubkey,
    owner_pubkey: &Pubkey,
    signer_pubkeys: &[&Pubkey],
    amount: u64,
    decimals: u8,
) -> (r: Result<Instruction, TokenError>)
    ensures
        token_program_id@ != spec_token_program_id() ==> (r matches Err(e) && e
            == TokenError::IncorrectProgramId),
        token_program_id@ == spec_token_program_id() ==> (r matches Ok(ix) && ix@ == (EnvelopeV {
            program_id: token_program_id@,
            accounts: seq![
                meta_v(source_pubkey@, false, true),
                meta_v(mint_pubkey@, false, false),
                meta_v(delegate_pubkey@, false, false),
            ] + spec_authority_metas(owner_pubkey@, signer_views(signer_pubkeys@)),
            data: spec_pack(InstructionV::ApproveChecked { amount, decimals }),
        })),
{
    check_program_account(token_program_id)?;
    let data = (TokenInstruction::ApproveChecked { amount, decimals }).pack();

    let mut accounts: Vec<AccountMeta> = Vec::new();
    accounts.push(AccountMeta::new(*source_pubkey, false));
    accounts.push(AccountMeta::new_readonly(*mint_pubkey, false));
    accounts.push(AccountMeta::new_readonly(*delegate_pubkey, false));
    let ghost prefix = accounts@;
    proof {
        assert(metas_v(prefix) =~= seq![
            meta_v(source_pubkey@, false, true),
            meta_v(mint_pubkey@, false, false),
            meta_v(delegate_pubkey@, false, false),
        ]);
    }
    append_authority_metas(&mut accounts, owner_pubkey, signer_pubkeys);

    Ok(Instruction { program_id: *token_program_id, accounts, data })
}

/// Creates a `MintToChecked` instruction.
pub fn mint_to_checked(
    token_program_id: &Pubkey,
    mint_pubkey: &Pubkey,
    account_pubkey: &Pubkey,
    owner_pubkey: &Pubkey,
    signer_pubkeys: &[&Pubkey],
    amount: u64,
    decimals: u8,
) -> (r: Result<Instruction, TokenError>)
    ensures
        token_program_id@ != spec_token_program_id() ==> (r matches Err(e) && e
            == TokenError::IncorrectProgramId),
        token_program_id@ == spec_token_program_id() ==> (r matches Ok(ix) && ix@ == (EnvelopeV {
            program_id: token_program_id@,
            accounts: seq![
                meta_v(mint_pubkey@, false, true),
                meta_v(account_pubkey@, false, true),
            ] + spec_authority_metas(owner_pubkey@, signer_views(signer_pubkeys@)),
            data: spec_pack(InstructionV::MintToChecked { amount, decimals }),
        })),
{
    check_program_account(token_program_id)?;
    let data = (TokenInstruction::MintToChecked { amount, decimals }).pack();

    let mut accounts: Vec<AccountMeta> = Vec::new();
    accounts.push(AccountMeta::new(*mint_pubkey, false));
    accounts.push(AccountMeta::new(*account_pubkey, false));
    let ghost prefix = accounts@;
    proof {
        assert(metas_v(prefix) =~= seq![
            meta_v(mint_pubkey@, false, true),
            meta_v(account_pubkey@, false, true),
        ]);
    }
    append_authority_metas(&mut accounts, owner_pubkey, signer_pubkeys);

    Ok(Instruction { program_id: *token_program_id, accounts, data })
}

/// Creates a `BurnChecked` instruction.
pub fn burn_checked(
    token_program_id: &Pubkey,
    account_pubkey: &Pubkey,
    mint_pubkey: &Pubkey,
    authority_pubkey: &Pubkey,
    signer_pubkeys: &[&Pubkey],
    amount: u64,
    decimals: u8,
) -> (r: Result<Instruction, TokenError>)
    ensures
        token_program_id@ != spec_token_program_id() ==> (r matches Err(e) && e
            == TokenError::IncorrectProgramId),
        token_program_id@ == spec_token_program_id() ==> (r matches Ok(ix) && ix@ == (EnvelopeV {
            program_id: token_program_id@,
            accounts: seq![
                meta_v(account_pubkey@, false, true),
                meta_v(mint_pubkey@, false, true),
            ] + spec_authority_metas(authority_pubkey@, signer_views(signer_pubkeys@)),
            data: spec_pack(InstructionV::BurnChecked { amount, decimals }),
        })),
{
    check_program_account(token_program_id)?;
    let data = (TokenInstruction::BurnChecked { amount, decimals }).pack();

    let mut accounts: Vec<AccountMeta> = Vec::new();
    accounts.push(AccountMeta::new(*account_pubkey, false));
    accounts.push(AccountMeta::new(*mint_pubkey, false));
    let ghost prefix = accounts@;
    proof {
        assert(metas_v(prefix) =~= seq![
            meta_v(account_pubkey@, false, true),
            meta_v(mint_pubkey@, false, true),
        ]);
    }
    append_authority_metas(&mut accounts, authority_pubkey, signer_pubkeys);

    Ok(Instruction { program_id: *token_program_id, accounts, data })
}

} // verus!
