use spl_token::builder::{
    approve, approve_checked, burn, burn_checked, close_account, freeze_account,
    initialize_account, initialize_account2, initialize_mint, initialize_multisig, is_valid_signer_index,
    mint_to, mint_to_checked, revoke, set_authority, thaw_account, transfer, transfer_checked,
    MAX_SIGNERS, MIN_SIGNERS,
};
use spl_token::check_program_account;
use spl_token::error::TokenError;
use spl_token::id;
use spl_token::instruction::AuthorityType;
use spl_token::pubkey::Pubkey;

fn key(byte: u8) -> Pubkey {
    Pubkey::new(&[byte; 32])
}

#[test]
fn test_program_id_check() {
    assert_eq!(check_program_account(&id()), Ok(()));
    assert_eq!(
        check_program_account(&key(9)),
        Err(TokenError::IncorrectProgramId)
    );
    // A builder called with a foreign program identifier short-circuits.
    assert_eq!(
        transfer(&key(9), &key(1), &key(2), &key(3), &[], 1),
        Err(TokenError::IncorrectProgramId)
    );
}

#[test]
fn test_rent_sysvar_matches_runtime_constant() {
    // The rent reference a builder inserts must be the runtime's own
    // rent sysvar address, byte for byte.
    let ix = initialize_mint(&id(), &key(1), &key(2), None, 2).unwrap();
    let expected = solana_program::sysvar::rent::id().to_bytes();
    assert_eq!(ix.accounts[1].pubkey.to_bytes(), expected);
}

#[test]
fn test_signer_index_bounds() {
    assert!(!is_valid_signer_index(MIN_SIGNERS - 1));
    assert!(is_valid_signer_index(MIN_SIGNERS));
    assert!(is_valid_signer_index(MAX_SIGNERS));
    assert!(!is_valid_signer_index(MAX_SIGNERS + 1));
}

#[test]
fn test_initialize_mint_shape() {
    let ix = initialize_mint(&id(), &key(1), &key(2), None, 2).unwrap();
    assert_eq!(ix.program_id, id());
    assert_eq!(ix.accounts.len(), 2);
    assert_eq!(ix.accounts[0].pubkey, key(1));
    assert!(ix.accounts[0].is_writable);
    assert!(!ix.accounts[0].is_signer);
    assert!(!ix.accounts[1].is_writable);
    assert!(!ix.accounts[1].is_signer);
    let mut expect = vec![0u8, 2];
    expect.extend_from_slice(&[2u8; 32]);
    expect.push(0);
    assert_eq!(ix.data, expect);

    let ix = initialize_mint(&id(), &key(1), &key(2), Some(&key(3)), 9).unwrap();
    let mut expect = vec![0u8, 9];
    expect.extend_from_slice(&[2u8; 32]);
    expect.push(1);
    expect.extend_from_slice(&[3u8; 32]);
    assert_eq!(ix.data, expect);
}

#[test]
fn test_initialize_account_shape() {
    let ix = initialize_account(&id(), &key(1), &key(2), &key(3)).unwrap();
    assert_eq!(ix.data, vec![1u8]);
    assert_eq!(ix.accounts.len(), 4);
    assert_eq!(ix.accounts[0].pubkey, key(1));
    assert!(ix.accounts[0].is_writable);
    assert_eq!(ix.accounts[1].pubkey, key(2));
    assert!(!ix.accounts[1].is_writable);
    assert_eq!(ix.accounts[2].pubkey, key(3));
    assert!(!ix.accounts[2].is_writable);
    assert!(!ix.accounts[3].is_writable);
}

#[test]
fn test_initialize_account2_shape() {
    let ix = initialize_account2(&id(), &key(1), &key(2), &key(3)).unwrap();
    let mut expect = vec![16u8];
    expect.extend_from_slice(&[3u8; 32]);
    assert_eq!(ix.data, expect);
    // The owner travels in the payload: only three references remain.
    assert_eq!(ix.accounts.len(), 3);
    assert_eq!(ix.accounts[0].pubkey, key(1));
    assert_eq!(ix.accounts[1].pubkey, key(2));
}

#[test]
fn test_initialize_multisig_bounds() {
    let signer = key(3);
    let signers: Vec<&Pubkey> = vec![&signer];
    // m below the minimum.
    assert_eq!(
        initialize_multisig(&id(), &key(1), &signers, 0),
        Err(TokenError::MissingRequiredSignature)
    );
    // m above the maximum.
    assert_eq!(
        initialize_multisig(&id(), &key(1), &signers, 2),
        Err(TokenError::MissingRequiredSignature)
    );
    // No signers supplied.
    assert_eq!(
        initialize_multisig(&id(), &key(1), &[], 1),
        Err(TokenError::MissingRequiredSignature)
    );
    // More signers than the maximum.
    let other = key(4);
    let two: Vec<&Pubkey> = vec![&signer, &other];
    assert_eq!(
        initialize_multisig(&id(), &key(1), &two, 1),
        Err(TokenError::MissingRequiredSignature)
    );
    // The program identifier is checked before the bounds.
    assert_eq!(
        initialize_multisig(&key(9), &key(1), &signers, 0),
        Err(TokenError::IncorrectProgramId)
    );
}

#[test]
fn test_initialize_multisig_shape() {
    let signer = key(3);
    let signers: Vec<&Pubkey> = vec![&signer];
    let ix = initialize_multisig(&id(), &key(1), &signers, 1).unwrap();
    assert_eq!(ix.data, vec![2u8, 1]);
    assert_eq!(ix.accounts.len(), 3);
    assert_eq!(ix.accounts[0].pubkey, key(1));
    assert!(ix.accounts[0].is_writable);
    // The multisig's signer references are read-only and are not marked
    // as transaction signers.
    assert_eq!(ix.accounts[2].pubkey, key(3));
    assert!(!ix.accounts[2].is_signer);
    assert!(!ix.accounts[2].is_writable);
}

#[test]
fn test_transfer_single_owner() {
    let ix = transfer(&id(), &key(1), &key(2), &key(3), &[], 1).unwrap();
    assert_eq!(ix.data, vec![3u8, 1, 0, 0, 0, 0, 0, 0, 0]);
    assert_eq!(ix.accounts.len(), 3);
    assert!(ix.accounts[0].is_writable);
    assert!(ix.accounts[1].is_writable);
    // Single-signer form: the authority reference itself signs.
    assert_eq!(ix.accounts[2].pubkey, key(3));
    assert!(ix.accounts[2].is_signer);
    assert!(!ix.accounts[2].is_writable);
}

#[test]
fn test_transfer_multisig_owner() {
    let first = key(4);
    let second = key(5);
    let signers: Vec<&Pubkey> = vec![&first, &second];
    let ix = transfer(&id(), &key(1), &key(2), &key(3), &signers, 7).unwrap();
    assert_eq!(ix.accounts.len(), 5);
    // Multisignature form: the authority reference does not sign.
    assert_eq!(ix.accounts[2].pubkey, key(3));
    assert!(!ix.accounts[2].is_signer);
    // Each trailing identifier becomes a read-only signer, in order.
    assert_eq!(ix.accounts[3].pubkey, key(4));
    assert!(ix.accounts[3].is_signer);
    assert!(!ix.accounts[3].is_writable);
    assert_eq!(ix.accounts[4].pubkey, key(5));
    assert!(ix.accounts[4].is_signer);
    assert!(!ix.accounts[4].is_writable);
}

#[test]
fn test_approve_shape() {
    let ix = approve(&id(), &key(1), &key(2), &key(3), &[], 5).unwrap();
    assert_eq!(ix.data, vec![4u8, 5, 0, 0, 0, 0, 0, 0, 0]);
    assert_eq!(ix.accounts.len(), 3);
    assert!(ix.accounts[0].is_writable);
    assert!(!ix.accounts[1].is_writable);
    assert!(ix.accounts[2].is_signer);
}

#[test]
fn test_revoke_shape() {
    let ix = revoke(&id(), &key(1), &key(2), &[]).unwrap();
    assert_eq!(ix.data, vec![5u8]);
    assert_eq!(ix.accounts.len(), 2);
    assert!(ix.accounts[0].is_writable);
    assert!(ix.accounts[1].is_signer);
}

#[test]
fn test_set_authority_shape() {
    let ix = set_authority(
        &id(),
        &key(1),
        Some(&key(2)),
        AuthorityType::FreezeAccount,
        &key(3),
        &[],
    )
    .unwrap();
    let mut expect = vec![6u8, 1, 1];
    expect.extend_from_slice(&[2u8; 32]);
    assert_eq!(ix.data, expect);
    assert_eq!(ix.accounts.len(), 2);
    assert!(ix.accounts[0].is_writable);
    assert!(ix.accounts[1].is_signer);

    let ix = set_authority(&id(), &key(1), None, AuthorityType::AccountOwner, &key(3), &[])
        .unwrap();
    assert_eq!(ix.data, vec![6u8, 2, 0]);
}

#[test]
fn test_mint_to_shape() {
    let ix = mint_to(&id(), &key(1), &key(2), &key(3), &[], 3).unwrap();
    assert_eq!(ix.data, vec![7u8, 3, 0, 0, 0, 0, 0, 0, 0]);
    assert_eq!(ix.accounts.len(), 3);
    assert!(ix.accounts[0].is_writable);
    assert!(ix.accounts[1].is_writable);
    assert!(ix.accounts[2].is_signer);
}

#[test]
fn test_burn_shape() {
    let ix = burn(&id(), &key(1), &key(2), &key(3), &[], 3).unwrap();
    assert_eq!(ix.data, vec![8u8, 3, 0, 0, 0, 0, 0, 0, 0]);
    assert_eq!(ix.accounts.len(), 3);
    assert!(ix.accounts[0].is_writable);
    assert!(ix.accounts[1].is_writable);
    assert!(ix.accounts[2].is_signer);
}

#[test]
fn test_close_account_shape() {
    let ix = close_account(&id(), &key(1), &key(2), &key(3), &[]).unwrap();
    assert_eq!(ix.data, vec![9u8]);
    assert_eq!(ix.accounts.len(), 3);
    assert!(ix.accounts[0].is_writable);
    assert!(ix.accounts[1].is_writable);
    assert!(ix.accounts[2].is_signer);
}

#[test]
fn test_freeze_and_thaw_shape() {
    let ix = freeze_account(&id(), &key(1), &key(2), &key(3), &[]).unwrap();
    assert_eq!(ix.data, vec![10u8]);
    assert_eq!(ix.accounts.len(), 3);
    assert!(ix.accounts[0].is_writable);
    assert!(!ix.accounts[1].is_writable);
    assert!(ix.accounts[2].is_signer);

    let ix = thaw_account(&id(), &key(1), &key(2), &key(3), &[]).unwrap();
    assert_eq!(ix.data, vec![11u8]);
    assert_eq!(ix.accounts.len(), 3);
    assert!(!ix.accounts[1].is_writable);
}

#[test]
fn test_transfer_checked_shape() {
    let ix = transfer_checked(&id(), &key(1), &key(2), &key(3), &key(4), &[], 1, 2).unwrap();
    assert_eq!(ix.data, vec![12u8, 1, 0, 0, 0, 0, 0, 0, 0, 2]);
    assert_eq!(ix.accounts.len(), 4);
    assert!(ix.accounts[0].is_writable);
    assert!(!ix.accounts[1].is_writable);
    assert!(ix.accounts[2].is_writable);
    assert!(ix.accounts[3].is_signer);
}

#[test]
fn test_approve_checked_shape() {
    let ix = approve_checked(&id(), &key(1), &key(2), &key(3), &key(4), &[], 1, 2).unwrap();
    assert_eq!(ix.data, vec![13u8, 1, 0, 0, 0, 0, 0, 0, 0, 2]);
    assert_eq!(ix.accounts.len(), 4);
    assert!(ix.accounts[0].is_writable);
    assert!(!ix.accounts[1].is_writable);
    assert!(!ix.accounts[2].is_writable);
    assert!(ix.accounts[3].is_signer);
}

#[test]
fn test_mint_to_checked_shape() {
    let ix = mint_to_checked(&id(), &key(1), &key(2), &key(3), &[], 1, 2).unwrap();
    assert_eq!(ix.data, vec![14u8, 1, 0, 0, 0, 0, 0, 0, 0, 2]);
    assert_eq!(ix.accounts.len(), 3);
    assert!(ix.accounts[0].is_writable);
    assert!(ix.accounts[1].is_writable);
    assert!(ix.accounts[2].is_signer);
}

#[test]
fn test_burn_checked_shape() {
    let ix = burn_checked(&id(), &key(1), &key(2), &key(3), &[], 1, 2).unwrap();
    assert_eq!(ix.data, vec![15u8, 1, 0, 0, 0, 0, 0, 0, 0, 2]);
    assert_eq!(ix.accounts.len(), 3);
    assert!(ix.accounts[0].is_writable);
    assert!(ix.accounts[1].is_writable);
    assert!(ix.accounts[2].is_signer);
}
