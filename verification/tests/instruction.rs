use spl_token::error::TokenError;
use spl_token::instruction::{AuthorityType, TokenInstruction};
use spl_token::pubkey::{OptionalPubkey, Pubkey};

#[test]
fn test_instruction_packing() {
    let check = TokenInstruction::InitializeMint {
        decimals: 2,
        mint_authority: Pubkey::new(&[1u8; 32]),
        freeze_authority: OptionalPubkey::Absent,
    };
    let packed = check.pack();
    let mut expect = Vec::from([0u8, 2]);
    expect.extend_from_slice(&[1u8; 32]);
    expect.extend_from_slice(&[0]);
    assert_eq!(packed, expect);
    let unpacked = TokenInstruction::unpack(&expect).unwrap();
    assert_eq!(unpacked, check);

    let check = TokenInstruction::InitializeMint {
        decimals: 2,
        mint_authority: Pubkey::new(&[2u8; 32]),
        freeze_authority: OptionalPubkey::Present(Pubkey::new(&[3u8; 32])),
    };
    let packed = check.pack();
    let mut expect = vec![0u8, 2];
    expect.extend_from_slice(&[2u8; 32]);
    expect.extend_from_slice(&[1]);
    expect.extend_from_slice(&[3u8; 32]);
    assert_eq!(packed, expect);
    let unpacked = TokenInstruction::unpack(&expect).unwrap();
    assert_eq!(unpacked, check);

    let check = TokenInstruction::InitializeAccount;
    let packed = check.pack();
    let expect = Vec::from([1u8]);
    assert_eq!(packed, expect);
    let unpacked = TokenInstruction::unpack(&expect).unwrap();
    assert_eq!(unpacked, check);

    let check = TokenInstruction::InitializeMultisig { m: 1 };
    let packed = check.pack();
    let expect = Vec::from([2u8, 1]);
    assert_eq!(packed, expect);
    let unpacked = TokenInstruction::unpack(&expect).unwrap();
    assert_eq!(unpacked, check);

    let check = TokenInstruction::Transfer { amount: 1 };
    let packed = check.pack();
    let expect = Vec::from([3u8, 1, 0, 0, 0, 0, 0, 0, 0]);
    assert_eq!(packed, expect);
    let unpacked = TokenInstruction::unpack(&expect).unwrap();
    assert_eq!(unpacked, check);

    let check = TokenInstruction::Approve { amount: 1 };
    let packed = check.pack();
    let expect = Vec::from([4u8, 1, 0, 0, 0, 0, 0, 0, 0]);
    assert_eq!(packed, expect);
    let unpacked = TokenInstruction::unpack(&expect).unwrap();
    assert_eq!(unpacked, check);

    let check = TokenInstruction::Revoke;
    let packed = check.pack();
    let expect = Vec::from([5u8]);
    assert_eq!(packed, expect);
    let unpacked = TokenInstruction::unpack(&expect).unwrap();
    assert_eq!(unpacked, check);

    let check = TokenInstruction::SetAuthority {
        authority_type: AuthorityType::FreezeAccount,
        new_authority: OptionalPubkey::Present(Pubkey::new(&[4u8; 32])),
    };
    let packed = check.pack();
    let mut expect = Vec::from([6u8, 1]);
    expect.extend_from_slice(&[1]);
    expect.extend_from_slice(&[4u8; 32]);
    assert_eq!(packed, expect);
    let unpacked = TokenInstruction::unpack(&expect).unwrap();
    assert_eq!(unpacked, check);

    let check = TokenInstruction::MintTo { amount: 1 };
    let packed = check.pack();
    let expect = Vec::from([7u8, 1, 0, 0, 0, 0, 0, 0, 0]);
    assert_eq!(packed, expect);
    let unpacked = TokenInstruction::unpack(&expect).unwrap();
    assert_eq!(unpacked, check);

    let check = TokenInstruction::Burn { amount: 1 };
    let packed = check.pack();
    let expect = Vec::from([8u8, 1, 0, 0, 0, 0, 0, 0, 0]);
    assert_eq!(packed, expect);
    let unpacked = TokenInstruction::unpack(&expect).unwrap();
    assert_eq!(unpacked, check);

    let check = TokenInstruction::CloseAccount;
    let packed = check.pack();
    let expect = Vec::from([9u8]);
    assert_eq!(packed, expect);
    let unpacked = TokenInstruction::unpack(&expect).unwrap();
    assert_eq!(unpacked, check);

    let check = TokenInstruction::FreezeAccount;
    let packed = check.pack();
    let expect = Vec::from([10u8]);
    assert_eq!(packed, expect);
    let unpacked = TokenInstruction::unpack(&expect).unwrap();
    assert_eq!(unpacked, check);

    let check = TokenInstruction::ThawAccount;
    let packed = check.pack();
    let expect = Vec::from([11u8]);
    assert_eq!(packed, expect);
    let unpacked = TokenInstruction::unpack(&expect).unwrap();
    assert_eq!(unpacked, check);

    let check = TokenInstruction::TransferChecked { amount: 1, decimals: 2 };
    let packed = check.pack();
    let expect = Vec::from([12u8, 1, 0, 0, 0, 0, 0, 0, 0, 2]);
    assert_eq!(packed, expect);
    let unpacked = TokenInstruction::unpack(&expect).unwrap();
    assert_eq!(unpacked, check);

    let check = TokenInstruction::ApproveChecked { amount: 1, decimals: 2 };
    let packed = check.pack();
    let expect = Vec::from([13u8, 1, 0, 0, 0, 0, 0, 0, 0, 2]);
    assert_eq!(packed, expect);
    let unpacked = TokenInstruction::unpack(&expect).unwrap();
    assert_eq!(unpacked, check);

    let check = TokenInstruction::MintToChecked { amount: 1, decimals: 2 };
    let packed = check.pack();
    let expect = Vec::from([14u8, 1, 0, 0, 0, 0, 0, 0, 0, 2]);
    assert_eq!(packed, expect);
    let unpacked = TokenInstruction::unpack(&expect).unwrap();
    assert_eq!(unpacked, check);

    let check = TokenInstruction::BurnChecked { amount: 1, decimals: 2 };
    let packed = check.pack();
    let expect = Vec::from([15u8, 1, 0, 0, 0, 0, 0, 0, 0, 2]);
    assert_eq!(packed, expect);
    let unpacked = TokenInstruction::unpack(&expect).unwrap();
    assert_eq!(unpacked, check);

    let check = TokenInstruction::InitializeAccount2 { owner: Pubkey::new(&[2u8; 32]) };
    let packed = check.pack();
    let mut expect = vec![16u8];
    expect.extend_from_slice(&[2u8; 32]);
    assert_eq!(packed, expect);
    let unpacked = TokenInstruction::unpack(&expect).unwrap();
    assert_eq!(unpacked, check);
}

#[test]
fn test_unpack_empty_input() {
    assert_eq!(
        TokenInstruction::unpack(&[]),
        Err(TokenError::InvalidInstruction)
    );
}

#[test]
fn test_unpack_unknown_tag() {
    assert_eq!(
        TokenInstruction::unpack(&[255u8]),
        Err(TokenError::InvalidInstruction)
    );
    assert_eq!(
        TokenInstruction::unpack(&[17u8]),
        Err(TokenError::InvalidInstruction)
    );
    assert_eq!(
        TokenInstruction::unpack(&[17u8, 1, 2, 3]),
        Err(TokenError::InvalidInstruction)
    );
}

#[test]
fn test_unpack_truncated_fields() {
    // InitializeMint cut off before, inside and after the authority.
    assert_eq!(
        TokenInstruction::unpack(&[0u8]),
        Err(TokenError::InvalidInstruction)
    );
    assert_eq!(
        TokenInstruction::unpack(&[0u8, 2]),
        Err(TokenError::InvalidInstruction)
    );
    let mut buf = vec![0u8, 2];
    buf.extend_from_slice(&[1u8; 32]);
    assert_eq!(
        TokenInstruction::unpack(&buf),
        Err(TokenError::InvalidInstruction)
    );
    // An amount cut short.
    assert_eq!(
        TokenInstruction::unpack(&[3u8, 1, 0, 0]),
        Err(TokenError::InvalidInstruction)
    );
    // A checked pair missing its decimals byte.
    assert_eq!(
        TokenInstruction::unpack(&[12u8, 1, 0, 0, 0, 0, 0, 0, 0]),
        Err(TokenError::InvalidInstruction)
    );
    // A multisig count missing.
    assert_eq!(
        TokenInstruction::unpack(&[2u8]),
        Err(TokenError::InvalidInstruction)
    );
    // An owner cut short.
    let mut buf = vec![16u8];
    buf.extend_from_slice(&[2u8; 31]);
    assert_eq!(
        TokenInstruction::unpack(&buf),
        Err(TokenError::InvalidInstruction)
    );
}

#[test]
fn test_unpack_bad_optional_discriminant() {
    // InitializeMint whose freeze-authority discriminant is neither 0 nor 1.
    let mut buf = vec![0u8, 2];
    buf.extend_from_slice(&[1u8; 32]);
    buf.push(2);
    assert_eq!(
        TokenInstruction::unpack(&buf),
        Err(TokenError::InvalidInstruction)
    );
    // SetAuthority whose new-authority discriminant is out of range.
    assert_eq!(
        TokenInstruction::unpack(&[6u8, 0, 9]),
        Err(TokenError::InvalidInstruction)
    );
}

#[test]
fn test_unpack_bad_authority_kind() {
    assert_eq!(
        TokenInstruction::unpack(&[6u8, 4, 0]),
        Err(TokenError::InvalidInstruction)
    );
}

#[test]
fn test_unpack_tolerates_trailing_bytes() {
    let unpacked = TokenInstruction::unpack(&[5u8, 99, 98]).unwrap();
    assert_eq!(unpacked, TokenInstruction::Revoke);
    let unpacked = TokenInstruction::unpack(&[3u8, 1, 0, 0, 0, 0, 0, 0, 0, 77]).unwrap();
    assert_eq!(unpacked, TokenInstruction::Transfer { amount: 1 });
}

#[test]
fn test_optional_pubkey_codec() {
    // Absent encodes to exactly one byte and decodes back.
    let mut buf: Vec<u8> = Vec::new();
    TokenInstruction::pack_pubkey_option(&OptionalPubkey::Absent, &mut buf);
    assert_eq!(buf, vec![0u8]);
    let trailing = [buf.as_slice(), &[9u8, 9]].concat();
    let (decoded, rest) = TokenInstruction::unpack_pubkey_option(&trailing).unwrap();
    assert_eq!(decoded, OptionalPubkey::Absent);
    assert_eq!(rest, &[9u8, 9][..]);

    // Present encodes to exactly 33 bytes and decodes back.
    let key = Pubkey::new(&[7u8; 32]);
    let mut buf: Vec<u8> = Vec::new();
    TokenInstruction::pack_pubkey_option(&OptionalPubkey::Present(key), &mut buf);
    assert_eq!(buf.len(), 33);
    assert_eq!(buf[0], 1);
    assert_eq!(&buf[1..], &[7u8; 32]);
    let trailing = [buf.as_slice(), &[5u8]].concat();
    let (decoded, rest) = TokenInstruction::unpack_pubkey_option(&trailing).unwrap();
    assert_eq!(decoded, OptionalPubkey::Present(key));
    assert_eq!(rest, &[5u8][..]);
}

#[test]
fn test_authority_type_codec() {
    assert_eq!(AuthorityType::into(&AuthorityType::MintTokens), 0);
    assert_eq!(AuthorityType::into(&AuthorityType::FreezeAccount), 1);
    assert_eq!(AuthorityType::into(&AuthorityType::AccountOwner), 2);
    assert_eq!(AuthorityType::into(&AuthorityType::CloseAccount), 3);
    assert_eq!(AuthorityType::from(0), Ok(AuthorityType::MintTokens));
    assert_eq!(AuthorityType::from(1), Ok(AuthorityType::FreezeAccount));
    assert_eq!(AuthorityType::from(2), Ok(AuthorityType::AccountOwner));
    assert_eq!(AuthorityType::from(3), Ok(AuthorityType::CloseAccount));
    assert_eq!(AuthorityType::from(4), Err(TokenError::InvalidInstruction));
    assert_eq!(AuthorityType::from(255), Err(TokenError::InvalidInstruction));
}
