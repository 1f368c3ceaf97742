//! The instruction catalog and its binary codec.
//!
//! Wire layout: one tag byte selecting the variant, followed by that
//! variant's fields in fixed positional order; multi-byte integers are
//! little-endian, identifiers are raw 32-byte copies, and an optional
//! identifier is one discriminant byte (0 = absent, 1 = present) followed,
//! when present, by exactly 32 bytes.
use vstd::prelude::*;

use crate::error::TokenError;
use crate::pubkey::{OptionalPubkey, Pubkey};

pub use crate::builder::{
    approve, approve_checked, burn, burn_checked, close_account, freeze_account,
    initialize_account, initialize_account2, initialize_mint, initialize_multisig,
    is_valid_signer_index, mint_to, mint_to_checked, revoke, set_authority, thaw_account,
    transfer, transfer_checked, MAX_SIGNERS, MIN_SIGNERS,
};

verus! {

/// The authority kinds a `SetAuthority` instruction can address.
#[derive(Clone, Copy, Debug, PartialEq)]
pub enum AuthorityType {
    /// Authority to mint new tokens.
    MintTokens,
    /// Authority to freeze any account associated with the mint.
    FreezeAccount,
    /// Owner of a given token account.
    AccountOwner,
    /// Authority to close a token account.
    CloseAccount,
}

/// The single wire byte of an authority kind.
pub open spec fn spec_authority_byte(t: AuthorityType) -> u8 {
    match t {
        AuthorityType::MintTokens => 0,
        AuthorityType::FreezeAccount => 1,
        AuthorityType::AccountOwner => 2,
        AuthorityType::CloseAccount => 3,
    }
}

/// The authority kind a wire byte stands for, if any.
pub open spec fn spec_authority_from_byte(b: u8) -> Option<AuthorityType> {
    if b == 0 {
        Some(AuthorityType::MintTokens)
    } else if b == 1 {
        Some(AuthorityType::FreezeAccount)
    } else if b == 2 {
        Some(AuthorityType::AccountOwner)
    } else if b == 3 {
        Some(AuthorityType::CloseAccount)
    } else {
        None
    }
}

impl AuthorityType {
    /// Encodes this authority kind as its wire byte.
    pub fn into(&self) -> (r: u8)
        ensures
            r == spec_authority_byte(*self),
    {
        match self {
            AuthorityType::MintTokens => 0,
            AuthorityType::FreezeAccount => 1,
            AuthorityType::AccountOwner => 2,
            AuthorityType::CloseAccount => 3,
        }
    }

    /// Decodes a wire byte into an authority kind; any byte outside the
    /// four defined codes is rejected.
    pub fn from(index: u8) -> (r: Result<AuthorityType, TokenError>)
        ensures
            match spec_authority_from_byte(index) {
                Some(t) => r == Ok::<AuthorityType, TokenError>(t),
                None => r == Err::<AuthorityType, TokenError>(TokenError::InvalidInstruction),
            },
    {
        match index {
            0 => Ok(AuthorityType::MintTokens),
            1 => Ok(AuthorityType::FreezeAccount),
            2 => Ok(AuthorityType::AccountOwner),
            3 => Ok(AuthorityType::CloseAccount),
            _ => Err(TokenError::InvalidInstruction),
        }
    }
}

/// Instructions supported by the token program, in their in-memory form.
///
/// Each variant carries only the fields that are not conveyed through the
/// account-reference list of its envelope.
#[derive(Clone, Debug, PartialEq)]
pub enum TokenInstruction {
    /// Initializes a new mint. Wire tag 0.
    InitializeMint {
        /// Number of base-10 digits to the right of the decimal place.
        decimals: u8,
        /// The authority/multisignature allowed to mint tokens.
        mint_authority: Pubkey,
        /// The freeze authority/multisignature of the mint, if any.
        freeze_authority: OptionalPubkey,
    },
    /// Initializes a new account to hold tokens. Wire tag 1.
    InitializeAccount,
    /// Initializes a multisignature authority account. Wire tag 2.
    InitializeMultisig {
        /// The number of signers required to validate the account.
        m: u8,
    },
    /// Transfers tokens from one account to another. Wire tag 3.
    Transfer {
        /// The amount of tokens to transfer.
        amount: u64,
    },
    /// Approves a delegate over tokens of the source account. Wire tag 4.
    Approve {
        /// The amount of tokens the delegate is approved for.
        amount: u64,
    },
    /// Revokes the delegate's authority. Wire tag 5.
    Revoke,
    /// Sets a new authority of a mint or account. Wire tag 6.
    SetAuthority {
        /// The kind of authority to change.
        authority_type: AuthorityType,
        /// The new authority, or absent to clear it.
        new_authority: OptionalPubkey,
    },
    /// Mints new tokens to an account. Wire tag 7.
    MintTo {
        /// The amount of new tokens to mint.
        amount: u64,
    },
    /// Burns tokens from an account. Wire tag 8.
    Burn {
        /// The amount of tokens to burn.
        amount: u64,
    },
    /// Closes an account by transferring its remaining balance. Wire tag 9.
    CloseAccount,
    /// Freezes an account. Wire tag 10.
    FreezeAccount,
    /// Thaws a frozen account. Wire tag 11.
    ThawAccount,
    /// Like `Transfer`, checking the decimal precision. Wire tag 12.
    TransferChecked {
        /// The amount of tokens to transfer.
        amount: u64,
        /// Expected number of base-10 digits to the right of the decimal place.
        decimals: u8,
    },
    /// Like `Approve`, checking the decimal precision. Wire tag 13.
    ApproveChecked {
        /// The amount of tokens the delegate is approved for.
        amount: u64,
        /// Expected number of base-10 digits to the right of the decimal place.
        decimals: u8,
    },
    /// Like `MintTo`, checking the decimal precision. Wire tag 14.
    MintToChecked {
        /// The amount of new tokens to mint.
        amount: u64,
        /// Expected number of base-10 digits to the right of the decimal place.
        decimals: u8,
    },
    /// Like `Burn`, checking the decimal precision. Wire tag 15.
    BurnChecked {
        /// The amount of tokens to burn.
        amount: u64,
        /// Expected number of base-10 digits to the right of the decimal place.
        decimals: u8,
    },
    /// Like `InitializeAccount`, with the owner carried in the payload
    /// rather than in the account list. Wire tag 16.
    InitializeAccount2 {
        /// The new account's owner/multisignature.
        owner: Pubkey,
    },
}

/// The logical form of an instruction: identifiers as byte sequences.
/// This is the value the wire format encodes and decodes.
pub enum InstructionV {
    /// Wire tag 0.
    InitializeMint { decimals: u8, mint_authority: Seq<u8>, freeze_authority: Option<Seq<u8>> },
    /// Wire tag 1.
    InitializeAccount,
    /// Wire tag 2.
    InitializeMultisig { m: u8 },
    /// Wire tag 3.
    Transfer { amount: u64 },
    /// Wire tag 4.
    Approve { amount: u64 },
    /// Wire tag 5.
    Revoke,
    /// Wire tag 6.
    SetAuthority { authority_type: AuthorityType, new_authority: Option<Seq<u8>> },
    /// Wire tag 7.
    MintTo { amount: u64 },
    /// Wire tag 8.
    Burn { amount: u64 },
    /// Wire tag 9.
    CloseAccount,
    /// Wire tag 10.
    FreezeAccount,
    /// Wire tag 11.
    ThawAccount,
    /// Wire tag 12.
    TransferChecked { amount: u64, decimals: u8 },
    /// Wire tag 13.
    ApproveChecked { amount: u64, decimals: u8 },
    /// Wire tag 14.
    MintToChecked { amount: u64, decimals: u8 },
    /// Wire tag 15.
    BurnChecked { amount: u64, decimals: u8 },
    /// Wire tag 16.
    InitializeAccount2 { owner: Seq<u8> },
}

impl View for TokenInstruction {
    type V = InstructionV;

    open spec fn view(&self) -> InstructionV {
        match *self {
            TokenInstruction::InitializeMint { decimals, mint_authority, freeze_authority } => {
                InstructionV::InitializeMint {
                    decimals,
                    mint_authority: mint_authority@,
                    freeze_authority: freeze_authority@,
                }
            },
            TokenInstruction::InitializeAccount => InstructionV::InitializeAccount,
            TokenInstruction::InitializeMultisig { m } => InstructionV::InitializeMultisig { m },
            TokenInstruction::Transfer { amount } => InstructionV::Transfer { amount },
            TokenInstruction::Approve { amount } => InstructionV::Approve { amount },
            TokenInstruction::Revoke => InstructionV::Revoke,
            TokenInstruction::SetAuthority { authority_type, new_authority } => {
                InstructionV::SetAuthority { authority_type, new_authority: new_authority@ }
            },
            TokenInstruction::MintTo { amount } => InstructionV::MintTo { amount },
            TokenInstruction::Burn { amount } => InstructionV::Burn { amount },
            TokenInstruction::CloseAccount => InstructionV::CloseAccount,
            TokenInstruction::FreezeAccount => InstructionV::FreezeAccount,
            TokenInstruction::ThawAccount => InstructionV::ThawAccount,
            TokenInstruction::TransferChecked { amount, decimals } => {
                InstructionV::TransferChecked { amount, decimals }
            },
            TokenInstruction::ApproveChecked { amount, decimals } => {
                InstructionV::ApproveChecked { amount, decimals }
            },
            TokenInstruction::MintToChecked { amount, decimals } => {
                InstructionV::MintToChecked { amount, decimals }
            },
            TokenInstruction::BurnChecked { amount, decimals } => {
                InstructionV::BurnChecked { amount, decimals }
            },
            TokenInstruction::InitializeAccount2 { owner } => {
                InstructionV::InitializeAccount2 { owner: owner@ }
            },
        }
    }
}

/// Whether an optional identifier, if set, holds exactly 32 bytes.
pub open spec fn wf_opt(o: Option<Seq<u8>>) -> bool {
    match o {
        None => true,
        Some(key) => key.len() == 32,
    }
}

/// Whether every identifier a logical instruction carries holds exactly
/// 32 bytes. Every in-memory instruction's view satisfies this.
pub open spec fn wf_instruction(v: InstructionV) -> bool {
    match v {
        InstructionV::InitializeMint { mint_authority, freeze_authority, .. } => {
            mint_authority.len() == 32 && wf_opt(freeze_authority)
        },
        InstructionV::SetAuthority { new_authority, .. } => wf_opt(new_authority),
        InstructionV::InitializeAccount2 { owner } => owner.len() == 32,
        _ => true,
    }
}

/// The encoding of an optional identifier: one discriminant byte, then
/// the 32 identifier bytes when present.
pub open spec fn spec_pack_opt(o: Option<Seq<u8>>) -> Seq<u8> {
    match o {
        None => seq![0u8],
        Some(key) => seq![1u8] + key,
    }
}

/// Decodes an optional identifier from the front of `s`, returning the
/// decoded value and how many bytes it consumed.
pub open spec fn spec_unpack_opt(s: Seq<u8>) -> Option<(Option<Seq<u8>>, int)> {
    if s.len() < 1 {
        None
    } else if s[0] == 0 {
        Some((None, 1))
    } else if s[0] == 1 && s.len() >= 33 {
        Some((Some(s.subrange(1, 33)), 33))
    } else {
        None
    }
}

/// The wire encoding of a logical instruction: its tag byte followed by
/// its fields in fixed positional order.
pub open spec fn spec_pack(v: InstructionV) -> Seq<u8> {
    match v {
        InstructionV::InitializeMint { decimals, mint_authority, freeze_authority } => {
            seq![0u8, decimals] + mint_authority + spec_pack_opt(freeze_authority)
        },
        InstructionV::InitializeAccount => seq![1u8],
        InstructionV::InitializeMultisig { m } => seq![2u8, m],
        InstructionV::Transfer { amount } => seq![3u8] + vstd::bytes::spec_u64_to_le_bytes(amount),
        InstructionV::Approve { amount } => seq![4u8] + vstd::bytes::spec_u64_to_le_bytes(amount),
        InstructionV::Revoke => seq![5u8],
        InstructionV::SetAuthority { authority_type, new_authority } => {
            seq![6u8, spec_authority_byte(authority_type)] + spec_pack_opt(new_authority)
        },
        InstructionV::MintTo { amount } => seq![7u8] + vstd::bytes::spec_u64_to_le_bytes(amount),
        InstructionV::Burn { amount } => seq![8u8] + vstd::bytes::spec_u64_to_le_bytes(amount),
        InstructionV::CloseAccount => seq![9u8],
        InstructionV::FreezeAccount => seq![10u8],
        InstructionV::ThawAccount => seq![11u8],
        InstructionV::TransferChecked { amount, decimals } => {
            seq![12u8] + vstd::bytes::spec_u64_to_le_bytes(amount) + seq![decimals]
        },
        InstructionV::ApproveChecked { amount, decimals } => {
            seq![13u8] + vstd::bytes::spec_u64_to_le_bytes(amount) + seq![decimals]
        },
        InstructionV::MintToChecked { amount, decimals } => {
            seq![14u8] + vstd::bytes::spec_u64_to_le_bytes(amount) + seq![decimals]
        },
        InstructionV::BurnChecked { amount, decimals } => {
            seq![15u8] + vstd::bytes::spec_u64_to_le_bytes(amount) + seq![decimals]
        },
        InstructionV::InitializeAccount2 { owner } => seq![16u8] + owner,
    }
}

/// Decodes a buffer into a logical instruction: the first byte selects
/// the variant, the fields follow left to right, and trailing bytes
/// beyond a variant's declared fields are tolerated.
pub open spec fn spec_unpack(s: Seq<u8>) -> Option<InstructionV> {
    if s.len() < 1 {
        None
    } else {
        let tag = s[0];
        let rest = s.skip(1);
        if tag == 0 {
            if rest.len() < 1 {
                None
            } else {
                let decimals = rest[0];
                let after = rest.skip(1);
                if after.len() < 32 {
                    None
                } else {
                    let mint_authority = after.subrange(0, 32);
                    match spec_unpack_opt(after.skip(32)) {
                        Some((freeze_authority, _)) => Some(
                            InstructionV::InitializeMint { decimals, mint_authority, freeze_authority },
                        ),
                        None => None,
                    }
                }
            }
        } else if tag == 1 {
            Some(InstructionV::InitializeAccount)
        } else if tag == 2 {
            if rest.len() < 1 {
                None
            } else {
                Some(InstructionV::InitializeMultisig { m: rest[0] })
            }
        } else if tag == 3 || tag == 4 || tag == 7 || tag == 8 {
            if rest.len() < 8 {
                None
            } else {
                let amount = vstd::bytes::spec_u64_from_le_bytes(rest.subrange(0, 8));
                if tag == 3 {
                    Some(InstructionV::Transfer { amount })
                } else if tag == 4 {
                    Some(InstructionV::Approve { amount })
                } else if tag == 7 {
                    Some(InstructionV::MintTo { amount })
                } else {
                    Some(InstructionV::Burn { amount })
                }
            }
        } else if tag == 5 {
            Some(InstructionV::Revoke)
        } else if tag == 6 {
            if rest.len() < 1 {
                None
            } else {
                match spec_authority_from_byte(rest[0]) {
                    Some(authority_type) => match spec_unpack_opt(rest.skip(1)) {
                        Some((new_authority, _)) => Some(
                            InstructionV::SetAuthority { authority_type, new_authority },
                        ),
                        None => None,
                    },
                    None => None,
                }
            }
        } else if tag == 9 {
            Some(InstructionV::CloseAccount)
        } else if tag == 10 {
            Some(InstructionV::FreezeAccount)
        } else if tag == 11 {
            Some(InstructionV::ThawAccount)
        } else if tag == 12 || tag == 13 || tag == 14 || tag == 15 {
            if rest.len() < 9 {
                None
            } else {
                let amount = vstd::bytes::spec_u64_from_le_bytes(rest.subrange(0, 8));
                let decimals = rest[8];
                if tag == 12 {
                    Some(InstructionV::TransferChecked { amount, decimals })
                } else if tag == 13 {
                    Some(InstructionV::ApproveChecked { amount, decimals })
                } else if tag == 14 {
                    Some(InstructionV::MintToChecked { amount, decimals })
                } else {
                    Some(InstructionV::BurnChecked { amount, decimals })
                }
            }
        } else if tag == 16 {
            if rest.len() < 32 {
                None
            } else {
                Some(InstructionV::InitializeAccount2 { owner: rest.subrange(0, 32) })
            }
        } else {
            None
        }
    }
}

/// Appends an identifier's 32 bytes to the buffer.
fn push_pubkey(buf: &mut Vec<u8>, key: &Pubkey)
    ensures
        final(buf)@ == old(buf)@ + key@,
{
    let bytes = key.to_bytes();
    for i in 0..32
        invariant
            bytes@ == key@,
            bytes@.len() == 32,
            buf@ == old(buf)@ + bytes@.subrange(0, i as int),
    {
        buf.push(bytes[i]);
        proof {
            assert(buf@ =~= old(buf)@ + bytes@.subrange(0, i + 1));
        }
    }
    proof {
        assert(buf@ =~= old(buf)@ + key@);
    }
}

/// Appends a 64-bit amount in little-endian order.
fn push_u64_le(buf: &mut Vec<u8>, value: u64)
    ensures
        final(buf)@ == old(buf)@ + vstd::bytes::spec_u64_to_le_bytes(value),
{
    let mut bytes = vstd::bytes::u64_to_le_bytes(value);
    let ghost bytes0 = bytes@;
    buf.append(&mut bytes);
    proof {
        assert(buf@ =~= old(buf)@ + bytes0);
    }
}

impl TokenInstruction {
    /// Unpacks a byte buffer into an instruction.
    ///
    /// Fails with `InvalidInstruction` on an empty buffer, an unknown tag,
    /// a truncated fixed-width field or a malformed optional identifier;
    /// trailing bytes beyond a variant's declared fields are tolerated.
    pub fn unpack(input: &[u8]) -> (r: Result<TokenInstruction, TokenError>)
        ensures
            (r matches Ok(i) ==> spec_unpack(input@) == Some(i@)),
            (r matches Err(e) ==> spec_unpack(input@) is None && e
                == TokenError::InvalidInstruction),
    {
        if input.len() < 1 {
            return Err(TokenError::InvalidInstruction);
        }
        let tag = input[0];
        let rest = vstd::slice::slice_subrange(input, 1, input.len());
        proof {
            assert(rest@ =~= input@.skip(1));
        }
        match tag {
            0 => {
                if rest.len() < 1 {
                    return Err(TokenError::InvalidInstruction);
                }
                let decimals = rest[0];
                let after = vstd::slice::slice_subrange(rest, 1, rest.len());
                proof {
                    assert(after@ =~= rest@.skip(1));
                }
                let (mint_authority, after2) = Self::unpack_pubkey(after)?;
                proof {
                    if after@.len() >= 32 {
                        assert(after2@ =~= after@.skip(32));
                    }
                }
                let (freeze_authority, _after3) = Self::unpack_pubkey_option(after2)?;
                Ok(TokenInstruction::InitializeMint { mint_authority, freeze_authority, decimals })
            },
            1 => Ok(TokenInstruction::InitializeAccount),
            2 => {
                if rest.len() < 1 {
                    return Err(TokenError::InvalidInstruction);
                }
                let m = rest[0];
                Ok(TokenInstruction::InitializeMultisig { m })
            },
            3 | 4 | 7 | 8 => {
                if rest.len() < 8 {
                    return Err(TokenError::InvalidInstruction);
                }
                let amount_bytes = vstd::slice::slice_subrange(rest, 0, 8);
                let amount = vstd::bytes::u64_from_le_bytes(amount_bytes);
                match tag {
                    3 => Ok(TokenInstruction::Transfer { amount }),
                    4 => Ok(TokenInstruction::Approve { amount }),
                    7 => Ok(TokenInstruction::MintTo { amount }),
                    _ => Ok(TokenInstruction::Burn { amount }),
                }
            },
            5 => Ok(TokenInstruction::Revoke),
            6 => {
                if rest.len() < 1 {
                    return Err(TokenError::InvalidInstruction);
                }
                let authority_type = AuthorityType::from(rest[0])?;
                let after = vstd::slice::slice_subrange(rest, 1, rest.len());
                proof {
                    assert(after@ =~= rest@.skip(1));
                }
                let (new_authority, _after2) = Self::unpack_pubkey_option(after)?;
                Ok(TokenInstruction::SetAuthority { authority_type, new_authority })
            },
            9 => Ok(TokenInstruction::CloseAccount),
            10 => Ok(TokenInstruction::FreezeAccount),
            11 => Ok(TokenInstruction::ThawAccount),
            12 | 13 | 14 | 15 => {
                if rest.len() < 9 {
                    return Err(TokenError::InvalidInstruction);
                }
                let amount_bytes = vstd::slice::slice_subrange(rest, 0, 8);
                let amount = vstd::bytes::u64_from_le_bytes(amount_bytes);
                let decimals = rest[8];
                match tag {
                    12 => Ok(TokenInstruction::TransferChecked { amount, decimals }),
                    13 => Ok(TokenInstruction::ApproveChecked { amount, decimals }),
                    14 => Ok(TokenInstruction::MintToChecked { amount, decimals }),
                    _ => Ok(TokenInstruction::BurnChecked { amount, decimals }),
                }
            },
            16 => {
                let (owner, _after) = Self::unpack_pubkey(rest)?;
                Ok(TokenInstruction::InitializeAccount2 { owner })
            },
            _ => Err(TokenError::InvalidInstruction),
        }
    }

    /// Packs an instruction into its wire bytes: the tag byte followed by
    /// the variant's fields in fixed positional order.
    pub fn pack(&self) -> (r: Vec<u8>)
        ensures
            r@ == spec_pack(self@),
    {
        let mut buf: Vec<u8> = Vec::new();
        match self {
            TokenInstruction::InitializeMint { decimals, mint_authority, freeze_authority } => {
                buf.push(0);
                buf.push(*decimals);
                push_pubkey(&mut buf, mint_authority);
                Self::pack_pubkey_option(freeze_authority, &mut buf);
                proof {
                    assert(buf@ =~= spec_pack(self@));
                }
            },
            TokenInstruction::InitializeAccount => {
                buf.push(1);
                proof {
                    assert(buf@ =~= spec_pack(self@));
                }
            },
            TokenInstruction::InitializeMultisig { m } => {
                buf.push(2);
                buf.push(*m);
                proof {
                    assert(buf@ =~= spec_pack(self@));
                }
            },
            TokenInstruction::Transfer { amount } => {
                buf.push(3);
                push_u64_le(&mut buf, *amount);
                proof {
                    assert(buf@ =~= spec_pack(self@));
                }
            },
            TokenInstruction::Approve { amount } => {
                buf.push(4);
                push_u64_le(&mut buf, *amount);
                proof {
                    assert(buf@ =~= spec_pack(self@));
                }
            },
            TokenInstruction::Revoke => {
                buf.push(5);
                proof {
                    assert(buf@ =~= spec_pack(self@));
                }
            },
            TokenInstruction::SetAuthority { authority_type, new_authority } => {
                buf.push(6);
                buf.push(authority_type.into());
                Self::pack_pubkey_option(new_authority, &mut buf);
                proof {
                    assert(buf@ =~= spec_pack(self@));
                }
            },
            TokenInstruction::MintTo { amount } => {
                buf.push(7);
                push_u64_le(&mut buf, *amount);
                proof {
                    assert(buf@ =~= spec_pack(self@));
                }
            },
            TokenInstruction::Burn { amount } => {
                buf.push(8);
                push_u64_le(&mut buf, *amount);
                proof {
                    assert(buf@ =~= spec_pack(self@));
                }
            },
            TokenInstruction::CloseAccount => {
                buf.push(9);
                proof {
                    assert(buf@ =~= spec_pack(self@));
                }
            },
            TokenInstruction::FreezeAccount => {
                buf.push(10);
                proof {
                    assert(buf@ =~= spec_pack(self@));
                }
            },
            TokenInstruction::ThawAccount => {
                buf.push(11);
                proof {
                    assert(buf@ =~= spec_pack(self@));
                }
            },
            TokenInstruction::TransferChecked { amount, decimals } => {
                buf.push(12);
                push_u64_le(&mut buf, *amount);
                buf.push(*decimals);
                proof {
                    assert(buf@ =~= spec_pack(self@));
                }
            },
            TokenInstruction::ApproveChecked { amount, decimals } => {
                buf.push(13);
                push_u64_le(&mut buf, *amount);
                buf.push(*decimals);
                proof {
                    assert(buf@ =~= spec_pack(self@));
                }
            },
            TokenInstruction::MintToChecked { amount, decimals } => {
                buf.push(14);
                push_u64_le(&mut buf, *amount);
                buf.push(*decimals);
                proof {
                    assert(buf@ =~= spec_pack(self@));
                }
            },
            TokenInstruction::BurnChecked { amount, decimals } => {
                buf.push(15);
                push_u64_le(&mut buf, *amount);
                buf.push(*decimals);
                proof {
                    assert(buf@ =~= spec_pack(self@));
                }
            },
            TokenInstruction::InitializeAccount2 { owner } => {
                buf.push(16);
                push_pubkey(&mut buf, owner);
                proof {
                    assert(buf@ =~= spec_pack(self@));
                }
            },
        }
        buf
    }

    /// Encodes an optional identifier onto the buffer: its discriminant
    /// byte, then the 32 identifier bytes when present.
    pub fn pack_pubkey_option(value: &OptionalPubkey, buf: &mut Vec<u8>)
        ensures
            final(buf)@ == old(buf)@ + spec_pack_opt(value@),
    {
        match value {
            OptionalPubkey::Present(key) => {
                buf.push(1);
                push_pubkey(buf, key);
                proof {
                    assert(buf@ =~= old(buf)@ + spec_pack_opt(value@));
                }
            },
            OptionalPubkey::Absent => {
                buf.push(0);
                proof {
                    assert(buf@ =~= old(buf)@ + spec_pack_opt(value@));
                }
            },
        }
    }

    /// Reads a 32-byte identifier from the front of the input, returning
    /// it together with the remaining bytes.
    pub fn unpack_pubkey(input: &[u8]) -> (r: Result<(Pubkey, &[u8]), TokenError>)
        ensures
            input@.len() >= 32 ==> (r matches Ok(p) && p.0@ == input@.subrange(0, 32) && p.1@
                == input@.skip(32)),
            input@.len() < 32 ==> (r matches Err(e) && e == TokenError::InvalidInstruction),
    {
        if input.len() >= 32 {
            let key = vstd::slice::slice_subrange(input, 0, 32);
            let pk = Pubkey::new(key);
            let rest = vstd::slice::slice_subrange(input, 32, input.len());
            Ok((pk, rest))
        } else {
            Err(TokenError::InvalidInstruction)
        }
    }

    /// Reads an optional identifier from the front of the input, returning
    /// it together with the bytes after what it consumed.
    pub fn unpack_pubkey_option(input: &[u8]) -> (r: Result<(OptionalPubkey, &[u8]), TokenError>)
        ensures
            match spec_unpack_opt(input@) {
                Some(decoded) => (r matches Ok(p) && p.0@ == decoded.0 && p.1@
                    == input@.skip(decoded.1)),
                None => (r matches Err(e) && e == TokenError::InvalidInstruction),
            },
    {
        if input.len() >= 1 && input[0] == 0 {
            let rest = vstd::slice::slice_subrange(input, 1, input.len());
            Ok((OptionalPubkey::Absent, rest))
        } else if input.len() >= 33 && input[0] == 1 {
            let key_bytes = vstd::slice::slice_subrange(input, 1, 33);
            let key = Pubkey::new(key_bytes);
            let rest = vstd::slice::slice_subrange(input, 33, input.len());
            Ok((OptionalPubkey::Present(key), rest))
        } else {
            Err(TokenError::InvalidInstruction)
        }
    }
}

/// Law: the optional-identifier encoding round-trips, and consumes
/// exactly 1 byte when absent and exactly 33 bytes when present,
/// whatever bytes follow it.
pub proof fn lemma_pack_opt_round_trip(o: Option<Seq<u8>>, rest: Seq<u8>)
    requires
        wf_opt(o),
    ensures
        o is None ==> spec_pack_opt(o).len() == 1,
        o is Some ==> spec_pack_opt(o).len() == 33,
        spec_unpack_opt(spec_pack_opt(o) + rest) == Some((o, spec_pack_opt(o).len() as int)),
{
    let s = spec_pack_opt(o) + rest;
    match o {
        None => {
            assert(s[0] == 0);
        },
        Some(key) => {
            assert(s[0] == 1);
            assert(s.len() >= 33);
            assert(s.subrange(1, 33) =~= key);
        },
    }
}

/// Law: the authority-kind codec is total and injective over its four
/// codes: encoding then decoding yields the kind back, and any byte
/// above 3 fails to decode.
pub proof fn lemma_authority_byte_round_trip(t: AuthorityType, b: u8)
    ensures
        spec_authority_byte(t) <= 3,
        spec_authority_from_byte(spec_authority_byte(t)) == Some(t),
        b > 3 ==> spec_authority_from_byte(b) is None,
{
}

/// Law: any leading tag byte outside the defined catalog fails to decode.
pub proof fn lemma_unknown_tag_rejected(s: Seq<u8>)
    requires
        s.len() >= 1,
        s[0] > 16,
    ensures
        spec_unpack(s) is None,
{
}

/// Round-trip law: decoding the encoding of any well-formed logical
/// instruction yields exactly that instruction.
pub proof fn lemma_pack_round_trip(v: InstructionV)
    requires
        wf_instruction(v),
    ensures
        spec_unpack(spec_pack(v)) == Some(v),
{
    vstd::bytes::lemma_auto_spec_u64_to_from_le_bytes();
    let s = spec_pack(v);
    let rest = s.skip(1);
    match v {
        InstructionV::InitializeMint { decimals, mint_authority, freeze_authority } => {
            assert(rest =~= seq![decimals] + mint_authority + spec_pack_opt(freeze_authority));
            let after = rest.skip(1);
            assert(after =~= mint_authority + spec_pack_opt(freeze_authority));
            assert(after.subrange(0, 32) =~= mint_authority);
            assert(after.skip(32) =~= spec_pack_opt(freeze_authority) + Seq::<u8>::empty());
            lemma_pack_opt_round_trip(freeze_authority, Seq::<u8>::empty());
        },
        InstructionV::InitializeAccount => {},
        InstructionV::InitializeMultisig { m } => {
            assert(rest =~= seq![m]);
        },
        InstructionV::Transfer { amount } => {
            assert(rest =~= vstd::bytes::spec_u64_to_le_bytes(amount));
            assert(rest.subrange(0, 8) =~= vstd::bytes::spec_u64_to_le_bytes(amount));
        },
        InstructionV::Approve { amount } => {
            assert(rest =~= vstd::bytes::spec_u64_to_le_bytes(amount));
            assert(rest.subrange(0, 8) =~= vstd::bytes::spec_u64_to_le_bytes(amount));
        },
        InstructionV::Revoke => {},
        InstructionV::SetAuthority { authority_type, new_authority } => {
            assert(rest =~= seq![spec_authority_byte(authority_type)] + spec_pack_opt(
                new_authority,
            ));
            assert(spec_authority_from_byte(spec_authority_byte(authority_type)) == Some(
                authority_type,
            ));
            assert(rest.skip(1) =~= spec_pack_opt(new_authority) + Seq::<u8>::empty());
            lemma_pack_opt_round_trip(new_authority, Seq::<u8>::empty());
        },
        InstructionV::MintTo { amount } => {
            assert(rest =~= vstd::bytes::spec_u64_to_le_bytes(amount));
            assert(rest.subrange(0, 8) =~= vstd::bytes::spec_u64_to_le_bytes(amount));
        },
        InstructionV::Burn { amount } => {
            assert(rest =~= vstd::bytes::spec_u64_to_le_bytes(amount));
            assert(rest.subrange(0, 8) =~= vstd::bytes::spec_u64_to_le_bytes(amount));
        },
        InstructionV::CloseAccount => {},
        InstructionV::FreezeAccount => {},
        InstructionV::ThawAccount => {},
        InstructionV::TransferChecked { amount, decimals } => {
            assert(rest =~= vstd::bytes::spec_u64_to_le_bytes(amount) + seq![decimals]);
            assert(rest.subrange(0, 8) =~= vstd::bytes::spec_u64_to_le_bytes(amount));
            assert(rest[8] == decimals);
        },
        InstructionV::ApproveChecked { amount, decimals } => {
            assert(rest =~= vstd::bytes::spec_u64_to_le_bytes(amount) + seq![decimals]);
            assert(rest.subrange(0, 8) =~= vstd::bytes::spec_u64_to_le_bytes(amount));
            assert(rest[8] == decimals);
        },
        InstructionV::MintToChecked { amount, decimals } => {
            assert(rest =~= vstd::bytes::spec_u64_to_le_bytes(amount) + seq![decimals]);
            assert(rest.subrange(0, 8) =~= vstd::bytes::spec_u64_to_le_bytes(amount));
            assert(rest[8] == decimals);
        },
        InstructionV::BurnChecked { amount, decimals } => {
            assert(rest =~= vstd::bytes::spec_u64_to_le_bytes(amount) + seq![decimals]);
            assert(rest.subrange(0, 8) =~= vstd::bytes::spec_u64_to_le_bytes(amount));
            assert(rest[8] == decimals);
        },
        InstructionV::InitializeAccount2 { owner } => {
            assert(rest =~= owner);
            assert(rest.subrange(0, 32) =~= owner);
        },
    }
}

/// Every in-memory instruction views to a well-formed logical value, so
/// the round-trip law applies to it.
pub broadcast proof fn lemma_view_wf(i: TokenInstruction)
    ensures
        #[trigger] wf_instruction(i@),
{
    broadcast use crate::pubkey::lemma_pubkey_view_len;

}

/// Two in-memory instructions with the same logical view are equal: the
/// round-trip law at the logical level carries over to the in-memory form.
pub proof fn lemma_view_injective(a: TokenInstruction, b: TokenInstruction)
    requires
        a@ == b@,
    ensures
        a == b,
{
    broadcast use crate::pubkey::lemma_pubkey_view_injective;

    match (a, b) {
        (
            TokenInstruction::InitializeMint { freeze_authority: fa, .. },
            TokenInstruction::InitializeMint { freeze_authority: fb, .. },
        ) => {
            crate::pubkey::lemma_optional_pubkey_view_injective(fa, fb);
        },
        (
            TokenInstruction::SetAuthority { new_authority: na, .. },
            TokenInstruction::SetAuthority { new_authority: nb, .. },
        ) => {
            crate::pubkey::lemma_optional_pubkey_view_injective(na, nb);
        },
        _ => {},
    }
}

} // verus!
