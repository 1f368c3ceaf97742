//! Instruction envelopes: ordered account-reference lists plus payload
//! bytes, and the authority convention shared by every operation that
//! names an authority.
use vstd::prelude::*;

use crate::pubkey::Pubkey;

verus! {

/// An account reference inside an envelope. Order within an envelope's
/// list is positional, not named.
#[derive(Clone, Debug, PartialEq)]
pub struct AccountMeta {
    /// The referenced account's identifier.
    pub pubkey: Pubkey,
    /// Whether the transaction must be signed by this account.
    pub is_signer: bool,
    /// Whether the account may be written.
    pub is_writable: bool,
}

/// The logical form of an account reference.
pub struct AccountMetaV {
    pub pubkey: Seq<u8>,
    pub is_signer: bool,
    pub is_writable: bool,
}

impl View for AccountMeta {
    type V = AccountMetaV;

    open spec fn view(&self) -> AccountMetaV {
        AccountMetaV {
            pubkey: self.pubkey@,
            is_signer: self.is_signer,
            is_writable: self.is_writable,
        }
    }
}

/// A logical account reference.
pub open spec fn meta_v(pubkey: Seq<u8>, is_signer: bool, is_writable: bool) -> AccountMetaV {
    AccountMetaV { pubkey, is_signer, is_writable }
}

/// The views of a list of account references.
pub open spec fn metas_v(s: Seq<AccountMeta>) -> Seq<AccountMetaV> {
    Seq::new(s.len(), |i: int| s[i]@)
}

impl AccountMeta {
    /// A writable account reference.
    pub fn new(pubkey: Pubkey, is_signer: bool) -> (r: AccountMeta)
        ensures
            r@ == meta_v(pubkey@, is_signer, true),
    {
        AccountMeta { pubkey, is_signer, is_writable: true }
    }

    /// A read-only account reference.
    pub fn new_readonly(pubkey: Pubkey, is_signer: bool) -> (r: AccountMeta)
        ensures
            r@ == meta_v(pubkey@, is_signer, false),
    {
        AccountMeta { pubkey, is_signer, is_writable: false }
    }
}

/// An instruction envelope: the unit handed to the runtime. It owns its
/// account list and payload independently of any caller-owned buffer.
#[derive(Clone, Debug, PartialEq)]
pub struct Instruction {
    /// The identifier of the program that executes this instruction.
    pub program_id: Pubkey,
    /// The ordered account references the instruction operates on.
    pub accounts: Vec<AccountMeta>,
    /// The instruction's payload bytes.
    pub data: Vec<u8>,
}

/// The logical form of an envelope.
pub struct EnvelopeV {
    pub program_id: Seq<u8>,
    pub accounts: Seq<AccountMetaV>,
    pub data: Seq<u8>,
}

impl View for Instruction {
    type V = EnvelopeV;

    open spec fn view(&self) -> EnvelopeV {
        EnvelopeV {
            program_id: self.program_id@,
            accounts: metas_v(self.accounts@),
            data: self.data@,
        }
    }
}

/// The identifier views of a list of signer references.
pub open spec fn signer_views(signers: Seq<&Pubkey>) -> Seq<Seq<u8>> {
    Seq::new(signers.len(), |i: int| signers[i]@)
}

/// The trailing block of a multisignature authority: one read-only signer
/// reference per supplied identifier, in the order supplied.
pub open spec fn spec_signer_metas(signers: Seq<Seq<u8>>) -> Seq<AccountMetaV> {
    Seq::new(signers.len(), |i: int| meta_v(signers[i], true, false))
}

/// The authority convention: with no trailing signers the authority
/// reference itself signs; with trailing signers the authority is a
/// multisignature account (not itself a signer), and each trailing
/// identifier follows as its own read-only signer reference.
pub open spec fn spec_authority_metas(authority: Seq<u8>, signers: Seq<Seq<u8>>) -> Seq<
    AccountMetaV,
> {
    seq![meta_v(authority, signers.len() == 0, false)] + spec_signer_metas(signers)
}

/// Authority-convention law: with zero trailing signers the authority
/// reference signs; with k >= 1 trailing signers it does not, and exactly
/// k read-only signer references follow it, in the order supplied.
pub proof fn lemma_authority_convention(authority: Seq<u8>, signers: Seq<Seq<u8>>)
    ensures
        spec_authority_metas(authority, signers).len() == 1 + signers.len(),
        spec_authority_metas(authority, signers)[0] == meta_v(
            authority,
            signers.len() == 0,
            false,
        ),
        signers.len() == 0 ==> spec_authority_metas(authority, signers)[0].is_signer,
        signers.len() >= 1 ==> !spec_authority_metas(authority, signers)[0].is_signer,
        forall|i: int|
            0 <= i < signers.len() ==> spec_authority_metas(authority, signers)[1 + i] == meta_v(
                signers[i],
                true,
                false,
            ),
{
}

/// The signer references of a multisignature initialization: read-only,
/// and not themselves transaction signers.
pub open spec fn spec_multisig_metas(signers: Seq<Seq<u8>>) -> Seq<AccountMetaV> {
    Seq::new(signers.len(), |i: int| meta_v(signers[i], false, false))
}

/// Appends one read-only, non-signing reference per identifier, in the
/// order supplied.
pub fn append_readonly_metas(accounts: &mut Vec<AccountMeta>, keys: &[&Pubkey])
    ensures
        metas_v(final(accounts)@) == metas_v(old(accounts)@) + spec_multisig_metas(
            signer_views(keys@),
        ),
{
    let ghost base = accounts@;
    for i in 0..keys.len()
        invariant
            accounts@.len() == base.len() + i,
            forall|j: int| 0 <= j < base.len() ==> accounts@[j] == base[j],
            forall|j: int|
                0 <= j < i ==> (#[trigger] accounts@[base.len() + j])@ == meta_v(
                    signer_views(keys@)[j],
                    false,
                    false,
                ),
    {
        let key: &Pubkey = keys[i];
        accounts.push(AccountMeta::new_readonly(*key, false));
        proof {
            assert(key@ == signer_views(keys@)[i as int]);
        }
    }
    proof {
        let ghost expected = metas_v(old(accounts)@) + spec_multisig_metas(signer_views(keys@));
        assert forall|j: int| 0 <= j < accounts@.len() implies metas_v(accounts@)[j]
            == expected[j] by {
            let n = old(accounts)@.len() as int;
            assert(metas_v(old(accounts)@).len() == n);
            assert(metas_v(accounts@)[j] == accounts@[j]@);
            if j < n {
                assert(accounts@[j] == base[j]);
                assert(expected[j] == metas_v(old(accounts)@)[j]);
            } else {
                assert(accounts@[base.len() + (j - n)]@ == meta_v(
                    signer_views(keys@)[j - n],
                    false,
                    false,
                ));
            }
        }
        assert(metas_v(accounts@) =~= expected);
    }
}

/// Appends the authority reference and its trailing signer references to
/// the account list, per the authority convention.
pub fn append_authority_metas(
    accounts: &mut Vec<AccountMeta>,
    authority_pubkey: &Pubkey,
    signer_pubkeys: &[&Pubkey],
)
    ensures
        metas_v(final(accounts)@) == metas_v(old(accounts)@) + spec_authority_metas(
            authority_pubkey@,
            signer_views(signer_pubkeys@),
        ),
{
    accounts.push(AccountMeta::new_readonly(*authority_pubkey, signer_pubkeys.len() == 0));
    let ghost base = accounts@;
    for i in 0..signer_pubkeys.len()
        invariant
            accounts@.len() == base.len() + i,
            forall|j: int| 0 <= j < base.len() ==> accounts@[j] == base[j],
            forall|j: int|
                0 <= j < i ==> (#[trigger] accounts@[base.len() + j])@ == meta_v(
                    signer_views(signer_pubkeys@)[j],
                    true,
                    false,
                ),
    {
        let signer: &Pubkey = signer_pubkeys[i];
        accounts.push(AccountMeta::new_readonly(*signer, true));
        proof {
            assert(signer@ == signer_views(signer_pubkeys@)[i as int]);
        }
    }
    proof {
        let ghost expected = metas_v(old(accounts)@) + spec_authority_metas(
            authority_pubkey@,
            signer_views(signer_pubkeys@),
        );
        assert forall|j: int| 0 <= j < accounts@.len() implies metas_v(accounts@)[j]
            == expected[j] by {
            let n = old(accounts)@.len() as int;
            assert(metas_v(old(accounts)@).len() == n);
            assert(base.len() == n + 1);
            assert(metas_v(accounts@)[j] == accounts@[j]@);
            if j < n {
                assert(accounts@[j] == base[j]);
                assert(base[j] == old(accounts)@[j]);
                assert(expected[j] == metas_v(old(accounts)@)[j]);
            } else if j == n {
                assert(accounts@[j] == base[j]);
            } else {
                assert(accounts@[base.len() + (j - n - 1)]@ == meta_v(
                    signer_views(signer_pubkeys@)[j - n - 1],
                    true,
                    false,
                ));
            }
        }
        assert(metas_v(accounts@) =~= expected);
    }
}

} // verus!
