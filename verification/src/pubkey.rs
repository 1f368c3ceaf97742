use vstd::prelude::*;

verus! {

/// An opaque 32-byte value identifying an account, compared by value.
#[derive(Clone, Copy, Debug, PartialEq, Eq)]
pub struct Pubkey {
    bytes: [u8; 32],
}

impl View for Pubkey {
    type V = Seq<u8>;

    closed spec fn view(&self) -> Seq<u8> {
        self.bytes@
    }
}

/// Two identifiers with the same bytes are the same identifier.
pub broadcast proof fn lemma_pubkey_view_injective(a: Pubkey, b: Pubkey)
    requires
        #[trigger] a.view() == #[trigger] b.view(),
    ensures
        a == b,
{
    assert(a.bytes =~= b.bytes);
}

impl Pubkey {
    /// Builds an identifier from a slice of exactly 32 bytes.
    pub fn new(pubkey_vec: &[u8]) -> (r: Pubkey)
        requires
            pubkey_vec@.len() == 32,
        ensures
            r@ == pubkey_vec@,
    {
        let mut bytes: [u8; 32] = [0u8; 32];
        for i in 0..32
            invariant
                pubkey_vec@.len() == 32,
                forall|j: int| 0 <= j < i ==> bytes@[j] == pubkey_vec@[j],
        {
            bytes[i] = pubkey_vec[i];
        }
        proof {
            assert(bytes@ =~= pubkey_vec@);
        }
        Pubkey { bytes }
    }

    /// Builds an identifier directly from a 32-byte array.
    pub fn new_from_array(bytes: [u8; 32]) -> (r: Pubkey)
        ensures
            r@ == bytes@,
    {
        Pubkey { bytes }
    }

    /// The identifier's bytes.
    pub fn to_bytes(&self) -> (r: [u8; 32])
        ensures
            r@ == self@,
    {
        self.bytes
    }

    /// Value comparison of two identifiers.
    pub fn eq_bytes(&self, other: &Pubkey) -> (r: bool)
        ensures
            r == (self@ == other@),
    {
        let mut i: usize = 0;
        while i < 32
            invariant
                0 <= i <= 32,
                forall|j: int| 0 <= j < i ==> self@[j] == other@[j],
            decreases 32 - i,
        {
            if self.bytes[i] != other.bytes[i] {
                return false;
            }
            i += 1;
        }
        proof {
            assert(self@ =~= other@);
        }
        true
    }
}

/// An identifier always views to exactly 32 bytes.
pub broadcast proof fn lemma_pubkey_view_len(key: Pubkey)
    ensures
        (#[trigger] key.view()).len() == 32,
{
}

/// An authority slot: either cleared, or set to an identifier.
#[derive(Clone, Copy, Debug, PartialEq, Eq)]
pub enum OptionalPubkey {
    Absent,
    Present(Pubkey),
}

impl View for OptionalPubkey {
    type V = Option<Seq<u8>>;

    open spec fn view(&self) -> Option<Seq<u8>> {
        match *self {
            OptionalPubkey::Absent => None,
            OptionalPubkey::Present(key) => Some(key@),
        }
    }
}

/// The view of an optional borrowed identifier.
pub open spec fn opt_key_view(o: Option<&Pubkey>) -> Option<Seq<u8>> {
    match o {
        None => None,
        Some(key) => Some(key@),
    }
}

/// Two authority slots with the same view are the same slot.
pub proof fn lemma_optional_pubkey_view_injective(a: OptionalPubkey, b: OptionalPubkey)
    requires
        a@ == b@,
    ensures
        a == b,
{
    match (a, b) {
        (OptionalPubkey::Present(x), OptionalPubkey::Present(y)) => {
            lemma_pubkey_view_injective(x, y);
        },
        _ => {},
    }
}

} // verus!
