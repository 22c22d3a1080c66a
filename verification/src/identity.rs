use vstd::prelude::*;

verus! {

/// An identity on the local ledger: an account holder, an authority, a relay
/// endpoint or the handle of an issuance unit. It is 32 opaque bytes, and two
/// identities are the same exactly when their bytes are.
#[derive(Clone, Copy, Debug, PartialEq, Eq, Hash)]
pub struct Pubkey {
    pub bytes: [u8; 32],
}

impl View for Pubkey {
    type V = Seq<u8>;

    open spec fn view(&self) -> Seq<u8> {
        self.bytes@
    }
}

impl Pubkey {
    /// Wraps 32 bytes as an identity.
    pub fn new_from_array(bytes: [u8; 32]) -> (key: Pubkey)
        ensures
            key.bytes == bytes,
            key@ == bytes@,
    {
        Pubkey { bytes }
    }

    /// The 32 bytes of the identity.
    pub fn to_bytes(&self) -> (bytes: [u8; 32])
        ensures
            bytes == self.bytes,
            bytes@ == self@,
    {
        self.bytes
    }

    /// Whether two identities are the same, byte for byte.
    pub fn same(&self, other: &Pubkey) -> (r: bool)
        ensures
            r == (self@ == other@),
            r == (*self == *other),
    {
        let mut i: usize = 0;
        while i < 32
            invariant
                i <= 32,
                forall|j: int| 0 <= j < i ==> self.bytes@[j] == other.bytes@[j],
            decreases 32 - i,
        {
            if self.bytes[i] != other.bytes[i] {
                return false;
            }
            i += 1;
        }
        proof {
            lemma_same_bytes_same_key(*self, *other);
        }
        true
    }
}

/// Identities with the same bytes are the same value.
pub proof fn lemma_same_bytes_same_key(a: Pubkey, b: Pubkey)
    requires
        forall|j: int| 0 <= j < 32 ==> a.bytes@[j] == b.bytes@[j],
    ensures
        a@ == b@,
        a == b,
{
    assert(a.bytes@ =~= b.bytes@);
    assert(a.bytes =~= b.bytes);
}

} // verus!
