//! Identities: the 32-byte keys that name principals and accounts.

use vstd::prelude::*;
use vstd::std_specs::cmp::PartialEqSpecImpl;

verus! {

/// The key of a principal: a wallet, a session signer, a validator, an account.
///
/// Two identities are the same principal exactly when their bytes agree.
#[derive(Clone, Copy, Debug, Eq)]
pub struct Identity {
    pub bytes: [u8; 32],
}

impl View for Identity {
    type V = Seq<u8>;

    open spec fn view(&self) -> Seq<u8> {
        self.bytes@
    }
}

impl PartialEq for Identity {
    /// Whether the two identities name the same principal.
    fn eq(&self, other: &Identity) -> (b: bool) {
        let mut i: usize = 0;
        while i < 32
            invariant
                i <= 32,
                forall|j: int| 0 <= j < i ==> self.bytes[j] == other.bytes[j],
            decreases 32 - i,
        {
            if self.bytes[i] != other.bytes[i] {
                return false;
            }
            i += 1;
        }
        assert(self.bytes =~= other.bytes);
        true
    }
}

impl PartialEqSpecImpl for Identity {
    open spec fn obeys_eq_spec() -> bool {
        true
    }

    open spec fn eq_spec(&self, other: &Identity) -> bool {
        *self == *other
    }
}

impl Identity {
    /// The identity that stands for "nobody": all bytes zero.
    pub open spec fn null_bytes() -> Seq<u8> {
        Seq::new(32, |i: int| 0u8)
    }

    /// Whether this is the identity of nobody.
    pub open spec fn spec_is_null(&self) -> bool {
        self@ == Self::null_bytes()
    }

    /// The identity made of the given bytes.
    pub fn new(bytes: [u8; 32]) -> (id: Identity)
        ensures
            id.bytes == bytes,
            id@ == bytes@,
    {
        Identity { bytes }
    }

    /// The bytes of this identity.
    pub fn to_bytes(&self) -> (bytes: [u8; 32])
        ensures
            bytes == self.bytes,
            bytes@ == self@,
    {
        self.bytes
    }

    /// The identity of nobody.
    pub fn null() -> (id: Identity)
        ensures
            id.spec_is_null(),
    {
        let id = Identity { bytes: [0u8; 32] };
        assert(id@ =~= Self::null_bytes());
        id
    }

    /// Whether this is the identity of nobody.
    #[verifier::when_used_as_spec(spec_is_null)]
    pub fn is_null(&self) -> (b: bool)
        ensures
            b == self.spec_is_null(),
    {
        let nobody = Identity::null();
        proof {
            Self::lemma_view_injective(*self, nobody);
        }
        *self == nobody
    }

    /// Identities with the same bytes are the same identity.
    pub proof fn lemma_view_injective(a: Identity, b: Identity)
        ensures
            a@ == b@ <==> a == b,
    {
        if a@ == b@ {
            assert(a.bytes =~= b.bytes);
        }
    }
}

} // verus!
