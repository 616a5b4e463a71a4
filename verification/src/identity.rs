use vstd::prelude::*;
use vstd::std_specs::cmp::PartialEqSpecImpl;

verus! {

/// A 32-byte public identifier: the public key of a wallet, or a storage address.
#[derive(Clone, Copy, Debug, Eq, Hash)]
pub struct Identity {
    pub bytes: [u8; 32],
}

impl View for Identity {
    type V = Seq<u8>;

    open spec fn view(&self) -> Seq<u8> {
        self.bytes@
    }
}

impl Identity {
    /// The identity made of the given bytes.
    pub fn new_from_array(bytes: [u8; 32]) -> (id: Identity)
        ensures
            id@ == bytes@,
    {
        Identity { bytes }
    }

    /// The bytes of the identity.
    pub fn to_bytes(&self) -> (bytes: [u8; 32])
        ensures
            bytes@ == self@,
    {
        self.bytes
    }

    /// Two identities are the same value exactly when their bytes agree.
    pub proof fn lemma_view_injective(self, other: Identity)
        ensures
            self@.len() == 32,
            self@ == other@ <==> self == other,
    {
        if self@ == other@ {
            assert(self.bytes =~= other.bytes);
        }
    }
}

impl PartialEq for Identity {
    fn eq(&self, other: &Identity) -> (same: bool) {
        let mut i: usize = 0;
        while i < 32
            invariant
                i <= 32,
                forall|j: int| 0 <= j < i ==> self.bytes@[j] == other.bytes@[j],
            decreases 32 - i,
        {
            if self.bytes[i] != other.bytes[i] {
                return false;
            }
            i += 1;
        }
        assert(self.bytes@ =~= other.bytes@);
        true
    }
}

impl PartialEqSpecImpl for Identity {
    open spec fn obeys_eq_spec() -> bool {
        true
    }

    open spec fn eq_spec(&self, other: &Identity) -> bool {
        self@ == other@
    }
}

/// A storage address. It has the form of an identity, but is derived from one, and is the
/// identity of no wallet.
pub type Address = Identity;

/// The bytes of an identity that may be missing.
pub open spec fn view_of(id: Option<Identity>) -> Option<Seq<u8>> {
    match id {
        Some(id) => Some(id@),
        None => None,
    }
}

} // verus!
