//! Account identities.
//!
//! Every participant of the marketplace (parcels, wallets, programs, mints)
//! is named by a 32-byte address. The core never interprets the bytes; it
//! only stores and compares them.

use vstd::prelude::*;

verus! {

broadcast use vstd::array::group_array_axioms;

/// A 32-byte account address.
#[derive(Clone, Copy, Debug)]
pub struct Identity {
    pub bytes: [u8; 32],
}

impl View for Identity {
    type V = Seq<u8>;

    open spec fn view(&self) -> Seq<u8> {
        self.bytes@
    }
}

impl Identity {
    /// Builds an identity from its raw address bytes.
    pub fn from_bytes(bytes: [u8; 32]) -> (r: Identity)
        ensures
            r@ == bytes@,
    {
        Identity { bytes }
    }

    /// Compares two identities byte by byte.
    pub fn equals(&self, other: &Identity) -> (r: bool)
        ensures
            r <==> self@ == other@,
    {
        bytes32_eq(&self.bytes, &other.bytes)
    }
}

/// Compares two 32-byte values byte by byte.
pub fn bytes32_eq(a: &[u8; 32], b: &[u8; 32]) -> (r: bool)
    ensures
        r <==> a@ == b@,
{
    let mut i: usize = 0;
    while i < 32
        invariant
            i <= 32,
            forall|j: int| 0 <= j < i ==> a@[j] == b@[j],
        decreases 32 - i,
    {
        if a[i] != b[i] {
            assert(a@[i as int] != b@[i as int]);
            return false;
        }
        i += 1;
    }
    assert(a@ =~= b@);
    true
}

} // verus!
