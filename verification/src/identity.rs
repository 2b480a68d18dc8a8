//! The identity of a participant and the addresses under which it is reached.

use crate::hex::{encode_hex, hex_lower};
use vstd::prelude::*;
use vstd::slice::slice_subrange;

verus! {

/// The durable identity of a participant: the thirty-two bytes of its public key.
#[derive(Clone, Copy, Debug, PartialEq, Eq)]
pub struct NodeIdentity {
    pub bytes: [u8; 32],
}

impl View for NodeIdentity {
    type V = Seq<u8>;

    open spec fn view(&self) -> Seq<u8> {
        self.bytes@
    }
}

impl NodeIdentity {
    /// The identity with the given key bytes.
    pub fn from_bytes(bytes: [u8; 32]) -> (id: NodeIdentity)
        ensures
            id@ == bytes@,
    {
        NodeIdentity { bytes }
    }

    /// The key bytes of the identity.
    pub fn as_bytes(&self) -> (bytes: &[u8; 32])
        ensures
            bytes@ == self@,
    {
        &self.bytes
    }

    /// Whether the two identities are the same participant.
    pub fn same(&self, other: &NodeIdentity) -> (same: bool)
        ensures
            same == (self@ == other@),
    {
        let mut i: usize = 0;
        while i < 32
            invariant
                i <= 32,
                forall|j: int| 0 <= j < i ==> self@[j] == other@[j],
            decreases 32 - i,
        {
            if self.bytes[i] != other.bytes[i] {
                return false;
            }
            i += 1;
        }
        assert(self@ =~= other@);
        true
    }

    /// The full display form: the key in hexadecimal.
    pub fn to_hex(&self) -> (text: String)
        ensures
            text@ == hex_lower(self@),
    {
        encode_hex(self.bytes.as_slice())
    }

    /// The shortened display form: the first five bytes of the key in hexadecimal.
    pub fn fmt_short(&self) -> (text: String)
        ensures
            text@ == hex_lower(self@.subrange(0, 5)),
    {
        encode_hex(slice_subrange(self.bytes.as_slice(), 0, 5))
    }
}

/// An identity together with the places where its node may be reached, each
/// in its text form. The session hands them on and reads only the identity.
#[derive(Clone, Debug, PartialEq, Eq)]
pub struct NodeAddress {
    /// Who the node is.
    pub identity: NodeIdentity,
    /// The address of the node's home relay, if it has one.
    pub relay_url: Option<String>,
    /// The socket addresses at which the node may answer directly.
    pub direct_addresses: Vec<String>,
}

} // verus!
