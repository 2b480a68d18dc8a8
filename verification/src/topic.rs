//! The identifier of a chat room.

use crate::hex::{encode_hex, hex_lower};
use vstd::prelude::*;

verus! {

/// The identifier of a topic: thirty-two bytes that this layer never looks into.
#[derive(Clone, Copy, Debug, PartialEq, Eq)]
pub struct TopicId {
    pub bytes: [u8; 32],
}

impl View for TopicId {
    type V = Seq<u8>;

    open spec fn view(&self) -> Seq<u8> {
        self.bytes@
    }
}

/// `rand::random`: thirty-two bytes from the thread's random number generator.
/// Nothing is known of them.
#[verifier::external_body]
fn random_bytes() -> [u8; 32] {
    rand::random()
}

impl TopicId {
    /// The topic with the given bytes.
    pub fn from_bytes(bytes: [u8; 32]) -> (topic: TopicId)
        ensures
            topic@ == bytes@,
    {
        TopicId { bytes }
    }

    /// The bytes of the topic.
    pub fn as_bytes(&self) -> (bytes: &[u8; 32])
        ensures
            bytes@ == self@,
    {
        &self.bytes
    }

    /// A topic for a new room, drawn at random.
    pub fn random() -> TopicId {
        TopicId::from_bytes(random_bytes())
    }

    /// Whether the two are the same topic.
    pub fn same(&self, other: &TopicId) -> (same: bool)
        ensures
            same == (self@ == other@),
    {
        let mut i: usize = 0;
        while i < 32
            invariant
                i <= 32,
                forall|j: int| 0 <= j < i ==> self@[j] == other@[j],
            decreases 32 - i,
        {
            if self.bytes[i] != other.bytes[i] {
                return false;
            }
            i += 1;
        }
        assert(self@ =~= other@);
        true
    }

    /// The display form: the bytes in hexadecimal.
    pub fn to_hex(&self) -> (text: String)
        ensures
            text@ == hex_lower(self@),
    {
        encode_hex(self.bytes.as_slice())
    }
}

} // verus!
