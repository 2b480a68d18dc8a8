//! Join tickets: the text form in which a ticket's payload is handed from one
//! participant to another.

use crate::ascii::{ascii_lower, ascii_upper, lemma_upper_of_lower};
use crate::base32::{
    base32, decode_base32, encode_base32, is_symbol, lemma_base32_injective, lemma_base32_symbols,
};
use crate::identity::{NodeAddress, NodeIdentity};
use crate::topic::TopicId;
use vstd::prelude::*;
use vstd::string::StringExecFns;
use vstd::string::StringSliceAdditionalSpecFns;
use vstd::utf8::*;

verus! {

/// What one participant hands to another to let it join: the topic of the room
/// and the peers through which the room is reached.
#[derive(Clone, Debug, PartialEq, Eq)]
pub struct Ticket {
    /// The room.
    pub topic: TopicId,
    /// The peers to contact first, in the order in which the ticket lists them.
    pub nodes: Vec<NodeAddress>,
}

impl Ticket {
    /// The identities of the ticket's peers, in the ticket's order.
    pub fn node_ids(&self) -> (ids: Vec<NodeIdentity>)
        ensures
            ids@.len() == self.nodes@.len(),
            forall|i: int| 0 <= i < ids@.len() ==> ids@[i] == self.nodes@[i].identity,
    {
        let mut ids: Vec<NodeIdentity> = Vec::new();
        let mut i: usize = 0;
        while i < self.nodes.len()
            invariant
                i <= self.nodes@.len(),
                ids@.len() == i,
                forall|j: int| 0 <= j < i ==> ids@[j] == self.nodes@[j].identity,
            decreases self.nodes@.len() - i,
        {
            ids.push(self.nodes[i].identity);
            i += 1;
        }
        ids
    }
}

/// Why a text is no ticket.
#[derive(Debug, Clone, Copy, PartialEq, Eq)]
pub enum TicketError {
    /// The text holds a character outside ASCII.
    NotAscii,
    /// The text is ASCII but, in upper case, the base 32 form of no payload.
    NotBase32,
}

impl TicketError {
    /// What went wrong, in words.
    pub fn message(&self) -> (text: String)
        ensures
            text@ == match self {
                TicketError::NotAscii => "the ticket holds a character outside ASCII"@,
                TicketError::NotBase32 => "the ticket is not base 32 text"@,
            },
    {
        match self {
            TicketError::NotAscii => String::from_str("the ticket holds a character outside ASCII"),
            TicketError::NotBase32 => String::from_str("the ticket is not base 32 text"),
        }
    }
}

/// The text of a ticket with the given payload: base 32 without padding, in
/// lower case.
pub open spec fn ticket_text(payload: Seq<u8>) -> Seq<char> {
    ascii_lower(base32(payload))
}

/// Whether `text` stands for `payload`, whatever the case of its letters.
pub open spec fn stands_for(text: Seq<char>, payload: Seq<u8>) -> bool {
    base32(payload) == ascii_upper(text)
}

/// The payload that `text` stands for, if there is one.
pub open spec fn payload_of(text: Seq<char>) -> Option<Seq<u8>> {
    if exists|payload: Seq<u8>| stands_for(text, payload) {
        Some(choose|payload: Seq<u8>| stands_for(text, payload))
    } else {
        None
    }
}

/// A text stands for at most one payload.
pub proof fn lemma_payload_unique(text: Seq<char>, payload: Seq<u8>)
    requires
        stands_for(text, payload),
    ensures
        payload_of(text) == Some(payload),
{
    let chosen = choose|p: Seq<u8>| stands_for(text, p);
    lemma_base32_injective(chosen, payload);
}

/// A text with a character outside ASCII stands for no payload.
proof fn lemma_not_ascii_no_payload(text: Seq<char>)
    requires
        !is_ascii_chars(text),
    ensures
        payload_of(text) is None,
{
    let i = choose|i: int| 0 <= i < text.len() && !('\0' <= #[trigger] text[i] <= '\u{7f}');
    assert forall|payload: Seq<u8>| !stands_for(text, payload) by {
        if stands_for(text, payload) {
            lemma_base32_symbols(payload);
            assert(base32(payload)[i] == ascii_upper(text)[i]);
            assert(is_symbol(base32(payload)[i]));
        }
    }
}

/// The text of the ticket whose payload is `payload`.
pub fn encode(payload: &[u8]) -> (text: String)
    requires
        payload@.len() <= usize::MAX / 512,
    ensures
        text@ == ticket_text(payload@),
{
    let upper = encode_base32(payload);
    upper.as_str().to_ascii_lowercase()
}

/// The payload of the ticket written as `text`, in letters of either case.
pub fn decode(text: &str) -> (decoded: Result<Vec<u8>, TicketError>)
    requires
        text.spec_bytes().len() <= usize::MAX / 8,
    ensures
        match decoded {
            Ok(payload) => payload_of(text@) == Some(payload@),
            Err(_) => payload_of(text@) is None,
        },
        decoded == Err::<Vec<u8>, TicketError>(TicketError::NotAscii) <==> !is_ascii_chars(text@),
{
    if !text.is_ascii() {
        proof {
            lemma_not_ascii_no_payload(text@);
        }
        return Err(TicketError::NotAscii);
    }
    let upper = text.to_ascii_uppercase();
    proof {
        assert(is_ascii_chars(upper@));
        is_ascii_chars_encode_utf8(text@);
        is_ascii_chars_encode_utf8(upper@);
    }
    match decode_base32(upper.as_str()) {
        Ok(payload) => {
            proof {
                lemma_payload_unique(text@, payload@);
            }
            Ok(payload)
        },
        Err(_) => Err(TicketError::NotBase32),
    }
}

/// Decoding the text of a ticket gives its payload back.
pub proof fn law_round_trip(payload: Seq<u8>)
    ensures
        is_ascii_chars(ticket_text(payload)),
        payload_of(ticket_text(payload)) == Some(payload),
{
    lemma_base32_symbols(payload);
    assert(ascii_upper(ticket_text(payload)) =~= base32(payload));
    lemma_payload_unique(ticket_text(payload), payload);
}

/// The case of the letters of a text does not change what it decodes to.
pub proof fn law_case_insensitive(text: Seq<char>, other: Seq<char>)
    requires
        ascii_upper(text) == ascii_upper(other),
    ensures
        payload_of(text) == payload_of(other),
{
    if exists|payload: Seq<u8>| stands_for(text, payload) {
        let payload = choose|payload: Seq<u8>| stands_for(text, payload);
        assert(stands_for(other, payload));
        lemma_payload_unique(other, payload);
    } else if exists|payload: Seq<u8>| stands_for(other, payload) {
        let payload = choose|payload: Seq<u8>| stands_for(other, payload);
        assert(stands_for(text, payload));
    }
}

/// A ticket's text in upper case decodes as the text itself does.
pub proof fn law_upper_case_decodes_alike(text: Seq<char>)
    ensures
        payload_of(ascii_upper(text)) == payload_of(text),
        is_ascii_chars(text) ==> is_ascii_chars(ascii_upper(text)),
{
    lemma_upper_of_lower(text);
    law_case_insensitive(ascii_upper(text), text);
}

} // verus!
