//! The messages that participants exchange over a topic.

use crate::identity::NodeIdentity;
use vstd::prelude::*;

verus! {

/// A message of the chat. `from` is the identity that its author claims: a
/// session writes its own identity there and takes the claim of others as it
/// comes.
#[derive(Clone, Debug, PartialEq, Eq)]
pub enum Message {
    /// The author announces its display name.
    AboutMe { from: NodeIdentity, name: String },
    /// The author says a line.
    Message { from: NodeIdentity, text: String },
}

} // verus!
