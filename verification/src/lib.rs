//! The coordination core of a small peer-to-peer group chat that runs over a
//! gossip transport: the text form of join tickets, the directory of peer
//! names, and the decisions of a chat session.

pub mod ascii;
pub mod base32;
pub mod directory;
pub mod hex;
pub mod identity;
pub mod message;
pub mod render;
pub mod session;
pub mod ticket;
pub mod topic;
pub mod whitespace;
