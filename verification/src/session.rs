//! The decisions of a chat session: what to do on joining, with each line that
//! the user types, and with each event that the transport delivers. The caller
//! does the input and output and reports back what happened.

use crate::directory::{looked_up, recorded, PeerDirectory};
use crate::hex::hex_lower;
use crate::identity::{NodeAddress, NodeIdentity};
use crate::message::Message;
use crate::render::{bell, chat_line_now, chat_line_text, is_clock_text, join_line, join_line_text};
use crate::ticket::Ticket;
use crate::topic::TopicId;
use crate::whitespace::trimmed;
use vstd::prelude::*;
use vstd::string::StringExecFns;

verus! {

/// Where a session stands between its start and its end.
#[derive(Clone, Copy, Debug, PartialEq, Eq, Structural)]
pub enum Phase {
    /// The topic is being resolved and the local identity brought up.
    Starting,
    /// The topic is being joined.
    Connecting,
    /// The display name, if there is one, is being announced.
    Announcing,
    /// Lines are read and events dispatched.
    Active,
    /// The transport's resources are being released.
    ShuttingDown,
    /// The session is over.
    Finished,
}

/// What the caller reports of its own work.
#[derive(Clone, Copy, Debug, PartialEq, Eq, Structural)]
pub enum Signal {
    /// The topic is resolved and the local identity is up.
    Resolved,
    /// The topic is joined.
    Joined,
    /// The announcement, if there was one to make, is handed to the transport.
    Announced,
    /// The terminal will give no more lines.
    InputClosed,
    /// The transport failed beyond recovery.
    Failed,
    /// The transport's resources are released.
    Released,
}

/// The phase that follows `phase` when `signal` is reported. A signal that does
/// not belong to the phase changes nothing. A failure before the session is
/// active ends it at once; a failure while it is active shuts it down.
pub open spec fn next_phase(phase: Phase, signal: Signal) -> Phase {
    match (phase, signal) {
        (Phase::Starting, Signal::Resolved) => Phase::Connecting,
        (Phase::Connecting, Signal::Joined) => Phase::Announcing,
        (Phase::Announcing, Signal::Announced) => Phase::Active,
        (Phase::Active, Signal::InputClosed) => Phase::ShuttingDown,
        (Phase::Active, Signal::Failed) => Phase::ShuttingDown,
        (Phase::ShuttingDown, Signal::Released) => Phase::Finished,
        (Phase::ShuttingDown, Signal::Failed) => Phase::Finished,
        (Phase::Starting, Signal::Failed) => Phase::Finished,
        (Phase::Connecting, Signal::Failed) => Phase::Finished,
        (Phase::Announcing, Signal::Failed) => Phase::Finished,
        _ => phase,
    }
}

/// How the user asked to start.
#[derive(Clone, Debug, PartialEq, Eq)]
pub enum Command {
    /// Open a new room.
    Open,
    /// Join the room of a ticket.
    Join { ticket: Ticket },
}

/// The room to join and the peers to reach it through.
#[derive(Clone, Debug, PartialEq, Eq)]
pub struct JoinPlan {
    /// The room.
    pub topic: TopicId,
    /// The peers to make known to the transport before joining.
    pub peers: Vec<NodeAddress>,
    /// The identities of those peers, in the same order: whom to contact first.
    pub bootstrap: Vec<NodeIdentity>,
}

/// The room that `command` leads to: a new one under the topic `fresh` and
/// with no peer to contact, or the room and the peers of the ticket.
pub fn resolve(command: Command, fresh: TopicId) -> (plan: JoinPlan)
    ensures
        match command {
            Command::Open => plan.topic == fresh && plan.peers@.len() == 0,
            Command::Join { ticket } => plan.topic == ticket.topic && plan.peers == ticket.nodes,
        },
        plan.bootstrap@.len() == plan.peers@.len(),
        forall|i: int|
            0 <= i < plan.peers@.len() ==> plan.bootstrap@[i] == plan.peers@[i].identity,
{
    match command {
        Command::Open => JoinPlan { topic: fresh, peers: Vec::new(), bootstrap: Vec::new() },
        Command::Join { ticket } => {
            let bootstrap = ticket.node_ids();
            JoinPlan { topic: ticket.topic, peers: ticket.nodes, bootstrap }
        },
    }
}

/// What a line from the terminal is, once trimmed.
#[derive(Clone, Copy, Debug, PartialEq, Eq, Structural)]
pub enum LineKind {
    /// `/exit`
    Exit,
    /// `/list`
    List,
    /// Another line that starts with `/`.
    Unknown,
    /// Text for the chat.
    Chat,
}

/// What the trimmed line `text` is.
pub open spec fn kind_of(text: Seq<char>) -> LineKind {
    if !(text.len() > 0 && text[0] == '/') {
        LineKind::Chat
    } else if text == "/exit"@ {
        LineKind::Exit
    } else if text == "/list"@ {
        LineKind::List
    } else {
        LineKind::Unknown
    }
}

/// What the trimmed line `text` is.
pub fn classify(text: &str) -> (kind: LineKind)
    ensures
        kind == kind_of(text@),
{
    if text.is_empty() || text.get_char(0) != '/' {
        return LineKind::Chat;
    }
    let owned = text.to_owned();
    if owned == String::from_str("/exit") {
        LineKind::Exit
    } else if owned == String::from_str("/list") {
        LineKind::List
    } else {
        LineKind::Unknown
    }
}

/// What the caller does with a line from the terminal.
#[derive(Clone, Debug, PartialEq, Eq)]
pub enum LineAction {
    /// Nothing: the session is not active.
    Ignored,
    /// Say farewell and stop reading.
    Leave,
    /// Show these names: the directory as it was when the line was handled.
    List(Vec<String>),
    /// Tell the user that this command is not known.
    Unknown(String),
    /// Broadcast `message`, then show its text under `name`.
    Say { message: Message, name: String },
}

/// The name under which the user's own lines are shown when none was given.
pub open spec fn placeholder_name() -> Seq<char> {
    "you"@
}

/// One chat session of one participant.
pub struct Session {
    phase: Phase,
    me: NodeIdentity,
    name: Option<String>,
}

impl Session {
    /// Where the session stands.
    pub closed spec fn spec_phase(&self) -> Phase {
        self.phase
    }

    /// The identity of the local participant.
    pub closed spec fn spec_identity(&self) -> Seq<u8> {
        self.me@
    }

    /// The display name of the local participant, if one was given.
    pub closed spec fn spec_name(&self) -> Option<Seq<char>> {
        match self.name {
            Some(name) => Some(name@),
            None => None,
        }
    }

    /// The name under which the user's own lines are shown.
    pub open spec fn spec_echo_name(&self) -> Seq<char> {
        match self.spec_name() {
            Some(name) => name,
            None => placeholder_name(),
        }
    }

    /// A session of the participant `me`, shown as `name`, at its start.
    pub fn new(me: NodeIdentity, name: Option<String>) -> (session: Session)
        ensures
            session.spec_phase() == Phase::Starting,
            session.spec_identity() == me@,
            session.spec_name() == match name {
                Some(name) => Some(name@),
                None => None,
            },
    {
        Session { phase: Phase::Starting, me, name }
    }

    /// Takes note of what the caller reports and moves to the phase that follows.
    pub fn signal(&mut self, signal: Signal)
        ensures
            final(self).spec_phase() == next_phase(old(self).spec_phase(), signal),
            final(self).spec_identity() == old(self).spec_identity(),
            final(self).spec_name() == old(self).spec_name(),
    {
        let next = match (self.phase, signal) {
            (Phase::Starting, Signal::Resolved) => Phase::Connecting,
            (Phase::Connecting, Signal::Joined) => Phase::Announcing,
            (Phase::Announcing, Signal::Announced) => Phase::Active,
            (Phase::Active, Signal::InputClosed) => Phase::ShuttingDown,
            (Phase::Active, Signal::Failed) => Phase::ShuttingDown,
            (Phase::ShuttingDown, Signal::Released) => Phase::Finished,
            (Phase::ShuttingDown, Signal::Failed) => Phase::Finished,
            (Phase::Starting, Signal::Failed) => Phase::Finished,
            (Phase::Connecting, Signal::Failed) => Phase::Finished,
            (Phase::Announcing, Signal::Failed) => Phase::Finished,
            (phase, _) => phase,
        };
        self.phase = next;
    }

    /// The message that announces the display name, where one was given. Its
    /// author is the local participant.
    pub fn announcement(&self) -> (message: Option<Message>)
        ensures
            match self.spec_name() {
                Some(given) => message matches Some(Message::AboutMe { from, name })
                    && from@ == self.spec_identity() && name@ == given,
                None => message is None,
            },
    {
        match &self.name {
            Some(name) => Some(Message::AboutMe { from: self.me, name: name.clone() }),
            None => None,
        }
    }

    /// What to do with `line`, read from the terminal. An active session trims
    /// the line and reads a line that starts with `/` as a command: `/exit`
    /// ends the session, `/list` asks for the names of `directory`, any other
    /// is unknown. Every other line is chat text, to be broadcast in the local
    /// participant's name. A session that is not active ignores the line.
    pub fn handle_line(&mut self, directory: &PeerDirectory, line: &str) -> (action: LineAction)
        ensures
            final(self).spec_identity() == old(self).spec_identity(),
            final(self).spec_name() == old(self).spec_name(),
            old(self).spec_phase() != Phase::Active ==> action is Ignored && final(self).spec_phase() == old(self).spec_phase(),
            old(self).spec_phase() == Phase::Active ==> match kind_of(trimmed(line@)) {
                LineKind::Exit => action is Leave && final(self).spec_phase()
                    == Phase::ShuttingDown,
                LineKind::List => final(self).spec_phase() == Phase::Active && (
                action matches LineAction::List(names) && names@.len() == directory.order().len()
                    && forall|i: int|
                    0 <= i < names@.len() ==> names@[i]@ == directory@[directory.order()[i]]),
                LineKind::Unknown => final(self).spec_phase() == Phase::Active && (
                action matches LineAction::Unknown(command) && command@ == trimmed(line@)),
                LineKind::Chat => final(self).spec_phase() == Phase::Active && (
                action matches LineAction::Say { message, name } && name@ == old(self).spec_echo_name() && (message matches Message::Message { from, text } && from@
                    == old(self).spec_identity() && text@ == trimmed(line@))),
            },
    {
        match self.phase {
            Phase::Active => {},
            _ => {
                return LineAction::Ignored;
            },
        }
        let text = line.trim();
        match classify(text) {
            LineKind::Exit => {
                self.phase = Phase::ShuttingDown;
                LineAction::Leave
            },
            LineKind::List => LineAction::List(directory.snapshot_values()),
            LineKind::Unknown => LineAction::Unknown(text.to_owned()),
            LineKind::Chat => {
                let name = match &self.name {
                    Some(name) => name.clone(),
                    None => String::from_str("you"),
                };
                LineAction::Say {
                    message: Message::Message { from: self.me, text: text.to_owned() },
                    name,
                }
            },
        }
    }

    /// Where the session stands.
    #[verifier::when_used_as_spec(spec_phase)]
    pub fn phase(&self) -> (phase: Phase)
        ensures
            phase == self.spec_phase(),
    {
        self.phase
    }

    /// The identity of the local participant.
    pub fn identity(&self) -> (me: NodeIdentity)
        ensures
            me@ == self.spec_identity(),
    {
        self.me
    }

    /// The display name of the local participant, if one was given.
    pub fn name(&self) -> (name: Option<&String>)
        ensures
            self.spec_name() == match name {
                Some(name) => Some(name@),
                None => None,
            },
    {
        self.name.as_ref()
    }
}

/// What the transport delivered, as far as the session cares.
#[derive(Clone, Debug, PartialEq, Eq)]
pub enum Inbound {
    /// A message arrived on the topic and was decoded.
    Delivered(Message),
    /// A message arrived on the topic and could not be decoded.
    Undecodable,
    /// Any other event.
    Other,
}

/// What the caller does after an event.
#[derive(Clone, Debug, PartialEq, Eq)]
pub enum Dispatch {
    /// Nothing.
    Skip,
    /// Tell that the peer shown as `short` announced `name`.
    Joined { short: String, name: String },
    /// Show the line `text` under `name`.
    Said { name: String, text: String },
    /// Stop dispatching: the payload was malformed.
    Abort,
}

/// The name under which a peer is shown: the one it announced, or else the
/// shortened form of its identity.
pub open spec fn shown_name(names: Map<Seq<u8>, Seq<char>>, id: Seq<u8>) -> Seq<char> {
    match looked_up(names, id) {
        Some(name) => name,
        None => hex_lower(id.subrange(0, 5)),
    }
}

/// Takes one event from the transport. An announcement is recorded in
/// `directory`; a chat line is shown under the name that the directory holds
/// for its author, or under the author's shortened identity. A payload that
/// could not be decoded ends the dispatch, and any other event is passed over.
pub fn on_inbound(directory: &mut PeerDirectory, inbound: Inbound) -> (step: Dispatch)
    ensures
        match inbound {
            Inbound::Delivered(Message::AboutMe { from, name }) => final(directory)@ == recorded(
                old(directory)@,
                from@,
                name@,
            ) && final(directory).order() == (if old(directory)@.contains_key(from@) {
                old(directory).order()
            } else {
                old(directory).order().push(from@)
            }) && (step matches Dispatch::Joined { short, name: announced } && short@ == hex_lower(
                from@.subrange(0, 5),
            ) && announced@ == name@),
            Inbound::Delivered(Message::Message { from, text }) => *final(directory) == *old(directory) && (step matches Dispatch::Said { name, text: said } && name@ == shown_name(
                old(directory)@,
                from@,
            ) && said@ == text@),
            Inbound::Undecodable => *final(directory) == *old(directory) && step is Abort,
            Inbound::Other => *final(directory) == *old(directory) && step is Skip,
        },
{
    match inbound {
        Inbound::Delivered(Message::AboutMe { from, name }) => {
            let short = from.fmt_short();
            directory.record(from, name.clone());
            Dispatch::Joined { short, name }
        },
        Inbound::Delivered(Message::Message { from, text }) => {
            let name = match directory.lookup(&from) {
                Some(name) => name.clone(),
                None => from.fmt_short(),
            };
            Dispatch::Said { name, text }
        },
        Inbound::Undecodable => Dispatch::Abort,
        Inbound::Other => Dispatch::Skip,
    }
}

impl Dispatch {
    /// What to write to the terminal: the line, the end of the line and the
    /// bell, or nothing where there is nothing to show.
    pub fn terminal_text(&self) -> (shown: Option<String>)
        ensures
            match self {
                Dispatch::Joined { short, name } => shown matches Some(text) && text@
                    == join_line_text(short@, name@) + "\n"@ + "\x07"@,
                Dispatch::Said { name, text } => shown matches Some(shown_text) && exists|
                    timestamp: Seq<char>,
                |
                    is_clock_text(timestamp) && shown_text@ == #[trigger] chat_line_text(
                        timestamp,
                        name@,
                        text@,
                    ) + "\n"@ + "\x07"@,
                Dispatch::Skip => shown is None,
                Dispatch::Abort => shown is None,
            },
    {
        match self {
            Dispatch::Joined { short, name } => {
                let mut text = join_line(short.as_str(), name.as_str());
                text.append("\n");
                text.append(bell().as_str());
                Some(text)
            },
            Dispatch::Said { name, text } => {
                let mut shown = chat_line_now(name.as_str(), text.as_str());
                shown.append("\n");
                shown.append(bell().as_str());
                Some(shown)
            },
            Dispatch::Skip => None,
            Dispatch::Abort => None,
        }
    }
}

} // verus!
