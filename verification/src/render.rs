//! The lines that a session shows on the terminal.

use vstd::prelude::*;
use vstd::string::StringExecFns;

verus! {

/// Whether `c` is a decimal digit.
pub open spec fn is_digit(c: char) -> bool {
    '0' <= c && c <= '9'
}

/// Whether `text` has the shape of a time of day, `HH:MM:SS`.
pub open spec fn is_clock_text(text: Seq<char>) -> bool {
    &&& text.len() == 8
    &&& is_digit(text[0])
    &&& is_digit(text[1])
    &&& text[2] == ':'
    &&& is_digit(text[3])
    &&& is_digit(text[4])
    &&& text[5] == ':'
    &&& is_digit(text[6])
    &&& is_digit(text[7])
}

/// `chrono::Local::now`, formatted as `%H:%M:%S`: the local time of day at the
/// moment of the call, two digits each for the hour, the minute and the second.
#[verifier::external_body]
fn clock_text() -> (text: String)
    ensures
        is_clock_text(text@),
{
    chrono::Local::now().format("%H:%M:%S").to_string()
}

/// What `{:?}` writes for a list of strings.
pub uninterp spec fn debug_text(names: Seq<Seq<char>>) -> Seq<char>;

/// `format!` with `{:?}` on a list of strings: the list as `Debug` writes it.
#[verifier::external_body]
fn format_debug(names: &Vec<String>) -> (text: String)
    ensures
        text@ == debug_text(names.deep_view()),
{
    format!("{:?}", names)
}

/// The line of a chat message: the time in bold green, the name in bold blue,
/// then the text.
pub open spec fn chat_line_text(timestamp: Seq<char>, name: Seq<char>, text: Seq<char>) -> Seq<
    char,
> {
    "\x1b[1;32m["@ + timestamp + "]\x1b[0m \x1b[1;34m"@ + name + ":\x1b[0m "@ + text
}

/// The line that tells of a peer who announced a name.
pub open spec fn join_line_text(short: Seq<char>, name: Seq<char>) -> Seq<char> {
    "-> "@ + short + " joined chat as "@ + name
}

/// The line that answers a command that the session does not know.
pub open spec fn unknown_command_text(command: Seq<char>) -> Seq<char> {
    "unknown command: "@ + command
}

/// The line that lists the names of the directory.
pub open spec fn history_line_text(names: Seq<Seq<char>>) -> Seq<char> {
    "user history: "@ + debug_text(names)
}

/// The line of a chat message said by `name` at the time `timestamp`.
pub fn chat_line(timestamp: &str, name: &str, text: &str) -> (line: String)
    ensures
        line@ == chat_line_text(timestamp@, name@, text@),
{
    let mut line = String::from_str("\x1b[1;32m[");
    line.append(timestamp);
    line.append("]\x1b[0m \x1b[1;34m");
    line.append(name);
    line.append(":\x1b[0m ");
    line.append(text);
    line
}

/// The line of a chat message said by `name` now, by the local clock.
pub fn chat_line_now(name: &str, text: &str) -> (line: String)
    ensures
        exists|timestamp: Seq<char>|
            is_clock_text(timestamp) && line@ == #[trigger] chat_line_text(
                timestamp,
                name@,
                text@,
            ),
{
    let timestamp = clock_text();
    chat_line(timestamp.as_str(), name, text)
}

/// The line that tells that the peer shown as `short` announced `name`.
pub fn join_line(short: &str, name: &str) -> (line: String)
    ensures
        line@ == join_line_text(short@, name@),
{
    let mut line = String::from_str("-> ");
    line.append(short);
    line.append(" joined chat as ");
    line.append(name);
    line
}

/// The line that answers the unknown command `command`.
pub fn unknown_command_line(command: &str) -> (line: String)
    ensures
        line@ == unknown_command_text(command@),
{
    let mut line = String::from_str("unknown command: ");
    line.append(command);
    line
}

/// The line that lists `names`.
pub fn history_line(names: &Vec<String>) -> (line: String)
    ensures
        line@ == history_line_text(names.deep_view()),
{
    let listed = format_debug(names);
    let mut line = String::from_str("user history: ");
    line.append(listed.as_str());
    line
}

/// The line that is shown when the user leaves.
pub fn farewell_line() -> (line: String)
    ensures
        line@ == "leaving chat..."@,
{
    String::from_str("leaving chat...")
}

/// The terminal bell, rung after every line that comes from a peer.
pub fn bell() -> (text: String)
    ensures
        text@ == "\x07"@,
{
    String::from_str("\x07")
}

} // verus!
