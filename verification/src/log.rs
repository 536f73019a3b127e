//! The lines that the proxy writes to its log. The caller supplies the
//! timestamp and does the writing.

use vstd::prelude::*;
use vstd::string::*;

verus! {

/// How much a log line matters.
#[derive(Clone, Copy, Debug, PartialEq, Eq, Structural)]
pub enum Level {
    Info,
    Error,
}

impl Level {
    /// The tag under which lines of this level are written.
    pub open spec fn tag(self) -> Seq<char> {
        match self {
            Level::Info => "INFO"@,
            Level::Error => "ERROR"@,
        }
    }

    /// The tag under which lines of this level are written.
    pub fn tag_text(self) -> (tag: &'static str)
        ensures
            tag@ == self.tag(),
    {
        match self {
            Level::Info => "INFO",
            Level::Error => "ERROR",
        }
    }
}

/// A log line: the timestamp and the level, each in square brackets, then
/// a space and the message.
pub open spec fn line(timestamp: Seq<char>, level: Level, message: Seq<char>) -> Seq<char> {
    seq!['['] + timestamp + "]["@ + level.tag() + "] "@ + message
}

/// What is logged for a request before it is sent upstream: its method and
/// its target.
pub open spec fn access_message(method: Seq<char>, target: Seq<char>) -> Seq<char> {
    method + seq![' '] + target
}

/// What is logged for a request that could not be forwarded: its method,
/// the upstream URL that was tried, and what went wrong.
pub open spec fn request_error_message(
    method: Seq<char>,
    url: Seq<char>,
    description: Seq<char>,
) -> Seq<char> {
    "Request error: "@ + method + seq![' '] + url + ": "@ + description
}

/// What is logged when a server instance ends on an error.
pub open spec fn server_error_message(description: Seq<char>) -> Seq<char> {
    "Server error: "@ + description
}

/// What is logged when a connection is dropped.
pub open spec fn connection_error_message(description: Seq<char>) -> Seq<char> {
    "Connection error: "@ + description
}

/// The usage text.
pub open spec fn usage_text() -> Seq<char> {
    "\nUsage:\nars-proxy <local_port> <remote_url> <remote_port> [--cert <crt_path> --pass-file <pass_file_path>] [--to-https]\n"@
}

/// What is logged when the command line is refused: the reason, and the
/// usage text on the lines that follow.
pub open spec fn configuration_error_message(reason: Seq<char>) -> Seq<char> {
    "Configuration error: "@ + reason + seq!['\n'] + usage_text()
}

/// The later of two times, in any unit.
pub open spec fn later(a: u64, b: u64) -> u64 {
    if a < b {
        b
    } else {
        a
    }
}

/// The time to stamp the next line with, from the time of the last line and
/// what the clock says now. Stamps never go back, even where the clock does.
pub fn next_stamp(last: u64, now: u64) -> (stamp: u64)
    ensures
        stamp == later(last, now),
        stamp >= last,
        stamp >= now,
{
    if now < last {
        last
    } else {
        now
    }
}

/// Writes a log line.
pub fn stamped(timestamp: &str, level: Level, message: &str) -> (text: String)
    ensures
        text@ == line(timestamp@, level, message@),
{
    let mut text = "[".to_owned();
    proof {
        reveal_strlit("[");
        assert("["@ =~= seq!['[']);
    }
    text.append(timestamp);
    text.append("][");
    text.append(level.tag_text());
    text.append("] ");
    text.append(message);
    text
}

/// The message of the line that announces a request.
pub fn access(method: &str, target: &str) -> (message: String)
    ensures
        message@ == access_message(method@, target@),
{
    let mut message = method.to_owned();
    proof {
        reveal_strlit(" ");
        assert(" "@ =~= seq![' ']);
    }
    message.append(" ");
    message.append(target);
    message
}

/// The message of the line that reports a request that could not be
/// forwarded.
pub fn request_error(method: &str, url: &str, description: &str) -> (message: String)
    ensures
        message@ == request_error_message(method@, url@, description@),
{
    let mut message = "Request error: ".to_owned();
    proof {
        reveal_strlit(" ");
        assert(" "@ =~= seq![' ']);
    }
    message.append(method);
    message.append(" ");
    message.append(url);
    message.append(": ");
    message.append(description);
    message
}

/// The message of the line that reports the end of a server instance.
pub fn server_error(description: &str) -> (message: String)
    ensures
        message@ == server_error_message(description@),
{
    let mut message = "Server error: ".to_owned();
    message.append(description);
    message
}

/// The message of the line that reports a dropped connection.
pub fn connection_error(description: &str) -> (message: String)
    ensures
        message@ == connection_error_message(description@),
{
    let mut message = "Connection error: ".to_owned();
    message.append(description);
    message
}

/// The usage text.
pub fn usage() -> (text: &'static str)
    ensures
        text@ == usage_text(),
{
    "\nUsage:\nars-proxy <local_port> <remote_url> <remote_port> [--cert <crt_path> --pass-file <pass_file_path>] [--to-https]\n"
}

/// The message of the line that reports a refused command line.
pub fn configuration_error(reason: &str) -> (message: String)
    ensures
        message@ == configuration_error_message(reason@),
{
    let mut message = "Configuration error: ".to_owned();
    proof {
        reveal_strlit("\n");
        assert("\n"@ =~= seq!['\n']);
    }
    message.append(reason);
    message.append("\n");
    message.append(usage());
    message
}

} // verus!
