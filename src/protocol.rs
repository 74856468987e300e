//! The line-based control protocol: one JSON object per line, each with
//! a `"type"` member, in both directions.

use crate::json::{json_string, json_string_literal, type_member, type_member_of};
use vstd::prelude::*;
use vstd::string::*;

verus! {

/// An event reported to the controlling process. Spectrum frames are
/// reported too, but they carry levels that this crate does not hold.
#[derive(Debug)]
pub enum ProtocolEvent {
    RecordingStarted,
    RecordingStopped,
    Transcribing,
    Transcription(String),
    Error(String),
    Pong,
}

/// A command from the controlling process.
#[derive(Clone, Copy, Debug, PartialEq, Eq, Structural)]
pub enum ControlCommand {
    /// Answer with `pong`.
    Ping,
    /// Shut the process down.
    Quit,
    /// Anything else: unknown type, no type, or not JSON at all.
    Ignore,
}

/// The line (without its newline) that reports `e`. Members appear in
/// key order.
pub open spec fn event_line_of(e: ProtocolEvent) -> Seq<char> {
    match e {
        ProtocolEvent::RecordingStarted => "{\"type\":\"recording_started\"}"@,
        ProtocolEvent::RecordingStopped => "{\"type\":\"recording_stopped\"}"@,
        ProtocolEvent::Transcribing => "{\"type\":\"transcribing\"}"@,
        ProtocolEvent::Transcription(text) => "{\"text\":"@ + json_string_literal(text@)
            + ",\"type\":\"transcription\"}"@,
        ProtocolEvent::Error(message) => "{\"message\":"@ + json_string_literal(message@)
            + ",\"type\":\"error\"}"@,
        ProtocolEvent::Pong => "{\"type\":\"pong\"}"@,
    }
}

/// The command named by a line's `"type"` member.
pub open spec fn command_for(tag: Option<Seq<char>>) -> ControlCommand {
    match tag {
        Some(t) => if t == "ping"@ {
            ControlCommand::Ping
        } else if t == "quit"@ {
            ControlCommand::Quit
        } else {
            ControlCommand::Ignore
        },
        None => ControlCommand::Ignore,
    }
}

/// Writes the line that reports `e`.
pub fn event_line(e: &ProtocolEvent) -> (r: String)
    ensures
        r@ == event_line_of(*e),
{
    match e {
        ProtocolEvent::RecordingStarted => String::from_str("{\"type\":\"recording_started\"}"),
        ProtocolEvent::RecordingStopped => String::from_str("{\"type\":\"recording_stopped\"}"),
        ProtocolEvent::Transcribing => String::from_str("{\"type\":\"transcribing\"}"),
        ProtocolEvent::Transcription(text) => {
            let mut line = String::from_str("{\"text\":");
            line.append(json_string(text.as_str()).as_str());
            line.append(",\"type\":\"transcription\"}");
            line
        },
        ProtocolEvent::Error(message) => {
            let mut line = String::from_str("{\"message\":");
            line.append(json_string(message.as_str()).as_str());
            line.append(",\"type\":\"error\"}");
            line
        },
        ProtocolEvent::Pong => String::from_str("{\"type\":\"pong\"}"),
    }
}

/// The command for a `"type"` member already read from a line.
pub fn command_from_type(tag: Option<String>) -> (r: ControlCommand)
    ensures
        r == command_for(
            match tag {
                Some(t) => Some(t@),
                None => None,
            },
        ),
{
    match tag {
        Some(t) => {
            if t == String::from_str("ping") {
                ControlCommand::Ping
            } else if t == String::from_str("quit") {
                ControlCommand::Quit
            } else {
                ControlCommand::Ignore
            }
        },
        None => ControlCommand::Ignore,
    }
}

/// Reads one input line as a command.
pub fn parse_command(line: &str) -> (r: ControlCommand)
    ensures
        r == command_for(type_member(line@)),
{
    command_from_type(type_member_of(line))
}

} // verus!
