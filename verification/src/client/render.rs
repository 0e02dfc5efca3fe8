//! Line output for a plain (non-TUI) client: which frames print, and how.

use vstd::prelude::*;
use vstd::string::StringExecFns;

use crate::proto::error::error_text;
use crate::proto::{CommandOutcome, Message, MessageBody, ResponsePayload, ServerEvent, ServerFrame};
use crate::text::{hex_digits, hex_string};

verus! {

/// A line for standard output or standard error.
#[derive(Debug, Clone, PartialEq, Eq)]
pub enum OutputLine {
    Stdout(String),
    Stderr(String),
}

/// The short form of a UUID: its first eight hex digits, lowercase.
pub open spec fn short_uuid(v: u128) -> Seq<char> {
    hex_digits((v as nat) / 0x1_0000_0000_0000_0000_0000_0000nat, 8)
}

/// The short form of a UUID: its first eight hex digits, lowercase.
pub fn short_uuid_string(v: u128) -> (r: String)
    ensures
        r@ == short_uuid(v),
{
    hex_string(v / 0x1_0000_0000_0000_0000_0000_0000u128, 8)
}

/// How a message prints: `<short-author-id> text` for text, and
/// `-- system: text` for system lines; other kinds do not print.
pub open spec fn message_print(m: Message) -> Option<Seq<char>> {
    match m.body {
        MessageBody::Text { content } => Some("<"@ + short_uuid(m.author_id.0) + "> "@ + content@),
        MessageBody::System { content } => Some("-- system: "@ + content@),
        _ => None,
    }
}

/// The line a message prints as, if any.
pub fn print_message(msg: &Message) -> (r: Option<String>)
    ensures
        match message_print(*msg) {
            Some(t) => r matches Some(s) && s@ == t,
            None => r is None,
        },
{
    match &msg.body {
        MessageBody::Text { content } => {
            let mut s = String::from_str("<");
            let short = short_uuid_string(msg.author_id.as_uuid());
            s.append(short.as_str());
            s.append("> ");
            s.append(content.as_str());
            Some(s)
        },
        MessageBody::System { content } => {
            let mut s = String::from_str("-- system: ");
            s.append(content.as_str());
            Some(s)
        },
        MessageBody::Action { .. } => None,
    }
}

/// What a frame prints: a posted message (in a response or an event) prints
/// as a message; an error response prints `error: ...` to standard error;
/// other frames print nothing.
pub fn render_frame(frame: &ServerFrame) -> (r: Option<OutputLine>)
    ensures
        match *frame {
            ServerFrame::Response { result: CommandOutcome::Succeeded { payload: ResponsePayload::MessagePosted(m) }, .. } => match message_print(m) {
                Some(t) => r matches Some(OutputLine::Stdout(s)) && s@ == t,
                None => r is None,
            },
            ServerFrame::Response { result: CommandOutcome::Failed { error }, .. } => r matches Some(OutputLine::Stderr(s)) && s@ == "error: "@ + error_text(error),
            ServerFrame::Event(ServerEvent::MessagePosted(m)) => match message_print(m) {
                Some(t) => r matches Some(OutputLine::Stdout(s)) && s@ == t,
                None => r is None,
            },
            _ => r is None,
        },
{
    match frame {
        ServerFrame::Response { result, .. } => match result {
            CommandOutcome::Succeeded { payload: ResponsePayload::MessagePosted(msg) } => {
                match print_message(msg) {
                    Some(s) => Some(OutputLine::Stdout(s)),
                    None => None,
                }
            },
            CommandOutcome::Succeeded { .. } => None,
            CommandOutcome::Failed { error } => {
                let mut s = String::from_str("error: ");
                let t = error.to_string();
                s.append(t.as_str());
                Some(OutputLine::Stderr(s))
            },
        },
        ServerFrame::Event(ServerEvent::MessagePosted(msg)) => match print_message(msg) {
            Some(s) => Some(OutputLine::Stdout(s)),
            None => None,
        },
        ServerFrame::Event(_) => None,
    }
}

} // verus!
