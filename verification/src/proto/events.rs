//! Wire frames exchanged between client and server.
//!
//! Top-level frame types are [`ClientFrame`] (client → server) and
//! [`ServerFrame`] (server → client). Client frames always carry a
//! [`RequestId`] so the matching [`ServerFrame::Response`] can be correlated
//! back. Unsolicited pushes (typing, new message, user joined) arrive as
//! [`ServerFrame::Event`].

use vstd::prelude::*;

use crate::proto::error::ProtocolError;
use crate::proto::ids::{DeviceId, MessageId, RoomId, UserId};
use crate::proto::messages::{Message, MessageBody};

verus! {

/// Per-connection correlation token for client commands and their responses.
///
/// The client increments a counter for each command sent on a given session.
/// Request ids are unique within a single connection, not globally.
#[derive(Debug, Clone, Copy, PartialEq, Eq, Hash, PartialOrd, Ord)]
pub struct RequestId(pub u64);

/// Top-level frame sent client → server.
#[derive(Debug, Clone, PartialEq, Eq)]
pub struct ClientFrame {
    pub request_id: RequestId,
    pub command: ClientCommand,
}

/// Top-level frame sent server → client.
#[derive(Debug, Clone, PartialEq, Eq)]
pub enum ServerFrame {
    /// Reply to a specific [`ClientFrame`]; `request_id` is the one it carried.
    Response { request_id: RequestId, result: CommandOutcome },
    /// Unsolicited server-pushed event (no matching request).
    Event(ServerEvent),
}

/// Outcome of a client command. On the wire the variants are tagged
/// `"outcome": "ok"` and `"outcome": "err"`.
#[derive(Debug, Clone, PartialEq, Eq)]
pub enum CommandOutcome {
    Succeeded { payload: ResponsePayload },
    Failed { error: ProtocolError },
}

/// Successful response payloads. Most commands respond with
/// [`ResponsePayload::Empty`]; commands that return data attach it via a
/// dedicated variant.
#[non_exhaustive]
#[derive(Debug, Clone, PartialEq, Eq)]
pub enum ResponsePayload {
    /// The command succeeded with no return data.
    Empty,
    /// `PostMessage` succeeded — the server returns the canonical [`Message`]
    /// (with server-assigned id and timestamp) for the client to swap in.
    MessagePosted(Message),
}

/// Server-pushed events (not direct responses to client commands).
#[non_exhaustive]
#[derive(Debug, Clone, PartialEq, Eq)]
pub enum ServerEvent {
    /// A new message was posted in a room the client is subscribed to.
    MessagePosted(Message),
    /// A previously-posted message was edited.
    MessageEdited { message_id: MessageId, body: MessageBody, edited_at_ms: i64 },
    /// A previously-posted message was deleted.
    MessageDeleted { message_id: MessageId, deleted_at_ms: i64 },
    /// A user joined a room.
    UserJoined { user_id: UserId, room_id: RoomId },
    /// A user left a room.
    UserLeft { user_id: UserId, room_id: RoomId },
    /// Typing indicator (best-effort fan-out).
    Typing { user_id: UserId, room_id: RoomId },
}

/// Client commands carried inside a [`ClientFrame`].
#[non_exhaustive]
#[derive(Debug, Clone, PartialEq, Eq)]
pub enum ClientCommand {
    PostMessage {
        room_id: RoomId,
        author_id: UserId,
        author_device_id: DeviceId,
        author_display_name: String,
        body: MessageBody,
    },
    EditMessage { message_id: MessageId, body: MessageBody },
    DeleteMessage { message_id: MessageId },
    JoinRoom { room_id: RoomId },
    LeaveRoom { room_id: RoomId },
    StartTyping { room_id: RoomId },
}

} // verus!
