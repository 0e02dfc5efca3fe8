//! Chat message types.
//!
//! [`Message`] is the durable, server-authoritative shape broadcast to room
//! subscribers. [`MessageBody`] is a small enum: text, system and action
//! (`/me`) messages. `edited_at_ms` and `deleted_at_ms` live on the
//! [`Message`] itself — server-assigned, easy to query, and they keep state
//! out of [`MessageBody`].

use vstd::prelude::*;

use crate::proto::ids::{DeviceId, MessageId, RoomId, UserId};

verus! {

#[derive(Debug, PartialEq, Eq)]
pub struct Message {
    pub id: MessageId,
    pub room_id: RoomId,
    pub author_id: UserId,
    pub author_device_id: DeviceId,
    /// Display name of the author at post time.
    pub author_display_name: String,
    /// Unix timestamp in milliseconds (server-assigned at post time).
    pub created_at_ms: i64,
    /// Server-assigned timestamp of the most recent edit, if any.
    pub edited_at_ms: Option<i64>,
    /// Server-assigned timestamp of soft-delete, if any.
    pub deleted_at_ms: Option<i64>,
    pub body: MessageBody,
}

#[non_exhaustive]
#[derive(Debug, PartialEq, Eq)]
pub enum MessageBody {
    /// A plain user-authored text message.
    Text { content: String },
    /// A server-generated system event rendered inline (joins, renames, etc.).
    System { content: String },
    /// An action message (`/me waves`), rendered as "* author waves".
    Action { content: String },
}

impl MessageBody {
    /// The text carried by the body, whatever its kind.
    pub open spec fn content_view(&self) -> Seq<char> {
        match self {
            MessageBody::Text { content } => content@,
            MessageBody::System { content } => content@,
            MessageBody::Action { content } => content@,
        }
    }
}

impl Clone for MessageBody {
    fn clone(&self) -> (r: Self)
        ensures
            r == *self,
    {
        match self {
            MessageBody::Text { content } => MessageBody::Text { content: content.clone() },
            MessageBody::System { content } => MessageBody::System { content: content.clone() },
            MessageBody::Action { content } => MessageBody::Action { content: content.clone() },
        }
    }
}

impl Clone for Message {
    fn clone(&self) -> (r: Self)
        ensures
            r == *self,
    {
        Message {
            id: self.id,
            room_id: self.room_id,
            author_id: self.author_id,
            author_device_id: self.author_device_id,
            author_display_name: self.author_display_name.clone(),
            created_at_ms: self.created_at_ms,
            edited_at_ms: self.edited_at_ms,
            deleted_at_ms: self.deleted_at_ms,
            body: self.body.clone(),
        }
    }
}

} // verus!
