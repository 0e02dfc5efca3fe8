//! Wire protocol types: identifiers, messages, frames and protocol errors.
//! No I/O and no business logic live here.

pub mod error;
pub mod events;
pub mod ids;
pub mod messages;

pub use error::ProtocolError;
pub use events::{
    ClientCommand, ClientFrame, CommandOutcome, RequestId, ResponsePayload, ServerEvent,
    ServerFrame,
};
pub use ids::{DeviceId, MessageId, RoomId, SpaceId, UserId};
pub use messages::{Message, MessageBody};

use vstd::prelude::*;

verus! {

/// Wire protocol version. Bumped when message/event shapes change incompatibly.
pub const PROTOCOL_VERSION: u32 = 1;

} // verus!
