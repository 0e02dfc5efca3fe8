//! What the client is started with, and the frames it sends.

use vstd::prelude::*;

use crate::proto::{ClientCommand, ClientFrame, DeviceId, MessageBody, RequestId, RoomId, UserId};

verus! {

#[derive(Debug, Clone)]
pub struct ClientConfig {
    pub server_url: String,
    pub user_id: UserId,
    pub device_id: DeviceId,
    pub display_name: String,
    pub room_id: RoomId,
}

/// The frame that posts `body` to the configured room as the configured
/// user and device, under the given request id.
pub open spec fn post_frame_of(c: ClientConfig, request_id: u64, body: MessageBody) -> ClientFrame {
    ClientFrame {
        request_id: RequestId(request_id),
        command: ClientCommand::PostMessage {
            room_id: c.room_id,
            author_id: c.user_id,
            author_device_id: c.device_id,
            author_display_name: c.display_name,
            body,
        },
    }
}

pub fn post_frame(config: &ClientConfig, request_id: u64, body: MessageBody) -> (r: ClientFrame)
    ensures
        r == post_frame_of(*config, request_id, body),
{
    ClientFrame {
        request_id: RequestId(request_id),
        command: ClientCommand::PostMessage {
            room_id: config.room_id,
            author_id: config.user_id,
            author_device_id: config.device_id,
            author_display_name: config.display_name.clone(),
            body,
        },
    }
}

} // verus!
