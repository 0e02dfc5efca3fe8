//! Per-connection decisions: how a client frame is answered, what is
//! broadcast to the other subscribers, and which broadcasts a connection
//! forwards.

use vstd::prelude::*;
use vstd::string::StringExecFns;

use crate::proto::{
    ClientCommand, ClientFrame, CommandOutcome, Message, MessageId, ProtocolError, RequestId,
    ResponsePayload, ServerEvent, ServerFrame,
};
use crate::client::app::posted_message;
use crate::proto::ids::uuid_version;
use crate::clock::read_clock;
use crate::server::time::unix_ms_of;

verus! {

/// Identifies one accepted connection.
#[derive(Debug, Clone, Copy, PartialEq, Eq, Hash, Structural)]
pub struct ConnectionId(pub u64);

/// The answer to one client frame: the response to send back, and the event
/// to broadcast (tagged with the sending connection), if any.
pub struct Dispatch {
    pub response: ServerFrame,
    pub broadcast: Option<(ConnectionId, ServerEvent)>,
}

/// The message a post becomes once the server assigns its id and time.
pub open spec fn posted(
    cmd: ClientCommand,
    id: MessageId,
    now_ms: i64,
) -> Message
    recommends
        cmd is PostMessage,
{
    match cmd {
        ClientCommand::PostMessage { room_id, author_id, author_device_id, author_display_name, body } => Message {
            id,
            room_id,
            author_id,
            author_device_id,
            author_display_name,
            created_at_ms: now_ms,
            edited_at_ms: None,
            deleted_at_ms: None,
            body,
        },
        _ => arbitrary(),
    }
}

/// The frame is answered as an unimplemented command: an `InvalidRequest` error.
pub open spec fn is_not_implemented(f: ServerFrame, request_id: RequestId) -> bool {
    f matches ServerFrame::Response {
        request_id: rid,
        result: CommandOutcome::Failed { error: ProtocolError::InvalidRequest { message } },
    } && rid == request_id && message@ == "command not implemented in Phase 1.A"@
}

/// Answer a client frame, given the id and time the server assigns.
///
/// A post is answered with the canonical message (`MessagePosted`) and the
/// same message is broadcast to the other subscribers. Other commands are
/// not implemented yet and are answered with `InvalidRequest`. The response
/// always carries the frame's request id.
pub fn respond_to_command(frame: ClientFrame, conn_id: ConnectionId, id: MessageId, now_ms: i64) -> (r: Dispatch)
    ensures
        r.response matches ServerFrame::Response { request_id, .. } && request_id == frame.request_id,
        frame.command is PostMessage ==> {
            let m = posted(frame.command, id, now_ms);
            &&& r.response == ServerFrame::Response {
                request_id: frame.request_id,
                result: CommandOutcome::Succeeded { payload: ResponsePayload::MessagePosted(m) },
            }
            &&& r.broadcast == Some((conn_id, ServerEvent::MessagePosted(m)))
        },
        !(frame.command is PostMessage) ==> is_not_implemented(r.response, frame.request_id)
            && r.broadcast is None,
{
    match frame.command {
        ClientCommand::PostMessage { room_id, author_id, author_device_id, author_display_name, body } => {
            let msg = Message {
                id,
                room_id,
                author_id,
                author_device_id,
                author_display_name,
                created_at_ms: now_ms,
                edited_at_ms: None,
                deleted_at_ms: None,
                body,
            };
            let copy = msg.clone();
            Dispatch {
                response: ServerFrame::Response {
                    request_id: frame.request_id,
                    result: CommandOutcome::Succeeded { payload: ResponsePayload::MessagePosted(msg) },
                },
                broadcast: Some((conn_id, ServerEvent::MessagePosted(copy))),
            }
        },
        _ => {
            proof {
                reveal_strlit("command not implemented in Phase 1.A");
            }
            Dispatch {
                response: ServerFrame::Response {
                    request_id: frame.request_id,
                    result: CommandOutcome::Failed {
                        error: ProtocolError::InvalidRequest {
                            message: String::from_str("command not implemented in Phase 1.A"),
                        },
                    },
                },
                broadcast: None,
            }
        },
    }
}

/// `r` answers `frame` from connection `conn_id` as the server does: the
/// response carries the frame's request id; a post is answered with the
/// canonical message under some fresh (version-7) id and a non-negative
/// time, which is also broadcast, or, when the clock cannot be read, with `InternalError`; other
/// commands are answered as not implemented.
pub open spec fn answers_frame(frame: ClientFrame, conn_id: ConnectionId, r: Dispatch) -> bool {
    &&& r.response matches ServerFrame::Response { request_id, .. } && request_id == frame.request_id
    &&& frame.command is PostMessage ==> {
        ||| exists|id: MessageId, now_ms: i64|
            uuid_version(id.0) == 7 && now_ms >= 0 && {
                let m = #[trigger] posted(frame.command, id, now_ms);
                &&& r.response == ServerFrame::Response {
                    request_id: frame.request_id,
                    result: CommandOutcome::Succeeded { payload: ResponsePayload::MessagePosted(m) },
                }
                &&& r.broadcast == Some((conn_id, ServerEvent::MessagePosted(m)))
            }
        ||| r.response == ServerFrame::Response {
            request_id: frame.request_id,
            result: CommandOutcome::Failed { error: ProtocolError::InternalError },
        } && r.broadcast is None
    }
    &&& !(frame.command is PostMessage) ==> is_not_implemented(r.response, frame.request_id)
        && r.broadcast is None
}

/// A post is answered with the canonical message under some fresh
/// (version-7) id and a non-negative time, and that message is broadcast,
/// whatever kind of body it carries.
pub open spec fn post_answered(frame: ClientFrame, conn_id: ConnectionId, r: Dispatch) -> bool {
    exists|id: MessageId, now_ms: i64|
        uuid_version(id.0) == 7 && now_ms >= 0 && {
            let m = #[trigger] posted(frame.command, id, now_ms);
            &&& r.response == ServerFrame::Response {
                request_id: frame.request_id,
                result: CommandOutcome::Succeeded { payload: ResponsePayload::MessagePosted(m) },
            }
            &&& r.broadcast == Some((conn_id, ServerEvent::MessagePosted(m)))
        }
}

/// Whatever its body, a post comes back to its sender as the message it
/// posted: same room, author, device, display name and body, under a fresh
/// version-7 id and neither edited nor deleted; and the other connections
/// get that very message.
pub proof fn lemma_post_answer_keeps_post(frame: ClientFrame, conn_id: ConnectionId, r: Dispatch)
    requires
        post_answered(frame, conn_id, r),
        frame.command is PostMessage,
    ensures
        posted_message(r.response) matches Some(m) && {
            &&& frame.command matches ClientCommand::PostMessage {
                room_id,
                author_id,
                author_device_id,
                author_display_name,
                body,
            } && m.room_id == room_id && m.author_id == author_id && m.author_device_id
                == author_device_id && m.author_display_name == author_display_name && m.body == body
            &&& uuid_version(m.id.0) == 7
            &&& m.created_at_ms >= 0
            &&& m.edited_at_ms is None && m.deleted_at_ms is None
            &&& r.broadcast == Some((conn_id, ServerEvent::MessagePosted(m)))
        },
{
    let (id, now_ms) = choose|id: MessageId, now_ms: i64|
        uuid_version(id.0) == 7 && now_ms >= 0 && {
            let m = #[trigger] posted(frame.command, id, now_ms);
            &&& r.response == ServerFrame::Response {
                request_id: frame.request_id,
                result: CommandOutcome::Succeeded { payload: ResponsePayload::MessagePosted(m) },
            }
            &&& r.broadcast == Some((conn_id, ServerEvent::MessagePosted(m)))
        };
    let m = posted(frame.command, id, now_ms);
    assert(posted_message(r.response) == Some(m));
}

/// Answer a client frame: a post gets a fresh message id and the current
/// time (a clock set before the Unix epoch stamps it at the epoch, one past
/// the `i64` range at its end) and is answered as [`respond_to_command`]
/// does; every post therefore succeeds. Other commands are answered as not
/// implemented.
pub fn handle_command(frame: ClientFrame, conn_id: ConnectionId) -> (r: Dispatch)
    ensures
        answers_frame(frame, conn_id, r),
        frame.command is PostMessage ==> post_answered(frame, conn_id, r),
{
    let is_post = match &frame.command {
        ClientCommand::PostMessage { .. } => true,
        _ => false,
    };
    if is_post {
        let (after_epoch, secs, nanos) = read_clock();
        let id = MessageId::new_at(after_epoch, secs, nanos);
        let now = match unix_ms_of(after_epoch, secs, nanos) {
            Some(t) => t,
            None => if after_epoch {
                i64::MAX
            } else {
                0
            },
        };
        let r = respond_to_command(frame, conn_id, id, now);
        assert(posted(frame.command, id, now) == posted(frame.command, id, now));
        r
    } else {
        respond_to_command(frame, conn_id, MessageId::from_uuid(0), 0)
    }
}

/// The response to a text that does not parse as a client frame: an
/// `InvalidRequest` carrying the parser's error, under request id 0 (the real
/// one is unknown). The connection stays open.
pub fn parse_failure_response(error_text: String) -> (r: ServerFrame)
    ensures
        r matches ServerFrame::Response {
            request_id,
            result: CommandOutcome::Failed { error: ProtocolError::InvalidRequest { message } },
        } && request_id.0 == 0 && message@ == "could not parse ClientFrame: "@ + error_text@,
{
    let mut message = String::from_str("could not parse ClientFrame: ");
    message.append(error_text.as_str());
    ServerFrame::Response {
        request_id: RequestId(0),
        result: CommandOutcome::Failed { error: ProtocolError::InvalidRequest { message } },
    }
}

/// Whether a connection forwards a broadcast: never its own.
pub fn should_forward(sender: ConnectionId, me: ConnectionId) -> (r: bool)
    ensures
        r == (sender != me),
{
    sender.0 != me.0
}

/// Answer a text frame: a text that parsed as a client frame is answered as
/// [`handle_command`] does; one that did not is answered as
/// [`parse_failure_response`] does, with the parser's error text, and
/// nothing is broadcast.
pub fn answer_text(parsed: Result<ClientFrame, String>, conn_id: ConnectionId) -> (r: Dispatch)
    ensures
        match parsed {
            Ok(frame) => answers_frame(frame, conn_id, r),
            Err(e) => r.broadcast is None && (r.response matches ServerFrame::Response {
                request_id,
                result: CommandOutcome::Failed { error: ProtocolError::InvalidRequest { message } },
            } && request_id.0 == 0 && message@ == "could not parse ClientFrame: "@ + e@),
        },
{
    match parsed {
        Ok(frame) => handle_command(frame, conn_id),
        Err(e) => Dispatch { response: parse_failure_response(e), broadcast: None },
    }
}

/// What a connection's socket delivered.
#[derive(Debug, Clone, PartialEq, Eq)]
pub enum SocketInput {
    /// A text frame.
    Text(String),
    /// A close frame.
    Close,
    /// A binary, ping or pong frame.
    Other,
    /// A transport error.
    Error,
    /// The stream ended.
    Ended,
}

/// What a connection's broadcast subscription delivered.
pub enum BroadcastInput {
    /// An event and the connection it came from.
    Event(ConnectionId, ServerEvent),
    /// The subscription fell behind by this many events.
    Lagged(u64),
    /// The broadcast channel closed.
    Closed,
}

/// What a connection does next.
pub enum ConnectionAction {
    /// Answer the text frame (see [`answer_text`]).
    Answer(String),
    /// Send this frame to the client.
    Send(ServerFrame),
    /// Nothing; wait for the next input.
    Continue,
    /// Close the connection.
    Stop,
}

/// A connection's reaction to its socket: text is answered, a close frame,
/// an error or the end of the stream stops it, other frames are ignored.
pub fn on_socket(input: SocketInput) -> (r: ConnectionAction)
    ensures
        match input {
            SocketInput::Text(t) => r matches ConnectionAction::Answer(a) && a@ == t@,
            SocketInput::Other => r is Continue,
            _ => r is Stop,
        },
{
    match input {
        SocketInput::Text(t) => ConnectionAction::Answer(t),
        SocketInput::Other => ConnectionAction::Continue,
        _ => ConnectionAction::Stop,
    }
}

/// The frame connection `me` sends its client for an event broadcast by
/// connection `sender`: the event itself, unless `me` sent it.
pub open spec fn forwarded(me: ConnectionId, sender: ConnectionId, event: ServerEvent) -> Option<ServerFrame> {
    if sender != me {
        Some(ServerFrame::Event(event))
    } else {
        None
    }
}

/// A post is seen once by every client: its sender gets the canonical
/// message back in the response, every other connection sends its client
/// that same message as an event, and the sender's own connection does not
/// echo the broadcast back.
pub proof fn lemma_post_seen_once_by_each(
    frame: ClientFrame,
    sender: ConnectionId,
    receiver: ConnectionId,
    id: MessageId,
    now_ms: i64,
)
    requires
        frame.command is PostMessage,
    ensures
        ({
            let m = posted(frame.command, id, now_ms);
            let response = ServerFrame::Response {
                request_id: frame.request_id,
                result: CommandOutcome::Succeeded { payload: ResponsePayload::MessagePosted(m) },
            };
            &&& posted_message(response) == Some(m)
            &&& receiver != sender ==> (forwarded(receiver, sender, ServerEvent::MessagePosted(m)) matches Some(f)
                && posted_message(f) == Some(m))
            &&& forwarded(sender, sender, ServerEvent::MessagePosted(m)) is None
        }),
{
}

/// A connection's reaction to a broadcast: an event from another connection
/// is sent on as an event frame, one of its own is skipped, falling behind
/// is tolerated, and a closed channel stops it.
pub fn on_broadcast(me: ConnectionId, input: BroadcastInput) -> (r: ConnectionAction)
    ensures
        match input {
            BroadcastInput::Event(sender, event) => match forwarded(me, sender, event) {
                Some(f) => r == ConnectionAction::Send(f),
                None => r is Continue,
            },
            BroadcastInput::Lagged(_) => r is Continue,
            BroadcastInput::Closed => r is Stop,
        },
{
    match input {
        BroadcastInput::Event(sender, event) => {
            if should_forward(sender, me) {
                ConnectionAction::Send(ServerFrame::Event(event))
            } else {
                ConnectionAction::Continue
            }
        },
        BroadcastInput::Lagged(_) => ConnectionAction::Continue,
        BroadcastInput::Closed => ConnectionAction::Stop,
    }
}

} // verus!
