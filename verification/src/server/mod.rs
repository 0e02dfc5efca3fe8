//! The server's decisions: what each client frame is answered with, what is
//! broadcast to the other connections, and the server clock.

pub mod dispatch;
pub mod time;

pub use dispatch::{
    answer_text, handle_command, on_broadcast, on_socket, parse_failure_response,
    respond_to_command, should_forward, BroadcastInput, ConnectionAction, ConnectionId, Dispatch,
    SocketInput,
};
pub use time::{millis_to_i64, now_unix_ms, unix_ms_of};
