//! Spaze: a terminal-first team chat. This crate holds the wire protocol
//! types, the slash-command parser and handlers, the client's state machine,
//! and the server's command dispatch.

pub mod clock;
pub mod text;
pub mod proto;
pub mod commands;
pub mod client;
pub mod server;
