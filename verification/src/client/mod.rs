//! The chat client's state: buffers, key handling, effects of commands,
//! and what the screen shows.

pub mod buffers;
pub mod keys;
pub mod theme;
pub mod layout;
pub mod app;
pub mod config;
pub mod identity;
pub mod render;
pub mod screen;
