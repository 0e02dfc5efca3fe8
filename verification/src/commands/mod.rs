//! Slash command registry, parser, handlers and effect model.
//!
//! Commands are pure functions of `(args, ctx) -> Vec<Effect>`; the client
//! interprets the effects.

pub mod effect;
pub mod handlers;
pub mod parser;
pub mod registry;

pub use effect::Effect;
pub use handlers::{handle_clear, handle_help, handle_me, handle_quit};
pub use parser::{classify_input, parse_input, InputClass, InputKind};
pub use registry::{lookup, registry, Command, Handler, HandlerContext};
