//! The typed command handlers: one per command the server serves. Each
//! receives the caller's resolved identity and the decoded, typed request,
//! and runs against the explicit service state.

pub mod room_handlers;
pub mod user_handlers;
