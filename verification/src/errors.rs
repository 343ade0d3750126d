//! The error kinds that room and user operations report.

use vstd::prelude::*;

verus! {

/// Every failure a command can report to a caller. None of these crashes
/// the connection or the process; they travel back over the command channel.
#[derive(Clone, Copy, Debug, PartialEq, Eq, Structural)]
pub enum AppError {
    /// A user or room id that no live entity carries.
    NotFound,
    /// The caller already belongs to a room.
    AlreadyInRoom,
    /// The caller belongs to no room, or not to the room named.
    UserNotInRoom,
    /// The room already holds its configured maximum of players.
    RoomFull,
    /// A configuration change attempted by a member who is not the owner.
    Unauthorized,
    /// A request value rejected by a validation rule (empty or oversized name).
    ValidationError,
    /// A request body whose shape does not fit the command.
    DecodeError,
    /// A response that could not be turned back into wire form.
    EncodeError,
    /// A command name under which nothing is registered.
    UnknownCommand,
}

impl AppError {
    /// A short, stable description of the error.
    pub fn message(&self) -> &'static str {
        match self {
            AppError::NotFound => "not found",
            AppError::AlreadyInRoom => "user already in a room",
            AppError::UserNotInRoom => "user not in room",
            AppError::RoomFull => "room is full",
            AppError::Unauthorized => "user is not owner",
            AppError::ValidationError => "invalid request value",
            AppError::DecodeError => "request body does not fit the command",
            AppError::EncodeError => "response could not be encoded",
            AppError::UnknownCommand => "no handler registered for command",
        }
    }
}

} // verus!
