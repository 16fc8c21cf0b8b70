//! The errors with which a call is turned down.

use vstd::prelude::*;

verus! {

/// Why a call was rejected. A rejected call changes nothing.
#[derive(Clone, Copy, Debug, PartialEq, Eq, Structural)]
pub enum GameError {
    /// The caller is neither the required authority nor holds a valid session for it.
    InvalidAuth,
    /// A session was to be started while one is in progress.
    GameAlreadyActive,
    /// The call needs a session in progress, and there is none.
    GameNotActive,
    /// A player was to join a room that has no free slot.
    BattleRoomFull,
}

impl GameError {
    /// The text shown to a user for this error.
    pub open spec fn message_text(self) -> Seq<char> {
        match self {
            GameError::InvalidAuth => "Invalid authentication"@,
            GameError::GameAlreadyActive => "A game session is already active"@,
            GameError::GameNotActive => "No game session is currently active"@,
            GameError::BattleRoomFull => "The battle room is full"@,
        }
    }

    /// The text shown to a user for this error.
    pub fn message(&self) -> (text: &'static str)
        ensures
            text@ == self.message_text(),
    {
        match self {
            GameError::InvalidAuth => "Invalid authentication",
            GameError::GameAlreadyActive => "A game session is already active",
            GameError::GameNotActive => "No game session is currently active",
            GameError::BattleRoomFull => "The battle room is full",
        }
    }
}

} // verus!
