//! Players: identity, nickname, score and role within one room.

use vstd::prelude::*;

verus! {

/// A player's authority within a room. Exactly one player of a room ever
/// holds `Admin`: the first one to join its lobby.
#[derive(Clone, Copy, Debug, PartialEq, Eq, Structural)]
pub enum PlayerRole {
    Admin,
    Member,
    Spectator,
}

/// One connected player. The id is assigned at join time and stable
/// thereafter; the nickname is unique within the room and immutable.
pub struct Player {
    pub id: u128,
    pub nickname: String,
    pub score: u8,
    pub role: PlayerRole,
}

/// Mathematical model of a player.
pub struct PlayerV {
    pub id: u128,
    pub nickname: Seq<char>,
    pub score: u8,
    pub role: PlayerRole,
}

impl View for Player {
    type V = PlayerV;

    open spec fn view(&self) -> PlayerV {
        PlayerV {
            id: self.id,
            nickname: self.nickname@,
            score: self.score,
            role: self.role,
        }
    }
}

} // verus!
