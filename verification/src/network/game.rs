use vstd::prelude::*;

use crate::player::Player;

verus! {

/// The ids of the rooms the server knows.
#[derive(Debug, Clone, PartialEq, Eq, Hash)]
pub struct GameListResponse {
    pub rooms: Vec<String>,
}

/// A room to open; absent bounds leave the server's defaults.
#[derive(Debug, Clone, PartialEq, Eq, Hash)]
pub struct GameCreateRequest {
    pub game_name: String,
    pub password: Option<String>,
    pub min_player: Option<u8>,
    pub max_player: Option<u8>,
}

/// The password for a protected room, if one is given.
#[derive(Debug, Clone, PartialEq, Eq, Hash)]
pub struct GameJoinRequest {
    pub password: Option<String>,
}

/// Membership as the server reports it.
#[derive(Debug, Clone, Copy, PartialEq, Eq, Hash, Structural)]
pub enum GameJoinStatus {
    Joined,
    AlreadyJoined,
    NotJoined,
}

#[derive(Debug, Clone, PartialEq, Eq, Hash)]
pub struct GameJoinResponse {
    pub status: GameJoinStatus,
}

#[derive(Debug, Clone, PartialEq, Eq, Hash)]
pub struct GameCreateResponse {
    pub game_id: String,
}

/// Answer to the probe for an earlier membership.
#[derive(Debug, Clone, PartialEq, Eq, Hash)]
pub struct GameReconnectResponse {
    pub status: GameJoinStatus,
    pub password: Option<bool>,
    pub room_id: Option<String>,
}

/// The stage of a room's life.
#[derive(Debug, Clone, Copy, PartialEq, Eq, Hash, Structural)]
pub enum RoomPhase {
    Lobby,
    ReadyToStart,
    Playing,
}

/// The state of a room as the server reports it.
#[derive(Debug, Clone, PartialEq, Eq, Hash)]
pub struct RoomInfo {
    pub name: String,
    pub password: bool,
    pub phase: RoomPhase,
    pub rubber_number: u8,
    pub game_number: u8,
    pub hand_number: u8,
    pub trick_number: u8,
    pub min_player: u8,
    pub max_player: u8,
    pub players: Vec<Player>,
}

} // verus!
