//! Client-side session layer of a whist card-game client.
//!
//! The crate holds the decisions of the client: which request a command
//! becomes, what a reply means for the session, and how the menus move
//! between their states. Sending requests, awaiting replies and drawing
//! widgets are left to the embedding program, which hands plain values in
//! and takes plain values back.

use vstd::prelude::*;

pub mod card;
pub mod connect;
pub mod login;
pub mod network;
pub mod player;
pub mod response;
pub mod room;
pub mod rooms;
pub mod transfer;

verus! {

/// Name of the game the client expects the server to run.
pub const EXPECTED_GAME: &'static str = "whist";

/// Requirement on the version of the rules core the server reports.
pub const EXPECTED_CORE_VERSION: &'static str = "^0.9";

/// Requirement on the version the server reports of itself.
pub const EXPECTED_SERVER_VERSION: &'static str = "^0.7";

/// The screen the client currently shows.
#[derive(Debug, Clone, Copy, PartialEq, Eq, Hash, Structural)]
pub enum GameState {
    Starting,
    LoadingAssets,
    ConnectMenu,
    LoginMenu,
    RoomMenu,
    RoomLobby,
    Ingame,
}

impl Default for GameState {
    fn default() -> (state: Self)
        ensures
            state == GameState::Starting,
    {
        GameState::Starting
    }
}

} // verus!
