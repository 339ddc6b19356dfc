//! The lobby of a room: its roster and the start of the game.

use vstd::prelude::*;

use crate::network::game::RoomInfo;
use crate::network::game::RoomPhase;
use crate::network::server_connection::RequestError;
use crate::network::server_service::RoomInfoResult;
use crate::player::Player;

verus! {

/// Where the lobby stands.
#[derive(Debug, Clone, PartialEq, Eq)]
pub enum RoomStatus {
    Error(RequestError),
    WaitingForPlayers,
    ReadyToStart,
    Starting,
    Started,
}

/// What the lobby asks about its room.
#[derive(Debug, Clone, PartialEq, Eq)]
pub enum LobbyCommand {
    /// Fetch the state of the room with this id.
    RoomInfo(String),
    /// Start the game in the room with this id.
    StartRoom(String),
}

/// What the user did in the lobby.
#[derive(Debug, Clone, PartialEq, Eq)]
pub enum LobbyEvent {
    /// A player of the roster was picked.
    Select(String),
    Start,
}

pub struct UiState {
    pub room_status: RoomStatus,
    pub name: String,
    pub password: bool,
    pub rubber_number: u8,
    pub game_number: u8,
    pub hand_number: u8,
    pub trick_number: u8,
    pub min_player: u8,
    pub max_player: u8,
    pub players: Vec<Player>,
    pub selected: Option<String>,
    pub phase: RoomPhase,
}

impl UiState {
    /// The status after the server reported `players` members, a lower
    /// bound of `min_player` and `phase`: a lobby that has players enough
    /// keeps the status it had.
    pub open spec fn status_in(self, phase: RoomPhase, players: nat, min_player: u8) -> RoomStatus {
        match phase {
            RoomPhase::Lobby => if players < min_player {
                RoomStatus::WaitingForPlayers
            } else {
                self.room_status
            },
            RoomPhase::ReadyToStart => RoomStatus::ReadyToStart,
            RoomPhase::Playing => RoomStatus::Started,
        }
    }

    /// The lobby as it is entered, with the request for the state of the
    /// room.
    pub fn add_ui_state(room_id: String) -> (entered: (UiState, LobbyCommand))
        ensures
            entered.0.room_status == RoomStatus::WaitingForPlayers,
            entered.0.name@.len() == 0,
            !entered.0.password,
            entered.0.phase == RoomPhase::Lobby,
            entered.0.rubber_number == 0 && entered.0.game_number == 0,
            entered.0.hand_number == 0 && entered.0.trick_number == 0,
            entered.0.min_player == 0 && entered.0.max_player == 0,
            entered.0.players@.len() == 0,
            entered.0.selected is None,
            entered.1 == LobbyCommand::RoomInfo(room_id),
    {
        (UiState::default(), LobbyCommand::RoomInfo(room_id))
    }

    pub open spec fn spec_enable_start_button(&self) -> bool {
        self.room_status is ReadyToStart
    }

    #[verifier::when_used_as_spec(spec_enable_start_button)]
    pub fn enable_start_button(&self) -> (enabled: bool)
        ensures
            enabled == self.spec_enable_start_button(),
    {
        matches!(self.room_status, RoomStatus::ReadyToStart)
    }

    /// Takes the reported state of the room in. A failure changes the
    /// status alone.
    pub fn update_ui_state(&mut self, result: RoomInfoResult)
        ensures
            final(self).selected == old(self).selected,
            match result.0 {
                Ok(info) => {
                    &&& final(self).name == info.name
                    &&& final(self).password == info.password
                    &&& final(self).phase == info.phase
                    &&& final(self).rubber_number == info.rubber_number
                    &&& final(self).game_number == info.game_number
                    &&& final(self).hand_number == info.hand_number
                    &&& final(self).trick_number == info.trick_number
                    &&& final(self).min_player == info.min_player
                    &&& final(self).max_player == info.max_player
                    &&& final(self).players == info.players
                    &&& final(self).room_status == old(self).status_in(
                        info.phase,
                        info.players@.len(),
                        info.min_player,
                    )
                },
                Err(error) => {
                    &&& final(self).room_status == RoomStatus::Error(error)
                    &&& final(self).name == old(self).name
                    &&& final(self).password == old(self).password
                    &&& final(self).phase == old(self).phase
                    &&& final(self).rubber_number == old(self).rubber_number
                    &&& final(self).game_number == old(self).game_number
                    &&& final(self).hand_number == old(self).hand_number
                    &&& final(self).trick_number == old(self).trick_number
                    &&& final(self).min_player == old(self).min_player
                    &&& final(self).max_player == old(self).max_player
                    &&& final(self).players == old(self).players
                },
            },
    {
        match result.0 {
            Ok(info) => {
                self.name = info.name;
                self.password = info.password;
                self.phase = info.phase;
                self.rubber_number = info.rubber_number;
                self.game_number = info.game_number;
                self.hand_number = info.hand_number;
                self.trick_number = info.trick_number;
                self.min_player = info.min_player;
                self.max_player = info.max_player;
                self.players = info.players;
                match self.phase {
                    RoomPhase::Lobby => {
                        let min_player: usize = self.min_player.into();
                        if self.players.len() < min_player {
                            self.room_status = RoomStatus::WaitingForPlayers;
                        }
                    },
                    RoomPhase::ReadyToStart => {
                        self.room_status = RoomStatus::ReadyToStart;
                    },
                    RoomPhase::Playing => {
                        self.room_status = RoomStatus::Started;
                    },
                }
            },
            Err(error) => {
                self.room_status = RoomStatus::Error(error);
            },
        }
    }

    /// Takes an action of the user in, for the room with the id `room_id`.
    /// The start button does nothing unless the room is ready to start.
    pub fn lobby_menu(&mut self, event: LobbyEvent, room_id: String) -> (command: Option<
        LobbyCommand,
    >)
        ensures
            final(self).name == old(self).name,
            final(self).password == old(self).password,
            final(self).phase == old(self).phase,
            final(self).rubber_number == old(self).rubber_number,
            final(self).game_number == old(self).game_number,
            final(self).hand_number == old(self).hand_number,
            final(self).trick_number == old(self).trick_number,
            final(self).min_player == old(self).min_player,
            final(self).max_player == old(self).max_player,
            final(self).players == old(self).players,
            match event {
                LobbyEvent::Select(username) => {
                    &&& final(self).selected == Some(username)
                    &&& final(self).room_status == old(self).room_status
                    &&& command is None
                },
                LobbyEvent::Start => {
                    &&& final(self).selected == old(self).selected
                    &&& if old(self).spec_enable_start_button() {
                        &&& final(self).room_status == RoomStatus::Starting
                        &&& command == Some(LobbyCommand::StartRoom(room_id))
                    } else {
                        &&& final(self).room_status == old(self).room_status
                        &&& command is None
                    }
                },
            },
    {
        match event {
            LobbyEvent::Select(username) => {
                self.selected = Some(username);
                None
            },
            LobbyEvent::Start => {
                if self.enable_start_button() {
                    self.room_status = RoomStatus::Starting;
                    Some(LobbyCommand::StartRoom(room_id))
                } else {
                    None
                }
            },
        }
    }
}

impl Default for UiState {
    fn default() -> (state: Self)
        ensures
            state.room_status == RoomStatus::WaitingForPlayers,
            state.name@.len() == 0,
            !state.password,
            state.phase == RoomPhase::Lobby,
            state.rubber_number == 0 && state.game_number == 0,
            state.hand_number == 0 && state.trick_number == 0,
            state.min_player == 0 && state.max_player == 0,
            state.players@.len() == 0,
            state.selected is None,
    {
        Self {
            room_status: RoomStatus::WaitingForPlayers,
            name: String::new(),
            password: false,
            phase: RoomPhase::Lobby,
            rubber_number: 0,
            game_number: 0,
            hand_number: 0,
            trick_number: 0,
            min_player: 0,
            max_player: 0,
            players: Vec::new(),
            selected: None,
        }
    }
}

} // verus!
