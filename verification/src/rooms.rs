//! The room menu: browsing, joining and opening rooms.

use vstd::prelude::*;
use vstd::string::StringExecFns;

use crate::network::game::GameCreateRequest;
use crate::network::game::GameJoinRequest;
use crate::network::game::GameJoinStatus;
use crate::network::plugin::NetworkCommand;
use crate::network::server_connection::RequestError;
use crate::network::server_service::GameCreateResult;
use crate::network::server_service::GameJoinResult;
use crate::network::server_service::GameListResult;
use crate::network::server_service::GameReconnectResult;
use crate::GameState;

verus! {

/// Why the room menu shows an error.
#[derive(Debug, Clone, PartialEq, Eq)]
pub enum RoomError {
    /// The server answered a join with "not joined".
    NotJoined,
    Request(RequestError),
}

/// Where the room menu stands.
#[derive(Debug, Clone, PartialEq, Eq)]
pub enum RoomStatus {
    Loading,
    Loaded,
    Error(RoomError),
    JoinWindow,
    CreateWindow,
    Joining,
    CreatingAndJoining,
}

/// A reply that reached the room menu.
#[derive(Debug, PartialEq, Eq)]
pub enum RoomResult {
    Reconnect(GameReconnectResult),
    List(GameListResult),
    Join(GameJoinResult),
    Create(GameCreateResult),
}

/// What the user did in the room menu.
#[derive(Debug, Clone, PartialEq, Eq)]
pub enum RoomMenuEvent {
    /// A room of the list was picked.
    Select(String),
    /// The name field of the create window was edited.
    EditName(String),
    /// The password field of a window was edited.
    EditPassword(String),
    Reload,
    Join,
    Create,
    /// The confirming button of the open window.
    Confirm,
    /// The cancelling button of the open window.
    Cancel,
}

/// What a step of the menu asks of its surroundings.
#[derive(Debug, Clone, PartialEq, Eq)]
pub struct Step {
    /// A command to hand to the session.
    pub command: Option<NetworkCommand>,
    /// The screen to switch to.
    pub next_state: Option<GameState>,
    /// The room that was entered, where the server named it.
    pub room_id: Option<String>,
}

impl Step {
    /// Nothing to do.
    pub open spec fn stay() -> Step {
        Step { command: None, next_state: None, room_id: None }
    }

    /// Hand `command` to the session.
    pub open spec fn send(command: NetworkCommand) -> Step {
        Step { command: Some(command), next_state: None, room_id: None }
    }

    /// Leave the menu for the lobby of `room_id`.
    pub open spec fn enter_lobby(room_id: Option<String>) -> Step {
        Step { command: None, next_state: Some(GameState::RoomLobby), room_id }
    }
}

/// The password as it is sent: an empty field means that none is given.
pub open spec fn sent_password(password: String) -> Option<String> {
    if password@.len() == 0 {
        None
    } else {
        Some(password)
    }
}

/// Turns the content of a password field into what is sent.
pub fn normalize_password(password: &String) -> (sent: Option<String>)
    ensures
        sent == sent_password(*password),
{
    if password.as_str().is_empty() {
        None
    } else {
        Some(password.clone())
    }
}

pub struct UiState {
    pub room_status: RoomStatus,
    pub games: Vec<String>,
    pub selected: Option<String>,
    pub name: String,
    pub password: String,
}

impl UiState {
    pub open spec fn spec_window_interaction_blocked(&self) -> bool {
        self.room_status is Joining || self.room_status is CreatingAndJoining
    }

    pub open spec fn spec_main_interaction_blocked(&self) -> bool {
        self.spec_window_interaction_blocked() || self.room_status is Loading
            || self.room_status is JoinWindow || self.room_status is CreateWindow
    }

    pub open spec fn spec_enable_join_button(&self) -> bool {
        !self.spec_main_interaction_blocked() && self.selected is Some
    }

    pub open spec fn spec_enable_join_create_button(&self) -> bool {
        self.room_status is JoinWindow || (self.room_status is CreateWindow && self.name@.len()
            > 0)
    }

    /// A window is on screen: one to fill in, or one whose request is under way.
    pub open spec fn window_open(self) -> bool {
        self.room_status is JoinWindow || self.room_status is CreateWindow
            || self.spec_window_interaction_blocked()
    }

    /// `post` is `self` with `status` and the fields of the windows emptied.
    pub open spec fn reset_to(self, status: RoomStatus, post: UiState) -> bool {
        &&& post.room_status == status
        &&& post.games == self.games
        &&& post.selected == self.selected
        &&& post.name@.len() == 0
        &&& post.password@.len() == 0
    }

    /// `post` differs from `self` in the status alone.
    pub open spec fn with_status(self, status: RoomStatus, post: UiState) -> bool {
        &&& post.room_status == status
        &&& post.games == self.games
        &&& post.selected == self.selected
        &&& post.name == self.name
        &&& post.password == self.password
    }

    /// What a reply does to the menu: `post` and `step` are the menu and
    /// the step after `result` reached the menu `self`.
    pub open spec fn updated(self, result: RoomResult, post: UiState, step: Step) -> bool {
        match result {
            RoomResult::Reconnect(GameReconnectResult(Ok(response))) => {
                if response.status is NotJoined {
                    post == self && step == Step::send(NetworkCommand::GetGameList)
                } else if response.password == Some(true) {
                    &&& post.room_status == RoomStatus::JoinWindow
                    &&& post.selected == response.room_id
                    &&& post.games == self.games
                    &&& post.name == self.name
                    &&& post.password == self.password
                    &&& step == Step::stay()
                } else {
                    post == self && step == Step::enter_lobby(response.room_id)
                }
            },
            RoomResult::Reconnect(GameReconnectResult(Err(error))) => {
                self.with_status(RoomStatus::Error(RoomError::Request(error)), post) && step
                    == Step::stay()
            },
            RoomResult::List(GameListResult(Ok(list))) => {
                &&& post.room_status == RoomStatus::Loaded
                &&& post.games == list.rooms
                &&& post.selected == self.selected
                &&& post.name == self.name
                &&& post.password == self.password
                &&& step == Step::stay()
            },
            RoomResult::List(GameListResult(Err(error))) => {
                self.with_status(RoomStatus::Error(RoomError::Request(error)), post) && step
                    == Step::stay()
            },
            RoomResult::Join(GameJoinResult(Ok(response))) => {
                if response.status is NotJoined {
                    self.with_status(RoomStatus::Error(RoomError::NotJoined), post) && step
                        == Step::stay()
                } else {
                    post == self && step == Step::enter_lobby(self.selected)
                }
            },
            RoomResult::Join(GameJoinResult(Err(error))) => {
                self.with_status(RoomStatus::Error(RoomError::Request(error)), post) && step
                    == Step::stay()
            },
            RoomResult::Create(GameCreateResult(Ok(response))) => {
                post == self && step == Step::enter_lobby(Some(response.game_id))
            },
            RoomResult::Create(GameCreateResult(Err(error))) => {
                self.with_status(RoomStatus::Error(RoomError::Request(error)), post) && step
                    == Step::stay()
            },
        }
    }

    /// What the user's action does to the menu: `post` is the menu after
    /// `event` and `command` what is handed to the session.
    pub open spec fn menu_step(
        self,
        event: RoomMenuEvent,
        post: UiState,
        command: Option<NetworkCommand>,
    ) -> bool {
        match event {
            RoomMenuEvent::Select(room_id) => {
                &&& command is None
                &&& if self.room_status is Loading {
                    post == self
                } else {
                    &&& post.selected == Some(room_id)
                    &&& post.room_status == self.room_status
                    &&& post.games == self.games
                    &&& post.name == self.name
                    &&& post.password == self.password
                }
            },
            RoomMenuEvent::EditName(text) => {
                &&& command is None
                &&& if self.room_status is CreateWindow || self.room_status
                    is CreatingAndJoining {
                    &&& post.name == text
                    &&& post.room_status == self.room_status
                    &&& post.games == self.games
                    &&& post.selected == self.selected
                    &&& post.password == self.password
                } else {
                    post == self
                }
            },
            RoomMenuEvent::EditPassword(text) => {
                &&& command is None
                &&& if self.window_open() {
                    &&& post.password == text
                    &&& post.room_status == self.room_status
                    &&& post.games == self.games
                    &&& post.selected == self.selected
                    &&& post.name == self.name
                } else {
                    post == self
                }
            },
            RoomMenuEvent::Reload => {
                if self.spec_main_interaction_blocked() {
                    post == self && command is None
                } else {
                    self.with_status(RoomStatus::Loading, post) && command == Some(
                        NetworkCommand::GetGameList,
                    )
                }
            },
            RoomMenuEvent::Join => {
                &&& command is None
                &&& if self.spec_enable_join_button() {
                    self.reset_to(RoomStatus::JoinWindow, post)
                } else {
                    post == self
                }
            },
            RoomMenuEvent::Create => {
                &&& command is None
                &&& if self.spec_main_interaction_blocked() {
                    post == self
                } else {
                    self.reset_to(RoomStatus::CreateWindow, post)
                }
            },
            RoomMenuEvent::Confirm => {
                if self.room_status is JoinWindow && self.selected is Some {
                    &&& self.with_status(RoomStatus::Joining, post)
                    &&& command == Some(
                        NetworkCommand::GameJoin(
                            self.selected->0,
                            GameJoinRequest { password: sent_password(self.password) },
                        ),
                    )
                } else if self.room_status is CreateWindow && self.name@.len() > 0 {
                    &&& self.with_status(RoomStatus::CreatingAndJoining, post)
                    &&& command == Some(
                        NetworkCommand::GameCreate(
                            GameCreateRequest {
                                game_name: self.name,
                                password: sent_password(self.password),
                                min_player: None,
                                max_player: None,
                            },
                        ),
                    )
                } else {
                    post == self && command is None
                }
            },
            RoomMenuEvent::Cancel => {
                &&& command is None
                &&& if self.room_status is JoinWindow || self.room_status is CreateWindow {
                    self.reset_to(RoomStatus::Loaded, post)
                } else {
                    post == self
                }
            },
        }
    }

    /// The menu as it is entered, with the probe for an earlier membership
    /// that is sent once on entering.
    pub fn add_ui_state() -> (entered: (UiState, NetworkCommand))
        ensures
            entered.0.room_status == RoomStatus::Loading,
            entered.0.games@.len() == 0,
            entered.0.selected is None,
            entered.0.name@.len() == 0,
            entered.0.password@.len() == 0,
            entered.1 == NetworkCommand::GameReconnect,
    {
        (UiState::default(), NetworkCommand::GameReconnect)
    }

    #[verifier::when_used_as_spec(spec_window_interaction_blocked)]
    pub fn window_interaction_blocked(&self) -> (blocked: bool)
        ensures
            blocked == self.spec_window_interaction_blocked(),
    {
        matches!(self.room_status, RoomStatus::Joining | RoomStatus::CreatingAndJoining)
    }

    #[verifier::when_used_as_spec(spec_main_interaction_blocked)]
    pub fn main_interaction_blocked(&self) -> (blocked: bool)
        ensures
            blocked == self.spec_main_interaction_blocked(),
    {
        self.window_interaction_blocked() || matches!(
            self.room_status,
            RoomStatus::Loading | RoomStatus::JoinWindow | RoomStatus::CreateWindow
        )
    }

    #[verifier::when_used_as_spec(spec_enable_join_button)]
    pub fn enable_join_button(&self) -> (enabled: bool)
        ensures
            enabled == self.spec_enable_join_button(),
    {
        !self.main_interaction_blocked() && self.selected.is_some()
    }

    pub fn enable_create_button(&self) -> (enabled: bool)
        ensures
            enabled == !self.spec_main_interaction_blocked(),
    {
        !self.main_interaction_blocked()
    }

    pub fn enable_reload_button(&self) -> (enabled: bool)
        ensures
            enabled == !self.spec_main_interaction_blocked(),
    {
        !self.main_interaction_blocked()
    }

    pub fn enable_label(&self) -> (enabled: bool)
        ensures
            enabled == (self.room_status is Loading || self.room_status is Error),
    {
        matches!(self.room_status, RoomStatus::Loading | RoomStatus::Error(_))
    }

    /// Whether the confirming button of the open window can be pressed.
    #[verifier::when_used_as_spec(spec_enable_join_create_button)]
    pub fn enable_join_create_button(&self) -> (enabled: bool)
        requires
            self.window_open(),
        ensures
            enabled == self.spec_enable_join_create_button(),
    {
        !self.window_interaction_blocked() && match self.room_status {
            RoomStatus::JoinWindow => true,
            _ => !self.name.as_str().is_empty(),
        }
    }

    pub fn enable_cancel_button(&self) -> (enabled: bool)
        ensures
            enabled == !self.spec_window_interaction_blocked(),
    {
        !self.window_interaction_blocked()
    }

    /// Closes the window and empties its fields.
    pub fn reset(&mut self)
        ensures
            old(self).reset_to(RoomStatus::Loaded, *final(self)),
    {
        self.room_status = RoomStatus::Loaded;
        self.name = String::new();
        self.password = String::new();
    }

    /// Takes a reply in. A reply to a join reaches the menu only while it
    /// is joining, one to a creation only while it is creating.
    pub fn update_ui_state(&mut self, result: RoomResult) -> (step: Step)
        requires
            result is Join ==> old(self).room_status is Joining,
            result is Create ==> old(self).room_status is CreatingAndJoining,
        ensures
            old(self).updated(result, *final(self), step),
    {
        match result {
            RoomResult::Reconnect(GameReconnectResult(Ok(response))) => match response.status {
                GameJoinStatus::NotJoined => Step {
                    command: Some(NetworkCommand::GetGameList),
                    next_state: None,
                    room_id: None,
                },
                _ => match response.password {
                    Some(true) => {
                        self.selected = response.room_id;
                        self.room_status = RoomStatus::JoinWindow;
                        Step { command: None, next_state: None, room_id: None }
                    },
                    _ => Step {
                        command: None,
                        next_state: Some(GameState::RoomLobby),
                        room_id: response.room_id,
                    },
                },
            },
            RoomResult::List(GameListResult(Ok(list))) => {
                self.games = list.rooms;
                self.room_status = RoomStatus::Loaded;
                Step { command: None, next_state: None, room_id: None }
            },
            RoomResult::Join(GameJoinResult(Ok(response))) => match response.status {
                GameJoinStatus::NotJoined => {
                    self.room_status = RoomStatus::Error(RoomError::NotJoined);
                    Step { command: None, next_state: None, room_id: None }
                },
                _ => Step {
                    command: None,
                    next_state: Some(GameState::RoomLobby),
                    room_id: self.selected.clone(),
                },
            },
            RoomResult::Create(GameCreateResult(Ok(response))) => Step {
                command: None,
                next_state: Some(GameState::RoomLobby),
                room_id: Some(response.game_id),
            },
            RoomResult::Reconnect(GameReconnectResult(Err(error)))
            | RoomResult::List(GameListResult(Err(error)))
            | RoomResult::Join(GameJoinResult(Err(error)))
            | RoomResult::Create(GameCreateResult(Err(error))) => {
                self.room_status = RoomStatus::Error(RoomError::Request(error));
                Step { command: None, next_state: None, room_id: None }
            },
        }
    }

    /// Takes an action of the user in. A button that is not enabled does
    /// nothing, and neither does a field that is not on screen.
    pub fn room_menu(&mut self, event: RoomMenuEvent) -> (command: Option<NetworkCommand>)
        ensures
            old(self).menu_step(event, *final(self), command),
    {
        match event {
            RoomMenuEvent::Select(room_id) => {
                if !matches!(self.room_status, RoomStatus::Loading) {
                    self.selected = Some(room_id);
                }
                None
            },
            RoomMenuEvent::EditName(text) => {
                if matches!(
                    self.room_status,
                    RoomStatus::CreateWindow | RoomStatus::CreatingAndJoining
                ) {
                    self.name = text;
                }
                None
            },
            RoomMenuEvent::EditPassword(text) => {
                if matches!(
                    self.room_status,
                    RoomStatus::JoinWindow | RoomStatus::Joining | RoomStatus::CreateWindow
                        | RoomStatus::CreatingAndJoining
                ) {
                    self.password = text;
                }
                None
            },
            RoomMenuEvent::Reload => {
                if self.enable_reload_button() {
                    self.room_status = RoomStatus::Loading;
                    Some(NetworkCommand::GetGameList)
                } else {
                    None
                }
            },
            RoomMenuEvent::Join => {
                if self.enable_join_button() {
                    self.reset();
                    self.room_status = RoomStatus::JoinWindow;
                }
                None
            },
            RoomMenuEvent::Create => {
                if self.enable_create_button() {
                    self.reset();
                    self.room_status = RoomStatus::CreateWindow;
                }
                None
            },
            RoomMenuEvent::Confirm => {
                let password = normalize_password(&self.password);
                match self.room_status {
                    RoomStatus::JoinWindow => match &self.selected {
                        Some(room_id) => {
                            let room_id = room_id.clone();
                            self.room_status = RoomStatus::Joining;
                            Some(NetworkCommand::GameJoin(room_id, GameJoinRequest { password }))
                        },
                        None => None,
                    },
                    RoomStatus::CreateWindow => {
                        if self.name.as_str().is_empty() {
                            None
                        } else {
                            self.room_status = RoomStatus::CreatingAndJoining;
                            Some(
                                NetworkCommand::GameCreate(
                                    GameCreateRequest {
                                        game_name: self.name.clone(),
                                        password,
                                        min_player: None,
                                        max_player: None,
                                    },
                                ),
                            )
                        }
                    },
                    _ => None,
                }
            },
            RoomMenuEvent::Cancel => {
                if matches!(self.room_status, RoomStatus::JoinWindow | RoomStatus::CreateWindow) {
                    self.reset();
                }
                None
            },
        }
    }
}

impl Default for UiState {
    fn default() -> (state: Self)
        ensures
            state.room_status == RoomStatus::Loading,
            state.games@.len() == 0,
            state.selected is None,
            state.name@.len() == 0,
            state.password@.len() == 0,
    {
        Self {
            room_status: RoomStatus::Loading,
            games: Vec::new(),
            selected: None,
            name: String::new(),
            password: String::new(),
        }
    }
}

/// The label of a room in the list.
pub fn game_to_string(game_id: &str) -> (label: String)
    ensures
        label@ == "Game: "@ + game_id@,
{
    let label = "Game: ".to_owned();
    label.concat(game_id)
}

} // verus!
