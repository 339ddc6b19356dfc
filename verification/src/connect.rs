//! The connect menu: the address of the server and the attempt to reach it.

use vstd::prelude::*;

use crate::network::plugin::ConnectResult;
use crate::network::plugin::NetworkCommand;
use crate::network::server_service::ConnectError;
use crate::GameState;

verus! {

/// The address the menu proposes.
pub const INITIAL_URL: &'static str = "http://localhost:8080";

/// Where the connect menu stands.
#[derive(Debug, Clone, PartialEq, Eq)]
pub enum ConnectStatus {
    NotStarted,
    Connecting,
    ConnectionError(ConnectError),
}

impl ConnectStatus {
    pub open spec fn spec_enable_connect_button(&self) -> bool {
        self is NotStarted || self is ConnectionError
    }

    #[verifier::when_used_as_spec(spec_enable_connect_button)]
    pub fn enable_connect_button(&self) -> (enabled: bool)
        ensures
            enabled == self.spec_enable_connect_button(),
    {
        matches!(self, ConnectStatus::NotStarted | ConnectStatus::ConnectionError(_))
    }

    pub fn enable_label(&self) -> (enabled: bool)
        ensures
            enabled == (self is Connecting || self is ConnectionError),
    {
        matches!(self, ConnectStatus::Connecting | ConnectStatus::ConnectionError(_))
    }
}

/// What the user did in the connect menu.
#[derive(Debug, Clone, PartialEq, Eq)]
pub enum ConnectMenuEvent {
    EditUrl(String),
    Connect,
}

pub struct UiState {
    pub connect_url: String,
    pub connect_status: ConnectStatus,
}

impl UiState {
    /// Takes the outcome of the attempt in: the login menu as the next
    /// screen after a success, the error as the new status after a
    /// failure. An outcome reaches the menu only while it connects.
    pub fn update_ui_state(&mut self, result: ConnectResult) -> (next_state: Option<GameState>)
        requires
            old(self).connect_status is Connecting,
        ensures
            final(self).connect_url == old(self).connect_url,
            match result {
                ConnectResult::Success => {
                    &&& final(self).connect_status == old(self).connect_status
                    &&& next_state == Some(GameState::LoginMenu)
                },
                ConnectResult::Failure(error) => {
                    &&& final(self).connect_status == ConnectStatus::ConnectionError(error)
                    &&& next_state is None
                },
            },
    {
        match result {
            ConnectResult::Success => Some(GameState::LoginMenu),
            ConnectResult::Failure(error) => {
                self.connect_status = ConnectStatus::ConnectionError(error);
                None
            },
        }
    }

    /// Takes an action of the user in. The connect button does nothing
    /// while an attempt is under way.
    pub fn connect_menu(&mut self, event: ConnectMenuEvent) -> (command: Option<NetworkCommand>)
        ensures
            match event {
                ConnectMenuEvent::EditUrl(text) => {
                    &&& final(self).connect_url == text
                    &&& final(self).connect_status == old(self).connect_status
                    &&& command is None
                },
                ConnectMenuEvent::Connect => {
                    &&& final(self).connect_url == old(self).connect_url
                    &&& if old(self).connect_status.spec_enable_connect_button() {
                        &&& final(self).connect_status == ConnectStatus::Connecting
                        &&& command == Some(NetworkCommand::Connect(old(self).connect_url))
                    } else {
                        &&& final(self).connect_status == old(self).connect_status
                        &&& command is None
                    }
                },
            },
    {
        match event {
            ConnectMenuEvent::EditUrl(text) => {
                self.connect_url = text;
                None
            },
            ConnectMenuEvent::Connect => {
                if self.connect_status.enable_connect_button() {
                    self.connect_status = ConnectStatus::Connecting;
                    Some(NetworkCommand::Connect(self.connect_url.clone()))
                } else {
                    None
                }
            },
        }
    }
}

impl Default for UiState {
    fn default() -> (state: Self)
        ensures
            state.connect_url@ == INITIAL_URL@,
            state.connect_status == ConnectStatus::NotStarted,
    {
        Self { connect_url: INITIAL_URL.to_owned(), connect_status: ConnectStatus::NotStarted }
    }
}

} // verus!
