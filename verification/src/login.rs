//! The login menu: password login, the device flow and registration.

use vstd::prelude::*;

use crate::network::github::GitHubAuthRequest;
use crate::network::github_service::GitHubTempTokenResult;
use crate::network::plugin::LoginResult;
use crate::network::plugin::NetworkCommand;
use crate::network::server_connection::RequestError;
use crate::network::server_service::UserCreateResult;
use crate::network::user::LoginError;
use crate::network::user::LoginForm;
use crate::network::user::SwapTokenRequest;
use crate::network::user::UserCreateRequest;
use crate::GameState;

verus! {

/// The code pair of a device flow under way.
#[derive(Debug, Clone, PartialEq, Eq)]
pub struct GitHubAuthData {
    pub user_code: String,
    pub device_code: String,
}

impl GitHubAuthData {
    pub fn new(user_code: String, device_code: String) -> (data: Self)
        ensures
            data.user_code == user_code,
            data.device_code == device_code,
    {
        Self { user_code, device_code }
    }
}

/// Where the login menu stands.
#[derive(Debug, Clone, PartialEq, Eq)]
pub enum LoginStatus {
    NotStarted,
    LoggingIn,
    LoginError(LoginError),
    RegisterWindow,
    Registering,
    RegisteringError(RequestError),
    GitHubRequest,
    GitHubAuth(GitHubAuthData),
}

impl LoginStatus {
    pub open spec fn spec_enable_login_button(&self) -> bool {
        self is NotStarted || self is LoginError
    }

    #[verifier::when_used_as_spec(spec_enable_login_button)]
    pub fn enable_login_button(&self) -> (enabled: bool)
        ensures
            enabled == self.spec_enable_login_button(),
    {
        matches!(self, LoginStatus::NotStarted | LoginStatus::LoginError(_))
    }

    pub fn enable_confirm_button(&self) -> (enabled: bool)
        ensures
            enabled == (self is GitHubAuth),
    {
        matches!(self, LoginStatus::GitHubAuth(_))
    }

    pub fn enable_label(&self) -> (enabled: bool)
        ensures
            enabled == (self is LoggingIn || self is GitHubAuth || self is LoginError),
    {
        matches!(
            self,
            LoginStatus::LoggingIn | LoginStatus::GitHubAuth(_) | LoginStatus::LoginError(_)
        )
    }

    /// The device code of the flow under way.
    pub fn github_device_code(&self) -> (device_code: String)
        requires
            self is GitHubAuth,
        ensures
            device_code == self->GitHubAuth_0.device_code,
    {
        match self {
            LoginStatus::GitHubAuth(data) => data.device_code.clone(),
            _ => unreached(),
        }
    }
}

/// A reply that reached the login menu.
#[derive(Debug, PartialEq, Eq)]
pub enum LoginMenuResult {
    Login(LoginResult),
    Register(UserCreateResult),
}

/// What the user did in the login menu.
#[derive(Debug, Clone, PartialEq, Eq)]
pub enum LoginMenuEvent {
    EditUsername(String),
    EditPassword(String),
    /// The field of the register window that repeats the password.
    EditPasswordRepeat(String),
    Login,
    /// The button of the device flow, with the client id of the application.
    Github(String),
    /// The button that opens the register window.
    Register,
    /// The button that confirms the code of the device flow.
    Confirm,
    /// The registering button of the register window.
    RegisterConfirm,
    /// The cancelling button of the register window.
    RegisterCancel,
}

pub struct UiState {
    pub username: String,
    pub password: String,
    pub password_repeat: String,
    pub login_status: LoginStatus,
}

impl UiState {
    pub open spec fn spec_window_interaction_blocked(&self) -> bool {
        self.login_status is Registering
    }

    pub open spec fn spec_main_interaction_blocked(&self) -> bool {
        self.spec_window_interaction_blocked() || self.login_status is RegisterWindow
    }

    /// The register window is on screen.
    pub open spec fn window_open(self) -> bool {
        self.login_status is RegisterWindow || self.login_status is Registering
    }

    /// `post` is `self` with `status` and all fields emptied.
    pub open spec fn reset_to(self, status: LoginStatus, post: UiState) -> bool {
        &&& post.login_status == status
        &&& post.username@.len() == 0
        &&& post.password@.len() == 0
        &&& post.password_repeat@.len() == 0
    }

    /// `post` differs from `self` in the status alone.
    pub open spec fn with_status(self, status: LoginStatus, post: UiState) -> bool {
        &&& post.login_status == status
        &&& post.username == self.username
        &&& post.password == self.password
        &&& post.password_repeat == self.password_repeat
    }

    /// The status that a reply leaves the menu in.
    pub open spec fn status_after(self, result: LoginMenuResult) -> LoginStatus {
        match result {
            LoginMenuResult::Login(LoginResult::Success) => self.login_status,
            LoginMenuResult::Login(LoginResult::Failure(error)) => LoginStatus::LoginError(error),
            LoginMenuResult::Login(LoginResult::GitHubWait(GitHubTempTokenResult(Ok(token)))) => {
                LoginStatus::GitHubAuth(
                    GitHubAuthData { user_code: token.user_code, device_code: token.device_code },
                )
            },
            LoginMenuResult::Login(LoginResult::GitHubWait(GitHubTempTokenResult(Err(_)))) => {
                LoginStatus::NotStarted
            },
            LoginMenuResult::Register(UserCreateResult(Ok(_))) => LoginStatus::NotStarted,
            LoginMenuResult::Register(UserCreateResult(Err(error))) => {
                LoginStatus::RegisteringError(error)
            },
        }
    }

    /// What the user's action does to the menu: `post` is the menu after
    /// `event` and `command` what is handed to the session.
    pub open spec fn menu_step(
        self,
        event: LoginMenuEvent,
        post: UiState,
        command: Option<NetworkCommand>,
    ) -> bool {
        match event {
            LoginMenuEvent::EditUsername(text) => {
                &&& command is None
                &&& post.username == text
                &&& post.password == self.password
                &&& post.password_repeat == self.password_repeat
                &&& post.login_status == self.login_status
            },
            LoginMenuEvent::EditPassword(text) => {
                &&& command is None
                &&& post.username == self.username
                &&& post.password == text
                &&& post.password_repeat == self.password_repeat
                &&& post.login_status == self.login_status
            },
            LoginMenuEvent::EditPasswordRepeat(text) => {
                &&& command is None
                &&& if self.window_open() {
                    &&& post.username == self.username
                    &&& post.password == self.password
                    &&& post.password_repeat == text
                    &&& post.login_status == self.login_status
                } else {
                    post == self
                }
            },
            LoginMenuEvent::Login => {
                if self.login_status.spec_enable_login_button() {
                    &&& self.with_status(LoginStatus::LoggingIn, post)
                    &&& command == Some(
                        NetworkCommand::Login(
                            LoginForm { username: self.username, password: self.password },
                        ),
                    )
                } else {
                    post == self && command is None
                }
            },
            LoginMenuEvent::Github(client_id) => {
                if self.login_status.spec_enable_login_button() {
                    &&& self.with_status(LoginStatus::GitHubRequest, post)
                    &&& command == Some(NetworkCommand::GithubAuth(GitHubAuthRequest { client_id }))
                } else {
                    post == self && command is None
                }
            },
            LoginMenuEvent::Register => {
                &&& command is None
                &&& if self.spec_main_interaction_blocked() {
                    post == self
                } else {
                    self.reset_to(LoginStatus::RegisterWindow, post)
                }
            },
            LoginMenuEvent::Confirm => {
                if self.login_status is GitHubAuth {
                    &&& self.with_status(LoginStatus::LoggingIn, post)
                    &&& command == Some(
                        NetworkCommand::SwapToken(
                            SwapTokenRequest {
                                device_code: self.login_status->GitHubAuth_0.device_code,
                            },
                        ),
                    )
                } else {
                    post == self && command is None
                }
            },
            LoginMenuEvent::RegisterConfirm => {
                if self.login_status is RegisterWindow && self.password@
                    == self.password_repeat@ {
                    &&& self.with_status(LoginStatus::Registering, post)
                    &&& command == Some(
                        NetworkCommand::UserCreate(
                            UserCreateRequest { username: self.username, password: self.password },
                        ),
                    )
                } else {
                    post == self && command is None
                }
            },
            LoginMenuEvent::RegisterCancel => {
                &&& command is None
                &&& if self.login_status is RegisterWindow {
                    self.reset_to(LoginStatus::NotStarted, post)
                } else {
                    post == self
                }
            },
        }
    }

    #[verifier::when_used_as_spec(spec_window_interaction_blocked)]
    pub fn window_interaction_blocked(&self) -> (blocked: bool)
        ensures
            blocked == self.spec_window_interaction_blocked(),
    {
        matches!(self.login_status, LoginStatus::Registering)
    }

    #[verifier::when_used_as_spec(spec_main_interaction_blocked)]
    pub fn main_interaction_blocked(&self) -> (blocked: bool)
        ensures
            blocked == self.spec_main_interaction_blocked(),
    {
        self.window_interaction_blocked() || matches!(
            self.login_status,
            LoginStatus::RegisterWindow
        )
    }

    pub fn enable_register_window_button(&self) -> (enabled: bool)
        ensures
            enabled == !self.spec_main_interaction_blocked(),
    {
        !self.main_interaction_blocked()
    }

    /// Whether the registering button of the register window can be
    /// pressed.
    pub fn enable_register_button(&self) -> (enabled: bool)
        requires
            self.window_open(),
        ensures
            enabled == (self.login_status is RegisterWindow),
    {
        !self.window_interaction_blocked()
    }

    pub fn enable_cancel_button(&self) -> (enabled: bool)
        ensures
            enabled == !self.spec_window_interaction_blocked(),
    {
        !self.window_interaction_blocked()
    }

    /// Goes back to the start and empties all fields.
    pub fn reset(&mut self)
        ensures
            old(self).reset_to(LoginStatus::NotStarted, *final(self)),
    {
        self.login_status = LoginStatus::NotStarted;
        self.username = String::new();
        self.password = String::new();
        self.password_repeat = String::new();
    }

    /// Takes a reply in: the new status, and the room menu as the next
    /// screen after a login that went through. A reply to a login reaches
    /// the menu only while it logs in or asks for a device code, one to a
    /// registration only while it registers.
    pub fn update_ui_state(&mut self, result: LoginMenuResult) -> (next_state: Option<GameState>)
        requires
            result is Login ==> old(self).login_status is LoggingIn || old(self).login_status
                is GitHubRequest,
            result is Register ==> old(self).login_status is Registering,
        ensures
            old(self).with_status(old(self).status_after(result), *final(self)),
            next_state == if result == LoginMenuResult::Login(LoginResult::Success) {
                Some(GameState::RoomMenu)
            } else {
                None
            },
    {
        match result {
            LoginMenuResult::Login(LoginResult::Success) => Some(GameState::RoomMenu),
            LoginMenuResult::Login(LoginResult::Failure(error)) => {
                self.login_status = LoginStatus::LoginError(error);
                None
            },
            LoginMenuResult::Login(LoginResult::GitHubWait(GitHubTempTokenResult(Ok(token)))) => {
                self.login_status =
                LoginStatus::GitHubAuth(GitHubAuthData::new(token.user_code, token.device_code));
                None
            },
            LoginMenuResult::Login(LoginResult::GitHubWait(GitHubTempTokenResult(Err(_)))) => {
                self.login_status = LoginStatus::NotStarted;
                None
            },
            LoginMenuResult::Register(UserCreateResult(Ok(_))) => {
                self.login_status = LoginStatus::NotStarted;
                None
            },
            LoginMenuResult::Register(UserCreateResult(Err(error))) => {
                self.login_status = LoginStatus::RegisteringError(error);
                None
            },
        }
    }

    /// Takes an action of the user in. A button that is not enabled does
    /// nothing, and neither does a field that is not on screen.
    pub fn login_menu(&mut self, event: LoginMenuEvent) -> (command: Option<NetworkCommand>)
        ensures
            old(self).menu_step(event, *final(self), command),
    {
        match event {
            LoginMenuEvent::EditUsername(text) => {
                self.username = text;
                None
            },
            LoginMenuEvent::EditPassword(text) => {
                self.password = text;
                None
            },
            LoginMenuEvent::EditPasswordRepeat(text) => {
                if matches!(
                    self.login_status,
                    LoginStatus::RegisterWindow | LoginStatus::Registering
                ) {
                    self.password_repeat = text;
                }
                None
            },
            LoginMenuEvent::Login => {
                if self.login_status.enable_login_button() {
                    self.login_status = LoginStatus::LoggingIn;
                    Some(
                        NetworkCommand::Login(
                            LoginForm {
                                username: self.username.clone(),
                                password: self.password.clone(),
                            },
                        ),
                    )
                } else {
                    None
                }
            },
            LoginMenuEvent::Github(client_id) => {
                if self.login_status.enable_login_button() {
                    self.login_status = LoginStatus::GitHubRequest;
                    Some(NetworkCommand::GithubAuth(GitHubAuthRequest { client_id }))
                } else {
                    None
                }
            },
            LoginMenuEvent::Register => {
                if self.enable_register_window_button() {
                    self.reset();
                    self.login_status = LoginStatus::RegisterWindow;
                }
                None
            },
            LoginMenuEvent::Confirm => {
                if self.login_status.enable_confirm_button() {
                    let device_code = self.login_status.github_device_code();
                    self.login_status = LoginStatus::LoggingIn;
                    Some(NetworkCommand::SwapToken(SwapTokenRequest { device_code }))
                } else {
                    None
                }
            },
            LoginMenuEvent::RegisterConfirm => {
                if matches!(self.login_status, LoginStatus::RegisterWindow) && self.password
                    == self.password_repeat {
                    self.login_status = LoginStatus::Registering;
                    Some(
                        NetworkCommand::UserCreate(
                            UserCreateRequest {
                                username: self.username.clone(),
                                password: self.password.clone(),
                            },
                        ),
                    )
                } else {
                    None
                }
            },
            LoginMenuEvent::RegisterCancel => {
                if matches!(self.login_status, LoginStatus::RegisterWindow) {
                    self.reset();
                }
                None
            },
        }
    }
}

impl Default for UiState {
    fn default() -> (state: Self)
        ensures
            state.username@ == "root"@,
            state.password@ == "password"@,
            state.password_repeat@ == "password"@,
            state.login_status == LoginStatus::NotStarted,
    {
        Self {
            username: "root".to_owned(),
            password: "password".to_owned(),
            password_repeat: "password".to_owned(),
            login_status: LoginStatus::NotStarted,
        }
    }
}

} // verus!
