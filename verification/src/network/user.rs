use vstd::prelude::*;

use crate::network::server_connection::RequestError;

verus! {

/// Why a login did not go through.
#[derive(Debug, Clone, PartialEq, Eq)]
pub enum LoginError {
    /// The request failed for another reason than the credentials.
    Request(RequestError),
    /// The server refused the credentials.
    BadCredentials,
    /// The server handed out a token of a type other than a bearer token.
    UnknownTokenType(String),
}

/// The status with which a server refuses credentials.
pub const UNAUTHORIZED: u16 = 401;

/// What a failed request means for a login: a request that the server
/// answered with the status of refused credentials failed for the
/// credentials, any other for itself.
pub open spec fn login_error_of(error: RequestError) -> LoginError {
    if error is Status && error->Status_0 == UNAUTHORIZED {
        LoginError::BadCredentials
    } else {
        LoginError::Request(error)
    }
}

impl LoginError {
    /// What a failed request means for a login.
    pub fn of_request(error: RequestError) -> (converted: Self)
        ensures
            converted == login_error_of(error),
    {
        let refused = match &error {
            RequestError::Status(status, _) => *status == UNAUTHORIZED,
            _ => false,
        };
        if refused {
            LoginError::BadCredentials
        } else {
            LoginError::Request(error)
        }
    }
}

impl From<RequestError> for LoginError {
    fn from(error: RequestError) -> (converted: Self) {
        LoginError::of_request(error)
    }
}

impl vstd::std_specs::convert::FromSpecImpl<RequestError> for LoginError {
    open spec fn obeys_from_spec() -> bool {
        true
    }

    open spec fn from_spec(error: RequestError) -> Self {
        login_error_of(error)
    }
}

/// Credentials sent form-encoded to the authentication route.
#[derive(Debug, Clone, PartialEq, Eq, Hash)]
pub struct LoginForm {
    pub username: String,
    pub password: String,
}

impl LoginForm {
    pub fn new(username: &str, password: &str) -> (form: Self)
        ensures
            form.username@ == username@,
            form.password@ == password@,
    {
        Self { username: username.to_owned(), password: password.to_owned() }
    }
}

/// What the server answers to a successful authentication.
#[derive(Debug, Clone, PartialEq, Eq, Hash)]
pub struct LoginResponse {
    pub access_token: String,
    pub token_type: String,
}

impl LoginResponse {
    pub fn new(access_token: &str, token_type: &str) -> (response: Self)
        ensures
            response.access_token@ == access_token@,
            response.token_type@ == token_type@,
    {
        Self { access_token: access_token.to_owned(), token_type: token_type.to_owned() }
    }
}

/// Exchange of a device code for a session token.
#[derive(Debug, Clone, PartialEq, Eq, Hash)]
pub struct SwapTokenRequest {
    pub device_code: String,
}

impl SwapTokenRequest {
    pub fn new(device_code: &str) -> (request: Self)
        ensures
            request.device_code@ == device_code@,
    {
        Self { device_code: device_code.to_owned() }
    }
}

/// Registration of a new account.
#[derive(Debug, Clone, PartialEq, Eq, Hash)]
pub struct UserCreateRequest {
    pub username: String,
    pub password: String,
}

impl UserCreateRequest {
    pub fn new(username: &str, password: &str) -> (request: Self)
        ensures
            request.username@ == username@,
            request.password@ == password@,
    {
        Self { username: username.to_owned(), password: password.to_owned() }
    }
}

/// The id the server gave the new account.
#[derive(Debug, Clone, PartialEq, Eq, Hash)]
pub struct UserCreateResponse {
    pub user_id: String,
}

impl UserCreateResponse {
    pub fn new(user_id: &str) -> (response: Self)
        ensures
            response.user_id@ == user_id@,
    {
        Self { user_id: user_id.to_owned() }
    }
}

} // verus!
