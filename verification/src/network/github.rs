use vstd::prelude::*;

verus! {

/// Start of the device flow: the client id of the application.
#[derive(Debug, Clone, PartialEq, Eq, Hash)]
pub struct GitHubAuthRequest {
    pub client_id: String,
}

impl GitHubAuthRequest {
    pub fn new(client_id: &str) -> (request: Self)
        ensures
            request.client_id@ == client_id@,
    {
        Self { client_id: client_id.to_owned() }
    }
}

/// The code pair the provider hands out for one login attempt.
#[derive(Debug, Clone, PartialEq, Eq, Hash)]
pub struct GitHubTempTokenResponse {
    pub device_code: String,
    pub expires_in: i32,
    pub interval: u8,
    pub user_code: String,
    pub verification_uri: String,
}

impl GitHubTempTokenResponse {
    pub fn new(
        device_code: &str,
        expires_in: i32,
        interval: u8,
        user_code: &str,
        verification_uri: &str,
    ) -> (response: Self)
        ensures
            response.device_code@ == device_code@,
            response.expires_in == expires_in,
            response.interval == interval,
            response.user_code@ == user_code@,
            response.verification_uri@ == verification_uri@,
    {
        Self {
            device_code: device_code.to_owned(),
            expires_in,
            interval,
            user_code: user_code.to_owned(),
            verification_uri: verification_uri.to_owned(),
        }
    }
}

} // verus!
