use vstd::prelude::*;

use crate::network::github::GitHubAuthRequest;
use crate::network::github::GitHubTempTokenResponse;
use crate::network::address::url_through_path;
use crate::network::server_connection::is_base_url;
use crate::network::server_connection::Body;
use crate::network::server_connection::HttpRequest;
use crate::network::server_connection::Method;
use crate::network::server_connection::Payload;
use crate::network::server_connection::Query;
use crate::network::server_connection::RequestError;
use crate::network::server_connection::ServerConnection;
use crate::network::server_connection::APPLICATION_JSON;

verus! {

/// Outcome of the request for a device code.
#[derive(Debug, PartialEq, Eq)]
pub struct GitHubTempTokenResult(pub Result<GitHubTempTokenResponse, RequestError>);

/// The address of the provider of the device flow.
pub const GITHUB_URL: &'static str = "https://github.com";

/// The routes of the provider of the device flow.
pub struct GitHubService {
    server_connection: ServerConnection,
}

impl GitHubService {
    /// The connection the service sends its requests over.
    pub closed spec fn connection(&self) -> ServerConnection {
        self.server_connection
    }

    /// The service of the provider at `base_url`, a URL whose path ends in
    /// a slash.
    pub fn new(base_url: &str) -> (service: Self)
        requires
            is_base_url(base_url@),
        ensures
            service.connection().spec_base_url() == url_through_path(base_url@)->0,
            service.connection().spec_token() is None,
    {
        Self { server_connection: ServerConnection::new(base_url) }
    }

    /// The service of the provider at `base_url`, where that is a URL
    /// whose path ends in a slash.
    pub fn try_new(base_url: &str) -> (service: Option<Self>)
        ensures
            service is Some <==> is_base_url(base_url@),
            service is Some ==> {
                &&& service->0.connection().spec_base_url() == url_through_path(base_url@)->0
                &&& service->0.connection().spec_token() is None
            },
    {
        if ServerConnection::try_new(base_url).is_some() {
            Some(Self::new(base_url))
        } else {
            None
        }
    }

    /// The request for a device code for the application of `body`.
    pub fn request_github_auth(&self, body: GitHubAuthRequest) -> (request: HttpRequest)
        ensures
            self.connection().builds(
                request,
                Method::Post,
                "login/device/code"@,
                Query::Absent,
                Body::Json(Payload::GitHubAuth(body)),
                Some(APPLICATION_JSON@),
            ),
    {
        proof {
            reveal_strlit("login/device/code");
        }
        self.server_connection.request_with_json_result(
            Method::Post,
            "login/device/code",
            Query::Absent,
            Body::Json(Payload::GitHubAuth(body)),
        )
    }
}

} // verus!
