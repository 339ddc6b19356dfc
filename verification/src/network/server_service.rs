use vstd::prelude::*;
use vstd::string::StringExecFns;

use crate::network::game::GameCreateRequest;
use crate::network::game::GameCreateResponse;
use crate::network::game::GameJoinRequest;
use crate::network::game::GameJoinResponse;
use crate::network::game::GameListResponse;
use crate::network::game::GameReconnectResponse;
use crate::network::game::RoomInfo;
use crate::network::address::url_through_path;
use crate::network::server_connection::is_base_url;
use crate::network::server_connection::Body;
use crate::network::server_connection::HttpRequest;
use crate::network::server_connection::Method;
use crate::network::server_connection::Payload;
use crate::network::server_connection::Query;
use crate::network::server_connection::RequestError;
use crate::network::server_connection::ServerConnection;
use crate::network::server_connection::APPLICATION_JSON;
use crate::network::user::login_error_of;
use crate::network::user::LoginError;
use crate::network::user::LoginForm;
use crate::network::user::LoginResponse;
use crate::network::user::SwapTokenRequest;
use crate::network::user::UserCreateRequest;
use crate::network::user::UserCreateResponse;
use crate::network::whist_info::RequirementError;
use crate::network::whist_info::WhistInfo;
use crate::network::whist_info::WhistInfoReq;

verus! {

/// Why a connection was not established.
#[derive(Debug, Clone, PartialEq, Eq)]
pub enum ConnectError {
    /// The server could not be asked.
    Request(RequestError),
    /// The server answered, and the client cannot work with it.
    Requirement(RequirementError),
}

impl From<RequestError> for ConnectError {
    fn from(error: RequestError) -> (converted: Self) {
        ConnectError::Request(error)
    }
}

impl vstd::std_specs::convert::FromSpecImpl<RequestError> for ConnectError {
    open spec fn obeys_from_spec() -> bool {
        true
    }

    open spec fn from_spec(error: RequestError) -> Self {
        ConnectError::Request(error)
    }
}

impl From<RequirementError> for ConnectError {
    fn from(error: RequirementError) -> (converted: Self) {
        ConnectError::Requirement(error)
    }
}

impl vstd::std_specs::convert::FromSpecImpl<RequirementError> for ConnectError {
    open spec fn obeys_from_spec() -> bool {
        true
    }

    open spec fn from_spec(error: RequirementError) -> Self {
        ConnectError::Requirement(error)
    }
}

/// Outcome of a registration.
#[derive(Debug, PartialEq, Eq)]
pub struct UserCreateResult(pub Result<UserCreateResponse, RequestError>);

/// Outcome of asking for the rooms.
#[derive(Debug, PartialEq, Eq)]
pub struct GameListResult(pub Result<GameListResponse, RequestError>);

/// Outcome of joining a room.
#[derive(Debug, PartialEq, Eq)]
pub struct GameJoinResult(pub Result<GameJoinResponse, RequestError>);

/// Outcome of the probe for an earlier membership.
#[derive(Debug, PartialEq, Eq)]
pub struct GameReconnectResult(pub Result<GameReconnectResponse, RequestError>);

/// Outcome of opening a room.
#[derive(Debug, PartialEq, Eq)]
pub struct GameCreateResult(pub Result<GameCreateResponse, RequestError>);

/// Outcome of asking for the state of a room.
#[derive(Debug, PartialEq, Eq)]
pub struct RoomInfoResult(pub Result<RoomInfo, RequestError>);

/// The one type of token the client knows how to present.
pub const BEARER_TOKEN_TYPE: &'static str = "Bearer";

/// The routes of the server and how their answers are read.
pub struct ServerService {
    server_connection: ServerConnection,
}

impl ServerService {
    /// The connection the service sends its requests over.
    pub closed spec fn connection(&self) -> ServerConnection {
        self.server_connection
    }

    /// Whether `request` is the one that asks `route` for JSON with the
    /// given method and body over the connection of the service.
    pub open spec fn asks(self, request: HttpRequest, method: Method, route: Seq<char>, body: Body)
        -> bool {
        self.connection().builds(
            request,
            method,
            route,
            Query::Absent,
            body,
            Some(APPLICATION_JSON@),
        )
    }

    /// The service of the server at `base_url`, a URL whose path ends in a
    /// slash.
    pub fn new(base_url: &str) -> (service: Self)
        requires
            is_base_url(base_url@),
        ensures
            service.connection().spec_base_url() == url_through_path(base_url@)->0,
            service.connection().spec_token() is None,
    {
        Self { server_connection: ServerConnection::new(base_url) }
    }

    /// The service of the server at `base_url`, where that is a URL whose
    /// path ends in a slash.
    pub fn try_new(base_url: &str) -> (service: Option<Self>)
        ensures
            service is Some <==> is_base_url(base_url@),
            service is Some ==> {
                &&& service->0.connection().spec_base_url() == url_through_path(base_url@)->0
                &&& service->0.connection().spec_token() is None
            },
    {
        if ServerConnection::try_new(base_url).is_some() {
            Some(Self::new(base_url))
        } else {
            None
        }
    }

    /// The request for what the server reports of itself.
    pub fn get_info(&self) -> (request: HttpRequest)
        ensures
            self.asks(request, Method::Get, ""@, Body::Empty),
    {
        proof {
            reveal_strlit("");
        }
        self.server_connection.request_with_json_result(
            Method::Get,
            "",
            Query::Absent,
            Body::Empty,
        )
    }

    /// Decides whether the client can work with the server: the report
    /// must have come, and must meet `requirement`.
    pub fn check_connection(
        info: Result<WhistInfo, RequestError>,
        requirement: &WhistInfoReq,
    ) -> (checked: Result<(), ConnectError>)
        ensures
            checked == match info {
                Ok(report) => match report.failure(*requirement) {
                    Some(error) => Err::<(), ConnectError>(ConnectError::Requirement(error)),
                    None => Ok(()),
                },
                Err(error) => Err(ConnectError::Request(error)),
            },
    {
        match info {
            Ok(report) => match report.check_validity(requirement) {
                Ok(_) => Ok(()),
                Err(error) => Err(ConnectError::Requirement(error)),
            },
            Err(error) => Err(ConnectError::Request(error)),
        }
    }

    /// The request that presents the credentials of `body`.
    pub fn login(&self, body: LoginForm) -> (request: HttpRequest)
        ensures
            self.asks(request, Method::Post, "user/auth"@, Body::Form(Payload::Login(body))),
    {
        proof {
            reveal_strlit("user/auth");
        }
        self.server_connection.request_with_json_result(
            Method::Post,
            "user/auth",
            Query::Absent,
            Body::Form(Payload::Login(body)),
        )
    }

    /// The request that swaps the device code of `body` for a token.
    pub fn github_auth(&self, body: SwapTokenRequest) -> (request: HttpRequest)
        ensures
            self.asks(
                request,
                Method::Post,
                "oauth2/github/device"@,
                Body::Json(Payload::SwapToken(body)),
            ),
    {
        proof {
            reveal_strlit("oauth2/github/device");
        }
        self.server_connection.request_with_json_result(
            Method::Post,
            "oauth2/github/device",
            Query::Absent,
            Body::Json(Payload::SwapToken(body)),
        )
    }

    /// What the answer to a login or to a swap of tokens leaves behind:
    /// `outcome` is what is reported and `post` the connection afterwards.
    /// Only a bearer token is taken, and nothing else changes the
    /// connection.
    pub open spec fn token_taken(
        self,
        response: Result<LoginResponse, RequestError>,
        outcome: Result<(), LoginError>,
        post: ServerService,
    ) -> bool {
        &&& post.connection().spec_base_url() == self.connection().spec_base_url()
        &&& match response {
            Ok(answer) => if answer.token_type@ == BEARER_TOKEN_TYPE@ {
                &&& outcome == Ok::<(), LoginError>(())
                &&& post.connection().spec_token() == Some(answer.access_token)
            } else {
                &&& outcome == Err::<(), LoginError>(
                    LoginError::UnknownTokenType(answer.token_type),
                )
                &&& post.connection().spec_token() == self.connection().spec_token()
            },
            Err(error) => {
                &&& outcome == Err::<(), LoginError>(login_error_of(error))
                &&& post.connection().spec_token() == self.connection().spec_token()
            },
        }
    }

    /// Takes the answer to a login in: a bearer token becomes the token of
    /// the session; any other answer is an error and leaves the session as
    /// it was. A request that the server refused for the credentials is an
    /// error of its own.
    pub fn login_result(&mut self, response: Result<LoginResponse, RequestError>) -> (outcome:
        Result<(), LoginError>)
        ensures
            old(self).token_taken(response, outcome, *final(self)),
    {
        match response {
            Ok(answer) => {
                let bearer = BEARER_TOKEN_TYPE.to_owned();
                if answer.token_type == bearer {
                    self.server_connection.token(answer.access_token);
                    Ok(())
                } else {
                    Err(LoginError::UnknownTokenType(answer.token_type))
                }
            },
            Err(error) => Err(LoginError::of_request(error)),
        }
    }

    /// Takes the answer to a swap of tokens in, as `login_result` does.
    pub fn github_auth_result(&mut self, response: Result<LoginResponse, RequestError>) -> (outcome:
        Result<(), LoginError>)
        ensures
            old(self).token_taken(response, outcome, *final(self)),
    {
        self.login_result(response)
    }

    /// The request that registers the account of `body`.
    pub fn create_user(&self, body: UserCreateRequest) -> (request: HttpRequest)
        ensures
            self.asks(request, Method::Post, "user/create"@, Body::Json(Payload::UserCreate(body))),
    {
        proof {
            reveal_strlit("user/create");
        }
        self.server_connection.request_with_json_result(
            Method::Post,
            "user/create",
            Query::Absent,
            Body::Json(Payload::UserCreate(body)),
        )
    }

    /// The request for the ids of the rooms.
    pub fn get_games(&self) -> (request: HttpRequest)
        ensures
            self.asks(request, Method::Get, "room/info/ids"@, Body::Empty),
    {
        proof {
            reveal_strlit("room/info/ids");
        }
        self.server_connection.request_with_json_result(
            Method::Get,
            "room/info/ids",
            Query::Absent,
            Body::Empty,
        )
    }

    /// The request that joins the room with the id `game_id`.
    pub fn join_game(&self, game_id: &str, body: GameJoinRequest) -> (request: HttpRequest)
        ensures
            self.asks(
                request,
                Method::Post,
                "room/join/"@ + game_id@,
                Body::Json(Payload::GameJoin(body)),
            ),
    {
        proof {
            reveal_strlit("room/join/");
        }
        let route = "room/join/".to_owned().concat(game_id);
        self.server_connection.request_with_json_result(
            Method::Post,
            route.as_str(),
            Query::Absent,
            Body::Json(Payload::GameJoin(body)),
        )
    }

    /// The request that probes for an earlier membership.
    pub fn reconnect(&self) -> (request: HttpRequest)
        ensures
            self.asks(request, Method::Post, "room/reconnect/"@, Body::Empty),
    {
        proof {
            reveal_strlit("room/reconnect/");
        }
        self.server_connection.request_with_json_result(
            Method::Post,
            "room/reconnect/",
            Query::Absent,
            Body::Empty,
        )
    }

    /// The request that opens the room of `body`.
    pub fn create_game(&self, body: GameCreateRequest) -> (request: HttpRequest)
        ensures
            self.asks(request, Method::Post, "room/create"@, Body::Json(Payload::GameCreate(body))),
    {
        proof {
            reveal_strlit("room/create");
        }
        self.server_connection.request_with_json_result(
            Method::Post,
            "room/create",
            Query::Absent,
            Body::Json(Payload::GameCreate(body)),
        )
    }
}

/// After a login that the server answered with a bearer token, every
/// request of the service carries that token. After any other answer the
/// login has failed, and the requests carry what they carried before.
pub proof fn lemma_requests_carry_token_of_login(
    pre: ServerService,
    response: Result<LoginResponse, RequestError>,
    outcome: Result<(), LoginError>,
    post: ServerService,
    request: HttpRequest,
    method: Method,
    route: Seq<char>,
    body: Body,
)
    requires
        pre.token_taken(response, outcome, post),
        post.asks(request, method, route, body),
    ensures
        match response {
            Ok(answer) => if answer.token_type@ == BEARER_TOKEN_TYPE@ {
                outcome is Ok && request.bearer == Some(answer.access_token)
            } else {
                &&& outcome == Err::<(), LoginError>(
                    LoginError::UnknownTokenType(answer.token_type),
                )
                &&& request.bearer == pre.connection().spec_token()
            },
            Err(error) => {
                &&& outcome == Err::<(), LoginError>(login_error_of(error))
                &&& request.bearer == pre.connection().spec_token()
            },
        },
{
}

} // verus!
