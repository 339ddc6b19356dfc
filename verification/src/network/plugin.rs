use vstd::prelude::*;

use crate::network::async_worker::Worker;
use crate::network::game::GameCreateRequest;
use crate::network::game::GameCreateResponse;
use crate::network::game::GameJoinRequest;
use crate::network::game::GameJoinResponse;
use crate::network::game::GameListResponse;
use crate::network::game::GameReconnectResponse;
use crate::network::github::GitHubAuthRequest;
use crate::network::github::GitHubTempTokenResponse;
use crate::network::github_service::GitHubService;
use crate::network::github_service::GitHubTempTokenResult;
use crate::network::address::url_through_path;
use crate::network::server_connection::is_base_url;
use crate::network::server_connection::Body;
use crate::network::server_connection::HttpRequest;
use crate::network::server_connection::Method;
use crate::network::server_connection::Payload;
use crate::network::server_connection::Query;
use crate::network::server_connection::RequestError;
use crate::network::server_connection::APPLICATION_JSON;
use crate::network::server_service::ConnectError;
use crate::network::server_service::GameCreateResult;
use crate::network::server_service::GameJoinResult;
use crate::network::server_service::GameListResult;
use crate::network::server_service::GameReconnectResult;
use crate::network::server_service::ServerService;
use crate::network::server_service::UserCreateResult;
use crate::network::user::LoginError;
use crate::network::user::LoginForm;
use crate::network::user::LoginResponse;
use crate::network::user::SwapTokenRequest;
use crate::network::user::UserCreateRequest;
use crate::network::user::UserCreateResponse;
use crate::network::websocket::WebSocketError;
use crate::network::whist_info::WhistInfo;
use crate::network::whist_info::WhistInfoReq;

verus! {

/// Outcome of a connection attempt, as the connect menu takes it.
#[derive(Debug, PartialEq, Eq)]
pub enum ConnectResult {
    Success,
    Failure(ConnectError),
}

/// Outcome of a step of a login, as the login menu takes it.
#[derive(Debug, PartialEq, Eq)]
pub enum LoginResult {
    Success,
    Failure(LoginError),
    /// The provider answered the request for a device code.
    GitHubWait(GitHubTempTokenResult),
}

/// What the frame loop asks of the session.
#[derive(Debug, Clone, PartialEq, Eq)]
pub enum NetworkCommand {
    Connect(String),
    Login(LoginForm),
    GetGameList,
    GameJoin(String, GameJoinRequest),
    GameCreate(GameCreateRequest),
    GameReconnect,
    GithubAuth(GitHubAuthRequest),
    SwapToken(SwapTokenRequest),
    UserCreate(UserCreateRequest),
}

/// What the session answers to the frame loop.
#[derive(Debug, PartialEq, Eq)]
pub enum NetworkResponse {
    ConnectSuccess,
    ConnectFailure(ConnectError),
    GithubAuth(GitHubTempTokenResult),
    LoginSuccess,
    LoginFailure(LoginError),
    UserCreate(UserCreateResult),
    GameList(GameListResult),
    GameJoin(GameJoinResult),
    GameReconnect(GameReconnectResult),
    GameCreate(GameCreateResult),
}

/// An answer of the session as the menus take it.
#[derive(Debug, PartialEq, Eq)]
pub enum NetworkResult {
    Connect(ConnectResult),
    Login(LoginResult),
    UserCreate(UserCreateResult),
    GameList(GameListResult),
    GameJoin(GameJoinResult),
    GameReconnect(GameReconnectResult),
    GameCreate(GameCreateResult),
}

/// The kind of reply the session waits for.
#[derive(Debug, Clone, Copy, PartialEq, Eq, Hash, Structural)]
pub enum Awaited {
    Info,
    Login,
    DeviceCode,
    UserCreate,
    GameList,
    GameJoin,
    GameReconnect,
    GameCreate,
}

/// What came back for the request of a command: the decoded answer, or
/// why there is none.
#[derive(Debug, PartialEq, Eq)]
pub enum Reply {
    Info(Result<WhistInfo, RequestError>),
    Login(Result<LoginResponse, RequestError>),
    DeviceCode(Result<GitHubTempTokenResponse, RequestError>),
    UserCreate(Result<UserCreateResponse, RequestError>),
    GameList(Result<GameListResponse, RequestError>),
    GameJoin(Result<GameJoinResponse, RequestError>),
    GameReconnect(Result<GameReconnectResponse, RequestError>),
    GameCreate(Result<GameCreateResponse, RequestError>),
}

impl Reply {
    /// The kind of the reply.
    pub open spec fn spec_kind(&self) -> Awaited {
        match self {
            Reply::Info(_) => Awaited::Info,
            Reply::Login(_) => Awaited::Login,
            Reply::DeviceCode(_) => Awaited::DeviceCode,
            Reply::UserCreate(_) => Awaited::UserCreate,
            Reply::GameList(_) => Awaited::GameList,
            Reply::GameJoin(_) => Awaited::GameJoin,
            Reply::GameReconnect(_) => Awaited::GameReconnect,
            Reply::GameCreate(_) => Awaited::GameCreate,
        }
    }

    #[verifier::when_used_as_spec(spec_kind)]
    pub fn kind(&self) -> (kind: Awaited)
        ensures
            kind == self.spec_kind(),
    {
        match self {
            Reply::Info(_) => Awaited::Info,
            Reply::Login(_) => Awaited::Login,
            Reply::DeviceCode(_) => Awaited::DeviceCode,
            Reply::UserCreate(_) => Awaited::UserCreate,
            Reply::GameList(_) => Awaited::GameList,
            Reply::GameJoin(_) => Awaited::GameJoin,
            Reply::GameReconnect(_) => Awaited::GameReconnect,
            Reply::GameCreate(_) => Awaited::GameCreate,
        }
    }
}

/// The outcome that an answer to a login stands for.
pub open spec fn login_outcome(response: NetworkResponse) -> Result<(), LoginError> {
    match response {
        NetworkResponse::LoginFailure(error) => Err(error),
        _ => Ok(()),
    }
}

/// The session with a server: the connection, once there is one, and the
/// one request that is under way. Commands are taken one at a time: the
/// reply to one is taken in before the next command is.
pub struct Session {
    /// What the client requires of a server.
    requirement: WhistInfoReq,
    /// The provider of the device flow.
    github_service: GitHubService,
    /// The server, from a connection attempt on.
    server_service: Option<ServerService>,
    /// The reply that is waited for.
    awaited: Option<Awaited>,
}

impl Session {
    pub closed spec fn requirement(&self) -> WhistInfoReq {
        self.requirement
    }

    pub closed spec fn github_service(&self) -> GitHubService {
        self.github_service
    }

    /// The server the session talks to, if there is one.
    pub closed spec fn server_service(&self) -> Option<ServerService> {
        self.server_service
    }

    /// The kind of reply that is under way, if one is.
    pub closed spec fn awaited(&self) -> Option<Awaited> {
        self.awaited
    }

    /// Whether the session is in order: while it waits for a reply of the
    /// server, the server is there.
    pub open spec fn wf(self) -> bool {
        self.awaited() is Some && self.awaited() != Some(Awaited::DeviceCode)
            ==> self.server_service() is Some
    }

    /// Whether the session can take `command` now: none is under way, the
    /// address of a connection is the URL of a base, and every command
    /// to the server comes after a connection attempt.
    pub open spec fn accepts(self, command: NetworkCommand) -> bool {
        &&& self.awaited() is None
        &&& match command {
            NetworkCommand::Connect(base_url) => is_base_url(base_url@),
            NetworkCommand::GithubAuth(_) => true,
            _ => self.server_service() is Some,
        }
    }

    /// What taking `command` does: `post` is the session afterwards and
    /// `request` what is to be sent.
    pub open spec fn begun(self, command: NetworkCommand, post: Session, request: HttpRequest)
        -> bool {
        &&& post.requirement() == self.requirement()
        &&& post.github_service() == self.github_service()
        &&& match command {
            NetworkCommand::Connect(base_url) => {
                &&& post.awaited() == Some(Awaited::Info)
                &&& post.server_service() matches Some(service)
                &&& service.connection().spec_base_url() == url_through_path(base_url@)->0
                &&& service.connection().spec_token() is None
                &&& service.asks(request, Method::Get, ""@, Body::Empty)
            },
            NetworkCommand::GithubAuth(body) => {
                &&& post.awaited() == Some(Awaited::DeviceCode)
                &&& post.server_service() == self.server_service()
                &&& self.github_service().connection().builds(
                    request,
                    Method::Post,
                    "login/device/code"@,
                    Query::Absent,
                    Body::Json(Payload::GitHubAuth(body)),
                    Some(APPLICATION_JSON@),
                )
            },
            NetworkCommand::SwapToken(body) => {
                &&& post.awaited() == Some(Awaited::Login)
                &&& post.server_service() == self.server_service()
                &&& self.server_service()->0.asks(
                    request,
                    Method::Post,
                    "oauth2/github/device"@,
                    Body::Json(Payload::SwapToken(body)),
                )
            },
            NetworkCommand::Login(body) => {
                &&& post.awaited() == Some(Awaited::Login)
                &&& post.server_service() == self.server_service()
                &&& self.server_service()->0.asks(
                    request,
                    Method::Post,
                    "user/auth"@,
                    Body::Form(Payload::Login(body)),
                )
            },
            NetworkCommand::UserCreate(body) => {
                &&& post.awaited() == Some(Awaited::UserCreate)
                &&& post.server_service() == self.server_service()
                &&& self.server_service()->0.asks(
                    request,
                    Method::Post,
                    "user/create"@,
                    Body::Json(Payload::UserCreate(body)),
                )
            },
            NetworkCommand::GameReconnect => {
                &&& post.awaited() == Some(Awaited::GameReconnect)
                &&& post.server_service() == self.server_service()
                &&& self.server_service()->0.asks(
                    request,
                    Method::Post,
                    "room/reconnect/"@,
                    Body::Empty,
                )
            },
            NetworkCommand::GetGameList => {
                &&& post.awaited() == Some(Awaited::GameList)
                &&& post.server_service() == self.server_service()
                &&& self.server_service()->0.asks(
                    request,
                    Method::Get,
                    "room/info/ids"@,
                    Body::Empty,
                )
            },
            NetworkCommand::GameJoin(id, body) => {
                &&& post.awaited() == Some(Awaited::GameJoin)
                &&& post.server_service() == self.server_service()
                &&& self.server_service()->0.asks(
                    request,
                    Method::Post,
                    "room/join/"@ + id@,
                    Body::Json(Payload::GameJoin(body)),
                )
            },
            NetworkCommand::GameCreate(body) => {
                &&& post.awaited() == Some(Awaited::GameCreate)
                &&& post.server_service() == self.server_service()
                &&& self.server_service()->0.asks(
                    request,
                    Method::Post,
                    "room/create"@,
                    Body::Json(Payload::GameCreate(body)),
                )
            },
        }
    }

    /// What taking `reply` in does: `post` is the session afterwards and
    /// `response` what is answered to the frame loop. A connection that
    /// the server failed is dropped; a token is kept only where a login
    /// went through.
    pub open spec fn completed(self, reply: Reply, post: Session, response: NetworkResponse)
        -> bool {
        &&& post.requirement() == self.requirement()
        &&& post.github_service() == self.github_service()
        &&& post.awaited() is None
        &&& match reply {
            Reply::Info(Ok(report)) => match report.failure(self.requirement()) {
                None => {
                    &&& response == NetworkResponse::ConnectSuccess
                    &&& post.server_service() == self.server_service()
                },
                Some(error) => {
                    &&& response == NetworkResponse::ConnectFailure(
                        ConnectError::Requirement(error),
                    )
                    &&& post.server_service() is None
                },
            },
            Reply::Info(Err(error)) => {
                &&& response == NetworkResponse::ConnectFailure(ConnectError::Request(error))
                &&& post.server_service() is None
            },
            Reply::Login(answer) => {
                &&& response is LoginSuccess || response is LoginFailure
                &&& post.server_service() is Some
                &&& self.server_service()->0.token_taken(
                    answer,
                    login_outcome(response),
                    post.server_service()->0,
                )
            },
            Reply::DeviceCode(answer) => {
                &&& response == NetworkResponse::GithubAuth(GitHubTempTokenResult(answer))
                &&& post.server_service() == self.server_service()
            },
            Reply::UserCreate(answer) => {
                &&& response == NetworkResponse::UserCreate(UserCreateResult(answer))
                &&& post.server_service() == self.server_service()
            },
            Reply::GameList(answer) => {
                &&& response == NetworkResponse::GameList(GameListResult(answer))
                &&& post.server_service() == self.server_service()
            },
            Reply::GameJoin(answer) => {
                &&& response == NetworkResponse::GameJoin(GameJoinResult(answer))
                &&& post.server_service() == self.server_service()
            },
            Reply::GameReconnect(answer) => {
                &&& response == NetworkResponse::GameReconnect(GameReconnectResult(answer))
                &&& post.server_service() == self.server_service()
            },
            Reply::GameCreate(answer) => {
                &&& response == NetworkResponse::GameCreate(GameCreateResult(answer))
                &&& post.server_service() == self.server_service()
            },
        }
    }

    /// A session that is not connected, for a client with the given
    /// requirement on its server and the given provider of the device
    /// flow.
    pub fn new(requirement: WhistInfoReq, github_service: GitHubService) -> (session: Self)
        ensures
            session.requirement() == requirement,
            session.github_service() == github_service,
            session.server_service() is None,
            session.awaited() is None,
            session.wf(),
    {
        Self { requirement, github_service, server_service: None, awaited: None }
    }

    /// Whether a server is there to talk to.
    pub fn is_connected(&self) -> (connected: bool)
        ensures
            connected == self.server_service() is Some,
    {
        self.server_service.is_some()
    }

    /// The kind of reply that is under way, if one is.
    pub fn pending(&self) -> (awaited: Option<Awaited>)
        ensures
            awaited == self.awaited(),
    {
        self.awaited
    }

    /// Ends the session with the server: the connection and its token are
    /// dropped, and a reply that is still under way is no longer waited
    /// for.
    pub fn disconnect(&mut self)
        ensures
            final(self).requirement() == old(self).requirement(),
            final(self).github_service() == old(self).github_service(),
            final(self).server_service() is None,
            final(self).awaited() is None,
            final(self).wf(),
    {
        self.server_service = None;
        self.awaited = None;
    }

    /// Takes a command that the session accepts and returns the request
    /// to send for it. A connection replaces the server the session had.
    pub fn begin(&mut self, command: NetworkCommand) -> (request: HttpRequest)
        requires
            old(self).accepts(command),
        ensures
            old(self).begun(command, *final(self), request),
            final(self).wf(),
    {
        match command {
            NetworkCommand::Connect(base_url) => {
                let service = ServerService::new(base_url.as_str());
                let request = service.get_info();
                self.server_service = Some(service);
                self.awaited = Some(Awaited::Info);
                request
            },
            NetworkCommand::GithubAuth(body) => {
                let request = self.github_service.request_github_auth(body);
                self.awaited = Some(Awaited::DeviceCode);
                request
            },
            NetworkCommand::SwapToken(body) => {
                let request = self.server_service.as_ref().unwrap().github_auth(body);
                self.awaited = Some(Awaited::Login);
                request
            },
            NetworkCommand::Login(body) => {
                let request = self.server_service.as_ref().unwrap().login(body);
                self.awaited = Some(Awaited::Login);
                request
            },
            NetworkCommand::UserCreate(body) => {
                let request = self.server_service.as_ref().unwrap().create_user(body);
                self.awaited = Some(Awaited::UserCreate);
                request
            },
            NetworkCommand::GameReconnect => {
                let request = self.server_service.as_ref().unwrap().reconnect();
                self.awaited = Some(Awaited::GameReconnect);
                request
            },
            NetworkCommand::GetGameList => {
                let request = self.server_service.as_ref().unwrap().get_games();
                self.awaited = Some(Awaited::GameList);
                request
            },
            NetworkCommand::GameJoin(id, body) => {
                let request = self.server_service.as_ref().unwrap().join_game(id.as_str(), body);
                self.awaited = Some(Awaited::GameJoin);
                request
            },
            NetworkCommand::GameCreate(body) => {
                let request = self.server_service.as_ref().unwrap().create_game(body);
                self.awaited = Some(Awaited::GameCreate);
                request
            },
        }
    }

    /// Takes a command where the session accepts it, and returns the
    /// request to send for it; otherwise it leaves the session as it is.
    pub fn try_begin(&mut self, command: NetworkCommand) -> (request: Option<HttpRequest>)
        ensures
            request is Some <==> old(self).accepts(command),
            request matches Some(request) ==> old(self).begun(command, *final(self), request),
            request is Some ==> final(self).wf(),
            request is None ==> *final(self) == *old(self),
    {
        if self.awaited.is_some() {
            return None;
        }
        let accepted = match &command {
            NetworkCommand::Connect(base_url) => ServerService::try_new(
                base_url.as_str(),
            ).is_some(),
            NetworkCommand::GithubAuth(_) => true,
            _ => self.server_service.is_some(),
        };
        if accepted {
            Some(self.begin(command))
        } else {
            None
        }
    }

    /// Takes the reply to the request under way in and returns what is
    /// answered to the frame loop.
    pub fn complete(&mut self, reply: Reply) -> (response: NetworkResponse)
        requires
            old(self).wf(),
            old(self).awaited() == Some(reply.kind()),
        ensures
            old(self).completed(reply, *final(self), response),
            final(self).wf(),
    {
        self.awaited = None;
        match reply {
            Reply::Info(info) => match ServerService::check_connection(info, &self.requirement) {
                Ok(()) => NetworkResponse::ConnectSuccess,
                Err(error) => {
                    self.server_service = None;
                    NetworkResponse::ConnectFailure(error)
                },
            },
            Reply::Login(answer) => {
                let mut service = self.server_service.take().unwrap();
                let outcome = service.login_result(answer);
                self.server_service = Some(service);
                match outcome {
                    Ok(()) => NetworkResponse::LoginSuccess,
                    Err(error) => NetworkResponse::LoginFailure(error),
                }
            },
            Reply::DeviceCode(answer) => NetworkResponse::GithubAuth(GitHubTempTokenResult(answer)),
            Reply::UserCreate(answer) => NetworkResponse::UserCreate(UserCreateResult(answer)),
            Reply::GameList(answer) => NetworkResponse::GameList(GameListResult(answer)),
            Reply::GameJoin(answer) => NetworkResponse::GameJoin(GameJoinResult(answer)),
            Reply::GameReconnect(answer) => NetworkResponse::GameReconnect(
                GameReconnectResult(answer),
            ),
            Reply::GameCreate(answer) => NetworkResponse::GameCreate(GameCreateResult(answer)),
        }
    }
}

/// The answer of the session as the menu it is meant for takes it.
pub open spec fn result_of(response: NetworkResponse) -> NetworkResult {
    match response {
        NetworkResponse::ConnectSuccess => NetworkResult::Connect(ConnectResult::Success),
        NetworkResponse::ConnectFailure(error) => NetworkResult::Connect(
            ConnectResult::Failure(error),
        ),
        NetworkResponse::GithubAuth(result) => NetworkResult::Login(LoginResult::GitHubWait(result)),
        NetworkResponse::LoginSuccess => NetworkResult::Login(LoginResult::Success),
        NetworkResponse::LoginFailure(error) => NetworkResult::Login(LoginResult::Failure(error)),
        NetworkResponse::UserCreate(result) => NetworkResult::UserCreate(result),
        NetworkResponse::GameList(result) => NetworkResult::GameList(result),
        NetworkResponse::GameJoin(result) => NetworkResult::GameJoin(result),
        NetworkResponse::GameReconnect(result) => NetworkResult::GameReconnect(result),
        NetworkResponse::GameCreate(result) => NetworkResult::GameCreate(result),
    }
}

/// Turns an answer of the session into what the menus take.
pub fn network_result(response: NetworkResponse) -> (result: NetworkResult)
    ensures
        result == result_of(response),
{
    match response {
        NetworkResponse::ConnectSuccess => NetworkResult::Connect(ConnectResult::Success),
        NetworkResponse::ConnectFailure(error) => NetworkResult::Connect(
            ConnectResult::Failure(error),
        ),
        NetworkResponse::GithubAuth(result) => NetworkResult::Login(LoginResult::GitHubWait(result)),
        NetworkResponse::LoginSuccess => NetworkResult::Login(LoginResult::Success),
        NetworkResponse::LoginFailure(error) => NetworkResult::Login(LoginResult::Failure(error)),
        NetworkResponse::UserCreate(result) => NetworkResult::UserCreate(result),
        NetworkResponse::GameList(result) => NetworkResult::GameList(result),
        NetworkResponse::GameJoin(result) => NetworkResult::GameJoin(result),
        NetworkResponse::GameReconnect(result) => NetworkResult::GameReconnect(result),
        NetworkResponse::GameCreate(result) => NetworkResult::GameCreate(result),
    }
}

/// The answers of the session as the menus take them, in their order.
pub open spec fn results_of(responses: Seq<NetworkResponse>) -> Seq<NetworkResult> {
    responses.map_values(|response: NetworkResponse| result_of(response))
}

/// Hands the commands of a frame to the session, in their order. It stops
/// at the first that the bridge does not take, and returns how many it
/// took: the bridge has taken that many of the commands, from the first
/// on and in their order, and none of the others. Fewer than all are
/// taken only where the bridge has refused one.
pub fn send_network_events(
    network_worker: &mut Worker<NetworkCommand, NetworkResponse>,
    commands: Vec<NetworkCommand>,
) -> (sent: usize)
    ensures
        sent <= commands@.len(),
        final(network_worker).has_sent(*old(network_worker), commands@.subrange(0, sent as int)),
        sent < commands@.len() ==> final(network_worker).refused(),
        sent == commands@.len() ==> final(network_worker).refused()
            == old(network_worker).refused(),
{
    let mut rest = commands;
    let total = rest.len();
    let mut sent: usize = 0;
    proof {
        assert(network_worker.accepted() + commands@.subrange(0, 0) =~= network_worker.accepted());
    }
    while rest.len() > 0
        invariant
            sent + rest@.len() == total,
            total == commands@.len(),
            rest@ == commands@.subrange(sent as int, total as int),
            network_worker.has_sent(*old(network_worker), commands@.subrange(0, sent as int)),
            network_worker.refused() == old(network_worker).refused(),
        decreases rest@.len(),
    {
        let ghost before = *network_worker;
        let command = rest.remove(0);
        assert(command == commands@[sent as int]);
        assert(rest@ =~= commands@.subrange(sent + 1, total as int));
        match network_worker.send(command) {
            Ok(()) => {
                proof {
                    assert(commands@.subrange(0, sent as int) + seq![command]
                        =~= commands@.subrange(0, sent + 1));
                    assert(network_worker.accepted() == old(network_worker).accepted() + (
                    commands@.subrange(0, sent as int) + seq![command]));
                }
                sent = sent + 1;
            },
            Err(_) => {
                proof {
                    assert(before.accepted() + Seq::<NetworkCommand>::empty()
                        =~= before.accepted());
                }
                return sent;
            },
        }
    }
    sent
}

/// Takes the answers that are pending from the session, without waiting
/// and at most `limit` of them, as the menus take them. It ends early
/// where nothing is pending or the session is gone. What it returns is
/// what it took from the bridge, each answer as the menus take it and in
/// the order in which the answers came out.
pub fn receive_network_events(
    network_worker: &mut Worker<NetworkCommand, NetworkResponse>,
    limit: usize,
) -> (results: Vec<NetworkResult>)
    ensures
        results@.len() <= limit,
        old(network_worker).is_closed() ==> results@.len() == 0,
        old(network_worker).is_closed() ==> final(network_worker).is_closed(),
        results@.len() < limit ==> final(network_worker).is_closed()
            || final(network_worker).idle(),
        final(network_worker).has_taken(
            *old(network_worker),
            final(network_worker).taken_since(*old(network_worker)),
        ),
        results@ == results_of(final(network_worker).taken_since(*old(network_worker))),
{
    let mut results: Vec<NetworkResult> = Vec::new();
    let ghost mut responses: Seq<NetworkResponse> = Seq::empty();
    proof {
        assert(network_worker.taken() + responses =~= network_worker.taken());
        assert(results@ =~= results_of(responses));
    }
    while results.len() < limit
        invariant
            results@.len() <= limit,
            old(network_worker).is_closed() ==> results@.len() == 0 && network_worker.is_closed(),
            !old(network_worker).is_closed() ==> !network_worker.is_closed(),
            network_worker.has_taken(*old(network_worker), responses),
            results@ == results_of(responses),
        decreases limit - results@.len(),
    {
        let ghost before = *network_worker;
        match network_worker.try_recv() {
            Ok(Some(response)) => {
                proof {
                    assert(before.taken() + seq![response] =~= old(network_worker).taken() + (
                    responses.push(response)));
                    assert(results_of(responses.push(response)) =~= results_of(responses).push(
                        result_of(response),
                    ));
                    responses = responses.push(response);
                }
                results.push(network_result(response));
            },
            _ => {
                proof {
                    assert(before.taken() + Seq::<NetworkResponse>::empty() =~= before.taken());
                    assert(network_worker.taken_since(*old(network_worker)) =~= responses);
                }
                return results;
            },
        }
    }
    proof {
        assert(network_worker.taken_since(*old(network_worker)) =~= responses);
    }
    results
}

/// What the frame loop asks of the stream of events.
#[derive(Debug, Clone, PartialEq, Eq)]
pub enum WebSocketCommand {
    Connect(String),
}

/// What the task of the stream answers to the frame loop.
#[derive(Debug, Clone, PartialEq, Eq)]
pub enum WebSocketResponse {
    ConnectSuccess,
    ConnectError,
    /// A message of the server, as its JSON text.
    Event(String),
    Error,
}

/// Where the task of the stream stands.
#[derive(Debug, Clone, Copy, PartialEq, Eq, Structural)]
pub enum WebSocketTask {
    Connecting,
    Streaming,
    Stopped,
}

/// What happened to the task of the stream.
#[derive(Debug, PartialEq, Eq)]
pub enum WebSocketOutcome {
    /// The attempt to connect ended.
    Connected(Result<(), WebSocketError>),
    /// The wait for the next message ended.
    Received(Result<String, WebSocketError>),
}

impl WebSocketTask {
    /// Whether `outcome` is one that can happen to the task: the end of
    /// the attempt while it connects, that of a wait while it streams.
    pub open spec fn expects(self, outcome: WebSocketOutcome) -> bool {
        match outcome {
            WebSocketOutcome::Connected(_) => self == WebSocketTask::Connecting,
            WebSocketOutcome::Received(_) => self == WebSocketTask::Streaming,
        }
    }

    /// Takes what happened in and returns what is answered to the frame
    /// loop. The task streams while messages come, and stops at the first
    /// failure.
    pub fn advance(&mut self, outcome: WebSocketOutcome) -> (response:
        WebSocketResponse)
        requires
            old(self).expects(outcome),
        ensures
            match outcome {
                WebSocketOutcome::Connected(Ok(())) => {
                    &&& response == WebSocketResponse::ConnectSuccess
                    &&& *final(self) == WebSocketTask::Streaming
                },
                WebSocketOutcome::Connected(Err(_)) => {
                    &&& response == WebSocketResponse::ConnectError
                    &&& *final(self) == WebSocketTask::Stopped
                },
                WebSocketOutcome::Received(Ok(event)) => {
                    &&& response == WebSocketResponse::Event(event)
                    &&& *final(self) == WebSocketTask::Streaming
                },
                WebSocketOutcome::Received(Err(_)) => {
                    &&& response == WebSocketResponse::Error
                    &&& *final(self) == WebSocketTask::Stopped
                },
            },
    {
        match outcome {
            WebSocketOutcome::Connected(Ok(())) => {
                *self = WebSocketTask::Streaming;
                WebSocketResponse::ConnectSuccess
            },
            WebSocketOutcome::Connected(Err(_)) => {
                *self = WebSocketTask::Stopped;
                WebSocketResponse::ConnectError
            },
            WebSocketOutcome::Received(Ok(event)) => WebSocketResponse::Event(event),
            WebSocketOutcome::Received(Err(_)) => {
                *self = WebSocketTask::Stopped;
                WebSocketResponse::Error
            },
        }
    }
}

/// Takes the answers that are pending from the task of the stream, without
/// waiting and at most `limit` of them. It ends early where nothing is
/// pending or the task is gone. What it returns is what it took from the
/// bridge, in the order in which the answers came out.
pub fn receive_websocket_responses(
    websocket_worker: &mut Worker<(), WebSocketResponse>,
    limit: usize,
) -> (responses: Vec<WebSocketResponse>)
    ensures
        responses@.len() <= limit,
        old(websocket_worker).is_closed() ==> responses@.len() == 0,
        old(websocket_worker).is_closed() ==> final(websocket_worker).is_closed(),
        responses@.len() < limit ==> final(websocket_worker).is_closed()
            || final(websocket_worker).idle(),
        final(websocket_worker).has_taken(*old(websocket_worker), responses@),
{
    let mut responses: Vec<WebSocketResponse> = Vec::new();
    proof {
        assert(websocket_worker.taken() + responses@ =~= websocket_worker.taken());
    }
    while responses.len() < limit
        invariant
            responses@.len() <= limit,
            old(websocket_worker).is_closed() ==> responses@.len() == 0
                && websocket_worker.is_closed(),
            !old(websocket_worker).is_closed() ==> !websocket_worker.is_closed(),
            websocket_worker.has_taken(*old(websocket_worker), responses@),
        decreases limit - responses@.len(),
    {
        let ghost before = *websocket_worker;
        let ghost so_far = responses@;
        match websocket_worker.try_recv() {
            Ok(Some(response)) => {
                proof {
                    assert(before.taken() + seq![response] =~= old(websocket_worker).taken() + (
                    so_far.push(response)));
                }
                responses.push(response);
            },
            _ => {
                proof {
                    assert(before.taken() + Seq::<WebSocketResponse>::empty() =~= before.taken());
                }
                return responses;
            },
        }
    }
    responses
}

} // verus!
