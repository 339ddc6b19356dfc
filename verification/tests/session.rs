use whist_browser::network::game::GameCreateRequest;
use whist_browser::network::game::GameCreateResponse;
use whist_browser::network::game::GameJoinRequest;
use whist_browser::network::game::GameJoinResponse;
use whist_browser::network::game::GameJoinStatus;
use whist_browser::network::game::GameListResponse;
use whist_browser::network::game::GameReconnectResponse;
use whist_browser::network::github::GitHubAuthRequest;
use whist_browser::network::github::GitHubTempTokenResponse;
use whist_browser::network::github_service::GitHubService;
use whist_browser::network::github_service::GitHubTempTokenResult;
use whist_browser::network::github_service::GITHUB_URL;
use whist_browser::network::plugin::Awaited;
use whist_browser::network::plugin::NetworkCommand;
use whist_browser::network::plugin::NetworkResponse;
use whist_browser::network::plugin::Reply;
use whist_browser::network::plugin::Session;
use whist_browser::network::server_connection::Body;
use whist_browser::network::server_connection::Method;
use whist_browser::network::server_connection::Payload;
use whist_browser::network::server_connection::RequestError;
use whist_browser::network::server_service::ConnectError;
use whist_browser::network::server_service::GameCreateResult;
use whist_browser::network::server_service::GameJoinResult;
use whist_browser::network::server_service::GameListResult;
use whist_browser::network::server_service::GameReconnectResult;
use whist_browser::network::server_service::UserCreateResult;
use whist_browser::network::user::LoginError;
use whist_browser::network::user::LoginForm;
use whist_browser::network::user::LoginResponse;
use whist_browser::network::user::SwapTokenRequest;
use whist_browser::network::user::UserCreateRequest;
use whist_browser::network::user::UserCreateResponse;
use whist_browser::network::whist_info::RequirementError;
use whist_browser::network::whist_info::Version;
use whist_browser::network::whist_info::WhistInfo;
use whist_browser::network::whist_info::WhistInfoReq;

fn session() -> Session {
    Session::new(
        WhistInfoReq::new("whist", "^0.9", "^0.7"),
        GitHubService::new(GITHUB_URL),
    )
}

fn connected() -> Session {
    let mut session = session();
    session.begin(NetworkCommand::Connect("http://localhost:8080".to_string()));
    session.complete(Reply::Info(Ok(WhistInfo::new("whist", "0.9.3", "0.7.0"))));
    session
}

#[test]
fn a_new_session_is_not_connected_and_waits_for_nothing() {
    let session = session();
    assert!(!session.is_connected());
    assert_eq!(session.pending(), None);
}

#[test]
fn a_connection_asks_for_the_report_and_succeeds_where_it_fits() {
    let mut session = session();
    let request = session.begin(NetworkCommand::Connect("http://localhost:8080".to_string()));
    assert_eq!(request.method, Method::Get);
    assert_eq!(request.url, "http://localhost:8080/");
    assert_eq!(request.body, Body::Empty);
    assert_eq!(request.bearer, None);
    assert_eq!(session.pending(), Some(Awaited::Info));
    let response = session.complete(Reply::Info(Ok(WhistInfo::new("WHIST", "0.9.3", "0.7.0"))));
    assert_eq!(response, NetworkResponse::ConnectSuccess);
    assert!(session.is_connected());
    assert_eq!(session.pending(), None);
}

#[test]
fn a_server_that_cannot_be_reached_and_one_that_does_not_fit_fail_differently() {
    let mut session = session();
    session.begin(NetworkCommand::Connect("http://localhost:8080".to_string()));
    let response =
        session.complete(Reply::Info(Err(RequestError::Transport("refused".to_string()))));
    assert_eq!(
        response,
        NetworkResponse::ConnectFailure(ConnectError::Request(RequestError::Transport(
            "refused".to_string()
        )))
    );
    assert!(!session.is_connected());
    session.begin(NetworkCommand::Connect("http://localhost:8080".to_string()));
    let response = session.complete(Reply::Info(Ok(WhistInfo::new("WHIST", "0.9.3", "0.6.9"))));
    assert_eq!(
        response,
        NetworkResponse::ConnectFailure(ConnectError::Requirement(
            RequirementError::ServerVersion(Version::parse("0.6.9").unwrap())
        ))
    );
    assert!(!session.is_connected());
    assert_eq!(session.pending(), None);
}

#[test]
fn a_login_stores_the_token_for_the_requests_that_follow() {
    let mut session = connected();
    let form = LoginForm::new("root", "password");
    let request = session.begin(NetworkCommand::Login(form.clone()));
    assert_eq!(request.url, "http://localhost:8080/user/auth");
    assert_eq!(request.body, Body::Form(Payload::Login(form)));
    assert_eq!(session.pending(), Some(Awaited::Login));
    let response = session.complete(Reply::Login(Ok(LoginResponse::new("abc", "Bearer"))));
    assert_eq!(response, NetworkResponse::LoginSuccess);
    let request = session.begin(NetworkCommand::GetGameList);
    assert_eq!(request.bearer, Some("abc".to_string()));
    assert_eq!(request.url, "http://localhost:8080/room/info/ids");
    let response = session.complete(Reply::GameList(Ok(GameListResponse {
        rooms: vec!["1".to_string(), "2".to_string()],
    })));
    assert_eq!(
        response,
        NetworkResponse::GameList(GameListResult(Ok(GameListResponse {
            rooms: vec!["1".to_string(), "2".to_string()],
        })))
    );
}

#[test]
fn a_login_with_an_unknown_token_type_fails_and_stores_nothing() {
    let mut session = connected();
    session.begin(NetworkCommand::Login(LoginForm::new("root", "password")));
    let response = session.complete(Reply::Login(Ok(LoginResponse::new("abc", "Basic"))));
    assert_eq!(
        response,
        NetworkResponse::LoginFailure(LoginError::UnknownTokenType("Basic".to_string()))
    );
    assert!(session.is_connected());
    let request = session.begin(NetworkCommand::GameReconnect);
    assert_eq!(request.bearer, None);
}

#[test]
fn the_device_flow_asks_the_provider_and_swaps_at_the_server() {
    let mut session = connected();
    let request = session.begin(NetworkCommand::GithubAuth(GitHubAuthRequest::new("client")));
    assert_eq!(request.url, "https://github.com/login/device/code");
    assert_eq!(session.pending(), Some(Awaited::DeviceCode));
    let token =
        GitHubTempTokenResponse::new("abc", 900, 5, "cde", "https://github.com/login/device");
    let response = session.complete(Reply::DeviceCode(Ok(token.clone())));
    assert_eq!(
        response,
        NetworkResponse::GithubAuth(GitHubTempTokenResult(Ok(token)))
    );
    let swap = SwapTokenRequest::new("abc");
    let request = session.begin(NetworkCommand::SwapToken(swap.clone()));
    assert_eq!(request.url, "http://localhost:8080/oauth2/github/device");
    assert_eq!(request.body, Body::Json(Payload::SwapToken(swap)));
    let response = session.complete(Reply::Login(Ok(LoginResponse::new("tok", "Bearer"))));
    assert_eq!(response, NetworkResponse::LoginSuccess);
    assert_eq!(
        session.begin(NetworkCommand::GetGameList).bearer,
        Some("tok".to_string())
    );
}

#[test]
fn the_device_code_can_be_asked_for_before_any_connection() {
    let mut session = session();
    let request = session.try_begin(NetworkCommand::GithubAuth(GitHubAuthRequest::new("client")));
    assert!(request.is_some());
    let response = session.complete(Reply::DeviceCode(Err(RequestError::Timeout)));
    assert_eq!(
        response,
        NetworkResponse::GithubAuth(GitHubTempTokenResult(Err(RequestError::Timeout)))
    );
    assert!(!session.is_connected());
}

#[test]
fn the_replies_of_the_rooms_are_handed_on_as_they_came() {
    let mut session = connected();
    let join = GameJoinRequest { password: None };
    let request = session.begin(NetworkCommand::GameJoin("7".to_string(), join.clone()));
    assert_eq!(request.url, "http://localhost:8080/room/join/7");
    assert_eq!(request.body, Body::Json(Payload::GameJoin(join)));
    assert_eq!(
        session.complete(Reply::GameJoin(Ok(GameJoinResponse {
            status: GameJoinStatus::Joined
        }))),
        NetworkResponse::GameJoin(GameJoinResult(Ok(GameJoinResponse {
            status: GameJoinStatus::Joined
        })))
    );
    session.begin(NetworkCommand::GameReconnect);
    assert_eq!(
        session.complete(Reply::GameReconnect(Err(RequestError::Status(404, None)))),
        NetworkResponse::GameReconnect(GameReconnectResult(Err(RequestError::Status(404, None))))
    );
    session.begin(NetworkCommand::GameReconnect);
    let reconnect = GameReconnectResponse {
        status: GameJoinStatus::AlreadyJoined,
        password: Some(true),
        room_id: Some("7".to_string()),
    };
    assert_eq!(
        session.complete(Reply::GameReconnect(Ok(reconnect.clone()))),
        NetworkResponse::GameReconnect(GameReconnectResult(Ok(reconnect)))
    );
    let create = GameCreateRequest {
        game_name: "asdf".to_string(),
        password: Some("12345_is_a_bad_password".to_string()),
        min_player: None,
        max_player: None,
    };
    let request = session.begin(NetworkCommand::GameCreate(create.clone()));
    assert_eq!(request.url, "http://localhost:8080/room/create");
    assert_eq!(request.body, Body::Json(Payload::GameCreate(create)));
    assert_eq!(
        session.complete(Reply::GameCreate(Ok(GameCreateResponse {
            game_id: "9".to_string()
        }))),
        NetworkResponse::GameCreate(GameCreateResult(Ok(GameCreateResponse {
            game_id: "9".to_string()
        })))
    );
    let user = UserCreateRequest::new("name", "secret");
    let request = session.begin(NetworkCommand::UserCreate(user.clone()));
    assert_eq!(request.url, "http://localhost:8080/user/create");
    assert_eq!(request.body, Body::Json(Payload::UserCreate(user)));
    assert_eq!(
        session.complete(Reply::UserCreate(Ok(UserCreateResponse::new("3")))),
        NetworkResponse::UserCreate(UserCreateResult(Ok(UserCreateResponse::new("3"))))
    );
}

#[test]
fn a_command_is_refused_while_another_is_under_way() {
    let mut session = connected();
    assert!(session.try_begin(NetworkCommand::GetGameList).is_some());
    assert_eq!(session.try_begin(NetworkCommand::GameReconnect), None);
    assert_eq!(session.pending(), Some(Awaited::GameList));
    session.complete(Reply::GameList(Ok(GameListResponse { rooms: vec![] })));
    assert!(session.try_begin(NetworkCommand::GameReconnect).is_some());
}

#[test]
fn a_command_to_the_server_is_refused_before_a_connection() {
    let mut session = session();
    assert_eq!(
        session.try_begin(NetworkCommand::Login(LoginForm::new("root", "password"))),
        None
    );
    assert_eq!(session.try_begin(NetworkCommand::GetGameList), None);
    assert_eq!(
        session.try_begin(NetworkCommand::SwapToken(SwapTokenRequest::new("abc"))),
        None
    );
    assert_eq!(session.pending(), None);
    assert!(!session.is_connected());
}

#[test]
fn a_connection_is_refused_for_an_address_that_is_no_base() {
    let mut session = connected();
    assert_eq!(
        session.try_begin(NetworkCommand::Connect("http://localhost:8080/api".to_string())),
        None
    );
    assert_eq!(
        session.try_begin(NetworkCommand::Connect("localhost".to_string())),
        None
    );
    assert!(session.is_connected());
    assert_eq!(session.pending(), None);
    let request = session.try_begin(NetworkCommand::Connect("http://other:1/api/".to_string()));
    assert_eq!(request.unwrap().url, "http://other:1/api/");
}

#[test]
fn a_new_connection_starts_without_the_token_of_the_old_one() {
    let mut session = connected();
    session.begin(NetworkCommand::Login(LoginForm::new("root", "password")));
    session.complete(Reply::Login(Ok(LoginResponse::new("abc", "Bearer"))));
    session.begin(NetworkCommand::Connect("http://localhost:9090/".to_string()));
    session.complete(Reply::Info(Ok(WhistInfo::new("whist", "0.9.0", "0.7.1"))));
    let request = session.begin(NetworkCommand::GetGameList);
    assert_eq!(request.url, "http://localhost:9090/room/info/ids");
    assert_eq!(request.bearer, None);
}

#[test]
fn a_disconnect_drops_the_server_and_what_is_under_way() {
    let mut session = connected();
    session.begin(NetworkCommand::GetGameList);
    session.disconnect();
    assert!(!session.is_connected());
    assert_eq!(session.pending(), None);
    assert_eq!(session.try_begin(NetworkCommand::GetGameList), None);
}

#[test]
fn a_reply_knows_its_kind() {
    assert_eq!(Reply::Info(Err(RequestError::Timeout)).kind(), Awaited::Info);
    assert_eq!(Reply::Login(Err(RequestError::Timeout)).kind(), Awaited::Login);
    assert_eq!(
        Reply::DeviceCode(Err(RequestError::Timeout)).kind(),
        Awaited::DeviceCode
    );
    assert_eq!(
        Reply::UserCreate(Err(RequestError::Timeout)).kind(),
        Awaited::UserCreate
    );
    assert_eq!(
        Reply::GameList(Err(RequestError::Timeout)).kind(),
        Awaited::GameList
    );
    assert_eq!(
        Reply::GameJoin(Err(RequestError::Timeout)).kind(),
        Awaited::GameJoin
    );
    assert_eq!(
        Reply::GameReconnect(Err(RequestError::Timeout)).kind(),
        Awaited::GameReconnect
    );
    assert_eq!(
        Reply::GameCreate(Err(RequestError::Timeout)).kind(),
        Awaited::GameCreate
    );
}
