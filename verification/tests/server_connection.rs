use whist_browser::network::server_connection::route_is_relative;
use whist_browser::network::server_connection::Body;
use whist_browser::network::server_connection::Failure;
use whist_browser::network::server_connection::HttpResponse;
use whist_browser::network::server_connection::Method;
use whist_browser::network::server_connection::Payload;
use whist_browser::network::server_connection::Query;
use whist_browser::network::server_connection::RequestError;
use whist_browser::network::server_connection::ServerConnection;
use whist_browser::network::user::LoginForm;

#[test]
fn server_connection_test_join_url() {
    let conn = ServerConnection::new("https://doc.rust-lang.org");
    assert_eq!(
        conn.join_url("index.html"),
        url::Url::parse("https://doc.rust-lang.org/index.html")
            .unwrap()
            .as_str()
    );
}

#[test]
fn server_connection_test_join_url_with_base_path() {
    let conn = ServerConnection::new("https://doc.rust-lang.org/rust-by-example/");
    assert_eq!(
        conn.join_url("index.html"),
        url::Url::parse("https://doc.rust-lang.org/rust-by-example/index.html")
            .unwrap()
            .as_str()
    );
}

#[test]
fn joining_writes_the_route_behind_the_base() {
    let conn = ServerConnection::new("https://example.com/api/");
    assert_eq!(conn.base_url(), "https://example.com/api/");
    assert_eq!(conn.join_url("rooms/5"), "https://example.com/api/rooms/5");
    assert_eq!(conn.join_url(""), "https://example.com/api/");
    assert_eq!(
        conn.join_url("room/reconnect/"),
        "https://example.com/api/room/reconnect/"
    );
}

#[test]
fn the_base_is_the_url_as_the_url_crate_writes_it_through_its_path() {
    assert_eq!(
        ServerConnection::new("http://localhost:8080").base_url(),
        "http://localhost:8080/"
    );
    assert_eq!(
        ServerConnection::new("HTTP://Example.COM:80/a/../b/").base_url(),
        "http://example.com/b/"
    );
    assert_eq!(
        ServerConnection::new("https://example.com/api/?page=2#top").base_url(),
        "https://example.com/api/"
    );
}

#[test]
fn a_base_must_be_a_url_whose_path_ends_in_a_slash() {
    assert!(ServerConnection::try_new("https://example.com/api/").is_some());
    assert!(ServerConnection::try_new("https://example.com").is_some());
    assert!(ServerConnection::try_new("https://example.com/api").is_none());
    assert!(ServerConnection::try_new("https://example.com/api?x=/").is_none());
    assert!(ServerConnection::try_new("example.com/api/").is_none());
    assert!(ServerConnection::try_new("").is_none());
    assert!(ServerConnection::try_new("mailto:someone@example.com").is_none());
}

#[test]
fn a_request_carries_its_parts_and_no_token_before_a_login() {
    let conn = ServerConnection::new("http://localhost:8080/");
    let form = LoginForm::new("root", "password");
    let request = conn.request(
        Method::Post,
        "user/auth",
        Query::Absent,
        Body::Form(Payload::Login(form.clone())),
    );
    assert_eq!(request.method, Method::Post);
    assert_eq!(request.url, "http://localhost:8080/user/auth");
    assert_eq!(request.query, Query::Absent);
    assert_eq!(request.body, Body::Form(Payload::Login(form)));
    assert_eq!(request.accept, None);
    assert_eq!(request.bearer, None);
    assert_eq!(request.timeout_seconds, 10);
}

#[test]
fn a_request_for_json_asks_for_that_media_type() {
    let conn = ServerConnection::new("http://localhost:8080/");
    let request = conn.request_with_json_result(Method::Get, "route", Query::Absent, Body::Empty);
    assert_eq!(request.method, Method::Get);
    assert_eq!(request.url, "http://localhost:8080/route");
    assert_eq!(request.body, Body::Empty);
    assert_eq!(request.accept, Some("application/json".to_string()));
}

#[test]
fn the_token_is_sent_from_when_it_is_set_until_it_is_removed() {
    let mut conn = ServerConnection::new("http://localhost:8080/");
    conn.token("abc".to_string());
    let request = conn.request(Method::Get, "a", Query::Absent, Body::Empty);
    assert_eq!(request.bearer, Some("abc".to_string()));
    conn.token("def".to_string());
    let request = conn.request_with_json_result(Method::Get, "a", Query::Absent, Body::Empty);
    assert_eq!(request.bearer, Some("def".to_string()));
    conn.remove_token();
    let request = conn.request(Method::Get, "a", Query::Absent, Body::Empty);
    assert_eq!(request.bearer, None);
    assert_eq!(conn.base_url(), "http://localhost:8080/");
}

fn answer(status: u16, body: Option<&str>) -> HttpResponse {
    HttpResponse {
        status,
        body: body.map(|text| text.to_string()),
    }
}

#[test]
fn only_the_2xx_range_is_success() {
    assert_eq!(
        ServerConnection::response(Ok(answer(200, Some("{}")))),
        Ok(answer(200, Some("{}")))
    );
    assert_eq!(
        ServerConnection::response(Ok(answer(299, None))),
        Ok(answer(299, None))
    );
    assert_eq!(
        ServerConnection::response(Ok(answer(199, None))),
        Err(RequestError::Status(199, None))
    );
    assert_eq!(
        ServerConnection::response(Ok(answer(300, Some("moved")))),
        Err(RequestError::Status(300, Some("moved".to_string())))
    );
    assert_eq!(
        ServerConnection::response(Ok(answer(401, Some("no")))),
        Err(RequestError::Status(401, Some("no".to_string())))
    );
    assert_eq!(
        ServerConnection::response(Ok(answer(500, None))),
        Err(RequestError::Status(500, None))
    );
}

#[test]
fn a_request_without_an_answer_is_a_transport_error_or_a_timeout() {
    assert_eq!(
        ServerConnection::response(Err(Failure::Transport("refused".to_string()))),
        Err(RequestError::Transport("refused".to_string()))
    );
    assert_eq!(
        ServerConnection::response(Err(Failure::Timeout)),
        Err(RequestError::Timeout)
    );
}

#[test]
fn a_route_is_relative_unless_it_begins_with_a_slash() {
    assert!(route_is_relative("rooms/5"));
    assert!(route_is_relative(""));
    assert!(route_is_relative("a//b"));
    assert!(!route_is_relative("/rooms/5"));
    assert!(!route_is_relative("/"));
}

#[test]
fn joining_writes_the_route_as_it_is_given() {
    let conn = ServerConnection::new("https://example.com/api/");
    assert_eq!(conn.join_url("../x"), "https://example.com/api/../x");
    assert_eq!(conn.join_url("a b"), "https://example.com/api/a b");
    assert_eq!(
        conn.join_url("http://other/"),
        "https://example.com/api/http://other/"
    );
}

#[test]
fn getting_asks_for_json_and_posting_sends_it() {
    let conn = ServerConnection::new("http://localhost:8080/");
    let request = conn.get_json("route");
    assert_eq!(request.method, Method::Get);
    assert_eq!(request.url, "http://localhost:8080/route");
    assert_eq!(request.body, Body::Empty);
    assert_eq!(request.accept, Some("application/json".to_string()));
    let form = LoginForm::new("root", "password");
    let request = conn.post_json("route", Payload::Login(form.clone()));
    assert_eq!(request.method, Method::Post);
    assert_eq!(request.url, "http://localhost:8080/route");
    assert_eq!(request.body, Body::Json(Payload::Login(form)));
    assert_eq!(request.accept, None);
}
