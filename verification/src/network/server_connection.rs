use vstd::prelude::*;
use vstd::string::StrSliceExecFns;
use vstd::string::StringExecFns;

use crate::network::address::parse_url;
use crate::network::address::url_through_path;
use crate::network::game::GameCreateRequest;
use crate::network::game::GameJoinRequest;
use crate::network::github::GitHubAuthRequest;
use crate::network::user::LoginForm;
use crate::network::user::SwapTokenRequest;
use crate::network::user::UserCreateRequest;

verus! {

/// Why a request brought no usable reply.
#[derive(Debug, Clone, PartialEq, Eq)]
pub enum RequestError {
    /// The request never got an answer: unreachable host, broken
    /// connection.
    Transport(String),
    /// No answer came within the time the request allows.
    Timeout,
    /// The server answered outside the 2xx range; the body where one came.
    Status(u16, Option<String>),
    /// The answer came with a body that is not the expected JSON.
    Decode(String),
}

/// The HTTP methods the client uses.
#[derive(Debug, Clone, Copy, PartialEq, Eq, Hash, Structural)]
pub enum Method {
    Get,
    Post,
}

/// A value that travels in a request.
#[derive(Debug, Clone, PartialEq, Eq)]
pub enum Payload {
    Login(LoginForm),
    SwapToken(SwapTokenRequest),
    UserCreate(UserCreateRequest),
    GameJoin(GameJoinRequest),
    GameCreate(GameCreateRequest),
    GitHubAuth(GitHubAuthRequest),
}

/// The query parameters of a request.
#[derive(Debug, Clone, PartialEq, Eq)]
pub enum Query {
    Absent,
    Params(Payload),
}

/// The body of a request and its encoding.
#[derive(Debug, Clone, PartialEq, Eq)]
pub enum Body {
    Empty,
    Json(Payload),
    Form(Payload),
}

/// A request, ready to be sent.
#[derive(Debug, Clone, PartialEq, Eq)]
pub struct HttpRequest {
    pub method: Method,
    pub url: String,
    pub query: Query,
    pub body: Body,
    /// The media type asked for in the `Accept` header, if any.
    pub accept: Option<String>,
    /// The token sent as bearer authorization, if any.
    pub bearer: Option<String>,
    /// After how many seconds without an answer the request is given up.
    pub timeout_seconds: u64,
}

/// What came back for a request: the status and, where one came, the body.
#[derive(Debug, Clone, PartialEq, Eq)]
pub struct HttpResponse {
    pub status: u16,
    pub body: Option<String>,
}

/// Why no answer came for a request.
#[derive(Debug, Clone, PartialEq, Eq)]
pub enum Failure {
    /// No answer came within the time the request allows.
    Timeout,
    /// The request could not be sent or its answer not be read.
    Transport(String),
}

/// After how many seconds without an answer a request is given up.
pub const REQUEST_TIMEOUT_SECONDS: u64 = 10;

/// The media type of JSON.
pub const APPLICATION_JSON: &'static str = "application/json";

/// Whether `text` ends in a slash.
pub open spec fn ends_in_slash(text: Seq<char>) -> bool {
    text.len() > 0 && text.last() == '/'
}

/// Whether `route` is relative: it does not begin with a slash.
pub open spec fn is_relative(route: Seq<char>) -> bool {
    route.len() == 0 || route[0] != '/'
}

/// Whether `text` is the URL of a base: a URL whose path ends in a slash.
pub open spec fn is_base_url(text: Seq<char>) -> bool {
    url_through_path(text) is Some && ends_in_slash(url_through_path(text)->0)
}

/// The URL of `route` below `base`: the one written behind the other.
pub open spec fn joined_url(base: Seq<char>, route: Seq<char>) -> Seq<char> {
    base + route
}

/// Joining a relative route to a base that ends in a slash gives the base
/// followed by the route, with exactly the slash of the base between them:
/// none is missing and none is doubled.
pub proof fn lemma_join_keeps_one_separator(base: Seq<char>, route: Seq<char>)
    requires
        ends_in_slash(base),
        is_relative(route),
    ensures
        joined_url(base, route).len() == base.len() + route.len(),
        joined_url(base, route).subrange(0, base.len() as int) == base,
        joined_url(base, route).subrange(base.len() as int, (base.len() + route.len()) as int) == route,
        joined_url(base, route)[base.len() - 1] == '/',
        route.len() > 0 ==> joined_url(base, route)[base.len() as int] != '/',
{
    let joined = joined_url(base, route);
    assert(joined.subrange(0, base.len() as int) =~= base);
    assert(joined.subrange(base.len() as int, (base.len() + route.len()) as int) =~= route);
}

fn text_ends_in_slash(text: &str) -> (ends: bool)
    ensures
        ends == ends_in_slash(text@),
{
    let length = text.unicode_len();
    length > 0 && text.get_char(length - 1) == '/'
}

/// Whether `route` is relative: it does not begin with a slash.
pub fn route_is_relative(route: &str) -> (relative: bool)
    ensures
        relative == is_relative(route@),
{
    route.unicode_len() == 0 || route.get_char(0) != '/'
}

fn copy_of(text: &Option<String>) -> (copy: Option<String>)
    ensures
        copy == *text,
{
    match text {
        Some(text) => Some(text.clone()),
        None => None,
    }
}

/// The address of a server and the token of the session with it.
pub struct ServerConnection {
    /// The URL of the server, without any route.
    base_url: String,
    /// The token that authorizes the requests.
    token: Option<String>,
}

impl ServerConnection {
    #[verifier::type_invariant]
    spec fn base_ends_in_slash(self) -> bool {
        ends_in_slash(self.base_url@)
    }

    /// The URL of the server as it is kept.
    pub closed spec fn spec_base_url(&self) -> Seq<char> {
        self.base_url@
    }

    /// The token of the session, if there is one.
    pub closed spec fn spec_token(&self) -> Option<String> {
        self.token
    }

    /// Whether `request` goes to `route` below the base, carries the token
    /// of the session and is otherwise made of the given parts.
    pub open spec fn builds(
        self,
        request: HttpRequest,
        method: Method,
        route: Seq<char>,
        query: Query,
        body: Body,
        accept: Option<Seq<char>>,
    ) -> bool {
        &&& request.method == method
        &&& request.url@ == joined_url(self.spec_base_url(), route)
        &&& request.query == query
        &&& request.body == body
        &&& request.accept.deep_view() == accept
        &&& request.bearer == self.spec_token()
        &&& request.timeout_seconds == REQUEST_TIMEOUT_SECONDS
    }

    /// The connection to the server at `base_url`, a URL whose path ends
    /// in a slash. It starts without a token. What `base_url` holds behind
    /// its path is not part of the base.
    pub fn new(base_url: &str) -> (connection: Self)
        requires
            is_base_url(base_url@),
        ensures
            connection.spec_base_url() == url_through_path(base_url@)->0,
            connection.spec_token() is None,
    {
        let address = parse_url(base_url).unwrap();
        Self { base_url: address.through_path, token: None }
    }

    /// The connection to the server at `base_url`, where that is a URL
    /// whose path ends in a slash.
    pub fn try_new(base_url: &str) -> (connection: Option<Self>)
        ensures
            connection is Some <==> is_base_url(base_url@),
            connection is Some ==> {
                &&& connection->0.spec_base_url() == url_through_path(base_url@)->0
                &&& connection->0.spec_token() is None
            },
    {
        match parse_url(base_url) {
            Some(address) => {
                if text_ends_in_slash(address.through_path.as_str()) {
                    Some(Self::new(base_url))
                } else {
                    None
                }
            },
            None => None,
        }
    }

    pub fn base_url(&self) -> (base_url: &str)
        ensures
            base_url@ == self.spec_base_url(),
            ends_in_slash(base_url@),
    {
        proof {
            use_type_invariant(self);
        }
        self.base_url.as_str()
    }

    /// Sets the token that authorizes the requests from now on.
    pub fn token(&mut self, token: String)
        ensures
            final(self).spec_token() == Some(token),
            final(self).spec_base_url() == old(self).spec_base_url(),
    {
        proof {
            use_type_invariant(&*self);
        }
        self.token = Some(token);
    }

    /// Drops the token: the requests from now on carry none.
    pub fn remove_token(&mut self)
        ensures
            final(self).spec_token() is None,
            final(self).spec_base_url() == old(self).spec_base_url(),
    {
        proof {
            use_type_invariant(&*self);
        }
        self.token = None;
    }

    /// The URL of the relative `route` below the base: the base followed
    /// by the route, with the slash of the base between them.
    pub fn join_url(&self, route: &str) -> (url: String)
        requires
            is_relative(route@),
        ensures
            url@ == joined_url(self.spec_base_url(), route@),
            url@[self.spec_base_url().len() - 1] == '/',
            route@.len() > 0 ==> url@[self.spec_base_url().len() as int] != '/',
    {
        proof {
            use_type_invariant(self);
            lemma_join_keeps_one_separator(self.base_url@, route@);
        }
        self.base_url.clone().concat(route)
    }

    /// The request for the relative `route` below the base, with the
    /// token of the session where there is one.
    pub fn request(&self, method: Method, route: &str, query: Query, body: Body) -> (request:
        HttpRequest)
        requires
            is_relative(route@),
        ensures
            self.builds(request, method, route@, query, body, None),
    {
        HttpRequest {
            method,
            url: self.join_url(route),
            query,
            body,
            accept: None,
            bearer: copy_of(&self.token),
            timeout_seconds: REQUEST_TIMEOUT_SECONDS,
        }
    }

    /// The request for the relative `route` below the base whose answer is
    /// to be JSON: as `request`, and asking for that media type.
    pub fn request_with_json_result(
        &self,
        method: Method,
        route: &str,
        query: Query,
        body: Body,
    ) -> (request: HttpRequest)
        requires
            is_relative(route@),
        ensures
            self.builds(request, method, route@, query, body, Some(APPLICATION_JSON@)),
    {
        let mut request = self.request(method, route, query, body);
        request.accept = Some(APPLICATION_JSON.to_owned());
        request
    }

    /// The request that gets the relative `route` and asks for JSON.
    pub fn get_json(&self, route: &str) -> (request: HttpRequest)
        requires
            is_relative(route@),
        ensures
            self.builds(
                request,
                Method::Get,
                route@,
                Query::Absent,
                Body::Empty,
                Some(APPLICATION_JSON@),
            ),
    {
        self.request_with_json_result(Method::Get, route, Query::Absent, Body::Empty)
    }

    /// The request that posts `data` as JSON to the relative `route`.
    pub fn post_json(&self, route: &str, data: Payload) -> (request: HttpRequest)
        requires
            is_relative(route@),
        ensures
            self.builds(request, Method::Post, route@, Query::Absent, Body::Json(data), None),
    {
        self.request(Method::Post, route, Query::Absent, Body::Json(data))
    }

    /// Whether a status stands for success: the 2xx range.
    pub open spec fn is_success(status: u16) -> bool {
        200 <= status < 300
    }

    /// Takes what came back for a request: a failure to get an answer, or
    /// an answer. An answer outside the 2xx range is an error that carries
    /// the status and the body; a request that ran out of time is an error
    /// of its own.
    pub fn response(reply: Result<HttpResponse, Failure>) -> (response: Result<
        HttpResponse,
        RequestError,
    >)
        ensures
            response == match reply {
                Ok(answer) => if Self::is_success(answer.status) {
                    Ok::<HttpResponse, RequestError>(answer)
                } else {
                    Err(RequestError::Status(answer.status, answer.body))
                },
                Err(Failure::Timeout) => Err(RequestError::Timeout),
                Err(Failure::Transport(failure)) => Err(RequestError::Transport(failure)),
            },
    {
        match reply {
            Ok(answer) => {
                if 200 <= answer.status && answer.status < 300 {
                    Ok(answer)
                } else {
                    Err(RequestError::Status(answer.status, answer.body))
                }
            },
            Err(Failure::Timeout) => Err(RequestError::Timeout),
            Err(Failure::Transport(failure)) => Err(RequestError::Transport(failure)),
        }
    }
}

} // verus!
