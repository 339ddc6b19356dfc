use vstd::prelude::*;

use crate::network::address::parse_url;
use crate::network::address::replace_scheme;
use crate::network::address::url_parsed;
use crate::network::address::url_with_scheme;

verus! {

/// Why a message could not be sent or received.
#[derive(Debug, Clone, PartialEq, Eq)]
pub enum WebSocketError {
    /// The connection could not be opened.
    Connect,
    /// A value could not be turned into JSON, or JSON into a value.
    Serde(String),
    /// A frame came that holds no text.
    UnexpectedMessageType,
    /// The connection failed under way.
    WebSocket(String),
    /// The stream of incoming frames has ended.
    Closed,
}

/// Why an address cannot be used for a WebSocket connection.
#[derive(Debug, Clone, PartialEq, Eq)]
pub enum WebSocketUrlError {
    /// The address is no URL.
    NotAUrl,
    /// The URL has a scheme that no WebSocket scheme stands for.
    UnsupportedScheme(String),
    /// The URL does not take the WebSocket scheme.
    SchemeRefused,
}

/// A frame as it comes off a connection: its text, or what else it is.
#[derive(Debug, Clone, PartialEq, Eq)]
pub enum Message {
    Text(String),
    Binary,
    Ping,
    Pong,
    Close,
    Frame,
}

/// The WebSocket scheme that stands for `scheme`: `ws` for `http`, `wss`
/// for `https`, and each of the two for itself.
pub open spec fn websocket_scheme(scheme: Seq<char>) -> Option<Seq<char>> {
    if scheme == "http"@ || scheme == "ws"@ {
        Some("ws"@)
    } else if scheme == "https"@ || scheme == "wss"@ {
        Some("wss"@)
    } else {
        None
    }
}

/// The address of the WebSocket connection that stands for the address
/// `text`: the URL itself where its scheme is a WebSocket scheme, the URL
/// with the WebSocket scheme that stands for its scheme otherwise; `None`
/// where there is none.
pub open spec fn websocket_url(text: Seq<char>) -> Option<Seq<char>> {
    match url_parsed(text) {
        None => None,
        Some((scheme, url, _)) => match websocket_scheme(scheme) {
            None => None,
            Some(target) => if target == scheme {
                Some(url)
            } else {
                url_with_scheme(url, target)
            },
        },
    }
}

/// The WebSocket connection to a server.
#[derive(Debug, Clone, Copy, PartialEq, Eq, Structural)]
pub struct WebSocket;

impl WebSocket {
    /// The WebSocket scheme that stands for `scheme`, if there is one.
    pub fn scheme_for(scheme: &String) -> (target: Option<String>)
        ensures
            target.deep_view() == websocket_scheme(scheme@),
    {
        if *scheme == "http".to_owned() || *scheme == "ws".to_owned() {
            Some("ws".to_owned())
        } else if *scheme == "https".to_owned() || *scheme == "wss".to_owned() {
            Some("wss".to_owned())
        } else {
            None
        }
    }

    /// The address of the WebSocket connection for `url`, or why there is
    /// none. It is decided on the address alone, before any connection is
    /// tried.
    pub fn convert_to_ws_url(url: &str) -> (converted: Result<String, WebSocketUrlError>)
        ensures
            converted is Ok <==> websocket_url(url@) is Some,
            converted matches Ok(address) ==> websocket_url(url@) == Some(address@),
            converted matches Err(error) ==> match url_parsed(url@) {
                None => error == WebSocketUrlError::NotAUrl,
                Some((scheme, _, _)) => if websocket_scheme(scheme) is None {
                    error matches WebSocketUrlError::UnsupportedScheme(found) && found@ == scheme
                } else {
                    error == WebSocketUrlError::SchemeRefused
                },
            },
    {
        match parse_url(url) {
            None => Err(WebSocketUrlError::NotAUrl),
            Some(address) => match Self::scheme_for(&address.scheme) {
                None => Err(WebSocketUrlError::UnsupportedScheme(address.scheme)),
                Some(target) => {
                    if target == address.scheme {
                        Ok(address.text)
                    } else {
                        match replace_scheme(address.text.as_str(), target.as_str()) {
                            Some(converted) => Ok(converted),
                            None => Err(WebSocketUrlError::SchemeRefused),
                        }
                    }
                },
            },
        }
    }

    /// The text of what came off the connection: of a text frame its
    /// text. Any other frame is an error, and so are the end of the stream
    /// and a failure of the connection, each of its own kind.
    pub fn recv_text(received: Result<Option<Message>, String>) -> (text: Result<
        String,
        WebSocketError,
    >)
        ensures
            text == match received {
                Ok(Some(Message::Text(data))) => Ok::<String, WebSocketError>(data),
                Ok(Some(_)) => Err(WebSocketError::UnexpectedMessageType),
                Ok(None) => Err(WebSocketError::Closed),
                Err(failure) => Err(WebSocketError::WebSocket(failure)),
            },
    {
        match received {
            Ok(Some(Message::Text(data))) => Ok(data),
            Ok(Some(_)) => Err(WebSocketError::UnexpectedMessageType),
            Ok(None) => Err(WebSocketError::Closed),
            Err(failure) => Err(WebSocketError::WebSocket(failure)),
        }
    }
}

} // verus!
