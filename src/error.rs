//! The library's error type and the outside error values it carries.
use vstd::prelude::*;

verus! {

/// The WebSocket transport's error value, carried through unread.
#[verifier::external_type_specification]
#[verifier::external_body]
pub struct ExWsError(tokio_tungstenite::tungstenite::Error);

/// The URL parser's error value, carried through unread.
#[verifier::external_type_specification]
#[verifier::external_body]
pub struct ExUrlError(url::ParseError);

/// std's I/O error value, carried through unread.
#[verifier::external_type_specification]
#[verifier::external_body]
pub struct ExIoError(std::io::Error);

/// Every way the client can fail.
#[derive(Debug)]
pub enum StreamError {
    /// The endpoint configuration is missing or unusable.
    Config(String),
    /// Connecting, sending or receiving on the WebSocket failed.
    WebsocketConnection(tokio_tungstenite::tungstenite::Error),
    /// Encoding or decoding JSON failed.
    Json(serde_json::Error),
    /// Local I/O failed.
    Io(std::io::Error),
    /// The endpoint is not a URL.
    UrlParse(url::ParseError),
    /// Anything else.
    Other(String),
}

} // verus!
