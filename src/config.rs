//! The endpoint configuration.
use crate::error::StreamError;
use vstd::prelude::*;
use vstd::string::StringExecFns;

verus! {

/// The one setting the client needs: the WebSocket endpoint.
#[derive(Debug, Clone)]
pub struct Config {
    pub websocket_url: String,
}

impl Config {
    /// The configuration from the value found for the endpoint setting, if
    /// any. A missing value, or one that is no URL, leaves nothing to
    /// connect to: both are configuration errors, found before any network
    /// activity.
    pub fn from_setting(value: Option<String>) -> (r: Result<Config, StreamError>)
        ensures
            value matches Some(u) ==> ((r is Ok <==> url_accepts(u@)) && (url_accepts(u@) ==> r
                == Ok::<Config, StreamError>(Config { websocket_url: u }))),
            value matches Some(u) && !url_accepts(u@) ==> (r matches Err(StreamError::Config(m))
                && m@ == "WEBSOCKET_URL must be a valid URL"@),
            value is None ==> (r matches Err(StreamError::Config(m)) && m@
                == "WEBSOCKET_URL must be set"@),
    {
        match value {
            Some(websocket_url) => match check_url(websocket_url.as_str()) {
                Ok(()) => Ok(Config { websocket_url }),
                Err(_) => Err(
                    StreamError::Config(String::from_str("WEBSOCKET_URL must be a valid URL")),
                ),
            },
            None => Err(StreamError::Config(String::from_str("WEBSOCKET_URL must be set"))),
        }
    }
}

/// Whether the URL parser accepts a text as an absolute URL.
pub uninterp spec fn url_accepts(s: Seq<char>) -> bool;

/// Relies on `url::Url::parse`: it accepts or refuses a text by the text
/// alone; the parsed URL itself is not needed.
#[verifier::external_body]
pub(crate) fn check_url(s: &str) -> (r: Result<(), url::ParseError>)
    ensures
        r is Ok <==> url_accepts(s@),
{
    url::Url::parse(s).map(|_| ())
}

} // verus!
