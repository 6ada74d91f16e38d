//! Errors of the client.
use vstd::prelude::*;

verus! {

/// Name of the environment variable that holds the service token.
pub const AUTH_KEY_ENV_VAR: &'static str = "AXO_RELEASES_TOKEN";

/// Why the service token could not be turned into credentials.
#[derive(Clone, Copy, Debug, PartialEq, Eq, Structural)]
pub enum AuthKeyReason {
    /// The environment variable is not set.
    Missing,
    /// The environment variable is set but empty.
    Empty,
    /// The token holds characters that no HTTP header value may hold.
    InvalidCharacters,
}

/// The signals of a parsed response that disagreed with each other: whether the
/// body reported success, and (where the response carries a payload) whether it
/// held one. The status sits in the error beside it.
#[derive(Clone, Copy, Debug, PartialEq, Eq, Structural)]
pub struct Inconsistency {
    pub success: bool,
    pub has_result: Option<bool>,
}

/// What went wrong, without the context of the operation.
#[derive(Debug)]
pub enum GazenotErrorInner {
    /// The service token is unusable.
    AuthKey { reason: AuthKeyReason },
    /// The identity `source_host/owner` cannot be an HTTP header value.
    InvalidIdentity { identity: String },
    /// The HTTP client could not be built, or the transport failed.
    Transport(reqwest::Error),
    /// A spawned operation did not complete.
    Join(tokio::task::JoinError),
    /// A local file could not be read.
    Asset(axoasset::AxoassetError),
    /// The server answered with a failure, with unreadable text, or with
    /// signals that disagreed. `errors` holds the server's messages (or its raw
    /// text); `inconsistency` is set when the signals disagreed.
    ResponseError { status: u16, errors: Vec<String>, inconsistency: Option<Inconsistency> },
    /// The operation was attempted on a placeholder artifact set.
    IsMocked,
    /// An endpoint URL did not parse; `url` is the offending text.
    UrlParse { url: String },
    /// A path to upload has no file name.
    NoFileName { path: String },
}

/// An error with the operation that failed and, where one was chosen, its URL.
#[derive(Debug)]
pub struct GazenotError {
    pub operation: String,
    pub url: Option<String>,
    pub cause: GazenotErrorInner,
}

impl GazenotError {
    /// Wraps `cause` with the description of the operation.
    pub fn new(operation: &str, cause: GazenotErrorInner) -> (r: GazenotError)
        ensures
            r.operation@ == operation@,
            r.url is None,
            r.cause == cause,
    {
        GazenotError { operation: operation.to_owned(), url: None, cause }
    }

    /// Wraps `cause` with the description of the operation and its URL.
    pub fn with_url(operation: &str, url: &str, cause: GazenotErrorInner) -> (r: GazenotError)
        ensures
            r.operation@ == operation@,
            r.url matches Some(u) && u@ == url@,
            r.cause == cause,
    {
        GazenotError { operation: operation.to_owned(), url: Some(url.to_owned()), cause }
    }
}

/// Result of an operation of the client.
pub type Result<T> = core::result::Result<T, GazenotError>;

/// Result of one step of an operation, before its context is added.
pub type ResultInner<T> = core::result::Result<T, GazenotErrorInner>;

} // verus!
