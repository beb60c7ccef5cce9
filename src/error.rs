use vstd::prelude::*;

verus! {

/// The part of the server's base URL that was missing or malformed.
#[derive(Clone, Copy, Debug, PartialEq, Eq, Structural)]
pub enum UriError {
    Scheme,
    Address,
    Invalid,
}

/// Every way a request can fail.
#[derive(Clone, Debug)]
pub enum Error {
    /// The base URL lacks a part, or cannot be parsed.
    Uri(UriError),
    /// The transport failed: connection, timeout or TLS.
    NetworkError(String),
    /// The server answered with a status outside 2xx.
    ConnectionError(u16),
    /// The server reported a failure in the response envelope.
    ServerError { code: i64, message: String },
    /// The payload does not have the shape that was expected.
    ParseError(String),
    /// A body that must be text is not valid UTF-8.
    Utf8Error,
    /// A body that was expected to be binary parsed as JSON.
    NotBinary,
    /// Anything else.
    Other(String),
}

} // verus!
