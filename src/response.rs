use vstd::prelude::*;
use vstd::string::StringExecFns;
use vstd::utf8::{decode_utf8, valid_utf8};
use crate::error::Error;
use crate::text::str_eq;

verus! {

/// The envelope around every answer of the server.
#[derive(Debug)]
pub enum Envelope<V> {
    /// The request succeeded; `payload` is the nested value, where there is one.
    Success { version: String, payload: Option<V> },
    /// The server reports a failure.
    Failure { version: String, code: i64, message: String },
}

/// The status text of a successful envelope.
pub open spec fn ok_status() -> Seq<char> {
    seq!['o', 'k']
}

impl<V> Envelope<V> {
    /// The envelope from its decoded fields: a success where `status` is
    /// `ok`, else a failure with the server's error, or with code 0 and an
    /// empty message where the server gave none.
    pub fn from_parts(status: &str, version: String, payload: Option<V>, error: Option<
        (i64, String),
    >) -> (r: Envelope<V>)
        ensures
            status@ == ok_status() ==> r == (Envelope::Success { version, payload }),
            status@ != ok_status() ==> match error {
                Some((code, message)) => r == (Envelope::<V>::Failure { version, code, message }),
                None => r matches Envelope::Failure { version: v, code: 0, message: m } && v
                    == version && m@.len() == 0,
            },
    {
        let is_ok = str_eq(status, "ok");
        proof {
            reveal_strlit("ok");
            assert("ok"@ =~= ok_status());
        }
        if is_ok {
            Envelope::Success { version, payload }
        } else {
            match error {
                Some((code, message)) => Envelope::Failure { version, code, message },
                None => Envelope::Failure { version, code: 0, message: String::new() },
            }
        }
    }
}

/// Whether an HTTP status is a success (2xx).
pub open spec fn is_success(status: u16) -> bool {
    200 <= status < 300
}

/// The endpoint whose success carries no payload.
pub open spec fn ping() -> Seq<char> {
    seq!['p', 'i', 'n', 'g']
}

/// Decides what a response to `endpoint` amounts to: a failure for a status
/// outside 2xx, the server's error for a failed envelope, nothing for `ping`,
/// else the payload.
pub fn parse_response<V>(status: u16, endpoint: &str, env: Envelope<V>) -> (r: Result<
    Option<V>,
    Error,
>)
    ensures
        !is_success(status) ==> r == Err::<Option<V>, Error>(Error::ConnectionError(status)),
        is_success(status) ==> match env {
            Envelope::Failure { code, message, .. } => r == Err::<Option<V>, Error>(
                Error::ServerError { code, message },
            ),
            Envelope::Success { payload, .. } => if endpoint@ == ping() {
                r == Ok::<Option<V>, Error>(None)
            } else {
                match payload {
                    Some(v) => r == Ok::<Option<V>, Error>(Some(v)),
                    None => r matches Err(Error::ParseError(_)),
                }
            },
        },
{
    if !(200 <= status && status < 300) {
        return Err(Error::ConnectionError(status));
    }
    match env {
        Envelope::Failure { code, message, .. } => Err(Error::ServerError { code, message }),
        Envelope::Success { payload, .. } => {
            let is_ping = str_eq(endpoint, "ping");
            proof {
                reveal_strlit("ping");
                assert("ping"@ =~= ping());
            }
            if is_ping {
                Ok(None)
            } else {
                match payload {
                    Some(v) => Ok(Some(v)),
                    None => Err(Error::ParseError(String::from_str("no payload in the response"))),
                }
            }
        },
    }
}

/// Whether `serde_json` parses the bytes as one JSON value.
pub uninterp spec fn is_json(body: Seq<u8>) -> bool;

/// Relies on `serde_json::from_slice` into a `serde_json::Value`: whether it
/// succeeds on the bytes.
#[verifier::external_body]
fn parses_as_json(body: &[u8]) -> (r: bool)
    ensures
        r == is_json(body@),
{
    serde_json::from_slice::<serde_json::Value>(body).is_ok()
}

/// Decides a probe for binary content: a body that parses as JSON is an
/// answer of the API, not the content, and the probe fails; any other body
/// is taken as binary, and the probe hands back the URL that produced it.
pub fn binary_probe(body: &[u8], url: String) -> (r: Result<String, Error>)
    ensures
        is_json(body@) ==> r matches Err(Error::NotBinary),
        !is_json(body@) ==> r == Ok::<String, Error>(url),
{
    if parses_as_json(body) {
        Err(Error::NotBinary)
    } else {
        Ok(url)
    }
}

/// Relies on `String::from_utf8`: it fails exactly on bytes that are not
/// UTF-8, and otherwise holds the decoded characters.
#[verifier::external_body]
fn string_from_utf8(body: Vec<u8>) -> (r: Option<String>)
    ensures
        r is Some <==> valid_utf8(body@),
        r matches Some(s) ==> s@ == decode_utf8(body@),
{
    String::from_utf8(body).ok()
}

/// A body as text; fails where it is not UTF-8.
pub fn body_text(body: Vec<u8>) -> (r: Result<String, Error>)
    ensures
        valid_utf8(body@) <==> r is Ok,
        r matches Ok(s) ==> s@ == decode_utf8(body@),
        r is Err ==> r matches Err(Error::Utf8Error),
{
    match string_from_utf8(body) {
        Some(s) => Ok(s),
        None => Err(Error::Utf8Error),
    }
}

/// The state of a library scan from the two fields of its payload: whether
/// a scan runs, and how many items were counted. Fails where either is
/// missing or of another type.
pub fn scan_status_of(scanning: Option<bool>, count: Option<u64>) -> (r: Result<(bool, u64), Error>)
    ensures
        (scanning is Some && count is Some) <==> r is Ok,
        r matches Ok(p) ==> p == (scanning->Some_0, count->Some_0),
        r is Err ==> r matches Err(Error::ParseError(_)),
{
    match (scanning, count) {
        (Some(s), Some(c)) => Ok((s, c)),
        (None, _) => Err(Error::ParseError(String::from_str("scanning is not a bool"))),
        (_, None) => Err(Error::ParseError(String::from_str("count is not a u64"))),
    }
}

} // verus!
