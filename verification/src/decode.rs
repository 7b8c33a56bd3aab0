//! Classification of HTTP outcomes and the two-phase response decode.
//!
//! The registry may answer a request with a 2xx status whose body is
//! nevertheless an application-level error envelope, so a body is first
//! probed for the envelope shape and only then parsed as the expected type.
//! The host program performs both parse attempts (it owns the JSON parser)
//! and hands their results to [`decode_decision`], which makes the call.

use vstd::prelude::*;
use crate::error::Error;
use crate::types::ApiErrors;

verus! {

/// The raw outcome of one HTTP exchange, as the transport reports it: a
/// status code together with the response body text, or a network-level
/// failure (connection, name resolution, timeout) with the transport's
/// diagnostic text.
pub enum HttpOutcome {
    /// A response arrived with this status code and body text.
    Status(u16, String),
    /// The exchange failed before a response arrived.
    Failed(String),
}

/// Whether a status code counts as success.
pub open spec fn is_success_status(status: u16) -> bool {
    200 <= status < 300
}

/// Classifies one HTTP outcome: a success status hands the body on for
/// decoding, 404 becomes [`Error::NotFound`] carrying the requested URL, 403
/// becomes [`Error::PermissionDenied`] carrying the body as the server's
/// reason, and any other status, like any network-level failure, becomes
/// [`Error::Http`].
pub fn classify_response(url: &str, outcome: HttpOutcome) -> (r: Result<String, Error>)
    ensures
        match outcome {
            HttpOutcome::Failed(details) => r == Err::<String, Error>(Error::Http(details)),
            HttpOutcome::Status(status, body) => {
                &&& is_success_status(status) ==> r == Ok::<String, Error>(body)
                &&& status == 404 ==> (r matches Err(Error::NotFound(u)) && u@ == url@)
                &&& status == 403 ==> r == Err::<String, Error>(Error::PermissionDenied(body))
                &&& (!is_success_status(status) && status != 404 && status != 403) ==> (r matches
                    Err(Error::Http(m)) && m@ == http_failure_message(status))
            },
        },
{
    match outcome {
        HttpOutcome::Failed(details) => Err(Error::Http(details)),
        HttpOutcome::Status(status, body) => {
            if 200 <= status && status < 300 {
                Ok(body)
            } else if status == 404 {
                Err(Error::NotFound(url.to_owned()))
            } else if status == 403 {
                Err(Error::PermissionDenied(body))
            } else {
                let mut m = "unexpected status code: ".to_owned();
                let digits = crate::text::u64_to_string(status as u64);
                m.append(digits.as_str());
                Err(Error::Http(m))
            }
        },
    }
}

/// The diagnostic text for a response status that is neither success nor one
/// of the specially handled codes.
pub open spec fn http_failure_message(status: u16) -> Seq<char> {
    "unexpected status code: "@ + crate::text::dec_str_of(status as int)
}

/// The outcome of the host's attempt to parse a response body as the expected
/// type.
pub enum ParseOutcome<T> {
    /// The body parsed as the expected type.
    Parsed(T),
    /// The body did not match the expected shape; carries the parser's
    /// message and the structural path at which the mismatch occurred.
    Mismatch(String, String),
}

/// The message of a schema mismatch, combining the parser's message with the
/// structural path of the mismatch.
pub open spec fn schema_error_message(message: Seq<char>, path: Seq<char>) -> Seq<char> {
    "Could not decode JSON: "@ + message + " (path: "@ + path + ")"@
}

/// Decides what a successfully transported body means, giving the error
/// envelope priority: whenever the body matched the envelope shape, the call
/// is an API error — even if the body would also have parsed as the expected
/// type. Only otherwise does the parse attempt decide, a mismatch becoming
/// [`Error::JsonDecode`] with the parser message and structural path.
pub fn decode_decision<T>(envelope: Option<ApiErrors>, parsed: ParseOutcome<T>) -> (r: Result<
    T,
    Error,
>)
    ensures
        match envelope {
            Some(e) => r == Err::<T, Error>(Error::Api(e)),
            None => match parsed {
                ParseOutcome::Parsed(t) => r == Ok::<T, Error>(t),
                ParseOutcome::Mismatch(m, p) => (r matches Err(Error::JsonDecode(msg)) && msg@
                    == schema_error_message(m@, p@)),
            },
        },
{
    match envelope {
        Some(e) => Err(Error::Api(e)),
        None => match parsed {
            ParseOutcome::Parsed(t) => Ok(t),
            ParseOutcome::Mismatch(m, p) => {
                let mut msg = "Could not decode JSON: ".to_owned();
                msg.append(m.as_str());
                msg.append(" (path: ");
                msg.append(p.as_str());
                msg.append(")");
                Err(Error::JsonDecode(msg))
            },
        },
    }
}

} // verus!
