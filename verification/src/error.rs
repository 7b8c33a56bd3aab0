//! Error types returned by the client logic.

use vstd::prelude::*;
use crate::types::ApiErrors;
use crate::types::joined_details;

verus! {

/// Errors surfaced to callers of the client.
///
/// Every failure of the request pipeline is one of these variants; no other
/// error kind escapes the library.
#[derive(Debug, Clone)]
pub enum Error {
    /// Low level http error: a non-2xx status other than 404 and 403, or a
    /// network-level failure reported by the transport. Carries the
    /// transport's diagnostic text.
    Http(String),
    /// The resource could not be found (HTTP 404), or the caller supplied a
    /// crate name with a path separator, which is rejected before any request
    /// is sent. Carries the URL of the missing resource.
    NotFound(String),
    /// No permission to access the resource (HTTP 403). Carries the reason
    /// text sent by the server.
    PermissionDenied(String),
    /// JSON decoding of the API response failed. Carries the parser message
    /// together with the structural path of the mismatch.
    JsonDecode(String),
    /// Error returned by the registry API itself inside a 2xx response.
    Api(ApiErrors),
}

/// The descriptive text of each error.
pub open spec fn error_message_of(e: Error) -> Seq<char> {
    match e {
        Error::Http(m) => "Low level http error: "@ + m@,
        Error::NotFound(u) => "Resource at "@ + u@ + " couldn't be found."@,
        Error::PermissionDenied(r) => "No permission to access the resource: "@ + r@,
        Error::JsonDecode(m) => "JSON decoding of API response failed: "@ + m@,
        Error::Api(a) => "Error returned by the crates.io API directly: "@ + joined_details(
            a.errors@,
        ),
    }
}

impl Error {
    /// A human-readable description of the error, naming its kind and the
    /// diagnostic it carries.
    pub fn message(&self) -> (r: String)
        ensures
            r@ == error_message_of(*self),
    {
        match self {
            Error::Http(m) => {
                let mut out = "Low level http error: ".to_owned();
                out.append(m.as_str());
                out
            },
            Error::NotFound(u) => {
                let mut out = "Resource at ".to_owned();
                out.append(u.as_str());
                out.append(" couldn't be found.");
                out
            },
            Error::PermissionDenied(r) => {
                let mut out = "No permission to access the resource: ".to_owned();
                out.append(r.as_str());
                out
            },
            Error::JsonDecode(m) => {
                let mut out = "JSON decoding of API response failed: ".to_owned();
                out.append(m.as_str());
                out
            },
            Error::Api(a) => {
                let mut out = "Error returned by the crates.io API directly: ".to_owned();
                let details = a.message();
                out.append(details.as_str());
                out
            },
        }
    }
}

} // verus!
