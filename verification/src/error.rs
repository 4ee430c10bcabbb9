//! The error taxonomy surfaced to callers.

use vstd::prelude::*;

verus! {

/// Every failure is returned to the immediate caller; nothing is retried,
/// logged or swallowed.
#[derive(Debug)]
pub enum Error {
    /// The transport answered with a status outside the 2xx range. The status
    /// and the raw body are carried verbatim for the caller's diagnostics.
    RequestError { status: u16, body: String },
    /// A response body did not match the expected schema: wrong envelope
    /// shape, a mistyped or unrecognized field, or a timestamp that failed
    /// both parse attempts.
    DecodeError { detail: String },
    /// A request path could not be assembled from its parts.
    UrlBuildError { detail: String },
}

impl Error {
    /// A schema-violation error carrying a short description.
    pub fn decode(detail: &str) -> (e: Error)
        ensures
            e matches Error::DecodeError { .. },
    {
        Error::DecodeError { detail: detail.to_owned() }
    }
}

} // verus!
