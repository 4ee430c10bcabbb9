//! The client handle and the plain description of an HTTP request.
//!
//! The library performs no I/O: each endpoint has a builder producing an
//! `ApiRequest` for the caller's transport to execute, and an interpreter
//! that turns the transport's `(status, body)` answer into a typed result.

use vstd::prelude::*;
use crate::json::Json;

verus! {

/// The base path every request URL starts with.
pub const API_URL_BASE: &'static str = "https://api.curseforge.com/v1/";

/// A request, described as plain values: the full URL, the API key to send
/// as the `x-api-key` header, and, for POST endpoints, the JSON body.
pub struct ApiRequest {
    pub url: String,
    pub api_key: String,
    pub body: Option<Json>,
}

/// Whether a transport status is a success (2xx) status.
pub open spec fn ok_status(status: u16) -> bool {
    200 <= status < 300
}

/// Tests whether a transport status is a success status.
pub fn is_ok_status(status: u16) -> (r: bool)
    ensures
        r == ok_status(status),
{
    200 <= status && status < 300
}

/// The client: it holds the API key and builds and interprets requests.
pub struct Furse {
    pub api_key: String,
}

impl Furse {
    /// A client that authenticates with `api_key`.
    pub fn new(api_key: String) -> (r: Self)
        ensures
            r.api_key == api_key,
    {
        Furse { api_key }
    }
}

} // verus!
