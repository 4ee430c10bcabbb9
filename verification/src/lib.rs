//! A typed client binding for a remote mod-hosting REST service.
//!
//! The crate is organised as a sans-I/O core: every request is described by a
//! plain value (`request::ApiRequest`) and every response is interpreted by a
//! pure function over the status code and body, so that the marshaling layer
//! (envelope unwrapping, strict schema validation, lenient timestamp parsing,
//! query-string encoding and order-preserving batch reconstruction) is fully
//! verified. Performing the HTTP exchange itself is left to the caller.

pub mod common_structs;
pub mod envelope;
pub mod error;
pub mod file_calls;
pub mod file_structs;
pub mod json;
pub mod laws;
pub mod mod_calls;
pub mod mod_structs;
pub mod request;
pub mod search_query;
pub mod strings;
pub mod timestamp;
