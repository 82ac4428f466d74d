//! Source bindings and the failure taxonomy of a one-shot fetch.
//!
//! A binding is the plain-data construction of a source: everything a
//! concrete connector needs in order to be built. The connectors themselves
//! (the HTTP client, the topic consumer) live outside this crate and are
//! driven through these bindings; the decisions they must make per item or
//! per fetch are functions defined here.

use vstd::prelude::*;

pub mod api;
pub mod kafka;

verus! {

/// Why a one-shot fetch failed. Fetch failures are categorized, returned to
/// the caller, and never retried by the source itself.
#[derive(Debug)]
pub enum FetchError {
    /// The request timed out.
    Timeout,
    /// The connection was refused or could not be established.
    ConnectionRefused,
    /// The request itself was malformed.
    MalformedRequest,
    /// The endpoint answered with a non-success status code.
    HttpStatus { status: u16 },
    /// The response body did not decode to the declared record shape.
    InvalidPayload,
    /// Any other transport failure.
    Unknown,
}

} // verus!
