//! Client-side core of a media-server session: the authentication state
//! machine, catalog query construction, response interpretation, and the
//! chunk-level model of an audio byte stream.
//!
//! Network transport itself (HTTP, connection pooling) is an external
//! collaborator; every function here works on plain values — status codes,
//! response bodies, byte chunks — handed in by whatever performs the I/O.

use vstd::prelude::*;

pub mod catalog;
mod json;
pub mod metadata;
pub mod query;
pub mod session;
pub mod stream;

verus! {

/// Tells whether an HTTP status code counts as success (2xx).
pub open spec fn spec_is_success(status: u16) -> bool {
    200 <= status < 300
}

/// Executable check matching `spec_is_success`.
pub fn is_success(status: u16) -> (r: bool)
    ensures
        r == spec_is_success(status),
{
    200 <= status && status < 300
}

/// The views of a list of strings, in order.
pub open spec fn views_of(ss: Seq<String>) -> Seq<Seq<char>> {
    ss.map_values(|s: String| s@)
}

/// The view of an optional string.
pub open spec fn opt_view(o: Option<String>) -> Option<Seq<char>> {
    match o {
        Some(s) => Some(s@),
        None => None,
    }
}

/// Failure taxonomy of the session core.
///
/// - `TransportFailure`: connection-level failure, surfaced to the caller.
/// - `AuthorizationFailure`: non-2xx response on the login call.
/// - `ServerError`: non-2xx response on an authorized call; catalog reads
///   degrade to an empty result instead of surfacing it.
/// - `MetadataIncomplete`: a technical-metadata response lacking a required
///   numeric field; never silently defaulted to zero.
/// - `DeserializationFailure`: a response body that does not match the
///   expected schema; treated like a server error by callers.
#[derive(Clone, Copy, Debug, PartialEq, Eq, Structural)]
pub enum ClientError {
    TransportFailure,
    AuthorizationFailure,
    ServerError(u16),
    MetadataIncomplete,
    DeserializationFailure,
}

} // verus!
