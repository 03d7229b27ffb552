//! The error taxonomy of the client: every failure a request or an
//! aggregation can report.

use vstd::prelude::*;

verus! {

/// Everything that can go wrong while issuing a request or aggregating
/// paginated results.
///
/// Every error is surfaced to the immediate caller; nothing is swallowed or
/// retried inside the library.
#[derive(Clone, Copy, Debug, PartialEq, Eq, Structural)]
pub enum TwitchError {
    /// The HTTP method string is not a recognized verb.
    InvalidMethod,
    /// The client identifier cannot be encoded as an HTTP header value.
    InvalidHeaderValue,
    /// The transport layer could not complete the call.
    RequestFailed,
    /// The response status code was outside the success range; carries the
    /// numeric code.
    UnsuccessfulStatus(u16),
    /// The response body is not valid JSON or does not match the target
    /// shape.
    DeserializationFailed,
    /// The pagination cursor or the item array is missing or of the wrong
    /// type in a paginated response.
    MalformedPaginationEnvelope,
}

} // verus!
