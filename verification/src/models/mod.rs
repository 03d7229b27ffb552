//! Typed records mirroring the upstream API's response JSON.

use vstd::prelude::*;

pub mod streams;

verus! {

/// The pagination block of a paginated response.
#[derive(Debug, Clone)]
pub struct Pagination {
    /// The continuation cursor string.
    pub cursor: String,
}

} // verus!
