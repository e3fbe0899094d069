//! The decoded query request: what the transport hands to dispatch once the
//! body's structured encoding has been read.

use vstd::prelude::*;
use crate::json::JsonVal;

verus! {

/// A decoded request: the query text, an optional operation name, and the
/// variables the query is executed with. Immutable once built; a request
/// whose body did not decode never becomes a value of this type.
pub struct QueryRequest {
    pub query: String,
    pub operation_name: Option<String>,
    pub variables: Vec<(String, JsonVal)>,
}

impl QueryRequest {
    /// The one requirement beyond the encoding itself: the query text is
    /// non-empty.
    pub open spec fn valid(self) -> bool {
        self.query@.len() > 0
    }

    /// Decides `valid`.
    pub fn is_valid(&self) -> (r: bool)
        ensures
            r == self.valid(),
    {
        !self.query.as_str().is_empty()
    }
}

} // verus!
