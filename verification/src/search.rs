//! The answer of the catalogue's search.

use vstd::prelude::*;

verus! {

/// One series that the search found.
#[derive(Clone, Copy, Debug, PartialEq, Eq, Structural)]
pub struct Result {
    pub id: i64,
}

/// What the search answered: the series found, best first.
#[derive(Clone, Debug)]
pub struct SearchResponse {
    pub results: Vec<Result>,
}

impl SearchResponse {
    /// The identifier of the best match; none where nothing was found.
    pub fn first_id(&self) -> (r: Option<i64>)
        ensures
            r == (if self.results@.len() == 0 {
                None
            } else {
                Some(self.results@[0].id)
            }),
    {
        if self.results.len() == 0 {
            None
        } else {
            Some(self.results[0].id)
        }
    }
}

} // verus!
