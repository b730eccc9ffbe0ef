use vstd::prelude::*;
use crate::timestamp::Timestamp;

verus! {

/// A listing request: a 1-based page number, a page size, and optional
/// inclusive bounds on the creation instant. It is request-shaped, never
/// persisted; a query with `page == 0` or `count == 0` is rejected before
/// the store is touched.
#[derive(Clone, Copy, Debug)]
pub struct PagingQuery {
    /// 1-based page number.
    pub page: u64,
    /// Page size; the number of records one page holds.
    pub count: u64,
    /// Inclusive lower bound on the creation instant, if any.
    pub begin_time: Option<Timestamp>,
    /// Inclusive upper bound on the creation instant, if any.
    pub end_time: Option<Timestamp>,
}

impl PagingQuery {
    /// A valid query asks for a page at least 1 of size at least 1.
    pub open spec fn spec_is_valid(self) -> bool {
        self.page >= 1 && self.count >= 1
    }

    /// Whether the query satisfies its validity invariant.
    pub fn is_valid(&self) -> (r: bool)
        ensures
            r == self.spec_is_valid(),
    {
        if self.page == 0 {
            return false;
        }
        if self.count == 0 {
            return false;
        }
        true
    }
}

} // verus!
