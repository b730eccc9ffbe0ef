use vstd::prelude::*;
use crate::error::LedgerError;
use crate::paging::PagingQuery;
use crate::timestamp::Timestamp;

verus! {

/// The finite set of creation-time predicates a listing supports. Each bound
/// binds its own value, so a query with both bounds filters on both
/// independently.
#[derive(Clone, Copy, Debug)]
pub enum TimeFilter {
    /// No creation-time predicate.
    Unbounded,
    /// `created >= bound`.
    Since(Timestamp),
    /// `created <= bound`.
    Until(Timestamp),
    /// `low <= created <= high`.
    Between(Timestamp, Timestamp),
}

impl TimeFilter {
    /// Whether a creation instant passes the filter; both bounds are
    /// inclusive.
    pub open spec fn spec_matches(self, t: Timestamp) -> bool {
        match self {
            TimeFilter::Unbounded => true,
            TimeFilter::Since(low) => low.spec_le(t),
            TimeFilter::Until(high) => t.spec_le(high),
            TimeFilter::Between(low, high) => low.spec_le(t) && t.spec_le(high),
        }
    }

    /// Whether the instant passes the filter.
    pub fn matches(&self, t: &Timestamp) -> (r: bool)
        ensures
            r == self.spec_matches(*t),
    {
        match self {
            TimeFilter::Unbounded => true,
            TimeFilter::Since(low) => low.le(t),
            TimeFilter::Until(high) => t.le(high),
            TimeFilter::Between(low, high) => low.le(t) && t.le(high),
        }
    }
}

/// The filter a paging query asks for: one fragment per present bound, and
/// none when neither bound is present.
pub open spec fn spec_filter_of(p: PagingQuery) -> TimeFilter {
    match (p.begin_time, p.end_time) {
        (Option::None, Option::None) => TimeFilter::Unbounded,
        (Option::Some(low), Option::None) => TimeFilter::Since(low),
        (Option::None, Option::Some(high)) => TimeFilter::Until(high),
        (Option::Some(low), Option::Some(high)) => TimeFilter::Between(low, high),
    }
}

/// A compiled listing: how many records to skip, how many to return, and
/// which creation-time predicate to apply. Offset and limit live in the
/// signed 64-bit domain.
#[derive(Clone, Copy, Debug)]
pub struct ListPlan {
    /// Records to skip: `(page - 1) * count`.
    pub offset: i64,
    /// Records to return at most: `count`.
    pub limit: i64,
    /// The creation-time predicate.
    pub filter: TimeFilter,
}

/// Whether a query compiles: it is valid and its offset and limit fit the
/// signed 64-bit domain.
pub open spec fn spec_plan_ok(p: PagingQuery) -> bool {
    &&& p.spec_is_valid()
    &&& (p.page - 1) * p.count <= i64::MAX
    &&& p.count <= i64::MAX
}

/// The plan a compilable query yields.
pub open spec fn spec_plan_of(p: PagingQuery) -> ListPlan {
    ListPlan {
        offset: ((p.page - 1) * p.count) as i64,
        limit: p.count as i64,
        filter: spec_filter_of(p),
    }
}

impl PagingQuery {
    /// Compile the query to a listing plan. Rejected with a validation
    /// error, before any store access, when the query is invalid or its
    /// offset or limit would not fit the signed 64-bit domain.
    pub fn compile(&self) -> (r: Result<ListPlan, LedgerError>)
        ensures
            match r {
                Ok(plan) => spec_plan_ok(*self) && plan == spec_plan_of(*self),
                Err(e) => e == LedgerError::Validation && !spec_plan_ok(*self),
            },
    {
        if !self.is_valid() {
            return Err(LedgerError::Validation);
        }
        if self.count > i64::MAX as u64 {
            return Err(LedgerError::Validation);
        }
        let offset = match (self.page - 1).checked_mul(self.count) {
            Some(o) => o,
            None => {
                proof {
                    assert((self.page - 1) * self.count > i64::MAX);
                }
                return Err(LedgerError::Validation);
            },
        };
        if offset > i64::MAX as u64 {
            return Err(LedgerError::Validation);
        }
        let filter = match (&self.begin_time, &self.end_time) {
            (None, None) => TimeFilter::Unbounded,
            (Some(low), None) => TimeFilter::Since(*low),
            (None, Some(high)) => TimeFilter::Until(*high),
            (Some(low), Some(high)) => TimeFilter::Between(*low, *high),
        };
        Ok(ListPlan { offset: offset as i64, limit: self.count as i64, filter })
    }
}

} // verus!
