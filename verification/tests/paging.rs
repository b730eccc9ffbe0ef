use yunchaoplus_rw::paging::PagingQuery;
use yunchaoplus_rw::query::TimeFilter;
use yunchaoplus_rw::error::LedgerError;
use yunchaoplus_rw::timestamp::Timestamp;

fn query(page: u64, count: u64) -> PagingQuery {
    PagingQuery { page, count, begin_time: None, end_time: None }
}

#[test]
fn zero_page_is_invalid() {
    assert!(!query(0, 10).is_valid());
}

#[test]
fn zero_count_is_invalid() {
    assert!(!query(10, 0).is_valid());
}

#[test]
fn smallest_query_is_valid() {
    assert!(query(1, 1).is_valid());
}

#[test]
fn offset_is_page_minus_one_times_count() {
    let plan = query(3, 10).compile().unwrap();
    assert_eq!(plan.offset, 20);
    assert_eq!(plan.limit, 10);
}

#[test]
fn first_page_starts_at_zero() {
    let plan = query(1, 25).compile().unwrap();
    assert_eq!(plan.offset, 0);
    assert_eq!(plan.limit, 25);
}

#[test]
fn invalid_query_fails_compilation() {
    assert_eq!(query(0, 10).compile().unwrap_err(), LedgerError::Validation);
    assert_eq!(query(10, 0).compile().unwrap_err(), LedgerError::Validation);
}

#[test]
fn overflowing_offset_fails_compilation() {
    let q = query(u64::MAX, u64::MAX);
    assert_eq!(q.compile().unwrap_err(), LedgerError::Validation);
}

#[test]
fn offset_past_i64_fails_compilation() {
    // (page - 1) * count fits u64 but not i64.
    let q = query(2, (i64::MAX as u64) + 1);
    assert_eq!(q.compile().unwrap_err(), LedgerError::Validation);
}

#[test]
fn both_bounds_compile_to_independent_bounds() {
    let q = PagingQuery {
        page: 1,
        count: 10,
        begin_time: Some(Timestamp::from_wire(100)),
        end_time: Some(Timestamp::from_wire(200)),
    };
    let plan = q.compile().unwrap();
    match plan.filter {
        TimeFilter::Between(low, high) => {
            assert_eq!(low.secs, 100);
            assert_eq!(high.secs, 200);
        },
        _ => panic!("expected a two-sided filter"),
    }
}

#[test]
fn single_bounds_compile_to_single_fragments() {
    let begin = PagingQuery {
        page: 1,
        count: 10,
        begin_time: Some(Timestamp::from_wire(100)),
        end_time: None,
    };
    assert!(matches!(begin.compile().unwrap().filter, TimeFilter::Since(t) if t.secs == 100));
    let end = PagingQuery {
        page: 1,
        count: 10,
        begin_time: None,
        end_time: Some(Timestamp::from_wire(200)),
    };
    assert!(matches!(end.compile().unwrap().filter, TimeFilter::Until(t) if t.secs == 200));
    let neither = PagingQuery { page: 1, count: 10, begin_time: None, end_time: None };
    assert!(matches!(neither.compile().unwrap().filter, TimeFilter::Unbounded));
}
