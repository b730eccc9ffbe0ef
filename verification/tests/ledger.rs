use yunchaoplus_rw::error::LedgerError;
use yunchaoplus_rw::ledger::Ledger;
use yunchaoplus_rw::paging::PagingQuery;
use yunchaoplus_rw::recharge::Recharge;
use yunchaoplus_rw::status::{ObjType, Status};
use yunchaoplus_rw::timestamp::Timestamp;
use yunchaoplus_rw::withdraw::Withdraw;

fn at(secs: i64) -> Timestamp {
    Timestamp::from_wire(secs)
}

fn new_recharge(store: &mut Ledger, wallet: &str, amount: u32, secs: i64) -> Recharge {
    Recharge::create_recharge(
        store,
        wallet.to_string(),
        amount,
        "ch1".to_string(),
        None,
        None,
        at(secs),
    )
    .unwrap()
}

fn new_withdraw(store: &mut Ledger, wallet: &str, amount: u32, secs: i64) -> Withdraw {
    Withdraw::create_withdraw(
        store,
        wallet.to_string(),
        "ch1".to_string(),
        amount,
        None,
        None,
        at(secs),
    )
    .unwrap()
}

fn page(page: u64, count: u64) -> PagingQuery {
    PagingQuery { page, count, begin_time: None, end_time: None }
}

#[test]
fn created_recharge_has_the_documented_fields() {
    let mut store = Ledger::new();
    let rec = Recharge::create_recharge(
        &mut store,
        "w1".to_string(),
        1000,
        "ch1".to_string(),
        Some("first deposit".to_string()),
        None,
        at(500),
    )
    .unwrap();
    assert_eq!(rec.amount, 1000);
    assert_eq!(rec.recharge_amount, 1000);
    assert_eq!(rec.fee, 0);
    assert!(!rec.succeeded);
    assert!(rec.time_succeeded.is_none());
    assert!(matches!(rec.kind, ObjType::Recharge));
    assert_eq!(rec.wallet_id, "w1");
    assert_eq!(rec.settle, "ch1");
    assert_eq!(rec.description.as_deref(), Some("first deposit"));
    assert_eq!(rec.created.secs, 500);
    assert!(!rec.id.is_empty());
}

#[test]
fn generated_ids_are_fresh() {
    let mut store = Ledger::new();
    let a = new_recharge(&mut store, "w1", 1, 1);
    let b = new_recharge(&mut store, "w1", 2, 2);
    let c = new_withdraw(&mut store, "w1", 3, 3);
    assert_ne!(a.id, b.id);
    assert_ne!(a.id, c.id);
    assert_ne!(b.id, c.id);
}

#[test]
fn get_is_scoped_by_wallet_and_id() {
    let mut store = Ledger::new();
    let rec = new_recharge(&mut store, "w1", 100, 10);
    let got = Recharge::get_by_wallet_id(&store, &"w1".to_string(), &rec.id).unwrap();
    assert_eq!(got.id, rec.id);
    assert_eq!(got.amount, 100);
}

#[test]
fn get_under_another_wallet_is_not_found() {
    let mut store = Ledger::new();
    let rec = new_recharge(&mut store, "w1", 100, 10);
    let err = Recharge::get_by_wallet_id(&store, &"w2".to_string(), &rec.id).unwrap_err();
    assert_eq!(err, LedgerError::NotFound);
    let wd = new_withdraw(&mut store, "w1", 50, 11);
    let err = Withdraw::get_by_wallet_id(&store, &"w2".to_string(), &wd.id).unwrap_err();
    assert_eq!(err, LedgerError::NotFound);
}

#[test]
fn withdraw_lifecycle_accepts_pending_then_rejects_succeeded() {
    let mut store = Ledger::new();
    let wd = Withdraw::create_withdraw(
        &mut store,
        "w1".to_string(),
        "ch1".to_string(),
        500,
        None,
        None,
        at(20),
    )
    .unwrap();
    assert!(matches!(wd.status, Status::Created));
    assert_eq!(wd.amount, 500);
    assert_eq!(wd.settle, "ch1");
    assert!(wd.time_canceled.is_none());
    assert!(wd.time_succeeded.is_none());

    let pending =
        Withdraw::set_wallet_status(&mut store, &"w1".to_string(), &wd.id, Status::Pending)
            .unwrap();
    assert!(matches!(pending.status, Status::Pending));
    assert_eq!(pending.id, wd.id);

    let err =
        Withdraw::set_wallet_status(&mut store, &"w1".to_string(), &wd.id, Status::Succeeded)
            .unwrap_err();
    assert_eq!(err, LedgerError::Validation);
}

#[test]
fn status_update_rejects_every_non_target_regardless_of_state() {
    let mut store = Ledger::new();
    let wd = new_withdraw(&mut store, "w1", 500, 20);
    for target in [Status::Created, Status::Succeeded, Status::Failed] {
        let err = Withdraw::set_wallet_status(&mut store, &"w1".to_string(), &wd.id, target)
            .unwrap_err();
        assert_eq!(err, LedgerError::Validation);
    }
    // The record is untouched by the rejected attempts.
    let got = Withdraw::get_by_wallet_id(&store, &"w1".to_string(), &wd.id).unwrap();
    assert!(matches!(got.status, Status::Created));
}

#[test]
fn status_update_of_missing_record_is_not_found() {
    let mut store = Ledger::new();
    let err = Withdraw::set_wallet_status(
        &mut store,
        &"w1".to_string(),
        &"no-such-id".to_string(),
        Status::Pending,
    )
    .unwrap_err();
    assert_eq!(err, LedgerError::NotFound);
}

#[test]
fn status_update_is_scoped_by_wallet() {
    let mut store = Ledger::new();
    let wd = new_withdraw(&mut store, "w1", 500, 20);
    let err =
        Withdraw::set_wallet_status(&mut store, &"w2".to_string(), &wd.id, Status::Canceled)
            .unwrap_err();
    assert_eq!(err, LedgerError::NotFound);
    let got = Withdraw::get_by_wallet_id(&store, &"w1".to_string(), &wd.id).unwrap();
    assert!(matches!(got.status, Status::Created));
}

#[test]
fn blind_update_overwrites_a_terminal_status() {
    // The shipped behavior never consults the current status: canceling an
    // already pending (or otherwise advanced) withdraw simply overwrites.
    let mut store = Ledger::new();
    let wd = new_withdraw(&mut store, "w1", 500, 20);
    Withdraw::set_wallet_status(&mut store, &"w1".to_string(), &wd.id, Status::Pending).unwrap();
    let again =
        Withdraw::set_wallet_status(&mut store, &"w1".to_string(), &wd.id, Status::Pending)
            .unwrap();
    assert!(matches!(again.status, Status::Pending));
}

#[test]
fn strict_update_consults_the_transition_table() {
    let mut store = Ledger::new();
    let wd = new_withdraw(&mut store, "w1", 500, 20);
    // created -> pending is admitted.
    let pending = Withdraw::set_wallet_status_strict(
        &mut store,
        &"w1".to_string(),
        &wd.id,
        Status::Pending,
    )
    .unwrap();
    assert!(matches!(pending.status, Status::Pending));
    // pending -> pending is not.
    let err = Withdraw::set_wallet_status_strict(
        &mut store,
        &"w1".to_string(),
        &wd.id,
        Status::Pending,
    )
    .unwrap_err();
    assert_eq!(err, LedgerError::Validation);
    // pending -> canceled is.
    let canceled = Withdraw::set_wallet_status_strict(
        &mut store,
        &"w1".to_string(),
        &wd.id,
        Status::Canceled,
    )
    .unwrap();
    assert!(matches!(canceled.status, Status::Canceled));
    // canceled is terminal.
    let err = Withdraw::set_wallet_status_strict(
        &mut store,
        &"w1".to_string(),
        &wd.id,
        Status::Pending,
    )
    .unwrap_err();
    assert_eq!(err, LedgerError::Validation);
}

#[test]
fn list_returns_only_the_wallet_records() {
    let mut store = Ledger::new();
    new_recharge(&mut store, "w1", 1, 1);
    new_recharge(&mut store, "w2", 2, 2);
    new_recharge(&mut store, "w1", 3, 3);
    let listed = Recharge::list_recharge(&store, &"w1".to_string(), &page(1, 10)).unwrap();
    assert_eq!(listed.len(), 2);
    assert_eq!(listed[0].amount, 1);
    assert_eq!(listed[1].amount, 3);
}

#[test]
fn list_rejects_an_invalid_query_before_the_store() {
    let store = Ledger::new();
    let err = Recharge::list_recharge(&store, &"w1".to_string(), &page(0, 10)).unwrap_err();
    assert_eq!(err, LedgerError::Validation);
    let err = Withdraw::list_withdraw(&store, &"w1".to_string(), &page(1, 0)).unwrap_err();
    assert_eq!(err, LedgerError::Validation);
}

#[test]
fn list_of_no_matches_is_empty_not_an_error() {
    let store = Ledger::new();
    let listed = Recharge::list_recharge(&store, &"w1".to_string(), &page(1, 10)).unwrap();
    assert!(listed.is_empty());
}

#[test]
fn list_pages_with_offset_and_limit() {
    let mut store = Ledger::new();
    for k in 0..5u32 {
        new_recharge(&mut store, "w1", k + 1, (k + 1) as i64);
    }
    let second_page = Recharge::list_recharge(&store, &"w1".to_string(), &page(2, 2)).unwrap();
    assert_eq!(second_page.len(), 2);
    assert_eq!(second_page[0].amount, 3);
    assert_eq!(second_page[1].amount, 4);
    let last_page = Recharge::list_recharge(&store, &"w1".to_string(), &page(3, 2)).unwrap();
    assert_eq!(last_page.len(), 1);
    assert_eq!(last_page[0].amount, 5);
    let past_the_end = Recharge::list_recharge(&store, &"w1".to_string(), &page(9, 2)).unwrap();
    assert!(past_the_end.is_empty());
}

#[test]
fn list_time_range_keeps_exactly_the_middle_group() {
    // Records before T1, between T1 and T2, and after T2: the two-sided
    // filter keeps exactly the middle group, each bound binding its own
    // value.
    let mut store = Ledger::new();
    new_recharge(&mut store, "w1", 1, 50);
    new_recharge(&mut store, "w1", 2, 150);
    new_recharge(&mut store, "w1", 3, 175);
    new_recharge(&mut store, "w1", 4, 300);
    let q = PagingQuery {
        page: 1,
        count: 10,
        begin_time: Some(at(100)),
        end_time: Some(at(200)),
    };
    let listed = Recharge::list_recharge(&store, &"w1".to_string(), &q).unwrap();
    assert_eq!(listed.len(), 2);
    assert_eq!(listed[0].amount, 2);
    assert_eq!(listed[1].amount, 3);
}

#[test]
fn list_time_bounds_are_inclusive() {
    let mut store = Ledger::new();
    new_withdraw(&mut store, "w1", 1, 100);
    new_withdraw(&mut store, "w1", 2, 200);
    new_withdraw(&mut store, "w1", 3, 201);
    let q = PagingQuery {
        page: 1,
        count: 10,
        begin_time: Some(at(100)),
        end_time: Some(at(200)),
    };
    let listed = Withdraw::list_withdraw(&store, &"w1".to_string(), &q).unwrap();
    assert_eq!(listed.len(), 2);
    assert_eq!(listed[0].amount, 1);
    assert_eq!(listed[1].amount, 2);
}

#[test]
fn list_single_bounds_filter_one_side() {
    let mut store = Ledger::new();
    new_recharge(&mut store, "w1", 1, 50);
    new_recharge(&mut store, "w1", 2, 150);
    new_recharge(&mut store, "w1", 3, 250);
    let since = PagingQuery { page: 1, count: 10, begin_time: Some(at(100)), end_time: None };
    let listed = Recharge::list_recharge(&store, &"w1".to_string(), &since).unwrap();
    assert_eq!(listed.len(), 2);
    assert_eq!(listed[0].amount, 2);
    let until = PagingQuery { page: 1, count: 10, begin_time: None, end_time: Some(at(100)) };
    let listed = Recharge::list_recharge(&store, &"w1".to_string(), &until).unwrap();
    assert_eq!(listed.len(), 1);
    assert_eq!(listed[0].amount, 1);
}
