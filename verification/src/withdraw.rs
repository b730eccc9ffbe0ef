use vstd::prelude::*;
use vstd::pervasive::VecAdditionalExecFns;
use crate::error::LedgerError;
use crate::ledger::{
    render_id, spec_dec_str, spec_page, spec_select, Ledger, lemma_select_take_step,
    lemma_withdraw_insert_wf, lemma_withdraw_update_wf,
};
use crate::paging::PagingQuery;
use crate::query::{spec_filter_of, spec_plan_of, spec_plan_ok, TimeFilter};
use crate::row::{
    clone_opt_string, spec_col, spec_kind_of, spec_opt_json_of, spec_opt_text_of,
    spec_opt_time_of, spec_stat_of, spec_text_of, spec_time_of, spec_uint_of, ColName, ColValue,
    RowData,
};
use crate::status::{ObjType, Status};
use crate::timestamp::Timestamp;

verus! {

/// A withdraw record: a request to move funds out of a wallet, tracked
/// through the status lifecycle. The status is the only field that changes
/// after creation.
#[derive(Debug)]
pub struct Withdraw {
    /// The record's opaque unique id, generated at creation.
    pub id: String,
    /// The kind tag; always the withdraw kind.
    pub kind: ObjType,
    /// The creation instant.
    pub created: Timestamp,
    /// Structured caller metadata, opaque to the core, carried as its text.
    pub extra: Option<String>,
    /// Free-text note, if any.
    pub description: Option<String>,
    /// Where the withdraw stands in its lifecycle.
    pub status: Status,
    /// The owning wallet's id.
    pub wallet_id: String,
    /// The settlement channel's id.
    pub settle: String,
    /// When the withdraw was canceled, if it was.
    pub time_canceled: Option<Timestamp>,
    /// When the withdraw completed, if it did.
    pub time_succeeded: Option<Timestamp>,
    /// The requested withdrawal amount.
    pub amount: u32,
}

impl Clone for Withdraw {
    /// An exact copy: every field of the clone equals the original's.
    fn clone(&self) -> (r: Self)
        ensures
            r == *self,
    {
        Withdraw {
            id: self.id.clone(),
            kind: self.kind,
            created: self.created,
            extra: clone_opt_string(&self.extra),
            description: clone_opt_string(&self.description),
            status: self.status,
            wallet_id: self.wallet_id.clone(),
            settle: self.settle.clone(),
            time_canceled: self.time_canceled,
            time_succeeded: self.time_succeeded,
            amount: self.amount,
        }
    }
}

/// The body of a request to create a withdraw.
#[derive(Debug)]
pub struct CreateReq {
    /// The settlement channel's id.
    pub settle: String,
    /// The requested withdrawal amount.
    pub amount: u32,
    /// Free-text note, if any.
    pub description: Option<String>,
    /// Structured caller metadata, carried as its text.
    pub extra: Option<String>,
}

/// The body of a request to update a withdraw's status.
#[derive(Debug)]
pub struct UpdateReq {
    /// The requested target status; only pending or canceled is accepted.
    pub status: Status,
}

/// The shape a persisted withdraw row must have.
pub open spec fn spec_withdraw_row_ok(s: Seq<(ColName, ColValue)>) -> bool {
    &&& spec_col(s, ColName::Id) matches Some(ColValue::Text(_))
    &&& spec_col(s, ColName::Kind) matches Some(ColValue::Kind(_))
    &&& spec_col(s, ColName::Created) matches Some(ColValue::Time(_))
    &&& (spec_col(s, ColName::Extra) matches Some(ColValue::Json(_)) || spec_col(
        s,
        ColName::Extra,
    ) == Option::Some(ColValue::Null))
    &&& (spec_col(s, ColName::Description) matches Some(ColValue::Text(_)) || spec_col(
        s,
        ColName::Description,
    ) == Option::Some(ColValue::Null))
    &&& spec_col(s, ColName::Status) matches Some(ColValue::Stat(_))
    &&& spec_col(s, ColName::WalletId) matches Some(ColValue::Text(_))
    &&& spec_col(s, ColName::Settle) matches Some(ColValue::Text(_))
    &&& (spec_col(s, ColName::TimeCanceled) matches Some(ColValue::Time(_)) || spec_col(
        s,
        ColName::TimeCanceled,
    ) == Option::Some(ColValue::Null))
    &&& (spec_col(s, ColName::TimeSucceeded) matches Some(ColValue::Time(_)) || spec_col(
        s,
        ColName::TimeSucceeded,
    ) == Option::Some(ColValue::Null))
    &&& spec_col(s, ColName::Amount) matches Some(ColValue::Int(a)) && a >= 0
}

/// The withdraw a well-shaped row materializes to.
pub open spec fn spec_withdraw_of_row(s: Seq<(ColName, ColValue)>) -> Withdraw {
    Withdraw {
        id: spec_text_of(spec_col(s, ColName::Id)),
        kind: spec_kind_of(spec_col(s, ColName::Kind)),
        created: spec_time_of(spec_col(s, ColName::Created)),
        extra: spec_opt_json_of(spec_col(s, ColName::Extra)),
        description: spec_opt_text_of(spec_col(s, ColName::Description)),
        status: spec_stat_of(spec_col(s, ColName::Status)),
        wallet_id: spec_text_of(spec_col(s, ColName::WalletId)),
        settle: spec_text_of(spec_col(s, ColName::Settle)),
        time_canceled: spec_opt_time_of(spec_col(s, ColName::TimeCanceled)),
        time_succeeded: spec_opt_time_of(spec_col(s, ColName::TimeSucceeded)),
        amount: spec_uint_of(spec_col(s, ColName::Amount)),
    }
}

/// Whether a withdraw record belongs to the wallet and carries the id.
pub open spec fn spec_withdraw_key_matches(r: Withdraw, w: Seq<char>, id: Seq<char>) -> bool {
    r.wallet_id@ == w && r.id@ == id
}

/// Whether `i` is the first index whose record matches the wallet and id.
pub open spec fn spec_withdraw_first_match(
    s: Seq<Withdraw>,
    w: Seq<char>,
    id: Seq<char>,
    i: int,
) -> bool {
    &&& 0 <= i < s.len()
    &&& spec_withdraw_key_matches(s[i], w, id)
    &&& forall|j: int| 0 <= j < i ==> !spec_withdraw_key_matches(#[trigger] s[j], w, id)
}

/// At most one index is the first match for a wallet and id.
proof fn lemma_withdraw_first_match_unique(s: Seq<Withdraw>, w: Seq<char>, id: Seq<char>, i: int, j: int)
    requires
        spec_withdraw_first_match(s, w, id, i),
        spec_withdraw_first_match(s, w, id, j),
    ensures
        i == j,
{
    if i < j {
        assert(!spec_withdraw_key_matches(s[i], w, id));
    }
    if j < i {
        assert(!spec_withdraw_key_matches(s[j], w, id));
    }
}

/// Whether a listing keeps a withdraw record: it belongs to the wallet and
/// its creation instant passes the time filter.
pub open spec fn spec_withdraw_keep(w: Seq<char>, f: TimeFilter) -> spec_fn(Withdraw) -> bool {
    |r: Withdraw| r.wallet_id@ == w && f.spec_matches(r.created)
}

impl Withdraw {
    /// Materialize a withdraw from a persisted row. Fails with a row-mapping
    /// error, producing no partial entity, exactly when some required column
    /// is absent or has the wrong shape.
    pub fn from_row(row: &RowData) -> (r: Result<Withdraw, LedgerError>)
        ensures
            match r {
                Ok(rec) => spec_withdraw_row_ok(row.cols@) && rec == spec_withdraw_of_row(
                    row.cols@,
                ),
                Err(e) => e == LedgerError::RowMapping && !spec_withdraw_row_ok(row.cols@),
            },
    {
        let id = row.get_text(ColName::Id)?;
        let kind = row.get_kind(ColName::Kind)?;
        let created = row.get_time(ColName::Created)?;
        let extra = row.get_opt_json(ColName::Extra)?;
        let description = row.get_opt_text(ColName::Description)?;
        let status = row.get_stat(ColName::Status)?;
        let wallet_id = row.get_text(ColName::WalletId)?;
        let settle = row.get_text(ColName::Settle)?;
        let time_canceled = row.get_opt_time(ColName::TimeCanceled)?;
        let time_succeeded = row.get_opt_time(ColName::TimeSucceeded)?;
        let amount = row.get_uint(ColName::Amount)?;
        Ok(
            Withdraw {
                id,
                kind,
                created,
                extra,
                description,
                status,
                wallet_id,
                settle,
                time_canceled,
                time_succeeded,
                amount,
            },
        )
    }

    /// Create a withdraw in the store. The id and creation instant are
    /// assigned here; the withdraw starts in the created status with neither
    /// terminal instant set.
    pub fn create_withdraw(
        store: &mut Ledger,
        wallet_id: String,
        settle: String,
        amount: u32,
        description: Option<String>,
        extra: Option<String>,
        now: Timestamp,
    ) -> (r: Result<Withdraw, LedgerError>)
        requires
            old(store).wf(),
            old(store).next_id < u64::MAX,
        ensures
            final(store).wf(),
            final(store).recharges == old(store).recharges,
            final(store).next_id == old(store).next_id + 1,
            r matches Ok(rec) && {
                &&& rec.id@ == spec_dec_str(old(store).next_id as nat)
                &&& rec.kind == ObjType::Withdraw
                &&& rec.created == now
                &&& rec.status == Status::Created
                &&& rec.time_canceled is None
                &&& rec.time_succeeded is None
                &&& rec.amount == amount
                &&& rec.wallet_id == wallet_id
                &&& rec.description == description
                &&& rec.extra == extra
                &&& rec.settle == settle
                &&& final(store).withdraws@ == old(store).withdraws@.push(rec)
                &&& forall|i: int|
                    0 <= i < old(store).withdraws@.len() ==> #[trigger] old(
                        store,
                    ).withdraws@[i].id@ != rec.id@
                &&& forall|i: int|
                    0 <= i < old(store).recharges@.len() ==> #[trigger] old(
                        store,
                    ).recharges@[i].id@ != rec.id@
            },
    {
        let id = render_id(store.next_id);
        let rec = Withdraw {
            id,
            kind: ObjType::Withdraw,
            created: now,
            extra,
            description,
            status: Status::Created,
            wallet_id,
            settle,
            time_canceled: None,
            time_succeeded: None,
            amount,
        };
        let result = rec.clone();
        store.next_id = store.next_id + 1;
        store.withdraws.push(rec);
        proof {
            lemma_withdraw_insert_wf(*old(store), *store);
        }
        Ok(result)
    }

    /// Fetch the withdraw scoped by both the wallet id and the record id.
    pub fn get_by_wallet_id(store: &Ledger, wallet_id: &String, id: &String) -> (r: Result<
        Withdraw,
        LedgerError,
    >)
        ensures
            match r {
                Ok(rec) => exists|i: int|
                    #[trigger] spec_withdraw_first_match(store.withdraws@, wallet_id@, id@, i)
                        && rec == store.withdraws@[i],
                Err(e) => e == LedgerError::NotFound && forall|i: int|
                    0 <= i < store.withdraws@.len() ==> !spec_withdraw_key_matches(
                        #[trigger] store.withdraws@[i],
                        wallet_id@,
                        id@,
                    ),
            },
    {
        let mut i: usize = 0;
        while i < store.withdraws.len()
            invariant
                i <= store.withdraws@.len(),
                forall|j: int|
                    0 <= j < i ==> !spec_withdraw_key_matches(
                        #[trigger] store.withdraws@[j],
                        wallet_id@,
                        id@,
                    ),
            decreases store.withdraws@.len() - i,
        {
            let rec = &store.withdraws[i];
            if rec.wallet_id == *wallet_id && rec.id == *id {
                let found = rec.clone();
                proof {
                    assert(spec_withdraw_first_match(store.withdraws@, wallet_id@, id@, i as int));
                }
                return Ok(found);
            }
            i = i + 1;
        }
        Err(LedgerError::NotFound)
    }

    /// Update the status of the withdraw scoped by wallet id and record id:
    /// the shipped behavior, which validates only the requested target. A
    /// target other than pending or canceled is rejected with a validation
    /// error before the store is touched, whatever the current status; an
    /// accepted target overwrites the status of the first matching record
    /// unconditionally, and the updated record is returned with its status
    /// equal to the target. A record under another wallet is not found, not
    /// updated.
    pub fn set_wallet_status(
        store: &mut Ledger,
        wallet_id: &String,
        id: &String,
        status: Status,
    ) -> (r: Result<Withdraw, LedgerError>)
        ensures
            old(store).wf() ==> final(store).wf(),
            final(store).recharges == old(store).recharges,
            final(store).next_id == old(store).next_id,
            !status.spec_is_update_target() ==> (r matches Err(e) && e == LedgerError::Validation
                && *final(store) == *old(store)),
            status.spec_is_update_target() && (forall|i: int|
                0 <= i < old(store).withdraws@.len() ==> !spec_withdraw_key_matches(
                    #[trigger] old(store).withdraws@[i],
                    wallet_id@,
                    id@,
                )) ==> (r matches Err(e) && e == LedgerError::NotFound && *final(store) == *old(store)),
            status.spec_is_update_target() ==> forall|i: int|
                #[trigger] spec_withdraw_first_match(old(store).withdraws@, wallet_id@, id@, i)
                    ==> (r matches Ok(rec) && rec == (Withdraw {
                    status: status,
                    ..old(store).withdraws@[i]
                }) && final(store).withdraws@ == old(store).withdraws@.update(i, rec)),
    {
        if !status.is_update_target() {
            return Err(LedgerError::Validation);
        }
        let mut i: usize = 0;
        while i < store.withdraws.len()
            invariant
                *store == *old(store),
                status.spec_is_update_target(),
                i <= store.withdraws@.len(),
                forall|j: int|
                    0 <= j < i ==> !spec_withdraw_key_matches(
                        #[trigger] store.withdraws@[j],
                        wallet_id@,
                        id@,
                    ),
            decreases store.withdraws@.len() - i,
        {
            let rec = &store.withdraws[i];
            if rec.wallet_id == *wallet_id && rec.id == *id {
                let mut updated = rec.clone();
                updated.status = status;
                let result = updated.clone();
                store.withdraws.set(i, updated);
                proof {
                    assert(spec_withdraw_first_match(
                        old(store).withdraws@,
                        wallet_id@,
                        id@,
                        i as int,
                    ));
                    assert forall|k: int|
                        #[trigger] spec_withdraw_first_match(
                            old(store).withdraws@,
                            wallet_id@,
                            id@,
                            k,
                        ) implies k == i as int by {
                        lemma_withdraw_first_match_unique(
                            old(store).withdraws@,
                            wallet_id@,
                            id@,
                            k,
                            i as int,
                        );
                    }
                    if old(store).wf() {
                        lemma_withdraw_update_wf(*old(store), *store);
                    }
                }
                return Ok(result);
            }
            i = i + 1;
        }
        Err(LedgerError::NotFound)
    }

    /// The strict variant of the status update: on top of validating the
    /// target, it consults the transition table against the record's current
    /// status and rejects a transition the state machine does not admit,
    /// leaving the store unchanged.
    pub fn set_wallet_status_strict(
        store: &mut Ledger,
        wallet_id: &String,
        id: &String,
        status: Status,
    ) -> (r: Result<Withdraw, LedgerError>)
        ensures
            old(store).wf() ==> final(store).wf(),
            final(store).recharges == old(store).recharges,
            final(store).next_id == old(store).next_id,
            !status.spec_is_update_target() ==> (r matches Err(e) && e == LedgerError::Validation
                && *final(store) == *old(store)),
            status.spec_is_update_target() && (forall|i: int|
                0 <= i < old(store).withdraws@.len() ==> !spec_withdraw_key_matches(
                    #[trigger] old(store).withdraws@[i],
                    wallet_id@,
                    id@,
                )) ==> (r matches Err(e) && e == LedgerError::NotFound && *final(store) == *old(store)),
            status.spec_is_update_target() ==> forall|i: int|
                #[trigger] spec_withdraw_first_match(old(store).withdraws@, wallet_id@, id@, i)
                    ==> if Status::spec_transition_allowed(old(store).withdraws@[i].status, status) {
                    r matches Ok(rec) && rec == (Withdraw {
                        status: status,
                        ..old(store).withdraws@[i]
                    }) && final(store).withdraws@ == old(store).withdraws@.update(i, rec)
                } else {
                    r matches Err(e) && e == LedgerError::Validation && *final(store) == *old(store)
                },
    {
        if !status.is_update_target() {
            return Err(LedgerError::Validation);
        }
        let mut i: usize = 0;
        while i < store.withdraws.len()
            invariant
                *store == *old(store),
                status.spec_is_update_target(),
                i <= store.withdraws@.len(),
                forall|j: int|
                    0 <= j < i ==> !spec_withdraw_key_matches(
                        #[trigger] store.withdraws@[j],
                        wallet_id@,
                        id@,
                    ),
            decreases store.withdraws@.len() - i,
        {
            let rec = &store.withdraws[i];
            if rec.wallet_id == *wallet_id && rec.id == *id {
                proof {
                    assert(spec_withdraw_first_match(
                        old(store).withdraws@,
                        wallet_id@,
                        id@,
                        i as int,
                    ));
                    assert forall|k: int|
                        #[trigger] spec_withdraw_first_match(
                            old(store).withdraws@,
                            wallet_id@,
                            id@,
                            k,
                        ) implies k == i as int by {
                        lemma_withdraw_first_match_unique(
                            old(store).withdraws@,
                            wallet_id@,
                            id@,
                            k,
                            i as int,
                        );
                    }
                }
                if !Status::transition_allowed(rec.status, status) {
                    return Err(LedgerError::Validation);
                }
                let mut updated = rec.clone();
                updated.status = status;
                let result = updated.clone();
                store.withdraws.set(i, updated);
                proof {
                    if old(store).wf() {
                        lemma_withdraw_update_wf(*old(store), *store);
                    }
                }
                return Ok(result);
            }
            i = i + 1;
        }
        Err(LedgerError::NotFound)
    }

    /// List the wallet's withdraws: the records matching the wallet and the
    /// query's time filter, in stored order, cut to the query's page.
    pub fn list_withdraw(store: &Ledger, wallet_id: &String, paging: &PagingQuery) -> (r: Result<
        Vec<Withdraw>,
        LedgerError,
    >)
        ensures
            match r {
                Ok(v) => spec_plan_ok(*paging) && v@ == spec_page(
                    spec_select(
                        store.withdraws@,
                        spec_withdraw_keep(wallet_id@, spec_filter_of(*paging)),
                    ),
                    spec_plan_of(*paging).offset as int,
                    spec_plan_of(*paging).limit as int,
                ),
                Err(e) => e == LedgerError::Validation && !spec_plan_ok(*paging),
            },
    {
        let plan = paging.compile()?;
        let ghost keep = spec_withdraw_keep(wallet_id@, spec_filter_of(*paging));
        let mut matched: Vec<Withdraw> = Vec::new();
        let mut i: usize = 0;
        while i < store.withdraws.len()
            invariant
                i <= store.withdraws@.len(),
                matched@ == spec_select(store.withdraws@.take(i as int), keep),
                keep == spec_withdraw_keep(wallet_id@, spec_filter_of(*paging)),
                plan == spec_plan_of(*paging),
            decreases store.withdraws@.len() - i,
        {
            let rec = &store.withdraws[i];
            if rec.wallet_id == *wallet_id && plan.filter.matches(&rec.created) {
                matched.push(rec.clone());
            }
            proof {
                lemma_select_take_step(store.withdraws@, keep, i as int);
            }
            i = i + 1;
        }
        proof {
            assert(store.withdraws@.take(store.withdraws@.len() as int) =~= store.withdraws@);
        }
        let sel_len = matched.len();
        let start: usize = if plan.offset as u64 <= sel_len as u64 {
            plan.offset as usize
        } else {
            sel_len
        };
        let remaining = sel_len - start;
        let take_n: usize = if (plan.limit as u64) <= remaining as u64 {
            plan.limit as usize
        } else {
            remaining
        };
        let end = start + take_n;
        let mut out: Vec<Withdraw> = Vec::new();
        let mut j = start;
        while j < end
            invariant
                start <= j <= end,
                end <= matched@.len(),
                out@ == matched@.subrange(start as int, j as int),
            decreases end - j,
        {
            out.push(matched[j].clone());
            proof {
                assert(matched@.subrange(start as int, j + 1 as int) =~= matched@.subrange(
                    start as int,
                    j as int,
                ).push(matched@[j as int]));
            }
            j = j + 1;
        }
        proof {
            assert(out@ =~= spec_page(
                spec_select(store.withdraws@, keep),
                plan.offset as int,
                plan.limit as int,
            ));
        }
        Ok(out)
    }
}

} // verus!
