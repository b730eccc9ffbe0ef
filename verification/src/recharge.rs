use vstd::prelude::*;
use crate::error::LedgerError;
use crate::ledger::{
    render_id, spec_dec_str, spec_page, spec_select, Ledger, lemma_select_take_step,
    lemma_recharge_insert_wf,
};
use crate::paging::PagingQuery;
use crate::query::{spec_filter_of, spec_plan_of, spec_plan_ok, TimeFilter};
use crate::row::{
    clone_opt_string, spec_col, spec_flag_of, spec_kind_of, spec_opt_json_of, spec_opt_text_of,
    spec_opt_time_of, spec_text_of, spec_time_of, spec_uint_of, ColName, ColValue, RowData,
};
use crate::status::ObjType;
use crate::timestamp::Timestamp;

verus! {

/// A recharge record: a completed or pending deposit into a wallet. Created
/// by a single insert that assigns the id server-side; never updated or
/// deleted afterwards.
#[derive(Debug)]
pub struct Recharge {
    /// The record's opaque unique id, generated at creation.
    pub id: String,
    /// The kind tag; always the recharge kind.
    pub kind: ObjType,
    /// The creation instant.
    pub created: Timestamp,
    /// What the wallet is actually credited, in the minor currency unit;
    /// equal to `recharge_amount` at creation.
    pub amount: u32,
    /// The requested deposit amount.
    pub recharge_amount: u32,
    /// The deposit fee; zero at creation.
    pub fee: u32,
    /// Whether the deposit has completed.
    pub succeeded: bool,
    /// When the deposit completed, if it has.
    pub time_succeeded: Option<Timestamp>,
    /// The owning wallet's id.
    pub wallet_id: String,
    /// Free-text note, if any.
    pub description: Option<String>,
    /// Structured caller metadata, opaque to the core, carried as its text.
    pub extra: Option<String>,
    /// The settlement channel's id.
    pub settle: String,
}

impl Clone for Recharge {
    /// An exact copy: every field of the clone equals the original's.
    fn clone(&self) -> (r: Self)
        ensures
            r == *self,
    {
        Recharge {
            id: self.id.clone(),
            kind: self.kind,
            created: self.created,
            amount: self.amount,
            recharge_amount: self.recharge_amount,
            fee: self.fee,
            succeeded: self.succeeded,
            time_succeeded: self.time_succeeded,
            wallet_id: self.wallet_id.clone(),
            description: clone_opt_string(&self.description),
            extra: clone_opt_string(&self.extra),
            settle: self.settle.clone(),
        }
    }
}

/// The body of a request to create a recharge.
#[derive(Debug)]
pub struct CreateReq {
    /// The requested deposit amount.
    pub recharge_amount: u32,
    /// The settlement channel's id.
    pub settle: String,
    /// Free-text note, if any.
    pub description: Option<String>,
    /// Structured caller metadata, carried as its text.
    pub extra: Option<String>,
}

/// The shape a persisted recharge row must have: every required column
/// present with its column type, integer amounts non-negative, and the
/// nullable columns either typed or explicitly null.
pub open spec fn spec_recharge_row_ok(s: Seq<(ColName, ColValue)>) -> bool {
    &&& spec_col(s, ColName::Id) matches Some(ColValue::Text(_))
    &&& spec_col(s, ColName::Kind) matches Some(ColValue::Kind(_))
    &&& spec_col(s, ColName::Created) matches Some(ColValue::Time(_))
    &&& spec_col(s, ColName::Amount) matches Some(ColValue::Int(a)) && a >= 0
    &&& spec_col(s, ColName::RechargeAmount) matches Some(ColValue::Int(ra)) && ra >= 0
    &&& spec_col(s, ColName::Fee) matches Some(ColValue::Int(f)) && f >= 0
    &&& spec_col(s, ColName::Succeeded) matches Some(ColValue::Flag(_))
    &&& (spec_col(s, ColName::TimeSucceeded) matches Some(ColValue::Time(_)) || spec_col(
        s,
        ColName::TimeSucceeded,
    ) == Option::Some(ColValue::Null))
    &&& spec_col(s, ColName::WalletId) matches Some(ColValue::Text(_))
    &&& (spec_col(s, ColName::Description) matches Some(ColValue::Text(_)) || spec_col(
        s,
        ColName::Description,
    ) == Option::Some(ColValue::Null))
    &&& (spec_col(s, ColName::Extra) matches Some(ColValue::Json(_)) || spec_col(
        s,
        ColName::Extra,
    ) == Option::Some(ColValue::Null))
    &&& spec_col(s, ColName::Settle) matches Some(ColValue::Text(_))
}

/// The recharge a well-shaped row materializes to.
pub open spec fn spec_recharge_of_row(s: Seq<(ColName, ColValue)>) -> Recharge {
    Recharge {
        id: spec_text_of(spec_col(s, ColName::Id)),
        kind: spec_kind_of(spec_col(s, ColName::Kind)),
        created: spec_time_of(spec_col(s, ColName::Created)),
        amount: spec_uint_of(spec_col(s, ColName::Amount)),
        recharge_amount: spec_uint_of(spec_col(s, ColName::RechargeAmount)),
        fee: spec_uint_of(spec_col(s, ColName::Fee)),
        succeeded: spec_flag_of(spec_col(s, ColName::Succeeded)),
        time_succeeded: spec_opt_time_of(spec_col(s, ColName::TimeSucceeded)),
        wallet_id: spec_text_of(spec_col(s, ColName::WalletId)),
        description: spec_opt_text_of(spec_col(s, ColName::Description)),
        extra: spec_opt_json_of(spec_col(s, ColName::Extra)),
        settle: spec_text_of(spec_col(s, ColName::Settle)),
    }
}

/// Whether a recharge record belongs to the wallet and carries the id.
pub open spec fn spec_recharge_key_matches(r: Recharge, w: Seq<char>, id: Seq<char>) -> bool {
    r.wallet_id@ == w && r.id@ == id
}

/// Whether `i` is the first index whose record matches the wallet and id.
pub open spec fn spec_recharge_first_match(
    s: Seq<Recharge>,
    w: Seq<char>,
    id: Seq<char>,
    i: int,
) -> bool {
    &&& 0 <= i < s.len()
    &&& spec_recharge_key_matches(s[i], w, id)
    &&& forall|j: int| 0 <= j < i ==> !spec_recharge_key_matches(#[trigger] s[j], w, id)
}

/// Whether a listing keeps a recharge record: it belongs to the wallet and
/// its creation instant passes the time filter.
pub open spec fn spec_recharge_keep(w: Seq<char>, f: TimeFilter) -> spec_fn(Recharge) -> bool {
    |r: Recharge| r.wallet_id@ == w && f.spec_matches(r.created)
}

impl Recharge {
    /// Materialize a recharge from a persisted row. Fails with a row-mapping
    /// error, producing no partial entity, exactly when some required column
    /// is absent or has the wrong shape.
    pub fn from_row(row: &RowData) -> (r: Result<Recharge, LedgerError>)
        ensures
            match r {
                Ok(rec) => spec_recharge_row_ok(row.cols@) && rec == spec_recharge_of_row(
                    row.cols@,
                ),
                Err(e) => e == LedgerError::RowMapping && !spec_recharge_row_ok(row.cols@),
            },
    {
        let id = row.get_text(ColName::Id)?;
        let kind = row.get_kind(ColName::Kind)?;
        let created = row.get_time(ColName::Created)?;
        let amount = row.get_uint(ColName::Amount)?;
        let recharge_amount = row.get_uint(ColName::RechargeAmount)?;
        let fee = row.get_uint(ColName::Fee)?;
        let succeeded = row.get_flag(ColName::Succeeded)?;
        let time_succeeded = row.get_opt_time(ColName::TimeSucceeded)?;
        let wallet_id = row.get_text(ColName::WalletId)?;
        let description = row.get_opt_text(ColName::Description)?;
        let extra = row.get_opt_json(ColName::Extra)?;
        let settle = row.get_text(ColName::Settle)?;
        Ok(
            Recharge {
                id,
                kind,
                created,
                amount,
                recharge_amount,
                fee,
                succeeded,
                time_succeeded,
                wallet_id,
                description,
                extra,
                settle,
            },
        )
    }

    /// Create a recharge in the store. The id and creation instant are
    /// assigned here: the id from the store's counter, the instant from the
    /// caller's clock. No business rule is checked beyond the field types;
    /// the credited amount equals the requested amount, the fee is zero, and
    /// the deposit starts uncompleted with no completion instant.
    pub fn create_recharge(
        store: &mut Ledger,
        wallet_id: String,
        recharge_amount: u32,
        settle: String,
        description: Option<String>,
        extra: Option<String>,
        now: Timestamp,
    ) -> (r: Result<Recharge, LedgerError>)
        requires
            old(store).wf(),
            old(store).next_id < u64::MAX,
        ensures
            final(store).wf(),
            final(store).withdraws == old(store).withdraws,
            final(store).next_id == old(store).next_id + 1,
            r matches Ok(rec) && {
                &&& rec.id@ == spec_dec_str(old(store).next_id as nat)
                &&& rec.kind == ObjType::Recharge
                &&& rec.created == now
                &&& rec.amount == recharge_amount
                &&& rec.recharge_amount == recharge_amount
                &&& rec.fee == 0
                &&& rec.succeeded == false
                &&& rec.time_succeeded is None
                &&& rec.wallet_id == wallet_id
                &&& rec.description == description
                &&& rec.extra == extra
                &&& rec.settle == settle
                &&& final(store).recharges@ == old(store).recharges@.push(rec)
                &&& forall|i: int|
                    0 <= i < old(store).recharges@.len() ==> #[trigger] old(
                        store,
                    ).recharges@[i].id@ != rec.id@
                &&& forall|i: int|
                    0 <= i < old(store).withdraws@.len() ==> #[trigger] old(
                        store,
                    ).withdraws@[i].id@ != rec.id@
            },
    {
        let id = render_id(store.next_id);
        let rec = Recharge {
            id,
            kind: ObjType::Recharge,
            created: now,
            amount: recharge_amount,
            recharge_amount,
            fee: 0,
            succeeded: false,
            time_succeeded: None,
            wallet_id,
            description,
            extra,
            settle,
        };
        let result = rec.clone();
        store.next_id = store.next_id + 1;
        store.recharges.push(rec);
        proof {
            lemma_recharge_insert_wf(*old(store), *store);
        }
        Ok(result)
    }

    /// Fetch the recharge scoped by both the wallet id and the record id. A
    /// record that exists under a different wallet is absent here: the
    /// answer is the first record matching both keys, or a not-found error
    /// when none does.
    pub fn get_by_wallet_id(store: &Ledger, wallet_id: &String, id: &String) -> (r: Result<
        Recharge,
        LedgerError,
    >)
        ensures
            match r {
                Ok(rec) => exists|i: int|
                    #[trigger] spec_recharge_first_match(store.recharges@, wallet_id@, id@, i)
                        && rec == store.recharges@[i],
                Err(e) => e == LedgerError::NotFound && forall|i: int|
                    0 <= i < store.recharges@.len() ==> !spec_recharge_key_matches(
                        #[trigger] store.recharges@[i],
                        wallet_id@,
                        id@,
                    ),
            },
    {
        let mut i: usize = 0;
        while i < store.recharges.len()
            invariant
                i <= store.recharges@.len(),
                forall|j: int|
                    0 <= j < i ==> !spec_recharge_key_matches(
                        #[trigger] store.recharges@[j],
                        wallet_id@,
                        id@,
                    ),
            decreases store.recharges@.len() - i,
        {
            let rec = &store.recharges[i];
            if rec.wallet_id == *wallet_id && rec.id == *id {
                let found = rec.clone();
                proof {
                    assert(spec_recharge_first_match(store.recharges@, wallet_id@, id@, i as int));
                }
                return Ok(found);
            }
            i = i + 1;
        }
        Err(LedgerError::NotFound)
    }

    /// List the wallet's recharges: the records matching the wallet and the
    /// query's time filter, in stored order, cut to the query's page. An
    /// invalid query is rejected with a validation error before the store is
    /// read; a page past the end is an empty sequence, not an error.
    pub fn list_recharge(store: &Ledger, wallet_id: &String, paging: &PagingQuery) -> (r: Result<
        Vec<Recharge>,
        LedgerError,
    >)
        ensures
            match r {
                Ok(v) => spec_plan_ok(*paging) && v@ == spec_page(
                    spec_select(
                        store.recharges@,
                        spec_recharge_keep(wallet_id@, spec_filter_of(*paging)),
                    ),
                    spec_plan_of(*paging).offset as int,
                    spec_plan_of(*paging).limit as int,
                ),
                Err(e) => e == LedgerError::Validation && !spec_plan_ok(*paging),
            },
    {
        let plan = paging.compile()?;
        let ghost keep = spec_recharge_keep(wallet_id@, spec_filter_of(*paging));
        let mut matched: Vec<Recharge> = Vec::new();
        let mut i: usize = 0;
        while i < store.recharges.len()
            invariant
                i <= store.recharges@.len(),
                matched@ == spec_select(store.recharges@.take(i as int), keep),
                keep == spec_recharge_keep(wallet_id@, spec_filter_of(*paging)),
                plan == spec_plan_of(*paging),
            decreases store.recharges@.len() - i,
        {
            let rec = &store.recharges[i];
            if rec.wallet_id == *wallet_id && plan.filter.matches(&rec.created) {
                matched.push(rec.clone());
            }
            proof {
                lemma_select_take_step(store.recharges@, keep, i as int);
            }
            i = i + 1;
        }
        proof {
            assert(store.recharges@.take(store.recharges@.len() as int) =~= store.recharges@);
        }
        let sel_len = matched.len();
        let start: usize = if plan.offset as u64 <= sel_len as u64 {
            plan.offset as usize
        } else {
            sel_len
        };
        let remaining = sel_len - start;
        let take_n: usize = if (plan.limit as u64) <= remaining as u64 {
            plan.limit as usize
        } else {
            remaining
        };
        let end = start + take_n;
        let mut out: Vec<Recharge> = Vec::new();
        let mut j = start;
        while j < end
            invariant
                start <= j <= end,
                end <= matched@.len(),
                out@ == matched@.subrange(start as int, j as int),
            decreases end - j,
        {
            out.push(matched[j].clone());
            proof {
                assert(matched@.subrange(start as int, j + 1 as int) =~= matched@.subrange(
                    start as int,
                    j as int,
                ).push(matched@[j as int]));
            }
            j = j + 1;
        }
        proof {
            assert(out@ =~= spec_page(
                spec_select(store.recharges@, keep),
                plan.offset as int,
                plan.limit as int,
            ));
        }
        Ok(out)
    }
}

} // verus!
