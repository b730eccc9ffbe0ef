use vstd::prelude::*;
use vstd::string::StringExecFns;
use crate::recharge::Recharge;
use crate::withdraw::Withdraw;

verus! {

/// The character of a single decimal digit.
pub open spec fn spec_digit_char(d: nat) -> char {
    if d == 0 {
        '0'
    } else if d == 1 {
        '1'
    } else if d == 2 {
        '2'
    } else if d == 3 {
        '3'
    } else if d == 4 {
        '4'
    } else if d == 5 {
        '5'
    } else if d == 6 {
        '6'
    } else if d == 7 {
        '7'
    } else if d == 8 {
        '8'
    } else {
        '9'
    }
}

/// The decimal rendering of a number, most significant digit first.
pub open spec fn spec_dec_str(n: nat) -> Seq<char>
    decreases n,
{
    if n < 10 {
        seq![spec_digit_char(n)]
    } else {
        spec_dec_str(n / 10).push(spec_digit_char(n % 10))
    }
}

proof fn lemma_dec_str_len(n: nat)
    ensures
        spec_dec_str(n).len() >= 1,
        n >= 10 ==> spec_dec_str(n).len() >= 2,
    decreases n,
{
    if n >= 10 {
        lemma_dec_str_len(n / 10);
    }
}

proof fn lemma_digit_char_injective(x: nat, y: nat)
    requires
        x < 10,
        y < 10,
        spec_digit_char(x) == spec_digit_char(y),
    ensures
        x == y,
{
}

/// Two numbers with the same decimal rendering are the same number: the
/// rendering is injective, so rendered ids collide only on equal inputs.
pub proof fn lemma_dec_str_injective(a: nat, b: nat)
    requires
        spec_dec_str(a) == spec_dec_str(b),
    ensures
        a == b,
    decreases a,
{
    lemma_dec_str_len(a);
    lemma_dec_str_len(b);
    if a < 10 && b < 10 {
        assert(spec_dec_str(a) == seq![spec_digit_char(a)]);
        assert(spec_dec_str(b) == seq![spec_digit_char(b)]);
        assert(spec_digit_char(a) == spec_dec_str(a)[0]);
        assert(spec_digit_char(b) == spec_dec_str(b)[0]);
        lemma_digit_char_injective(a, b);
    } else if a >= 10 && b >= 10 {
        assert(spec_dec_str(a).last() == spec_digit_char((a % 10) as nat));
        assert(spec_dec_str(b).last() == spec_digit_char((b % 10) as nat));
        assert(spec_dec_str(a).last() == spec_dec_str(b).last());
        lemma_digit_char_injective((a % 10) as nat, (b % 10) as nat);
        assert(a % 10 == b % 10);
        assert(spec_dec_str(a / 10).push(spec_digit_char((a % 10) as nat)).drop_last()
            =~= spec_dec_str(a / 10));
        assert(spec_dec_str(b / 10).push(spec_digit_char((b % 10) as nat)).drop_last()
            =~= spec_dec_str(b / 10));
        assert(spec_dec_str(a / 10) == spec_dec_str(b / 10));
        lemma_dec_str_injective(a / 10, b / 10);
    } else if a < 10 {
        assert(spec_dec_str(a).len() == 1);
        assert(false);
    } else {
        assert(spec_dec_str(b).len() == 1);
        assert(false);
    }
}

fn digit_label(d: u64) -> (r: &'static str)
    requires
        d < 10,
    ensures
        r@ == seq![spec_digit_char(d as nat)],
{
    if d == 0 {
        proof {
            reveal_strlit("0");
            assert(("0")@ =~= seq![spec_digit_char(d as nat)]);
        }
        "0"
    } else if d == 1 {
        proof {
            reveal_strlit("1");
            assert(("1")@ =~= seq![spec_digit_char(d as nat)]);
        }
        "1"
    } else if d == 2 {
        proof {
            reveal_strlit("2");
            assert(("2")@ =~= seq![spec_digit_char(d as nat)]);
        }
        "2"
    } else if d == 3 {
        proof {
            reveal_strlit("3");
            assert(("3")@ =~= seq![spec_digit_char(d as nat)]);
        }
        "3"
    } else if d == 4 {
        proof {
            reveal_strlit("4");
            assert(("4")@ =~= seq![spec_digit_char(d as nat)]);
        }
        "4"
    } else if d == 5 {
        proof {
            reveal_strlit("5");
            assert(("5")@ =~= seq![spec_digit_char(d as nat)]);
        }
        "5"
    } else if d == 6 {
        proof {
            reveal_strlit("6");
            assert(("6")@ =~= seq![spec_digit_char(d as nat)]);
        }
        "6"
    } else if d == 7 {
        proof {
            reveal_strlit("7");
            assert(("7")@ =~= seq![spec_digit_char(d as nat)]);
        }
        "7"
    } else if d == 8 {
        proof {
            reveal_strlit("8");
            assert(("8")@ =~= seq![spec_digit_char(d as nat)]);
        }
        "8"
    } else {
        proof {
            reveal_strlit("9");
            assert(("9")@ =~= seq![spec_digit_char(d as nat)]);
        }
        "9"
    }
}

/// Render a generated record id: the decimal form of the id counter.
pub fn render_id(n: u64) -> (r: String)
    ensures
        r@ == spec_dec_str(n as nat),
    decreases n,
{
    if n < 10 {
        digit_label(n).to_owned()
    } else {
        let mut s = render_id(n / 10);
        s.append(digit_label(n % 10));
        proof {
            assert(s@ =~= spec_dec_str((n / 10) as nat).push(spec_digit_char((n % 10) as nat)));
        }
        s
    }
}

/// The records of a sequence that pass a predicate, in their stored order.
pub open spec fn spec_select<T>(s: Seq<T>, keep: spec_fn(T) -> bool) -> Seq<T>
    decreases s.len(),
{
    if s.len() == 0 {
        Seq::empty()
    } else if keep(s.last()) {
        spec_select(s.drop_last(), keep).push(s.last())
    } else {
        spec_select(s.drop_last(), keep)
    }
}

/// Extending the scanned prefix by one record extends the selection exactly
/// when the record passes the predicate.
pub proof fn lemma_select_take_step<T>(s: Seq<T>, keep: spec_fn(T) -> bool, i: int)
    requires
        0 <= i < s.len(),
    ensures
        spec_select(s.take(i + 1), keep) == if keep(s[i]) {
            spec_select(s.take(i), keep).push(s[i])
        } else {
            spec_select(s.take(i), keep)
        },
{
    assert(s.take(i + 1).drop_last() =~= s.take(i));
    assert(s.take(i + 1).last() == s[i]);
}

/// One page of a sequence: skip `offset` records, return at most `limit`,
/// clamped to the sequence's end.
pub open spec fn spec_page<T>(s: Seq<T>, offset: int, limit: int) -> Seq<T>
    recommends
        offset >= 0,
        limit >= 0,
{
    let start = if offset <= s.len() {
        offset
    } else {
        s.len() as int
    };
    let end = if offset + limit <= s.len() {
        offset + limit
    } else {
        s.len() as int
    };
    s.subrange(start, end)
}

/// An id drawn from the counter while it was below `bound`.
pub open spec fn spec_id_bounded(id: Seq<char>, bound: nat) -> bool {
    exists|k: nat| k < bound && id == spec_dec_str(k)
}

/// An id drawn below the counter's bound differs from the id the bound
/// itself renders to.
pub proof fn lemma_bounded_id_fresh(id: Seq<char>, bound: nat)
    requires
        spec_id_bounded(id, bound),
    ensures
        id != spec_dec_str(bound),
{
    let k = choose|k: nat| k < bound && id == spec_dec_str(k);
    if id == spec_dec_str(bound) {
        lemma_dec_str_injective(k, bound);
    }
}

/// An id bounded by a counter value stays bounded as the counter grows.
pub proof fn lemma_id_bounded_monotone(id: Seq<char>, b1: nat, b2: nat)
    requires
        spec_id_bounded(id, b1),
        b1 <= b2,
    ensures
        spec_id_bounded(id, b2),
{
    let k = choose|k: nat| k < b1 && id == spec_dec_str(k);
    assert(k < b2 && id == spec_dec_str(k));
}

/// The record store: the recharge and withdraw records in insertion order,
/// and the counter ids are generated from.
pub struct Ledger {
    pub recharges: Vec<Recharge>,
    pub withdraws: Vec<Withdraw>,
    pub next_id: u64,
}

impl Ledger {
    /// Well-formed: every stored id was generated from an earlier counter
    /// value, and no two records anywhere share an id.
    pub open spec fn wf(&self) -> bool {
        &&& forall|i: int|
            0 <= i < self.recharges@.len() ==> spec_id_bounded(
                #[trigger] self.recharges@[i].id@,
                self.next_id as nat,
            )
        &&& forall|i: int|
            0 <= i < self.withdraws@.len() ==> spec_id_bounded(
                #[trigger] self.withdraws@[i].id@,
                self.next_id as nat,
            )
        &&& forall|i: int, j: int|
            #![trigger self.recharges@[i].id@, self.recharges@[j].id@]
            0 <= i < j < self.recharges@.len() ==> self.recharges@[i].id@
                != self.recharges@[j].id@
        &&& forall|i: int, j: int|
            #![trigger self.withdraws@[i].id@, self.withdraws@[j].id@]
            0 <= i < j < self.withdraws@.len() ==> self.withdraws@[i].id@
                != self.withdraws@[j].id@
        &&& forall|i: int, j: int|
            #![trigger self.recharges@[i].id@, self.withdraws@[j].id@]
            0 <= i < self.recharges@.len() && 0 <= j < self.withdraws@.len()
                ==> self.recharges@[i].id@ != self.withdraws@[j].id@
    }

    /// An empty store with the id counter at its start.
    pub fn new() -> (l: Ledger)
        ensures
            l.recharges@.len() == 0,
            l.withdraws@.len() == 0,
            l.next_id == 1,
            l.wf(),
    {
        Ledger { recharges: Vec::new(), withdraws: Vec::new(), next_id: 1 }
    }
}

/// Pushing a recharge whose id the counter just rendered, and advancing the
/// counter, keeps the store well-formed; the new id differs from every id
/// stored before.
pub proof fn lemma_recharge_insert_wf(pre: Ledger, post: Ledger)
    requires
        pre.wf(),
        pre.next_id < u64::MAX,
        post.next_id == pre.next_id + 1,
        post.withdraws == pre.withdraws,
        post.recharges@ == pre.recharges@.push(post.recharges@.last()),
        post.recharges@.last().id@ == spec_dec_str(pre.next_id as nat),
    ensures
        post.wf(),
        forall|i: int|
            0 <= i < pre.recharges@.len() ==> #[trigger] pre.recharges@[i].id@
                != post.recharges@.last().id@,
        forall|i: int|
            0 <= i < pre.withdraws@.len() ==> #[trigger] pre.withdraws@[i].id@
                != post.recharges@.last().id@,
{
    let nid = pre.next_id as nat;
    let new_id = post.recharges@.last().id@;
    let n = pre.recharges@.len() as int;
    assert forall|i: int| 0 <= i < pre.recharges@.len() implies #[trigger] pre.recharges@[i].id@
        != new_id by {
        assert(spec_id_bounded(pre.recharges@[i].id@, nid));
        lemma_bounded_id_fresh(pre.recharges@[i].id@, nid);
    }
    assert forall|i: int| 0 <= i < pre.withdraws@.len() implies #[trigger] pre.withdraws@[i].id@
        != new_id by {
        assert(spec_id_bounded(pre.withdraws@[i].id@, nid));
        lemma_bounded_id_fresh(pre.withdraws@[i].id@, nid);
    }
    assert forall|i: int| 0 <= i < post.recharges@.len() implies spec_id_bounded(
        #[trigger] post.recharges@[i].id@,
        post.next_id as nat,
    ) by {
        if i < n {
            assert(post.recharges@[i] == pre.recharges@[i]);
            assert(spec_id_bounded(pre.recharges@[i].id@, nid));
            lemma_id_bounded_monotone(pre.recharges@[i].id@, nid, post.next_id as nat);
        } else {
            assert(post.recharges@[i] == post.recharges@.last());
            assert(nid < post.next_id as nat && new_id == spec_dec_str(nid));
        }
    }
    assert forall|i: int| 0 <= i < post.withdraws@.len() implies spec_id_bounded(
        #[trigger] post.withdraws@[i].id@,
        post.next_id as nat,
    ) by {
        assert(post.withdraws@[i] == pre.withdraws@[i]);
        assert(spec_id_bounded(pre.withdraws@[i].id@, nid));
        lemma_id_bounded_monotone(pre.withdraws@[i].id@, nid, post.next_id as nat);
    }
    assert forall|i: int, j: int|
        #![trigger post.recharges@[i].id@, post.recharges@[j].id@]
        0 <= i < j < post.recharges@.len() implies post.recharges@[i].id@
        != post.recharges@[j].id@ by {
        if j < n {
            assert(pre.recharges@[i].id@ != pre.recharges@[j].id@);
        } else {
            assert(post.recharges@[i] == pre.recharges@[i]);
            assert(post.recharges@[j] == post.recharges@.last());
            assert(pre.recharges@[i].id@ != new_id);
        }
    }
    assert forall|i: int, j: int|
        #![trigger post.recharges@[i].id@, post.withdraws@[j].id@]
        0 <= i < post.recharges@.len() && 0 <= j < post.withdraws@.len()
        implies post.recharges@[i].id@ != post.withdraws@[j].id@ by {
        if i < n {
            assert(post.recharges@[i] == pre.recharges@[i]);
            assert(pre.recharges@[i].id@ != pre.withdraws@[j].id@);
        } else {
            assert(post.recharges@[i] == post.recharges@.last());
            assert(pre.withdraws@[j].id@ != new_id);
        }
    }
}

/// Pushing a withdraw whose id the counter just rendered, and advancing the
/// counter, keeps the store well-formed; the new id differs from every id
/// stored before.
pub proof fn lemma_withdraw_insert_wf(pre: Ledger, post: Ledger)
    requires
        pre.wf(),
        pre.next_id < u64::MAX,
        post.next_id == pre.next_id + 1,
        post.recharges == pre.recharges,
        post.withdraws@ == pre.withdraws@.push(post.withdraws@.last()),
        post.withdraws@.last().id@ == spec_dec_str(pre.next_id as nat),
    ensures
        post.wf(),
        forall|i: int|
            0 <= i < pre.recharges@.len() ==> #[trigger] pre.recharges@[i].id@
                != post.withdraws@.last().id@,
        forall|i: int|
            0 <= i < pre.withdraws@.len() ==> #[trigger] pre.withdraws@[i].id@
                != post.withdraws@.last().id@,
{
    let nid = pre.next_id as nat;
    let new_id = post.withdraws@.last().id@;
    let n = pre.withdraws@.len() as int;
    assert forall|i: int| 0 <= i < pre.recharges@.len() implies #[trigger] pre.recharges@[i].id@
        != new_id by {
        assert(spec_id_bounded(pre.recharges@[i].id@, nid));
        lemma_bounded_id_fresh(pre.recharges@[i].id@, nid);
    }
    assert forall|i: int| 0 <= i < pre.withdraws@.len() implies #[trigger] pre.withdraws@[i].id@
        != new_id by {
        assert(spec_id_bounded(pre.withdraws@[i].id@, nid));
        lemma_bounded_id_fresh(pre.withdraws@[i].id@, nid);
    }
    assert forall|i: int| 0 <= i < post.withdraws@.len() implies spec_id_bounded(
        #[trigger] post.withdraws@[i].id@,
        post.next_id as nat,
    ) by {
        if i < n {
            assert(post.withdraws@[i] == pre.withdraws@[i]);
            assert(spec_id_bounded(pre.withdraws@[i].id@, nid));
            lemma_id_bounded_monotone(pre.withdraws@[i].id@, nid, post.next_id as nat);
        } else {
            assert(post.withdraws@[i] == post.withdraws@.last());
            assert(nid < post.next_id as nat && new_id == spec_dec_str(nid));
        }
    }
    assert forall|i: int| 0 <= i < post.recharges@.len() implies spec_id_bounded(
        #[trigger] post.recharges@[i].id@,
        post.next_id as nat,
    ) by {
        assert(post.recharges@[i] == pre.recharges@[i]);
        assert(spec_id_bounded(pre.recharges@[i].id@, nid));
        lemma_id_bounded_monotone(pre.recharges@[i].id@, nid, post.next_id as nat);
    }
    assert forall|i: int, j: int|
        #![trigger post.withdraws@[i].id@, post.withdraws@[j].id@]
        0 <= i < j < post.withdraws@.len() implies post.withdraws@[i].id@
        != post.withdraws@[j].id@ by {
        if j < n {
            assert(pre.withdraws@[i].id@ != pre.withdraws@[j].id@);
        } else {
            assert(post.withdraws@[i] == pre.withdraws@[i]);
            assert(post.withdraws@[j] == post.withdraws@.last());
            assert(pre.withdraws@[i].id@ != new_id);
        }
    }
    assert forall|i: int, j: int|
        #![trigger post.recharges@[i].id@, post.withdraws@[j].id@]
        0 <= i < post.recharges@.len() && 0 <= j < post.withdraws@.len()
        implies post.recharges@[i].id@ != post.withdraws@[j].id@ by {
        if j < n {
            assert(post.withdraws@[j] == pre.withdraws@[j]);
            assert(pre.recharges@[i].id@ != pre.withdraws@[j].id@);
        } else {
            assert(post.withdraws@[j] == post.withdraws@.last());
            assert(pre.recharges@[i].id@ != new_id);
        }
    }
}

/// Rewriting stored withdraws without touching any id, count, or the
/// counter keeps the store well-formed.
pub proof fn lemma_withdraw_update_wf(pre: Ledger, post: Ledger)
    requires
        pre.wf(),
        post.next_id == pre.next_id,
        post.recharges == pre.recharges,
        post.withdraws@.len() == pre.withdraws@.len(),
        forall|k: int|
            0 <= k < post.withdraws@.len() ==> #[trigger] post.withdraws@[k].id@
                == pre.withdraws@[k].id@,
    ensures
        post.wf(),
{
    assert forall|i: int| 0 <= i < post.withdraws@.len() implies spec_id_bounded(
        #[trigger] post.withdraws@[i].id@,
        post.next_id as nat,
    ) by {
        assert(spec_id_bounded(pre.withdraws@[i].id@, pre.next_id as nat));
    }
    assert forall|i: int| 0 <= i < post.recharges@.len() implies spec_id_bounded(
        #[trigger] post.recharges@[i].id@,
        post.next_id as nat,
    ) by {
        assert(spec_id_bounded(pre.recharges@[i].id@, pre.next_id as nat));
    }
    assert forall|i: int, j: int|
        #![trigger post.withdraws@[i].id@, post.withdraws@[j].id@]
        0 <= i < j < post.withdraws@.len() implies post.withdraws@[i].id@
        != post.withdraws@[j].id@ by {
        assert(pre.withdraws@[i].id@ != pre.withdraws@[j].id@);
    }
    assert forall|i: int, j: int|
        #![trigger post.recharges@[i].id@, post.withdraws@[j].id@]
        0 <= i < post.recharges@.len() && 0 <= j < post.withdraws@.len()
        implies post.recharges@[i].id@ != post.withdraws@[j].id@ by {
        assert(pre.recharges@[i].id@ != pre.withdraws@[j].id@);
    }
}

} // verus!
