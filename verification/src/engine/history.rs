//! Whole runs of transactions: what an account reports after a sequence of
//! transactions, and why accounts can be processed apart from one another.
use super::errors::Rejection;
use super::laws::law_other_accounts_untouched;
use super::model::{held_sum, tx_well_formed, EngineView, StoredKind};
use super::preservation::{lemma_empty_inv, lemma_held_within_sum, lemma_process_inv};
use crate::input::{Tx, TxKind};
use vstd::prelude::*;

verus! {

/// One processed transaction and its outcome.
pub type Entry = (Tx, Result<(), Rejection>);

/// The state after a sequence of transactions, starting from an engine that has
/// seen nothing, and each transaction with its outcome, in order.
pub open spec fn replay(txs: Seq<Tx>) -> (EngineView, Seq<Entry>)
    decreases txs.len(),
{
    if txs.len() == 0 {
        (EngineView::empty(), Seq::empty())
    } else {
        let before = replay(txs.drop_last());
        let step = before.0.process(txs.last());
        (step.0, before.1.push((txs.last(), step.1)))
    }
}

/// The client and amount of the last accepted deposit with this id, if any.
pub open spec fn last_deposit(h: Seq<Entry>, t: u32) -> Option<(u16, i64)>
    decreases h.len(),
{
    if h.len() == 0 {
        None
    } else {
        let x = h.last().0;
        if h.last().1 is Ok && x.tx_id.0 == t && x.kind is Deposit {
            Some((x.client_id.0, x.kind->Deposit_0.amount_deposited@))
        } else {
            last_deposit(h.drop_last(), t)
        }
    }
}

/// The amount of the deposit that a dispute, resolution or chargeback of this
/// id refers to: the last accepted deposit with the id.
pub open spec fn referred_amount(h: Seq<Entry>, t: u32) -> int {
    match last_deposit(h, t) {
        Some((_, amount)) => amount as int,
        None => 0,
    }
}

/// What the last entry of a history adds to the client's total funds.
pub open spec fn total_change(h: Seq<Entry>, c: u16) -> int {
    let x = h.last().0;
    if h.last().1 is Ok && x.client_id.0 == c {
        match x.kind {
            TxKind::Deposit(d) => d.amount_deposited@ as int,
            TxKind::Withdrawal(w) => -(w.amount_withdrawn@ as int),
            TxKind::Chargeback => -referred_amount(h.drop_last(), x.tx_id.0),
            _ => 0,
        }
    } else {
        0
    }
}

/// What the last entry of a history adds to the client's held funds.
pub open spec fn held_change(h: Seq<Entry>, c: u16) -> int {
    let x = h.last().0;
    if h.last().1 is Ok && x.client_id.0 == c {
        match x.kind {
            TxKind::Dispute => referred_amount(h.drop_last(), x.tx_id.0),
            TxKind::Resolve => -referred_amount(h.drop_last(), x.tx_id.0),
            TxKind::Chargeback => -referred_amount(h.drop_last(), x.tx_id.0),
            _ => 0,
        }
    } else {
        0
    }
}

/// The client's accepted deposits, less its accepted withdrawals, less the
/// deposits taken back by its accepted chargebacks.
pub open spec fn history_total(h: Seq<Entry>, c: u16) -> int
    decreases h.len(),
{
    if h.len() == 0 {
        0
    } else {
        history_total(h.drop_last(), c) + total_change(h, c)
    }
}

/// The client's deposits put on hold by accepted disputes, less those released
/// by accepted resolutions or taken back by accepted chargebacks.
pub open spec fn history_held(h: Seq<Entry>, c: u16) -> int
    decreases h.len(),
{
    if h.len() == 0 {
        0
    } else {
        history_held(h.drop_last(), c) + held_change(h, c)
    }
}

/// Whether a chargeback of the client was accepted.
pub open spec fn history_locked(h: Seq<Entry>, c: u16) -> bool
    decreases h.len(),
{
    if h.len() == 0 {
        false
    } else {
        history_locked(h.drop_last(), c) || (h.last().1 is Ok && h.last().0.client_id.0 == c
            && h.last().0.kind is Chargeback)
    }
}

/// What a replay keeps true after each transaction.
pub open spec fn replay_agrees(v: EngineView, h: Seq<Entry>) -> bool {
    &&& v.inv()
    &&& forall|t: u32|
        #[trigger] v.transactions.contains_key(t) && v.transactions[t].kind is Deposit
            ==> last_deposit(h, t) == Some((v.transactions[t].client_id, v.transactions[t].amount()))
    &&& forall|c: u16| #[trigger]
        v.balance(c).total() == history_total(h, c) && v.balance(c).held() == history_held(h, c)
            && v.balance(c).locked == history_locked(h, c)
}

proof fn lemma_replay_step(v: EngineView, h: Seq<Entry>, x: Tx)
    requires
        replay_agrees(v, h),
        tx_well_formed(x),
    ensures
        replay_agrees(v.process(x).0, h.push((x, v.process(x).1))),
{
    let w = v.process(x).0;
    let r = v.process(x).1;
    let h2 = h.push((x, r));
    assert(h2.drop_last() =~= h);
    lemma_process_inv(v, x);
    let t0 = x.tx_id.0;
    let c0 = x.client_id.0;
    if let Some(st) = v.lookup(c0, t0) {
        if st.kind is Deposit {
            assert(v.transactions.contains_key(t0));
            lemma_held_within_sum(v.transactions, t0, c0);
            assert(held_sum(v.transactions, c0) == v.balance(c0).held());
            assert(last_deposit(h, t0) == Some((c0, st.amount())));
        }
    }
    assert forall|t: u32| #[trigger] w.transactions.contains_key(t) && w.transactions[t].kind is Deposit
        implies last_deposit(h2, t) == Some((w.transactions[t].client_id, w.transactions[t].amount())) by {
        if !(r is Ok && t == t0 && x.kind is Deposit) {
            assert(v.transactions.contains_key(t));
        }
    }
    assert forall|c: u16| #[trigger] w.balance(c).total() == history_total(h2, c)
        && w.balance(c).held() == history_held(h2, c)
        && w.balance(c).locked == history_locked(h2, c) by {
        assert(v.balance(c).total() == history_total(h, c));
        assert(h2.last() == (x, r));
        assert(history_total(h2, c) == history_total(h, c) + total_change(h2, c));
        assert(history_held(h2, c) == history_held(h, c) + held_change(h2, c));
        assert(history_locked(h2, c) == (history_locked(h, c) || (r is Ok && x.client_id.0 == c
            && x.kind is Chargeback)));
        if c != c0 {
            law_other_accounts_untouched(v, x, c);
        } else {
            if r is Ok && !(x.kind is Deposit) && !(x.kind is Withdrawal) {
                assert(referred_amount(h, t0) == v.lookup(c0, t0)->0.amount());
            }
        }
    }
}

/// The replay of any sequence of well-formed transactions agrees with its history.
proof fn lemma_replay_agrees(txs: Seq<Tx>)
    requires
        forall|i: int| 0 <= i < txs.len() ==> tx_well_formed(#[trigger] txs[i]),
    ensures
        replay_agrees(replay(txs).0, replay(txs).1),
        replay(txs).1.len() == txs.len(),
        forall|i: int| 0 <= i < txs.len() ==> (#[trigger] replay(txs).1[i]).0 == txs[i],
    decreases txs.len(),
{
    if txs.len() == 0 {
        lemma_empty_inv();
        let v = EngineView::empty();
        assert forall|c: u16| #[trigger] v.balance(c).total() == history_total(Seq::empty(), c)
            && v.balance(c).held() == history_held(Seq::empty(), c)
            && v.balance(c).locked == history_locked(Seq::empty(), c) by {}
    } else {
        let p = txs.drop_last();
        assert forall|i: int| 0 <= i < p.len() implies tx_well_formed(#[trigger] p[i]) by {
            assert(p[i] == txs[i]);
        }
        lemma_replay_agrees(p);
        assert(tx_well_formed(txs[txs.len() - 1]));
        lemma_replay_step(replay(p).0, replay(p).1, txs.last());
    }
}

/// What every account reports after a run of transactions, told by the run's
/// history alone: its total funds are its accepted deposits less its accepted
/// withdrawals less the deposits taken back by its accepted chargebacks; its held
/// funds are the deposits put on hold by accepted disputes and not since released
/// by a resolution or taken back by a chargeback; available funds are the total
/// less what is held; and it is locked exactly when one of its chargebacks was
/// accepted. An account that the engine does not keep has all of these zero and
/// is not locked.
pub proof fn law_history(txs: Seq<Tx>, c: u16)
    requires
        forall|i: int| 0 <= i < txs.len() ==> tx_well_formed(#[trigger] txs[i]),
    ensures
        replay(txs).1.len() == txs.len(),
        forall|i: int| 0 <= i < txs.len() ==> (#[trigger] replay(txs).1[i]).0 == txs[i],
        replay(txs).0.balance(c).total() == history_total(replay(txs).1, c),
        replay(txs).0.balance(c).held() == history_held(replay(txs).1, c),
        replay(txs).0.balance(c).available() == history_total(replay(txs).1, c) - history_held(
            replay(txs).1,
            c,
        ),
        replay(txs).0.balance(c).locked == history_locked(replay(txs).1, c),
        replay(txs).0.account(c) is None ==> history_total(replay(txs).1, c) == 0 && history_held(
            replay(txs).1,
            c,
        ) == 0 && !history_locked(replay(txs).1, c),
{
    lemma_replay_agrees(txs);
    assert(replay(txs).0.balance(c).total() == history_total(replay(txs).1, c));
}

/// Whether a transaction takes a new id (deposits and withdrawals do).
pub open spec fn opens_id(x: Tx) -> bool {
    x.kind is Deposit || x.kind is Withdrawal
}

/// Deposits and withdrawals carry pairwise distinct ids.
pub open spec fn fresh_ids(txs: Seq<Tx>) -> bool {
    forall|i: int, j: int|
        0 <= i < j < txs.len() && opens_id(#[trigger] txs[i]) && opens_id(#[trigger] txs[j])
            ==> txs[i].tx_id != txs[j].tx_id
}

/// Whether a deposit or a withdrawal of the sequence has this id.
pub open spec fn id_used(txs: Seq<Tx>, t: u32) -> bool {
    exists|j: int| 0 <= j < txs.len() && opens_id(#[trigger] txs[j]) && txs[j].tx_id.0 == t
}

/// Whether a transaction is the client's.
pub open spec fn of_client(c: u16) -> spec_fn(Tx) -> bool {
    |x: Tx| x.client_id.0 == c
}

/// Whether a history entry is the client's.
pub open spec fn entry_of_client(c: u16) -> spec_fn(Entry) -> bool {
    |e: Entry| e.0.client_id.0 == c
}

/// How the replay of all transactions relates to the replay of one client's.
pub open spec fn shard_agrees(
    all: (EngineView, Seq<Entry>),
    own: (EngineView, Seq<Entry>),
    txs: Seq<Tx>,
    c: u16,
) -> bool {
    &&& all.1.filter(entry_of_client(c)) == own.1
    &&& same_for_client(all.0, own.0, c)
    &&& forall|t: u32| #[trigger] all.0.transactions.contains_key(t) ==> id_used(txs, t)
    &&& forall|t: u32| #[trigger] own.0.transactions.contains_key(t) ==> id_used(txs, t)
}

/// What two engines must share for a transaction to act on a client alike in both.
pub open spec fn same_for_client(e: EngineView, f: EngineView, c: u16) -> bool {
    &&& e.balances.contains_key(c) == f.balances.contains_key(c)
    &&& e.balance(c) == f.balance(c)
    &&& forall|t: u32| #[trigger] e.lookup(c, t) == f.lookup(c, t)
}

/// A transaction of the client acts alike on two engines that agree on the
/// client, where its id, if it takes one, is new to both.
proof fn lemma_same_client_step(e: EngineView, f: EngineView, x: Tx, c: u16)
    requires
        same_for_client(e, f, c),
        x.client_id.0 == c,
        opens_id(x) ==> !e.transactions.contains_key(x.tx_id.0) && !f.transactions.contains_key(
            x.tx_id.0,
        ),
    ensures
        e.process(x).1 == f.process(x).1,
        same_for_client(e.process(x).0, f.process(x).0, c),
{
    let t0 = x.tx_id.0;
    assert(e.lookup(c, t0) == f.lookup(c, t0));
    let e2 = e.process(x).0;
    let f2 = f.process(x).0;
    assert forall|t: u32| #[trigger] e2.lookup(c, t) == f2.lookup(c, t) by {
        assert(e.lookup(c, t) == f.lookup(c, t));
    }
}

/// A transaction of another client leaves what an engine holds of the client,
/// where its id, if it takes one, is new to the engine.
proof fn lemma_other_client_step(e: EngineView, x: Tx, c: u16)
    requires
        x.client_id.0 != c,
        opens_id(x) ==> !e.transactions.contains_key(x.tx_id.0),
    ensures
        same_for_client(e.process(x).0, e, c),
{
    law_other_accounts_untouched(e, x, c);
    let e2 = e.process(x).0;
    assert forall|t: u32| #[trigger] e2.lookup(c, t) == e.lookup(c, t) by {}
}

proof fn lemma_shard(txs: Seq<Tx>, c: u16)
    requires
        fresh_ids(txs),
    ensures
        shard_agrees(replay(txs), replay(txs.filter(of_client(c))), txs, c),
    decreases txs.len(),
{
    reveal(Seq::filter);
    if txs.len() == 0 {
        assert(txs.filter(of_client(c)) =~= Seq::<Tx>::empty());
        assert(replay(txs).1.filter(entry_of_client(c)) =~= Seq::<Entry>::empty());
    } else {
        let p = txs.drop_last();
        let x = txs.last();
        let n = txs.len() - 1;
        assert forall|i: int, j: int|
            0 <= i < j < p.len() && opens_id(#[trigger] p[i]) && opens_id(#[trigger] p[j]) implies p[i].tx_id
            != p[j].tx_id by {
            assert(p[i] == txs[i] && p[j] == txs[j]);
        }
        lemma_shard(p, c);
        let e = replay(p);
        let fs = p.filter(of_client(c));
        let f = replay(fs);
        let t0 = x.tx_id.0;
        assert forall|t: u32| id_used(p, t) implies id_used(txs, t) by {
            let j = choose|j: int| 0 <= j < p.len() && opens_id(#[trigger] p[j]) && p[j].tx_id.0 == t;
            assert(txs[j] == p[j]);
        }
        if opens_id(x) {
            assert(opens_id(txs[n]));
            assert(id_used(txs, t0));
            if id_used(p, t0) {
                let j = choose|j: int| 0 <= j < p.len() && opens_id(#[trigger] p[j]) && p[j].tx_id.0 == t0;
                assert(txs[j] == p[j]);
                assert(false);
            }
        }
        let all2 = replay(txs);
        let r = e.0.process(x).1;
        assert(all2.1 == e.1.push((x, r)));
        assert(all2.1.drop_last() =~= e.1);
        assert(all2.1.last() == (x, r));
        if x.client_id.0 == c {
            assert(txs.filter(of_client(c)) == fs.push(x));
            assert(fs.push(x).drop_last() =~= fs);
            assert(fs.push(x).last() == x);
            lemma_same_client_step(e.0, f.0, x, c);
            assert(all2.1.filter(entry_of_client(c)) == e.1.filter(entry_of_client(c)).push((x, r)));
        } else {
            assert(txs.filter(of_client(c)) == fs);
            lemma_other_client_step(e.0, x, c);
            assert(all2.1.filter(entry_of_client(c)) == e.1.filter(entry_of_client(c)));
        }
    }
}

/// Accounts can be processed apart from one another: where deposits and
/// withdrawals carry distinct ids, an engine fed only one client's transactions,
/// in order, reports the same for that client as an engine fed all of them, and
/// gives each of that client's transactions the same outcome.
pub proof fn law_sharding(txs: Seq<Tx>, c: u16)
    requires
        fresh_ids(txs),
    ensures
        replay(txs).0.account(c) == replay(txs.filter(of_client(c))).0.account(c),
        replay(txs).1.filter(entry_of_client(c)) == replay(txs.filter(of_client(c))).1,
{
    lemma_shard(txs, c);
}

} // verus!
