//! Every transition keeps the engine's invariant.
use super::model::{held_sum, tx_well_formed, Balance, EngineView, StoredKind, StoredTx};
use super::sums::{lemma_set_sum_agree, lemma_set_sum_nonneg, lemma_set_sum_remove};
use crate::input::{Tx, TxKind};
use vstd::prelude::*;

verus! {

/// Storing a transaction under an id changes the held sum of each client by
/// the difference of what the old and the new record hold for it.
pub proof fn lemma_held_sum_insert(txs: Map<u32, StoredTx>, t: u32, st: StoredTx, c: u16)
    requires
        txs.dom().finite(),
    ensures
        held_sum(txs.insert(t, st), c) == held_sum(txs, c) - (if txs.contains_key(t) {
            txs[t].held_for(c)
        } else {
            0
        }) + st.held_for(c),
{
    let m = txs.insert(t, st);
    let f = |k: u32| txs[k].held_for(c);
    let g = |k: u32| m[k].held_for(c);
    assert(m.dom() =~= txs.dom().insert(t));
    lemma_set_sum_remove(m.dom(), g, t);
    assert(m.dom().remove(t) =~= txs.dom().remove(t));
    lemma_set_sum_agree(txs.dom().remove(t), g, f);
    if txs.contains_key(t) {
        lemma_set_sum_remove(txs.dom(), f, t);
    } else {
        assert(txs.dom().remove(t) =~= txs.dom());
    }
}

/// Forgetting a transaction takes what it holds off each client's held sum.
pub proof fn lemma_held_sum_remove(txs: Map<u32, StoredTx>, t: u32, c: u16)
    requires
        txs.dom().finite(),
        txs.contains_key(t),
    ensures
        held_sum(txs.remove(t), c) == held_sum(txs, c) - txs[t].held_for(c),
{
    let m = txs.remove(t);
    let f = |k: u32| txs[k].held_for(c);
    let g = |k: u32| m[k].held_for(c);
    assert(m.dom() =~= txs.dom().remove(t));
    lemma_set_sum_agree(m.dom(), g, f);
    lemma_set_sum_remove(txs.dom(), f, t);
}

/// With positive amounts, what a transaction holds is part of its client's held sum.
pub proof fn lemma_held_within_sum(txs: Map<u32, StoredTx>, t: u32, c: u16)
    requires
        txs.dom().finite(),
        forall|k: u32| #[trigger] txs.contains_key(k) ==> txs[k].amount() > 0,
        txs.contains_key(t),
    ensures
        0 <= txs[t].held_for(c) <= held_sum(txs, c),
{
    let f = |k: u32| txs[k].held_for(c);
    assert forall|k: u32| txs.dom().contains(k) implies f(k) >= 0 by {
        assert(txs.contains_key(k));
    }
    lemma_set_sum_nonneg(txs.dom(), f);
}

/// Storing new totals for one client and a new set of transactions keeps the
/// invariant, where the totals match the held sums and the amounts stay positive.
pub proof fn lemma_inv_after_update(
    v: EngineView,
    client: u16,
    nb: Balance,
    txs: Map<u32, StoredTx>,
)
    requires
        v.inv(),
        txs.dom().finite(),
        forall|k: u32| #[trigger] txs.contains_key(k) ==> txs[k].amount() > 0,
        nb.valid(),
        held_sum(txs, client) == nb.held(),
        forall|c: u16| c != client ==> #[trigger] held_sum(txs, c) == held_sum(v.transactions, c),
    ensures
        (EngineView { balances: v.with_balance(client, nb), transactions: txs }).inv(),
{
    let w = EngineView { balances: v.with_balance(client, nb), transactions: txs };
    assert forall|c: u16| #[trigger] w.balances.contains_key(c) implies w.balances[c].valid()
        && !w.balances[c].is_idle() by {
        if c != client {
            assert(v.balances.contains_key(c));
        }
    }
    assert forall|c: u16| #[trigger] held_sum(w.transactions, c) == w.balance(c).held() by {
        if c != client {
            assert(held_sum(v.transactions, c) == v.balance(c).held());
        }
    }
}

/// The state of an engine that has seen nothing satisfies the invariant.
pub proof fn lemma_empty_inv()
    ensures
        EngineView::empty().inv(),
{
    let v = EngineView::empty();
    assert(v.transactions.dom() =~= Set::<u32>::empty());
    assert forall|c: u16| #[trigger] held_sum(v.transactions, c) == v.balance(c).held() by {
        assert(v.transactions.dom().len() == 0);
    }
}

/// A deposit keeps the invariant.
pub proof fn lemma_deposit_inv(v: EngineView, client: u16, tx: u32, amount: i64)
    requires
        v.inv(),
        amount > 0,
    ensures
        v.deposit(client, tx, amount).0.inv(),
{
    let b = v.balance(client);
    if !v.transactions.contains_key(tx) && b.total() + amount <= i64::MAX {
        let record = StoredTx { client_id: client, kind: StoredKind::Deposit { amount, disputed: false } };
        let txs = v.transactions.insert(tx, record);
        let nb = Balance { total: (b.total + amount) as i64, ..b };
        assert forall|c: u16| #[trigger] held_sum(txs, c) == held_sum(v.transactions, c) by {
            lemma_held_sum_insert(v.transactions, tx, record, c);
        }
        assert(held_sum(v.transactions, client) == b.held());
        lemma_inv_after_update(v, client, nb, txs);
    }
}

/// A withdrawal keeps the invariant.
pub proof fn lemma_withdraw_inv(v: EngineView, client: u16, tx: u32, amount: i64)
    requires
        v.inv(),
        amount > 0,
    ensures
        v.withdraw(client, tx, amount).0.inv(),
{
    let b = v.balance(client);
    if !v.transactions.contains_key(tx) && !b.locked && b.available() >= amount {
        let record = StoredTx { client_id: client, kind: StoredKind::Withdrawal { amount } };
        let txs = v.transactions.insert(tx, record);
        let nb = Balance { total: (b.total - amount) as i64, ..b };
        assert forall|c: u16| #[trigger] held_sum(txs, c) == held_sum(v.transactions, c) by {
            lemma_held_sum_insert(v.transactions, tx, record, c);
        }
        assert(held_sum(v.transactions, client) == b.held());
        lemma_inv_after_update(v, client, nb, txs);
    }
}

/// A dispute keeps the invariant.
pub proof fn lemma_dispute_inv(v: EngineView, client: u16, tx: u32)
    requires
        v.inv(),
    ensures
        v.dispute(client, tx).0.inv(),
{
    if let Some(st) = v.lookup(client, tx) {
        if let StoredKind::Deposit { amount, disputed: false } = st.kind {
            let b = v.balance(client);
            if b.held() + amount <= i64::MAX && b.available() - amount >= i64::MIN {
                let record = StoredTx { client_id: client, kind: StoredKind::Deposit { amount, disputed: true } };
                let txs = v.transactions.insert(tx, record);
                let nb = Balance { held: (b.held + amount) as i64, ..b };
                assert forall|c: u16| c != client implies #[trigger] held_sum(txs, c) == held_sum(
                    v.transactions,
                    c,
                ) by {
                    lemma_held_sum_insert(v.transactions, tx, record, c);
                }
                lemma_held_sum_insert(v.transactions, tx, record, client);
                assert(held_sum(v.transactions, client) == b.held());
                assert(v.transactions.contains_key(tx));
                lemma_inv_after_update(v, client, nb, txs);
            }
        }
    }
}

/// A resolution keeps the invariant.
pub proof fn lemma_resolve_inv(v: EngineView, client: u16, tx: u32)
    requires
        v.inv(),
    ensures
        v.resolve(client, tx).0.inv(),
{
    if let Some(st) = v.lookup(client, tx) {
        if let StoredKind::Deposit { amount, disputed: true } = st.kind {
            let b = v.balance(client);
            let record = StoredTx { client_id: client, kind: StoredKind::Deposit { amount, disputed: false } };
            let txs = v.transactions.insert(tx, record);
            let nb = Balance { held: (b.held - amount) as i64, ..b };
            assert(held_sum(v.transactions, client) == b.held());
            lemma_held_within_sum(v.transactions, tx, client);
            assert forall|c: u16| c != client implies #[trigger] held_sum(txs, c) == held_sum(
                v.transactions,
                c,
            ) by {
                lemma_held_sum_insert(v.transactions, tx, record, c);
            }
            lemma_held_sum_insert(v.transactions, tx, record, client);
            lemma_inv_after_update(v, client, nb, txs);
        }
    }
}

/// A chargeback keeps the invariant.
pub proof fn lemma_chargeback_inv(v: EngineView, client: u16, tx: u32)
    requires
        v.inv(),
    ensures
        v.chargeback(client, tx).0.inv(),
{
    if let Some(st) = v.lookup(client, tx) {
        if let StoredKind::Deposit { amount, disputed: true } = st.kind {
            let b = v.balance(client);
            let txs = v.transactions.remove(tx);
            let nb = Balance { total: (b.total - amount) as i64, held: (b.held - amount) as i64, locked: true };
            assert(held_sum(v.transactions, client) == b.held());
            lemma_held_within_sum(v.transactions, tx, client);
            assert forall|c: u16| c != client implies #[trigger] held_sum(txs, c) == held_sum(
                v.transactions,
                c,
            ) by {
                lemma_held_sum_remove(v.transactions, tx, c);
            }
            lemma_held_sum_remove(v.transactions, tx, client);
            lemma_inv_after_update(v, client, nb, txs);
        }
    }
}

/// Every transaction keeps the invariant: the accounts' totals stay consistent,
/// each client's held funds are the sum of its disputed deposits, and no idle
/// account is kept.
pub proof fn lemma_process_inv(v: EngineView, tx: Tx)
    requires
        v.inv(),
        tx_well_formed(tx),
    ensures
        v.process(tx).0.inv(),
{
    let client = tx.client_id.0;
    let id = tx.tx_id.0;
    match tx.kind {
        TxKind::Deposit(d) => lemma_deposit_inv(v, client, id, d.amount_deposited@),
        TxKind::Withdrawal(w) => lemma_withdraw_inv(v, client, id, w.amount_withdrawn@),
        TxKind::Dispute => lemma_dispute_inv(v, client, id),
        TxKind::Resolve => lemma_resolve_inv(v, client, id),
        TxKind::Chargeback => lemma_chargeback_inv(v, client, id),
    }
}

} // verus!
