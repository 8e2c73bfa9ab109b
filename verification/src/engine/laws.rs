//! Properties of the engine that span transactions.
use super::errors::Rejection;
use super::model::{tx_well_formed, EngineView, StoredKind, StoredTx};
use crate::output::Account;
use crate::types::ClientId;
use super::preservation::lemma_held_within_sum;
use crate::input::Tx;
use vstd::prelude::*;

verus! {

/// Every account that the engine keeps reports exact figures: held funds are
/// never negative, the total is what is available plus what is held, all three
/// fit the amount type, and the account is not an idle one (zero funds, nothing
/// held, not locked), since those are dropped.
pub proof fn law_account_in_range(v: EngineView, c: u16)
    requires
        v.inv(),
        v.balances.contains_key(c),
    ensures
        0 <= v.balances[c].held() <= i64::MAX,
        i64::MIN <= v.balances[c].total() <= i64::MAX,
        i64::MIN <= v.balances[c].available() <= i64::MAX,
        v.balances[c].total() == v.balances[c].available() + v.balances[c].held(),
        !v.balances[c].is_idle(),
{
}

/// A refused transaction leaves the engine as it was.
pub proof fn law_refusal_changes_nothing(v: EngineView, tx: Tx)
    requires
        v.process(tx).1 is Err,
    ensures
        v.process(tx).0 == v,
{
}

/// A transaction changes no account but its own client's.
pub proof fn law_other_accounts_untouched(v: EngineView, tx: Tx, c: u16)
    requires
        c != tx.client_id.0,
    ensures
        v.process(tx).0.balances.contains_key(c) == v.balances.contains_key(c),
        v.process(tx).0.balance(c) == v.balance(c),
        v.process(tx).0.account(c) == v.account(c),
{
}

/// A locked account stays locked whatever comes after, and refuses withdrawals.
pub proof fn law_locked_stays_locked(v: EngineView, tx: Tx, c: u16)
    requires
        v.inv(),
        v.balances.contains_key(c),
        v.balances[c].locked,
    ensures
        v.process(tx).0.balances.contains_key(c),
        v.process(tx).0.balances[c].locked,
        (tx.kind is Withdrawal && tx.client_id.0 == c && !v.transactions.contains_key(tx.tx_id.0))
            ==> v.process(tx).1 == Err::<(), Rejection>(Rejection::AccountLocked(c)),
{
}

/// An accepted deposit adds its amount to the client's total and available
/// funds and leaves held funds as they were.
pub proof fn law_deposit_credits(v: EngineView, c: u16, t: u32, amount: i64)
    requires
        v.inv(),
        amount > 0,
        v.deposit(c, t, amount).1 is Ok,
    ensures
        v.deposit(c, t, amount).0.balances.contains_key(c),
        v.deposit(c, t, amount).0.balance(c).total() == v.balance(c).total() + amount,
        v.deposit(c, t, amount).0.balance(c).available() == v.balance(c).available() + amount,
        v.deposit(c, t, amount).0.balance(c).held() == v.balance(c).held(),
        v.deposit(c, t, amount).0.balance(c).locked == v.balance(c).locked,
{
}

/// A withdrawal is accepted exactly when its id is new, the account is not
/// locked and the amount is available; it then takes the amount off the total
/// and available funds.
pub proof fn law_withdrawal_debits(v: EngineView, c: u16, t: u32, amount: i64)
    requires
        v.inv(),
        amount > 0,
    ensures
        v.withdraw(c, t, amount).1 is Ok <==> (!v.transactions.contains_key(t) && !v.balance(
            c,
        ).locked && amount <= v.balance(c).available()),
        v.withdraw(c, t, amount).1 is Ok ==> v.withdraw(c, t, amount).0.balance(c).total()
            == v.balance(c).total() - amount && v.withdraw(c, t, amount).0.balance(c).available()
            == v.balance(c).available() - amount && v.withdraw(c, t, amount).0.balance(c).held()
            == v.balance(c).held(),
{
}

/// Transaction ids are unique: once a deposit or a withdrawal is accepted, any
/// later deposit or withdrawal with the same id is refused while the first is
/// remembered (until a chargeback).
pub proof fn law_tx_ids_unique(v: EngineView, first: Tx, second: Tx)
    requires
        v.inv(),
        tx_well_formed(first),
        first.kind is Deposit || first.kind is Withdrawal,
        second.kind is Deposit || second.kind is Withdrawal,
        first.tx_id == second.tx_id,
        v.process(first).1 is Ok,
    ensures
        v.process(first).0.process(second).1 == Err::<(), Rejection>(
            Rejection::DuplicateTxId(first.tx_id.0),
        ),
{
}

/// Only deposits can be disputed: disputing a withdrawal is refused with
/// `UnexpectedTxState`, and so is disputing a deposit that is already disputed.
pub proof fn law_only_undisputed_deposits_disputed(v: EngineView, c: u16, t: u32)
    requires
        v.lookup(c, t) is Some,
        !(v.lookup(c, t)->0.kind matches StoredKind::Deposit { disputed: false, .. }),
    ensures
        v.dispute(c, t) == (v, Err::<(), Rejection>(Rejection::UnexpectedTxState)),
{
}

/// A dispute holds the deposit's amount: held funds grow by it, available funds
/// shrink by it, and the total stays.
pub proof fn law_dispute_holds(v: EngineView, c: u16, t: u32)
    requires
        v.inv(),
        v.dispute(c, t).1 is Ok,
    ensures
        v.dispute(c, t).0.balance(c).held() == v.balance(c).held() + v.lookup(c, t)->0.amount(),
        v.dispute(c, t).0.balance(c).available() == v.balance(c).available() - v.lookup(
            c,
            t,
        )->0.amount(),
        v.dispute(c, t).0.balance(c).total() == v.balance(c).total(),
{
}

/// Resolving a dispute undoes it: after a dispute and the resolution of the
/// same transaction, the engine is exactly as it was before, so every account
/// reports what it reported and the deposit can be disputed again as before.
pub proof fn law_resolve_undoes_dispute(v: EngineView, c: u16, t: u32)
    requires
        v.inv(),
        v.dispute(c, t).1 is Ok,
    ensures
        v.dispute(c, t).0.resolve(c, t).1 is Ok,
        v.dispute(c, t).0.resolve(c, t).0 == v,
{
    let v2 = v.dispute(c, t).0.resolve(c, t).0;
    assert(v2.transactions =~= v.transactions);
    assert(v2.balances =~= v.balances);
}

/// A chargeback takes the disputed amount off the held and total funds, locks
/// the account, and forgets the deposit: it can be neither disputed nor charged
/// back again.
pub proof fn law_chargeback_final(v: EngineView, c: u16, t: u32)
    requires
        v.inv(),
        v.chargeback(c, t).1 is Ok,
    ensures
        v.chargeback(c, t).0.balances.contains_key(c),
        v.chargeback(c, t).0.balances[c].locked,
        v.chargeback(c, t).0.balance(c).held() == v.balance(c).held() - v.lookup(c, t)->0.amount(),
        v.chargeback(c, t).0.balance(c).total() == v.balance(c).total() - v.lookup(
            c,
            t,
        )->0.amount(),
        v.chargeback(c, t).0.balance(c).available() == v.balance(c).available(),
        v.chargeback(c, t).0.dispute(c, t).1 == Err::<(), Rejection>(Rejection::UnknownTxId(t)),
        v.chargeback(c, t).0.chargeback(c, t).1 == Err::<(), Rejection>(Rejection::UnknownTxId(t)),
{
    lemma_held_within_sum(v.transactions, t, c);
}

/// A resolution or a chargeback is accepted only for a disputed deposit of the
/// client, and always is for one: neither can overflow.
pub proof fn law_settling_needs_dispute(v: EngineView, c: u16, t: u32)
    requires
        v.inv(),
    ensures
        v.resolve(c, t).1 is Ok <==> (v.lookup(c, t) matches Some(st) && st.kind matches StoredKind::Deposit { disputed: true, .. }),
        v.chargeback(c, t).1 is Ok <==> (v.lookup(c, t) matches Some(st) && st.kind matches StoredKind::Deposit { disputed: true, .. }),
{
}

/// What the engine reports of a client is the client's figures themselves:
/// held and total funds as kept, available funds as the total less what is
/// held, and the lock; a client without an account has no entry.
pub proof fn law_account_reports_figures(v: EngineView, c: u16)
    requires
        v.inv(),
    ensures
        v.balances.contains_key(c) ==> v.account(c) == Some(
            Account {
                client_id: ClientId(c),
                available: (v.balances[c].total - v.balances[c].held) as i64,
                held: v.balances[c].held,
                total: v.balances[c].total,
                is_locked: v.balances[c].locked,
            },
        ),
        v.balances.contains_key(c) ==> v.account(c)->0.available == v.balances[c].total
            - v.balances[c].held,
        !v.balances.contains_key(c) ==> v.account(c) is None,
{
}

/// A deposit is accepted exactly when its id is new and the client's total
/// stays within the amount type, whatever else the account holds or owes. The
/// accepted deposit is remembered as an undisputed deposit of its client and
/// amount, credits the total and the available funds, and leaves every other
/// remembered transaction as it was.
pub proof fn law_deposit_accepted(v: EngineView, c: u16, t: u32, amount: i64)
    requires
        v.inv(),
        amount > 0,
    ensures
        v.deposit(c, t, amount).1 is Ok <==> (!v.transactions.contains_key(t) && v.balance(c).total()
            + amount <= i64::MAX),
        v.deposit(c, t, amount).1 is Ok ==> {
            let w = v.deposit(c, t, amount).0;
            &&& w.lookup(c, t) == Some(
                StoredTx { client_id: c, kind: StoredKind::Deposit { amount, disputed: false } },
            )
            &&& w.balance(c).total() == v.balance(c).total() + amount
            &&& w.balance(c).held() == v.balance(c).held()
            &&& w.balance(c).locked == v.balance(c).locked
            &&& forall|d: u16, u: u32| u != t ==> #[trigger] w.lookup(d, u) == v.lookup(d, u)
        },
        v.deposit(c, t, amount).1 is Err ==> v.deposit(c, t, amount).0 == v,
{
}

/// A dispute is accepted exactly when it names an undisputed deposit of the
/// client and holding that deposit keeps held and available funds within the
/// amount type, whatever other deposits of the client are already disputed. The
/// deposit's amount then moves from available to held, the deposit is
/// remembered as disputed, and every other remembered transaction stays.
pub proof fn law_dispute_accepted(v: EngineView, c: u16, t: u32)
    requires
        v.inv(),
    ensures
        v.dispute(c, t).1 is Ok <==> ((v.lookup(c, t) matches Some(st) && st.kind matches StoredKind::Deposit { disputed: false, .. })
            && v.balance(c).held() + v.lookup(c, t)->0.amount() <= i64::MAX && v.balance(
            c,
        ).available() - v.lookup(c, t)->0.amount() >= i64::MIN),
        v.dispute(c, t).1 is Ok ==> {
            let w = v.dispute(c, t).0;
            let amount = v.lookup(c, t)->0.amount();
            &&& w.lookup(c, t) == Some(
                StoredTx { client_id: c, kind: StoredKind::Deposit { amount, disputed: true } },
            )
            &&& w.balance(c).held() == v.balance(c).held() + amount
            &&& w.balance(c).total() == v.balance(c).total()
            &&& w.balance(c).locked == v.balance(c).locked
            &&& forall|d: u16, u: u32| u != t ==> #[trigger] w.lookup(d, u) == v.lookup(d, u)
        },
        v.dispute(c, t).1 is Err ==> v.dispute(c, t).0 == v,
{
}

/// An accepted resolution releases the disputed deposit's amount from held to
/// available, remembers the deposit as undisputed again, and leaves every other
/// remembered transaction as it was.
pub proof fn law_resolve_releases(v: EngineView, c: u16, t: u32)
    requires
        v.inv(),
        v.resolve(c, t).1 is Ok,
    ensures
        ({
            let w = v.resolve(c, t).0;
            let amount = v.lookup(c, t)->0.amount();
            &&& w.lookup(c, t) == Some(
                StoredTx { client_id: c, kind: StoredKind::Deposit { amount, disputed: false } },
            )
            &&& w.balance(c).held() == v.balance(c).held() - amount
            &&& w.balance(c).total() == v.balance(c).total()
            &&& w.balance(c).locked == v.balance(c).locked
            &&& forall|d: u16, u: u32| u != t ==> #[trigger] w.lookup(d, u) == v.lookup(d, u)
        }),
{
    lemma_held_within_sum(v.transactions, t, c);
}

/// An accepted chargeback forgets exactly the charged-back deposit: every other
/// remembered transaction stays.
pub proof fn law_chargeback_forgets_only_its_deposit(v: EngineView, c: u16, t: u32)
    requires
        v.chargeback(c, t).1 is Ok,
    ensures
        v.chargeback(c, t).0.lookup(c, t) is None,
        forall|d: u16, u: u32| u != t ==> #[trigger] v.chargeback(c, t).0.lookup(d, u) == v.lookup(d, u),
{
}

/// An accepted withdrawal takes its id, keeps every other remembered
/// transaction, and cannot be disputed.
pub proof fn law_withdrawal_remembered(v: EngineView, c: u16, t: u32, amount: i64)
    requires
        v.withdraw(c, t, amount).1 is Ok,
    ensures
        v.withdraw(c, t, amount).0.transactions.contains_key(t),
        v.withdraw(c, t, amount).0.dispute(c, t).1 == Err::<(), Rejection>(
            Rejection::UnexpectedTxState,
        ),
        forall|d: u16, u: u32| u != t ==> #[trigger] v.withdraw(c, t, amount).0.lookup(d, u) == v.lookup(d, u),
{
}

/// Why a transaction is refused: a deposit or withdrawal with a remembered id
/// for a duplicate id; a deposit past the amount type for overflow; a withdrawal
/// from a locked account for the lock, and one beyond the available funds for
/// insufficient funds, with what is available; a dispute, resolution or
/// chargeback of no transaction of the client for an unknown id; a resolution or
/// chargeback of anything but a disputed deposit, and a dispute of anything but
/// an undisputed deposit, for the transaction's state; and a dispute that would
/// take held or available funds out of the amount type for overflow.
pub proof fn law_refusal_reasons(v: EngineView, c: u16, t: u32, amount: i64)
    requires
        v.inv(),
        amount > 0,
    ensures
        v.transactions.contains_key(t) ==> v.deposit(c, t, amount).1 == Err::<(), Rejection>(
            Rejection::DuplicateTxId(t),
        ) && v.withdraw(c, t, amount).1 == Err::<(), Rejection>(Rejection::DuplicateTxId(t)),
        !v.transactions.contains_key(t) && v.balance(c).total() + amount > i64::MAX ==> v.deposit(
            c,
            t,
            amount,
        ).1 == Err::<(), Rejection>(Rejection::Overflow),
        !v.transactions.contains_key(t) && v.balance(c).locked ==> v.withdraw(c, t, amount).1
            == Err::<(), Rejection>(Rejection::AccountLocked(c)),
        !v.transactions.contains_key(t) && !v.balance(c).locked && amount > v.balance(c).available()
            ==> v.withdraw(c, t, amount).1 == Err::<(), Rejection>(
            Rejection::InsufficientFunds(c, v.balance(c).available() as i64),
        ),
        (!v.transactions.contains_key(t) || v.transactions[t].client_id != c) ==> v.dispute(c, t).1
            == Err::<(), Rejection>(Rejection::UnknownTxId(t)) && v.resolve(c, t).1 == Err::<
            (),
            Rejection,
        >(Rejection::UnknownTxId(t)) && v.chargeback(c, t).1 == Err::<(), Rejection>(
            Rejection::UnknownTxId(t),
        ),
        v.transactions.contains_key(t) && v.transactions[t].client_id == c ==> v.lookup(c, t)
            == Some(v.transactions[t]),
        v.lookup(c, t) is None ==> v.dispute(c, t).1 == Err::<(), Rejection>(
            Rejection::UnknownTxId(t),
        ) && v.resolve(c, t).1 == Err::<(), Rejection>(Rejection::UnknownTxId(t)) && v.chargeback(
            c,
            t,
        ).1 == Err::<(), Rejection>(Rejection::UnknownTxId(t)),
        (v.lookup(c, t) matches Some(st) && !(st.kind matches StoredKind::Deposit { disputed: true, .. }))
            ==> v.resolve(c, t).1 == Err::<(), Rejection>(Rejection::UnexpectedTxState) && v.chargeback(
            c,
            t,
        ).1 == Err::<(), Rejection>(Rejection::UnexpectedTxState),
        (v.lookup(c, t) matches Some(st) && !(st.kind matches StoredKind::Deposit { disputed: false, .. }))
            ==> v.dispute(c, t).1 == Err::<(), Rejection>(Rejection::UnexpectedTxState),
        ((v.lookup(c, t) matches Some(st) && st.kind matches StoredKind::Deposit { disputed: false, .. })
            && (v.balance(c).held() + v.lookup(c, t)->0.amount() > i64::MAX || v.balance(c).available()
            - v.lookup(c, t)->0.amount() < i64::MIN)) ==> v.dispute(c, t).1 == Err::<(), Rejection>(
            Rejection::Overflow,
        ),
{
}

} // verus!
