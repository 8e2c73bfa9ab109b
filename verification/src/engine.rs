//! The transaction-processing engine.
pub mod errors;
pub mod history;
pub mod laws;
pub mod model;
pub mod preservation;
pub mod sums;

use std::collections::HashMap;

use crate::input::{Tx, TxDeposit, TxKind, TxWithdrawal};
use crate::output::Account;
use crate::types::{checked_add_amounts, checked_sub_amounts, ClientId, TxId};
use errors::{
    outcome, AccountLocked, DuplicateTxId, ProcessChargebackError, ProcessDepositError,
    ProcessDisputeError, ProcessResolveError, ProcessTxError, ProcessWithdrawalError,
    UnexpectedTxState, UnknownTxId,
};
use model::{Balance, EngineView, StoredKind, StoredTx};
use vstd::prelude::*;

verus! {

/// Applies transactions to client accounts.
#[derive(Debug)]
pub struct Engine {
    balances: HashMap<u16, Balance>,
    transactions: HashMap<u32, StoredTx>,
}

impl View for Engine {
    type V = EngineView;

    closed spec fn view(&self) -> EngineView {
        EngineView { balances: self.balances@, transactions: self.transactions@ }
    }
}

impl Balance {
    fn fresh_exec() -> (r: Balance)
        ensures
            r == Balance::fresh(),
    {
        Balance { total: 0, held: 0, locked: false }
    }

    fn account_exec(&self, client: u16) -> (r: Account)
        requires
            self.valid(),
        ensures
            r == self.account(client),
    {
        Account {
            client_id: ClientId(client),
            available: self.total - self.held,
            held: self.held,
            total: self.total,
            is_locked: self.locked,
        }
    }

    fn is_idle_exec(&self) -> (r: bool)
        requires
            self.valid(),
        ensures
            r == self.is_idle(),
    {
        self.total == 0 && self.held == 0 && !self.locked
    }
}

impl Default for Engine {
    fn default() -> (r: Engine)
        ensures
            r@ == EngineView::empty(),
            r@.inv(),
    {
        Engine::new()
    }
}

impl Engine {
    #[verifier::type_invariant]
    spec fn well_formed(self) -> bool {
        self@.inv()
    }

    /// An engine with no accounts and no transactions.
    pub fn new() -> (r: Engine)
        ensures
            r@ == EngineView::empty(),
            r@.inv(),
    {
        let r = Engine { balances: HashMap::new(), transactions: HashMap::new() };
        proof {
            preservation::lemma_empty_inv();
        }
        r
    }

    /// The entry of a client's account, if the engine keeps one.
    pub fn account(&self, client_id: ClientId) -> (r: Option<Account>)
        ensures
            r == self@.account(client_id.0),
            r matches Some(a) ==> a.total == a.available + a.held && a.held >= 0 && !(a.total == 0
                && a.held == 0 && !a.is_locked),
            r matches Some(a) ==> a.client_id == client_id && a.held == self@.balance(
                client_id.0,
            ).held() && a.total == self@.balance(client_id.0).total() && a.available == self@.balance(
                client_id.0,
            ).total() - self@.balance(client_id.0).held() && a.is_locked == self@.balance(
                client_id.0,
            ).locked,
            r is None <==> !self@.balances.contains_key(client_id.0),
    {
        proof {
            use_type_invariant(self);
        }
        match self.balances.get(&client_id.0) {
            Some(b) => {
                proof {
                    laws::law_account_in_range(self@, client_id.0);
                }
                Some(b.account_exec(client_id.0))
            },
            None => None,
        }
    }

    /// The entries of all accounts that the engine keeps, one per client, in no
    /// particular order.
    pub fn accounts(&self) -> (r: Vec<Account>)
        ensures
            r@.len() == self@.balances.dom().len(),
            forall|i: int|
                0 <= i < r@.len() ==> self@.account(#[trigger] r@[i].client_id.0) == Some(r@[i]),
            forall|i: int, j: int|
                0 <= i < j < r@.len() ==> r@[i].client_id != r@[j].client_id,
            forall|c: u16|
                #[trigger] self@.balances.contains_key(c) ==> exists|i: int|
                    0 <= i < r@.len() && r@[i].client_id.0 == c,
            forall|i: int|
                0 <= i < r@.len() ==> #[trigger] r@[i].held == self@.balance(r@[i].client_id.0).held()
                    && r@[i].total == self@.balance(r@[i].client_id.0).total() && r@[i].available
                    == self@.balance(r@[i].client_id.0).total() - self@.balance(
                    r@[i].client_id.0,
                ).held() && r@[i].is_locked == self@.balance(r@[i].client_id.0).locked,
            forall|i: int|
                0 <= i < r@.len() ==> #[trigger] r@[i].total == r@[i].available + r@[i].held
                    && r@[i].held >= 0 && !(r@[i].total == 0 && r@[i].held == 0 && !r@[i].is_locked),
    {
        proof {
            use_type_invariant(self);
        }
        let mut out: Vec<Account> = Vec::new();
        let keys_iter = self.balances.keys();
        let ghost keys = vstd::std_specs::iter::IteratorSpec::remaining(&keys_iter).unref();
        for k in it: keys_iter
            invariant
                it.seq().unref() == keys,
                self@.inv(),
                out@.len() == it.index(),
                it.seq().len() == self@.balances.dom().len(),
                it.seq().no_duplicates(),
                it.seq().unref().to_set() == self@.balances.dom(),
                forall|i: int| 0 <= i < out@.len() ==> out@[i].client_id.0 == *it.seq()[i],
                forall|i: int|
                    0 <= i < out@.len() ==> self@.account(#[trigger] out@[i].client_id.0) == Some(
                        out@[i],
                    ),
        {
            let client = *k;
            let b = self.balances.get(&client).unwrap();
            proof {
                laws::law_account_in_range(self@, client);
            }
            out.push(b.account_exec(client));
        }
        proof {
            assert forall|i: int| 0 <= i < out@.len() implies #[trigger] out@[i].total
                == out@[i].available + out@[i].held && out@[i].held >= 0 && !(out@[i].total == 0
                && out@[i].held == 0 && !out@[i].is_locked) by {
                assert(self@.account(out@[i].client_id.0) == Some(out@[i]));
                laws::law_account_in_range(self@, out@[i].client_id.0);
            }
            assert forall|i: int, j: int| 0 <= i < j < out@.len() implies out@[i].client_id
                != out@[j].client_id by {
                assert(keys[i] != keys[j]);
            }
            assert forall|c: u16| #[trigger] self@.balances.contains_key(c) implies exists|i: int|
                0 <= i < out@.len() && out@[i].client_id.0 == c by {
                assert(keys.to_set().contains(c));
                let i = choose|i: int| 0 <= i < keys.len() && keys[i] == c;
                assert(out@[i].client_id.0 == c);
            }
        }
        out
    }

    fn balance(&self, client: u16) -> (r: Balance)
        ensures
            r == self@.balance(client),
            r.valid(),
    {
        proof {
            use_type_invariant(self);
        }
        match self.balances.get(&client) {
            Some(b) => *b,
            None => Balance::fresh_exec(),
        }
    }

    fn lookup(&self, client: u16, tx: u32) -> (r: Option<StoredTx>)
        ensures
            r == self@.lookup(client, tx),
    {
        match self.transactions.get(&tx) {
            Some(st) => if st.client_id == client {
                Some(*st)
            } else {
                None
            },
            None => None,
        }
    }

    /// Stores new totals for a client, and stores (or, with `None`, forgets)
    /// the transaction `tx`.
    fn commit(&mut self, client: u16, nb: Balance, tx: u32, record: Option<StoredTx>)
        requires
            nb.valid(),
            (EngineView {
                balances: old(self)@.with_balance(client, nb),
                transactions: match record {
                    Some(st) => old(self)@.transactions.insert(tx, st),
                    None => old(self)@.transactions.remove(tx),
                },
            }).inv(),
        ensures
            final(self)@ == (EngineView {
                balances: old(self)@.with_balance(client, nb),
                transactions: match record {
                    Some(st) => old(self)@.transactions.insert(tx, st),
                    None => old(self)@.transactions.remove(tx),
                },
            }),
    {
        let mut taken = Engine::new();
        std::mem::swap(&mut taken, self);
        let Engine { mut balances, mut transactions } = taken;
        if nb.is_idle_exec() {
            balances.remove(&client);
        } else {
            balances.insert(client, nb);
        }
        match record {
            Some(st) => {
                transactions.insert(tx, st);
            },
            None => {
                transactions.remove(&tx);
            },
        }
        *self = Engine { balances, transactions };
    }

    /// Applies a transaction. A refused transaction changes nothing.
    pub fn process_tx(&mut self, tx: Tx) -> (r: Result<(), ProcessTxError>)
        ensures
            final(self)@ == old(self)@.process(tx).0,
            outcome(r, |e: ProcessTxError| e.rejection()) == old(self)@.process(tx).1,
            r matches Err(e) ==> e.is_for(tx.kind),
            final(self)@.inv(),
    {
        proof {
            use_type_invariant(&*self);
        }
        let Tx { client_id, tx_id, kind } = tx;
        match kind {
            TxKind::Deposit(deposit) => match self.process_deposit(client_id, tx_id, deposit) {
                Ok(()) => Ok(()),
                Err(e) => Err(ProcessTxError::Deposit(e)),
            },
            TxKind::Withdrawal(withdrawal) => match self.process_withdrawal(
                client_id,
                tx_id,
                withdrawal,
            ) {
                Ok(()) => Ok(()),
                Err(e) => Err(ProcessTxError::Withdrawal(e)),
            },
            TxKind::Dispute => match self.process_dispute(client_id, tx_id) {
                Ok(()) => Ok(()),
                Err(e) => Err(ProcessTxError::Dispute(e)),
            },
            TxKind::Resolve => match self.process_resolve(client_id, tx_id) {
                Ok(()) => Ok(()),
                Err(e) => Err(ProcessTxError::Resolve(e)),
            },
            TxKind::Chargeback => match self.process_chargeback(client_id, tx_id) {
                Ok(()) => Ok(()),
                Err(e) => Err(ProcessTxError::Chargeback(e)),
            },
        }
    }

    /// Credits a deposit to the client's account, creating the account if needed,
    /// locked or not. It is refused with `Overflow` when the total funds would
    /// leave the amount type.
    pub fn process_deposit(&mut self, client_id: ClientId, tx_id: TxId, deposit: TxDeposit) -> (r:
        Result<(), ProcessDepositError>)
        ensures
            final(self)@ == old(self)@.deposit(client_id.0, tx_id.0, deposit.amount_deposited@).0,
            final(self)@.inv(),
            !old(self)@.transactions.contains_key(tx_id.0) ==> ((r matches Err(
                ProcessDepositError::Overflow(_),
            )) <==> old(self)@.balance(client_id.0).total() + deposit.amount_deposited@
                > i64::MAX),
            outcome(r, |e: ProcessDepositError| e.rejection()) == old(self)@.deposit(
                client_id.0,
                tx_id.0,
                deposit.amount_deposited@,
            ).1,
    {
        proof {
            use_type_invariant(&*self);
        }
        let client = client_id.0;
        let amount = deposit.amount_deposited.bits();
        if self.transactions.contains_key(&tx_id.0) {
            return Err(ProcessDepositError::DuplicateTxId(DuplicateTxId(tx_id)));
        }
        let b = self.balance(client);
        let total = match checked_add_amounts(b.total, amount) {
            Ok(sum) => sum,
            Err(e) => return Err(ProcessDepositError::Overflow(e)),
        };
        let nb = Balance { total, ..b };
        let record = StoredTx { client_id: client, kind: StoredKind::Deposit { amount, disputed: false } };
        proof {
            preservation::lemma_deposit_inv(self@, client, tx_id.0, amount);
        }
        self.commit(client, nb, tx_id.0, Some(record));
        Ok(())
    }

    /// Debits a withdrawal from the client's account, if it is not locked and has
    /// the funds available. It never overflows: the total stays at least what is
    /// held.
    pub fn process_withdrawal(
        &mut self,
        client_id: ClientId,
        tx_id: TxId,
        withdrawal: TxWithdrawal,
    ) -> (r: Result<(), ProcessWithdrawalError>)
        ensures
            final(self)@ == old(self)@.withdraw(client_id.0, tx_id.0, withdrawal.amount_withdrawn@).0,
            final(self)@.inv(),
            outcome(r, |e: ProcessWithdrawalError| e.rejection()) == old(self)@.withdraw(
                client_id.0,
                tx_id.0,
                withdrawal.amount_withdrawn@,
            ).1,
    {
        proof {
            use_type_invariant(&*self);
        }
        let client = client_id.0;
        let amount = withdrawal.amount_withdrawn.bits();
        if self.transactions.contains_key(&tx_id.0) {
            return Err(ProcessWithdrawalError::DuplicateTxId(DuplicateTxId(tx_id)));
        }
        let b = self.balance(client);
        if b.locked {
            return Err(ProcessWithdrawalError::AccountLocked(AccountLocked(client_id)));
        }
        let available = b.total - b.held;
        if available < amount {
            return Err(ProcessWithdrawalError::InsufficientFunds(client_id, available));
        }
        let nb = Balance { total: b.total - amount, ..b };
        let record = StoredTx { client_id: client, kind: StoredKind::Withdrawal { amount } };
        proof {
            preservation::lemma_withdraw_inv(self@, client, tx_id.0, amount);
        }
        self.commit(client, nb, tx_id.0, Some(record));
        Ok(())
    }

    /// Holds the funds of one of the client's deposits: they move from available
    /// to held. It is refused with `Overflow` when held or available funds would
    /// leave the amount type.
    pub fn process_dispute(&mut self, client_id: ClientId, tx_id: TxId) -> (r: Result<
        (),
        ProcessDisputeError,
    >)
        ensures
            final(self)@ == old(self)@.dispute(client_id.0, tx_id.0).0,
            final(self)@.inv(),
            (old(self)@.lookup(client_id.0, tx_id.0) matches Some(st) && st.kind matches StoredKind::Deposit { disputed: false, .. }) ==> ((r matches Err(
                ProcessDisputeError::Overflow(_),
            )) <==> (old(self)@.balance(client_id.0).held() + old(self)@.lookup(
                client_id.0,
                tx_id.0,
            )->0.amount() > i64::MAX || old(self)@.balance(client_id.0).available() - old(
                self,
            )@.lookup(client_id.0, tx_id.0)->0.amount() < i64::MIN)),
            outcome(r, |e: ProcessDisputeError| e.rejection()) == old(self)@.dispute(
                client_id.0,
                tx_id.0,
            ).1,
    {
        proof {
            use_type_invariant(&*self);
        }
        let client = client_id.0;
        let st = match self.lookup(client, tx_id.0) {
            Some(st) => st,
            None => return Err(ProcessDisputeError::UnknownTxId(UnknownTxId(tx_id))),
        };
        let amount = match st.kind {
            StoredKind::Deposit { amount, disputed: false } => amount,
            _ => return Err(ProcessDisputeError::UnexpectedTxState(UnexpectedTxState)),
        };
        let b = self.balance(client);
        let held = match checked_add_amounts(b.held, amount) {
            Ok(sum) => sum,
            Err(e) => return Err(ProcessDisputeError::Overflow(e)),
        };
        if let Err(e) = checked_sub_amounts(b.total - b.held, amount) {
            return Err(ProcessDisputeError::Overflow(e));
        }
        let nb = Balance { held, ..b };
        let record = StoredTx { client_id: client, kind: StoredKind::Deposit { amount, disputed: true } };
        proof {
            preservation::lemma_dispute_inv(self@, client, tx_id.0);
        }
        self.commit(client, nb, tx_id.0, Some(record));
        Ok(())
    }

    /// Releases the held funds of one of the client's disputed deposits.
    pub fn process_resolve(&mut self, client_id: ClientId, tx_id: TxId) -> (r: Result<
        (),
        ProcessResolveError,
    >)
        ensures
            final(self)@ == old(self)@.resolve(client_id.0, tx_id.0).0,
            final(self)@.inv(),
            outcome(r, |e: ProcessResolveError| e.rejection()) == old(self)@.resolve(
                client_id.0,
                tx_id.0,
            ).1,
    {
        proof {
            use_type_invariant(&*self);
        }
        let client = client_id.0;
        let st = match self.lookup(client, tx_id.0) {
            Some(st) => st,
            None => return Err(ProcessResolveError::UnknownTxId(UnknownTxId(tx_id))),
        };
        let amount = match st.kind {
            StoredKind::Deposit { amount, disputed: true } => amount,
            _ => return Err(ProcessResolveError::UnexpectedTxState(UnexpectedTxState)),
        };
        let b = self.balance(client);
        proof {
            preservation::lemma_held_within_sum(self@.transactions, tx_id.0, client);
            preservation::lemma_resolve_inv(self@, client, tx_id.0);
        }
        let nb = Balance { held: b.held - amount, ..b };
        let record = StoredTx { client_id: client, kind: StoredKind::Deposit { amount, disputed: false } };
        self.commit(client, nb, tx_id.0, Some(record));
        Ok(())
    }

    /// Takes back the funds of one of the client's disputed deposits, and locks
    /// the account. The deposit is forgotten.
    pub fn process_chargeback(&mut self, client_id: ClientId, tx_id: TxId) -> (r: Result<
        (),
        ProcessChargebackError,
    >)
        ensures
            final(self)@ == old(self)@.chargeback(client_id.0, tx_id.0).0,
            final(self)@.inv(),
            outcome(r, |e: ProcessChargebackError| e.rejection()) == old(self)@.chargeback(
                client_id.0,
                tx_id.0,
            ).1,
    {
        proof {
            use_type_invariant(&*self);
        }
        let client = client_id.0;
        let st = match self.lookup(client, tx_id.0) {
            Some(st) => st,
            None => return Err(ProcessChargebackError::UnknownTxId(UnknownTxId(tx_id))),
        };
        let amount = match st.kind {
            StoredKind::Deposit { amount, disputed: true } => amount,
            _ => return Err(ProcessChargebackError::UnexpectedTxState(UnexpectedTxState)),
        };
        let b = self.balance(client);
        proof {
            preservation::lemma_held_within_sum(self@.transactions, tx_id.0, client);
            preservation::lemma_chargeback_inv(self@, client, tx_id.0);
        }
        let nb = Balance { total: b.total - amount, held: b.held - amount, locked: true };
        self.commit(client, nb, tx_id.0, None);
        Ok(())
    }
}

} // verus!
