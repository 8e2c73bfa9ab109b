//! The engine's state and transitions as mathematical objects.
//!
//! Each account keeps its total funds and the part of them held for disputes;
//! what is available is the difference. Every figure fits the amount type, and
//! a transaction that would take one out of it is refused.
use super::errors::Rejection;
use super::sums::set_sum;
use crate::input::{Tx, TxKind};
use crate::output::Account;
use crate::types::ClientId;
use vstd::prelude::*;

verus! {

/// The funds of an account, as raw amounts (`1` stands for `0.0001`).
#[derive(Debug, Clone, Copy)]
pub struct Balance {
    /// Funds that are available or held.
    pub total: i64,
    /// Funds held for dispute.
    pub held: i64,
    pub locked: bool,
}

/// What the engine remembers of a transaction.
#[derive(Debug, Clone, Copy)]
pub enum StoredKind {
    Deposit { amount: i64, disputed: bool },
    Withdrawal { amount: i64 },
}

/// A remembered transaction and the client it belongs to.
#[derive(Debug, Clone, Copy)]
pub struct StoredTx {
    pub client_id: u16,
    pub kind: StoredKind,
}

impl Balance {
    /// The funds of an account that has seen nothing.
    pub open spec fn fresh() -> Balance {
        Balance { total: 0, held: 0, locked: false }
    }

    /// Funds that are available or held.
    pub open spec fn total(self) -> int {
        self.total as int
    }

    /// Funds held for dispute.
    pub open spec fn held(self) -> int {
        self.held as int
    }

    /// Funds available for withdrawal.
    pub open spec fn available(self) -> int {
        self.total - self.held
    }

    /// Held funds are never negative, available funds fit the amount type, and
    /// only a locked account (one that saw a chargeback) can have negative total
    /// funds.
    pub open spec fn valid(self) -> bool {
        &&& 0 <= self.held
        &&& i64::MIN <= self.available()
        &&& !self.locked ==> 0 <= self.total
    }

    /// Nothing is left to keep of the account: no funds, nothing held, not locked.
    pub open spec fn is_idle(self) -> bool {
        self.total == 0 && self.held == 0 && !self.locked
    }

    /// The account entry of this client.
    pub open spec fn account(self, client: u16) -> Account {
        Account {
            client_id: ClientId(client),
            available: self.available() as i64,
            held: self.held,
            total: self.total,
            is_locked: self.locked,
        }
    }
}

impl StoredTx {
    /// The amount of the transaction.
    pub open spec fn amount(self) -> i64 {
        match self.kind {
            StoredKind::Deposit { amount, .. } => amount,
            StoredKind::Withdrawal { amount } => amount,
        }
    }

    /// What the transaction holds on the given client's account: its amount if it
    /// is a disputed deposit of that client, zero otherwise.
    pub open spec fn held_for(self, client: u16) -> int {
        if self.client_id == client {
            match self.kind {
                StoredKind::Deposit { amount, disputed } => if disputed {
                    amount as int
                } else {
                    0
                },
                StoredKind::Withdrawal { .. } => 0,
            }
        } else {
            0
        }
    }
}

/// The sum of the client's disputed deposits.
pub open spec fn held_sum(txs: Map<u32, StoredTx>, client: u16) -> int {
    set_sum(txs.dom(), |t: u32| txs[t].held_for(client))
}

/// The state of the engine: the accounts it keeps, and the transactions it
/// remembers by id.
pub struct EngineView {
    pub balances: Map<u16, Balance>,
    pub transactions: Map<u32, StoredTx>,
}

impl EngineView {
    /// The state of an engine that has seen nothing.
    pub open spec fn empty() -> EngineView {
        EngineView { balances: Map::empty(), transactions: Map::empty() }
    }

    /// The totals of a client's account; a client that has none has fresh totals.
    pub open spec fn balance(self, client: u16) -> Balance {
        if self.balances.contains_key(client) {
            self.balances[client]
        } else {
            Balance::fresh()
        }
    }

    /// The entry that the engine reports for a client, if it keeps an account.
    pub open spec fn account(self, client: u16) -> Option<Account> {
        if self.balances.contains_key(client) {
            Some(self.balances[client].account(client))
        } else {
            None
        }
    }

    /// What every reachable state satisfies.
    pub open spec fn inv(self) -> bool {
        &&& self.transactions.dom().finite()
        &&& forall|t: u32| #[trigger]
            self.transactions.contains_key(t) ==> self.transactions[t].amount() > 0
        &&& forall|c: u16| #[trigger]
            self.balances.contains_key(c) ==> self.balances[c].valid()
                && !self.balances[c].is_idle()
        &&& forall|c: u16| #[trigger] held_sum(self.transactions, c) == self.balance(c).held()
    }

    /// The accounts after storing new totals for a client: an idle account is
    /// dropped rather than kept.
    pub open spec fn with_balance(self, client: u16, b: Balance) -> Map<u16, Balance> {
        if b.is_idle() {
            self.balances.remove(client)
        } else {
            self.balances.insert(client, b)
        }
    }

    /// The client's transaction with this id, if there is one.
    pub open spec fn lookup(self, client: u16, tx: u32) -> Option<StoredTx> {
        if self.transactions.contains_key(tx) && self.transactions[tx].client_id == client {
            Some(self.transactions[tx])
        } else {
            None
        }
    }

    pub open spec fn deposit(self, client: u16, tx: u32, amount: i64) -> (EngineView, Result<(), Rejection>) {
        let b = self.balance(client);
        if self.transactions.contains_key(tx) {
            (self, Err(Rejection::DuplicateTxId(tx)))
        } else if b.total() + amount > i64::MAX {
            (self, Err(Rejection::Overflow))
        } else {
            let nb = Balance { total: (b.total + amount) as i64, ..b };
            let record = StoredTx { client_id: client, kind: StoredKind::Deposit { amount, disputed: false } };
            (
                EngineView {
                    balances: self.with_balance(client, nb),
                    transactions: self.transactions.insert(tx, record),
                },
                Ok(()),
            )
        }
    }

    pub open spec fn withdraw(self, client: u16, tx: u32, amount: i64) -> (EngineView, Result<(), Rejection>) {
        let b = self.balance(client);
        if self.transactions.contains_key(tx) {
            (self, Err(Rejection::DuplicateTxId(tx)))
        } else if b.locked {
            (self, Err(Rejection::AccountLocked(client)))
        } else if b.available() < amount {
            (self, Err(Rejection::InsufficientFunds(client, b.available() as i64)))
        } else {
            let nb = Balance { total: (b.total - amount) as i64, ..b };
            let record = StoredTx { client_id: client, kind: StoredKind::Withdrawal { amount } };
            (
                EngineView {
                    balances: self.with_balance(client, nb),
                    transactions: self.transactions.insert(tx, record),
                },
                Ok(()),
            )
        }
    }

    pub open spec fn dispute(self, client: u16, tx: u32) -> (EngineView, Result<(), Rejection>) {
        match self.lookup(client, tx) {
            None => (self, Err(Rejection::UnknownTxId(tx))),
            Some(st) => match st.kind {
                StoredKind::Deposit { amount, disputed: false } => {
                    let b = self.balance(client);
                    if b.held() + amount > i64::MAX || b.available() - amount < i64::MIN {
                        (self, Err(Rejection::Overflow))
                    } else {
                        let nb = Balance { held: (b.held + amount) as i64, ..b };
                        let record = StoredTx {
                            client_id: client,
                            kind: StoredKind::Deposit { amount, disputed: true },
                        };
                        (
                            EngineView {
                                balances: self.with_balance(client, nb),
                                transactions: self.transactions.insert(tx, record),
                            },
                            Ok(()),
                        )
                    }
                },
                _ => (self, Err(Rejection::UnexpectedTxState)),
            },
        }
    }

    pub open spec fn resolve(self, client: u16, tx: u32) -> (EngineView, Result<(), Rejection>) {
        match self.lookup(client, tx) {
            None => (self, Err(Rejection::UnknownTxId(tx))),
            Some(st) => match st.kind {
                StoredKind::Deposit { amount, disputed: true } => {
                    let b = self.balance(client);
                    let nb = Balance { held: (b.held - amount) as i64, ..b };
                    let record = StoredTx {
                        client_id: client,
                        kind: StoredKind::Deposit { amount, disputed: false },
                    };
                    (
                        EngineView {
                            balances: self.with_balance(client, nb),
                            transactions: self.transactions.insert(tx, record),
                        },
                        Ok(()),
                    )
                },
                _ => (self, Err(Rejection::UnexpectedTxState)),
            },
        }
    }

    pub open spec fn chargeback(self, client: u16, tx: u32) -> (EngineView, Result<(), Rejection>) {
        match self.lookup(client, tx) {
            None => (self, Err(Rejection::UnknownTxId(tx))),
            Some(st) => match st.kind {
                StoredKind::Deposit { amount, disputed: true } => {
                    let b = self.balance(client);
                    let nb = Balance {
                        total: (b.total - amount) as i64,
                        held: (b.held - amount) as i64,
                        locked: true,
                    };
                    (
                        EngineView {
                            balances: self.with_balance(client, nb),
                            transactions: self.transactions.remove(tx),
                        },
                        Ok(()),
                    )
                },
                _ => (self, Err(Rejection::UnexpectedTxState)),
            },
        }
    }

    /// The state after a transaction, and whether it was accepted.
    pub open spec fn process(self, tx: Tx) -> (EngineView, Result<(), Rejection>) {
        let client = tx.client_id.0;
        let id = tx.tx_id.0;
        match tx.kind {
            TxKind::Deposit(d) => self.deposit(client, id, d.amount_deposited@),
            TxKind::Withdrawal(w) => self.withdraw(client, id, w.amount_withdrawn@),
            TxKind::Dispute => self.dispute(client, id),
            TxKind::Resolve => self.resolve(client, id),
            TxKind::Chargeback => self.chargeback(client, id),
        }
    }
}

/// A transaction is well formed when its amount, if any, is positive.
pub open spec fn tx_well_formed(tx: Tx) -> bool {
    match tx.kind {
        TxKind::Deposit(d) => d.amount_deposited@ > 0,
        TxKind::Withdrawal(w) => w.amount_withdrawn@ > 0,
        _ => true,
    }
}

} // verus!
