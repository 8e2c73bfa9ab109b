//! Transactions: what the engine is asked to do.
use crate::types::{AmountError, ClientId, PositiveAmount, TxId};
use vstd::prelude::*;

verus! {

/// A transaction of any supported kind.
#[derive(Debug, Clone, Copy)]
pub struct Tx {
    /// Client this transaction relates to.
    pub client_id: ClientId,
    /// Globally unique transaction id.
    pub tx_id: TxId,
    /// See [`TxKind`].
    pub kind: TxKind,
}

/// Data specific to the transaction kind.
#[derive(Debug, Clone, Copy)]
pub enum TxKind {
    /// See [`TxDeposit`].
    Deposit(TxDeposit),
    /// See [`TxWithdrawal`].
    Withdrawal(TxWithdrawal),
    /// Initiate a dispute.
    Dispute,
    /// Cancel the previously raised dispute: unhold the disputed funds.
    Resolve,
    /// Withdraw the disputed funds.
    Chargeback,
}

/// Put funds into the account.
#[derive(Debug, Clone, Copy)]
pub struct TxDeposit {
    /// Amount being deposited
    pub amount_deposited: PositiveAmount,
}

/// Take funds from the account.
#[derive(Debug, Clone, Copy)]
pub struct TxWithdrawal {
    /// Amount to withdraw
    pub amount_withdrawn: PositiveAmount,
}

/// The `type` column of a transaction record.
#[derive(Debug, Clone, Copy, PartialEq, Eq, Structural)]
pub enum TxType {
    Deposit,
    Withdrawal,
    Dispute,
    Resolve,
    Chargeback,
}

/// Why a transaction record does not make a transaction.
#[derive(Debug)]
pub enum TxRecordError {
    /// The `amount` column holds no valid amount.
    Amount(AmountError),
    /// A deposit or a withdrawal has no `amount`.
    MissingAmount,
}

impl TxKind {
    /// The type of the transaction, and its amount where it carries one.
    pub open spec fn shape(self) -> (TxType, Option<i64>) {
        match self {
            TxKind::Deposit(d) => (TxType::Deposit, Some(d.amount_deposited@)),
            TxKind::Withdrawal(w) => (TxType::Withdrawal, Some(w.amount_withdrawn@)),
            TxKind::Dispute => (TxType::Dispute, None),
            TxKind::Resolve => (TxType::Resolve, None),
            TxKind::Chargeback => (TxType::Chargeback, None),
        }
    }
}

/// Whether a transaction of the given type carries an amount.
pub open spec fn carries_amount(kind: TxType) -> bool {
    kind == TxType::Deposit || kind == TxType::Withdrawal
}

impl Tx {
    /// Whether the transaction is the one of the given client, id, type and amount.
    pub open spec fn is(self, kind: TxType, client_id: ClientId, tx_id: TxId, amount: Option<i64>) -> bool {
        &&& self.client_id == client_id
        &&& self.tx_id == tx_id
        &&& self.kind.shape() == (kind, amount)
    }

    /// Builds a transaction from the columns of a record, the amount already read.
    /// Deposits and withdrawals need an amount; the other kinds ignore it.
    pub fn from_parts(
        kind: TxType,
        client_id: ClientId,
        tx_id: TxId,
        amount: Option<PositiveAmount>,
    ) -> (r: Result<Tx, TxRecordError>)
        ensures
            carries_amount(kind) && amount is None ==> r == Err::<Tx, TxRecordError>(
                TxRecordError::MissingAmount,
            ),
            carries_amount(kind) && amount is Some ==> (r matches Ok(tx) && tx.is(
                kind,
                client_id,
                tx_id,
                Some(amount->0@),
            )),
            !carries_amount(kind) ==> (r matches Ok(tx) && tx.is(kind, client_id, tx_id, None)),
    {
        let kind = match (kind, amount) {
            (TxType::Deposit, Some(amount_deposited)) => TxKind::Deposit(TxDeposit { amount_deposited }),
            (TxType::Withdrawal, Some(amount_withdrawn)) => TxKind::Withdrawal(
                TxWithdrawal { amount_withdrawn },
            ),
            (TxType::Deposit, None) | (TxType::Withdrawal, None) => {
                return Err(TxRecordError::MissingAmount);
            },
            (TxType::Dispute, _) => TxKind::Dispute,
            (TxType::Resolve, _) => TxKind::Resolve,
            (TxType::Chargeback, _) => TxKind::Chargeback,
        };
        Ok(Tx { client_id, tx_id, kind })
    }

    /// Builds a transaction from the columns of a record. An amount, where the
    /// record has one, must be a positive decimal with at most four decimal
    /// places, whatever the kind; deposits and withdrawals need one.
    pub fn from_record(
        kind: TxType,
        client_id: ClientId,
        tx_id: TxId,
        amount: Option<&str>,
    ) -> (r: Result<Tx, TxRecordError>)
        ensures
            amount matches Some(text) && crate::types::too_precise(text@) ==> (r matches Err(
                TxRecordError::Amount(AmountError::Unparsable(_)),
            )),
            match amount {
                None => if carries_amount(kind) {
                    r == Err::<Tx, TxRecordError>(TxRecordError::MissingAmount)
                } else {
                    r matches Ok(tx) && tx.is(kind, client_id, tx_id, None)
                },
                Some(text) => match crate::types::exact_amount_bits(text@) {
                    None => r matches Err(TxRecordError::Amount(AmountError::Unparsable(_))),
                    Some(bits) => if bits <= 0 {
                        r == Err::<Tx, TxRecordError>(
                            TxRecordError::Amount(AmountError::NotPositive(bits)),
                        )
                    } else if carries_amount(kind) {
                        r matches Ok(tx) && tx.is(kind, client_id, tx_id, Some(bits))
                    } else {
                        r matches Ok(tx) && tx.is(kind, client_id, tx_id, None)
                    },
                },
            },
    {
        match amount {
            None => Tx::from_parts(kind, client_id, tx_id, None),
            Some(text) => match PositiveAmount::from_str_exact(text) {
                Ok(a) => Tx::from_parts(kind, client_id, tx_id, Some(a)),
                Err(e) => Err(TxRecordError::Amount(e)),
            },
        }
    }
}

} // verus!
