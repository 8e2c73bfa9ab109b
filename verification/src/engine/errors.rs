//! Error types
use crate::types::{ClientId, TxId};
use vstd::prelude::*;

verus! {

/// An error processing a transaction of any supported kind.
#[derive(Debug)]
pub enum ProcessTxError {
    /// See [`ProcessDepositError`]
    Deposit(ProcessDepositError),
    /// See [`ProcessWithdrawalError`]
    Withdrawal(ProcessWithdrawalError),
    /// See [`ProcessDisputeError`]
    Dispute(ProcessDisputeError),
    /// See [`ProcessResolveError`]
    Resolve(ProcessResolveError),
    /// See [`ProcessChargebackError`]
    Chargeback(ProcessChargebackError),
}

/// An error processing deposit-transaction
#[derive(Debug)]
pub enum ProcessDepositError {
    /// See [`DuplicateTxId`]
    DuplicateTxId(DuplicateTxId),
    /// An arithmetic error during the balance calculation.
    Overflow(fixnum::ArithmeticError),
}

/// An error processing withdrawal-transaction
#[derive(Debug)]
pub enum ProcessWithdrawalError {
    /// See [`DuplicateTxId`]
    DuplicateTxId(DuplicateTxId),
    /// An arithmetic error during the balance calculation.
    Overflow(fixnum::ArithmeticError),
    /// See [`AccountLocked`]
    AccountLocked(AccountLocked),
    /// The client does not have enough available funds to complete the
    /// requested withdrawal; the amount is what is available (raw representation).
    InsufficientFunds(ClientId, i64),
}

/// An error processing dispute-transaction
#[derive(Debug)]
pub enum ProcessDisputeError {
    /// See [`UnknownTxId`]
    UnknownTxId(UnknownTxId),
    /// See [`UnexpectedTxState`]
    UnexpectedTxState(UnexpectedTxState),
    /// An arithmetic error during the balance calculation.
    Overflow(fixnum::ArithmeticError),
}

/// An error processing resolve-transaction
#[derive(Debug)]
pub enum ProcessResolveError {
    /// See [`UnknownTxId`]
    UnknownTxId(UnknownTxId),
    /// See [`UnexpectedTxState`]
    UnexpectedTxState(UnexpectedTxState),
}

/// An error processing chargeback-transaction
#[derive(Debug)]
pub enum ProcessChargebackError {
    /// See [`UnknownTxId`]
    UnknownTxId(UnknownTxId),
    /// See [`UnexpectedTxState`]
    UnexpectedTxState(UnexpectedTxState),
}

/// Transaction was rejected due to having a non-unique tx-id.
#[derive(Debug, Clone, Copy, PartialEq, Eq, Structural)]
pub struct DuplicateTxId(pub TxId);

/// No transaction of the client corresponds to the specified tx-id.
#[derive(Debug, Clone, Copy, PartialEq, Eq, Structural)]
pub struct UnknownTxId(pub TxId);

/// The refered transaction's state is incompatible with the requested
/// operation.
#[derive(Debug, Clone, Copy, PartialEq, Eq, Structural)]
pub struct UnexpectedTxState;

/// Transaction was rejected because the account it refers is locked.
#[derive(Debug, Clone, Copy, PartialEq, Eq, Structural)]
pub struct AccountLocked(pub ClientId);

/// Why a transaction is refused, with the data that the errors carry
/// (amounts by their raw representation). `fixnum`'s arithmetic error is left out.
pub enum Rejection {
    DuplicateTxId(u32),
    Overflow,
    AccountLocked(u16),
    InsufficientFunds(u16, i64),
    UnknownTxId(u32),
    UnexpectedTxState,
}

impl ProcessDepositError {
    pub open spec fn rejection(self) -> Rejection {
        match self {
            ProcessDepositError::DuplicateTxId(d) => Rejection::DuplicateTxId(d.0.0),
            ProcessDepositError::Overflow(_) => Rejection::Overflow,
        }
    }
}

impl ProcessWithdrawalError {
    pub open spec fn rejection(self) -> Rejection {
        match self {
            ProcessWithdrawalError::DuplicateTxId(d) => Rejection::DuplicateTxId(d.0.0),
            ProcessWithdrawalError::Overflow(_) => Rejection::Overflow,
            ProcessWithdrawalError::AccountLocked(l) => Rejection::AccountLocked(l.0.0),
            ProcessWithdrawalError::InsufficientFunds(c, a) => Rejection::InsufficientFunds(c.0, a),
        }
    }
}

impl ProcessDisputeError {
    pub open spec fn rejection(self) -> Rejection {
        match self {
            ProcessDisputeError::UnknownTxId(u) => Rejection::UnknownTxId(u.0.0),
            ProcessDisputeError::UnexpectedTxState(_) => Rejection::UnexpectedTxState,
            ProcessDisputeError::Overflow(_) => Rejection::Overflow,
        }
    }
}

impl ProcessResolveError {
    pub open spec fn rejection(self) -> Rejection {
        match self {
            ProcessResolveError::UnknownTxId(u) => Rejection::UnknownTxId(u.0.0),
            ProcessResolveError::UnexpectedTxState(_) => Rejection::UnexpectedTxState,
        }
    }
}

impl ProcessChargebackError {
    pub open spec fn rejection(self) -> Rejection {
        match self {
            ProcessChargebackError::UnknownTxId(u) => Rejection::UnknownTxId(u.0.0),
            ProcessChargebackError::UnexpectedTxState(_) => Rejection::UnexpectedTxState,
        }
    }
}

impl ProcessTxError {
    pub open spec fn rejection(self) -> Rejection {
        match self {
            ProcessTxError::Deposit(e) => e.rejection(),
            ProcessTxError::Withdrawal(e) => e.rejection(),
            ProcessTxError::Dispute(e) => e.rejection(),
            ProcessTxError::Resolve(e) => e.rejection(),
            ProcessTxError::Chargeback(e) => e.rejection(),
        }
    }
}

impl ProcessTxError {
    /// Whether the error is of the kind that a transaction of this kind gives.
    pub open spec fn is_for(self, kind: crate::input::TxKind) -> bool {
        match (self, kind) {
            (ProcessTxError::Deposit(_), crate::input::TxKind::Deposit(_)) => true,
            (ProcessTxError::Withdrawal(_), crate::input::TxKind::Withdrawal(_)) => true,
            (ProcessTxError::Dispute(_), crate::input::TxKind::Dispute) => true,
            (ProcessTxError::Resolve(_), crate::input::TxKind::Resolve) => true,
            (ProcessTxError::Chargeback(_), crate::input::TxKind::Chargeback) => true,
            _ => false,
        }
    }
}

/// The outcome of processing, with each error taken by its [`Rejection`].
pub open spec fn outcome<E>(r: Result<(), E>, rejection: spec_fn(E) -> Rejection) -> Result<(), Rejection> {
    match r {
        Ok(()) => Ok(()),
        Err(e) => Err(rejection(e)),
    }
}

} // verus!
