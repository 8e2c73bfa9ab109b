//! What the engine reports of an account.
use crate::types::ClientId;
use vstd::prelude::*;

verus! {

/// An account entry. Amounts are raw `FixedPoint<i64, U4>` values
/// (`1` stands for `0.0001`).
#[derive(Debug, Clone, Copy, PartialEq, Eq, Structural)]
pub struct Account {
    /// client-id
    pub client_id: ClientId,
    /// total funds that are available for trading, stacking, withdrawal, etc.
    pub available: i64,
    /// total funds that are held for dispute.
    pub held: i64,
    /// total funds that are available or held.
    pub total: i64,
    /// shows whether the account is locked.
    pub is_locked: bool,
}

} // verus!
