//! A payments engine: it applies deposits, withdrawals, disputes, resolutions and
//! chargebacks to client accounts, and reports the resulting balances.
pub mod types;
pub mod input;
pub mod output;
pub mod engine;
