//! A minimal on-chain record-keeping module: a persistent string-keyed ledger
//! mapping order identifiers to a single 64-bit signed value, with a one-time
//! initialization step, a create-or-overwrite insert, and a zero-defaulting
//! read.

pub mod laws;
pub mod ledger;

pub use ledger::details_of;
pub use ledger::stored_or_default;
pub use ledger::LedgerError;
pub use ledger::OrderLedger;
