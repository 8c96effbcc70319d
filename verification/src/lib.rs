//! A credit ledger with one fixed-odds wager.
//!
//! Accounts deposit credits and stake a fixed unit of them per play. Each play
//! is settled against a random byte that the caller supplies, so every
//! operation is a function of the ledger and its arguments.

pub mod error;
pub mod host;
pub mod ledger;
pub mod laws;
pub mod machine;

pub use error::LedgerError;
pub use ledger::Ledger;
pub use machine::{SlotMachine, PAYOUT_MULTIPLE, UNIT, WIN_THRESHOLD};
