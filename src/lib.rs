//! A custodial value vault: one record, created once, funded by anyone and
//! drained only by its recorded owner.
//!
//! Each operation takes the accounts it acts on as plain values, checks
//! everything before it changes anything, and either fails with nothing
//! changed or returns the accounts as they are afterwards, exactly as the
//! `*_outcome` spec functions describe.

pub mod address;
pub mod deposit;
pub mod error;
pub mod initialize;
pub mod invariants;
pub mod state;
pub mod token_vault;
pub mod withdraw;
