//! Accounting and vesting-release core of a two-currency token presale.
//!
//! Buyers pay in SOL or USDC; each payment is converted at a configured rate
//! into an allocation of VIBES tokens, which is released over four vesting
//! periods anchored at the listing time. Moving value between parties, the
//! clock and signature checks belong to the host; this crate decides what
//! each operation does to the ledger.

pub mod error;
pub mod instructions;
pub mod key;
pub mod laws;
pub mod ledger;
pub mod sale;
pub mod vesting;
