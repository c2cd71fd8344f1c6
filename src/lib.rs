//! Pre-sale ledger: exact price conversion between assets of differing
//! decimal precision, vesting-adjusted claims, and the sale's account state.

pub mod conversion;
pub mod decimal;
pub mod error;
pub mod instructions;
pub mod ledger;
pub mod pubkey;
pub mod state;
pub mod vesting;
