//! Fee calculation and payout reconciliation for a card-payment gateway,
//! with every amount held as a signed number of cents.

pub mod error;
pub mod money;
pub mod fees;
pub mod ledger;
pub mod reconciliation;
pub mod payout;
pub mod trace_context;
pub mod webhook;
