//! A two-outcome prediction market: bettors stake on outcome A or B of an
//! event, the market's authority locks and settles it, and winners claim a
//! share of the whole pool in proportion to their stake, less a fixed fee.
//!
//! The library decides and computes; it moves no funds itself. Every
//! operation takes the records it works on as plain values and hands back the
//! transfers that the caller has to carry out.

pub mod address;
pub mod conservation;
pub mod error;
pub mod escrow;
pub mod instructions;
pub mod lifecycle;
pub mod market;
pub mod payout;
