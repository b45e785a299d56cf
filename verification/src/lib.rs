//! A pooled-deposit "no-loss" raffle.
//!
//! Participants deposit a fixed amount to receive a ticket, the pooled funds
//! are routed into an external yield reserve for a farming period, the yield
//! (never the principal) is awarded to one ticket holder selected from a
//! stored fairness seed, and every participant can always redeem the original
//! deposit.
//!
//! This crate holds the lottery core: the phase state machine with its
//! timelocks, the ticket and participant ledger, the seeded winner selection,
//! and the yield accounting. The external collaborators — the asset-transfer
//! ledger, the durable key-value store, caller authentication, the clock, the
//! hash primitive and the yield reserve itself — stay outside: the core works
//! on an explicit [`storage::LotteryStore`] snapshot and on plain values read
//! from those services, and hands back the requests that the surrounding host
//! code must submit to them.

pub mod contract;
pub mod error;
pub mod storage;
pub mod util;
