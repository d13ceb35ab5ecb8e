//! Everything that speaks of a chain: the watched invoices, the watcher
//! and the payout.

pub mod block;
pub mod definitions;
pub mod monitor;
pub mod payout;
pub mod tracker;
pub mod utils;
pub mod watched;
