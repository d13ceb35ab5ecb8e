//! Decision core of a multi-chain payment daemon for Substrate-compatible
//! chains: order addresses, invoice tracking, payout planning and the
//! signer worker, with every rule stated as a contract.

pub mod account;
pub mod chain;
pub mod database;
pub mod definitions;
pub mod encoding;
pub mod error;
pub mod server;
pub mod signer;
