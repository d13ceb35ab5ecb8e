//! Plain values that the order store keeps.

use vstd::prelude::*;

pub use crate::server::definitions::api_v2::{
    AssetId, BlockNumber, ExtrinsicIndex, PaymentStatus, TokenKind, TxStatus, WithdrawalStatus,
};

verus! {

/// A point in time, in milliseconds since the Unix epoch.
#[derive(Clone, Copy, Debug, PartialEq, Eq, Structural)]
pub struct Timestamp(pub u64);

/// An account as the store keeps it.
pub type Account = [u8; 32];

/// An amount in the smallest unit of its currency.
#[derive(Clone, Copy, Debug, PartialEq, Eq, Structural)]
pub struct Amount(pub u128);

/// How much a transaction moves.
#[derive(Clone, Copy, Debug, PartialEq, Eq, Structural)]
pub enum AmountKind {
    Exact(Amount),
    All,
}

/// The bytes of a transaction.
#[derive(Debug)]
pub struct Bytes(pub Vec<u8>);

/// What the store keeps of a currency besides its name.
#[derive(Clone, Copy, Debug, PartialEq, Eq, Structural)]
pub struct CurrencyInfo {
    pub kind: TokenKind,
    pub asset_id: Option<AssetId>,
}

/// Where and when a transaction was finalized.
#[derive(Debug)]
pub struct FinalizedTx {
    pub block_number: BlockNumber,
    pub position_in_block: ExtrinsicIndex,
    pub timestamp: String,
}

/// A transaction as the store keeps it.
#[derive(Debug)]
pub struct TransactionInfo {
    pub finalized_tx: Option<FinalizedTx>,
    pub transaction_bytes: Bytes,
    pub sender: Account,
    pub recipient: Account,
    pub amount: AmountKind,
    pub status: TxStatus,
}

/// An order as the store keeps it.
#[derive(Debug)]
pub struct OrderInfo {
    pub withdrawal_status: WithdrawalStatus,
    pub payment_status: PaymentStatus,
    pub amount: Amount,
    pub callback: String,
    pub transactions: Vec<TransactionInfo>,
    pub payment_account: Account,
    pub death: Timestamp,
}

} // verus!
