//! Records of the order store.

use crate::account::AccountId32;
use crate::server::definitions::api_v2::{Amount, BlockNumber, ExtrinsicIndex, TxStatus};
use crate::server::definitions::Balance;
use vstd::prelude::*;

pub mod definitions;

verus! {

/// What can go wrong with the order store.
#[derive(Debug)]
pub enum DbError {
    CurrencyKeyNotFound,
    DbEngineDown,
}

/// The settings of the daemon that do not depend on a chain.
#[derive(Debug)]
pub struct ConfigWoChains {
    pub recipient: AccountId32,
    pub debug: bool,
    pub remark: String,
    pub depth: Option<BlockNumber>,
    pub account_lifetime: BlockNumber,
    pub rpc: String,
}

/// An order as the store keeps it for its account.
#[derive(Debug)]
pub struct Invoicee {
    pub callback: String,
    pub amount: Balance,
    pub paid: bool,
    pub paym_acc: AccountId32,
}

/// Which way a transfer goes, seen from the watched account.
#[derive(Clone, Copy, Debug, PartialEq, Eq, Structural)]
pub enum TxKind {
    /// The watched account received.
    Payment,
    /// The watched account sent.
    Withdrawal,
}

/// Where a finalized transaction stands in the chain.
#[derive(Debug)]
pub struct FinalizedTxDb {
    pub block_number: String,
    pub position_in_block: ExtrinsicIndex,
}

/// What the store keeps of a transaction besides its bytes.
#[derive(Debug)]
pub struct TransactionInfoDbInner {
    pub finalized_tx: Option<FinalizedTxDb>,
    pub finalized_tx_timestamp: Option<String>,
    pub sender: String,
    pub recipient: String,
    pub amount: Amount,
    pub currency: String,
    pub status: TxStatus,
    pub kind: TxKind,
}

/// One observed transaction, as the store keeps it.
#[derive(Debug)]
pub struct TransactionInfoDb {
    pub transaction_bytes: String,
    pub inner: TransactionInfoDbInner,
}

/// [`TransactionInfoDb`] as mathematical data.
pub struct TransactionInfoDbView {
    pub transaction_bytes: Seq<char>,
    pub finalized_tx: Option<(Seq<char>, ExtrinsicIndex)>,
    pub finalized_tx_timestamp: Option<Seq<char>>,
    pub sender: Seq<char>,
    pub recipient: Seq<char>,
    pub amount: Amount,
    pub currency: Seq<char>,
    pub status: TxStatus,
    pub kind: TxKind,
}

impl View for TransactionInfoDb {
    type V = TransactionInfoDbView;

    open spec fn view(&self) -> TransactionInfoDbView {
        TransactionInfoDbView {
            transaction_bytes: self.transaction_bytes@,
            finalized_tx: match self.inner.finalized_tx {
                Some(place) => Some((place.block_number@, place.position_in_block)),
                None => None,
            },
            finalized_tx_timestamp: match self.inner.finalized_tx_timestamp {
                Some(text) => Some(text@),
                None => None,
            },
            sender: self.inner.sender@,
            recipient: self.inner.recipient@,
            amount: self.inner.amount,
            currency: self.inner.currency@,
            status: self.inner.status,
            kind: self.inner.kind,
        }
    }
}

} // verus!
