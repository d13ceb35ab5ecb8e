//! The schemas of the merchant interface, built from what the order
//! store keeps.

use crate::account::{ss58_text, AccountId32};
use crate::database::definitions::{
    Amount, AmountKind as DbAmountKind, AssetId, Bytes, CurrencyInfo as DbCurrencyInfo, FinalizedTx,
    PaymentStatus, Timestamp, TokenKind, TransactionInfo as DbTransactionInfo, TxStatus,
    WithdrawalStatus,
};
use vstd::prelude::*;
use vstd::std_specs::convert::FromSpecImpl;

verus! {

/// The number of decimals by which an amount is shown.
#[derive(Clone, Copy, Debug, PartialEq, Eq, Structural)]
pub struct Decimals(pub u8);

/// The network prefix under which an address is written.
#[derive(Clone, Copy, Debug, PartialEq, Eq, Structural)]
pub struct SS58Prefix(pub u16);

impl From<u16> for SS58Prefix {
    fn from(value: u16) -> (prefix: Self) {
        Self(value)
    }
}

impl FromSpecImpl<u16> for SS58Prefix {
    open spec fn obeys_from_spec() -> bool {
        true
    }

    open spec fn from_spec(value: u16) -> Self {
        SS58Prefix(value)
    }
}

/// An account together with the prefix under which it is written.
#[derive(Clone, Copy, Debug)]
pub struct SubstrateAccount(pub SS58Prefix, pub AccountId32);

impl SubstrateAccount {
    /// The text of the account: its SS58 form under its prefix.
    pub fn serialize(&self) -> (text: String)
        ensures
            text@ == ss58_text(self.1@, self.0.0),
    {
        self.1.to_base58_string(self.0.0)
    }
}

/// What came of a request to create an order.
pub enum CreatedOrder {
    New(OrderStatus),
    Modified(OrderStatus),
    Unchanged(OrderStatus),
}

/// An order as it is shown to the merchant.
pub struct OrderStatus {
    pub order: String,
    pub message: Option<String>,
    pub recipient: SubstrateAccount,
    pub server_info: ServerInfo,
    pub order_info: OrderInfo,
    pub payment_page: String,
    pub redirect_url: String,
}

/// What is known of one order.
pub struct OrderInfo {
    pub withdrawal_status: WithdrawalStatus,
    pub payment_status: PaymentStatus,
    pub amount: AmountWithDecimals,
    pub currency: CurrencyInfo,
    pub callback: String,
    pub transactions: Vec<TransactionInfo>,
    pub payment_account: SubstrateAccount,
    pub death: Timestamp,
}

/// What the daemon says of itself and of the currencies it takes.
pub struct ServerStatus {
    pub description: String,
    pub server_info: ServerInfo,
    pub supported_currencies: Vec<(String, CurrencyProperties)>,
}

/// A currency under its name, with the chain that offers it.
#[derive(Clone, Debug)]
pub struct CurrencyInfo {
    pub currency: String,
    pub chain_name: String,
    pub kind: TokenKind,
    pub decimals: Decimals,
    pub rpc_url: String,
    pub asset_id: Option<AssetId>,
}

impl CurrencyInfo {
    /// The currency that the store keeps as `db`, under its name and
    /// with what the chain says of it.
    pub fn from_db(
        db: DbCurrencyInfo,
        currency: String,
        chain_name: String,
        decimals: Decimals,
        rpc_url: String,
    ) -> (info: Self)
        ensures
            info.kind == db.kind,
            info.asset_id == db.asset_id,
            info.currency == currency,
            info.chain_name == chain_name,
            info.decimals == decimals,
            info.rpc_url == rpc_url,
    {
        Self { kind: db.kind, asset_id: db.asset_id, currency, chain_name, decimals, rpc_url }
    }
}

/// What is known of a currency besides its name.
pub struct CurrencyProperties {
    pub chain_name: String,
    pub kind: TokenKind,
    pub decimals: Decimals,
    pub rpc_url: String,
    pub asset_id: Option<AssetId>,
}

/// The instance of the daemon.
pub struct ServerInfo {
    pub version: String,
    pub instance_id: String,
    pub debug: Option<bool>,
    pub kalatori_remark: Option<String>,
}

/// A transaction of an order as it is shown to the merchant.
pub struct TransactionInfo {
    pub finalized_tx: Option<FinalizedTx>,
    pub transaction_bytes: Bytes,
    pub sender: SubstrateAccount,
    pub recipient: SubstrateAccount,
    pub amount: AmountKind,
    pub currency: CurrencyInfo,
    pub status: TxStatus,
}

impl TransactionInfo {
    /// The transaction that the store keeps as `db`, in the currency
    /// `name` that the store keeps as `currency`: its parties under
    /// `prefix`, its amount with `decimals`.
    pub fn from_db(
        db: DbTransactionInfo,
        currency: DbCurrencyInfo,
        name: String,
        prefix: SS58Prefix,
        decimals: Decimals,
        chain_name: String,
        rpc_url: String,
    ) -> (info: Self)
        ensures
            info.finalized_tx == db.finalized_tx,
            info.transaction_bytes == db.transaction_bytes,
            info.sender.0 == prefix && info.sender.1@ == db.sender@,
            info.recipient.0 == prefix && info.recipient.1@ == db.recipient@,
            info.amount == AmountKind::from_db_spec(db.amount, decimals),
            info.status == db.status,
            info.currency.kind == currency.kind,
            info.currency.asset_id == currency.asset_id,
            info.currency.currency == name,
            info.currency.chain_name == chain_name,
            info.currency.decimals == decimals,
            info.currency.rpc_url == rpc_url,
    {
        Self {
            finalized_tx: db.finalized_tx,
            transaction_bytes: db.transaction_bytes,
            sender: SubstrateAccount(prefix, AccountId32(db.sender)),
            recipient: SubstrateAccount(prefix, AccountId32(db.recipient)),
            amount: AmountKind::from_db(db.amount, decimals),
            status: db.status,
            currency: CurrencyInfo::from_db(currency, name, chain_name, decimals, rpc_url),
        }
    }
}

/// How much a transaction moves.
#[derive(Clone, Copy, Debug, PartialEq, Eq, Structural)]
pub enum AmountKind {
    All,
    Exact(AmountWithDecimals),
}

impl AmountKind {
    /// The amount that the store keeps as `db`, with `decimals`.
    pub open spec fn from_db_spec(db: DbAmountKind, decimals: Decimals) -> Self {
        match db {
            DbAmountKind::Exact(amount) => AmountKind::Exact(AmountWithDecimals(amount, decimals)),
            DbAmountKind::All => AmountKind::All,
        }
    }

    /// The amount that the store keeps as `db`, with `decimals`.
    pub fn from_db(db: DbAmountKind, decimals: Decimals) -> (kind: Self)
        ensures
            kind == Self::from_db_spec(db, decimals),
    {
        match db {
            DbAmountKind::Exact(amount) => Self::Exact(AmountWithDecimals(amount, decimals)),
            DbAmountKind::All => Self::All,
        }
    }
}

/// An amount in the smallest unit of a currency, with the decimals by
/// which it is shown.
#[derive(Clone, Copy, Debug, PartialEq, Eq, Structural)]
pub struct AmountWithDecimals(pub Amount, pub Decimals);

impl From<(Amount, Decimals)> for AmountWithDecimals {
    fn from(pair: (Amount, Decimals)) -> (amount: Self) {
        Self(pair.0, pair.1)
    }
}

impl FromSpecImpl<(Amount, Decimals)> for AmountWithDecimals {
    open spec fn obeys_from_spec() -> bool {
        true
    }

    open spec fn from_spec(pair: (Amount, Decimals)) -> Self {
        AmountWithDecimals(pair.0, pair.1)
    }
}

} // verus!
