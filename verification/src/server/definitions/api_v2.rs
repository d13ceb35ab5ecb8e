//! Self-sufficient schemas of the merchant interface.

use crate::database::definitions::Timestamp;
use crate::server::definitions::Balance;
use vstd::prelude::*;

verus! {

/// The name of the amount parameter of an order request.
pub const AMOUNT: &'static str = "amount";

/// The name of the currency parameter of an order request.
pub const CURRENCY: &'static str = "currency";

/// The id of an asset on its chain.
pub type AssetId = u32;

/// The number of decimals by which an amount is shown.
pub type Decimals = u8;

/// The number of a block.
pub type BlockNumber = u64;

/// The position of an extrinsic in its block.
pub type ExtrinsicIndex = u32;

/// A parameter of a request that was refused, with the reason.
#[derive(Debug)]
pub struct InvalidParameter {
    pub parameter: String,
    pub message: String,
}

/// A merchant's request for an order; `amount` is in the smallest unit of
/// the currency.
#[derive(Debug)]
pub struct OrderQuery {
    pub order: String,
    pub amount: Balance,
    pub callback: String,
    pub currency: String,
}

/// The answer to a request about an order.
#[derive(Debug)]
pub enum OrderResponse {
    NewOrder(OrderStatus),
    FoundOrder(OrderStatus),
    ModifiedOrder(OrderStatus),
    CollidedOrder(OrderStatus),
    NotFound,
}

/// An order as it is shown to the merchant.
#[derive(Debug)]
pub struct OrderStatus {
    pub order: String,
    pub message: String,
    pub recipient: String,
    pub server_info: ServerInfo,
    pub order_info: OrderInfo,
    pub payment_page: String,
    pub redirect_url: String,
}

/// What is known of one order; `amount` is in the smallest unit of the
/// currency.
#[derive(Clone, Debug)]
pub struct OrderInfo {
    pub withdrawal_status: WithdrawalStatus,
    pub payment_status: PaymentStatus,
    pub amount: Balance,
    pub currency: CurrencyInfo,
    pub callback: String,
    pub transactions: Vec<TransactionInfo>,
    pub payment_account: String,
    pub death: Timestamp,
}

impl OrderInfo {
    /// A fresh order: payment pending, withdrawal waiting, no transaction
    /// seen yet.
    pub fn new(
        query: OrderQuery,
        currency: CurrencyInfo,
        payment_account: String,
        death: Timestamp,
    ) -> (info: Self)
        ensures
            info.withdrawal_status == WithdrawalStatus::Waiting,
            info.payment_status == PaymentStatus::Pending,
            info.amount == query.amount,
            info.currency == currency,
            info.callback == query.callback,
            info.transactions@.len() == 0,
            info.payment_account == payment_account,
            info.death == death,
    {
        OrderInfo {
            withdrawal_status: WithdrawalStatus::Waiting,
            payment_status: PaymentStatus::Pending,
            amount: query.amount,
            currency,
            callback: query.callback,
            transactions: Vec::new(),
            payment_account,
            death,
        }
    }
}

/// What came of a request to create an order.
pub enum OrderCreateResponse {
    New(OrderInfo),
    Modified(OrderInfo),
    Collision(OrderInfo),
}

/// Whether an order is paid.
#[derive(Clone, Copy, Debug, PartialEq, Eq, Structural)]
pub enum PaymentStatus {
    Pending,
    Paid,
    TimedOut,
}

/// How far the payout of an order has come.
#[derive(Clone, Copy, Debug, PartialEq, Eq, Structural)]
pub enum WithdrawalStatus {
    Waiting,
    Failed,
    Completed,
    /// No withdrawal is to be made.
    Nothing,
}

/// What the daemon says of itself and of the currencies it takes.
#[derive(Clone, Debug)]
pub struct ServerStatus {
    pub description: String,
    pub server_info: ServerInfo,
    pub supported_currencies: Vec<(String, CurrencyProperties)>,
}

/// How well an endpoint serves.
#[derive(Clone, Copy, Debug, PartialEq, Eq, Structural)]
pub enum Health {
    Good,
    Degraded,
    Critical,
}

/// The state of one endpoint of one chain.
#[derive(Debug)]
pub struct RpcInfo {
    pub rpc_url: String,
    pub chain_name: String,
    pub status: Health,
}

/// [`RpcInfo`] with its texts as sequences.
pub struct RpcInfoView {
    pub rpc_url: Seq<char>,
    pub chain_name: Seq<char>,
    pub status: Health,
}

impl View for RpcInfo {
    type V = RpcInfoView;

    open spec fn view(&self) -> RpcInfoView {
        RpcInfoView { rpc_url: self.rpc_url@, chain_name: self.chain_name@, status: self.status }
    }
}

/// A currency under its name, with the chain that offers it.
#[derive(Debug)]
pub struct CurrencyInfo {
    pub currency: String,
    pub chain_name: String,
    pub kind: TokenKind,
    pub decimals: Decimals,
    pub rpc_url: String,
    pub asset_id: Option<AssetId>,
}

/// [`CurrencyInfo`] with its texts as sequences.
pub struct CurrencyInfoView {
    pub currency: Seq<char>,
    pub chain_name: Seq<char>,
    pub kind: TokenKind,
    pub decimals: Decimals,
    pub rpc_url: Seq<char>,
    pub asset_id: Option<AssetId>,
}

impl View for CurrencyInfo {
    type V = CurrencyInfoView;

    open spec fn view(&self) -> CurrencyInfoView {
        CurrencyInfoView {
            currency: self.currency@,
            chain_name: self.chain_name@,
            kind: self.kind,
            decimals: self.decimals,
            rpc_url: self.rpc_url@,
            asset_id: self.asset_id,
        }
    }
}

impl Clone for CurrencyInfo {
    fn clone(&self) -> (copy: Self)
        ensures
            copy == *self,
    {
        CurrencyInfo {
            currency: self.currency.clone(),
            chain_name: self.chain_name.clone(),
            kind: self.kind,
            decimals: self.decimals,
            rpc_url: self.rpc_url.clone(),
            asset_id: self.asset_id,
        }
    }
}

impl CurrencyInfo {
    /// The properties of this currency, without its name and with the
    /// address prefix left at zero.
    pub fn properties(&self) -> (properties: CurrencyProperties)
        ensures
            properties@ == (CurrencyPropertiesView {
                chain_name: self.chain_name@,
                kind: self.kind,
                decimals: self.decimals,
                rpc_url: self.rpc_url@,
                asset_id: self.asset_id,
                ss58: 0,
            }),
    {
        CurrencyProperties {
            chain_name: self.chain_name.clone(),
            kind: self.kind,
            decimals: self.decimals,
            rpc_url: self.rpc_url.clone(),
            asset_id: self.asset_id,
            ss58: 0,
        }
    }
}

/// What is known of a currency besides its name.
#[derive(Debug)]
pub struct CurrencyProperties {
    pub chain_name: String,
    pub kind: TokenKind,
    pub decimals: Decimals,
    pub rpc_url: String,
    pub asset_id: Option<AssetId>,
    pub ss58: u16,
}

/// [`CurrencyProperties`] with its texts as sequences.
pub struct CurrencyPropertiesView {
    pub chain_name: Seq<char>,
    pub kind: TokenKind,
    pub decimals: Decimals,
    pub rpc_url: Seq<char>,
    pub asset_id: Option<AssetId>,
    pub ss58: u16,
}

impl View for CurrencyProperties {
    type V = CurrencyPropertiesView;

    open spec fn view(&self) -> CurrencyPropertiesView {
        CurrencyPropertiesView {
            chain_name: self.chain_name@,
            kind: self.kind,
            decimals: self.decimals,
            rpc_url: self.rpc_url@,
            asset_id: self.asset_id,
            ss58: self.ss58,
        }
    }
}

impl Clone for CurrencyProperties {
    fn clone(&self) -> (copy: Self)
        ensures
            copy == *self,
    {
        CurrencyProperties {
            chain_name: self.chain_name.clone(),
            kind: self.kind,
            decimals: self.decimals,
            rpc_url: self.rpc_url.clone(),
            asset_id: self.asset_id,
            ss58: self.ss58,
        }
    }
}

impl CurrencyProperties {
    /// These properties under the name `currency`; the address prefix is
    /// not part of the result.
    pub fn info(&self, currency: String) -> (info: CurrencyInfo)
        ensures
            info@ == (CurrencyInfoView {
                currency: currency@,
                chain_name: self.chain_name@,
                kind: self.kind,
                decimals: self.decimals,
                rpc_url: self.rpc_url@,
                asset_id: self.asset_id,
            }),
    {
        CurrencyInfo {
            currency,
            chain_name: self.chain_name.clone(),
            kind: self.kind,
            decimals: self.decimals,
            rpc_url: self.rpc_url.clone(),
            asset_id: self.asset_id,
        }
    }
}

/// Whether a currency is the native token of its chain or an asset on it.
#[derive(Clone, Copy, Debug, PartialEq, Eq, Structural)]
pub enum TokenKind {
    Asset,
    Native,
}

/// The instance of the daemon.
#[derive(Clone, Debug)]
pub struct ServerInfo {
    pub version: String,
    pub instance_id: String,
    pub debug: bool,
    pub kalatori_remark: Option<String>,
}

/// A transaction of an order as it is shown to the merchant.
#[derive(Clone, Debug)]
pub struct TransactionInfo {
    pub finalized_tx: Option<FinalizedTx>,
    pub transaction_bytes: String,
    pub sender: String,
    pub recipient: String,
    pub amount: Amount,
    pub currency: CurrencyInfo,
    pub status: TxStatus,
}

/// Where and when a transaction was finalized.
#[derive(Clone, Debug)]
pub struct FinalizedTx {
    pub block_number: BlockNumber,
    pub position_in_block: ExtrinsicIndex,
    pub timestamp: String,
}

/// How much a transaction moves: everything, or an exact amount in the
/// smallest unit of the currency.
#[derive(Clone, Copy, Debug, PartialEq, Eq, Structural)]
pub enum Amount {
    All,
    Exact(Balance),
}

/// How far a transaction has come.
#[derive(Clone, Copy, Debug, PartialEq, Eq, Structural)]
pub enum TxStatus {
    Pending,
    Finalized,
    Failed,
}

} // verus!
