//! Common objects of the chain interaction.

use crate::account::{address_of, AccountId32};
use crate::chain::tracker::{ChainWatcher, ChainWatcherView};
use crate::database::{TransactionInfoDb, TransactionInfoDbView};
use crate::definitions::Currencies;
use crate::server::definitions::api_v2::{RpcInfo, RpcInfoView};
use crate::database::definitions::Timestamp;
use crate::definitions::find_currency;
use crate::error::{ChainError, ChainErrorView};
use crate::server::definitions::api_v2::{AssetId, CurrencyPropertiesView, OrderInfo};
use crate::server::definitions::Balance;
use vstd::prelude::*;

verus! {

/// The hash that names a block.
#[derive(Clone, Copy, Debug)]
pub struct BlockHash(pub [u8; 32]);

impl View for BlockHash {
    type V = Seq<u8>;

    open spec fn view(&self) -> Seq<u8> {
        self.0@
    }
}

/// Which events of a block are asked for: those of a pallet, of one variant or of all.
#[derive(Debug)]
pub struct EventFilter<'a> {
    pub pallet: &'a str,
    pub optional_event_variant: Option<&'a str>,
}

/// What the rest of the daemon asks of the chains.
#[derive(Debug)]
pub enum ChainRequest {
    WatchAccount(WatchAccount),
    Reap(WatchAccount),
    Shutdown,
}

/// A request to watch the payment account of one order.
#[derive(Debug)]
pub struct WatchAccount {
    pub id: String,
    pub address: AccountId32,
    pub currency: String,
    pub amount: Balance,
    pub recipient: AccountId32,
    pub death: Timestamp,
}

/// What a watcher finds in its inbox.
#[derive(Debug)]
pub enum ChainTrackerRequest {
    WatchAccount(WatchAccount),
    NewBlock(String),
    Reap(WatchAccount),
    Shutdown,
}

/// One watched order.
#[derive(Debug)]
pub struct Invoice {
    pub id: String,
    pub address: AccountId32,
    pub currency: String,
    pub amount: Balance,
    pub recipient: AccountId32,
    pub death: Timestamp,
}

/// An [`Invoice`], or the [`WatchAccount`] it comes from, as
/// mathematical data.
pub struct InvoiceView {
    pub id: Seq<char>,
    pub address: Seq<u8>,
    pub currency: Seq<char>,
    pub amount: u128,
    pub recipient: Seq<u8>,
    pub death: u64,
}

impl View for WatchAccount {
    type V = InvoiceView;

    open spec fn view(&self) -> InvoiceView {
        InvoiceView {
            id: self.id@,
            address: self.address@,
            currency: self.currency@,
            amount: self.amount.0,
            recipient: self.recipient@,
            death: self.death.0,
        }
    }
}

impl View for Invoice {
    type V = InvoiceView;

    open spec fn view(&self) -> InvoiceView {
        InvoiceView {
            id: self.id@,
            address: self.address@,
            currency: self.currency@,
            amount: self.amount.0,
            recipient: self.recipient@,
            death: self.death.0,
        }
    }
}

/// What a watcher asks its surroundings to do. The reads are answered by
/// the event of the same kind; `Receive` by the next message of the
/// inbox, or by silence once the watchdog time has passed.
#[derive(Debug)]
pub enum WatchAction {
    /// Tell the daemon how an endpoint serves.
    Report(RpcInfo),
    /// Open a connection to this endpoint.
    Connect(String),
    /// Read what pins the view of the chain.
    ReadPin,
    /// Publish the currencies that the chain offers.
    ConnectChain(Currencies),
    /// Read these balances at this block.
    ReadBalances(BlockHash, Vec<BalanceQuery>),
    /// Tell the order store that this order is paid.
    OrderPaid(String),
    /// Have the order store keep this transaction of this order.
    RecordTransaction(TransactionInfoDb, String),
    /// Start forwarding finalized blocks into the inbox.
    WatchBlocks,
    /// Wait for the next message, at most this many milliseconds.
    Receive(u64),
    /// Answer the watch request of this order with success.
    Accept(String),
    /// Read the hash of the block of this number.
    ReadBlockHash(String),
    /// Read the runtime version at this block.
    ReadRuntimeVersion(BlockHash),
    /// Read the time and the transfers of this block.
    ReadEvents(BlockHash),
    /// Start the payout of this invoice through this endpoint.
    Payout { rpc: String, invoice: Invoice, watcher: ChainWatcher },
    /// Answer the shutdown request.
    AckShutdown,
    /// Log the error over which the connection is given up.
    Failed(ChainError),
    /// Close the connection.
    Disconnect,
    /// End the watcher.
    Exit,
}

/// [`WatchAction`] as mathematical data.
pub enum WatchActionView {
    Report(RpcInfoView),
    Connect(Seq<char>),
    ReadPin,
    ConnectChain(Seq<(Seq<char>, CurrencyPropertiesView)>),
    ReadBalances(Seq<u8>, Seq<(Seq<u8>, Option<AssetId>)>),
    OrderPaid(Seq<char>),
    RecordTransaction(TransactionInfoDbView, Seq<char>),
    WatchBlocks,
    Receive(u64),
    Accept(Seq<char>),
    ReadBlockHash(Seq<char>),
    ReadRuntimeVersion(Seq<u8>),
    ReadEvents(Seq<u8>),
    Payout { rpc: Seq<char>, invoice: InvoiceView, watcher: ChainWatcherView },
    AckShutdown,
    Failed(ChainErrorView),
    Disconnect,
    Exit,
}

/// The queries of a list, each as mathematical data.
pub open spec fn queries_view(queries: Seq<BalanceQuery>) -> Seq<(Seq<u8>, Option<AssetId>)> {
    Seq::new(queries.len(), |i: int| queries[i]@)
}

impl View for WatchAction {
    type V = WatchActionView;

    open spec fn view(&self) -> WatchActionView {
        match self {
            WatchAction::Report(info) => WatchActionView::Report(info@),
            WatchAction::Connect(endpoint) => WatchActionView::Connect(endpoint@),
            WatchAction::ReadPin => WatchActionView::ReadPin,
            WatchAction::ConnectChain(assets) => WatchActionView::ConnectChain(assets@),
            WatchAction::ReadBalances(block, queries) => WatchActionView::ReadBalances(
                block@,
                queries_view(queries@),
            ),
            WatchAction::OrderPaid(id) => WatchActionView::OrderPaid(id@),
            WatchAction::RecordTransaction(transaction, id) => WatchActionView::RecordTransaction(
                transaction@,
                id@,
            ),
            WatchAction::WatchBlocks => WatchActionView::WatchBlocks,
            WatchAction::Receive(watchdog) => WatchActionView::Receive(*watchdog),
            WatchAction::Accept(id) => WatchActionView::Accept(id@),
            WatchAction::ReadBlockHash(number) => WatchActionView::ReadBlockHash(number@),
            WatchAction::ReadRuntimeVersion(block) => WatchActionView::ReadRuntimeVersion(block@),
            WatchAction::ReadEvents(block) => WatchActionView::ReadEvents(block@),
            WatchAction::Payout { rpc, invoice, watcher } => WatchActionView::Payout {
                rpc: rpc@,
                invoice: invoice@,
                watcher: watcher@,
            },
            WatchAction::AckShutdown => WatchActionView::AckShutdown,
            WatchAction::Failed(error) => WatchActionView::Failed(error@),
            WatchAction::Disconnect => WatchActionView::Disconnect,
            WatchAction::Exit => WatchActionView::Exit,
        }
    }
}

/// The actions of a list, each as mathematical data.
pub open spec fn actions_view(actions: Seq<WatchAction>) -> Seq<WatchActionView> {
    Seq::new(actions.len(), |i: int| actions[i]@)
}

/// Which balance to read: that of `account` in the asset `asset_id`, or
/// in the native token where there is none.
#[derive(Clone, Copy, Debug)]
pub struct BalanceQuery {
    pub account: AccountId32,
    pub asset_id: Option<AssetId>,
}

impl View for BalanceQuery {
    type V = (Seq<u8>, Option<AssetId>);

    open spec fn view(&self) -> (Seq<u8>, Option<AssetId>) {
        (self.account@, self.asset_id)
    }
}

/// One balance as it was read at a block.
#[derive(Clone, Copy, Debug)]
pub struct BalanceEntry {
    pub account: AccountId32,
    pub asset_id: Option<AssetId>,
    pub balance: Balance,
}

/// The balances that were read at one block.
#[derive(Debug)]
pub struct BlockBalances {
    pub entries: Vec<BalanceEntry>,
}

impl View for BlockBalances {
    type V = Seq<(Seq<u8>, Option<AssetId>, u128)>;

    open spec fn view(&self) -> Seq<(Seq<u8>, Option<AssetId>, u128)> {
        Seq::new(
            self.entries@.len(),
            |i: int| (self.entries@[i].account@, self.entries@[i].asset_id, self.entries@[i].balance.0),
        )
    }
}

/// The balance of the first entry at or after `from` that was read for
/// `account` and `asset_id`.
pub open spec fn balance_from(
    balances: Seq<(Seq<u8>, Option<AssetId>, u128)>,
    account: Seq<u8>,
    asset_id: Option<AssetId>,
    from: int,
) -> Option<u128>
    decreases balances.len() - from,
{
    if from < 0 || from >= balances.len() {
        None
    } else if balances[from].0 == account && balances[from].1 == asset_id {
        Some(balances[from].2)
    } else {
        balance_from(balances, account, asset_id, from + 1)
    }
}

/// The balance that was read for `account` and `asset_id`, if any.
pub open spec fn balance_read(
    balances: Seq<(Seq<u8>, Option<AssetId>, u128)>,
    account: Seq<u8>,
    asset_id: Option<AssetId>,
) -> Option<u128> {
    balance_from(balances, account, asset_id, 0)
}

/// The balance query of an invoice among the currencies `assets`: for
/// the invoice's account, in the asset that its currency names or in
/// the native token; an error where the currency is not offered.
pub open spec fn invoice_query(
    invoice: InvoiceView,
    assets: Seq<(Seq<char>, CurrencyPropertiesView)>,
) -> Result<(Seq<u8>, Option<AssetId>), ChainErrorView> {
    match find_currency(assets, invoice.currency) {
        Some(properties) => Ok((invoice.address, properties.asset_id)),
        None => Err(ChainErrorView::InvalidCurrency(invoice.currency)),
    }
}

/// The balance of an invoice as `balances` hold it: the balance read
/// for its query; an error where the currency is not offered, or where
/// no balance was read for the query.
pub open spec fn invoice_balance(
    invoice: InvoiceView,
    assets: Seq<(Seq<char>, CurrencyPropertiesView)>,
    balances: Seq<(Seq<u8>, Option<AssetId>, u128)>,
) -> Result<u128, ChainErrorView> {
    match invoice_query(invoice, assets) {
        Ok(query) => match balance_read(balances, query.0, query.1) {
            Some(balance) => Ok(balance),
            None => Err(ChainErrorView::BalanceNotFound),
        },
        Err(e) => Err(e),
    }
}

/// Whether an invoice is paid as `balances` hold it: its balance is at
/// least the amount it asks for. Errors are those of the balance.
pub open spec fn invoice_paid(
    invoice: InvoiceView,
    assets: Seq<(Seq<char>, CurrencyPropertiesView)>,
    balances: Seq<(Seq<u8>, Option<AssetId>, u128)>,
) -> Result<bool, ChainErrorView> {
    match invoice_balance(invoice, assets, balances) {
        Ok(balance) => Ok(balance >= invoice.amount),
        Err(e) => Err(e),
    }
}

impl WatchAccount {
    /// The watch request for the order `id`: it watches the order's
    /// payment account for the order's amount in the order's currency,
    /// until the order's death. Fails exactly where the payment account is
    /// no valid SS58 text.
    pub fn new(id: String, order: OrderInfo, recipient: AccountId32) -> (request: Result<
        WatchAccount,
        ChainError,
    >)
        ensures
            match request {
                Ok(watch) => address_of(order.payment_account@) matches Some((address, _))
                    && watch@ == (InvoiceView {
                    id: id@,
                    address,
                    currency: order.currency.currency@,
                    amount: order.amount.0,
                    recipient: recipient@,
                    death: order.death.0,
                }),
                Err(e) => address_of(order.payment_account@) is None && e@
                    == ChainErrorView::InvoiceAccount,
            },
    {
        match AccountId32::from_base58_string(order.payment_account.as_str()) {
            Ok((address, _)) => Ok(
                WatchAccount {
                    id,
                    address,
                    currency: order.currency.currency,
                    amount: order.amount,
                    recipient,
                    death: order.death,
                },
            ),
            Err(e) => Err(ChainError::InvoiceAccount(e)),
        }
    }
}

impl BlockBalances {
    /// The balance that was read for `query`, if any.
    pub fn get(&self, query: &BalanceQuery) -> (balance: Option<Balance>)
        ensures
            match balance {
                Some(amount) => balance_read(self@, query.account@, query.asset_id) == Some(amount.0),
                None => balance_read(self@, query.account@, query.asset_id) is None,
            },
    {
        let mut i: usize = 0;
        while i < self.entries.len()
            invariant
                i <= self.entries@.len(),
                self@.len() == self.entries@.len(),
                balance_read(self@, query.account@, query.asset_id) == balance_from(
                    self@,
                    query.account@,
                    query.asset_id,
                    i as int,
                ),
            decreases self.entries@.len() - i,
        {
            let entry = &self.entries[i];
            let same_asset = match (entry.asset_id, query.asset_id) {
                (Some(a), Some(b)) => a == b,
                (None, None) => true,
                _ => false,
            };
            if same_asset && entry.account.same(&query.account) {
                return Some(entry.balance);
            }
            i += 1;
        }
        None
    }
}

impl Clone for Invoice {
    fn clone(&self) -> (copy: Self)
        ensures
            copy == *self,
    {
        Invoice {
            id: self.id.clone(),
            address: self.address,
            currency: self.currency.clone(),
            amount: self.amount,
            recipient: self.recipient,
            death: self.death,
        }
    }
}

impl Invoice {
    /// The invoice that a watch request asks for.
    pub fn from_request(watch_account: WatchAccount) -> (invoice: Self)
        ensures
            invoice@ == watch_account@,
    {
        Invoice {
            id: watch_account.id,
            address: watch_account.address,
            currency: watch_account.currency,
            amount: watch_account.amount,
            recipient: watch_account.recipient,
            death: watch_account.death,
        }
    }

    /// Which balance decides whether this invoice is paid.
    pub fn query(&self, chain_watcher: &ChainWatcher) -> (query: Result<BalanceQuery, ChainError>)
        ensures
            match query {
                Ok(q) => invoice_query(self@, chain_watcher.assets@) == Ok::<_, ChainErrorView>(q@),
                Err(e) => invoice_query(self@, chain_watcher.assets@) == Err::<
                    (Seq<u8>, Option<AssetId>),
                    _,
                >(e@),
            },
    {
        match chain_watcher.assets.get(&self.currency) {
            Some(currency) => Ok(BalanceQuery { account: self.address, asset_id: currency.asset_id }),
            None => Err(ChainError::InvalidCurrency(self.currency.clone())),
        }
    }

    /// The balance of this invoice's account in its currency, as it was
    /// read at a block.
    pub fn balance(&self, chain_watcher: &ChainWatcher, block: &BlockBalances) -> (balance: Result<
        Balance,
        ChainError,
    >)
        ensures
            match balance {
                Ok(amount) => invoice_balance(self@, chain_watcher.assets@, block@) == Ok::<
                    _,
                    ChainErrorView,
                >(amount.0),
                Err(e) => invoice_balance(self@, chain_watcher.assets@, block@) == Err::<u128, _>(e@),
            },
    {
        match self.query(chain_watcher) {
            Ok(query) => match block.get(&query) {
                Some(amount) => Ok(amount),
                None => Err(ChainError::BalanceNotFound),
            },
            Err(e) => Err(e),
        }
    }

    /// Whether this invoice is paid at a block: whether its balance there
    /// is at least its amount, compared exactly on the smallest units.
    pub fn check(&self, chain_watcher: &ChainWatcher, block: &BlockBalances) -> (paid: Result<
        bool,
        ChainError,
    >)
        ensures
            match paid {
                Ok(enough) => invoice_paid(self@, chain_watcher.assets@, block@) == Ok::<
                    _,
                    ChainErrorView,
                >(enough),
                Err(e) => invoice_paid(self@, chain_watcher.assets@, block@) == Err::<bool, _>(e@),
            },
            paid matches Ok(enough) ==> invoice_balance(self@, chain_watcher.assets@, block@)
                matches Ok(amount) && (enough <==> amount >= self.amount.0),
    {
        match self.balance(chain_watcher, block) {
            Ok(amount) => Ok(amount >= self.amount),
            Err(e) => Err(e),
        }
    }
}

} // verus!
