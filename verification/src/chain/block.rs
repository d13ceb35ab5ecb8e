//! What one finalized block means for the watched invoices.

use crate::account::{ss58_text, AccountId32};
use crate::chain::definitions::{
    actions_view, balance_read, invoice_paid, invoice_query, queries_view, BalanceQuery,
    BlockBalances, BlockHash, Invoice, InvoiceView, WatchAction, WatchActionView,
};
use crate::chain::tracker::ChainWatcher;
use crate::chain::utils::{
    events_view, parse_transfer_event, transfer_touching, TransferEvent, TransferEventView,
};
use crate::chain::watched::{ids_distinct, invoices_view, watching, Watched};
use crate::database::definitions::Timestamp;
use crate::database::{
    FinalizedTxDb, TransactionInfoDb, TransactionInfoDbInner, TransactionInfoDbView, TxKind,
};
use crate::encoding::{encode_prefixed, hex_prefixed, rfc3339, rfc3339_text, RFC3339_MAX_MILLIS};
use crate::error::{ChainError, ChainErrorView};
use crate::server::definitions::api_v2::{Amount, AssetId, CurrencyPropertiesView, TxStatus};
use crate::server::definitions::Balance;
use vstd::prelude::*;

verus! {

/// The address prefix under which the parties of a transaction are
/// written down.
pub const RECORD_PREFIX: u16 = 42;

/// A finalized block as it was read: its number and hash, the time it
/// carries, the time at which it was looked at, its transfers, and the
/// balances that were read at it.
#[derive(Debug)]
pub struct Block {
    pub number: String,
    pub hash: BlockHash,
    pub timestamp: Timestamp,
    pub now: Timestamp,
    pub events: Vec<TransferEvent>,
    pub balances: BlockBalances,
}

/// [`Block`] as mathematical data.
pub struct BlockView {
    pub number: Seq<char>,
    pub hash: Seq<u8>,
    pub timestamp: u64,
    pub now: u64,
    pub events: Seq<TransferEventView>,
    pub balances: Seq<(Seq<u8>, Option<AssetId>, u128)>,
}

impl View for Block {
    type V = BlockView;

    open spec fn view(&self) -> BlockView {
        BlockView {
            number: self.number@,
            hash: self.hash@,
            timestamp: self.timestamp.0,
            now: self.now.0,
            events: events_view(self.events@),
            balances: self.balances@,
        }
    }
}

/// What a block decides of one invoice: whether its order is paid, and
/// whether the invoice leaves the watched set.
#[derive(Clone, Copy, Debug, PartialEq, Eq, Structural)]
pub struct Verdict {
    pub paid: bool,
    pub dropped: bool,
}

/// Whether one of the transfers pays into `account`.
pub open spec fn receives(account: Seq<u8>, events: Seq<TransferEventView>) -> bool {
    exists|i: int| 0 <= i < events.len() && (#[trigger] events[i]).to == account
}

/// Whether one of the transfers that touch `account` came without its
/// extrinsic.
pub open spec fn lacks_extrinsic(account: Seq<u8>, events: Seq<TransferEventView>) -> bool {
    exists|i: int|
        0 <= i < events.len() && transfer_touching(account, #[trigger] events[i]) is Some
            && events[i].extrinsic is None
}

/// Whether the balance of an invoice is due for a look: a transfer pays
/// into its account, or its death has come.
pub open spec fn is_due(invoice: InvoiceView, events: Seq<TransferEventView>, now: u64) -> bool {
    receives(invoice.address, events) || invoice.death <= now
}

/// What a block decides of one invoice. A transfer that touches the
/// account without its extrinsic is an error. An invoice that is not due
/// stays as it is. One that is due is paid where its balance covers its
/// amount, and is dropped where it is paid or its death has come; the
/// errors of its balance are errors here.
pub open spec fn verdict(
    invoice: InvoiceView,
    assets: Seq<(Seq<char>, CurrencyPropertiesView)>,
    block: BlockView,
) -> Result<Verdict, ChainErrorView> {
    if lacks_extrinsic(invoice.address, block.events) {
        Err(ChainErrorView::TransferEventNoExtrinsic)
    } else if is_due(invoice, block.events, block.now) {
        match invoice_paid(invoice, assets, block.balances) {
            Ok(paid) => Ok(Verdict { paid, dropped: paid || invoice.death <= block.now }),
            Err(e) => Err(e),
        }
    } else {
        Ok(Verdict { paid: false, dropped: false })
    }
}

/// The record of a transfer between a watched account and another
/// party: the extrinsic in prefixed hexadecimal, its place in the chain,
/// the time of the block in RFC 3339, sender and recipient as SS58 text
/// under [`RECORD_PREFIX`], the exact amount, and the invoice's
/// currency; finalized.
pub open spec fn record_view(
    invoice: InvoiceView,
    kind: TxKind,
    other: Seq<u8>,
    amount: u128,
    position: u32,
    bytes: Seq<u8>,
    number: Seq<char>,
    timestamp: u64,
) -> TransactionInfoDbView {
    TransactionInfoDbView {
        transaction_bytes: hex_prefixed(bytes),
        finalized_tx: Some((number, position)),
        finalized_tx_timestamp: Some(rfc3339_text(timestamp)),
        sender: ss58_text(if kind == TxKind::Payment { other } else { invoice.address }, RECORD_PREFIX),
        recipient: ss58_text(
            if kind == TxKind::Payment { invoice.address } else { other },
            RECORD_PREFIX,
        ),
        amount: Amount::Exact(Balance(amount)),
        currency: invoice.currency,
        status: TxStatus::Finalized,
        kind,
    }
}

/// The record that a transfer leaves with an invoice: none where it does
/// not touch the invoice's account or has no extrinsic.
pub open spec fn record_of(
    invoice: InvoiceView,
    event: TransferEventView,
    number: Seq<char>,
    timestamp: u64,
) -> Option<TransactionInfoDbView> {
    match (transfer_touching(invoice.address, event), event.extrinsic) {
        (Some((kind, other, amount)), Some((position, bytes))) => Some(
            record_view(invoice, kind, other, amount, position, bytes, number, timestamp),
        ),
        _ => None,
    }
}

/// The records that the first `n` transfers of a block leave with an
/// invoice, in the order of the transfers.
pub open spec fn records_upto(invoice: InvoiceView, block: BlockView, n: int) -> Seq<WatchActionView>
    decreases n,
{
    if n <= 0 {
        Seq::empty()
    } else {
        let before = records_upto(invoice, block, n - 1);
        match record_of(invoice, block.events[n - 1], block.number, block.timestamp) {
            Some(record) => before.push(WatchActionView::RecordTransaction(record, invoice.id)),
            None => before,
        }
    }
}

/// What a block asks to be done for one invoice: first the notice that
/// its order is paid, where it is; then the records of the transfers
/// that touch its account.
pub open spec fn invoice_actions(
    invoice: InvoiceView,
    assets: Seq<(Seq<char>, CurrencyPropertiesView)>,
    block: BlockView,
) -> Seq<WatchActionView> {
    let notice = if verdict(invoice, assets, block) matches Ok(v) && v.paid {
        seq![WatchActionView::OrderPaid(invoice.id)]
    } else {
        Seq::empty()
    };
    notice + records_upto(invoice, block, block.events.len() as int)
}

/// The first error among the verdicts of the first `n` invoices.
pub open spec fn fault_upto(
    watched: Seq<InvoiceView>,
    assets: Seq<(Seq<char>, CurrencyPropertiesView)>,
    block: BlockView,
    n: int,
) -> Option<ChainErrorView>
    decreases n,
{
    if n <= 0 {
        None
    } else {
        match fault_upto(watched, assets, block, n - 1) {
            Some(e) => Some(e),
            None => match verdict(watched[n - 1], assets, block) {
                Ok(_) => None,
                Err(e) => Some(e),
            },
        }
    }
}

/// Why a block cannot be settled: its time lies beyond RFC 3339, or else
/// the first error among the verdicts of the invoices.
pub open spec fn block_fault(
    watched: Seq<InvoiceView>,
    assets: Seq<(Seq<char>, CurrencyPropertiesView)>,
    block: BlockView,
) -> Option<ChainErrorView> {
    if block.timestamp > RFC3339_MAX_MILLIS {
        Some(ChainErrorView::TimestampOutOfRange(block.timestamp))
    } else {
        fault_upto(watched, assets, block, watched.len() as int)
    }
}

/// What a block asks to be done for the first `n` invoices, invoice by
/// invoice.
pub open spec fn actions_upto(
    watched: Seq<InvoiceView>,
    assets: Seq<(Seq<char>, CurrencyPropertiesView)>,
    block: BlockView,
    n: int,
) -> Seq<WatchActionView>
    decreases n,
{
    if n <= 0 {
        Seq::empty()
    } else {
        actions_upto(watched, assets, block, n - 1) + invoice_actions(watched[n - 1], assets, block)
    }
}

/// Those of the first `n` invoices that a block leaves in the watched
/// set, in their order.
pub open spec fn survivors_upto(
    watched: Seq<InvoiceView>,
    assets: Seq<(Seq<char>, CurrencyPropertiesView)>,
    block: BlockView,
    n: int,
) -> Seq<InvoiceView>
    decreases n,
{
    if n <= 0 {
        Seq::empty()
    } else {
        let before = survivors_upto(watched, assets, block, n - 1);
        if verdict(watched[n - 1], assets, block) matches Ok(v) && v.dropped {
            before
        } else {
            before.push(watched[n - 1])
        }
    }
}

/// What settling a block asks to be done.
pub open spec fn block_actions(
    watched: Seq<InvoiceView>,
    assets: Seq<(Seq<char>, CurrencyPropertiesView)>,
    block: BlockView,
) -> Seq<WatchActionView> {
    actions_upto(watched, assets, block, watched.len() as int)
}

/// The invoices that stay watched after a block.
pub open spec fn survivors(
    watched: Seq<InvoiceView>,
    assets: Seq<(Seq<char>, CurrencyPropertiesView)>,
    block: BlockView,
) -> Seq<InvoiceView> {
    survivors_upto(watched, assets, block, watched.len() as int)
}

/// The balance queries of those of the first `n` invoices that are due,
/// in their order; the error of the first due invoice whose currency is
/// not offered.
pub open spec fn due_queries_upto(
    watched: Seq<InvoiceView>,
    assets: Seq<(Seq<char>, CurrencyPropertiesView)>,
    events: Seq<TransferEventView>,
    now: u64,
    n: int,
) -> Result<Seq<(Seq<u8>, Option<AssetId>)>, ChainErrorView>
    decreases n,
{
    if n <= 0 {
        Ok(Seq::empty())
    } else {
        match due_queries_upto(watched, assets, events, now, n - 1) {
            Err(e) => Err(e),
            Ok(queries) => if is_due(watched[n - 1], events, now) {
                match invoice_query(watched[n - 1], assets) {
                    Ok(query) => Ok(queries.push(query)),
                    Err(e) => Err(e),
                }
            } else {
                Ok(queries)
            },
        }
    }
}

/// The balance queries that settling a block needs answered.
pub open spec fn due_queries(
    watched: Seq<InvoiceView>,
    assets: Seq<(Seq<char>, CurrencyPropertiesView)>,
    events: Seq<TransferEventView>,
    now: u64,
) -> Result<Seq<(Seq<u8>, Option<AssetId>)>, ChainErrorView> {
    due_queries_upto(watched, assets, events, now, watched.len() as int)
}

/// The balance queries of the first `n` invoices, in their order; the
/// error of the first invoice whose currency is not offered.
pub open spec fn all_queries_upto(
    watched: Seq<InvoiceView>,
    assets: Seq<(Seq<char>, CurrencyPropertiesView)>,
    n: int,
) -> Result<Seq<(Seq<u8>, Option<AssetId>)>, ChainErrorView>
    decreases n,
{
    if n <= 0 {
        Ok(Seq::empty())
    } else {
        match all_queries_upto(watched, assets, n - 1) {
            Err(e) => Err(e),
            Ok(queries) => match invoice_query(watched[n - 1], assets) {
                Ok(query) => Ok(queries.push(query)),
                Err(e) => Err(e),
            },
        }
    }
}

/// The balance queries of all invoices.
pub open spec fn all_queries(
    watched: Seq<InvoiceView>,
    assets: Seq<(Seq<char>, CurrencyPropertiesView)>,
) -> Result<Seq<(Seq<u8>, Option<AssetId>)>, ChainErrorView> {
    all_queries_upto(watched, assets, watched.len() as int)
}

/// The first error among the balances of the first `n` invoices.
pub open spec fn paid_fault_upto(
    watched: Seq<InvoiceView>,
    assets: Seq<(Seq<char>, CurrencyPropertiesView)>,
    balances: Seq<(Seq<u8>, Option<AssetId>, u128)>,
    n: int,
) -> Option<ChainErrorView>
    decreases n,
{
    if n <= 0 {
        None
    } else {
        match paid_fault_upto(watched, assets, balances, n - 1) {
            Some(e) => Some(e),
            None => match invoice_paid(watched[n - 1], assets, balances) {
                Ok(_) => None,
                Err(e) => Some(e),
            },
        }
    }
}

/// The notices for those of the first `n` invoices that are paid, in
/// their order.
pub open spec fn paid_notices_upto(
    watched: Seq<InvoiceView>,
    assets: Seq<(Seq<char>, CurrencyPropertiesView)>,
    balances: Seq<(Seq<u8>, Option<AssetId>, u128)>,
    n: int,
) -> Seq<WatchActionView>
    decreases n,
{
    if n <= 0 {
        Seq::empty()
    } else {
        let before = paid_notices_upto(watched, assets, balances, n - 1);
        if invoice_paid(watched[n - 1], assets, balances) == Ok::<bool, ChainErrorView>(true) {
            before.push(WatchActionView::OrderPaid(watched[n - 1].id))
        } else {
            before
        }
    }
}

/// Those of the first `n` invoices that are not paid, in their order.
pub open spec fn unpaid_upto(
    watched: Seq<InvoiceView>,
    assets: Seq<(Seq<char>, CurrencyPropertiesView)>,
    balances: Seq<(Seq<u8>, Option<AssetId>, u128)>,
    n: int,
) -> Seq<InvoiceView>
    decreases n,
{
    if n <= 0 {
        Seq::empty()
    } else {
        let before = unpaid_upto(watched, assets, balances, n - 1);
        if invoice_paid(watched[n - 1], assets, balances) == Ok::<bool, ChainErrorView>(true) {
            before
        } else {
            before.push(watched[n - 1])
        }
    }
}

/// Every unpaid invoice is one of the invoices, and the unpaid ones
/// keep their order: so their order ids stay distinct.
pub proof fn lemma_unpaid_upto(
    watched: Seq<InvoiceView>,
    assets: Seq<(Seq<char>, CurrencyPropertiesView)>,
    balances: Seq<(Seq<u8>, Option<AssetId>, u128)>,
    n: int,
) -> (at: Seq<int>)
    requires
        0 <= n <= watched.len(),
    ensures
        at.len() == unpaid_upto(watched, assets, balances, n).len(),
        forall|a: int|
            0 <= a < at.len() ==> 0 <= #[trigger] at[a] < n && unpaid_upto(watched, assets, balances, n)[a]
                == watched[at[a]] && invoice_paid(watched[at[a]], assets, balances) != Ok::<
                bool,
                ChainErrorView,
            >(true),
        forall|a: int, b: int| 0 <= a < b < at.len() ==> #[trigger] at[a] < #[trigger] at[b],
        ids_distinct(watched) ==> ids_distinct(unpaid_upto(watched, assets, balances, n)),
    decreases n,
{
    if n <= 0 {
        Seq::empty()
    } else {
        let before = lemma_unpaid_upto(watched, assets, balances, n - 1);
        let stayed = unpaid_upto(watched, assets, balances, n);
        if invoice_paid(watched[n - 1], assets, balances) == Ok::<bool, ChainErrorView>(true) {
            before
        } else {
            let at = before.push(n - 1);
            if ids_distinct(watched) {
                assert forall|a: int, b: int| 0 <= a < b < stayed.len() implies (
                #[trigger] stayed[a]).id != (#[trigger] stayed[b]).id by {
                    assert(stayed[a] == watched[at[a]]);
                    assert(stayed[b] == watched[at[b]]);
                    assert(at[a] < at[b]);
                }
            }
            at
        }
    }
}

/// Once the balances of the first `n` invoices hold an error, that
/// error stays the first one however many more invoices are looked at.
pub proof fn lemma_paid_fault_stays(
    watched: Seq<InvoiceView>,
    assets: Seq<(Seq<char>, CurrencyPropertiesView)>,
    balances: Seq<(Seq<u8>, Option<AssetId>, u128)>,
    n: int,
    m: int,
)
    requires
        0 <= n <= m,
        paid_fault_upto(watched, assets, balances, n) is Some,
    ensures
        paid_fault_upto(watched, assets, balances, m) == paid_fault_upto(watched, assets, balances, n),
    decreases m - n,
{
    if n < m {
        lemma_paid_fault_stays(watched, assets, balances, n, m - 1);
    }
}

/// Once the queries of the first `n` invoices fail, they fail with the
/// same error however many more invoices are looked at.
pub proof fn lemma_all_queries_fail(
    watched: Seq<InvoiceView>,
    assets: Seq<(Seq<char>, CurrencyPropertiesView)>,
    n: int,
    m: int,
)
    requires
        0 <= n <= m,
        all_queries_upto(watched, assets, n) is Err,
    ensures
        all_queries_upto(watched, assets, m) == all_queries_upto(watched, assets, n),
    decreases m - n,
{
    if n < m {
        lemma_all_queries_fail(watched, assets, n, m - 1);
    }
}

/// Every survivor is one of the invoices, and the survivors keep their
/// order: so their order ids stay distinct.
pub proof fn lemma_survivors_upto(
    watched: Seq<InvoiceView>,
    assets: Seq<(Seq<char>, CurrencyPropertiesView)>,
    block: BlockView,
    n: int,
) -> (at: Seq<int>)
    requires
        0 <= n <= watched.len(),
    ensures
        at.len() == survivors_upto(watched, assets, block, n).len(),
        forall|a: int|
            0 <= a < at.len() ==> 0 <= #[trigger] at[a] < n && survivors_upto(watched, assets, block, n)[a]
                == watched[at[a]] && !(verdict(watched[at[a]], assets, block) matches Ok(v)
                && v.dropped),
        forall|a: int, b: int| 0 <= a < b < at.len() ==> #[trigger] at[a] < #[trigger] at[b],
        forall|j: int|
            0 <= j < n && !(verdict(#[trigger] watched[j], assets, block) matches Ok(v) && v.dropped)
                ==> exists|a: int| 0 <= a < at.len() && #[trigger] at[a] == j,
        ids_distinct(watched) ==> ids_distinct(survivors_upto(watched, assets, block, n)),
    decreases n,
{
    if n <= 0 {
        Seq::empty()
    } else {
        let before = lemma_survivors_upto(watched, assets, block, n - 1);
        let stayed = survivors_upto(watched, assets, block, n);
        if verdict(watched[n - 1], assets, block) matches Ok(v) && v.dropped {
            before
        } else {
            let at = before.push(n - 1);
            assert(at[before.len() as int] == n - 1);
            assert forall|j: int|
                0 <= j < n && !(verdict(#[trigger] watched[j], assets, block) matches Ok(v)
                    && v.dropped) implies exists|a: int| 0 <= a < at.len() && #[trigger] at[a] == j by {
                if j < n - 1 {
                    let a = choose|a: int| 0 <= a < before.len() && #[trigger] before[a] == j;
                    assert(at[a] == j);
                }
            }
            if ids_distinct(watched) {
                assert forall|a: int, b: int| 0 <= a < b < stayed.len() implies (
                #[trigger] stayed[a]).id != (#[trigger] stayed[b]).id by {
                    assert(stayed[a] == watched[at[a]]);
                    assert(stayed[b] == watched[at[b]]);
                    assert(at[a] < at[b]);
                }
            }
            at
        }
    }
}

impl Invoice {
    /// What `block` decides of this invoice.
    pub fn verdict(&self, chain_watcher: &ChainWatcher, block: &Block) -> (decided: Result<
        Verdict,
        ChainError,
    >)
        ensures
            match decided {
                Ok(v) => verdict(self@, chain_watcher.assets@, block@) == Ok::<_, ChainErrorView>(v),
                Err(e) => verdict(self@, chain_watcher.assets@, block@) == Err::<Verdict, _>(e@),
            },
    {
        let (paid_into, lacking) = self.scan(&block.events);
        if lacking {
            return Err(ChainError::TransferEventNoExtrinsic);
        }
        let dead = self.death.0 <= block.now.0;
        if paid_into || dead {
            match self.check(chain_watcher, &block.balances) {
                Ok(paid) => Ok(Verdict { paid, dropped: paid || dead }),
                Err(e) => Err(e),
            }
        } else {
            Ok(Verdict { paid: false, dropped: false })
        }
    }

    /// Whether a transfer pays into this invoice's account, and whether
    /// one that touches it lacks its extrinsic.
    fn scan(&self, events: &Vec<TransferEvent>) -> (seen: (bool, bool))
        ensures
            seen.0 == receives(self@.address, events_view(events@)),
            seen.1 == lacks_extrinsic(self@.address, events_view(events@)),
    {
        let mut paid_into = false;
        let mut lacking = false;
        let mut k: usize = 0;
        let ghost all = events_view(events@);
        let ghost account = self@.address;
        while k < events.len()
            invariant
                k <= events@.len(),
                all == events_view(events@),
                account == self@.address,
                paid_into == exists|i: int| 0 <= i < k && (#[trigger] all[i]).to == account,
                lacking == exists|i: int|
                    0 <= i < k && transfer_touching(account, #[trigger] all[i]) is Some
                        && all[i].extrinsic is None,
            decreases events@.len() - k,
        {
            let event = &events[k];
            assert(all[k as int] == event@);
            if event.to.same(&self.address) {
                paid_into = true;
            }
            if event.extrinsic.is_none() && parse_transfer_event(&self.address, event).is_some() {
                lacking = true;
            }
            k += 1;
        }
        (paid_into, lacking)
    }

    /// Whether the balance of this invoice is due for a look.
    pub fn is_due(&self, events: &Vec<TransferEvent>, now: Timestamp) -> (due: bool)
        ensures
            due == is_due(self@, events_view(events@), now.0),
    {
        let (paid_into, _) = self.scan(events);
        paid_into || self.death.0 <= now.0
    }

    /// The record of a transfer between this invoice's account and
    /// `other`.
    fn record(
        &self,
        kind: TxKind,
        other: &AccountId32,
        amount: Balance,
        position: u32,
        bytes: &Vec<u8>,
        number: &String,
        timestamp: Timestamp,
    ) -> (record: TransactionInfoDb)
        requires
            timestamp.0 <= RFC3339_MAX_MILLIS,
        ensures
            record@ == record_view(
                self@,
                kind,
                other@,
                amount.0,
                position,
                bytes@,
                number@,
                timestamp.0,
            ),
    {
        let own = self.address.to_base58_string(RECORD_PREFIX);
        let their = other.to_base58_string(RECORD_PREFIX);
        let (sender, recipient) = match kind {
            TxKind::Payment => (their, own),
            TxKind::Withdrawal => (own, their),
        };
        TransactionInfoDb {
            transaction_bytes: encode_prefixed(bytes),
            inner: TransactionInfoDbInner {
                finalized_tx: Some(
                    FinalizedTxDb { block_number: number.clone(), position_in_block: position },
                ),
                finalized_tx_timestamp: Some(rfc3339(timestamp.0)),
                sender,
                recipient,
                amount: Amount::Exact(amount),
                currency: self.currency.clone(),
                status: TxStatus::Finalized,
                kind,
            },
        }
    }

    /// Appends to `actions` the records that the transfers of `block`
    /// leave with this invoice.
    fn push_records(&self, block: &Block, actions: &mut Vec<WatchAction>)
        requires
            block.timestamp.0 <= RFC3339_MAX_MILLIS,
        ensures
            actions_view(final(actions)@) == actions_view(old(actions)@) + records_upto(
                self@,
                block@,
                block.events@.len() as int,
            ),
    {
        let ghost start = actions_view(actions@);
        let mut k: usize = 0;
        assert(actions_view(actions@) =~= start + records_upto(self@, block@, 0));
        while k < block.events.len()
            invariant
                k <= block.events@.len(),
                block.timestamp.0 <= RFC3339_MAX_MILLIS,
                actions_view(actions@) == start + records_upto(self@, block@, k as int),
            decreases block.events@.len() - k,
        {
            let event = &block.events[k];
            assert(block@.events[k as int] == event@);
            let ghost had = actions_view(actions@);
            if let Some((kind, other, amount)) = parse_transfer_event(&self.address, event) {
                if let Some((position, bytes)) = &event.extrinsic {
                    let record = self.record(
                        kind,
                        &other,
                        amount,
                        *position,
                        bytes,
                        &block.number,
                        block.timestamp,
                    );
                    let ghost made = WatchActionView::RecordTransaction(record@, self.id@);
                    actions.push(WatchAction::RecordTransaction(record, self.id.clone()));
                    assert(actions_view(actions@) =~= had.push(made));
                }
            }
            assert(actions_view(actions@) =~= start + records_upto(self@, block@, k + 1));
            k += 1;
        }
    }
}

impl ChainWatcher {
    /// The balance queries that settling a block needs answered: one for
    /// each invoice that is due, in the order of the invoices. Fails with
    /// the error of the first due invoice whose currency is not offered.
    pub fn due_queries(&self, watched: &Watched, events: &Vec<TransferEvent>, now: Timestamp) -> (queries:
        Result<Vec<BalanceQuery>, ChainError>)
        ensures
            match queries {
                Ok(list) => due_queries(watched@, self.assets@, events_view(events@), now.0) == Ok::<
                    _,
                    ChainErrorView,
                >(queries_view(list@)),
                Err(e) => due_queries(watched@, self.assets@, events_view(events@), now.0) == Err::<
                    Seq<(Seq<u8>, Option<AssetId>)>,
                    _,
                >(e@),
            },
    {
        let mut list: Vec<BalanceQuery> = Vec::new();
        let mut i: usize = 0;
        assert(queries_view(list@) =~= Seq::empty());
        while i < watched.len()
            invariant
                i <= watched@.len(),
                due_queries_upto(watched@, self.assets@, events_view(events@), now.0, i as int) == Ok::<
                    _,
                    ChainErrorView,
                >(queries_view(list@)),
            decreases watched@.len() - i,
        {
            let invoice = watched.at(i);
            if invoice.is_due(events, now) {
                let ghost had = queries_view(list@);
                match invoice.query(self) {
                    Ok(query) => {
                        list.push(query);
                        assert(queries_view(list@) =~= had.push(query@));
                    },
                    Err(e) => {
                        proof {
                            lemma_due_queries_fail(
                                watched@,
                                self.assets@,
                                events_view(events@),
                                now.0,
                                i as int + 1,
                                watched@.len() as int,
                            );
                        }
                        return Err(e);
                    },
                }
            }
            i += 1;
        }
        Ok(list)
    }

    /// The balance queries of all watched invoices, in their order. Fails
    /// with the error of the first invoice whose currency is not offered.
    pub fn all_queries(&self, watched: &Watched) -> (queries: Result<Vec<BalanceQuery>, ChainError>)
        ensures
            match queries {
                Ok(list) => all_queries(watched@, self.assets@) == Ok::<_, ChainErrorView>(
                    queries_view(list@),
                ),
                Err(e) => all_queries(watched@, self.assets@) == Err::<
                    Seq<(Seq<u8>, Option<AssetId>)>,
                    _,
                >(e@),
            },
    {
        let mut list: Vec<BalanceQuery> = Vec::new();
        let mut i: usize = 0;
        assert(queries_view(list@) =~= Seq::empty());
        while i < watched.len()
            invariant
                i <= watched@.len(),
                all_queries_upto(watched@, self.assets@, i as int) == Ok::<_, ChainErrorView>(
                    queries_view(list@),
                ),
            decreases watched@.len() - i,
        {
            let ghost had = queries_view(list@);
            match watched.at(i).query(self) {
                Ok(query) => {
                    list.push(query);
                    assert(queries_view(list@) =~= had.push(query@));
                },
                Err(e) => {
                    proof {
                        lemma_all_queries_fail(
                            watched@,
                            self.assets@,
                            i as int + 1,
                            watched@.len() as int,
                        );
                    }
                    return Err(e);
                },
            }
            i += 1;
        }
        Ok(list)
    }

    /// Looks at every watched invoice with the balances read at a block,
    /// drops the paid ones and lists the notices for them. Where a
    /// balance cannot be had, nothing changes and nothing is asked for.
    pub fn drop_paid(&self, watched: &mut Watched, balances: &BlockBalances) -> (dropped: Result<
        Vec<WatchAction>,
        ChainError,
    >)
        ensures
            final(watched).wf(),
            match dropped {
                Ok(actions) => paid_fault_upto(
                    old(watched)@,
                    self.assets@,
                    balances@,
                    old(watched)@.len() as int,
                ) is None && actions_view(actions@) == paid_notices_upto(
                    old(watched)@,
                    self.assets@,
                    balances@,
                    old(watched)@.len() as int,
                ) && final(watched)@ == unpaid_upto(
                    old(watched)@,
                    self.assets@,
                    balances@,
                    old(watched)@.len() as int,
                ),
                Err(e) => paid_fault_upto(
                    old(watched)@,
                    self.assets@,
                    balances@,
                    old(watched)@.len() as int,
                ) == Some(e@) && final(watched)@ == old(watched)@,
            },
    {
        proof {
            use_type_invariant(&*watched);
        }
        let ghost before = watched@;
        let mut actions: Vec<WatchAction> = Vec::new();
        let mut kept: Vec<Invoice> = Vec::new();
        let mut i: usize = 0;
        assert(actions_view(actions@) =~= Seq::empty());
        assert(invoices_view(kept@) =~= Seq::<InvoiceView>::empty());
        while i < watched.len()
            invariant
                i <= watched@.len(),
                watched@ == before,
                watched.wf(),
                paid_fault_upto(before, self.assets@, balances@, i as int) is None,
                actions_view(actions@) == paid_notices_upto(before, self.assets@, balances@, i as int),
                invoices_view(kept@) == unpaid_upto(
                    before,
                    self.assets@,
                    balances@,
                    i as int,
                ),
            decreases watched@.len() - i,
        {
            let invoice = watched.at(i);
            let ghost had = actions_view(actions@);
            let ghost stayed = invoices_view(kept@);
            match invoice.check(self, balances) {
                Err(e) => {
                    proof {
                        lemma_paid_fault_stays(
                            before,
                            self.assets@,
                            balances@,
                            i as int + 1,
                            before.len() as int,
                        );
                    }
                    return Err(e);
                },
                Ok(true) => {
                    actions.push(WatchAction::OrderPaid(invoice.id.clone()));
                    assert(actions_view(actions@) =~= had.push(
                        WatchActionView::OrderPaid(invoice@.id),
                    ));
                },
                Ok(false) => {
                    kept.push(invoice.clone());
                    assert(invoices_view(kept@) =~= stayed.push(invoice@));
                },
            }
            i += 1;
        }
        proof {
            lemma_unpaid_upto(before, self.assets@, balances@, before.len() as int);
        }
        watched.replace(kept);
        Ok(actions)
    }

    /// Settles a block: decides of every watched invoice whether its
    /// order is paid and whether it stays, and lists what is to be done.
    /// An order that is paid leaves the watched set with the same block,
    /// and so does every invoice whose death has come. Where the block
    /// cannot be settled, nothing changes and nothing is asked for.
    pub fn settle(&self, watched: &mut Watched, block: &Block) -> (settled: Result<
        Vec<WatchAction>,
        ChainError,
    >)
        ensures
            final(watched).wf(),
            match settled {
                Ok(actions) => block_fault(old(watched)@, self.assets@, block@) is None
                    && actions_view(actions@) == block_actions(old(watched)@, self.assets@, block@)
                    && final(watched)@ == survivors(old(watched)@, self.assets@, block@),
                Err(e) => block_fault(old(watched)@, self.assets@, block@) == Some(e@)
                    && final(watched)@ == old(watched)@,
            },
    {
        proof {
            use_type_invariant(&*watched);
        }
        if block.timestamp.0 > RFC3339_MAX_MILLIS {
            return Err(ChainError::TimestampOutOfRange(block.timestamp.0));
        }
        proof {
            use_type_invariant(&*watched);
        }
        let ghost before = watched@;
        let mut actions: Vec<WatchAction> = Vec::new();
        let mut kept: Vec<Invoice> = Vec::new();
        let mut i: usize = 0;
        assert(actions_view(actions@) =~= Seq::empty());
        assert(invoices_view(kept@) =~= Seq::<InvoiceView>::empty());
        while i < watched.len()
            invariant
                i <= watched@.len(),
                watched@ == before,
                watched.wf(),
                block.timestamp.0 <= RFC3339_MAX_MILLIS,
                fault_upto(before, self.assets@, block@, i as int) is None,
                actions_view(actions@) == actions_upto(before, self.assets@, block@, i as int),
                invoices_view(kept@) == survivors_upto(
                    before,
                    self.assets@,
                    block@,
                    i as int,
                ),
            decreases watched@.len() - i,
        {
            let invoice = watched.at(i);
            let ghost had = actions_view(actions@);
            let ghost stayed = invoices_view(kept@);
            match invoice.verdict(self, block) {
                Err(e) => {
                    proof {
                        lemma_fault_stays(before, self.assets@, block@, i as int + 1, before.len() as int);
                    }
                    return Err(e);
                },
                Ok(decided) => {
                    if decided.paid {
                        actions.push(WatchAction::OrderPaid(invoice.id.clone()));
                        assert(actions_view(actions@) =~= had + seq![
                            WatchActionView::OrderPaid(invoice@.id),
                        ]);
                    } else {
                        assert(actions_view(actions@) =~= had + Seq::empty());
                    }
                    let ghost noticed = actions_view(actions@);
                    invoice.push_records(block, &mut actions);
                    assert(actions_view(actions@) =~= had + (if decided.paid {
                        seq![WatchActionView::OrderPaid(invoice@.id)]
                    } else {
                        Seq::empty()
                    } + records_upto(invoice@, block@, block@.events.len() as int)));
                    if !decided.dropped {
                        kept.push(invoice.clone());
                        assert(invoices_view(kept@) =~= stayed.push(invoice@));
                    }
                },
            }
            i += 1;
        }
        proof {
            lemma_survivors_upto(before, self.assets@, block@, before.len() as int);
        }
        watched.replace(kept);
        Ok(actions)
    }
}

/// Once the verdicts of the first `n` invoices hold an error, that
/// error stays the first one however many more invoices are looked at.
pub proof fn lemma_fault_stays(
    watched: Seq<InvoiceView>,
    assets: Seq<(Seq<char>, CurrencyPropertiesView)>,
    block: BlockView,
    n: int,
    m: int,
)
    requires
        0 <= n <= m,
        fault_upto(watched, assets, block, n) is Some,
    ensures
        fault_upto(watched, assets, block, m) == fault_upto(watched, assets, block, n),
    decreases m - n,
{
    if n < m {
        lemma_fault_stays(watched, assets, block, n, m - 1);
    }
}

/// Once the queries of the first `n` invoices fail, they fail with the
/// same error however many more invoices are looked at.
pub proof fn lemma_due_queries_fail(
    watched: Seq<InvoiceView>,
    assets: Seq<(Seq<char>, CurrencyPropertiesView)>,
    events: Seq<TransferEventView>,
    now: u64,
    n: int,
    m: int,
)
    requires
        0 <= n <= m,
        due_queries_upto(watched, assets, events, now, n) is Err,
    ensures
        due_queries_upto(watched, assets, events, now, m) == due_queries_upto(
            watched,
            assets,
            events,
            now,
            n,
        ),
    decreases m - n,
{
    if n < m {
        lemma_due_queries_fail(watched, assets, events, now, n, m - 1);
    }
}

/// Whether a block finds the `j`-th invoice paid.
pub open spec fn paid_at(
    watched: Seq<InvoiceView>,
    assets: Seq<(Seq<char>, CurrencyPropertiesView)>,
    block: BlockView,
    j: int,
) -> bool {
    verdict(watched[j], assets, block) matches Ok(v) && v.paid
}

/// Whether a block drops the `j`-th invoice from the watched set.
pub open spec fn dropped_at(
    watched: Seq<InvoiceView>,
    assets: Seq<(Seq<char>, CurrencyPropertiesView)>,
    block: BlockView,
    j: int,
) -> bool {
    verdict(watched[j], assets, block) matches Ok(v) && v.dropped
}

/// The records of an invoice hold no notice of payment.
pub proof fn lemma_records_hold_no_notice(invoice: InvoiceView, block: BlockView, n: int)
    ensures
        forall|k: int|
            0 <= k < records_upto(invoice, block, n).len() ==> (#[trigger] records_upto(
                invoice,
                block,
                n,
            )[k]) is RecordTransaction,
    decreases n,
{
    if n > 0 {
        lemma_records_hold_no_notice(invoice, block, n - 1);
    }
}

/// A block that can be settled decides of every invoice.
pub proof fn lemma_no_fault(
    watched: Seq<InvoiceView>,
    assets: Seq<(Seq<char>, CurrencyPropertiesView)>,
    block: BlockView,
    n: int,
)
    requires
        0 <= n <= watched.len(),
        fault_upto(watched, assets, block, n) is None,
    ensures
        forall|j: int| 0 <= j < n ==> verdict(#[trigger] watched[j], assets, block) is Ok,
    decreases n,
{
    if n > 0 {
        lemma_no_fault(watched, assets, block, n - 1);
    }
}

/// Among what a block asks for the first `n` invoices, there is a notice
/// that the order `id` is paid exactly where one of these invoices is of
/// that order and is found paid.
pub proof fn lemma_notices_upto(
    watched: Seq<InvoiceView>,
    assets: Seq<(Seq<char>, CurrencyPropertiesView)>,
    block: BlockView,
    n: int,
    id: Seq<char>,
)
    requires
        0 <= n <= watched.len(),
    ensures
        actions_upto(watched, assets, block, n).contains(WatchActionView::OrderPaid(id)) <==> exists|
            j: int,
        |
            0 <= j < n && (#[trigger] watched[j]).id == id && paid_at(watched, assets, block, j),
    decreases n,
{
    let notice = WatchActionView::OrderPaid(id);
    if n > 0 {
        lemma_notices_upto(watched, assets, block, n - 1, id);
        let before = actions_upto(watched, assets, block, n - 1);
        let invoice = watched[n - 1];
        let own = invoice_actions(invoice, assets, block);
        let all = actions_upto(watched, assets, block, n);
        let records = records_upto(invoice, block, block.events.len() as int);
        lemma_records_hold_no_notice(invoice, block, block.events.len() as int);
        assert(all == before + own);
        if all.contains(notice) {
            let k = choose|k: int| 0 <= k < all.len() && all[k] == notice;
            if k < before.len() {
                assert(before[k] == notice);
                assert(before.contains(notice));
                let j = choose|j: int|
                    0 <= j < n - 1 && (#[trigger] watched[j]).id == id && paid_at(
                        watched,
                        assets,
                        block,
                        j,
                    );
                assert(0 <= j < n && watched[j].id == id && paid_at(watched, assets, block, j));
            } else {
                let m = k - before.len();
                assert(own[m] == notice);
                if paid_at(watched, assets, block, n - 1) {
                    if m >= 1 {
                        assert(own[m] == records[m - 1]);
                    }
                } else {
                    assert(own[m] == records[m]);
                }
                assert(watched[n - 1].id == id && paid_at(watched, assets, block, n - 1));
            }
        }
        if exists|j: int|
            0 <= j < n && (#[trigger] watched[j]).id == id && paid_at(watched, assets, block, j) {
            let j = choose|j: int|
                0 <= j < n && (#[trigger] watched[j]).id == id && paid_at(watched, assets, block, j);
            if j < n - 1 {
                assert(before.contains(notice));
                let k = choose|k: int| 0 <= k < before.len() && before[k] == notice;
                assert(all[k] == notice);
            } else {
                assert(own[0] == notice);
                assert(all[before.len() as int] == notice);
            }
        }
    }
}

/// An order is told paid only while it is watched, and it leaves the
/// watched set with the same block: among what settling a block asks
/// for, a notice that the order `id` is paid means that the order was
/// watched and is watched no more.
pub proof fn lemma_paid_order_leaves(
    watched: Seq<InvoiceView>,
    assets: Seq<(Seq<char>, CurrencyPropertiesView)>,
    block: BlockView,
    id: Seq<char>,
)
    requires
        ids_distinct(watched),
        block_actions(watched, assets, block).contains(WatchActionView::OrderPaid(id)),
    ensures
        watching(watched, id),
        !watching(survivors(watched, assets, block), id),
{
    let n = watched.len() as int;
    lemma_notices_upto(watched, assets, block, n, id);
    let j = choose|j: int|
        0 <= j < n && (#[trigger] watched[j]).id == id && paid_at(watched, assets, block, j);
    let at = lemma_survivors_upto(watched, assets, block, n);
    let stay = survivors(watched, assets, block);
    if watching(stay, id) {
        let a = choose|a: int| 0 <= a < stay.len() && (#[trigger] stay[a]).id == id;
        assert(stay[a] == watched[at[a]]);
        assert(at[a] != j);
        if at[a] < j {
            assert(watched[at[a]].id != watched[j].id);
        } else {
            assert(watched[j].id != watched[at[a]].id);
        }
    }
}

/// No order is told paid twice by one block.
pub proof fn lemma_paid_once(
    watched: Seq<InvoiceView>,
    assets: Seq<(Seq<char>, CurrencyPropertiesView)>,
    block: BlockView,
    n: int,
    id: Seq<char>,
)
    requires
        ids_distinct(watched),
        0 <= n <= watched.len(),
    ensures
        forall|k: int, l: int|
            0 <= k < l < actions_upto(watched, assets, block, n).len() ==> !(#[trigger] actions_upto(
                watched,
                assets,
                block,
                n,
            )[k] == WatchActionView::OrderPaid(id) && #[trigger] actions_upto(
                watched,
                assets,
                block,
                n,
            )[l] == WatchActionView::OrderPaid(id)),
    decreases n,
{
    let notice = WatchActionView::OrderPaid(id);
    if n > 0 {
        lemma_paid_once(watched, assets, block, n - 1, id);
        lemma_notices_upto(watched, assets, block, n - 1, id);
        let before = actions_upto(watched, assets, block, n - 1);
        let invoice = watched[n - 1];
        let own = invoice_actions(invoice, assets, block);
        let all = actions_upto(watched, assets, block, n);
        let records = records_upto(invoice, block, block.events.len() as int);
        lemma_records_hold_no_notice(invoice, block, block.events.len() as int);
        assert(all == before + own);
        assert forall|k: int, l: int| 0 <= k < l < all.len() implies !(#[trigger] all[k] == notice
            && #[trigger] all[l] == notice) by {
            if all[k] == notice && all[l] == notice {
                if l < before.len() {
                    assert(before[k] == notice && before[l] == notice);
                } else {
                    let m = l - before.len();
                    assert(own[m] == notice);
                    if paid_at(watched, assets, block, n - 1) {
                        if m >= 1 {
                            assert(own[m] == records[m - 1]);
                        }
                    } else {
                        assert(own[m] == records[m]);
                    }
                    assert(m == 0 && watched[n - 1].id == id);
                    if k < before.len() {
                        assert(before[k] == notice);
                        assert(before.contains(notice));
                        let j = choose|j: int|
                            0 <= j < n - 1 && (#[trigger] watched[j]).id == id && paid_at(
                                watched,
                                assets,
                                block,
                                j,
                            );
                        assert(watched[j].id != watched[n - 1].id);
                    }
                }
            }
        }
    }
}

/// Once an order was told paid, the next block does not tell it paid
/// again: after a block with a notice for the order `id`, whatever block
/// follows on the invoices that stayed holds no such notice.
pub proof fn lemma_paid_not_repeated(
    watched: Seq<InvoiceView>,
    assets: Seq<(Seq<char>, CurrencyPropertiesView)>,
    block: BlockView,
    later_assets: Seq<(Seq<char>, CurrencyPropertiesView)>,
    later: BlockView,
    id: Seq<char>,
)
    requires
        ids_distinct(watched),
        block_actions(watched, assets, block).contains(WatchActionView::OrderPaid(id)),
    ensures
        !block_actions(survivors(watched, assets, block), later_assets, later).contains(
            WatchActionView::OrderPaid(id),
        ),
{
    lemma_paid_order_leaves(watched, assets, block, id);
    let stay = survivors(watched, assets, block);
    lemma_notices_upto(stay, later_assets, later, stay.len() as int, id);
}

/// An invoice whose death has come leaves the watched set with the
/// block that finds it so, whatever its balance; and its order is told
/// paid exactly where its balance covers its amount at that block.
pub proof fn lemma_death_is_final(
    watched: Seq<InvoiceView>,
    assets: Seq<(Seq<char>, CurrencyPropertiesView)>,
    block: BlockView,
    j: int,
)
    requires
        ids_distinct(watched),
        0 <= j < watched.len(),
        watched[j].death <= block.now,
        block_fault(watched, assets, block) is None,
    ensures
        !watching(survivors(watched, assets, block), watched[j].id),
        invoice_paid(watched[j], assets, block.balances) is Ok,
        block_actions(watched, assets, block).contains(WatchActionView::OrderPaid(watched[j].id))
            <==> invoice_paid(watched[j], assets, block.balances) == Ok::<bool, ChainErrorView>(true),
{
    let n = watched.len() as int;
    let id = watched[j].id;
    lemma_no_fault(watched, assets, block, n);
    assert(verdict(watched[j], assets, block) is Ok);
    lemma_notices_upto(watched, assets, block, n, id);
    if block_actions(watched, assets, block).contains(WatchActionView::OrderPaid(id)) {
        let i = choose|i: int|
            0 <= i < n && (#[trigger] watched[i]).id == id && paid_at(watched, assets, block, i);
        if i < j {
            assert(watched[i].id != watched[j].id);
        } else if j < i {
            assert(watched[j].id != watched[i].id);
        }
    }
    if invoice_paid(watched[j], assets, block.balances) == Ok::<bool, ChainErrorView>(true) {
        assert(paid_at(watched, assets, block, j));
    }
    let at = lemma_survivors_upto(watched, assets, block, n);
    let stay = survivors(watched, assets, block);
    if watching(stay, id) {
        let a = choose|a: int| 0 <= a < stay.len() && (#[trigger] stay[a]).id == id;
        assert(stay[a] == watched[at[a]]);
        if at[a] < j {
            assert(watched[at[a]].id != watched[j].id);
        } else if j < at[a] {
            assert(watched[j].id != watched[at[a]].id);
        }
    }
}

/// An invoice that a block neither finds paid nor dead stays watched.
pub proof fn lemma_unpaid_stays(
    watched: Seq<InvoiceView>,
    assets: Seq<(Seq<char>, CurrencyPropertiesView)>,
    block: BlockView,
    j: int,
)
    requires
        0 <= j < watched.len(),
        block_fault(watched, assets, block) is None,
        watched[j].death > block.now,
        invoice_paid(watched[j], assets, block.balances) != Ok::<bool, ChainErrorView>(true),
    ensures
        watching(survivors(watched, assets, block), watched[j].id),
{
    let n = watched.len() as int;
    lemma_no_fault(watched, assets, block, n);
    assert(verdict(watched[j], assets, block) is Ok);
    let at = lemma_survivors_upto(watched, assets, block, n);
    let stay = survivors(watched, assets, block);
    let a = choose|a: int| 0 <= a < at.len() && #[trigger] at[a] == j;
    assert(stay[a] == watched[j]);
}

/// Among the notices for the first `n` carried-over invoices there is
/// one for the order `id` exactly where one of these invoices is of that
/// order and is paid; and there is nothing but notices among them.
pub proof fn lemma_paid_notices_upto(
    watched: Seq<InvoiceView>,
    assets: Seq<(Seq<char>, CurrencyPropertiesView)>,
    balances: Seq<(Seq<u8>, Option<AssetId>, u128)>,
    n: int,
    id: Seq<char>,
)
    requires
        0 <= n <= watched.len(),
    ensures
        paid_notices_upto(watched, assets, balances, n).contains(WatchActionView::OrderPaid(id))
            <==> exists|j: int|
            0 <= j < n && (#[trigger] watched[j]).id == id && invoice_paid(
                watched[j],
                assets,
                balances,
            ) == Ok::<bool, ChainErrorView>(true),
        forall|k: int|
            0 <= k < paid_notices_upto(watched, assets, balances, n).len()
                ==> (#[trigger] paid_notices_upto(watched, assets, balances, n)[k]) is OrderPaid,
    decreases n,
{
    let notice = WatchActionView::OrderPaid(id);
    if n > 0 {
        lemma_paid_notices_upto(watched, assets, balances, n - 1, id);
        let before = paid_notices_upto(watched, assets, balances, n - 1);
        let all = paid_notices_upto(watched, assets, balances, n);
        let paid = invoice_paid(watched[n - 1], assets, balances) == Ok::<bool, ChainErrorView>(
            true,
        );
        if all.contains(notice) {
            let k = choose|k: int| 0 <= k < all.len() && all[k] == notice;
            if k < before.len() {
                assert(before[k] == notice);
                assert(before.contains(notice));
                let j = choose|j: int|
                    0 <= j < n - 1 && (#[trigger] watched[j]).id == id && invoice_paid(
                        watched[j],
                        assets,
                        balances,
                    ) == Ok::<bool, ChainErrorView>(true);
                assert(0 <= j < n && watched[j].id == id);
            } else {
                assert(paid && watched[n - 1].id == id);
            }
        }
        if exists|j: int|
            0 <= j < n && (#[trigger] watched[j]).id == id && invoice_paid(
                watched[j],
                assets,
                balances,
            ) == Ok::<bool, ChainErrorView>(true) {
            let j = choose|j: int|
                0 <= j < n && (#[trigger] watched[j]).id == id && invoice_paid(
                    watched[j],
                    assets,
                    balances,
                ) == Ok::<bool, ChainErrorView>(true);
            if j < n - 1 {
                assert(before.contains(notice));
                let k = choose|k: int| 0 <= k < before.len() && before[k] == notice;
                assert(all[k] == notice);
            } else {
                assert(all[before.len() as int] == notice);
            }
        }
    }
}

/// A carried-over order that is told paid on a fresh connection was
/// watched and is watched no more.
pub proof fn lemma_carried_paid_leaves(
    watched: Seq<InvoiceView>,
    assets: Seq<(Seq<char>, CurrencyPropertiesView)>,
    balances: Seq<(Seq<u8>, Option<AssetId>, u128)>,
    id: Seq<char>,
)
    requires
        ids_distinct(watched),
        paid_notices_upto(watched, assets, balances, watched.len() as int).contains(
            WatchActionView::OrderPaid(id),
        ),
    ensures
        watching(watched, id),
        !watching(unpaid_upto(watched, assets, balances, watched.len() as int), id),
{
    let n = watched.len() as int;
    lemma_paid_notices_upto(watched, assets, balances, n, id);
    let j = choose|j: int|
        0 <= j < n && (#[trigger] watched[j]).id == id && invoice_paid(watched[j], assets, balances)
            == Ok::<bool, ChainErrorView>(true);
    let at = lemma_unpaid_upto(watched, assets, balances, n);
    let stay = unpaid_upto(watched, assets, balances, n);
    if watching(stay, id) {
        let a = choose|a: int| 0 <= a < stay.len() && (#[trigger] stay[a]).id == id;
        assert(stay[a] == watched[at[a]]);
        if at[a] < j {
            assert(watched[at[a]].id != watched[j].id);
        } else if j < at[a] {
            assert(watched[j].id != watched[at[a]].id);
        }
    }
}

/// Settling a block asks for nothing but notices of payment and records
/// of transactions.
pub proof fn lemma_settling_notes_and_records(
    watched: Seq<InvoiceView>,
    assets: Seq<(Seq<char>, CurrencyPropertiesView)>,
    block: BlockView,
    n: int,
)
    requires
        0 <= n <= watched.len(),
    ensures
        forall|k: int|
            0 <= k < actions_upto(watched, assets, block, n).len() ==> (#[trigger] actions_upto(
                watched,
                assets,
                block,
                n,
            )[k]) is OrderPaid || actions_upto(watched, assets, block, n)[k] is RecordTransaction,
    decreases n,
{
    if n > 0 {
        lemma_settling_notes_and_records(watched, assets, block, n - 1);
        let before = actions_upto(watched, assets, block, n - 1);
        let invoice = watched[n - 1];
        let own = invoice_actions(invoice, assets, block);
        let all = actions_upto(watched, assets, block, n);
        let records = records_upto(invoice, block, block.events.len() as int);
        lemma_records_hold_no_notice(invoice, block, block.events.len() as int);
        assert forall|k: int| 0 <= k < all.len() implies (#[trigger] all[k]) is OrderPaid || all[k]
            is RecordTransaction by {
            if k < before.len() {
                assert(all[k] == before[k]);
            } else {
                let m = k - before.len();
                assert(all[k] == own[m]);
                if paid_at(watched, assets, block, n - 1) {
                    if m >= 1 {
                        assert(own[m] == records[m - 1]);
                    }
                } else {
                    assert(own[m] == records[m]);
                }
            }
        }
    }
}

/// Whether a balance was read for each of the queries.
pub open spec fn answered(
    queries: Seq<(Seq<u8>, Option<AssetId>)>,
    balances: Seq<(Seq<u8>, Option<AssetId>, u128)>,
) -> bool {
    forall|k: int|
        0 <= k < queries.len() ==> balance_read(balances, (#[trigger] queries[k]).0, queries[k].1)
            is Some
}

/// The queries of the first `n` invoices open the list of the queries
/// of the first `m`, and are there where these are.
pub proof fn lemma_due_queries_grow(
    watched: Seq<InvoiceView>,
    assets: Seq<(Seq<char>, CurrencyPropertiesView)>,
    events: Seq<TransferEventView>,
    now: u64,
    n: int,
    m: int,
)
    requires
        0 <= n <= m,
        due_queries_upto(watched, assets, events, now, m) is Ok,
    ensures
        due_queries_upto(watched, assets, events, now, n) is Ok,
        due_queries_upto(watched, assets, events, now, n)->Ok_0.len() <= due_queries_upto(
            watched,
            assets,
            events,
            now,
            m,
        )->Ok_0.len(),
        forall|k: int|
            0 <= k < due_queries_upto(watched, assets, events, now, n)->Ok_0.len()
                ==> #[trigger] due_queries_upto(watched, assets, events, now, n)->Ok_0[k]
                == due_queries_upto(watched, assets, events, now, m)->Ok_0[k],
    decreases m - n,
{
    if n < m {
        lemma_due_queries_grow(watched, assets, events, now, n, m - 1);
    }
}

/// A block whose due balances were all read can be settled, unless its
/// time is beyond the calendar or a transfer that touches a watched
/// account lacks its extrinsic.
pub proof fn lemma_answered_block_settles(
    watched: Seq<InvoiceView>,
    assets: Seq<(Seq<char>, CurrencyPropertiesView)>,
    block: BlockView,
    n: int,
)
    requires
        0 <= n <= watched.len(),
        block.timestamp <= RFC3339_MAX_MILLIS,
        forall|j: int|
            0 <= j < watched.len() ==> !lacks_extrinsic((#[trigger] watched[j]).address, block.events),
        due_queries(watched, assets, block.events, block.now) is Ok,
        answered(due_queries(watched, assets, block.events, block.now)->Ok_0, block.balances),
    ensures
        fault_upto(watched, assets, block, n) is None,
        n == watched.len() ==> block_fault(watched, assets, block) is None,
    decreases n,
{
    if n > 0 {
        lemma_answered_block_settles(watched, assets, block, n - 1);
        let all = due_queries(watched, assets, block.events, block.now)->Ok_0;
        lemma_due_queries_grow(watched, assets, block.events, block.now, n, watched.len() as int);
        lemma_due_queries_grow(watched, assets, block.events, block.now, n - 1, n);
        let invoice = watched[n - 1];
        assert(!lacks_extrinsic(invoice.address, block.events));
        if is_due(invoice, block.events, block.now) {
            let upto = due_queries_upto(watched, assets, block.events, block.now, n)->Ok_0;
            let before = due_queries_upto(watched, assets, block.events, block.now, n - 1)->Ok_0;
            let query = invoice_query(invoice, assets)->Ok_0;
            assert(upto == before.push(query));
            assert(upto[before.len() as int] == query);
            assert(all[before.len() as int] == query);
            assert(balance_read(block.balances, query.0, query.1) is Some);
        }
    }
}

} // verus!
