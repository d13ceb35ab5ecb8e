//! The watcher of one chain as a machine: it takes the answers to what
//! it asked for and the messages of its inbox one by one, and says each
//! time what is to be done next.

use crate::chain::block::{
    all_queries, block_actions, block_fault, due_queries, lemma_carried_paid_leaves,
    lemma_paid_notices_upto, lemma_paid_order_leaves, lemma_settling_notes_and_records,
    lemma_survivors_upto, lemma_unpaid_upto, paid_fault_upto, paid_notices_upto, survivors,
    unpaid_upto, Block, BlockView,
};
use crate::chain::definitions::{
    actions_view, BlockBalances, BlockHash, ChainTrackerRequest, Invoice, InvoiceView, WatchAction,
    WatchActionView,
};
use crate::chain::tracker::{
    lemma_wanted_distinct, prepared, ChainWatcher, ChainWatcherView, PinReading, PinReadingView,
};
use crate::chain::utils::{events_view, TransferEvent, TransferEventView};
use crate::chain::watched::{
    find_invoice_from, ids_distinct, lemma_find_invoice_from, watching, Watched,
};
use crate::database::definitions::Timestamp;
use crate::definitions::{names_distinct, Chain, ChainView};
use crate::error::{ChainError, ChainErrorView};
use crate::server::definitions::api_v2::{AssetId, CurrencyPropertiesView, Health, RpcInfo, RpcInfoView};
use vstd::prelude::*;

verus! {

/// How long a connected watcher waits for a message before it gives the
/// connection up, in milliseconds.
pub const WATCHDOG: u64 = 120_000;

/// Where a watcher stands.
#[derive(Clone, Copy, Debug, PartialEq, Eq, Structural)]
pub enum Phase {
    /// Between two connections.
    Idle,
    /// A connection is being opened.
    Connecting,
    /// The view of the chain is being read.
    Pinning,
    /// The balances of the carried-over invoices are being read.
    Reconciling,
    /// Connected, waiting for a message.
    Running,
    /// A block came in; its hash is being read.
    AwaitingHash,
    /// The runtime version at the block is being read.
    AwaitingVersion,
    /// The transfers of the block are being read.
    AwaitingEvents,
    /// The balances that the block makes due are being read.
    AwaitingBalances,
    /// The watcher has ended.
    Stopped,
}

/// The time and the transfers of a block, and the time at which they
/// were read.
#[derive(Debug)]
pub struct BlockEvents {
    pub timestamp: Timestamp,
    pub now: Timestamp,
    pub events: Vec<TransferEvent>,
}

/// What happens to a watcher: the answers to what it asked for, and the
/// messages of its inbox.
#[derive(Debug)]
pub enum WatchEvent {
    /// The watcher is looked at between two connections; `cancelled`
    /// tells whether the daemon is shutting down.
    Wake { cancelled: bool },
    Connected,
    ConnectFailed,
    Pinned(Result<PinReading, ChainError>),
    Balances(Result<BlockBalances, ChainError>),
    Request(ChainTrackerRequest),
    /// The watchdog time has passed without a message, or the inbox is
    /// closed.
    Silence,
    BlockHash(Result<BlockHash, ChainError>),
    RuntimeVersion(Result<String, ChainError>),
    Events(Result<BlockEvents, ChainError>),
}

/// [`ChainTrackerRequest`] as mathematical data.
pub enum RequestView {
    WatchAccount(InvoiceView),
    NewBlock(Seq<char>),
    Reap(InvoiceView),
    Shutdown,
}

impl View for ChainTrackerRequest {
    type V = RequestView;

    open spec fn view(&self) -> RequestView {
        match self {
            ChainTrackerRequest::WatchAccount(request) => RequestView::WatchAccount(request@),
            ChainTrackerRequest::NewBlock(number) => RequestView::NewBlock(number@),
            ChainTrackerRequest::Reap(request) => RequestView::Reap(request@),
            ChainTrackerRequest::Shutdown => RequestView::Shutdown,
        }
    }
}

/// [`WatchEvent`] as mathematical data.
pub enum WatchEventView {
    Wake { cancelled: bool },
    Connected,
    ConnectFailed,
    Pinned(Result<PinReadingView, ChainErrorView>),
    Balances(Result<Seq<(Seq<u8>, Option<AssetId>, u128)>, ChainErrorView>),
    Request(RequestView),
    Silence,
    BlockHash(Result<Seq<u8>, ChainErrorView>),
    RuntimeVersion(Result<Seq<char>, ChainErrorView>),
    Events(Result<(u64, u64, Seq<TransferEventView>), ChainErrorView>),
}

impl View for WatchEvent {
    type V = WatchEventView;

    open spec fn view(&self) -> WatchEventView {
        match self {
            WatchEvent::Wake { cancelled } => WatchEventView::Wake { cancelled: *cancelled },
            WatchEvent::Connected => WatchEventView::Connected,
            WatchEvent::ConnectFailed => WatchEventView::ConnectFailed,
            WatchEvent::Pinned(Ok(pin)) => WatchEventView::Pinned(Ok(pin@)),
            WatchEvent::Pinned(Err(e)) => WatchEventView::Pinned(Err(e@)),
            WatchEvent::Balances(Ok(balances)) => WatchEventView::Balances(Ok(balances@)),
            WatchEvent::Balances(Err(e)) => WatchEventView::Balances(Err(e@)),
            WatchEvent::Request(request) => WatchEventView::Request(request@),
            WatchEvent::Silence => WatchEventView::Silence,
            WatchEvent::BlockHash(Ok(hash)) => WatchEventView::BlockHash(Ok(hash@)),
            WatchEvent::BlockHash(Err(e)) => WatchEventView::BlockHash(Err(e@)),
            WatchEvent::RuntimeVersion(Ok(version)) => WatchEventView::RuntimeVersion(Ok(version@)),
            WatchEvent::RuntimeVersion(Err(e)) => WatchEventView::RuntimeVersion(Err(e@)),
            WatchEvent::Events(Ok(read)) => WatchEventView::Events(
                Ok((read.timestamp.0, read.now.0, events_view(read.events@))),
            ),
            WatchEvent::Events(Err(e)) => WatchEventView::Events(Err(e@)),
        }
    }
}

/// The watcher of one chain: the invoices it watches, the endpoint it
/// uses, and where it stands.
#[derive(Debug)]
pub struct ChainMonitor {
    chain: Chain,
    cursor: usize,
    shutdown: bool,
    phase: Phase,
    watched: Watched,
    watcher: Option<ChainWatcher>,
    pin: BlockHash,
    block: Block,
}

/// [`ChainMonitor`] as mathematical data.
pub struct MonitorView {
    pub chain: ChainView,
    pub cursor: int,
    pub shutdown: bool,
    pub phase: Phase,
    pub watched: Seq<InvoiceView>,
    pub watcher: Option<ChainWatcherView>,
    pub pin: Seq<u8>,
    pub block: BlockView,
}

impl MonitorView {
    /// Whether the phase is one in which a connection is prepared.
    pub open spec fn connected(self) -> bool {
        self.phase == Phase::Reconciling || self.phase == Phase::Running || self.phase
            == Phase::AwaitingHash || self.phase == Phase::AwaitingVersion || self.phase
            == Phase::AwaitingEvents || self.phase == Phase::AwaitingBalances
    }

    /// Whether the state is valid: no order id is watched twice; the
    /// cursor names an endpoint, if there is any; while a connection is
    /// open there is an endpoint; and while one is prepared, the watcher
    /// knows the chain, with no currency twice.
    pub open spec fn wf(self) -> bool {
        &&& ids_distinct(self.watched)
        &&& 0 <= self.cursor
        &&& self.cursor < self.chain.endpoints.len() || (self.chain.endpoints.len() == 0
            && self.cursor == 0)
        &&& self.phase == Phase::Connecting || self.phase == Phase::Pinning || self.connected()
            ==> self.chain.endpoints.len() > 0
        &&& self.connected() ==> (self.watcher matches Some(w) && names_distinct(w.assets))
    }

    /// The endpoint that the cursor names.
    pub open spec fn endpoint(self) -> Seq<char> {
        self.chain.endpoints[self.cursor]
    }

    /// The state of the current endpoint, to be reported.
    pub open spec fn report(self, status: Health) -> WatchActionView {
        WatchActionView::Report(
            RpcInfoView { rpc_url: self.endpoint(), chain_name: self.chain.name, status },
        )
    }

    /// The cursor after a step to the next endpoint, around the list.
    pub open spec fn next_cursor(self) -> int {
        if self.chain.endpoints.len() == 0 {
            0
        } else {
            (self.cursor + 1) % (self.chain.endpoints.len() as int)
        }
    }

    /// The state between two connections, with the cursor at the next
    /// endpoint.
    pub open spec fn rotated(self) -> MonitorView {
        MonitorView { phase: Phase::Idle, cursor: self.next_cursor(), watcher: None, ..self }
    }

    /// Giving the connection up without an error, on silence or under a
    /// new runtime version: it is closed, and the next endpoint is tried.
    pub open spec fn leave(self) -> (MonitorView, Seq<WatchActionView>) {
        (self.rotated(), seq![WatchActionView::Disconnect])
    }

    /// Giving the connection up over an error: the error is handed out to
    /// be logged, the connection is closed, and the next endpoint is
    /// tried.
    pub open spec fn fail(self, error: ChainErrorView) -> (MonitorView, Seq<WatchActionView>) {
        (self.rotated(), seq![WatchActionView::Failed(error), WatchActionView::Disconnect])
    }

    /// The watched invoices after `invoice` was put under its order id.
    pub open spec fn inserted(self, invoice: InvoiceView) -> Seq<InvoiceView> {
        match find_invoice_from(self.watched, invoice.id, 0) {
            Some(i) => self.watched.update(i, invoice),
            None => self.watched.push(invoice),
        }
    }

    /// What a watcher between two connections does: it ends where a
    /// shutdown is under way or no endpoint is configured; else it reports
    /// the endpoint as degraded and opens a connection to it.
    pub open spec fn on_idle(self, event: WatchEventView) -> (MonitorView, Seq<WatchActionView>) {
        match event {
            WatchEventView::Wake { cancelled } => if self.shutdown || cancelled
                || self.chain.endpoints.len() == 0 {
                (MonitorView { phase: Phase::Stopped, ..self }, seq![WatchActionView::Exit])
            } else {
                (
                    MonitorView { phase: Phase::Connecting, ..self },
                    seq![self.report(Health::Degraded), WatchActionView::Connect(self.endpoint())],
                )
            },
            _ => (self, Seq::empty()),
        }
    }

    /// What a watcher does once the connection is open or has failed: it
    /// reads the view of the chain, or reports the endpoint as critical
    /// and turns to the next one.
    pub open spec fn on_connecting(self, event: WatchEventView) -> (
        MonitorView,
        Seq<WatchActionView>,
    ) {
        match event {
            WatchEventView::Connected => (
                MonitorView { phase: Phase::Pinning, ..self },
                seq![WatchActionView::ReadPin],
            ),
            WatchEventView::ConnectFailed => (self.rotated(), seq![self.report(Health::Critical)]),
            _ => (self, Seq::empty()),
        }
    }

    /// What a watcher does with the view of the chain: it gives the
    /// endpoint up, handing out the error, where the read failed, where
    /// the endpoint serves another network or lacks a configured currency,
    /// or where a watched invoice names a currency that is not offered;
    /// else it publishes the currencies and asks for the balances of all
    /// watched invoices.
    pub open spec fn on_pinning(self, event: WatchEventView) -> (MonitorView, Seq<WatchActionView>) {
        match event {
            WatchEventView::Pinned(Err(e)) => self.fail(e),
            WatchEventView::Pinned(Ok(pin)) => match prepared(
                self.chain,
                self.endpoint(),
                pin.genesis_hash,
                pin.version,
                pin.spec_name,
                pin.specs,
                pin.assets,
            ) {
                Err(e) => self.fail(e),
                Ok(watcher) => match all_queries(self.watched, watcher.assets) {
                    Err(e) => self.fail(e),
                    Ok(queries) => (
                        MonitorView {
                            phase: Phase::Reconciling,
                            watcher: Some(watcher),
                            pin: pin.block,
                            ..self
                        },
                        seq![
                            WatchActionView::ConnectChain(watcher.assets),
                            WatchActionView::ReadBalances(pin.block, queries),
                        ],
                    ),
                },
            },
            _ => (self, Seq::empty()),
        }
    }

    /// What a watcher does with the balances of the carried-over
    /// invoices: it gives the endpoint up, handing out the error, where a
    /// balance could not be had; else it drops the paid invoices with a
    /// notice for each, has the blocks forwarded, reports the endpoint as
    /// good and waits for a message.
    pub open spec fn on_reconciling(self, event: WatchEventView) -> (
        MonitorView,
        Seq<WatchActionView>,
    ) {
        match event {
            WatchEventView::Balances(Err(e)) => self.fail(e),
            WatchEventView::Balances(Ok(balances)) => {
                let assets = self.watcher->0.assets;
                let n = self.watched.len() as int;
                match paid_fault_upto(self.watched, assets, balances, n) {
                    Some(e) => self.fail(e),
                    None => (
                        MonitorView {
                            phase: Phase::Running,
                            watched: unpaid_upto(self.watched, assets, balances, n),
                            ..self
                        },
                        paid_notices_upto(self.watched, assets, balances, n) + seq![
                            WatchActionView::WatchBlocks,
                            self.report(Health::Good),
                            WatchActionView::Receive(WATCHDOG),
                        ],
                    ),
                }
            },
            _ => (self, Seq::empty()),
        }
    }

    /// What a connected watcher does with a message: it watches a new
    /// invoice, overwriting by order id, and accepts the request; starts a
    /// payout; ends on a shutdown request, acknowledging it; or turns to a
    /// new block. On silence it gives the connection up.
    pub open spec fn on_running(self, event: WatchEventView) -> (MonitorView, Seq<WatchActionView>) {
        match event {
            WatchEventView::Silence => self.leave(),
            WatchEventView::Request(RequestView::WatchAccount(invoice)) => (
                MonitorView { watched: self.inserted(invoice), ..self },
                seq![WatchActionView::Accept(invoice.id), WatchActionView::Receive(WATCHDOG)],
            ),
            WatchEventView::Request(RequestView::Reap(invoice)) => (
                self,
                seq![
                    WatchActionView::Accept(invoice.id),
                    WatchActionView::Payout {
                        rpc: self.endpoint(),
                        invoice,
                        watcher: self.watcher->0,
                    },
                    WatchActionView::Receive(WATCHDOG),
                ],
            ),
            WatchEventView::Request(RequestView::Shutdown) => (
                MonitorView { phase: Phase::Stopped, shutdown: true, watcher: None, ..self },
                seq![
                    WatchActionView::AckShutdown,
                    WatchActionView::Disconnect,
                    WatchActionView::Exit,
                ],
            ),
            WatchEventView::Request(RequestView::NewBlock(number)) => (
                MonitorView {
                    phase: Phase::AwaitingHash,
                    block: BlockView { number, ..self.block },
                    ..self
                },
                seq![WatchActionView::ReadBlockHash(number)],
            ),
            _ => (self, Seq::empty()),
        }
    }

    /// What a watcher does with the hash of a new block: it reads the
    /// runtime version there; a failed read ends the connection, with the
    /// error handed out.
    pub open spec fn on_hash(self, event: WatchEventView) -> (MonitorView, Seq<WatchActionView>) {
        match event {
            WatchEventView::BlockHash(Err(e)) => self.fail(e),
            WatchEventView::BlockHash(Ok(hash)) => (
                MonitorView {
                    phase: Phase::AwaitingVersion,
                    block: BlockView { hash, ..self.block },
                    ..self
                },
                seq![WatchActionView::ReadRuntimeVersion(hash)],
            ),
            _ => (self, Seq::empty()),
        }
    }

    /// What a watcher does with the runtime version at a new block: under
    /// another version than the one it connected under it gives the
    /// connection up without reading the block; else it reads the
    /// transfers of the block. A failed read ends the connection, with the
    /// error handed out.
    pub open spec fn on_version(self, event: WatchEventView) -> (MonitorView, Seq<WatchActionView>) {
        match event {
            WatchEventView::RuntimeVersion(Err(e)) => self.fail(e),
            WatchEventView::RuntimeVersion(Ok(version)) => if version != self.watcher->0.version {
                self.leave()
            } else {
                (
                    MonitorView { phase: Phase::AwaitingEvents, ..self },
                    seq![WatchActionView::ReadEvents(self.block.hash)],
                )
            },
            _ => (self, Seq::empty()),
        }
    }

    /// What a watcher does with the transfers of a new block: it asks for
    /// the balances of the invoices that are due; where the read failed or
    /// a due invoice names a currency that is not offered, it gives the
    /// connection up, handing out the error.
    pub open spec fn on_events(self, event: WatchEventView) -> (MonitorView, Seq<WatchActionView>) {
        match event {
            WatchEventView::Events(Err(e)) => self.fail(e),
            WatchEventView::Events(Ok((timestamp, now, events))) => match due_queries(
                self.watched,
                self.watcher->0.assets,
                events,
                now,
            ) {
                Err(e) => self.fail(e),
                Ok(queries) => (
                    MonitorView {
                        phase: Phase::AwaitingBalances,
                        block: BlockView { timestamp, now, events, ..self.block },
                        ..self
                    },
                    seq![WatchActionView::ReadBalances(self.block.hash, queries)],
                ),
            },
            _ => (self, Seq::empty()),
        }
    }

    /// What a watcher does with the balances at a new block: it settles
    /// the block and waits for the next message; where the read failed or
    /// the block cannot be settled it gives the connection up, handing out
    /// the error, and the watched invoices stay as they are.
    pub open spec fn on_balances(self, event: WatchEventView) -> (MonitorView, Seq<WatchActionView>) {
        match event {
            WatchEventView::Balances(Err(e)) => self.fail(e),
            WatchEventView::Balances(Ok(balances)) => {
                let assets = self.watcher->0.assets;
                let block = BlockView { balances, ..self.block };
                match block_fault(self.watched, assets, block) {
                    Some(e) => MonitorView { block, ..self }.fail(e),
                    None => (
                        MonitorView {
                            phase: Phase::Running,
                            watched: survivors(self.watched, assets, block),
                            block,
                            ..self
                        },
                        block_actions(self.watched, assets, block) + seq![
                            WatchActionView::Receive(WATCHDOG),
                        ],
                    ),
                }
            },
            _ => (self, Seq::empty()),
        }
    }

    /// The state after an event, and what is to be done. An event that
    /// the phase does not wait for changes nothing.
    pub open spec fn next(self, event: WatchEventView) -> (MonitorView, Seq<WatchActionView>) {
        match self.phase {
            Phase::Idle => self.on_idle(event),
            Phase::Connecting => self.on_connecting(event),
            Phase::Pinning => self.on_pinning(event),
            Phase::Reconciling => self.on_reconciling(event),
            Phase::Running => self.on_running(event),
            Phase::AwaitingHash => self.on_hash(event),
            Phase::AwaitingVersion => self.on_version(event),
            Phase::AwaitingEvents => self.on_events(event),
            Phase::AwaitingBalances => self.on_balances(event),
            Phase::Stopped => (self, Seq::empty()),
        }
    }
}

impl View for ChainMonitor {
    type V = MonitorView;

    closed spec fn view(&self) -> MonitorView {
        MonitorView {
            chain: self.chain@,
            cursor: self.cursor as int,
            shutdown: self.shutdown,
            phase: self.phase,
            watched: self.watched@,
            watcher: match self.watcher {
                Some(w) => Some(w@),
                None => None,
            },
            pin: self.pin@,
            block: self.block@,
        }
    }
}

impl ChainMonitor {
    /// The watcher of a chain before its first connection: nothing
    /// watched, the cursor at the first endpoint.
    pub fn new(chain: Chain) -> (monitor: Self)
        ensures
            monitor@.chain == chain@,
            monitor@.cursor == 0,
            !monitor@.shutdown,
            monitor@.phase == Phase::Idle,
            monitor@.watched == Seq::<InvoiceView>::empty(),
            monitor@.watcher is None,
            monitor.wf(),
    {
        ChainMonitor {
            chain,
            cursor: 0,
            shutdown: false,
            phase: Phase::Idle,
            watched: Watched::new(),
            watcher: None,
            pin: BlockHash([0u8;32]),
            block: Block {
                number: String::new(),
                hash: BlockHash([0u8;32]),
                timestamp: Timestamp(0),
                now: Timestamp(0),
                events: Vec::new(),
                balances: BlockBalances { entries: Vec::new() },
            },
        }
    }

    /// Whether the watcher is valid. Every watcher is.
    #[verifier::type_invariant]
    pub open spec fn wf(&self) -> bool {
        self@.wf()
    }

    /// Where the watcher stands.
    pub fn phase(&self) -> (phase: Phase)
        ensures
            phase == self@.phase,
    {
        self.phase
    }

    /// The invoices that are watched.
    pub fn watched(&self) -> (watched: &Watched)
        ensures
            watched@ == self@.watched,
    {
        &self.watched
    }

    /// What is known of the connected chain, while a connection is
    /// prepared.
    pub fn watcher(&self) -> (watcher: Option<&ChainWatcher>)
        ensures
            match watcher {
                Some(w) => self@.watcher == Some(w@),
                None => self@.watcher is None,
            },
    {
        self.watcher.as_ref()
    }

    /// The endpoint that the cursor names, if any endpoint is configured.
    pub fn endpoint(&self) -> (endpoint: Option<&String>)
        ensures
            match endpoint {
                Some(url) => self@.chain.endpoints.len() > 0 && url@ == self@.endpoint(),
                None => self@.chain.endpoints.len() == 0,
            },
    {
        proof {
            use_type_invariant(self);
        }
        if self.cursor < self.chain.endpoints.len() {
            Some(&self.chain.endpoints[self.cursor])
        } else {
            None
        }
    }

    /// The current endpoint.
    fn url(&self) -> (url: String)
        requires
            self@.chain.endpoints.len() > 0,
        ensures
            url@ == self@.endpoint(),
    {
        proof {
            use_type_invariant(self);
        }
        self.chain.endpoints[self.cursor].clone()
    }

    /// The state of the current endpoint, to be reported.
    fn report(&self, status: Health) -> (action: WatchAction)
        requires
            self@.chain.endpoints.len() > 0,
        ensures
            action@ == self@.report(status),
    {
        WatchAction::Report(
            RpcInfo { rpc_url: self.url(), chain_name: self.chain.name.clone(), status },
        )
    }

    /// Moves the cursor to the next endpoint, between two connections.
    fn rotate(&mut self)
        ensures
            final(self)@ == old(self)@.rotated(),
    {
        proof {
            use_type_invariant(&*self);
        }
        self.phase = Phase::Idle;
        self.watcher = None;
        let n = self.chain.endpoints.len();
        if n == 0 {
            self.cursor = 0;
        } else {
            self.cursor = (self.cursor + 1) % n;
        }
    }

    /// Gives the connection up.
    fn leave(&mut self) -> (actions: Vec<WatchAction>)
        ensures
            final(self)@ == old(self)@.leave().0,
            actions_view(actions@) == old(self)@.leave().1,
    {
        self.rotate();
        let actions = vec![WatchAction::Disconnect];
        assert(actions_view(actions@) =~= seq![WatchActionView::Disconnect]);
        actions
    }

    /// Gives the connection up over an error, which is handed out.
    fn fail(&mut self, error: ChainError) -> (actions: Vec<WatchAction>)
        ensures
            final(self)@ == old(self)@.fail(error@).0,
            actions_view(actions@) == old(self)@.fail(error@).1,
    {
        let ghost shown = seq![WatchActionView::Failed(error@), WatchActionView::Disconnect];
        self.rotate();
        let actions = vec![WatchAction::Failed(error), WatchAction::Disconnect];
        assert(actions_view(actions@) =~= shown);
        actions
    }

    /// No action.
    fn nothing() -> (actions: Vec<WatchAction>)
        ensures
            actions_view(actions@) == Seq::<WatchActionView>::empty(),
    {
        let actions: Vec<WatchAction> = Vec::new();
        assert(actions_view(actions@) =~= Seq::<WatchActionView>::empty());
        actions
    }

    /// Takes an event between two connections.
    fn idle(&mut self, event: WatchEvent) -> (actions: Vec<WatchAction>)
        requires
            old(self)@.phase == Phase::Idle,
        ensures
            final(self)@ == old(self)@.on_idle(event@).0,
            actions_view(actions@) == old(self)@.on_idle(event@).1,
    {
        proof {
            use_type_invariant(&*self);
        }
        match event {
            WatchEvent::Wake { cancelled } => {
                if self.shutdown || cancelled || self.chain.endpoints.len() == 0 {
                    self.phase = Phase::Stopped;
                    let actions = vec![WatchAction::Exit];
                    assert(actions_view(actions@) =~= seq![WatchActionView::Exit]);
                    actions
                } else {
                    let report = self.report(Health::Degraded);
                    let connect = WatchAction::Connect(self.url());
                    let ghost shown = seq![report@, connect@];
                    self.phase = Phase::Connecting;
                    let actions = vec![report, connect];
                    assert(actions_view(actions@) =~= shown);
                    actions
                }
            },
            _ => Self::nothing(),
        }
    }

    /// Takes an event while a connection is being opened.
    fn connecting(&mut self, event: WatchEvent) -> (actions: Vec<WatchAction>)
        requires
            old(self)@.phase == Phase::Connecting,
        ensures
            final(self)@ == old(self)@.on_connecting(event@).0,
            actions_view(actions@) == old(self)@.on_connecting(event@).1,
    {
        proof {
            use_type_invariant(&*self);
        }
        match event {
            WatchEvent::Connected => {
                self.phase = Phase::Pinning;
                let actions = vec![WatchAction::ReadPin];
                assert(actions_view(actions@) =~= seq![WatchActionView::ReadPin]);
                actions
            },
            WatchEvent::ConnectFailed => {
                let report = self.report(Health::Critical);
                let ghost shown = seq![report@];
                self.rotate();
                let actions = vec![report];
                assert(actions_view(actions@) =~= shown);
                actions
            },
            _ => Self::nothing(),
        }
    }

    /// Takes an event while the view of the chain is being read.
    fn pinning(&mut self, event: WatchEvent) -> (actions: Vec<WatchAction>)
        requires
            old(self)@.phase == Phase::Pinning,
        ensures
            final(self)@ == old(self)@.on_pinning(event@).0,
            actions_view(actions@) == old(self)@.on_pinning(event@).1,
    {
        proof {
            use_type_invariant(&*self);
        }
        match event {
            WatchEvent::Pinned(Err(e)) => self.fail(e),
            WatchEvent::Pinned(Ok(pin)) => {
                let url = self.url();
                let block = pin.block;
                match ChainWatcher::prepare_chain(&self.chain, url.as_str(), pin) {
                    Err(e) => self.fail(e),
                    Ok(watcher) => match watcher.all_queries(&self.watched) {
                        Err(e) => self.fail(e),
                        Ok(queries) => {
                            let publish = WatchAction::ConnectChain(watcher.assets.clone());
                            let read = WatchAction::ReadBalances(block, queries);
                            let ghost shown = seq![publish@, read@];
                            proof {
                                use_type_invariant(&watcher.assets);
                            }
                            self.watcher = Some(watcher);
                            self.pin = block;
                            self.phase = Phase::Reconciling;
                            let actions = vec![publish, read];
                            assert(actions_view(actions@) =~= shown);
                            actions
                        },
                    },
                }
            },
            _ => Self::nothing(),
        }
    }

    /// Takes an event while the carried-over invoices are looked at.
    fn reconciling(&mut self, event: WatchEvent) -> (actions: Vec<WatchAction>)
        requires
            old(self)@.phase == Phase::Reconciling,
        ensures
            final(self)@ == old(self)@.on_reconciling(event@).0,
            actions_view(actions@) == old(self)@.on_reconciling(event@).1,
    {
        proof {
            use_type_invariant(&*self);
        }
        match event {
            WatchEvent::Balances(Err(e)) => self.fail(e),
            WatchEvent::Balances(Ok(balances)) => {
                let mut watched = Watched::new();
                core::mem::swap(&mut self.watched, &mut watched);
                let dropped = match &self.watcher {
                    Some(watcher) => watcher.drop_paid(&mut watched, &balances),
                    None => Err(ChainError::BalanceNotFound),
                };
                self.watched = watched;
                match dropped {
                    Err(e) => self.fail(e),
                    Ok(notices) => {
                        let mut actions = notices;
                        let ghost told = actions_view(actions@);
                        let report = self.report(Health::Good);
                        let ghost shown = told + seq![
                            WatchActionView::WatchBlocks,
                            report@,
                            WatchActionView::Receive(WATCHDOG),
                        ];
                        actions.push(WatchAction::WatchBlocks);
                        actions.push(report);
                        actions.push(WatchAction::Receive(WATCHDOG));
                        self.phase = Phase::Running;
                        assert(actions_view(actions@) =~= shown);
                        actions
                    },
                }
            },
            _ => Self::nothing(),
        }
    }

    /// Takes an event while connected and waiting for a message.
    fn running(&mut self, event: WatchEvent) -> (actions: Vec<WatchAction>)
        requires
            old(self)@.phase == Phase::Running,
        ensures
            final(self)@ == old(self)@.on_running(event@).0,
            actions_view(actions@) == old(self)@.on_running(event@).1,
    {
        proof {
            use_type_invariant(&*self);
        }
        match event {
            WatchEvent::Silence => self.leave(),
            WatchEvent::Request(ChainTrackerRequest::WatchAccount(request)) => {
                let invoice = Invoice::from_request(request);
                let accept = WatchAction::Accept(invoice.id.clone());
                let ghost shown = seq![accept@, WatchActionView::Receive(WATCHDOG)];
                let mut watched = Watched::new();
                core::mem::swap(&mut self.watched, &mut watched);
                watched.insert(invoice);
                self.watched = watched;
                let actions = vec![accept, WatchAction::Receive(WATCHDOG)];
                assert(actions_view(actions@) =~= shown);
                actions
            },
            WatchEvent::Request(ChainTrackerRequest::Reap(request)) => {
                let invoice = Invoice::from_request(request);
                let accept = WatchAction::Accept(invoice.id.clone());
                match &self.watcher {
                    Some(watcher) => {
                        let payout = WatchAction::Payout {
                            rpc: self.url(),
                            invoice,
                            watcher: watcher.clone(),
                        };
                        let ghost shown = seq![accept@, payout@, WatchActionView::Receive(WATCHDOG)];
                        let actions = vec![accept, payout, WatchAction::Receive(WATCHDOG)];
                        assert(actions_view(actions@) =~= shown);
                        actions
                    },
                    None => Self::nothing(),
                }
            },
            WatchEvent::Request(ChainTrackerRequest::Shutdown) => {
                self.phase = Phase::Stopped;
                self.shutdown = true;
                self.watcher = None;
                let actions = vec![WatchAction::AckShutdown, WatchAction::Disconnect, WatchAction::Exit];
                assert(actions_view(actions@) =~= seq![
                    WatchActionView::AckShutdown,
                    WatchActionView::Disconnect,
                    WatchActionView::Exit,
                ]);
                actions
            },
            WatchEvent::Request(ChainTrackerRequest::NewBlock(number)) => {
                let read = WatchAction::ReadBlockHash(number.clone());
                let ghost shown = seq![read@];
                self.block.number = number;
                self.phase = Phase::AwaitingHash;
                let actions = vec![read];
                assert(actions_view(actions@) =~= shown);
                actions
            },
            _ => Self::nothing(),
        }
    }

    /// Takes an event while the hash of a new block is being read.
    fn hash(&mut self, event: WatchEvent) -> (actions: Vec<WatchAction>)
        requires
            old(self)@.phase == Phase::AwaitingHash,
        ensures
            final(self)@ == old(self)@.on_hash(event@).0,
            actions_view(actions@) == old(self)@.on_hash(event@).1,
    {
        proof {
            use_type_invariant(&*self);
        }
        match event {
            WatchEvent::BlockHash(Err(e)) => self.fail(e),
            WatchEvent::BlockHash(Ok(hash)) => {
                self.block.hash = hash;
                self.phase = Phase::AwaitingVersion;
                let actions = vec![WatchAction::ReadRuntimeVersion(hash)];
                assert(actions_view(actions@) =~= seq![WatchActionView::ReadRuntimeVersion(hash@)]);
                actions
            },
            _ => Self::nothing(),
        }
    }

    /// Takes an event while the runtime version at a new block is being read.
    fn version(&mut self, event: WatchEvent) -> (actions: Vec<WatchAction>)
        requires
            old(self)@.phase == Phase::AwaitingVersion,
        ensures
            final(self)@ == old(self)@.on_version(event@).0,
            actions_view(actions@) == old(self)@.on_version(event@).1,
    {
        proof {
            use_type_invariant(&*self);
        }
        match event {
            WatchEvent::RuntimeVersion(Err(e)) => self.fail(e),
            WatchEvent::RuntimeVersion(Ok(version)) => {
                let same = match &self.watcher {
                    Some(watcher) => watcher.version == version,
                    None => false,
                };
                if !same {
                    self.leave()
                } else {
                    let hash = self.block.hash;
                    self.phase = Phase::AwaitingEvents;
                    let actions = vec![WatchAction::ReadEvents(hash)];
                    assert(actions_view(actions@) =~= seq![WatchActionView::ReadEvents(hash@)]);
                    actions
                }
            },
            _ => Self::nothing(),
        }
    }

    /// Takes an event while the transfers of a new block are being read.
    fn events(&mut self, event: WatchEvent) -> (actions: Vec<WatchAction>)
        requires
            old(self)@.phase == Phase::AwaitingEvents,
        ensures
            final(self)@ == old(self)@.on_events(event@).0,
            actions_view(actions@) == old(self)@.on_events(event@).1,
    {
        proof {
            use_type_invariant(&*self);
        }
        match event {
            WatchEvent::Events(Err(e)) => self.fail(e),
            WatchEvent::Events(Ok(read)) => {
                let planned = match &self.watcher {
                    Some(watcher) => watcher.due_queries(&self.watched, &read.events, read.now),
                    None => Err(ChainError::BalanceNotFound),
                };
                match planned {
                    Err(e) => self.fail(e),
                    Ok(queries) => {
                        let ask = WatchAction::ReadBalances(self.block.hash, queries);
                        let ghost shown = seq![ask@];
                        self.block.timestamp = read.timestamp;
                        self.block.now = read.now;
                        self.block.events = read.events;
                        self.phase = Phase::AwaitingBalances;
                        let actions = vec![ask];
                        assert(actions_view(actions@) =~= shown);
                        actions
                    },
                }
            },
            _ => Self::nothing(),
        }
    }

    /// Takes an event while the balances at a new block are being read.
    fn balances(&mut self, event: WatchEvent) -> (actions: Vec<WatchAction>)
        requires
            old(self)@.phase == Phase::AwaitingBalances,
        ensures
            final(self)@ == old(self)@.on_balances(event@).0,
            actions_view(actions@) == old(self)@.on_balances(event@).1,
    {
        proof {
            use_type_invariant(&*self);
        }
        match event {
            WatchEvent::Balances(Err(e)) => self.fail(e),
            WatchEvent::Balances(Ok(balances)) => {
                self.block.balances = balances;
                let mut watched = Watched::new();
                core::mem::swap(&mut self.watched, &mut watched);
                let settled = match &self.watcher {
                    Some(watcher) => watcher.settle(&mut watched, &self.block),
                    None => Err(ChainError::BalanceNotFound),
                };
                self.watched = watched;
                match settled {
                    Err(e) => self.fail(e),
                    Ok(asked) => {
                        let mut actions = asked;
                        let ghost shown = actions_view(actions@) + seq![
                            WatchActionView::Receive(WATCHDOG),
                        ];
                        actions.push(WatchAction::Receive(WATCHDOG));
                        self.phase = Phase::Running;
                        assert(actions_view(actions@) =~= shown);
                        actions
                    },
                }
            },
            _ => Self::nothing(),
        }
    }

    /// Takes one event and says what is to be done next. The watcher moves
    /// as [`MonitorView::next`] describes; an event that its phase does
    /// not wait for changes nothing and asks for nothing.
    pub fn step(&mut self, event: WatchEvent) -> (actions: Vec<WatchAction>)
        ensures
            final(self)@ == old(self)@.next(event@).0,
            actions_view(actions@) == old(self)@.next(event@).1,
            final(self).wf(),
    {
        let actions = match self.phase {
            Phase::Idle => self.idle(event),
            Phase::Connecting => self.connecting(event),
            Phase::Pinning => self.pinning(event),
            Phase::Reconciling => self.reconciling(event),
            Phase::Running => self.running(event),
            Phase::AwaitingHash => self.hash(event),
            Phase::AwaitingVersion => self.version(event),
            Phase::AwaitingEvents => self.events(event),
            Phase::AwaitingBalances => self.balances(event),
            Phase::Stopped => Self::nothing(),
        };
        proof {
            use_type_invariant(&*self);
        }
        actions
    }
}

/// An endpoint that serves another network than the configured one is
/// refused: the watcher hands out the error, closes the connection and
/// turns to the next endpoint, with nothing published and nothing watched
/// lost.
pub proof fn lemma_wrong_network_is_refused(state: MonitorView, pin: PinReadingView)
    requires
        state.phase == Phase::Pinning,
        pin.spec_name != state.chain.name,
    ensures
        prepared(
            state.chain,
            state.endpoint(),
            pin.genesis_hash,
            pin.version,
            pin.spec_name,
            pin.specs,
            pin.assets,
        ) == Err::<ChainWatcherView, _>(
            ChainErrorView::WrongNetwork {
                expected: state.chain.name,
                actual: pin.spec_name,
                rpc: state.endpoint(),
            },
        ),
        state.next(WatchEventView::Pinned(Ok(pin))).0 == state.rotated(),
        state.next(WatchEventView::Pinned(Ok(pin))).1 == seq![
            WatchActionView::Failed(
                ChainErrorView::WrongNetwork {
                    expected: state.chain.name,
                    actual: pin.spec_name,
                    rpc: state.endpoint(),
                },
            ),
            WatchActionView::Disconnect,
        ],
        state.rotated().phase == Phase::Idle,
        state.rotated().cursor == state.next_cursor(),
        state.rotated().watched == state.watched,
{
}

/// The currencies that a watcher publishes on a fresh connection are as
/// many as the chain is configured with: its assets, and one more where
/// it has a native token. They are the ones the watcher then holds, and
/// no name is among them twice.
pub proof fn lemma_published_currencies_are_complete(
    state: MonitorView,
    pin: PinReadingView,
    published: Seq<(Seq<char>, CurrencyPropertiesView)>,
)
    requires
        state.phase == Phase::Pinning,
        names_distinct(pin.assets),
        state.next(WatchEventView::Pinned(Ok(pin))).1.contains(
            WatchActionView::ConnectChain(published),
        ),
    ensures
        published.len() == state.chain.currency_count(),
        names_distinct(published),
        state.next(WatchEventView::Pinned(Ok(pin))).0.phase == Phase::Reconciling,
        state.next(WatchEventView::Pinned(Ok(pin))).0.watcher is Some,
        state.next(WatchEventView::Pinned(Ok(pin))).0.watcher->0.assets == published,
{
    lemma_wanted_distinct(state.chain, pin.specs.1, pin.assets);
    let actions = state.next(WatchEventView::Pinned(Ok(pin))).1;
    let k = choose|k: int| 0 <= k < actions.len() && actions[k] == WatchActionView::ConnectChain(published);
    assert(actions[k] == WatchActionView::ConnectChain(published));
}

/// On a fresh connection the watcher publishes the currencies before
/// anything else, or gives the endpoint up over an error that it hands
/// out.
pub proof fn lemma_publishes_or_leaves(state: MonitorView, pin: PinReadingView)
    requires
        state.phase == Phase::Pinning,
    ensures
        (state.next(WatchEventView::Pinned(Ok(pin))).0 == state.rotated() && state.next(
            WatchEventView::Pinned(Ok(pin)),
        ).1.len() == 2 && state.next(WatchEventView::Pinned(Ok(pin))).1[0] is Failed && state.next(
            WatchEventView::Pinned(Ok(pin)),
        ).1[1] is Disconnect) || (state.next(
            WatchEventView::Pinned(Ok(pin)),
        ).0.phase == Phase::Reconciling && state.next(WatchEventView::Pinned(Ok(pin))).1[0]
            is ConnectChain),
{
}

/// A connection is never given up without a word: where a watcher with
/// an open connection turns idle, it closes the connection, and it hands
/// out an error first unless the cause is silence or another runtime
/// version.
pub proof fn lemma_gives_up_with_the_error(state: MonitorView, event: WatchEventView)
    requires
        state.phase == Phase::Pinning || state.connected(),
        state.next(event).0.phase == Phase::Idle,
    ensures
        state.next(event).0.cursor == state.next_cursor(),
        state.next(event).0.watched == state.watched,
        (state.next(event).1 == seq![WatchActionView::Disconnect] && (event is Silence || event
            is RuntimeVersion)) || (state.next(event).1.len() == 2 && state.next(event).1[0]
            is Failed && state.next(event).1[1] is Disconnect),
{
}

/// A read that failed ends the connection with its own error handed out.
pub proof fn lemma_failed_read_is_handed_out(
    state: MonitorView,
    event: WatchEventView,
    error: ChainErrorView,
)
    requires
        (state.phase == Phase::Pinning && event == WatchEventView::Pinned(Err(error)))
            || ((state.phase == Phase::Reconciling || state.phase == Phase::AwaitingBalances)
            && event == WatchEventView::Balances(Err(error))) || (state.phase
            == Phase::AwaitingHash && event == WatchEventView::BlockHash(Err(error)))
            || (state.phase == Phase::AwaitingVersion && event == WatchEventView::RuntimeVersion(
            Err(error),
        )) || (state.phase == Phase::AwaitingEvents && event == WatchEventView::Events(Err(error))),
    ensures
        state.next(event) == state.fail(error),
        state.next(event).1 == seq![WatchActionView::Failed(error), WatchActionView::Disconnect],
{
}

/// A block that cannot be settled ends the connection with the fault
/// handed out, and leaves the watched invoices as they are.
pub proof fn lemma_fault_is_handed_out(
    state: MonitorView,
    balances: Seq<(Seq<u8>, Option<AssetId>, u128)>,
    fault: ChainErrorView,
)
    requires
        state.phase == Phase::AwaitingBalances,
        state.watcher is Some,
        block_fault(
            state.watched,
            state.watcher->0.assets,
            BlockView { balances, ..state.block },
        ) == Some(fault),
    ensures
        state.next(WatchEventView::Balances(Ok(balances))).1 == seq![
            WatchActionView::Failed(fault),
            WatchActionView::Disconnect,
        ],
        state.next(WatchEventView::Balances(Ok(balances))).0.phase == Phase::Idle,
        state.next(WatchEventView::Balances(Ok(balances))).0.watched == state.watched,
{
}

/// A block that reports another runtime version than the one the
/// watcher connected under is not read: the watcher asks for no
/// transfers and no balances, closes the connection and turns to the
/// next endpoint; the watched invoices stay as they are, and whatever is
/// read of that block afterwards changes nothing.
pub proof fn lemma_version_fence(state: MonitorView, version: Seq<char>)
    requires
        state.phase == Phase::AwaitingVersion,
        state.watcher is Some,
        version != state.watcher->0.version,
    ensures
        state.next(WatchEventView::RuntimeVersion(Ok(version))).0 == state.rotated(),
        state.next(WatchEventView::RuntimeVersion(Ok(version))).1 == seq![
            WatchActionView::Disconnect,
        ],
        state.rotated().phase == Phase::Idle,
        state.rotated().watched == state.watched,
        forall|later: WatchEventView|
            later is Events || later is Balances ==> #[trigger] state.rotated().next(later) == (
                state.rotated(),
                Seq::<WatchActionView>::empty(),
            ),
{
}

/// Under the version it connected under, the watcher reads the block.
pub proof fn lemma_same_version_reads(state: MonitorView)
    requires
        state.phase == Phase::AwaitingVersion,
        state.watcher is Some,
    ensures
        state.next(WatchEventView::RuntimeVersion(Ok(state.watcher->0.version))).1 == seq![
            WatchActionView::ReadEvents(state.block.hash),
        ],
{
}

/// Watching overwrites by order id and keeps the ids distinct.
pub proof fn lemma_inserted_distinct(state: MonitorView, invoice: InvoiceView)
    requires
        ids_distinct(state.watched),
    ensures
        ids_distinct(state.inserted(invoice)),
{
    let before = state.watched;
    let after = state.inserted(invoice);
    lemma_find_invoice_from(before, invoice.id, 0);
    assert forall|a: int, b: int| 0 <= a < b < after.len() implies (#[trigger] after[a]).id != (
    #[trigger] after[b]).id by {
        if a < before.len() && after[a] != invoice {
            assert(after[a] == before[a]);
        }
        if b < before.len() && after[b] != invoice {
            assert(after[b] == before[b]);
        }
    }
}

/// Every state that a valid watcher reaches is valid, given that what
/// was read of the chain names no currency twice.
pub proof fn lemma_next_is_valid(state: MonitorView, event: WatchEventView)
    requires
        state.wf(),
        event matches WatchEventView::Pinned(Ok(pin)) ==> names_distinct(pin.assets),
    ensures
        state.next(event).0.wf(),
{
    let after = state.next(event).0;
    let n = state.chain.endpoints.len() as int;
    if n > 0 {
        assert(0 <= state.next_cursor() < n) by (nonlinear_arith)
            requires
                state.next_cursor() == (state.cursor + 1) % n,
                0 <= state.cursor,
                n > 0,
        ;
    }
    assert(state.rotated().wf());
    match state.phase {
        Phase::Pinning => {
            if let WatchEventView::Pinned(Ok(pin)) = event {
                lemma_wanted_distinct(state.chain, pin.specs.1, pin.assets);
            }
        },
        Phase::Reconciling => {
            if let WatchEventView::Balances(Ok(balances)) = event {
                lemma_unpaid_upto(
                    state.watched,
                    state.watcher->0.assets,
                    balances,
                    state.watched.len() as int,
                );
            }
        },
        Phase::Running => {
            if let WatchEventView::Request(RequestView::WatchAccount(invoice)) = event {
                lemma_inserted_distinct(state, invoice);
            }
        },
        Phase::AwaitingBalances => {
            if let WatchEventView::Balances(Ok(balances)) = event {
                let block = BlockView { balances, ..state.block };
                lemma_survivors_upto(
                    state.watched,
                    state.watcher->0.assets,
                    block,
                    state.watched.len() as int,
                );
                assert((MonitorView { block, ..state }).rotated().wf());
            }
        },
        _ => {},
    }
}

/// Whenever a watcher tells an order paid, it watched that order before
/// the event and watches it no more after: so it cannot tell it paid
/// again, unless the order is handed in anew.
pub proof fn lemma_told_paid_is_dropped(state: MonitorView, event: WatchEventView, id: Seq<char>)
    requires
        state.wf(),
        state.next(event).1.contains(WatchActionView::OrderPaid(id)),
    ensures
        watching(state.watched, id),
        !watching(state.next(event).0.watched, id),
{
    let notice = WatchActionView::OrderPaid(id);
    let actions = state.next(event).1;
    let k = choose|k: int| 0 <= k < actions.len() && actions[k] == notice;
    assert(actions[k] == notice);
    match state.phase {
        Phase::Reconciling => {
            if let WatchEventView::Balances(Ok(balances)) = event {
                let assets = state.watcher->0.assets;
                let n = state.watched.len() as int;
                let told = paid_notices_upto(state.watched, assets, balances, n);
                assert(told[k] == notice);
                assert(told.contains(notice));
                lemma_carried_paid_leaves(state.watched, assets, balances, id);
            }
        },
        Phase::AwaitingBalances => {
            if let WatchEventView::Balances(Ok(balances)) = event {
                let assets = state.watcher->0.assets;
                let block = BlockView { balances, ..state.block };
                let told = block_actions(state.watched, assets, block);
                assert(told[k] == notice);
                assert(told.contains(notice));
                lemma_paid_order_leaves(state.watched, assets, block, id);
            }
        },
        _ => {},
    }
}

/// A watcher opens a connection only between two connections, and to
/// the endpoint that its cursor names: so it holds one connection at
/// most.
pub proof fn lemma_connects_only_when_idle(
    state: MonitorView,
    event: WatchEventView,
    url: Seq<char>,
)
    requires
        state.next(event).1.contains(WatchActionView::Connect(url)),
    ensures
        state.phase == Phase::Idle,
        url == state.endpoint(),
        state.next(event).0.phase == Phase::Connecting,
{
    let actions = state.next(event).1;
    let k = choose|k: int| 0 <= k < actions.len() && actions[k] == WatchActionView::Connect(url);
    assert(actions[k] == WatchActionView::Connect(url));
    match state.phase {
        Phase::Reconciling => {
            if let WatchEventView::Balances(Ok(balances)) = event {
                let n = state.watched.len() as int;
                let told = paid_notices_upto(state.watched, state.watcher->0.assets, balances, n);
                lemma_paid_notices_upto(
                    state.watched,
                    state.watcher->0.assets,
                    balances,
                    n,
                    Seq::empty(),
                );
                if k < told.len() {
                    assert(actions[k] == told[k]);
                }
            }
        },
        Phase::AwaitingBalances => {
            if let WatchEventView::Balances(Ok(balances)) = event {
                let block = BlockView { balances, ..state.block };
                let asked = block_actions(state.watched, state.watcher->0.assets, block);
                lemma_settling_notes_and_records(
                    state.watched,
                    state.watcher->0.assets,
                    block,
                    state.watched.len() as int,
                );
                if k < asked.len() {
                    assert(actions[k] == asked[k]);
                }
            }
        },
        _ => {},
    }
}

/// An invoice that is handed in while the watcher waits for a message is
/// watched from then on, as it was handed in: so the next block finds it.
pub proof fn lemma_handed_in_is_watched(state: MonitorView, invoice: InvoiceView)
    requires
        state.phase == Phase::Running,
    ensures
        state.next(WatchEventView::Request(RequestView::WatchAccount(invoice))).0.phase
            == Phase::Running,
        state.next(WatchEventView::Request(RequestView::WatchAccount(invoice))).0.watched.contains(
            invoice,
        ),
        watching(
            state.next(WatchEventView::Request(RequestView::WatchAccount(invoice))).0.watched,
            invoice.id,
        ),
{
    let after = state.inserted(invoice);
    lemma_find_invoice_from(state.watched, invoice.id, 0);
    match find_invoice_from(state.watched, invoice.id, 0) {
        Some(i) => {
            assert(after[i] == invoice);
        },
        None => {
            assert(after[state.watched.len() as int] == invoice);
        },
    }
}

/// Whether an event hands in the order `id` to be watched.
pub open spec fn hands_in(event: WatchEventView, id: Seq<char>) -> bool {
    event matches WatchEventView::Request(RequestView::WatchAccount(invoice)) && invoice.id == id
}

/// An order that is not watched is not told paid, and stays unwatched
/// until it is handed in.
pub proof fn lemma_unwatched_is_not_told_paid(
    state: MonitorView,
    event: WatchEventView,
    id: Seq<char>,
)
    requires
        state.wf(),
        !watching(state.watched, id),
    ensures
        !state.next(event).1.contains(WatchActionView::OrderPaid(id)),
        !hands_in(event, id) ==> !watching(state.next(event).0.watched, id),
{
    if state.next(event).1.contains(WatchActionView::OrderPaid(id)) {
        lemma_told_paid_is_dropped(state, event, id);
    }
    let after = state.next(event).0.watched;
    if !hands_in(event, id) && watching(after, id) {
        let a = choose|a: int| 0 <= a < after.len() && (#[trigger] after[a]).id == id;
        match state.phase {
            Phase::Reconciling => {
                if let WatchEventView::Balances(Ok(balances)) = event {
                    let at = lemma_unpaid_upto(
                        state.watched,
                        state.watcher->0.assets,
                        balances,
                        state.watched.len() as int,
                    );
                    if after != state.watched {
                        assert(after[a] == state.watched[at[a]]);
                    }
                }
            },
            Phase::Running => {
                if let WatchEventView::Request(RequestView::WatchAccount(invoice)) = event {
                    lemma_find_invoice_from(state.watched, invoice.id, 0);
                    if a < state.watched.len() && after[a] != invoice {
                        assert(after[a] == state.watched[a]);
                    }
                }
            },
            Phase::AwaitingBalances => {
                if let WatchEventView::Balances(Ok(balances)) = event {
                    let block = BlockView { balances, ..state.block };
                    let at = lemma_survivors_upto(
                        state.watched,
                        state.watcher->0.assets,
                        block,
                        state.watched.len() as int,
                    );
                    if after != state.watched {
                        assert(after[a] == state.watched[at[a]]);
                    }
                }
            },
            _ => {},
        }
        assert(watching(state.watched, id));
    }
}

/// Whether nothing that is read of a chain names a currency twice.
pub open spec fn pins_valid(events: Seq<WatchEventView>) -> bool {
    forall|k: int|
        0 <= k < events.len() ==> ((#[trigger] events[k]) matches WatchEventView::Pinned(Ok(pin))
            ==> names_distinct(pin.assets))
}

/// The state of a watcher after the first `n` of a run of events.
pub open spec fn state_after(state: MonitorView, events: Seq<WatchEventView>, n: int) -> MonitorView
    decreases n,
{
    if n <= 0 {
        state
    } else {
        state_after(state, events, n - 1).next(events[n - 1]).0
    }
}

/// What a watcher asks for on the `n`-th of a run of events, counted
/// from zero.
pub open spec fn asked_at(state: MonitorView, events: Seq<WatchEventView>, n: int) -> Seq<
    WatchActionView,
> {
    state_after(state, events, n).next(events[n]).1
}

/// A valid watcher stays valid through any run of events.
pub proof fn lemma_run_is_valid(state: MonitorView, events: Seq<WatchEventView>, n: int)
    requires
        state.wf(),
        pins_valid(events),
        0 <= n <= events.len(),
    ensures
        state_after(state, events, n).wf(),
    decreases n,
{
    if n > 0 {
        lemma_run_is_valid(state, events, n - 1);
        lemma_next_is_valid(state_after(state, events, n - 1), events[n - 1]);
    }
}

/// Once a watcher has told an order paid, it never tells it paid again,
/// as long as the order is not handed in anew: in any run of events, if
/// the `k`-th brings a notice for the order `id` and none of the later
/// ones up to the `l`-th hands that order in, the `l`-th brings no such
/// notice.
pub proof fn lemma_paid_is_told_once(
    state: MonitorView,
    events: Seq<WatchEventView>,
    id: Seq<char>,
    k: int,
    l: int,
)
    requires
        state.wf(),
        pins_valid(events),
        0 <= k < l < events.len(),
        asked_at(state, events, k).contains(WatchActionView::OrderPaid(id)),
        forall|j: int| k < j <= l ==> !hands_in(#[trigger] events[j], id),
    ensures
        !watching(state_after(state, events, l).watched, id),
        !asked_at(state, events, l).contains(WatchActionView::OrderPaid(id)),
    decreases l - k,
{
    lemma_run_is_valid(state, events, l);
    if l == k + 1 {
        lemma_run_is_valid(state, events, k);
        lemma_told_paid_is_dropped(state_after(state, events, k), events[k], id);
    } else {
        lemma_paid_is_told_once(state, events, id, k, l - 1);
        lemma_run_is_valid(state, events, l - 1);
        assert(!hands_in(events[l - 1], id));
        lemma_unwatched_is_not_told_paid(state_after(state, events, l - 1), events[l - 1], id);
    }
    lemma_unwatched_is_not_told_paid(state_after(state, events, l), events[l], id);
}

} // verus!
