use kalatori::account::AccountId32;
use kalatori::chain::definitions::{
    BalanceEntry, BlockBalances, BlockHash, ChainTrackerRequest, WatchAccount, WatchAction,
};
use kalatori::chain::monitor::{BlockEvents, ChainMonitor, Phase, WatchEvent, WATCHDOG};
use kalatori::chain::tracker::{start_chain_watch, PinReading};
use kalatori::chain::utils::TransferEvent;
use kalatori::database::definitions::Timestamp;
use kalatori::database::TxKind;
use kalatori::definitions::{AssetInfo, Chain, Currencies, NativeToken, ShortSpecs};
use kalatori::error::ChainError;
use kalatori::server::definitions::api_v2::{
    Amount, CurrencyProperties, Health, TokenKind, TxStatus,
};
use kalatori::server::definitions::Balance;

const NOW: u64 = 1_700_000_500_000;
const LATER: u64 = 1_800_000_000_000;

fn payer() -> AccountId32 {
    AccountId32([2; 32])
}

fn paid_into() -> AccountId32 {
    AccountId32([1; 32])
}

fn chain(endpoints: &[&str]) -> Chain {
    Chain {
        name: "westend".to_string(),
        endpoints: endpoints.iter().map(|url| url.to_string()).collect(),
        native_token: Some(NativeToken { name: "WND".to_string(), decimals: 12 }),
        asset: vec![AssetInfo { name: "USDC".to_string(), id: 1337 }],
    }
}

fn offered() -> Currencies {
    let mut assets = Currencies::new();
    for (name, kind, decimals, asset_id) in [
        ("JUNK", TokenKind::Asset, 3u8, Some(7u32)),
        ("WND", TokenKind::Native, 12, None),
        ("USDC", TokenKind::Asset, 6, Some(1337)),
    ] {
        assets.insert(
            name.to_string(),
            CurrencyProperties {
                chain_name: "westend".to_string(),
                kind,
                decimals,
                rpc_url: "wss://a".to_string(),
                asset_id,
                ss58: 42,
            },
        );
    }
    assets
}

fn pin(spec_name: &str, version: &str) -> PinReading {
    PinReading {
        genesis_hash: BlockHash([0xaa; 32]),
        block: BlockHash([0xbb; 32]),
        version: version.to_string(),
        spec_name: spec_name.to_string(),
        specs: ShortSpecs { base58prefix: 42, decimals: 12, unit: "WND".to_string() },
        assets: offered(),
    }
}

fn request(id: &str, address: AccountId32, currency: &str, amount: u128, death: u64) -> WatchAccount {
    WatchAccount {
        id: id.to_string(),
        address,
        currency: currency.to_string(),
        amount: Balance(amount),
        recipient: AccountId32([3; 32]),
        death: Timestamp(death),
    }
}

fn watch(id: &str, address: AccountId32, currency: &str, amount: u128, death: u64) -> WatchEvent {
    WatchEvent::Request(ChainTrackerRequest::WatchAccount(request(
        id, address, currency, amount, death,
    )))
}

fn transfer(from: AccountId32, to: AccountId32, amount: u128) -> TransferEvent {
    TransferEvent { extrinsic: Some((3, vec![0xde, 0xad])), from, to, amount: Balance(amount) }
}

fn events(list: Vec<TransferEvent>) -> WatchEvent {
    WatchEvent::Events(Ok(BlockEvents {
        timestamp: Timestamp(1_700_000_000_000),
        now: Timestamp(NOW),
        events: list,
    }))
}

fn balances(list: Vec<(AccountId32, Option<u32>, u128)>) -> WatchEvent {
    WatchEvent::Balances(Ok(BlockBalances {
        entries: list
            .into_iter()
            .map(|(account, asset_id, balance)| BalanceEntry {
                account,
                asset_id,
                balance: Balance(balance),
            })
            .collect(),
    }))
}

fn failure() -> ChainError {
    ChainError::Client("connection reset".to_string())
}

fn running(endpoints: &[&str]) -> ChainMonitor {
    let mut monitor = start_chain_watch(chain(endpoints));
    monitor.step(WatchEvent::Wake { cancelled: false });
    monitor.step(WatchEvent::Connected);
    monitor.step(WatchEvent::Pinned(Ok(pin("westend", "v0"))));
    monitor.step(balances(vec![]));
    assert_eq!(monitor.phase(), Phase::Running);
    monitor
}

fn at_version(monitor: &mut ChainMonitor, number: &str) {
    monitor.step(WatchEvent::Request(ChainTrackerRequest::NewBlock(number.to_string())));
    monitor.step(WatchEvent::BlockHash(Ok(BlockHash([0xcc; 32]))));
    assert_eq!(monitor.phase(), Phase::AwaitingVersion);
}

fn run_block(
    monitor: &mut ChainMonitor,
    number: &str,
    list: Vec<TransferEvent>,
    read: Vec<(AccountId32, Option<u32>, u128)>,
) -> Vec<WatchAction> {
    at_version(monitor, number);
    monitor.step(WatchEvent::RuntimeVersion(Ok("v0".to_string())));
    monitor.step(events(list));
    assert_eq!(monitor.phase(), Phase::AwaitingBalances);
    monitor.step(balances(read))
}

fn paid_ids(actions: &[WatchAction]) -> Vec<String> {
    actions
        .iter()
        .filter_map(|action| match action {
            WatchAction::OrderPaid(id) => Some(id.clone()),
            _ => None,
        })
        .collect()
}

fn only_disconnects(actions: &[WatchAction]) -> bool {
    actions.len() == 1 && matches!(actions[0], WatchAction::Disconnect)
}

fn failure_of(actions: &[WatchAction]) -> &ChainError {
    match actions {
        [WatchAction::Failed(error), WatchAction::Disconnect] => error,
        other => panic!("unexpected actions {other:?}"),
    }
}

fn fails_at_the_endpoint(actions: &[WatchAction]) -> bool {
    matches!(failure_of(actions), ChainError::Client(message) if message == "connection reset")
}

#[test]
fn watchdog_is_two_minutes() {
    assert_eq!(WATCHDOG, 120_000);
}

#[test]
fn fresh_watcher_is_idle_at_the_first_endpoint() {
    let monitor = start_chain_watch(chain(&["wss://a", "wss://b"]));
    assert_eq!(monitor.phase(), Phase::Idle);
    assert_eq!(monitor.watched().len(), 0);
    assert!(monitor.watcher().is_none());
    assert_eq!(monitor.endpoint().unwrap(), "wss://a");
}

#[test]
fn connection_goes_through_its_steps() {
    let mut monitor = start_chain_watch(chain(&["wss://a", "wss://b"]));
    let actions = monitor.step(WatchEvent::Wake { cancelled: false });
    assert_eq!(actions.len(), 2);
    match &actions[0] {
        WatchAction::Report(info) => {
            assert_eq!(info.chain_name, "westend");
            assert_eq!(info.rpc_url, "wss://a");
            assert_eq!(info.status, Health::Degraded);
        }
        other => panic!("unexpected action {other:?}"),
    }
    assert!(matches!(&actions[1], WatchAction::Connect(url) if url == "wss://a"));
    assert_eq!(monitor.phase(), Phase::Connecting);

    let actions = monitor.step(WatchEvent::Connected);
    assert_eq!(actions.len(), 1);
    assert!(matches!(actions[0], WatchAction::ReadPin));
    assert_eq!(monitor.phase(), Phase::Pinning);

    let actions = monitor.step(WatchEvent::Pinned(Ok(pin("westend", "v0"))));
    assert_eq!(actions.len(), 2);
    match &actions[0] {
        WatchAction::ConnectChain(assets) => {
            assert_eq!(assets.len(), 2);
            assert_eq!(assets.name_at(0), "WND");
            assert_eq!(assets.name_at(1), "USDC");
        }
        other => panic!("unexpected action {other:?}"),
    }
    match &actions[1] {
        WatchAction::ReadBalances(block, queries) => {
            assert_eq!(block.0, [0xbb; 32]);
            assert!(queries.is_empty());
        }
        other => panic!("unexpected action {other:?}"),
    }
    assert_eq!(monitor.phase(), Phase::Reconciling);
    assert_eq!(monitor.watcher().unwrap().version, "v0");
    assert_eq!(monitor.watcher().unwrap().genesis_hash.0, [0xaa; 32]);

    let actions = monitor.step(balances(vec![]));
    assert_eq!(actions.len(), 3);
    assert!(matches!(actions[0], WatchAction::WatchBlocks));
    assert!(matches!(&actions[1], WatchAction::Report(info) if info.status == Health::Good
        && info.rpc_url == "wss://a"));
    assert!(matches!(actions[2], WatchAction::Receive(120_000)));
    assert_eq!(monitor.phase(), Phase::Running);
}

#[test]
fn published_currencies_are_the_configured_ones() {
    let configured = chain(&["wss://a"]);
    let expected = configured.asset.len() + 1;
    let mut monitor = start_chain_watch(configured);
    monitor.step(WatchEvent::Wake { cancelled: false });
    monitor.step(WatchEvent::Connected);
    let actions = monitor.step(WatchEvent::Pinned(Ok(pin("westend", "v0"))));
    let published: Vec<usize> = actions
        .iter()
        .filter_map(|action| match action {
            WatchAction::ConnectChain(assets) => Some(assets.len()),
            _ => None,
        })
        .collect();
    assert_eq!(published, vec![expected]);
    assert_eq!(monitor.watcher().unwrap().assets.len(), expected);
}

#[test]
fn failed_connection_is_critical_and_rotates() {
    let mut monitor = start_chain_watch(chain(&["wss://a", "wss://b"]));
    monitor.step(WatchEvent::Wake { cancelled: false });
    let actions = monitor.step(WatchEvent::ConnectFailed);
    assert_eq!(actions.len(), 1);
    assert!(matches!(&actions[0], WatchAction::Report(info) if info.status == Health::Critical
        && info.rpc_url == "wss://a"));
    assert_eq!(monitor.phase(), Phase::Idle);
    assert_eq!(monitor.endpoint().unwrap(), "wss://b");
    let actions = monitor.step(WatchEvent::Wake { cancelled: false });
    assert!(matches!(&actions[1], WatchAction::Connect(url) if url == "wss://b"));
    monitor.step(WatchEvent::ConnectFailed);
    assert_eq!(monitor.endpoint().unwrap(), "wss://a");
}

#[test]
fn wrong_network_is_refused_and_the_endpoint_rotates() {
    let mut monitor = start_chain_watch(chain(&["wss://a", "wss://b", "wss://c"]));
    monitor.step(WatchEvent::Wake { cancelled: false });
    monitor.step(WatchEvent::Connected);
    let actions = monitor.step(WatchEvent::Pinned(Ok(pin("kusama", "v0"))));
    match failure_of(&actions) {
        ChainError::WrongNetwork { expected, actual, rpc } => {
            assert_eq!(expected, "westend");
            assert_eq!(actual, "kusama");
            assert_eq!(rpc, "wss://a");
        }
        other => panic!("unexpected error {other:?}"),
    }
    assert_eq!(monitor.phase(), Phase::Idle);
    assert!(monitor.watcher().is_none());
    assert_eq!(monitor.endpoint().unwrap(), "wss://b");
}

#[test]
fn incomplete_offer_is_refused() {
    let mut monitor = start_chain_watch(chain(&["wss://a", "wss://b"]));
    monitor.step(WatchEvent::Wake { cancelled: false });
    monitor.step(WatchEvent::Connected);
    let mut reading = pin("westend", "v0");
    reading.assets = Currencies::new();
    let actions = monitor.step(WatchEvent::Pinned(Ok(reading)));
    assert!(matches!(failure_of(&actions), ChainError::AssetsInvalid(name) if name == "westend"));
    assert_eq!(monitor.endpoint().unwrap(), "wss://b");
}

#[test]
fn failed_pin_rotates() {
    let mut monitor = start_chain_watch(chain(&["wss://a", "wss://b"]));
    monitor.step(WatchEvent::Wake { cancelled: false });
    monitor.step(WatchEvent::Connected);
    assert!(fails_at_the_endpoint(&monitor.step(WatchEvent::Pinned(Err(failure())))));
    assert_eq!(monitor.phase(), Phase::Idle);
    assert_eq!(monitor.endpoint().unwrap(), "wss://b");
}

#[test]
fn cancelled_watcher_exits() {
    let mut monitor = start_chain_watch(chain(&["wss://a"]));
    let actions = monitor.step(WatchEvent::Wake { cancelled: true });
    assert_eq!(actions.len(), 1);
    assert!(matches!(actions[0], WatchAction::Exit));
    assert_eq!(monitor.phase(), Phase::Stopped);
    assert!(monitor.step(WatchEvent::Wake { cancelled: false }).is_empty());
    assert_eq!(monitor.phase(), Phase::Stopped);
}

#[test]
fn watcher_without_endpoints_exits() {
    let mut monitor = start_chain_watch(chain(&[]));
    assert!(monitor.endpoint().is_none());
    let actions = monitor.step(WatchEvent::Wake { cancelled: false });
    assert!(matches!(actions[..], [WatchAction::Exit]));
    assert_eq!(monitor.phase(), Phase::Stopped);
}

#[test]
fn shutdown_is_acknowledged_and_ends_the_watcher() {
    let mut monitor = running(&["wss://a", "wss://b"]);
    let actions = monitor.step(WatchEvent::Request(ChainTrackerRequest::Shutdown));
    assert!(matches!(
        actions[..],
        [WatchAction::AckShutdown, WatchAction::Disconnect, WatchAction::Exit]
    ));
    assert_eq!(monitor.phase(), Phase::Stopped);
    assert!(monitor.step(WatchEvent::Wake { cancelled: false }).is_empty());
    assert!(monitor.step(watch("O", paid_into(), "WND", 1, LATER)).is_empty());
}

#[test]
fn silence_gives_the_connection_up() {
    let mut monitor = running(&["wss://a", "wss://b"]);
    monitor.step(watch("O", paid_into(), "WND", 1, LATER));
    assert!(only_disconnects(&monitor.step(WatchEvent::Silence)));
    assert_eq!(monitor.phase(), Phase::Idle);
    assert_eq!(monitor.endpoint().unwrap(), "wss://b");
    assert_eq!(monitor.watched().len(), 1);
}

#[test]
fn watch_request_is_accepted_and_overwrites_by_id() {
    let mut monitor = running(&["wss://a"]);
    let actions = monitor.step(watch("O", paid_into(), "WND", 5, LATER));
    assert_eq!(actions.len(), 2);
    assert!(matches!(&actions[0], WatchAction::Accept(id) if id == "O"));
    assert!(matches!(actions[1], WatchAction::Receive(120_000)));
    monitor.step(watch("P", payer(), "USDC", 6, LATER));
    monitor.step(watch("O", paid_into(), "WND", 7, LATER));
    assert_eq!(monitor.watched().len(), 2);
    assert_eq!(monitor.watched().get(&"O".to_string()).unwrap().amount, Balance(7));
    assert_eq!(monitor.phase(), Phase::Running);
}

#[test]
fn reap_starts_a_payout_through_the_current_endpoint() {
    let mut monitor = running(&["wss://a"]);
    let actions = monitor.step(WatchEvent::Request(ChainTrackerRequest::Reap(request(
        "O",
        paid_into(),
        "WND",
        5,
        LATER,
    ))));
    assert_eq!(actions.len(), 3);
    assert!(matches!(&actions[0], WatchAction::Accept(id) if id == "O"));
    match &actions[1] {
        WatchAction::Payout { rpc, invoice, watcher } => {
            assert_eq!(rpc, "wss://a");
            assert_eq!(invoice.id, "O");
            assert_eq!(invoice.amount, Balance(5));
            assert_eq!(invoice.recipient.0, [3; 32]);
            assert_eq!(watcher.version, "v0");
            assert_eq!(watcher.assets.len(), 2);
        }
        other => panic!("unexpected action {other:?}"),
    }
    assert!(matches!(actions[2], WatchAction::Receive(120_000)));
    assert_eq!(monitor.watched().len(), 0);
    assert_eq!(monitor.phase(), Phase::Running);
}

#[test]
fn native_payment_is_told_paid_once_and_recorded() {
    let mut monitor = running(&["wss://a"]);
    monitor.step(watch("O", paid_into(), "WND", 1_000_000_000_000, LATER));
    let actions = monitor.step(WatchEvent::Request(ChainTrackerRequest::NewBlock("100".to_string())));
    assert!(matches!(&actions[..], [WatchAction::ReadBlockHash(number)] if number == "100"));
    let actions = monitor.step(WatchEvent::BlockHash(Ok(BlockHash([0xcc; 32]))));
    assert!(matches!(&actions[..], [WatchAction::ReadRuntimeVersion(hash)] if hash.0 == [0xcc; 32]));
    let actions = monitor.step(WatchEvent::RuntimeVersion(Ok("v0".to_string())));
    assert!(matches!(&actions[..], [WatchAction::ReadEvents(hash)] if hash.0 == [0xcc; 32]));
    let actions = monitor.step(events(vec![transfer(payer(), paid_into(), 1_000_000_000_000)]));
    match &actions[..] {
        [WatchAction::ReadBalances(hash, queries)] => {
            assert_eq!(hash.0, [0xcc; 32]);
            assert_eq!(queries.len(), 1);
            assert_eq!(queries[0].account.0, paid_into().0);
            assert_eq!(queries[0].asset_id, None);
        }
        other => panic!("unexpected actions {other:?}"),
    }
    let actions = monitor.step(balances(vec![(paid_into(), None, 1_000_000_000_000)]));
    assert_eq!(actions.len(), 3);
    assert_eq!(paid_ids(&actions), vec!["O"]);
    assert!(matches!(&actions[0], WatchAction::OrderPaid(id) if id == "O"));
    match &actions[1] {
        WatchAction::RecordTransaction(record, id) => {
            assert_eq!(id, "O");
            assert_eq!(record.transaction_bytes, "0xdead");
            assert_eq!(record.inner.kind, TxKind::Payment);
            assert_eq!(record.inner.sender, payer().to_base58_string(42));
            assert_eq!(record.inner.recipient, paid_into().to_base58_string(42));
            assert_eq!(record.inner.amount, Amount::Exact(Balance(1_000_000_000_000)));
            assert_eq!(record.inner.status, TxStatus::Finalized);
            assert_eq!(record.inner.finalized_tx.as_ref().unwrap().block_number, "100");
            assert_eq!(record.inner.finalized_tx.as_ref().unwrap().position_in_block, 3);
        }
        other => panic!("unexpected action {other:?}"),
    }
    assert!(matches!(actions[2], WatchAction::Receive(120_000)));
    assert_eq!(monitor.phase(), Phase::Running);
    assert_eq!(monitor.watched().len(), 0);

    let next =
        run_block(&mut monitor, "101", vec![transfer(payer(), paid_into(), 1_000_000_000_000)], vec![]);
    assert!(paid_ids(&next).is_empty());
    assert!(matches!(next[..], [WatchAction::Receive(_)]));
}

#[test]
fn short_asset_payment_is_recorded_and_stays_watched() {
    let mut monitor = running(&["wss://a"]);
    monitor.step(watch("O", paid_into(), "USDC", 10_000_000, LATER));
    let actions = run_block(
        &mut monitor,
        "100",
        vec![transfer(payer(), paid_into(), 9_999_999)],
        vec![(paid_into(), Some(1337), 9_999_999)],
    );
    assert!(paid_ids(&actions).is_empty());
    assert_eq!(actions.len(), 2);
    assert!(matches!(&actions[0], WatchAction::RecordTransaction(record, _)
        if record.inner.amount == Amount::Exact(Balance(9_999_999))
        && record.inner.kind == TxKind::Payment));
    assert_eq!(monitor.watched().len(), 1);
}

#[test]
fn dead_invoice_leaves_without_notice() {
    let mut monitor = running(&["wss://a"]);
    monitor.step(watch("O", paid_into(), "WND", 5, NOW - 1));
    let actions = run_block(&mut monitor, "100", vec![], vec![(paid_into(), None, 0)]);
    assert!(matches!(actions[..], [WatchAction::Receive(_)]));
    assert_eq!(monitor.watched().len(), 0);
    assert_eq!(monitor.phase(), Phase::Running);
}

#[test]
fn runtime_upgrade_reconnects_without_reading_the_block() {
    let mut monitor = running(&["wss://a", "wss://b"]);
    monitor.step(watch("O", paid_into(), "WND", 5, 0));
    at_version(&mut monitor, "100");
    let actions = monitor.step(WatchEvent::RuntimeVersion(Ok("v1".to_string())));
    assert!(only_disconnects(&actions));
    assert_eq!(monitor.phase(), Phase::Idle);
    assert!(monitor.watcher().is_none());
    assert_eq!(monitor.endpoint().unwrap(), "wss://b");
    assert_eq!(monitor.watched().len(), 1);
    assert!(monitor.step(events(vec![transfer(payer(), paid_into(), 5)])).is_empty());
    assert!(monitor.step(balances(vec![(paid_into(), None, 5)])).is_empty());
    assert_eq!(monitor.watched().len(), 1);
    assert_eq!(monitor.phase(), Phase::Idle);

    let actions = monitor.step(WatchEvent::Wake { cancelled: false });
    assert!(matches!(&actions[1], WatchAction::Connect(url) if url == "wss://b"));
    monitor.step(WatchEvent::Connected);
    let actions = monitor.step(WatchEvent::Pinned(Ok(pin("westend", "v1"))));
    assert!(matches!(&actions[1], WatchAction::ReadBalances(_, queries) if queries.len() == 1));
    assert_eq!(monitor.watcher().unwrap().version, "v1");
}

#[test]
fn carried_over_invoice_is_settled_on_reconnection() {
    let mut monitor = running(&["wss://a", "wss://b"]);
    monitor.step(watch("paid", paid_into(), "WND", 5, LATER));
    monitor.step(watch("open", payer(), "USDC", 5, LATER));
    monitor.step(WatchEvent::Silence);
    monitor.step(WatchEvent::Wake { cancelled: false });
    monitor.step(WatchEvent::Connected);
    let actions = monitor.step(WatchEvent::Pinned(Ok(pin("westend", "v0"))));
    match &actions[1] {
        WatchAction::ReadBalances(block, queries) => {
            assert_eq!(block.0, [0xbb; 32]);
            assert_eq!(queries.len(), 2);
            assert_eq!(queries[0].asset_id, None);
            assert_eq!(queries[1].asset_id, Some(1337));
        }
        other => panic!("unexpected action {other:?}"),
    }
    let actions =
        monitor.step(balances(vec![(paid_into(), None, 5), (payer(), Some(1337), 4)]));
    assert_eq!(actions.len(), 4);
    assert!(matches!(&actions[0], WatchAction::OrderPaid(id) if id == "paid"));
    assert!(matches!(actions[1], WatchAction::WatchBlocks));
    assert!(matches!(&actions[2], WatchAction::Report(info) if info.status == Health::Good
        && info.rpc_url == "wss://b"));
    assert_eq!(monitor.watched().len(), 1);
    assert_eq!(monitor.watched().at(0).id, "open");
}

#[test]
fn carried_over_invoice_in_unknown_currency_refuses_the_endpoint() {
    let mut monitor = running(&["wss://a", "wss://b"]);
    monitor.step(watch("odd", paid_into(), "KSM", 5, LATER));
    monitor.step(WatchEvent::Silence);
    monitor.step(WatchEvent::Wake { cancelled: false });
    monitor.step(WatchEvent::Connected);
    let actions = monitor.step(WatchEvent::Pinned(Ok(pin("westend", "v0"))));
    assert!(matches!(failure_of(&actions), ChainError::InvalidCurrency(name) if name == "KSM"));
    assert_eq!(monitor.endpoint().unwrap(), "wss://a");
    assert_eq!(monitor.watched().len(), 1);
}

#[test]
fn failed_reads_give_the_connection_up() {
    let fresh = || {
        let mut monitor = running(&["wss://a", "wss://b"]);
        monitor.step(watch("O", paid_into(), "WND", 5, 0));
        monitor
    };
    let mut monitor = fresh();
    monitor.step(WatchEvent::Request(ChainTrackerRequest::NewBlock("1".to_string())));
    assert!(fails_at_the_endpoint(&monitor.step(WatchEvent::BlockHash(Err(failure())))));
    assert_eq!(monitor.phase(), Phase::Idle);

    let mut monitor = fresh();
    at_version(&mut monitor, "1");
    assert!(fails_at_the_endpoint(&monitor.step(WatchEvent::RuntimeVersion(Err(failure())))));
    assert_eq!(monitor.endpoint().unwrap(), "wss://b");

    let mut monitor = fresh();
    at_version(&mut monitor, "1");
    monitor.step(WatchEvent::RuntimeVersion(Ok("v0".to_string())));
    assert!(fails_at_the_endpoint(&monitor.step(WatchEvent::Events(Err(failure())))));

    let mut monitor = fresh();
    at_version(&mut monitor, "1");
    monitor.step(WatchEvent::RuntimeVersion(Ok("v0".to_string())));
    monitor.step(events(vec![]));
    assert!(fails_at_the_endpoint(&monitor.step(WatchEvent::Balances(Err(failure())))));
    assert_eq!(monitor.watched().len(), 1);

    let mut monitor = fresh();
    let actions = run_block(&mut monitor, "1", vec![], vec![]);
    assert!(matches!(failure_of(&actions), ChainError::BalanceNotFound));
    assert_eq!(monitor.watched().len(), 1);
    assert_eq!(monitor.phase(), Phase::Idle);

    let mut monitor = start_chain_watch(chain(&["wss://a", "wss://b"]));
    monitor.step(WatchEvent::Wake { cancelled: false });
    monitor.step(WatchEvent::Connected);
    monitor.step(WatchEvent::Pinned(Ok(pin("westend", "v0"))));
    assert!(fails_at_the_endpoint(&monitor.step(WatchEvent::Balances(Err(failure())))));
    assert_eq!(monitor.endpoint().unwrap(), "wss://b");
}

#[test]
fn errors_that_the_watcher_finds_are_handed_out() {
    let mut monitor = running(&["wss://a", "wss://b"]);
    monitor.step(watch("O", paid_into(), "WND", 5, LATER));
    let mut bare = transfer(payer(), paid_into(), 5);
    bare.extrinsic = None;
    let actions = run_block(&mut monitor, "1", vec![bare], vec![(paid_into(), None, 5)]);
    assert!(matches!(failure_of(&actions), ChainError::TransferEventNoExtrinsic));
    assert_eq!(monitor.phase(), Phase::Idle);
    assert_eq!(monitor.endpoint().unwrap(), "wss://b");
    assert_eq!(monitor.watched().len(), 1);

    let mut monitor = running(&["wss://a"]);
    monitor.step(watch("O", paid_into(), "WND", 5, 0));
    at_version(&mut monitor, "1");
    monitor.step(WatchEvent::RuntimeVersion(Ok("v0".to_string())));
    monitor.step(WatchEvent::Events(Ok(BlockEvents {
        timestamp: Timestamp(u64::MAX),
        now: Timestamp(NOW),
        events: vec![],
    })));
    let actions = monitor.step(balances(vec![(paid_into(), None, 5)]));
    assert!(matches!(failure_of(&actions), ChainError::TimestampOutOfRange(u64::MAX)));
    assert_eq!(monitor.watched().len(), 1);

    let mut monitor = running(&["wss://a"]);
    monitor.step(watch("odd", paid_into(), "KSM", 5, 0));
    at_version(&mut monitor, "1");
    monitor.step(WatchEvent::RuntimeVersion(Ok("v0".to_string())));
    let actions = monitor.step(events(vec![]));
    assert!(matches!(failure_of(&actions), ChainError::InvalidCurrency(name) if name == "KSM"));

    let mut monitor = running(&["wss://a"]);
    monitor.step(watch("lost", paid_into(), "WND", 5, LATER));
    monitor.step(WatchEvent::Silence);
    monitor.step(WatchEvent::Wake { cancelled: false });
    monitor.step(WatchEvent::Connected);
    monitor.step(WatchEvent::Pinned(Ok(pin("westend", "v0"))));
    let actions = monitor.step(balances(vec![]));
    assert!(matches!(failure_of(&actions), ChainError::BalanceNotFound));
    assert_eq!(monitor.watched().len(), 1);
}

#[test]
fn events_out_of_turn_change_nothing() {
    let mut monitor = start_chain_watch(chain(&["wss://a"]));
    assert!(monitor.step(WatchEvent::Connected).is_empty());
    assert!(monitor.step(watch("O", paid_into(), "WND", 5, 0)).is_empty());
    assert!(monitor.step(WatchEvent::Silence).is_empty());
    assert_eq!(monitor.phase(), Phase::Idle);
    assert_eq!(monitor.watched().len(), 0);
    let mut monitor = running(&["wss://a"]);
    assert!(monitor.step(WatchEvent::Connected).is_empty());
    assert!(monitor.step(WatchEvent::Wake { cancelled: true }).is_empty());
    assert!(monitor.step(balances(vec![])).is_empty());
    assert!(monitor.step(WatchEvent::RuntimeVersion(Ok("v1".to_string()))).is_empty());
    assert_eq!(monitor.phase(), Phase::Running);
}

#[test]
fn requests_wait_while_a_block_is_read() {
    let mut monitor = running(&["wss://a"]);
    at_version(&mut monitor, "1");
    assert!(monitor.step(watch("O", paid_into(), "WND", 5, 0)).is_empty());
    assert_eq!(monitor.watched().len(), 0);
    assert_eq!(monitor.phase(), Phase::AwaitingVersion);
}
