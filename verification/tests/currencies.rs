use kalatori::account::AccountId32;
use kalatori::chain::definitions::{BlockHash, Invoice};
use kalatori::chain::tracker::{ChainWatcher, PinReading};
use kalatori::chain::watched::Watched;
use kalatori::database::definitions::Timestamp;
use kalatori::definitions::{AssetInfo, Chain, Currencies, NativeToken, ShortSpecs};
use kalatori::error::ChainError;
use kalatori::server::definitions::api_v2::{CurrencyProperties, TokenKind};
use kalatori::server::definitions::Balance;

fn properties(kind: TokenKind, decimals: u8, asset_id: Option<u32>) -> CurrencyProperties {
    CurrencyProperties {
        chain_name: "westend".to_string(),
        kind,
        decimals,
        rpc_url: "wss://a".to_string(),
        asset_id,
        ss58: 42,
    }
}

fn chain(native: bool, assets: &[(&str, u32)]) -> Chain {
    Chain {
        name: "westend".to_string(),
        endpoints: vec!["wss://a".to_string(), "wss://b".to_string()],
        native_token: if native {
            Some(NativeToken { name: "WND".to_string(), decimals: 12 })
        } else {
            None
        },
        asset: assets
            .iter()
            .map(|(name, id)| AssetInfo { name: name.to_string(), id: *id })
            .collect(),
    }
}

fn offer(entries: &[(&str, Option<u32>)]) -> Currencies {
    let mut offered = Currencies::new();
    for (name, asset_id) in entries {
        let kind = if asset_id.is_some() { TokenKind::Asset } else { TokenKind::Native };
        offered.insert(name.to_string(), properties(kind, 6, *asset_id));
    }
    offered
}

fn pin(spec_name: &str, decimals: u8, offered: Currencies) -> PinReading {
    PinReading {
        genesis_hash: BlockHash([1; 32]),
        block: BlockHash([2; 32]),
        version: "v0".to_string(),
        spec_name: spec_name.to_string(),
        specs: ShortSpecs { base58prefix: 42, decimals, unit: "WND".to_string() },
        assets: offered,
    }
}

fn invoice(id: &str, amount: u128) -> Invoice {
    Invoice {
        id: id.to_string(),
        address: AccountId32([1; 32]),
        currency: "WND".to_string(),
        amount: Balance(amount),
        recipient: AccountId32([3; 32]),
        death: Timestamp(0),
    }
}

#[test]
fn currencies_are_listed_by_name() {
    let mut set = Currencies::new();
    assert_eq!(set.len(), 0);
    assert!(set.get(&"WND".to_string()).is_none());
    set.insert("WND".to_string(), properties(TokenKind::Native, 12, None));
    set.insert("USDC".to_string(), properties(TokenKind::Asset, 6, Some(1337)));
    assert_eq!(set.len(), 2);
    assert_eq!(set.get(&"USDC".to_string()).unwrap().asset_id, Some(1337));
    assert_eq!(set.get(&"WND".to_string()).unwrap().decimals, 12);
    assert!(set.get(&"usdc".to_string()).is_none());
    assert_eq!(set.name_at(0), "WND");
    assert_eq!(set.name_at(1), "USDC");
    assert_eq!(set.properties_at(1).decimals, 6);
}

#[test]
fn currency_insert_overwrites_by_name() {
    let mut set = Currencies::new();
    set.insert("WND".to_string(), properties(TokenKind::Native, 12, None));
    set.insert("USDC".to_string(), properties(TokenKind::Asset, 6, Some(1337)));
    set.insert("WND".to_string(), properties(TokenKind::Native, 10, None));
    assert_eq!(set.len(), 2);
    assert_eq!(set.name_at(0), "WND");
    assert_eq!(set.get(&"WND".to_string()).unwrap().decimals, 10);
    let copy = set.clone();
    assert_eq!(copy.len(), 2);
    assert_eq!(copy.get(&"USDC".to_string()).unwrap().asset_id, Some(1337));
}

#[test]
fn chain_wants_its_native_token_and_its_assets() {
    let configured = chain(true, &[("USDC", 1337), ("USDT", 1984)]);
    assert!(configured.wants(&"WND".to_string(), None, 12));
    assert!(!configured.wants(&"WND".to_string(), None, 10));
    assert!(configured.wants(&"USDC".to_string(), Some(1337), 12));
    assert!(configured.wants(&"USDT".to_string(), Some(1984), 7));
    assert!(!configured.wants(&"USDC".to_string(), Some(1984), 12));
    assert!(!configured.wants(&"USDC".to_string(), None, 12));
    assert!(!configured.wants(&"DOT".to_string(), None, 12));
    let assets_only = chain(false, &[("USDC", 1337)]);
    assert!(!assets_only.wants(&"WND".to_string(), None, 12));
    assert!(assets_only.wants(&"USDC".to_string(), Some(1337), 12));
}

#[test]
fn chain_copy_is_equal() {
    let configured = chain(true, &[("USDC", 1337)]);
    let copy = configured.clone();
    assert_eq!(copy.name, "westend");
    assert_eq!(copy.endpoints, vec!["wss://a", "wss://b"]);
    assert_eq!(copy.native_token.as_ref().unwrap().name, "WND");
    assert_eq!(copy.native_token.as_ref().unwrap().decimals, 12);
    assert_eq!(copy.asset.len(), 1);
    assert_eq!(copy.asset[0].name, "USDC");
    assert_eq!(copy.asset[0].id, 1337);
}

#[test]
fn wanted_currencies_are_kept_in_order() {
    let offered = offer(&[("JUNK", Some(7)), ("USDC", Some(1337)), ("WND", None), ("USDT", Some(1))]);
    let kept = offered.retain_wanted(&chain(true, &[("USDC", 1337), ("USDT", 1984)]), 12);
    assert_eq!(kept.len(), 2);
    assert_eq!(kept.name_at(0), "USDC");
    assert_eq!(kept.name_at(1), "WND");
}

#[test]
fn prepared_watcher_holds_exactly_the_configured_currencies() {
    let offered = offer(&[("JUNK", Some(7)), ("USDC", Some(1337)), ("WND", None)]);
    let configured = chain(true, &[("USDC", 1337)]);
    let watcher =
        ChainWatcher::prepare_chain(&configured, "wss://a", pin("westend", 12, offered)).unwrap();
    assert_eq!(watcher.assets.len(), 2);
    assert_eq!(watcher.assets.len(), configured.asset.len() + 1);
    assert!(watcher.assets.get(&"WND".to_string()).is_some());
    assert!(watcher.assets.get(&"USDC".to_string()).is_some());
    assert!(watcher.assets.get(&"JUNK".to_string()).is_none());
    assert_eq!(watcher.genesis_hash.0, [1; 32]);
    assert_eq!(watcher.version, "v0");
    assert_eq!(watcher.specs.base58prefix, 42);
    assert_eq!(watcher.specs.decimals, 12);
    assert_eq!(watcher.specs.unit, "WND");
    let copy = watcher.clone();
    assert_eq!(copy.assets.len(), 2);
    assert_eq!(copy.version, "v0");
}

#[test]
fn prepared_watcher_without_native_token() {
    let offered = offer(&[("USDC", Some(1337)), ("WND", None)]);
    let configured = chain(false, &[("USDC", 1337)]);
    let watcher =
        ChainWatcher::prepare_chain(&configured, "wss://a", pin("westend", 12, offered)).unwrap();
    assert_eq!(watcher.assets.len(), 1);
    assert_eq!(watcher.assets.name_at(0), "USDC");
}

#[test]
fn other_network_is_refused() {
    let offered = offer(&[("USDC", Some(1337)), ("WND", None)]);
    let refused =
        ChainWatcher::prepare_chain(&chain(true, &[("USDC", 1337)]), "wss://a", pin("kusama", 12, offered));
    match refused {
        Err(ChainError::WrongNetwork { expected, actual, rpc }) => {
            assert_eq!(expected, "westend");
            assert_eq!(actual, "kusama");
            assert_eq!(rpc, "wss://a");
        }
        other => panic!("unexpected outcome {other:?}"),
    }
}

#[test]
fn missing_currency_is_refused() {
    let configured = chain(true, &[("USDC", 1337), ("USDT", 1984)]);
    let offered = offer(&[("USDC", Some(1337)), ("WND", None)]);
    let refused = ChainWatcher::prepare_chain(&configured, "wss://a", pin("westend", 12, offered));
    assert!(matches!(refused, Err(ChainError::AssetsInvalid(name)) if name == "westend"));
    let wrong_decimals = offer(&[("USDC", Some(1337)), ("USDT", Some(1984)), ("WND", None)]);
    let refused =
        ChainWatcher::prepare_chain(&configured, "wss://a", pin("westend", 10, wrong_decimals));
    assert!(matches!(refused, Err(ChainError::AssetsInvalid(_))));
    let wrong_id = offer(&[("USDC", Some(1)), ("USDT", Some(1984)), ("WND", None)]);
    let refused = ChainWatcher::prepare_chain(&configured, "wss://a", pin("westend", 12, wrong_id));
    assert!(matches!(refused, Err(ChainError::AssetsInvalid(_))));
}

#[test]
fn network_is_checked_before_currencies() {
    let refused = ChainWatcher::prepare_chain(
        &chain(true, &[("USDC", 1337)]),
        "wss://b",
        pin("rococo", 12, Currencies::new()),
    );
    assert!(matches!(refused, Err(ChainError::WrongNetwork { .. })));
}

#[test]
fn watched_invoices_are_kept_by_order_id() {
    let mut watched = Watched::new();
    assert_eq!(watched.len(), 0);
    watched.insert(invoice("a", 1));
    watched.insert(invoice("b", 2));
    assert_eq!(watched.len(), 2);
    assert_eq!(watched.at(0).id, "a");
    assert_eq!(watched.at(1).id, "b");
    assert_eq!(watched.get(&"b".to_string()).unwrap().amount, Balance(2));
    assert!(watched.get(&"c".to_string()).is_none());
}

#[test]
fn watching_overwrites_by_order_id() {
    let mut watched = Watched::new();
    watched.insert(invoice("a", 1));
    watched.insert(invoice("b", 2));
    watched.insert(invoice("a", 3));
    assert_eq!(watched.len(), 2);
    assert_eq!(watched.at(0).id, "a");
    assert_eq!(watched.get(&"a".to_string()).unwrap().amount, Balance(3));
    assert_eq!(watched.get(&"b".to_string()).unwrap().amount, Balance(2));
}
