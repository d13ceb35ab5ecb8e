use kalatori::account::AccountId32;
use kalatori::chain::definitions::{BlockHash, Invoice};
use kalatori::chain::payout::{
    payout, submission, PayoutError, LOSS_TOLERANCE, MANUAL_INTERVENTION_AMOUNT,
};
use kalatori::chain::tracker::ChainWatcher;
use kalatori::chain::utils::TransferCall;
use kalatori::database::definitions::Timestamp;
use kalatori::definitions::{Currencies, ShortSpecs};
use kalatori::server::definitions::api_v2::{CurrencyProperties, TokenKind};
use kalatori::server::definitions::Balance;

fn properties(kind: TokenKind, decimals: u8, asset_id: Option<u32>) -> CurrencyProperties {
    CurrencyProperties {
        chain_name: "assethub".to_string(),
        kind,
        decimals,
        rpc_url: "wss://assethub".to_string(),
        asset_id,
        ss58: 0,
    }
}

fn watcher() -> ChainWatcher {
    let mut assets = Currencies::new();
    assets.insert("DOT".to_string(), properties(TokenKind::Native, 10, None));
    assets.insert("USDC".to_string(), properties(TokenKind::Asset, 6, Some(1337)));
    assets.insert("BROKEN".to_string(), properties(TokenKind::Asset, 6, None));
    ChainWatcher {
        genesis_hash: BlockHash([0xaa; 32]),
        specs: ShortSpecs { base58prefix: 0, decimals: 10, unit: "DOT".to_string() },
        assets,
        version: "v0".to_string(),
    }
}

fn invoice(currency: &str, amount: u128) -> Invoice {
    Invoice {
        id: "order-1".to_string(),
        address: AccountId32([1; 32]),
        currency: currency.to_string(),
        amount: Balance(amount),
        recipient: AccountId32([3; 32]),
        death: Timestamp(0),
    }
}

fn plan(currency: &str, amount: u128, balance: u128) -> Result<Vec<TransferCall>, PayoutError> {
    payout(invoice(currency, amount), &watcher(), BlockHash([0xbb; 32]), 77, Balance(balance))
        .map(|batch| batch.calls)
}

#[test]
fn thresholds() {
    assert_eq!(LOSS_TOLERANCE, 10_000);
    assert_eq!(MANUAL_INTERVENTION_AMOUNT, 1_000_000_000_000);
}

#[test]
fn payout_within_tolerance_delivers_the_expected_amount() {
    let batch = payout(
        invoice("DOT", 1_000_000),
        &watcher(),
        BlockHash([0xbb; 32]),
        77,
        Balance(1_000_500),
    )
    .unwrap();
    assert_eq!(batch.order, "order-1");
    assert_eq!(batch.genesis_hash.0, [0xaa; 32]);
    assert_eq!(batch.author.0, [1; 32]);
    assert_eq!(batch.block.0, [0xbb; 32]);
    assert_eq!(batch.block_number, 77);
    assert_eq!(batch.nonce, 0);
    assert_eq!(batch.calls.len(), 1);
    match batch.calls[0] {
        TransferCall::Balance(call) => {
            assert_eq!(call.amount, 1_000_000);
            assert_eq!(call.to_account.0, [3; 32]);
            assert!(call.is_clearing);
        }
        other => panic!("unexpected call {other:?}"),
    }
}

#[test]
fn payout_above_tolerance_submits_nothing() {
    assert_eq!(plan("DOT", 1_000_000, 1_500_000).unwrap_err(), PayoutError::Overpayment);
}

#[test]
fn payout_of_an_asset_is_an_asset_transfer() {
    let calls = plan("USDC", 10_000_000, 10_000_000).unwrap();
    assert_eq!(calls.len(), 1);
    match calls[0] {
        TransferCall::Asset(call) => {
            assert_eq!(call.asset_id, 1337);
            assert_eq!(call.amount, 10_000_000);
            assert_eq!(call.to_account.0, [3; 32]);
        }
        other => panic!("unexpected call {other:?}"),
    }
}

#[test]
fn payout_bands_have_exact_edges() {
    let amount = 1_000_000u128;
    assert!(plan("DOT", amount, amount).is_ok());
    assert!(plan("DOT", amount, amount + 10_000).is_ok());
    assert_eq!(plan("DOT", amount, amount + 10_001).unwrap_err(), PayoutError::Overpayment);
    assert_eq!(
        plan("DOT", amount, amount + 1_000_000_000_000).unwrap_err(),
        PayoutError::Overpayment
    );
    assert_eq!(
        plan("DOT", amount, amount + 1_000_000_000_001).unwrap_err(),
        PayoutError::BalanceOutOfRange
    );
    assert_eq!(plan("DOT", amount, amount - 1).unwrap_err(), PayoutError::BalanceOutOfRange);
    assert_eq!(plan("DOT", amount, 0).unwrap_err(), PayoutError::BalanceOutOfRange);
    assert_eq!(plan("DOT", u128::MAX, u128::MAX).unwrap().len(), 1);
    assert_eq!(plan("DOT", 0, u128::MAX).unwrap_err(), PayoutError::BalanceOutOfRange);
}

#[test]
fn payout_in_unknown_currency_is_refused() {
    assert_eq!(plan("KSM", 1, 1).unwrap_err(), PayoutError::UnknownCurrency);
    assert_eq!(plan("KSM", 5, 1).unwrap_err(), PayoutError::UnknownCurrency);
}

#[test]
fn payout_of_an_asset_without_id_is_refused() {
    assert_eq!(plan("BROKEN", 5, 5).unwrap_err(), PayoutError::AssetIdMissing);
    assert_eq!(plan("BROKEN", 5, 4).unwrap_err(), PayoutError::BalanceOutOfRange);
}

#[test]
fn submission_is_prefixed_hex() {
    assert_eq!(submission(&vec![1, 2, 3, 15, 16]), "0x0102030f10");
    assert_eq!(submission(&vec![]), "0x");
    assert_eq!(submission(&vec![0xff, 0x00, 0xab]), "0xff00ab");
}
