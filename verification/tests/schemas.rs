use kalatori::account::AccountId32;
use kalatori::database::definitions::{
    Amount, AmountKind as DbAmountKind, Bytes, CurrencyInfo as DbCurrencyInfo, FinalizedTx,
    TransactionInfo as DbTransactionInfo,
};
use kalatori::server::definitions::api_v2::{
    CurrencyInfo, CurrencyProperties, TokenKind, TxStatus,
};
use kalatori::server::definitions::new::{
    AmountKind, AmountWithDecimals, CurrencyInfo as NewCurrencyInfo, Decimals, SS58Prefix,
    SubstrateAccount, TransactionInfo,
};
use kalatori::server::definitions::Balance;

#[test]
fn balance_compares_on_smallest_units() {
    assert!(Balance(10) >= Balance(10));
    assert!(Balance(9) < Balance(10));
    assert!(Balance(11) > Balance(10));
    assert_eq!(Balance(7), Balance(7));
    assert_ne!(Balance(7), Balance(8));
    assert!(Balance(u128::MAX) > Balance(u128::MAX - 1));
}

#[test]
fn balance_subtracts_exactly() {
    assert_eq!(Balance(1_000_500) - Balance(1_000_000), Balance(500));
    assert_eq!(Balance(5) - Balance(5), Balance(0));
    assert_eq!(*Balance(42), 42u128);
}

#[test]
fn properties_of_currency_info() {
    let info = CurrencyInfo {
        currency: "USDC".to_string(),
        chain_name: "assethub".to_string(),
        kind: TokenKind::Asset,
        decimals: 6,
        rpc_url: "wss://assethub".to_string(),
        asset_id: Some(1337),
    };
    let properties = info.properties();
    assert_eq!(properties.chain_name, "assethub");
    assert_eq!(properties.kind, TokenKind::Asset);
    assert_eq!(properties.decimals, 6);
    assert_eq!(properties.rpc_url, "wss://assethub");
    assert_eq!(properties.asset_id, Some(1337));
    assert_eq!(properties.ss58, 0);
}

#[test]
fn info_of_currency_properties() {
    let properties = CurrencyProperties {
        chain_name: "polkadot".to_string(),
        kind: TokenKind::Native,
        decimals: 10,
        rpc_url: "wss://polkadot".to_string(),
        asset_id: None,
        ss58: 0,
    };
    let info = properties.info("DOT".to_string());
    assert_eq!(info.currency, "DOT");
    assert_eq!(info.chain_name, "polkadot");
    assert_eq!(info.kind, TokenKind::Native);
    assert_eq!(info.decimals, 10);
    assert_eq!(info.rpc_url, "wss://polkadot");
    assert_eq!(info.asset_id, None);
    let back = info.properties();
    assert_eq!(back.chain_name, properties.chain_name);
    assert_eq!(back.ss58, 0);
}

#[test]
fn currency_info_from_store() {
    let info = NewCurrencyInfo::from_db(
        DbCurrencyInfo { kind: TokenKind::Asset, asset_id: Some(1984) },
        "USDT".to_string(),
        "assethub".to_string(),
        Decimals(6),
        "wss://assethub".to_string(),
    );
    assert_eq!(info.kind, TokenKind::Asset);
    assert_eq!(info.asset_id, Some(1984));
    assert_eq!(info.currency, "USDT");
    assert_eq!(info.chain_name, "assethub");
    assert_eq!(info.decimals, Decimals(6));
    assert_eq!(info.rpc_url, "wss://assethub");
}

#[test]
fn transaction_info_from_store() {
    let db = DbTransactionInfo {
        finalized_tx: Some(FinalizedTx {
            block_number: 100,
            position_in_block: 2,
            timestamp: "2023-11-14T22:13:20Z".to_string(),
        }),
        transaction_bytes: Bytes(vec![1, 2, 3]),
        sender: [4u8; 32],
        recipient: [5u8; 32],
        amount: DbAmountKind::Exact(Amount(9_999_999)),
        status: TxStatus::Finalized,
    };
    let info = TransactionInfo::from_db(
        db,
        DbCurrencyInfo { kind: TokenKind::Asset, asset_id: Some(1337) },
        "USDC".to_string(),
        SS58Prefix(42),
        Decimals(6),
        "assethub".to_string(),
        "wss://assethub".to_string(),
    );
    assert_eq!(info.finalized_tx.as_ref().unwrap().block_number, 100);
    assert_eq!(info.finalized_tx.as_ref().unwrap().position_in_block, 2);
    assert_eq!(info.transaction_bytes.0, vec![1, 2, 3]);
    assert_eq!(info.sender.0, SS58Prefix(42));
    assert_eq!(info.sender.1 .0, [4u8; 32]);
    assert_eq!(info.recipient.1 .0, [5u8; 32]);
    assert_eq!(info.amount, AmountKind::Exact(AmountWithDecimals(Amount(9_999_999), Decimals(6))));
    assert_eq!(info.status, TxStatus::Finalized);
    assert_eq!(info.currency.currency, "USDC");
    assert_eq!(info.currency.asset_id, Some(1337));
}

#[test]
fn amount_kind_from_store() {
    assert_eq!(AmountKind::from_db(DbAmountKind::All, Decimals(12)), AmountKind::All);
    assert_eq!(
        AmountKind::from_db(DbAmountKind::Exact(Amount(1)), Decimals(12)),
        AmountKind::Exact(AmountWithDecimals(Amount(1), Decimals(12)))
    );
    assert_eq!(
        AmountWithDecimals::from((Amount(5), Decimals(3))),
        AmountWithDecimals(Amount(5), Decimals(3))
    );
}

#[test]
fn prefix_from_number() {
    assert_eq!(SS58Prefix::from(42), SS58Prefix(42));
    let prefix: SS58Prefix = 2u16.into();
    assert_eq!(prefix.0, 2);
}

#[test]
fn substrate_account_text() {
    let bytes: [u8; 32] =
        hex::decode("b6a8b4b6bf796991065035093d3265e314c3fe89e75ccb623985e57b0c2e0c30")
            .unwrap()
            .try_into()
            .unwrap();
    let account = SubstrateAccount(SS58Prefix(42), AccountId32(bytes));
    assert_eq!(account.serialize(), "5GCCgshTQCfGkXy6kAkFDW1TZXAdsbCNZJ9Uz2c7ViBnwcVg");
}
