use kalatori::account::{AccountId32, AddressError, BASE58_MAX_LEN};
use kalatori::chain::definitions::{Invoice, WatchAccount};
use kalatori::database::definitions::Timestamp;
use kalatori::error::ChainError;
use kalatori::server::definitions::api_v2::{
    CurrencyInfo, OrderInfo, OrderQuery, PaymentStatus, TokenKind, WithdrawalStatus,
};
use kalatori::server::definitions::Balance;

const KNOWN_TEXT: &str = "5GCCgshTQCfGkXy6kAkFDW1TZXAdsbCNZJ9Uz2c7ViBnwcVg";
const KNOWN_HEX: &str = "b6a8b4b6bf796991065035093d3265e314c3fe89e75ccb623985e57b0c2e0c30";
const ALICE_TEXT: &str = "5GrwvaEF5zXb26Fz9rcQpDWS57CtERHpNehXCPcNoHGKutQY";
const ALICE_HEX: &str = "d43593c715fdd31c61141abd04a99fd6822c8558854ccde39a5684e7a56da27d";

fn account(hex_text: &str) -> AccountId32 {
    let bytes: [u8; 32] = hex::decode(hex_text).unwrap().try_into().unwrap();
    AccountId32(bytes)
}

fn usdc() -> CurrencyInfo {
    CurrencyInfo {
        currency: "USDC".to_string(),
        chain_name: "assethub".to_string(),
        kind: TokenKind::Asset,
        decimals: 6,
        rpc_url: "wss://assethub".to_string(),
        asset_id: Some(1337),
    }
}

fn order(payment_account: &str) -> OrderInfo {
    OrderInfo::new(
        OrderQuery {
            order: "order-1".to_string(),
            amount: Balance(10_000_000),
            callback: "https://shop/callback".to_string(),
            currency: "USDC".to_string(),
        },
        usdc(),
        payment_account.to_string(),
        Timestamp(1_700_000_000_000),
    )
}

#[test]
fn address_text_of_known_account() {
    assert_eq!(account(KNOWN_HEX).to_base58_string(42), KNOWN_TEXT);
    assert_eq!(account(ALICE_HEX).to_base58_string(42), ALICE_TEXT);
}

#[test]
fn address_text_depends_on_prefix() {
    let under_42 = account(KNOWN_HEX).to_base58_string(42);
    let under_2 = account(KNOWN_HEX).to_base58_string(2);
    let under_0 = account(KNOWN_HEX).to_base58_string(0);
    assert_ne!(under_42, under_2);
    assert_ne!(under_2, under_0);
}

#[test]
fn address_text_reads_back() {
    let (read, prefix) = AccountId32::from_base58_string(KNOWN_TEXT).unwrap();
    assert_eq!(read.0, account(KNOWN_HEX).0);
    assert_eq!(prefix, 42);
    for prefix in [0u16, 2, 42, 63, 64, 255, 1000, 16_383] {
        let text = account(ALICE_HEX).to_base58_string(prefix);
        let (read, found) = AccountId32::from_base58_string(&text).unwrap();
        assert_eq!(read.0, account(ALICE_HEX).0);
        assert_eq!(found, prefix);
    }
}

#[test]
fn broken_address_text_is_rejected() {
    assert!(AccountId32::from_base58_string("").is_err());
    assert!(AccountId32::from_base58_string("not an address").is_err());
    let mut damaged = KNOWN_TEXT.to_string();
    damaged.pop();
    damaged.push('h');
    assert!(AccountId32::from_base58_string(&damaged).is_err());
}

#[test]
fn overlong_address_text_is_rejected_unread() {
    assert_eq!(BASE58_MAX_LEN, 132);
    for length in [133usize, 134, 200, 10_000] {
        let ones = "1".repeat(length);
        assert!(matches!(AccountId32::from_base58_string(&ones), Err(AddressError::TooLong)));
        let digits = format!("1{}", "z".repeat(length - 1));
        assert!(matches!(AccountId32::from_base58_string(&digits), Err(AddressError::TooLong)));
    }
    let wide = "\u{e9}".repeat(133);
    assert!(matches!(AccountId32::from_base58_string(&wide), Err(AddressError::TooLong)));
}

#[test]
fn longest_address_texts_are_read_and_rejected() {
    let ones = "1".repeat(132);
    assert!(matches!(AccountId32::from_base58_string(&ones), Err(AddressError::Rejected(_))));
    let mixed = format!("{}{}", "1".repeat(66), "2".repeat(66));
    assert!(matches!(AccountId32::from_base58_string(&mixed), Err(AddressError::Rejected(_))));
    let digits = format!("1{}", "z".repeat(131));
    assert!(matches!(AccountId32::from_base58_string(&digits), Err(AddressError::Rejected(_))));
    let wide = "\u{e9}".repeat(132);
    assert!(matches!(AccountId32::from_base58_string(&wide), Err(AddressError::Rejected(_))));
    assert!(matches!(AccountId32::from_base58_string(""), Err(AddressError::Rejected(_))));
}

#[test]
fn same_compares_bytes() {
    assert!(account(KNOWN_HEX).same(&account(KNOWN_HEX)));
    assert!(!account(KNOWN_HEX).same(&account(ALICE_HEX)));
    let mut last = [7u8; 32];
    let first = AccountId32(last);
    last[31] = 8;
    assert!(!first.same(&AccountId32(last)));
}

#[test]
fn new_order_is_pending_and_waiting() {
    let info = order(KNOWN_TEXT);
    assert_eq!(info.payment_status, PaymentStatus::Pending);
    assert_eq!(info.withdrawal_status, WithdrawalStatus::Waiting);
    assert_eq!(info.amount, Balance(10_000_000));
    assert_eq!(info.callback, "https://shop/callback");
    assert!(info.transactions.is_empty());
    assert_eq!(info.payment_account, KNOWN_TEXT);
    assert_eq!(info.death, Timestamp(1_700_000_000_000));
    assert_eq!(info.currency.currency, "USDC");
}

#[test]
fn watch_request_from_order() {
    let recipient = account(ALICE_HEX);
    let request = WatchAccount::new("order-1".to_string(), order(KNOWN_TEXT), recipient).unwrap();
    assert_eq!(request.id, "order-1");
    assert_eq!(request.address.0, account(KNOWN_HEX).0);
    assert_eq!(request.currency, "USDC");
    assert_eq!(request.amount, Balance(10_000_000));
    assert_eq!(request.recipient.0, recipient.0);
    assert_eq!(request.death, Timestamp(1_700_000_000_000));
}

#[test]
fn watch_request_rejects_broken_payment_account() {
    let made = WatchAccount::new("order-1".to_string(), order("5Gxyz"), account(ALICE_HEX));
    assert!(matches!(made, Err(ChainError::InvoiceAccount(_))));
}

#[test]
fn watch_request_rejects_overlong_payment_account() {
    let made =
        WatchAccount::new("order-1".to_string(), order(&"1".repeat(500)), account(ALICE_HEX));
    assert!(matches!(made, Err(ChainError::InvoiceAccount(AddressError::TooLong))));
}

#[test]
fn invoice_takes_over_the_request() {
    let request =
        WatchAccount::new("order-1".to_string(), order(KNOWN_TEXT), account(ALICE_HEX)).unwrap();
    let invoice = Invoice::from_request(request);
    assert_eq!(invoice.id, "order-1");
    assert_eq!(invoice.address.0, account(KNOWN_HEX).0);
    assert_eq!(invoice.currency, "USDC");
    assert_eq!(invoice.amount, Balance(10_000_000));
    assert_eq!(invoice.recipient.0, account(ALICE_HEX).0);
    assert_eq!(invoice.death, Timestamp(1_700_000_000_000));
    let copy = invoice.clone();
    assert_eq!(copy.id, invoice.id);
    assert_eq!(copy.amount, invoice.amount);
}
