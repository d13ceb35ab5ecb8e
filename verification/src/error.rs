//! Error kinds of the chain watcher and of the signer.

use crate::account::AddressError;
use vstd::prelude::*;

verus! {

/// Error type of the mnemonic routines of `mnemonic_external`.
#[verifier::external_type_specification]
#[verifier::external_body]
pub struct ExMnemonicError(mnemonic_external::error::ErrorMnemonic);

/// What can go wrong between the watcher and its chain.
#[derive(Debug)]
pub enum ChainError {
    /// The payment account of an order is no valid SS58 text.
    InvoiceAccount(AddressError),
    /// The named currency is not offered by the connected chain.
    InvalidCurrency(String),
    /// The endpoint serves another network than the configured one.
    WrongNetwork { expected: String, actual: String, rpc: String },
    /// The endpoint does not offer every configured currency.
    AssetsInvalid(String),
    /// A transfer touching a watched account came without its extrinsic.
    TransferEventNoExtrinsic,
    /// No balance was read for an account whose balance is due.
    BalanceNotFound,
    /// A block timestamp lies beyond what RFC 3339 can express.
    TimestampOutOfRange(u64),
    /// The endpoint failed a call: connection, request, subscription or decoding.
    Client(String),
}

/// [`ChainError`] with its texts as sequences; the cause of a rejected
/// account is left out.
pub enum ChainErrorView {
    InvoiceAccount,
    InvalidCurrency(Seq<char>),
    WrongNetwork { expected: Seq<char>, actual: Seq<char>, rpc: Seq<char> },
    AssetsInvalid(Seq<char>),
    TransferEventNoExtrinsic,
    BalanceNotFound,
    TimestampOutOfRange(u64),
    Client(Seq<char>),
}

impl View for ChainError {
    type V = ChainErrorView;

    open spec fn view(&self) -> ChainErrorView {
        match self {
            ChainError::InvoiceAccount(_) => ChainErrorView::InvoiceAccount,
            ChainError::InvalidCurrency(c) => ChainErrorView::InvalidCurrency(c@),
            ChainError::WrongNetwork { expected, actual, rpc } => ChainErrorView::WrongNetwork {
                expected: expected@,
                actual: actual@,
                rpc: rpc@,
            },
            ChainError::AssetsInvalid(c) => ChainErrorView::AssetsInvalid(c@),
            ChainError::TransferEventNoExtrinsic => ChainErrorView::TransferEventNoExtrinsic,
            ChainError::BalanceNotFound => ChainErrorView::BalanceNotFound,
            ChainError::TimestampOutOfRange(t) => ChainErrorView::TimestampOutOfRange(*t),
            ChainError::Client(m) => ChainErrorView::Client(m@),
        }
    }
}

/// What can go wrong inside or on the way to the signer.
#[derive(Debug)]
pub enum ErrorSigner {
    /// The named environment slot holds no seed phrase.
    Env(String),
    /// The signer no longer answers.
    SignerDown,
    /// The seed phrase is no valid mnemonic.
    InvalidSeed(mnemonic_external::error::ErrorMnemonic),
    /// No key pair could be derived from the entropy.
    InvalidDerivation(substrate_crypto_light::error::Error),
}

} // verus!
