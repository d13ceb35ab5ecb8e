//! The payout of a paid invoice to its recipient.

use crate::account::AccountId32;
use crate::chain::definitions::{BlockHash, Invoice, InvoiceView};
use crate::chain::tracker::ChainWatcher;
use crate::chain::utils::{
    AssetTransferConstructor, BalanceTransferConstructor, TransferCall, TransferCallView,
};
use crate::definitions::find_currency;
use crate::encoding::{encode, hex_prefixed};
use crate::server::definitions::api_v2::{CurrencyPropertiesView, TokenKind};
use crate::server::definitions::Balance;
use vstd::prelude::*;
use vstd::string::StringExecFns;

verus! {

/// The largest surplus over the amount of an order that a payout
/// absorbs without a word, in the smallest unit of the currency.
pub const LOSS_TOLERANCE: u128 = 10_000;

/// The largest surplus that still counts as an overpayment; beyond it
/// the balance is out of range.
pub const MANUAL_INTERVENTION_AMOUNT: u128 = 1_000_000_000_000;

/// Why a payout is not made.
#[derive(Clone, Copy, Debug, PartialEq, Eq, Structural)]
pub enum PayoutError {
    /// The currency of the invoice is not offered by the chain.
    UnknownCurrency,
    /// The balance exceeds the amount by more than the tolerance.
    Overpayment,
    /// The balance is below the amount, or far above it.
    BalanceOutOfRange,
    /// The currency is an asset without an id.
    AssetIdMissing,
}

/// A batch of calls to be signed by the account of an order and
/// submitted: the calls, the chain and block it is anchored to, and the
/// nonce of the signing account.
#[derive(Debug)]
pub struct BatchTransaction {
    pub order: String,
    pub genesis_hash: BlockHash,
    pub author: AccountId32,
    pub calls: Vec<TransferCall>,
    pub block: BlockHash,
    pub block_number: u32,
    pub nonce: u32,
}

/// The calls of a list, each as mathematical data.
pub open spec fn calls_view(calls: Seq<TransferCall>) -> Seq<TransferCallView> {
    Seq::new(calls.len(), |i: int| calls[i]@)
}

/// The calls that deliver an order: one transfer of the amount asked
/// for to the recipient, of the native token (clearing) or of the asset.
pub open spec fn delivery(order: InvoiceView, currency: CurrencyPropertiesView) -> Result<
    Seq<TransferCallView>,
    PayoutError,
> {
    match currency.kind {
        TokenKind::Native => Ok(
            seq![
                TransferCallView::Balance {
                    amount: order.amount,
                    to_account: order.recipient,
                    is_clearing: true,
                },
            ],
        ),
        TokenKind::Asset => match currency.asset_id {
            Some(asset_id) => Ok(
                seq![
                    TransferCallView::Asset {
                        asset_id,
                        amount: order.amount,
                        to_account: order.recipient,
                    },
                ],
            ),
            None => Err(PayoutError::AssetIdMissing),
        },
    }
}

/// What a payout submits for an order whose account holds `balance`.
/// With a surplus from zero up to the tolerance, the delivery of the
/// order; with a larger surplus up to the second threshold, nothing, as
/// an overpayment; with a balance below the amount or a surplus beyond,
/// nothing, as out of range.
pub open spec fn payout_calls(
    order: InvoiceView,
    assets: Seq<(Seq<char>, CurrencyPropertiesView)>,
    balance: u128,
) -> Result<Seq<TransferCallView>, PayoutError> {
    match find_currency(assets, order.currency) {
        None => Err(PayoutError::UnknownCurrency),
        Some(currency) => if balance < order.amount {
            Err(PayoutError::BalanceOutOfRange)
        } else if balance - order.amount <= LOSS_TOLERANCE {
            delivery(order, currency)
        } else if balance - order.amount <= MANUAL_INTERVENTION_AMOUNT {
            Err(PayoutError::Overpayment)
        } else {
            Err(PayoutError::BalanceOutOfRange)
        },
    }
}

/// Plans the payout of `order`, whose account holds `balance` at
/// `block`. The batch is signed by the order's account with nonce zero,
/// as that account is used once, and holds exactly the delivery of the
/// order; no batch is made where the balance does not fit the amount.
pub fn payout(
    order: Invoice,
    chain: &ChainWatcher,
    block: BlockHash,
    block_number: u32,
    balance: Balance,
) -> (planned: Result<BatchTransaction, PayoutError>)
    ensures
        match planned {
            Ok(batch) => payout_calls(order@, chain.assets@, balance.0) == Ok::<_, PayoutError>(
                calls_view(batch.calls@),
            ) && batch.order@ == order.id@ && batch.genesis_hash@ == chain.genesis_hash@
                && batch.author@ == order.address@ && batch.block@ == block@ && batch.block_number
                == block_number && batch.nonce == 0,
            Err(e) => payout_calls(order@, chain.assets@, balance.0) == Err::<
                Seq<TransferCallView>,
                _,
            >(e),
        },
        planned is Ok ==> order.amount.0 <= balance.0 <= order.amount.0 + LOSS_TOLERANCE
            && planned->Ok_0.calls@.len() == 1,
        balance.0 > order.amount.0 + LOSS_TOLERANCE ==> planned is Err,
{
    let currency = match chain.assets.get(&order.currency) {
        Some(currency) => currency,
        None => return Err(PayoutError::UnknownCurrency),
    };
    if balance.0 < order.amount.0 {
        return Err(PayoutError::BalanceOutOfRange);
    }
    let surplus = balance.0 - order.amount.0;
    if surplus > MANUAL_INTERVENTION_AMOUNT {
        return Err(PayoutError::BalanceOutOfRange);
    }
    if surplus > LOSS_TOLERANCE {
        return Err(PayoutError::Overpayment);
    }
    let call = match currency.kind {
        TokenKind::Native => TransferCall::Balance(
            BalanceTransferConstructor {
                amount: order.amount.0,
                to_account: order.recipient,
                is_clearing: true,
            },
        ),
        TokenKind::Asset => match currency.asset_id {
            Some(asset_id) => TransferCall::Asset(
                AssetTransferConstructor {
                    asset_id,
                    amount: order.amount.0,
                    to_account: order.recipient,
                },
            ),
            None => return Err(PayoutError::AssetIdMissing),
        },
    };
    let calls = vec![call];
    assert(calls_view(calls@) =~= seq![call@]);
    Ok(
        BatchTransaction {
            order: order.id,
            genesis_hash: chain.genesis_hash,
            author: order.address,
            calls,
            block,
            block_number,
            nonce: 0,
        },
    )
}

/// The text under which a signed extrinsic is submitted: its bytes in
/// lowercase hexadecimal after `0x`.
pub fn submission(extrinsic: &Vec<u8>) -> (text: String)
    ensures
        text@ == hex_prefixed(extrinsic@),
{
    let digits = encode(extrinsic);
    proof {
        reveal_strlit("0x");
    }
    let text = String::from_str("0x").concat(digits.as_str());
    assert(text@ =~= hex_prefixed(extrinsic@));
    text
}

} // verus!
