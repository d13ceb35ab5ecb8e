//! Transfer events and the calls a payout is made of.

use crate::account::AccountId32;
use crate::database::TxKind;
use crate::server::definitions::api_v2::{AssetId, ExtrinsicIndex};
use crate::server::definitions::Balance;
use vstd::prelude::*;

verus! {

/// A transfer that a block reports, with the extrinsic that caused it:
/// its position in the block and its bytes.
#[derive(Debug)]
pub struct TransferEvent {
    pub extrinsic: Option<(ExtrinsicIndex, Vec<u8>)>,
    pub from: AccountId32,
    pub to: AccountId32,
    pub amount: Balance,
}

/// [`TransferEvent`] as mathematical data.
pub struct TransferEventView {
    pub extrinsic: Option<(ExtrinsicIndex, Seq<u8>)>,
    pub from: Seq<u8>,
    pub to: Seq<u8>,
    pub amount: u128,
}

impl View for TransferEvent {
    type V = TransferEventView;

    open spec fn view(&self) -> TransferEventView {
        TransferEventView {
            extrinsic: match self.extrinsic {
                Some((position, bytes)) => Some((position, bytes@)),
                None => None,
            },
            from: self.from@,
            to: self.to@,
            amount: self.amount.0,
        }
    }
}

/// The events of a list, each as mathematical data.
pub open spec fn events_view(events: Seq<TransferEvent>) -> Seq<TransferEventView> {
    Seq::new(events.len(), |i: int| events[i]@)
}

/// How a transfer concerns `account`: as a payment where the account
/// receives, with the sender as the other party; else as a withdrawal
/// where it sends, with the recipient as the other party; not at all
/// where it does neither. The amount is the transfer's.
pub open spec fn transfer_touching(account: Seq<u8>, event: TransferEventView) -> Option<
    (TxKind, Seq<u8>, u128),
> {
    if event.to == account {
        Some((TxKind::Payment, event.from, event.amount))
    } else if event.from == account {
        Some((TxKind::Withdrawal, event.to, event.amount))
    } else {
        None
    }
}

/// Classifies a transfer from the point of view of `account_id`.
pub fn parse_transfer_event(account_id: &AccountId32, event: &TransferEvent) -> (touch: Option<
    (TxKind, AccountId32, Balance),
>)
    ensures
        match touch {
            Some((kind, other, amount)) => transfer_touching(account_id@, event@) == Some(
                (kind, other@, amount.0),
            ),
            None => transfer_touching(account_id@, event@) is None,
        },
{
    if event.to.same(account_id) {
        Some((TxKind::Payment, event.from, event.amount))
    } else if event.from.same(account_id) {
        Some((TxKind::Withdrawal, event.to, event.amount))
    } else {
        None
    }
}

/// A transfer of the native token. A clearing transfer may empty the
/// sending account.
#[derive(Clone, Copy, Debug)]
pub struct BalanceTransferConstructor {
    pub amount: u128,
    pub to_account: AccountId32,
    pub is_clearing: bool,
}

/// A transfer of an asset.
#[derive(Clone, Copy, Debug)]
pub struct AssetTransferConstructor {
    pub asset_id: AssetId,
    pub amount: u128,
    pub to_account: AccountId32,
}

/// One call of a payout batch.
#[derive(Clone, Copy, Debug)]
pub enum TransferCall {
    Balance(BalanceTransferConstructor),
    Asset(AssetTransferConstructor),
}

/// [`TransferCall`] as mathematical data.
pub enum TransferCallView {
    Balance { amount: u128, to_account: Seq<u8>, is_clearing: bool },
    Asset { asset_id: AssetId, amount: u128, to_account: Seq<u8> },
}

impl View for TransferCall {
    type V = TransferCallView;

    open spec fn view(&self) -> TransferCallView {
        match self {
            TransferCall::Balance(call) => TransferCallView::Balance {
                amount: call.amount,
                to_account: call.to_account@,
                is_clearing: call.is_clearing,
            },
            TransferCall::Asset(call) => TransferCallView::Asset {
                asset_id: call.asset_id,
                amount: call.amount,
                to_account: call.to_account@,
            },
        }
    }
}

} // verus!
