//! Refunds of the user's lockup, asked for by the user or found due by the
//! periodic walk over pending swaps.

use vstd::prelude::*;

use crate::claim::text_view;
use crate::error::PaymentError;
use crate::model::{opt_view, Chain, ChainSwap, ChainSwapView, Direction};
use crate::state::PaymentState;

verus! {

/// Where a refund stands between two steps.
#[derive(Clone, Debug, PartialEq, Eq)]
pub enum RefundPhase {
    /// Nothing was done yet.
    Start,
    /// The chain backend was asked for the outputs on the lockup script.
    FetchingUtxos,
    /// The wallet was asked for a fresh address.
    DerivingAddress,
    /// The swap service was asked for the refund transaction.
    CreatingTx,
    /// The chain backend was asked to broadcast.
    Broadcasting,
    /// The store was asked to record the refund.
    Updating { refund_tx_id: String },
    /// The refund is over.
    Done,
}

/// The mathematical view of a [`RefundPhase`].
pub enum RefundPhaseView {
    Start,
    FetchingUtxos,
    DerivingAddress,
    CreatingTx,
    Broadcasting,
    Updating { refund_tx_id: Seq<char> },
    Done,
}

impl View for RefundPhase {
    type V = RefundPhaseView;

    open spec fn view(&self) -> RefundPhaseView {
        match *self {
            RefundPhase::Start => RefundPhaseView::Start,
            RefundPhase::FetchingUtxos => RefundPhaseView::FetchingUtxos,
            RefundPhase::DerivingAddress => RefundPhaseView::DerivingAddress,
            RefundPhase::CreatingTx => RefundPhaseView::CreatingTx,
            RefundPhase::Broadcasting => RefundPhaseView::Broadcasting,
            RefundPhase::Updating { refund_tx_id } => RefundPhaseView::Updating {
                refund_tx_id: refund_tx_id@,
            },
            RefundPhase::Done => RefundPhaseView::Done,
        }
    }
}

/// The outcome of the operation that the last step asked for.
#[derive(Debug, PartialEq, Eq)]
pub enum RefundEvent {
    /// The refund begins.
    Begin,
    /// The outputs on the lockup script were listed, or were not.
    Utxos(Result<(), PaymentError>),
    /// The wallet derived an address, or failed to.
    Address(Result<String, PaymentError>),
    /// The swap service built a refund transaction for the chain given, or
    /// failed to.
    Tx(Result<Chain, PaymentError>),
    /// The transaction was broadcast under the id given, or was not.
    Broadcast(Result<String, PaymentError>),
    /// The store carried out the write, or failed to.
    Completed(Result<(), PaymentError>),
}

/// The mathematical view of a [`RefundEvent`].
pub enum RefundEventView {
    Begin,
    Utxos(Result<(), PaymentError>),
    Address(Result<Seq<char>, PaymentError>),
    Tx(Result<Chain, PaymentError>),
    Broadcast(Result<Seq<char>, PaymentError>),
    Completed(Result<(), PaymentError>),
}

impl View for RefundEvent {
    type V = RefundEventView;

    open spec fn view(&self) -> RefundEventView {
        match *self {
            RefundEvent::Begin => RefundEventView::Begin,
            RefundEvent::Utxos(res) => RefundEventView::Utxos(res),
            RefundEvent::Address(res) => RefundEventView::Address(text_view(res)),
            RefundEvent::Tx(res) => RefundEventView::Tx(res),
            RefundEvent::Broadcast(res) => RefundEventView::Broadcast(text_view(res)),
            RefundEvent::Completed(res) => RefundEventView::Completed(res),
        }
    }
}

/// The operation to carry out next.
#[derive(Debug, PartialEq, Eq)]
pub enum RefundAction {
    /// List the outputs on the user's lockup script, through the backend
    /// of the chain given.
    GetScriptUtxos { chain: Chain },
    /// Ask the wallet for its next unused address.
    DeriveAddress,
    /// Ask the swap service for a refund transaction that spends the
    /// outputs listed to the address, at the fee rate if one is given.
    CreateRefundTx {
        refund_address: String,
        fee_rate_sat_per_vb: Option<u32>,
        is_cooperative: bool,
    },
    /// Broadcast the refund transaction through the backend of the chain.
    Broadcast { chain: Chain },
    /// Move the swap to the state given, recording the refund.
    UpdateSwapInfo { to_state: PaymentState, refund_tx_id: String },
    /// Stop, with the id of the refund transaction or an error.
    Finish { result: Result<String, PaymentError> },
}

/// The mathematical view of a [`RefundAction`].
pub enum RefundActionView {
    GetScriptUtxos { chain: Chain },
    DeriveAddress,
    CreateRefundTx {
        refund_address: Seq<char>,
        fee_rate_sat_per_vb: Option<u32>,
        is_cooperative: bool,
    },
    Broadcast { chain: Chain },
    UpdateSwapInfo { to_state: PaymentState, refund_tx_id: Seq<char> },
    Finish { result: Result<Seq<char>, PaymentError> },
}

impl View for RefundAction {
    type V = RefundActionView;

    open spec fn view(&self) -> RefundActionView {
        match *self {
            RefundAction::GetScriptUtxos { chain } => RefundActionView::GetScriptUtxos { chain },
            RefundAction::DeriveAddress => RefundActionView::DeriveAddress,
            RefundAction::CreateRefundTx {
                refund_address,
                fee_rate_sat_per_vb,
                is_cooperative,
            } => RefundActionView::CreateRefundTx {
                refund_address: refund_address@,
                fee_rate_sat_per_vb,
                is_cooperative,
            },
            RefundAction::Broadcast { chain } => RefundActionView::Broadcast { chain },
            RefundAction::UpdateSwapInfo { to_state, refund_tx_id } => RefundActionView::UpdateSwapInfo {
                to_state,
                refund_tx_id: refund_tx_id@,
            },
            RefundAction::Finish { result } => RefundActionView::Finish { result: text_view(result) },
        }
    }
}

/// The step that ends a refund.
pub open spec fn refund_finish(result: Result<Seq<char>, PaymentError>) -> (
    RefundPhaseView,
    RefundActionView,
) {
    (RefundPhaseView::Done, RefundActionView::Finish { result })
}

/// The step after the swap service answered the request for a refund
/// transaction: it must be for the chain of the lockup.
pub open spec fn refund_tx_built(chain: Chain, res: Result<Chain, PaymentError>) -> (
    RefundPhaseView,
    RefundActionView,
) {
    match res {
        Err(e) => refund_finish(Err(e)),
        Ok(built) => if built == chain {
            (RefundPhaseView::Broadcasting, RefundActionView::Broadcast { chain })
        } else {
            refund_finish(Err(PaymentError::UnexpectedTransaction))
        },
    }
}

/// The next phase and operation of a refund that the user asked for, of
/// the Bitcoin locked for an incoming swap.
pub open spec fn incoming_refund_next(
    swap: ChainSwapView,
    refund_address: Seq<char>,
    fee_rate_sat_per_vb: u32,
    is_cooperative: bool,
    phase: RefundPhaseView,
    event: RefundEventView,
) -> (RefundPhaseView, RefundActionView) {
    match (phase, event) {
        (RefundPhaseView::Start, RefundEventView::Begin) => {
            if !(swap.state is Refundable) {
                refund_finish(Err(PaymentError::NotRefundable))
            } else if swap.refund_tx_id is Some {
                refund_finish(Err(PaymentError::AlreadyRefunded))
            } else if !(swap.lockup_script.chain is Bitcoin) {
                refund_finish(Err(PaymentError::UnexpectedScript))
            } else {
                (
                    RefundPhaseView::FetchingUtxos,
                    RefundActionView::GetScriptUtxos { chain: Chain::Bitcoin },
                )
            }
        },
        (RefundPhaseView::FetchingUtxos, RefundEventView::Utxos(res)) => match res {
            Ok(()) => (
                RefundPhaseView::CreatingTx,
                RefundActionView::CreateRefundTx {
                    refund_address,
                    fee_rate_sat_per_vb: Some(fee_rate_sat_per_vb),
                    is_cooperative,
                },
            ),
            Err(e) => refund_finish(Err(e)),
        },
        (RefundPhaseView::CreatingTx, RefundEventView::Tx(res)) => refund_tx_built(
            Chain::Bitcoin,
            res,
        ),
        (RefundPhaseView::Broadcasting, RefundEventView::Broadcast(res)) => match res {
            Ok(refund_tx_id) => (
                RefundPhaseView::Updating { refund_tx_id },
                RefundActionView::UpdateSwapInfo { to_state: PaymentState::RefundPending, refund_tx_id },
            ),
            Err(e) => refund_finish(Err(e)),
        },
        (RefundPhaseView::Updating { refund_tx_id }, RefundEventView::Completed(res)) => match res {
            Ok(()) => refund_finish(Ok(refund_tx_id)),
            Err(e) => refund_finish(Err(e)),
        },
        _ => refund_finish(Err(PaymentError::UnexpectedEvent)),
    }
}

/// The next phase and operation of a refund of the Liquid funds locked
/// for an outgoing swap. The state of the swap is left to the caller.
pub open spec fn outgoing_refund_next(
    swap: ChainSwapView,
    is_cooperative: bool,
    phase: RefundPhaseView,
    event: RefundEventView,
) -> (RefundPhaseView, RefundActionView) {
    match (phase, event) {
        (RefundPhaseView::Start, RefundEventView::Begin) => {
            if swap.refund_tx_id is Some {
                refund_finish(Err(PaymentError::AlreadyRefunded))
            } else if !(swap.lockup_script.chain is Liquid) {
                refund_finish(Err(PaymentError::UnexpectedScript))
            } else {
                (
                    RefundPhaseView::FetchingUtxos,
                    RefundActionView::GetScriptUtxos { chain: Chain::Liquid },
                )
            }
        },
        (RefundPhaseView::FetchingUtxos, RefundEventView::Utxos(res)) => match res {
            Ok(()) => (RefundPhaseView::DerivingAddress, RefundActionView::DeriveAddress),
            Err(e) => refund_finish(Err(e)),
        },
        (RefundPhaseView::DerivingAddress, RefundEventView::Address(res)) => match res {
            Ok(refund_address) => (
                RefundPhaseView::CreatingTx,
                RefundActionView::CreateRefundTx {
                    refund_address,
                    fee_rate_sat_per_vb: None,
                    is_cooperative,
                },
            ),
            Err(e) => refund_finish(Err(e)),
        },
        (RefundPhaseView::CreatingTx, RefundEventView::Tx(res)) => refund_tx_built(Chain::Liquid, res),
        (RefundPhaseView::Broadcasting, RefundEventView::Broadcast(res)) => refund_finish(res),
        _ => refund_finish(Err(PaymentError::UnexpectedEvent)),
    }
}

fn finish(result: Result<String, PaymentError>) -> (res: (RefundPhase, RefundAction))
    ensures
        (res.0@, res.1@) == refund_finish(text_view(result)),
{
    (RefundPhase::Done, RefundAction::Finish { result })
}

fn tx_built(chain: Chain, built: Result<Chain, PaymentError>) -> (res: (RefundPhase, RefundAction))
    ensures
        (res.0@, res.1@) == refund_tx_built(chain, built),
{
    match built {
        Err(e) => finish(Err(e)),
        Ok(built) => if built == chain {
            (RefundPhase::Broadcasting, RefundAction::Broadcast { chain })
        } else {
            finish(Err(PaymentError::UnexpectedTransaction))
        },
    }
}

/// Takes one step of the refund of an incoming swap's Bitcoin lockup to
/// `refund_address`. The swap must be refundable and not refunded yet.
/// Once the refund is broadcast the swap moves to `RefundPending` with the
/// refund on record.
pub fn refund_incoming_swap(
    swap: &ChainSwap,
    refund_address: &str,
    broadcast_fee_rate_sat_per_vb: u32,
    is_cooperative: bool,
    phase: RefundPhase,
    event: RefundEvent,
) -> (res: (RefundPhase, RefundAction))
    ensures
        (res.0@, res.1@) == incoming_refund_next(
            swap@,
            refund_address@,
            broadcast_fee_rate_sat_per_vb,
            is_cooperative,
            phase@,
            event@,
        ),
{
    match (phase, event) {
        (RefundPhase::Start, RefundEvent::Begin) => {
            if swap.state != PaymentState::Refundable {
                finish(Err(PaymentError::NotRefundable))
            } else if swap.refund_tx_id.is_some() {
                finish(Err(PaymentError::AlreadyRefunded))
            } else if swap.lockup_script.chain != Chain::Bitcoin {
                finish(Err(PaymentError::UnexpectedScript))
            } else {
                (RefundPhase::FetchingUtxos, RefundAction::GetScriptUtxos { chain: Chain::Bitcoin })
            }
        },
        (RefundPhase::FetchingUtxos, RefundEvent::Utxos(res)) => match res {
            Ok(()) => (
                RefundPhase::CreatingTx,
                RefundAction::CreateRefundTx {
                    refund_address: refund_address.to_owned(),
                    fee_rate_sat_per_vb: Some(broadcast_fee_rate_sat_per_vb),
                    is_cooperative,
                },
            ),
            Err(e) => finish(Err(e)),
        },
        (RefundPhase::CreatingTx, RefundEvent::Tx(res)) => tx_built(Chain::Bitcoin, res),
        (RefundPhase::Broadcasting, RefundEvent::Broadcast(res)) => match res {
            Ok(refund_tx_id) => (
                RefundPhase::Updating { refund_tx_id: refund_tx_id.clone() },
                RefundAction::UpdateSwapInfo { to_state: PaymentState::RefundPending, refund_tx_id },
            ),
            Err(e) => finish(Err(e)),
        },
        (RefundPhase::Updating { refund_tx_id }, RefundEvent::Completed(res)) => match res {
            Ok(()) => finish(Ok(refund_tx_id)),
            Err(e) => finish(Err(e)),
        },
        _ => finish(Err(PaymentError::UnexpectedEvent)),
    }
}

/// Takes one step of the refund of an outgoing swap's Liquid lockup to a
/// fresh address of the wallet. The swap must not be refunded yet.
pub fn refund_outgoing_swap(
    swap: &ChainSwap,
    is_cooperative: bool,
    phase: RefundPhase,
    event: RefundEvent,
) -> (res: (RefundPhase, RefundAction))
    ensures
        (res.0@, res.1@) == outgoing_refund_next(swap@, is_cooperative, phase@, event@),
{
    match (phase, event) {
        (RefundPhase::Start, RefundEvent::Begin) => {
            if swap.refund_tx_id.is_some() {
                finish(Err(PaymentError::AlreadyRefunded))
            } else if swap.lockup_script.chain != Chain::Liquid {
                finish(Err(PaymentError::UnexpectedScript))
            } else {
                (RefundPhase::FetchingUtxos, RefundAction::GetScriptUtxos { chain: Chain::Liquid })
            }
        },
        (RefundPhase::FetchingUtxos, RefundEvent::Utxos(res)) => match res {
            Ok(()) => (RefundPhase::DerivingAddress, RefundAction::DeriveAddress),
            Err(e) => finish(Err(e)),
        },
        (RefundPhase::DerivingAddress, RefundEvent::Address(res)) => match res {
            Ok(refund_address) => (
                RefundPhase::CreatingTx,
                RefundAction::CreateRefundTx {
                    refund_address,
                    fee_rate_sat_per_vb: None,
                    is_cooperative,
                },
            ),
            Err(e) => finish(Err(e)),
        },
        (RefundPhase::CreatingTx, RefundEvent::Tx(res)) => tx_built(Chain::Liquid, res),
        (RefundPhase::Broadcasting, RefundEvent::Broadcast(res)) => finish(res),
        _ => finish(Err(PaymentError::UnexpectedEvent)),
    }
}

/// What a refund would cost, with the refund that is on record already,
/// if there is one.
pub fn prepare_refund(swap: &ChainSwap, refund_tx_vsize: u32, refund_tx_fees_sat: u64) -> (res: (
    u32,
    u64,
    Option<String>,
))
    ensures
        res.0 == refund_tx_vsize,
        res.1 == refund_tx_fees_sat,
        opt_view(res.2) == opt_view(swap.refund_tx_id),
{
    (refund_tx_vsize, refund_tx_fees_sat, swap.refund_tx_id.clone())
}

} // verus!
