//! The claim of the counterparty's lockup, as a machine that is told the
//! outcome of each outside operation and answers with the next one.

use vstd::prelude::*;

use crate::error::PaymentError;
use crate::model::{
    opt_view, Chain, ChainSwap, ChainSwapView, Direction, PaymentTxData, PaymentTxDataView,
    PaymentType,
};
use crate::record::{updated, with_claim, without_claim};
use crate::state::{transition_allowed, PaymentState};

verus! {

/// What the orchestrator reads of a claim transaction that the swap
/// service built: its chain, its id and its serialised bytes in hex.
#[derive(Clone, Debug, PartialEq, Eq)]
pub struct ClaimTx {
    pub chain: Chain,
    pub tx_id: String,
    pub hex: String,
}

/// The mathematical view of a [`ClaimTx`].
pub struct ClaimTxView {
    pub chain: Chain,
    pub tx_id: Seq<char>,
    pub hex: Seq<char>,
}

impl View for ClaimTx {
    type V = ClaimTxView;

    open spec fn view(&self) -> ClaimTxView {
        ClaimTxView { chain: self.chain, tx_id: self.tx_id@, hex: self.hex@ }
    }
}

/// The view of a string or an error.
pub open spec fn text_view(res: Result<String, PaymentError>) -> Result<Seq<char>, PaymentError> {
    match res {
        Ok(text) => Ok(text@),
        Err(e) => Err(e),
    }
}

/// Where a claim stands between two steps.
#[derive(Clone, Debug, PartialEq, Eq)]
pub enum ClaimPhase {
    /// Nothing was done yet.
    Start,
    /// The wallet was asked for a fresh address.
    DerivingAddress,
    /// The swap service was asked for the claim transaction.
    CreatingTx { claim_address: Option<String> },
    /// The store was asked to reserve the claim transaction id.
    Reserving { tx: ClaimTx },
    /// The chain backend was asked to broadcast.
    Broadcasting { tx: ClaimTx },
    /// The swap service was asked to broadcast, after the backend failed.
    BroadcastingViaSwapper { tx_id: String },
    /// The store was asked to insert the provisional payment entry.
    InsertingPayment { claim_tx_id: String },
    /// The store was asked to move the swap to `Pending`.
    Updating,
    /// The store was asked to give up the reservation.
    Releasing { error: PaymentError },
    /// The claim is over.
    Done,
}

/// The mathematical view of a [`ClaimPhase`].
pub enum ClaimPhaseView {
    Start,
    DerivingAddress,
    CreatingTx { claim_address: Option<Seq<char>> },
    Reserving { tx: ClaimTxView },
    Broadcasting { tx: ClaimTxView },
    BroadcastingViaSwapper { tx_id: Seq<char> },
    InsertingPayment { claim_tx_id: Seq<char> },
    Updating,
    Releasing { error: PaymentError },
    Done,
}

impl View for ClaimPhase {
    type V = ClaimPhaseView;

    open spec fn view(&self) -> ClaimPhaseView {
        match *self {
            ClaimPhase::Start => ClaimPhaseView::Start,
            ClaimPhase::DerivingAddress => ClaimPhaseView::DerivingAddress,
            ClaimPhase::CreatingTx { claim_address } => ClaimPhaseView::CreatingTx {
                claim_address: opt_view(claim_address),
            },
            ClaimPhase::Reserving { tx } => ClaimPhaseView::Reserving { tx: tx@ },
            ClaimPhase::Broadcasting { tx } => ClaimPhaseView::Broadcasting { tx: tx@ },
            ClaimPhase::BroadcastingViaSwapper { tx_id } => ClaimPhaseView::BroadcastingViaSwapper {
                tx_id: tx_id@,
            },
            ClaimPhase::InsertingPayment { claim_tx_id } => ClaimPhaseView::InsertingPayment {
                claim_tx_id: claim_tx_id@,
            },
            ClaimPhase::Updating => ClaimPhaseView::Updating,
            ClaimPhase::Releasing { error } => ClaimPhaseView::Releasing { error },
            ClaimPhase::Done => ClaimPhaseView::Done,
        }
    }
}

/// The outcome of the operation that the last step asked for.
#[derive(Debug, PartialEq, Eq)]
pub enum ClaimEvent {
    /// The claim begins.
    Begin,
    /// The wallet derived an address, or failed to.
    Address(Result<String, PaymentError>),
    /// The swap service built the claim transaction, or failed to.
    Tx(Result<ClaimTx, PaymentError>),
    /// The store carried out the write, or failed to.
    Stored(Result<(), PaymentError>),
    /// The transaction was broadcast under the id given, or was not.
    Broadcast(Result<String, PaymentError>),
}

/// The mathematical view of a [`ClaimEvent`].
pub enum ClaimEventView {
    Begin,
    Address(Result<Seq<char>, PaymentError>),
    Tx(Result<ClaimTxView, PaymentError>),
    Stored(Result<(), PaymentError>),
    Broadcast(Result<Seq<char>, PaymentError>),
}

impl View for ClaimEvent {
    type V = ClaimEventView;

    open spec fn view(&self) -> ClaimEventView {
        match *self {
            ClaimEvent::Begin => ClaimEventView::Begin,
            ClaimEvent::Address(res) => ClaimEventView::Address(text_view(res)),
            ClaimEvent::Tx(res) => ClaimEventView::Tx(
                match res {
                    Ok(tx) => Ok(tx@),
                    Err(e) => Err(e),
                },
            ),
            ClaimEvent::Stored(res) => ClaimEventView::Stored(res),
            ClaimEvent::Broadcast(res) => ClaimEventView::Broadcast(text_view(res)),
        }
    }
}

/// The operation to carry out next.
#[derive(Debug, PartialEq, Eq)]
pub enum ClaimAction {
    /// Ask the wallet for its next unused address.
    DeriveAddress,
    /// Ask the swap service for a claim transaction paying to the address.
    CreateClaimTx { claim_address: Option<String> },
    /// Reserve the claim transaction id in the store, with the address.
    SetClaimTxId { claim_address: Option<String>, tx_id: String },
    /// Broadcast the claim transaction through the backend of its chain.
    Broadcast { chain: Chain },
    /// Broadcast the serialised claim transaction through the swap service.
    BroadcastViaSwapper { hex: String },
    /// Insert the provisional payment entry.
    InsertPayment { payment: PaymentTxData },
    /// Move the swap to the state given, recording the claim transaction
    /// id.
    UpdateSwapInfo { to_state: PaymentState, claim_tx_id: String },
    /// Give up the reservation of the claim transaction id.
    UnsetClaimTxId { tx_id: String },
    /// Stop, with this result.
    Finish { result: Result<(), PaymentError> },
}

/// The mathematical view of a [`ClaimAction`].
pub enum ClaimActionView {
    DeriveAddress,
    CreateClaimTx { claim_address: Option<Seq<char>> },
    SetClaimTxId { claim_address: Option<Seq<char>>, tx_id: Seq<char> },
    Broadcast { chain: Chain },
    BroadcastViaSwapper { hex: Seq<char> },
    InsertPayment { payment: PaymentTxDataView },
    UpdateSwapInfo { to_state: PaymentState, claim_tx_id: Seq<char> },
    UnsetClaimTxId { tx_id: Seq<char> },
    Finish { result: Result<(), PaymentError> },
}

impl View for ClaimAction {
    type V = ClaimActionView;

    open spec fn view(&self) -> ClaimActionView {
        match *self {
            ClaimAction::DeriveAddress => ClaimActionView::DeriveAddress,
            ClaimAction::CreateClaimTx { claim_address } => ClaimActionView::CreateClaimTx {
                claim_address: opt_view(claim_address),
            },
            ClaimAction::SetClaimTxId { claim_address, tx_id } => ClaimActionView::SetClaimTxId {
                claim_address: opt_view(claim_address),
                tx_id: tx_id@,
            },
            ClaimAction::Broadcast { chain } => ClaimActionView::Broadcast { chain },
            ClaimAction::BroadcastViaSwapper { hex } => ClaimActionView::BroadcastViaSwapper {
                hex: hex@,
            },
            ClaimAction::InsertPayment { payment } => ClaimActionView::InsertPayment {
                payment: payment@,
            },
            ClaimAction::UpdateSwapInfo { to_state, claim_tx_id } => ClaimActionView::UpdateSwapInfo {
                to_state,
                claim_tx_id: claim_tx_id@,
            },
            ClaimAction::UnsetClaimTxId { tx_id } => ClaimActionView::UnsetClaimTxId {
                tx_id: tx_id@,
            },
            ClaimAction::Finish { result } => ClaimActionView::Finish { result },
        }
    }
}

/// The step that ends a claim.
pub open spec fn claim_finish(result: Result<(), PaymentError>) -> (ClaimPhaseView, ClaimActionView) {
    (ClaimPhaseView::Done, ClaimActionView::Finish { result })
}

/// The entry that makes a claim of an incoming swap show in the wallet
/// before the indexer has seen the transaction.
pub open spec fn claim_payment(swap: ChainSwapView, claim_tx_id: Seq<char>, now: u32) -> PaymentTxDataView {
    PaymentTxDataView {
        tx_id: claim_tx_id,
        timestamp: Some(now),
        amount_sat: swap.receiver_amount_sat,
        fees_sat: 0,
        payment_type: PaymentType::Receive,
        is_confirmed: false,
    }
}

/// The next phase and the operation to carry out, for each phase and
/// outcome. An outcome that does not answer what the phase asked for ends
/// the claim with an error.
pub open spec fn claim_next(
    swap: ChainSwapView,
    now: u32,
    phase: ClaimPhaseView,
    event: ClaimEventView,
) -> (ClaimPhaseView, ClaimActionView) {
    match (phase, event) {
        (ClaimPhaseView::Start, ClaimEventView::Begin) => {
            if swap.claim_tx_id is Some {
                claim_finish(Err(PaymentError::AlreadyClaimed))
            } else if swap.direction is Incoming && swap.claim_address is None {
                (ClaimPhaseView::DerivingAddress, ClaimActionView::DeriveAddress)
            } else {
                (
                    ClaimPhaseView::CreatingTx { claim_address: swap.claim_address },
                    ClaimActionView::CreateClaimTx { claim_address: swap.claim_address },
                )
            }
        },
        (ClaimPhaseView::DerivingAddress, ClaimEventView::Address(res)) => match res {
            Ok(address) => (
                ClaimPhaseView::CreatingTx { claim_address: Some(address) },
                ClaimActionView::CreateClaimTx { claim_address: Some(address) },
            ),
            Err(e) => claim_finish(Err(e)),
        },
        (ClaimPhaseView::CreatingTx { claim_address }, ClaimEventView::Tx(res)) => match res {
            Ok(tx) => (
                ClaimPhaseView::Reserving { tx },
                ClaimActionView::SetClaimTxId { claim_address, tx_id: tx.tx_id },
            ),
            Err(e) => claim_finish(Err(e)),
        },
        (ClaimPhaseView::Reserving { tx }, ClaimEventView::Stored(res)) => match res {
            Ok(()) => (
                ClaimPhaseView::Broadcasting { tx },
                ClaimActionView::Broadcast { chain: tx.chain },
            ),
            Err(e) => claim_finish(Err(e)),
        },
        (ClaimPhaseView::Broadcasting { tx }, ClaimEventView::Broadcast(res)) => match res {
            Ok(claim_tx_id) => claim_broadcast_done(swap, now, claim_tx_id),
            Err(e) => match tx.chain {
                Chain::Liquid => (
                    ClaimPhaseView::BroadcastingViaSwapper { tx_id: tx.tx_id },
                    ClaimActionView::BroadcastViaSwapper { hex: tx.hex },
                ),
                Chain::Bitcoin => (
                    ClaimPhaseView::Releasing { error: e },
                    ClaimActionView::UnsetClaimTxId { tx_id: tx.tx_id },
                ),
            },
        },
        (ClaimPhaseView::BroadcastingViaSwapper { tx_id }, ClaimEventView::Broadcast(res)) => match res {
            Ok(claim_tx_id) => claim_broadcast_done(swap, now, claim_tx_id),
            Err(e) => (
                ClaimPhaseView::Releasing { error: e },
                ClaimActionView::UnsetClaimTxId { tx_id },
            ),
        },
        (ClaimPhaseView::InsertingPayment { claim_tx_id }, ClaimEventView::Stored(res)) => match res {
            Ok(()) => (ClaimPhaseView::Updating, ClaimActionView::UpdateSwapInfo { to_state: PaymentState::Pending, claim_tx_id }),
            Err(e) => claim_finish(Err(e)),
        },
        (ClaimPhaseView::Updating, ClaimEventView::Stored(res)) => claim_finish(res),
        (ClaimPhaseView::Releasing { error }, ClaimEventView::Stored(res)) => match res {
            Ok(()) => claim_finish(Err(error)),
            Err(e) => claim_finish(Err(e)),
        },
        _ => claim_finish(Err(PaymentError::UnexpectedEvent)),
    }
}

/// The step after a broadcast went through: an incoming swap gets its
/// provisional payment entry first, an outgoing one moves on at once.
pub open spec fn claim_broadcast_done(swap: ChainSwapView, now: u32, claim_tx_id: Seq<char>) -> (
    ClaimPhaseView,
    ClaimActionView,
) {
    match swap.direction {
        Direction::Incoming => (
            ClaimPhaseView::InsertingPayment { claim_tx_id },
            ClaimActionView::InsertPayment { payment: claim_payment(swap, claim_tx_id, now) },
        ),
        Direction::Outgoing => (
            ClaimPhaseView::Updating,
            ClaimActionView::UpdateSwapInfo { to_state: PaymentState::Pending, claim_tx_id },
        ),
    }
}

fn finish(result: Result<(), PaymentError>) -> (res: (ClaimPhase, ClaimAction))
    ensures
        (res.0@, res.1@) == claim_finish(result),
{
    (ClaimPhase::Done, ClaimAction::Finish { result })
}

fn broadcast_done(swap: &ChainSwap, now: u32, claim_tx_id: String) -> (res: (ClaimPhase, ClaimAction))
    ensures
        (res.0@, res.1@) == claim_broadcast_done(swap@, now, claim_tx_id@),
{
    match swap.direction {
        Direction::Incoming => {
            let payment = PaymentTxData {
                tx_id: claim_tx_id.clone(),
                timestamp: Some(now),
                amount_sat: swap.receiver_amount_sat,
                fees_sat: 0,
                payment_type: PaymentType::Receive,
                is_confirmed: false,
            };
            (ClaimPhase::InsertingPayment { claim_tx_id }, ClaimAction::InsertPayment { payment })
        },
        Direction::Outgoing => (ClaimPhase::Updating, ClaimAction::UpdateSwapInfo { to_state: PaymentState::Pending, claim_tx_id }),
    }
}

/// Takes one step of a claim: from the phase the claim is in and the
/// outcome of what was asked last, to the next phase and the operation to
/// carry out. `swap` is the record as read when the claim began, `now` the
/// time in seconds since the epoch.
pub fn claim(swap: &ChainSwap, now: u32, phase: ClaimPhase, event: ClaimEvent) -> (res: (
    ClaimPhase,
    ClaimAction,
))
    ensures
        (res.0@, res.1@) == claim_next(swap@, now, phase@, event@),
{
    match (phase, event) {
        (ClaimPhase::Start, ClaimEvent::Begin) => {
            if swap.claim_tx_id.is_some() {
                finish(Err(PaymentError::AlreadyClaimed))
            } else if swap.direction == Direction::Incoming && swap.claim_address.is_none() {
                (ClaimPhase::DerivingAddress, ClaimAction::DeriveAddress)
            } else {
                (
                    ClaimPhase::CreatingTx { claim_address: swap.claim_address.clone() },
                    ClaimAction::CreateClaimTx { claim_address: swap.claim_address.clone() },
                )
            }
        },
        (ClaimPhase::DerivingAddress, ClaimEvent::Address(res)) => match res {
            Ok(address) => (
                ClaimPhase::CreatingTx { claim_address: Some(address.clone()) },
                ClaimAction::CreateClaimTx { claim_address: Some(address) },
            ),
            Err(e) => finish(Err(e)),
        },
        (ClaimPhase::CreatingTx { claim_address }, ClaimEvent::Tx(res)) => match res {
            Ok(tx) => {
                let tx_id = tx.tx_id.clone();
                (ClaimPhase::Reserving { tx }, ClaimAction::SetClaimTxId { claim_address, tx_id })
            },
            Err(e) => finish(Err(e)),
        },
        (ClaimPhase::Reserving { tx }, ClaimEvent::Stored(res)) => match res {
            Ok(()) => {
                let chain = tx.chain;
                (ClaimPhase::Broadcasting { tx }, ClaimAction::Broadcast { chain })
            },
            Err(e) => finish(Err(e)),
        },
        (ClaimPhase::Broadcasting { tx }, ClaimEvent::Broadcast(res)) => match res {
            Ok(claim_tx_id) => broadcast_done(swap, now, claim_tx_id),
            Err(e) => match tx.chain {
                Chain::Liquid => (
                    ClaimPhase::BroadcastingViaSwapper { tx_id: tx.tx_id },
                    ClaimAction::BroadcastViaSwapper { hex: tx.hex },
                ),
                Chain::Bitcoin => (
                    ClaimPhase::Releasing { error: e },
                    ClaimAction::UnsetClaimTxId { tx_id: tx.tx_id },
                ),
            },
        },
        (ClaimPhase::BroadcastingViaSwapper { tx_id }, ClaimEvent::Broadcast(res)) => match res {
            Ok(claim_tx_id) => broadcast_done(swap, now, claim_tx_id),
            Err(e) => (ClaimPhase::Releasing { error: e }, ClaimAction::UnsetClaimTxId { tx_id }),
        },
        (ClaimPhase::InsertingPayment { claim_tx_id }, ClaimEvent::Stored(res)) => match res {
            Ok(()) => (ClaimPhase::Updating, ClaimAction::UpdateSwapInfo { to_state: PaymentState::Pending, claim_tx_id }),
            Err(e) => finish(Err(e)),
        },
        (ClaimPhase::Updating, ClaimEvent::Stored(res)) => finish(res),
        (ClaimPhase::Releasing { error }, ClaimEvent::Stored(res)) => match res {
            Ok(()) => finish(Err(error)),
            Err(e) => finish(Err(e)),
        },
        _ => finish(Err(PaymentError::UnexpectedEvent)),
    }
}

/// What the wallet, the swap service and the chain backend answer during
/// one claim.
pub struct ClaimOutcomes {
    pub address: Result<Seq<char>, PaymentError>,
    pub tx: Result<ClaimTxView, PaymentError>,
    pub chain_broadcast: Result<Seq<char>, PaymentError>,
    pub swapper_broadcast: Result<Seq<char>, PaymentError>,
}

/// The most steps a claim takes.
pub open spec fn claim_max_steps() -> nat {
    9
}

/// A claim carried through from a phase on, against a store that holds
/// `record` and carries out every write asked of it: the record at the
/// end, and the result. `initial` is the record as read when the claim
/// began.
pub open spec fn claim_run(
    initial: ChainSwapView,
    record: ChainSwapView,
    now: u32,
    phase: ClaimPhaseView,
    event: ClaimEventView,
    outcomes: ClaimOutcomes,
    steps: nat,
) -> (ChainSwapView, Result<(), PaymentError>)
    decreases steps,
{
    if steps == 0 {
        (record, Err(PaymentError::UnexpectedEvent))
    } else {
        let (next, action) = claim_next(initial, now, phase, event);
        let left = (steps - 1) as nat;
        match action {
            ClaimActionView::Finish { result } => (record, result),
            ClaimActionView::DeriveAddress => claim_run(
                initial,
                record,
                now,
                next,
                ClaimEventView::Address(outcomes.address),
                outcomes,
                left,
            ),
            ClaimActionView::CreateClaimTx { .. } => claim_run(
                initial,
                record,
                now,
                next,
                ClaimEventView::Tx(outcomes.tx),
                outcomes,
                left,
            ),
            ClaimActionView::SetClaimTxId { claim_address, tx_id } => if record.claim_tx_id is Some {
                claim_run(
                    initial,
                    record,
                    now,
                    next,
                    ClaimEventView::Stored(Err(PaymentError::AlreadyClaimed)),
                    outcomes,
                    left,
                )
            } else {
                claim_run(
                    initial,
                    with_claim(record, claim_address, tx_id),
                    now,
                    next,
                    ClaimEventView::Stored(Ok(())),
                    outcomes,
                    left,
                )
            },
            ClaimActionView::Broadcast { .. } => claim_run(
                initial,
                record,
                now,
                next,
                ClaimEventView::Broadcast(outcomes.chain_broadcast),
                outcomes,
                left,
            ),
            ClaimActionView::BroadcastViaSwapper { .. } => claim_run(
                initial,
                record,
                now,
                next,
                ClaimEventView::Broadcast(outcomes.swapper_broadcast),
                outcomes,
                left,
            ),
            ClaimActionView::InsertPayment { .. } => claim_run(
                initial,
                record,
                now,
                next,
                ClaimEventView::Stored(Ok(())),
                outcomes,
                left,
            ),
            ClaimActionView::UpdateSwapInfo { to_state, claim_tx_id } => if transition_allowed(
                record.state,
                to_state,
            ) {
                claim_run(
                    initial,
                    updated(record, to_state, None, None, Some(claim_tx_id), None),
                    now,
                    next,
                    ClaimEventView::Stored(Ok(())),
                    outcomes,
                    left,
                )
            } else {
                claim_run(
                    initial,
                    record,
                    now,
                    next,
                    ClaimEventView::Stored(
                        Err(
                            PaymentError::InvalidTransition {
                                from: record.state,
                                to: to_state,
                            },
                        ),
                    ),
                    outcomes,
                    left,
                )
            },
            ClaimActionView::UnsetClaimTxId { tx_id } => claim_run(
                initial,
                without_claim(record, tx_id),
                now,
                next,
                ClaimEventView::Stored(Ok(())),
                outcomes,
                left,
            ),
        }
    }
}

/// A whole claim of `swap`: the record at the end, and the result.
pub open spec fn claim_result(swap: ChainSwapView, now: u32, outcomes: ClaimOutcomes) -> (
    ChainSwapView,
    Result<(), PaymentError>,
) {
    claim_run(
        swap,
        swap,
        now,
        ClaimPhaseView::Start,
        ClaimEventView::Begin,
        outcomes,
        claim_max_steps(),
    )
}

/// The address a claim pays to: a fresh one of the wallet for an incoming
/// swap that has none, else the one on record.
pub open spec fn claim_address_of(swap: ChainSwapView, outcomes: ClaimOutcomes) -> Result<
    Option<Seq<char>>,
    PaymentError,
> {
    if swap.direction is Incoming && swap.claim_address is None {
        match outcomes.address {
            Ok(address) => Ok(Some(address)),
            Err(e) => Err(e),
        }
    } else {
        Ok(swap.claim_address)
    }
}

/// How the broadcast of a claim transaction ends: a Liquid claim falls
/// back on the swap service, a Bitcoin claim does not.
pub open spec fn claim_broadcast_of(chain: Chain, outcomes: ClaimOutcomes) -> Result<
    Seq<char>,
    PaymentError,
> {
    match outcomes.chain_broadcast {
        Ok(id) => Ok(id),
        Err(e) => match chain {
            Chain::Liquid => outcomes.swapper_broadcast,
            Chain::Bitcoin => Err(e),
        },
    }
}

/// A claim, said in one piece.
pub open spec fn claim_summary(swap: ChainSwapView, outcomes: ClaimOutcomes) -> (
    ChainSwapView,
    Result<(), PaymentError>,
) {
    if swap.claim_tx_id is Some {
        (swap, Err(PaymentError::AlreadyClaimed))
    } else {
        match (claim_address_of(swap, outcomes), outcomes.tx) {
            (Err(e), _) => (swap, Err(e)),
            (Ok(_), Err(e)) => (swap, Err(e)),
            (Ok(address), Ok(tx)) => {
                let reserved = with_claim(swap, address, tx.tx_id);
                match claim_broadcast_of(tx.chain, outcomes) {
                    Err(e) => (without_claim(reserved, tx.tx_id), Err(e)),
                    Ok(id) => if transition_allowed(swap.state, PaymentState::Pending) {
                        (
                            updated(reserved, PaymentState::Pending, None, None, Some(id), None),
                            Ok(()),
                        )
                    } else {
                        (
                            reserved,
                            Err(
                                PaymentError::InvalidTransition {
                                    from: swap.state,
                                    to: PaymentState::Pending,
                                },
                            ),
                        )
                    },
                }
            },
        }
    }
}

/// Stepping through a claim gives what the summary says.
pub proof fn lemma_claim_result(swap: ChainSwapView, now: u32, outcomes: ClaimOutcomes)
    ensures
        claim_result(swap, now, outcomes) == claim_summary(swap, outcomes),
{
    reveal_with_fuel(claim_run, 10);
}

/// Once a claim went through, another claim of the same swap is refused
/// as already made, and leaves the record alone.
pub proof fn lemma_second_claim_rejected(
    swap: ChainSwapView,
    now: u32,
    outcomes: ClaimOutcomes,
    later: u32,
    later_outcomes: ClaimOutcomes,
)
    requires
        claim_result(swap, now, outcomes).1 is Ok,
    ensures
        claim_result(claim_result(swap, now, outcomes).0, later, later_outcomes) == (
            claim_result(swap, now, outcomes).0,
            Err::<(), PaymentError>(PaymentError::AlreadyClaimed),
        ),
{
    lemma_claim_result(swap, now, outcomes);
    lemma_claim_result(claim_result(swap, now, outcomes).0, later, later_outcomes);
}

/// A claim whose broadcast fails leaves no claim transaction id on
/// record. A later claim whose broadcast goes through records the id of
/// its transaction, and succeeds if the swap may move to `Pending`.
pub proof fn lemma_failed_broadcast_allows_retry(
    swap: ChainSwapView,
    now: u32,
    outcomes: ClaimOutcomes,
    later: u32,
    later_outcomes: ClaimOutcomes,
)
    requires
        swap.claim_tx_id is None,
        claim_address_of(swap, outcomes) is Ok,
        outcomes.tx is Ok,
        claim_broadcast_of(outcomes.tx->Ok_0.chain, outcomes) is Err,
        later_outcomes.tx is Ok,
        claim_broadcast_of(later_outcomes.tx->Ok_0.chain, later_outcomes) is Ok,
    ensures
        claim_result(swap, now, outcomes).1 is Err,
        claim_result(swap, now, outcomes).0.claim_tx_id is None,
        claim_result(swap, now, outcomes).0.state == swap.state,
        claim_result(claim_result(swap, now, outcomes).0, later, later_outcomes).0.claim_tx_id
            == Some(later_outcomes.tx->Ok_0.tx_id),
        transition_allowed(swap.state, PaymentState::Pending) ==> claim_result(
            claim_result(swap, now, outcomes).0,
            later,
            later_outcomes,
        ).1 is Ok,
{
    lemma_claim_result(swap, now, outcomes);
    lemma_claim_result(claim_result(swap, now, outcomes).0, later, later_outcomes);
}

} // verus!
