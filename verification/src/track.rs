//! The periodic walk over pending swaps, which refunds outgoing swaps that
//! are due and marks expired incoming swaps as refundable.

use vstd::prelude::*;

use crate::error::PaymentError;
use crate::model::{opt_view, ChainSwap, ChainSwapView, Direction};
use crate::state::{transition_allowed, PaymentState};

verus! {

/// Where the walk stands with one swap, between two steps.
#[derive(Clone, Copy, Debug, PartialEq, Eq, Structural)]
pub enum TrackPhase {
    /// Nothing was done yet.
    Start,
    /// The expiry of the swap is being looked into.
    CheckingExpiry,
    /// A refund is under way; `fallback` tells whether a failure is
    /// followed by an attempt without the swap service.
    Refunding { fallback: bool },
    /// The store was asked for a state move.
    Updating,
    /// The swap is dealt with.
    Done,
}

/// The outcome of the operation that the last step asked for.
#[derive(Debug, PartialEq, Eq)]
pub enum TrackEvent {
    /// The walk reaches the swap.
    Begin,
    /// Whether the swap has expired, if that could be told.
    Expiry(Result<bool, PaymentError>),
    /// The refund was broadcast under the id given, or was not.
    Refunded(Result<String, PaymentError>),
    /// The store carried out the write, or failed to.
    Completed(Result<(), PaymentError>),
}

/// The mathematical view of a [`TrackEvent`].
pub enum TrackEventView {
    Begin,
    Expiry(Result<bool, PaymentError>),
    Refunded(Result<Seq<char>, PaymentError>),
    Completed(Result<(), PaymentError>),
}

impl View for TrackEvent {
    type V = TrackEventView;

    open spec fn view(&self) -> TrackEventView {
        match *self {
            TrackEvent::Begin => TrackEventView::Begin,
            TrackEvent::Expiry(res) => TrackEventView::Expiry(res),
            TrackEvent::Refunded(res) => TrackEventView::Refunded(
                match res {
                    Ok(id) => Ok(id@),
                    Err(e) => Err(e),
                },
            ),
            TrackEvent::Completed(res) => TrackEventView::Completed(res),
        }
    }
}

/// The operation to carry out next.
#[derive(Debug, PartialEq, Eq)]
pub enum TrackAction {
    /// Find out whether the swap has expired.
    CheckExpiry,
    /// Refund the user's Liquid lockup.
    RefundOutgoing { is_cooperative: bool },
    /// Move the swap to a state, recording the refund if one is given. A
    /// failure of this write is noted and no more.
    UpdateSwapInfo { to_state: PaymentState, refund_tx_id: Option<String> },
    /// Go on to the next swap.
    Finish,
}

/// The mathematical view of a [`TrackAction`].
pub enum TrackActionView {
    CheckExpiry,
    RefundOutgoing { is_cooperative: bool },
    UpdateSwapInfo { to_state: PaymentState, refund_tx_id: Option<Seq<char>> },
    Finish,
}

impl View for TrackAction {
    type V = TrackActionView;

    open spec fn view(&self) -> TrackActionView {
        match *self {
            TrackAction::CheckExpiry => TrackActionView::CheckExpiry,
            TrackAction::RefundOutgoing { is_cooperative } => TrackActionView::RefundOutgoing {
                is_cooperative,
            },
            TrackAction::UpdateSwapInfo { to_state, refund_tx_id } => TrackActionView::UpdateSwapInfo {
                to_state,
                refund_tx_id: opt_view(refund_tx_id),
            },
            TrackAction::Finish => TrackActionView::Finish,
        }
    }
}

/// The step that leaves a swap as it is.
pub open spec fn track_finish() -> (TrackPhase, TrackActionView) {
    (TrackPhase::Done, TrackActionView::Finish)
}

/// The step that follows the answer on a swap's expiry. An answer that
/// could not be had counts as "not expired".
pub open spec fn track_expiry_known(swap: ChainSwapView, expired: bool) -> (
    TrackPhase,
    TrackActionView,
) {
    if !expired && swap.state is Pending {
        track_finish()
    } else {
        match swap.direction {
            Direction::Outgoing => match swap.state {
                PaymentState::Pending => (
                    TrackPhase::Refunding { fallback: false },
                    TrackActionView::RefundOutgoing { is_cooperative: false },
                ),
                PaymentState::RefundPending => (
                    TrackPhase::Refunding { fallback: expired },
                    TrackActionView::RefundOutgoing { is_cooperative: true },
                ),
                _ => track_finish(),
            },
            Direction::Incoming => if swap.user_lockup_tx_id is Some && expired {
                (
                    TrackPhase::Updating,
                    TrackActionView::UpdateSwapInfo {
                        to_state: PaymentState::Refundable,
                        refund_tx_id: None,
                    },
                )
            } else {
                track_finish()
            },
        }
    }
}

/// The next phase and operation of the walk, for one swap.
pub open spec fn track_next(swap: ChainSwapView, phase: TrackPhase, event: TrackEventView) -> (
    TrackPhase,
    TrackActionView,
) {
    match (phase, event) {
        (TrackPhase::Start, TrackEventView::Begin) => if swap.refund_tx_id is Some {
            track_finish()
        } else {
            (TrackPhase::CheckingExpiry, TrackActionView::CheckExpiry)
        },
        (TrackPhase::CheckingExpiry, TrackEventView::Expiry(res)) => track_expiry_known(
            swap,
            res == Ok::<bool, PaymentError>(true),
        ),
        (TrackPhase::Refunding { fallback }, TrackEventView::Refunded(res)) => match res {
            Ok(refund_tx_id) => (
                TrackPhase::Updating,
                TrackActionView::UpdateSwapInfo {
                    to_state: PaymentState::RefundPending,
                    refund_tx_id: Some(refund_tx_id),
                },
            ),
            Err(_) => if fallback {
                (
                    TrackPhase::Refunding { fallback: false },
                    TrackActionView::RefundOutgoing { is_cooperative: false },
                )
            } else {
                track_finish()
            },
        },
        _ => track_finish(),
    }
}

fn finish() -> (res: (TrackPhase, TrackAction))
    ensures
        (res.0, res.1@) == track_finish(),
{
    (TrackPhase::Done, TrackAction::Finish)
}

fn expiry_known(swap: &ChainSwap, expired: bool) -> (res: (TrackPhase, TrackAction))
    ensures
        (res.0, res.1@) == track_expiry_known(swap@, expired),
{
    if !expired && swap.state == PaymentState::Pending {
        return finish();
    }
    match swap.direction {
        Direction::Outgoing => match swap.state {
            PaymentState::Pending => (
                TrackPhase::Refunding { fallback: false },
                TrackAction::RefundOutgoing { is_cooperative: false },
            ),
            PaymentState::RefundPending => (
                TrackPhase::Refunding { fallback: expired },
                TrackAction::RefundOutgoing { is_cooperative: true },
            ),
            _ => finish(),
        },
        Direction::Incoming => if swap.user_lockup_tx_id.is_some() && expired {
            (
                TrackPhase::Updating,
                TrackAction::UpdateSwapInfo {
                    to_state: PaymentState::Refundable,
                    refund_tx_id: None,
                },
            )
        } else {
            finish()
        },
    }
}

/// Takes one step of the walk for one pending swap. A swap with a refund
/// on record is passed over, and so is a pending swap that has not
/// expired. An expired outgoing swap is refunded without the swap
/// service; one that waits for its refund is refunded with the swap
/// service's help, and without it only if that fails after expiry. An
/// expired incoming swap whose lockup is on record becomes refundable.
pub fn track_refunds_and_refundables(swap: &ChainSwap, phase: TrackPhase, event: TrackEvent) -> (res:
    (TrackPhase, TrackAction))
    ensures
        (res.0, res.1@) == track_next(swap@, phase, event@),
{
    match (phase, event) {
        (TrackPhase::Start, TrackEvent::Begin) => if swap.refund_tx_id.is_some() {
            finish()
        } else {
            (TrackPhase::CheckingExpiry, TrackAction::CheckExpiry)
        },
        (TrackPhase::CheckingExpiry, TrackEvent::Expiry(res)) => {
            let expired = match res {
                Ok(expired) => expired,
                Err(_) => false,
            };
            expiry_known(swap, expired)
        },
        (TrackPhase::Refunding { fallback }, TrackEvent::Refunded(res)) => match res {
            Ok(refund_tx_id) => (
                TrackPhase::Updating,
                TrackAction::UpdateSwapInfo {
                    to_state: PaymentState::RefundPending,
                    refund_tx_id: Some(refund_tx_id),
                },
            ),
            Err(_) => if fallback {
                (
                    TrackPhase::Refunding { fallback: false },
                    TrackAction::RefundOutgoing { is_cooperative: false },
                )
            } else {
                finish()
            },
        },
        _ => finish(),
    }
}

/// What the expiry check and the two kinds of refund answer while the
/// walk deals with one swap.
pub struct TrackOutcomes {
    pub expiry: Result<bool, PaymentError>,
    pub cooperative: Result<Seq<char>, PaymentError>,
    pub non_cooperative: Result<Seq<char>, PaymentError>,
}

/// The walk carried through for one swap from a phase on: the state move
/// it asks for in the end, with the refund to record, if it asks for one.
pub open spec fn track_run(
    swap: ChainSwapView,
    phase: TrackPhase,
    event: TrackEventView,
    outcomes: TrackOutcomes,
    steps: nat,
) -> Option<(PaymentState, Option<Seq<char>>)>
    decreases steps,
{
    if steps == 0 {
        None
    } else {
        let (next, action) = track_next(swap, phase, event);
        let left = (steps - 1) as nat;
        match action {
            TrackActionView::Finish => None,
            TrackActionView::CheckExpiry => track_run(
                swap,
                next,
                TrackEventView::Expiry(outcomes.expiry),
                outcomes,
                left,
            ),
            TrackActionView::RefundOutgoing { is_cooperative } => track_run(
                swap,
                next,
                TrackEventView::Refunded(
                    if is_cooperative {
                        outcomes.cooperative
                    } else {
                        outcomes.non_cooperative
                    },
                ),
                outcomes,
                left,
            ),
            TrackActionView::UpdateSwapInfo { to_state, refund_tx_id } => Some(
                (to_state, refund_tx_id),
            ),
        }
    }
}

/// The whole walk for one swap.
pub open spec fn track_result(swap: ChainSwapView, outcomes: TrackOutcomes) -> Option<
    (PaymentState, Option<Seq<char>>),
> {
    track_run(swap, TrackPhase::Start, TrackEventView::Begin, outcomes, 5)
}

/// The state move that a refund leads to.
pub open spec fn refund_recorded(res: Result<Seq<char>, PaymentError>) -> Option<
    (PaymentState, Option<Seq<char>>),
> {
    match res {
        Ok(refund_tx_id) => Some((PaymentState::RefundPending, Some(refund_tx_id))),
        Err(_) => None,
    }
}

/// The walk for one swap, said in one piece.
pub open spec fn track_summary(swap: ChainSwapView, outcomes: TrackOutcomes) -> Option<
    (PaymentState, Option<Seq<char>>),
> {
    let expired = outcomes.expiry == Ok::<bool, PaymentError>(true);
    if swap.refund_tx_id is Some || (!expired && swap.state is Pending) {
        None
    } else {
        match swap.direction {
            Direction::Outgoing => match swap.state {
                PaymentState::Pending => refund_recorded(outcomes.non_cooperative),
                PaymentState::RefundPending => if outcomes.cooperative is Ok || !expired {
                    refund_recorded(outcomes.cooperative)
                } else {
                    refund_recorded(outcomes.non_cooperative)
                },
                _ => None,
            },
            Direction::Incoming => if swap.user_lockup_tx_id is Some && expired {
                Some((PaymentState::Refundable, None))
            } else {
                None
            },
        }
    }
}

/// Stepping through the walk gives what the summary says.
pub proof fn lemma_track_result(swap: ChainSwapView, outcomes: TrackOutcomes)
    ensures
        track_result(swap, outcomes) == track_summary(swap, outcomes),
{
    reveal_with_fuel(track_run, 6);
}

/// Before a swap has expired the walk does not depend on what a refund
/// without the swap service would give: none is attempted.
pub proof fn lemma_no_unilateral_refund_before_expiry(
    swap: ChainSwapView,
    outcomes: TrackOutcomes,
    other: Result<Seq<char>, PaymentError>,
)
    requires
        outcomes.expiry != Ok::<bool, PaymentError>(true),
    ensures
        track_result(swap, outcomes) == track_result(
            swap,
            TrackOutcomes { non_cooperative: other, ..outcomes },
        ),
{
    lemma_track_result(swap, outcomes);
    lemma_track_result(swap, TrackOutcomes { non_cooperative: other, ..outcomes });
}

/// The walk leaves a swap alone that has a refund on record.
pub proof fn lemma_refunded_swap_is_passed_over(swap: ChainSwapView, outcomes: TrackOutcomes)
    requires
        swap.refund_tx_id is Some,
    ensures
        track_result(swap, outcomes) is None,
{
    lemma_track_result(swap, outcomes);
}

/// A refund that the walk obtains for an outgoing swap already waiting
/// for its refund comes with a state move that the state machine refuses,
/// so it is not recorded.
pub proof fn lemma_refund_of_waiting_swap_is_not_recorded(
    swap: ChainSwapView,
    outcomes: TrackOutcomes,
)
    requires
        swap.direction is Outgoing,
        swap.state is RefundPending,
        track_result(swap, outcomes) is Some,
    ensures
        track_result(swap, outcomes) matches Some(asked) && asked.0 is RefundPending
            && !transition_allowed(swap.state, asked.0),
{
    lemma_track_result(swap, outcomes);
}

} // verus!
