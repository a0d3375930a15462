//! Payment states of a swap and the transitions allowed between them.

use vstd::prelude::*;

use crate::error::PaymentError;

verus! {

/// The state of a swap's payment.
#[derive(Clone, Copy, Debug, PartialEq, Eq, Hash, Structural)]
pub enum PaymentState {
    Created,
    Pending,
    Complete,
    TimedOut,
    Refundable,
    RefundPending,
    Failed,
}

/// Whether a swap in state `from` may move to state `to`.
pub open spec fn transition_allowed(from: PaymentState, to: PaymentState) -> bool {
    match to {
        PaymentState::Created => false,
        PaymentState::Pending => from is Created || from is Pending,
        PaymentState::Complete => from is Created || from is Pending || from is RefundPending,
        PaymentState::TimedOut => from is Created,
        PaymentState::Refundable => !(from is TimedOut) && !(from is Refundable),
        PaymentState::RefundPending => from is Pending || from is Refundable,
        PaymentState::Failed => !(from is Complete),
    }
}

/// Decides whether the move from `from` to `to` is legal.
pub fn is_valid_transition(from: PaymentState, to: PaymentState) -> (ok: bool)
    ensures
        ok == transition_allowed(from, to),
{
    match (from, to) {
        (_, PaymentState::Created) => false,
        (PaymentState::Created | PaymentState::Pending, PaymentState::Pending) => true,
        (_, PaymentState::Pending) => false,
        (
            PaymentState::Created | PaymentState::Pending | PaymentState::RefundPending,
            PaymentState::Complete,
        ) => true,
        (_, PaymentState::Complete) => false,
        (PaymentState::Created, PaymentState::TimedOut) => true,
        (_, PaymentState::TimedOut) => false,
        (
            PaymentState::Created
            | PaymentState::Pending
            | PaymentState::RefundPending
            | PaymentState::Failed
            | PaymentState::Complete,
            PaymentState::Refundable,
        ) => true,
        (_, PaymentState::Refundable) => false,
        (PaymentState::Pending | PaymentState::Refundable, PaymentState::RefundPending) => true,
        (_, PaymentState::RefundPending) => false,
        (PaymentState::Complete, PaymentState::Failed) => false,
        (_, PaymentState::Failed) => true,
    }
}

/// Checks a move of the state machine before it is committed.
pub fn validate_state_transition(from_state: PaymentState, to_state: PaymentState) -> (res: Result<
    (),
    PaymentError,
>)
    ensures
        res is Ok <==> transition_allowed(from_state, to_state),
        res is Err ==> res == Err::<(), PaymentError>(
            PaymentError::InvalidTransition { from: from_state, to: to_state },
        ),
{
    if is_valid_transition(from_state, to_state) {
        Ok(())
    } else {
        Err(PaymentError::InvalidTransition { from: from_state, to: to_state })
    }
}

/// No state leads back to `Created`.
pub proof fn lemma_created_is_never_a_destination(from: PaymentState)
    ensures
        !transition_allowed(from, PaymentState::Created),
{
}

/// A swap that was paid is never marked as failed.
pub proof fn lemma_complete_never_fails()
    ensures
        !transition_allowed(PaymentState::Complete, PaymentState::Failed),
{
}

/// A swap times out only before anything was locked.
pub proof fn lemma_timed_out_only_from_created(from: PaymentState)
    requires
        transition_allowed(from, PaymentState::TimedOut),
    ensures
        from is Created,
{
}

/// The edges of the state machine, one line per state of departure.
pub proof fn lemma_transition_table(from: PaymentState, to: PaymentState)
    ensures
        from is Created ==> (transition_allowed(from, to) <==> (to is Pending || to is Complete
            || to is TimedOut || to is Refundable || to is Failed)),
        from is Pending ==> (transition_allowed(from, to) <==> (to is Pending || to is Complete
            || to is Refundable || to is RefundPending || to is Failed)),
        from is TimedOut ==> (transition_allowed(from, to) <==> to is Failed),
        from is Complete ==> (transition_allowed(from, to) <==> to is Refundable),
        from is Refundable ==> (transition_allowed(from, to) <==> (to is RefundPending
            || to is Failed)),
        from is RefundPending ==> (transition_allowed(from, to) <==> (to is Refundable
            || to is Complete || to is Failed)),
        from is Failed ==> (transition_allowed(from, to) <==> (to is Failed || to is Refundable)),
{
}

} // verus!
