//! What a committed change does to a swap record: the state move with the
//! transaction ids that come with it, and the reservation of the claim
//! transaction id ahead of a broadcast.

use vstd::prelude::*;

use crate::error::PaymentError;
use crate::model::{opt_str_view, opt_view, ChainSwap, ChainSwapView, Direction};
use crate::state::{transition_allowed, validate_state_transition, PaymentState};

verus! {

/// A transaction id field after an update: a value once recorded stays.
pub open spec fn recorded(stored: Option<Seq<char>>, given: Option<Seq<char>>) -> Option<
    Seq<char>,
> {
    if stored is Some {
        stored
    } else {
        given
    }
}

/// The identifier under which a change of the swap is announced to
/// subscribers: the claim transaction for an incoming swap, the user's
/// lockup transaction for an outgoing one, the value given with the update
/// before the one already stored.
pub open spec fn payment_id(
    swap: ChainSwapView,
    user_lockup_tx_id: Option<Seq<char>>,
    claim_tx_id: Option<Seq<char>>,
) -> Option<Seq<char>> {
    match swap.direction {
        Direction::Incoming => if claim_tx_id is Some {
            claim_tx_id
        } else {
            swap.claim_tx_id
        },
        Direction::Outgoing => if user_lockup_tx_id is Some {
            user_lockup_tx_id
        } else {
            swap.user_lockup_tx_id
        },
    }
}

/// The record after a committed update.
pub open spec fn updated(
    swap: ChainSwapView,
    to_state: PaymentState,
    server_lockup_tx_id: Option<Seq<char>>,
    user_lockup_tx_id: Option<Seq<char>>,
    claim_tx_id: Option<Seq<char>>,
    refund_tx_id: Option<Seq<char>>,
) -> ChainSwapView {
    ChainSwapView {
        state: to_state,
        server_lockup_tx_id: recorded(swap.server_lockup_tx_id, server_lockup_tx_id),
        user_lockup_tx_id: recorded(swap.user_lockup_tx_id, user_lockup_tx_id),
        claim_tx_id: recorded(swap.claim_tx_id, claim_tx_id),
        refund_tx_id: recorded(swap.refund_tx_id, refund_tx_id),
        ..swap
    }
}

/// The messages that an update puts on the subscription bus.
pub open spec fn published(
    swap: ChainSwapView,
    to_state: PaymentState,
    user_lockup_tx_id: Option<Seq<char>>,
    claim_tx_id: Option<Seq<char>>,
) -> Seq<Seq<char>> {
    if !transition_allowed(swap.state, to_state) {
        seq![]
    } else {
        match payment_id(swap, user_lockup_tx_id, claim_tx_id) {
            Some(id) => seq![id],
            None => seq![],
        }
    }
}

fn owned(s: Option<&str>) -> (res: Option<String>)
    ensures
        opt_view(res) == opt_str_view(s),
{
    match s {
        Some(s) => Some(s.to_owned()),
        None => None,
    }
}

fn keep_or_record(stored: &mut Option<String>, given: Option<&str>)
    ensures
        opt_view(*final(stored)) == recorded(opt_view(*old(stored)), opt_str_view(given)),
{
    if stored.is_none() {
        *stored = owned(given);
    }
}

/// Moves a swap to `to_state` and records the transaction ids given, each
/// only where none is recorded yet. Returns the payment identifier to
/// announce, if the swap has one. An illegal move changes nothing.
pub fn update_swap_info(
    swap: &mut ChainSwap,
    to_state: PaymentState,
    server_lockup_tx_id: Option<&str>,
    user_lockup_tx_id: Option<&str>,
    claim_tx_id: Option<&str>,
    refund_tx_id: Option<&str>,
) -> (res: Result<Option<String>, PaymentError>)
    ensures
        res is Ok <==> transition_allowed(old(swap).state, to_state),
        res matches Ok(id) ==> {
            &&& final(swap)@ == updated(
                old(swap)@,
                to_state,
                opt_str_view(server_lockup_tx_id),
                opt_str_view(user_lockup_tx_id),
                opt_str_view(claim_tx_id),
                opt_str_view(refund_tx_id),
            )
            &&& opt_view(id) == payment_id(
                old(swap)@,
                opt_str_view(user_lockup_tx_id),
                opt_str_view(claim_tx_id),
            )
        },
        res matches Err(e) ==> {
            &&& e == (PaymentError::InvalidTransition { from: old(swap).state, to: to_state })
            &&& *final(swap) == *old(swap)
        },
        published(
            old(swap)@,
            to_state,
            opt_str_view(user_lockup_tx_id),
            opt_str_view(claim_tx_id),
        ) == (match res {
            Ok(Some(id)) => seq![id@],
            _ => Seq::<Seq<char>>::empty(),
        }),
{
    let id = match swap.direction {
        Direction::Incoming => match claim_tx_id {
            Some(c) => Some(c.to_owned()),
            None => swap.claim_tx_id.clone(),
        },
        Direction::Outgoing => match user_lockup_tx_id {
            Some(u) => Some(u.to_owned()),
            None => swap.user_lockup_tx_id.clone(),
        },
    };
    match validate_state_transition(swap.state, to_state) {
        Err(e) => Err(e),
        Ok(()) => {
            keep_or_record(&mut swap.server_lockup_tx_id, server_lockup_tx_id);
            keep_or_record(&mut swap.user_lockup_tx_id, user_lockup_tx_id);
            keep_or_record(&mut swap.claim_tx_id, claim_tx_id);
            keep_or_record(&mut swap.refund_tx_id, refund_tx_id);
            swap.state = to_state;
            Ok(id)
        },
    }
}

/// Every update that goes through announces the swap's payment identifier
/// once, and nothing else.
pub proof fn lemma_update_publishes_payment_id(
    swap: ChainSwapView,
    to_state: PaymentState,
    user_lockup_tx_id: Option<Seq<char>>,
    claim_tx_id: Option<Seq<char>>,
)
    requires
        transition_allowed(swap.state, to_state),
        payment_id(swap, user_lockup_tx_id, claim_tx_id) is Some,
    ensures
        published(swap, to_state, user_lockup_tx_id, claim_tx_id) == seq![
            payment_id(swap, user_lockup_tx_id, claim_tx_id)->0,
        ],
        swap.direction is Incoming ==> payment_id(swap, user_lockup_tx_id, claim_tx_id) == (
        if claim_tx_id is Some {
            claim_tx_id
        } else {
            swap.claim_tx_id
        }),
        swap.direction is Outgoing ==> payment_id(swap, user_lockup_tx_id, claim_tx_id) == (
        if user_lockup_tx_id is Some {
            user_lockup_tx_id
        } else {
            swap.user_lockup_tx_id
        }),
{
}

/// An update that is refused announces nothing.
pub proof fn lemma_refused_update_publishes_nothing(
    swap: ChainSwapView,
    to_state: PaymentState,
    user_lockup_tx_id: Option<Seq<char>>,
    claim_tx_id: Option<Seq<char>>,
)
    requires
        !transition_allowed(swap.state, to_state),
    ensures
        published(swap, to_state, user_lockup_tx_id, claim_tx_id) == Seq::<Seq<char>>::empty(),
{
}

/// The record after the claim transaction id was reserved.
pub open spec fn with_claim(
    swap: ChainSwapView,
    claim_address: Option<Seq<char>>,
    claim_tx_id: Seq<char>,
) -> ChainSwapView {
    ChainSwapView { claim_address, claim_tx_id: Some(claim_tx_id), ..swap }
}

/// The record after a reservation of `claim_tx_id` was given up.
pub open spec fn without_claim(swap: ChainSwapView, claim_tx_id: Seq<char>) -> ChainSwapView {
    if swap.claim_tx_id == Some(claim_tx_id) {
        ChainSwapView { claim_tx_id: None, ..swap }
    } else {
        swap
    }
}

/// Reserves the claim transaction id, with the address the claim pays to,
/// before the transaction is broadcast. Fails where an id is recorded
/// already, and then changes nothing.
pub fn set_claim_tx_id(swap: &mut ChainSwap, claim_address: Option<String>, claim_tx_id: &str) -> (res:
    Result<(), PaymentError>)
    ensures
        res is Ok <==> old(swap).claim_tx_id is None,
        res is Ok ==> final(swap)@ == with_claim(old(swap)@, opt_view(claim_address), claim_tx_id@),
        res matches Err(e) ==> e == PaymentError::AlreadyClaimed && *final(swap) == *old(swap),
{
    if swap.claim_tx_id.is_some() {
        return Err(PaymentError::AlreadyClaimed);
    }
    swap.claim_address = claim_address;
    swap.claim_tx_id = Some(claim_tx_id.to_owned());
    Ok(())
}

/// Gives up the reservation of `claim_tx_id` after a failed broadcast. A
/// record that holds another id, or none, is left as it is.
pub fn unset_claim_tx_id(swap: &mut ChainSwap, claim_tx_id: &str)
    ensures
        final(swap)@ == without_claim(old(swap)@, claim_tx_id@),
{
    let held = match &swap.claim_tx_id {
        Some(id) => *id == claim_tx_id.to_owned(),
        None => false,
    };
    if held {
        swap.claim_tx_id = None;
    }
}

/// Records whether the swap service's unconfirmed lockup is good enough
/// to claim against.
pub fn set_accept_zero_conf(swap: &mut ChainSwap, accept_zero_conf: bool)
    ensures
        final(swap)@ == (ChainSwapView { accept_zero_conf, ..old(swap)@ }),
{
    swap.accept_zero_conf = accept_zero_conf;
}

/// Whether the swap shows among those the user can ask a refund for.
pub open spec fn listed_refundable(swap: ChainSwapView) -> bool {
    swap.state is Refundable && swap.refund_tx_id is None
}

/// Decides whether the swap belongs in the listing of refundable swaps.
pub fn is_listed_refundable(swap: &ChainSwap) -> (res: bool)
    ensures
        res == listed_refundable(swap@),
{
    swap.state == PaymentState::Refundable && swap.refund_tx_id.is_none()
}

} // verus!
