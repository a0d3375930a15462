use chain_swap::error::PaymentError;
use chain_swap::model::{Chain, ChainSwap, Direction, SwapScript};
use chain_swap::record::{is_listed_refundable, update_swap_info};
use chain_swap::refund::{
    prepare_refund, refund_incoming_swap, refund_outgoing_swap, RefundAction, RefundEvent,
    RefundPhase,
};
use chain_swap::state::PaymentState;
use chain_swap::track::{track_refunds_and_refundables, TrackAction, TrackEvent, TrackPhase};

fn swap_to_refund(direction: Direction, state: PaymentState) -> ChainSwap {
    let (lockup_chain, claim_chain) = match direction {
        Direction::Incoming => (Chain::Bitcoin, Chain::Liquid),
        Direction::Outgoing => (Chain::Liquid, Chain::Bitcoin),
    };
    ChainSwap {
        id: "swap-f".to_string(),
        direction,
        receiver_amount_sat: 20_000,
        claim_fees_sat: 150,
        timeout_block_height: 800_000,
        created_at: 1_700_000_000,
        accept_zero_conf: false,
        lockup_address: "bc1-lockup".to_string(),
        lockup_amount_sat: 21_000,
        claim_amount_sat: 20_500,
        lockup_script: SwapScript { chain: lockup_chain, script_pubkey: vec![1], locktime: 800_000 },
        claim_script: SwapScript { chain: claim_chain, script_pubkey: vec![2], locktime: 900_000 },
        claim_address: None,
        user_lockup_tx_id: Some("user-lockup".to_string()),
        server_lockup_tx_id: None,
        claim_tx_id: None,
        refund_tx_id: None,
        state,
    }
}

fn refund_done(result: Result<String, PaymentError>) -> (RefundPhase, RefundAction) {
    (RefundPhase::Done, RefundAction::Finish { result })
}

fn step_in(swap: &ChainSwap, phase: RefundPhase, event: RefundEvent) -> (RefundPhase, RefundAction) {
    refund_incoming_swap(swap, "bc1-refund", 7, true, phase, event)
}

fn walk(swap: &ChainSwap, phase: TrackPhase, event: TrackEvent) -> (TrackPhase, TrackAction) {
    track_refunds_and_refundables(swap, phase, event)
}

#[test]
fn incoming_refund_runs_through_to_refund_pending() {
    let mut record = swap_to_refund(Direction::Incoming, PaymentState::Refundable);
    assert!(is_listed_refundable(&record));
    let swap = record.clone();
    assert_eq!(
        step_in(&swap, RefundPhase::Start, RefundEvent::Begin),
        (RefundPhase::FetchingUtxos, RefundAction::GetScriptUtxos { chain: Chain::Bitcoin })
    );
    assert_eq!(
        step_in(&swap, RefundPhase::FetchingUtxos, RefundEvent::Utxos(Ok(()))),
        (
            RefundPhase::CreatingTx,
            RefundAction::CreateRefundTx {
                refund_address: "bc1-refund".to_string(),
                fee_rate_sat_per_vb: Some(7),
                is_cooperative: true,
            }
        )
    );
    assert_eq!(
        step_in(&swap, RefundPhase::CreatingTx, RefundEvent::Tx(Ok(Chain::Bitcoin))),
        (RefundPhase::Broadcasting, RefundAction::Broadcast { chain: Chain::Bitcoin })
    );
    let (phase, action) =
        step_in(&swap, RefundPhase::Broadcasting, RefundEvent::Broadcast(Ok("refund-1".to_string())));
    assert_eq!(phase, RefundPhase::Updating { refund_tx_id: "refund-1".to_string() });
    assert_eq!(
        action,
        RefundAction::UpdateSwapInfo {
            to_state: PaymentState::RefundPending,
            refund_tx_id: "refund-1".to_string()
        }
    );

    let stored =
        update_swap_info(&mut record, PaymentState::RefundPending, None, None, None, Some("refund-1"));
    assert_eq!(stored, Ok(None));
    assert_eq!(
        step_in(&swap, phase, RefundEvent::Completed(Ok(()))),
        refund_done(Ok("refund-1".to_string()))
    );
    assert_eq!(record.state, PaymentState::RefundPending);
    assert_eq!(record.refund_tx_id.as_deref(), Some("refund-1"));
    assert!(!is_listed_refundable(&record));
}

#[test]
fn incoming_refund_needs_a_refundable_swap_without_refund() {
    for state in [
        PaymentState::Created,
        PaymentState::Pending,
        PaymentState::Complete,
        PaymentState::TimedOut,
        PaymentState::RefundPending,
        PaymentState::Failed,
    ] {
        let swap = swap_to_refund(Direction::Incoming, state);
        assert_eq!(
            step_in(&swap, RefundPhase::Start, RefundEvent::Begin),
            refund_done(Err(PaymentError::NotRefundable))
        );
    }
    let mut swap = swap_to_refund(Direction::Incoming, PaymentState::Refundable);
    swap.refund_tx_id = Some("refund-0".to_string());
    assert_eq!(
        step_in(&swap, RefundPhase::Start, RefundEvent::Begin),
        refund_done(Err(PaymentError::AlreadyRefunded))
    );
    let mut swap = swap_to_refund(Direction::Incoming, PaymentState::Refundable);
    swap.lockup_script.chain = Chain::Liquid;
    assert_eq!(
        step_in(&swap, RefundPhase::Start, RefundEvent::Begin),
        refund_done(Err(PaymentError::UnexpectedScript))
    );
}

#[test]
fn incoming_refund_surfaces_failures() {
    let swap = swap_to_refund(Direction::Incoming, PaymentState::Refundable);
    assert_eq!(
        step_in(&swap, RefundPhase::FetchingUtxos, RefundEvent::Utxos(Err(PaymentError::ChainError))),
        refund_done(Err(PaymentError::ChainError))
    );
    assert_eq!(
        step_in(&swap, RefundPhase::CreatingTx, RefundEvent::Tx(Err(PaymentError::SwapperError))),
        refund_done(Err(PaymentError::SwapperError))
    );
    assert_eq!(
        step_in(&swap, RefundPhase::CreatingTx, RefundEvent::Tx(Ok(Chain::Liquid))),
        refund_done(Err(PaymentError::UnexpectedTransaction))
    );
    assert_eq!(
        step_in(
            &swap,
            RefundPhase::Broadcasting,
            RefundEvent::Broadcast(Err(PaymentError::BroadcastError))
        ),
        refund_done(Err(PaymentError::BroadcastError))
    );
    assert_eq!(
        step_in(
            &swap,
            RefundPhase::Updating { refund_tx_id: "refund-1".to_string() },
            RefundEvent::Completed(Err(PaymentError::PersistError))
        ),
        refund_done(Err(PaymentError::PersistError))
    );
    assert_eq!(
        step_in(&swap, RefundPhase::Start, RefundEvent::Utxos(Ok(()))),
        refund_done(Err(PaymentError::UnexpectedEvent))
    );
    assert_eq!(
        step_in(&swap, RefundPhase::DerivingAddress, RefundEvent::Address(Ok("a".to_string()))),
        refund_done(Err(PaymentError::UnexpectedEvent))
    );
}

#[test]
fn outgoing_refund_pays_to_a_fresh_address_and_leaves_the_state() {
    let swap = swap_to_refund(Direction::Outgoing, PaymentState::Pending);
    for cooperative in [true, false] {
        assert_eq!(
            refund_outgoing_swap(&swap, cooperative, RefundPhase::Start, RefundEvent::Begin),
            (RefundPhase::FetchingUtxos, RefundAction::GetScriptUtxos { chain: Chain::Liquid })
        );
        assert_eq!(
            refund_outgoing_swap(
                &swap,
                cooperative,
                RefundPhase::FetchingUtxos,
                RefundEvent::Utxos(Ok(()))
            ),
            (RefundPhase::DerivingAddress, RefundAction::DeriveAddress)
        );
        assert_eq!(
            refund_outgoing_swap(
                &swap,
                cooperative,
                RefundPhase::DerivingAddress,
                RefundEvent::Address(Ok("lq1-fresh".to_string()))
            ),
            (
                RefundPhase::CreatingTx,
                RefundAction::CreateRefundTx {
                    refund_address: "lq1-fresh".to_string(),
                    fee_rate_sat_per_vb: None,
                    is_cooperative: cooperative,
                }
            )
        );
        assert_eq!(
            refund_outgoing_swap(
                &swap,
                cooperative,
                RefundPhase::CreatingTx,
                RefundEvent::Tx(Ok(Chain::Liquid))
            ),
            (RefundPhase::Broadcasting, RefundAction::Broadcast { chain: Chain::Liquid })
        );
        assert_eq!(
            refund_outgoing_swap(
                &swap,
                cooperative,
                RefundPhase::Broadcasting,
                RefundEvent::Broadcast(Ok("refund-2".to_string()))
            ),
            refund_done(Ok("refund-2".to_string()))
        );
    }
}

#[test]
fn outgoing_refund_rejects_bad_input_and_surfaces_failures() {
    let mut swap = swap_to_refund(Direction::Outgoing, PaymentState::Pending);
    swap.refund_tx_id = Some("refund-0".to_string());
    assert_eq!(
        refund_outgoing_swap(&swap, true, RefundPhase::Start, RefundEvent::Begin),
        refund_done(Err(PaymentError::AlreadyRefunded))
    );
    let mut swap = swap_to_refund(Direction::Outgoing, PaymentState::Pending);
    swap.lockup_script.chain = Chain::Bitcoin;
    assert_eq!(
        refund_outgoing_swap(&swap, true, RefundPhase::Start, RefundEvent::Begin),
        refund_done(Err(PaymentError::UnexpectedScript))
    );
    let swap = swap_to_refund(Direction::Outgoing, PaymentState::Pending);
    assert_eq!(
        refund_outgoing_swap(
            &swap,
            true,
            RefundPhase::FetchingUtxos,
            RefundEvent::Utxos(Err(PaymentError::ChainError))
        ),
        refund_done(Err(PaymentError::ChainError))
    );
    assert_eq!(
        refund_outgoing_swap(
            &swap,
            true,
            RefundPhase::DerivingAddress,
            RefundEvent::Address(Err(PaymentError::WalletError))
        ),
        refund_done(Err(PaymentError::WalletError))
    );
    assert_eq!(
        refund_outgoing_swap(
            &swap,
            true,
            RefundPhase::CreatingTx,
            RefundEvent::Tx(Ok(Chain::Bitcoin))
        ),
        refund_done(Err(PaymentError::UnexpectedTransaction))
    );
    assert_eq!(
        refund_outgoing_swap(
            &swap,
            true,
            RefundPhase::Broadcasting,
            RefundEvent::Broadcast(Err(PaymentError::BroadcastError))
        ),
        refund_done(Err(PaymentError::BroadcastError))
    );
    assert_eq!(
        refund_outgoing_swap(
            &swap,
            true,
            RefundPhase::Updating { refund_tx_id: "r".to_string() },
            RefundEvent::Completed(Ok(()))
        ),
        refund_done(Err(PaymentError::UnexpectedEvent))
    );
}

#[test]
fn prepared_refund_reports_the_refund_on_record() {
    let mut swap = swap_to_refund(Direction::Incoming, PaymentState::Refundable);
    assert_eq!(prepare_refund(&swap, 143, 1_001), (143, 1_001, None));
    swap.refund_tx_id = Some("refund-0".to_string());
    assert_eq!(prepare_refund(&swap, 143, 1_001), (143, 1_001, Some("refund-0".to_string())));
}

#[test]
fn walk_passes_over_refunded_and_unexpired_pending_swaps() {
    let mut refunded = swap_to_refund(Direction::Outgoing, PaymentState::RefundPending);
    refunded.refund_tx_id = Some("refund-0".to_string());
    assert_eq!(
        walk(&refunded, TrackPhase::Start, TrackEvent::Begin),
        (TrackPhase::Done, TrackAction::Finish)
    );
    for direction in [Direction::Incoming, Direction::Outgoing] {
        let swap = swap_to_refund(direction, PaymentState::Pending);
        assert_eq!(
            walk(&swap, TrackPhase::Start, TrackEvent::Begin),
            (TrackPhase::CheckingExpiry, TrackAction::CheckExpiry)
        );
        for answer in [Ok(false), Err(PaymentError::ChainError)] {
            assert_eq!(
                walk(&swap, TrackPhase::CheckingExpiry, TrackEvent::Expiry(answer)),
                (TrackPhase::Done, TrackAction::Finish)
            );
        }
    }
}

#[test]
fn walk_refunds_an_expired_pending_outgoing_swap_without_cosigner() {
    let swap = swap_to_refund(Direction::Outgoing, PaymentState::Pending);
    assert_eq!(
        walk(&swap, TrackPhase::CheckingExpiry, TrackEvent::Expiry(Ok(true))),
        (
            TrackPhase::Refunding { fallback: false },
            TrackAction::RefundOutgoing { is_cooperative: false }
        )
    );
    assert_eq!(
        walk(
            &swap,
            TrackPhase::Refunding { fallback: false },
            TrackEvent::Refunded(Ok("refund-1".to_string()))
        ),
        (
            TrackPhase::Updating,
            TrackAction::UpdateSwapInfo {
                to_state: PaymentState::RefundPending,
                refund_tx_id: Some("refund-1".to_string()),
            }
        )
    );
    assert_eq!(
        walk(
            &swap,
            TrackPhase::Refunding { fallback: false },
            TrackEvent::Refunded(Err(PaymentError::BroadcastError))
        ),
        (TrackPhase::Done, TrackAction::Finish)
    );
    for outcome in [Ok(()), Err(PaymentError::PersistError)] {
        assert_eq!(
            walk(&swap, TrackPhase::Updating, TrackEvent::Completed(outcome)),
            (TrackPhase::Done, TrackAction::Finish)
        );
    }
}

#[test]
fn walk_retries_a_waiting_refund_and_falls_back_after_expiry() {
    let swap = swap_to_refund(Direction::Outgoing, PaymentState::RefundPending);
    assert_eq!(
        walk(&swap, TrackPhase::CheckingExpiry, TrackEvent::Expiry(Ok(false))),
        (
            TrackPhase::Refunding { fallback: false },
            TrackAction::RefundOutgoing { is_cooperative: true }
        )
    );
    assert_eq!(
        walk(&swap, TrackPhase::CheckingExpiry, TrackEvent::Expiry(Err(PaymentError::ChainError))),
        (
            TrackPhase::Refunding { fallback: false },
            TrackAction::RefundOutgoing { is_cooperative: true }
        )
    );
    assert_eq!(
        walk(&swap, TrackPhase::CheckingExpiry, TrackEvent::Expiry(Ok(true))),
        (
            TrackPhase::Refunding { fallback: true },
            TrackAction::RefundOutgoing { is_cooperative: true }
        )
    );
    assert_eq!(
        walk(
            &swap,
            TrackPhase::Refunding { fallback: true },
            TrackEvent::Refunded(Err(PaymentError::SwapperError))
        ),
        (
            TrackPhase::Refunding { fallback: false },
            TrackAction::RefundOutgoing { is_cooperative: false }
        )
    );
    let (phase, action) = walk(
        &swap,
        TrackPhase::Refunding { fallback: false },
        TrackEvent::Refunded(Ok("refund-9".to_string())),
    );
    assert_eq!(phase, TrackPhase::Updating);
    assert_eq!(
        action,
        TrackAction::UpdateSwapInfo {
            to_state: PaymentState::RefundPending,
            refund_tx_id: Some("refund-9".to_string()),
        }
    );
    let mut record = swap.clone();
    let stored =
        update_swap_info(&mut record, PaymentState::Refundable, None, None, None, Some("refund-9"));
    assert_eq!(stored, Ok(Some("user-lockup".to_string())));
    assert_eq!(record.refund_tx_id.as_deref(), Some("refund-9"));
}

#[test]
fn walk_marks_expired_incoming_swaps_refundable() {
    let swap = swap_to_refund(Direction::Incoming, PaymentState::Pending);
    assert_eq!(
        walk(&swap, TrackPhase::CheckingExpiry, TrackEvent::Expiry(Ok(true))),
        (
            TrackPhase::Updating,
            TrackAction::UpdateSwapInfo { to_state: PaymentState::Refundable, refund_tx_id: None }
        )
    );
    let mut without_lockup = swap_to_refund(Direction::Incoming, PaymentState::Pending);
    without_lockup.user_lockup_tx_id = None;
    assert_eq!(
        walk(&without_lockup, TrackPhase::CheckingExpiry, TrackEvent::Expiry(Ok(true))),
        (TrackPhase::Done, TrackAction::Finish)
    );
    let waiting = swap_to_refund(Direction::Incoming, PaymentState::RefundPending);
    assert_eq!(
        walk(&waiting, TrackPhase::CheckingExpiry, TrackEvent::Expiry(Ok(false))),
        (TrackPhase::Done, TrackAction::Finish)
    );
}

#[test]
fn walk_leaves_outgoing_swaps_in_other_states_alone() {
    for state in [
        PaymentState::Created,
        PaymentState::Complete,
        PaymentState::TimedOut,
        PaymentState::Refundable,
        PaymentState::Failed,
    ] {
        let swap = swap_to_refund(Direction::Outgoing, state);
        for expired in [true, false] {
            assert_eq!(
                walk(&swap, TrackPhase::CheckingExpiry, TrackEvent::Expiry(Ok(expired))),
                (TrackPhase::Done, TrackAction::Finish)
            );
        }
    }
    let swap = swap_to_refund(Direction::Outgoing, PaymentState::Pending);
    assert_eq!(
        walk(&swap, TrackPhase::Start, TrackEvent::Expiry(Ok(true))),
        (TrackPhase::Done, TrackAction::Finish)
    );
    assert_eq!(
        walk(&swap, TrackPhase::Done, TrackEvent::Begin),
        (TrackPhase::Done, TrackAction::Finish)
    );
}
