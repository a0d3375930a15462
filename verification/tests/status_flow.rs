use chain_swap::error::PaymentError;
use chain_swap::model::{
    Chain, ChainSwap, Direction, PaymentTxData, PaymentType, SwapScript, UpdateTx,
};
use chain_swap::state::PaymentState;
use chain_swap::status::{
    classify, on_new_incoming_status, on_new_outgoing_status, on_new_status, LockupBroadcast,
    StatusAction, StatusEvent, StatusKind, StatusPhase, StatusUpdate, SwapStatus,
};

const NOW: u32 = 1_700_000_900;

fn swap_for_status(direction: Direction, state: PaymentState) -> ChainSwap {
    let (lockup_chain, claim_chain) = match direction {
        Direction::Incoming => (Chain::Bitcoin, Chain::Liquid),
        Direction::Outgoing => (Chain::Liquid, Chain::Bitcoin),
    };
    ChainSwap {
        id: "swap-s".to_string(),
        direction,
        receiver_amount_sat: 20_000,
        claim_fees_sat: 150,
        timeout_block_height: 800_000,
        created_at: 1_700_000_000,
        accept_zero_conf: true,
        lockup_address: "lq1-lockup".to_string(),
        lockup_amount_sat: 21_000,
        claim_amount_sat: 20_500,
        lockup_script: SwapScript { chain: lockup_chain, script_pubkey: vec![1], locktime: 800_000 },
        claim_script: SwapScript { chain: claim_chain, script_pubkey: vec![2], locktime: 900_000 },
        claim_address: None,
        user_lockup_tx_id: None,
        server_lockup_tx_id: None,
        claim_tx_id: None,
        refund_tx_id: None,
        state,
    }
}

fn update_with(status: SwapStatus, txid: Option<&str>) -> StatusUpdate {
    StatusUpdate {
        id: "swap-s".to_string(),
        status: Some(status),
        transaction: txid.map(|id| UpdateTx { id: id.to_string(), hex: "00".to_string() }),
        zero_conf_rejected: None,
    }
}

fn done(result: Result<(), PaymentError>) -> (StatusPhase, StatusAction) {
    (StatusPhase::Done, StatusAction::Finish { result })
}

fn moving(
    to_state: PaymentState,
    server: Option<&str>,
    user: Option<&str>,
    refund: Option<&str>,
) -> StatusAction {
    StatusAction::UpdateSwapInfo {
        to_state,
        server_lockup_tx_id: server.map(str::to_string),
        user_lockup_tx_id: user.map(str::to_string),
        refund_tx_id: refund.map(str::to_string),
    }
}

fn completed(result: Result<(), PaymentError>) -> StatusEvent {
    StatusEvent::Completed(result)
}

#[test]
fn statuses_are_sorted_by_what_they_ask() {
    assert_eq!(classify(SwapStatus::Created), StatusKind::Created);
    assert_eq!(classify(SwapStatus::TransactionMempool), StatusKind::UserLockup);
    assert_eq!(classify(SwapStatus::TransactionConfirmed), StatusKind::UserLockup);
    assert_eq!(classify(SwapStatus::TransactionServerMempool), StatusKind::ServerMempool);
    assert_eq!(classify(SwapStatus::TransactionServerConfirmed), StatusKind::ServerConfirmed);
    assert_eq!(classify(SwapStatus::TransactionFailed), StatusKind::Unrecoverable);
    assert_eq!(classify(SwapStatus::TransactionLockupFailed), StatusKind::Unrecoverable);
    assert_eq!(classify(SwapStatus::TransactionRefunded), StatusKind::Unrecoverable);
    assert_eq!(classify(SwapStatus::SwapExpired), StatusKind::Unrecoverable);
    assert_eq!(classify(SwapStatus::Other), StatusKind::Other);
}

#[test]
fn unknown_status_is_an_error_for_both_directions() {
    for direction in [Direction::Incoming, Direction::Outgoing] {
        let swap = swap_for_status(direction, PaymentState::Created);
        let mut update = update_with(SwapStatus::Other, None);
        update.status = None;
        assert_eq!(
            on_new_status(&swap, &update, NOW, StatusPhase::Start, StatusEvent::Begin),
            done(Err(PaymentError::InvalidStatus))
        );
    }
}

#[test]
fn statuses_that_ask_nothing_end_at_once() {
    for direction in [Direction::Incoming, Direction::Outgoing] {
        let swap = swap_for_status(direction, PaymentState::Pending);
        let update = update_with(SwapStatus::Other, Some("tx"));
        assert_eq!(
            on_new_status(&swap, &update, NOW, StatusPhase::Start, StatusEvent::Begin),
            done(Ok(()))
        );
    }
    let swap = swap_for_status(Direction::Incoming, PaymentState::Created);
    let update = update_with(SwapStatus::Created, None);
    assert_eq!(
        on_new_incoming_status(&swap, &update, StatusPhase::Start, StatusEvent::Begin),
        done(Ok(()))
    );
}

#[test]
fn user_lockup_in_mempool_moves_the_swap_to_pending() {
    for direction in [Direction::Incoming, Direction::Outgoing] {
        for status in [SwapStatus::TransactionMempool, SwapStatus::TransactionConfirmed] {
            let swap = swap_for_status(direction, PaymentState::Created);
            let update = update_with(status, Some("U"));
            assert_eq!(
                on_new_status(&swap, &update, NOW, StatusPhase::Start, StatusEvent::Begin),
                (StatusPhase::Updating, moving(PaymentState::Pending, None, Some("U"), None))
            );
            assert_eq!(
                on_new_status(&swap, &update, NOW, StatusPhase::Updating, completed(Ok(()))),
                done(Ok(()))
            );
            assert_eq!(
                on_new_status(
                    &swap,
                    &update,
                    NOW,
                    StatusPhase::Updating,
                    completed(Err(PaymentError::PersistError))
                ),
                done(Err(PaymentError::PersistError))
            );
        }
    }
}

#[test]
fn zero_conf_verdict_is_recorded_inverted_before_the_lockup() {
    let swap = swap_for_status(Direction::Incoming, PaymentState::Created);
    for rejected in [true, false] {
        let mut update = update_with(SwapStatus::TransactionMempool, Some("U"));
        update.zero_conf_rejected = Some(rejected);
        assert_eq!(
            on_new_incoming_status(&swap, &update, StatusPhase::Start, StatusEvent::Begin),
            (
                StatusPhase::SavingZeroConf,
                StatusAction::SetAcceptZeroConf { accept_zero_conf: !rejected }
            )
        );
        assert_eq!(
            on_new_incoming_status(&swap, &update, StatusPhase::SavingZeroConf, completed(Ok(()))),
            (StatusPhase::Updating, moving(PaymentState::Pending, None, Some("U"), None))
        );
        assert_eq!(
            on_new_incoming_status(
                &swap,
                &update,
                StatusPhase::SavingZeroConf,
                completed(Err(PaymentError::PersistError))
            ),
            done(Err(PaymentError::PersistError))
        );
        update.transaction = None;
        assert_eq!(
            on_new_incoming_status(&swap, &update, StatusPhase::SavingZeroConf, completed(Ok(()))),
            done(Ok(()))
        );
    }
    let update = update_with(SwapStatus::TransactionConfirmed, None);
    assert_eq!(
        on_new_incoming_status(&swap, &update, StatusPhase::Start, StatusEvent::Begin),
        done(Ok(()))
    );
}

#[test]
fn incoming_server_mempool_is_verified_recorded_and_claimed() {
    let swap = swap_for_status(Direction::Incoming, PaymentState::Pending);
    let update = update_with(SwapStatus::TransactionServerMempool, Some("S"));
    assert_eq!(
        on_new_incoming_status(&swap, &update, StatusPhase::Start, StatusEvent::Begin),
        (
            StatusPhase::VerifyingServerMempool,
            StatusAction::VerifyServerLockup { verify_confirmation: false }
        )
    );
    assert_eq!(
        on_new_incoming_status(
            &swap,
            &update,
            StatusPhase::VerifyingServerMempool,
            completed(Ok(()))
        ),
        (
            StatusPhase::RecordingServerMempool,
            moving(PaymentState::Pending, Some("S"), None, None)
        )
    );
    assert_eq!(
        on_new_incoming_status(
            &swap,
            &update,
            StatusPhase::RecordingServerMempool,
            completed(Ok(()))
        ),
        (StatusPhase::Claiming, StatusAction::Claim)
    );
    assert_eq!(
        on_new_incoming_status(&swap, &update, StatusPhase::Claiming, completed(Ok(()))),
        done(Ok(()))
    );
    assert_eq!(
        on_new_incoming_status(
            &swap,
            &update,
            StatusPhase::Claiming,
            completed(Err(PaymentError::BroadcastError))
        ),
        done(Err(PaymentError::ClaimFailed))
    );
}

#[test]
fn server_mempool_without_zero_conf_is_recorded_and_not_claimed() {
    for direction in [Direction::Incoming, Direction::Outgoing] {
        let mut swap = swap_for_status(direction, PaymentState::Pending);
        swap.accept_zero_conf = false;
        let update = update_with(SwapStatus::TransactionServerMempool, Some("S"));
        assert_eq!(
            on_new_status(
                &swap,
                &update,
                NOW,
                StatusPhase::RecordingServerMempool,
                completed(Ok(()))
            ),
            done(Ok(()))
        );
        assert_eq!(
            on_new_status(
                &swap,
                &update,
                NOW,
                StatusPhase::RecordingServerMempool,
                completed(Err(PaymentError::PersistError))
            ),
            done(Err(PaymentError::PersistError))
        );
    }
}

#[test]
fn underpaying_server_lockup_changes_nothing() {
    for direction in [Direction::Incoming, Direction::Outgoing] {
        let swap = swap_for_status(direction, PaymentState::Pending);
        let update = update_with(SwapStatus::TransactionServerMempool, Some("S"));
        assert_eq!(
            on_new_status(
                &swap,
                &update,
                NOW,
                StatusPhase::VerifyingServerMempool,
                completed(Err(PaymentError::AmountTooLow { value: 20_499, expected: 20_500 }))
            ),
            done(Err(PaymentError::ServerLockupUnverified))
        );
    }
}

#[test]
fn server_lockup_updates_are_passed_over_once_claimed() {
    for direction in [Direction::Incoming, Direction::Outgoing] {
        for status in
            [SwapStatus::TransactionServerMempool, SwapStatus::TransactionServerConfirmed]
        {
            let mut swap = swap_for_status(direction, PaymentState::Pending);
            swap.claim_tx_id = Some("claim".to_string());
            assert_eq!(
                on_new_status(
                    &swap,
                    &update_with(status, None),
                    NOW,
                    StatusPhase::Start,
                    StatusEvent::Begin
                ),
                done(Ok(()))
            );
        }
    }
}

#[test]
fn server_lockup_update_without_transaction_is_unexpected() {
    for direction in [Direction::Incoming, Direction::Outgoing] {
        for status in
            [SwapStatus::TransactionServerMempool, SwapStatus::TransactionServerConfirmed]
        {
            let swap = swap_for_status(direction, PaymentState::Pending);
            assert_eq!(
                on_new_status(
                    &swap,
                    &update_with(status, None),
                    NOW,
                    StatusPhase::Start,
                    StatusEvent::Begin
                ),
                done(Err(PaymentError::UnexpectedPayload))
            );
        }
    }
}

#[test]
fn incoming_confirmed_server_lockup_is_recorded_even_if_unverified() {
    let swap = swap_for_status(Direction::Incoming, PaymentState::Pending);
    let update = update_with(SwapStatus::TransactionServerConfirmed, Some("S"));
    assert_eq!(
        on_new_incoming_status(&swap, &update, StatusPhase::Start, StatusEvent::Begin),
        (StatusPhase::VerifyingUserLockup, StatusAction::VerifyUserLockup)
    );
    assert_eq!(
        on_new_incoming_status(&swap, &update, StatusPhase::VerifyingUserLockup, completed(Ok(()))),
        (
            StatusPhase::VerifyingServerConfirmed,
            StatusAction::VerifyServerLockup { verify_confirmation: true }
        )
    );
    assert_eq!(
        on_new_incoming_status(
            &swap,
            &update,
            StatusPhase::VerifyingUserLockup,
            completed(Err(PaymentError::EmptyHistory))
        ),
        done(Err(PaymentError::UserLockupUnverified))
    );
    for (verdict, verified) in [(Ok(()), true), (Err(PaymentError::ChainError), false)] {
        assert_eq!(
            on_new_incoming_status(
                &swap,
                &update,
                StatusPhase::VerifyingServerConfirmed,
                completed(verdict)
            ),
            (
                StatusPhase::RecordingServerConfirmed { verified },
                moving(PaymentState::Pending, Some("S"), None, None)
            )
        );
    }
    assert_eq!(
        on_new_incoming_status(
            &swap,
            &update,
            StatusPhase::RecordingServerConfirmed { verified: true },
            completed(Ok(()))
        ),
        (StatusPhase::Claiming, StatusAction::Claim)
    );
    assert_eq!(
        on_new_incoming_status(
            &swap,
            &update,
            StatusPhase::RecordingServerConfirmed { verified: false },
            completed(Ok(()))
        ),
        done(Err(PaymentError::ServerLockupUnverified))
    );
    assert_eq!(
        on_new_incoming_status(
            &swap,
            &update,
            StatusPhase::RecordingServerConfirmed { verified: true },
            completed(Err(PaymentError::PersistError))
        ),
        done(Err(PaymentError::PersistError))
    );
}

#[test]
fn outgoing_confirmed_server_lockup_is_recorded_only_if_verified() {
    let mut swap = swap_for_status(Direction::Outgoing, PaymentState::Pending);
    swap.accept_zero_conf = false;
    let update = update_with(SwapStatus::TransactionServerConfirmed, Some("S"));
    assert_eq!(
        on_new_outgoing_status(&swap, &update, NOW, StatusPhase::Start, StatusEvent::Begin),
        (StatusPhase::VerifyingUserLockup, StatusAction::VerifyUserLockup)
    );
    assert_eq!(
        on_new_outgoing_status(
            &swap,
            &update,
            NOW,
            StatusPhase::VerifyingServerConfirmed,
            completed(Err(PaymentError::SignalsRbf))
        ),
        done(Err(PaymentError::ServerLockupUnverified))
    );
    assert_eq!(
        on_new_outgoing_status(
            &swap,
            &update,
            NOW,
            StatusPhase::VerifyingServerConfirmed,
            completed(Ok(()))
        ),
        (
            StatusPhase::RecordingServerConfirmed { verified: true },
            moving(PaymentState::Pending, Some("S"), None, None)
        )
    );
    assert_eq!(
        on_new_outgoing_status(
            &swap,
            &update,
            NOW,
            StatusPhase::RecordingServerConfirmed { verified: true },
            completed(Ok(()))
        ),
        (StatusPhase::Claiming, StatusAction::Claim)
    );
}

#[test]
fn failed_incoming_swap_is_refundable_if_the_lockup_is_found() {
    for status in [
        SwapStatus::TransactionFailed,
        SwapStatus::TransactionLockupFailed,
        SwapStatus::TransactionRefunded,
        SwapStatus::SwapExpired,
    ] {
        let swap = swap_for_status(Direction::Incoming, PaymentState::Pending);
        let update = update_with(status, None);
        assert_eq!(
            on_new_incoming_status(&swap, &update, StatusPhase::Start, StatusEvent::Begin),
            (StatusPhase::CheckingUserLockup, StatusAction::VerifyUserLockup)
        );
        assert_eq!(
            on_new_incoming_status(
                &swap,
                &update,
                StatusPhase::CheckingUserLockup,
                completed(Ok(()))
            ),
            (StatusPhase::Updating, moving(PaymentState::Refundable, None, None, None))
        );
        assert_eq!(
            on_new_incoming_status(
                &swap,
                &update,
                StatusPhase::CheckingUserLockup,
                completed(Err(PaymentError::EmptyHistory))
            ),
            (StatusPhase::Updating, moving(PaymentState::Failed, None, None, None))
        );
        let mut refunded = swap_for_status(Direction::Incoming, PaymentState::RefundPending);
        refunded.refund_tx_id = Some("refund".to_string());
        assert_eq!(
            on_new_incoming_status(&refunded, &update, StatusPhase::Start, StatusEvent::Begin),
            done(Ok(()))
        );
    }
}

#[test]
fn outgoing_created_locks_the_funds_and_shows_the_payment() {
    let swap = swap_for_status(Direction::Outgoing, PaymentState::Created);
    let update = update_with(SwapStatus::Created, None);
    assert_eq!(
        on_new_outgoing_status(&swap, &update, NOW, StatusPhase::Start, StatusEvent::Begin),
        (
            StatusPhase::LockingFunds,
            StatusAction::LockupFunds { address: "lq1-lockup".to_string(), amount_sat: 21_000 }
        )
    );
    let locked = StatusEvent::LockedUp(Ok(LockupBroadcast {
        tx_id: "lockup-tx".to_string(),
        fees_sat: 26,
    }));
    assert_eq!(
        on_new_outgoing_status(&swap, &update, NOW, StatusPhase::LockingFunds, locked),
        (
            StatusPhase::InsertingLockupPayment { lockup_tx_id: "lockup-tx".to_string() },
            StatusAction::InsertPayment {
                payment: PaymentTxData {
                    tx_id: "lockup-tx".to_string(),
                    timestamp: Some(NOW),
                    amount_sat: 20_000,
                    fees_sat: 176,
                    payment_type: PaymentType::Send,
                    is_confirmed: false,
                }
            }
        )
    );
    assert_eq!(
        on_new_outgoing_status(
            &swap,
            &update,
            NOW,
            StatusPhase::InsertingLockupPayment { lockup_tx_id: "lockup-tx".to_string() },
            completed(Ok(()))
        ),
        (StatusPhase::Updating, moving(PaymentState::Pending, None, Some("lockup-tx"), None))
    );
    assert_eq!(
        on_new_outgoing_status(&swap, &update, NOW, StatusPhase::Updating, completed(Ok(()))),
        done(Ok(()))
    );
}

#[test]
fn outgoing_created_stops_on_failures() {
    let swap = swap_for_status(Direction::Outgoing, PaymentState::Created);
    let update = update_with(SwapStatus::Created, None);
    assert_eq!(
        on_new_outgoing_status(
            &swap,
            &update,
            NOW,
            StatusPhase::LockingFunds,
            StatusEvent::LockedUp(Err(PaymentError::WalletError))
        ),
        done(Err(PaymentError::WalletError))
    );
    assert_eq!(
        on_new_outgoing_status(
            &swap,
            &update,
            NOW,
            StatusPhase::InsertingLockupPayment { lockup_tx_id: "lockup-tx".to_string() },
            completed(Err(PaymentError::PersistError))
        ),
        done(Err(PaymentError::PersistError))
    );
}

#[test]
fn outgoing_created_does_not_lock_twice_or_after_timeout() {
    let update = update_with(SwapStatus::Created, None);
    let timed_out = swap_for_status(Direction::Outgoing, PaymentState::TimedOut);
    assert_eq!(
        on_new_outgoing_status(&timed_out, &update, NOW, StatusPhase::Start, StatusEvent::Begin),
        done(Ok(()))
    );
    let mut locked = swap_for_status(Direction::Outgoing, PaymentState::Pending);
    locked.user_lockup_tx_id = Some("lockup-tx".to_string());
    assert_eq!(
        on_new_outgoing_status(&locked, &update, NOW, StatusPhase::Start, StatusEvent::Begin),
        done(Ok(()))
    );
}

#[test]
fn lockup_payment_fees_are_capped() {
    let mut swap = swap_for_status(Direction::Outgoing, PaymentState::Created);
    swap.claim_fees_sat = u64::MAX - 5;
    let update = update_with(SwapStatus::Created, None);
    for (lockup_fees, shown) in [(5u64, u64::MAX), (6, u64::MAX), (4, u64::MAX - 1)] {
        let locked = StatusEvent::LockedUp(Ok(LockupBroadcast {
            tx_id: "lockup-tx".to_string(),
            fees_sat: lockup_fees,
        }));
        let (_, action) =
            on_new_outgoing_status(&swap, &update, NOW, StatusPhase::LockingFunds, locked);
        match action {
            StatusAction::InsertPayment { payment } => assert_eq!(payment.fees_sat, shown),
            other => panic!("unexpected action {other:?}"),
        }
    }
}

#[test]
fn failed_outgoing_swap_waits_for_its_refund() {
    let mut swap = swap_for_status(Direction::Outgoing, PaymentState::Pending);
    swap.user_lockup_tx_id = Some("lockup-tx".to_string());
    let update = update_with(SwapStatus::SwapExpired, None);
    assert_eq!(
        on_new_outgoing_status(&swap, &update, NOW, StatusPhase::Start, StatusEvent::Begin),
        (StatusPhase::Refunding, StatusAction::RefundOutgoing { is_cooperative: true })
    );
    assert_eq!(
        on_new_outgoing_status(
            &swap,
            &update,
            NOW,
            StatusPhase::Refunding,
            StatusEvent::Refunded(Err(PaymentError::SwapperError))
        ),
        (StatusPhase::Updating, moving(PaymentState::RefundPending, None, None, None))
    );
    assert_eq!(
        on_new_outgoing_status(
            &swap,
            &update,
            NOW,
            StatusPhase::Refunding,
            StatusEvent::Refunded(Ok("refund-tx".to_string()))
        ),
        (StatusPhase::Updating, moving(PaymentState::RefundPending, None, None, Some("refund-tx")))
    );
}

#[test]
fn failed_outgoing_swap_without_lockup_has_failed() {
    let swap = swap_for_status(Direction::Outgoing, PaymentState::Created);
    for status in [SwapStatus::TransactionFailed, SwapStatus::TransactionLockupFailed] {
        assert_eq!(
            on_new_outgoing_status(
                &swap,
                &update_with(status, None),
                NOW,
                StatusPhase::Start,
                StatusEvent::Begin
            ),
            (StatusPhase::Updating, moving(PaymentState::Failed, None, None, None))
        );
    }
    let mut refunded = swap_for_status(Direction::Outgoing, PaymentState::RefundPending);
    refunded.user_lockup_tx_id = Some("lockup-tx".to_string());
    refunded.refund_tx_id = Some("refund-tx".to_string());
    assert_eq!(
        on_new_outgoing_status(
            &refunded,
            &update_with(SwapStatus::TransactionRefunded, None),
            NOW,
            StatusPhase::Start,
            StatusEvent::Begin
        ),
        done(Ok(()))
    );
}

#[test]
fn handlers_reject_answers_they_did_not_ask_for() {
    let incoming = swap_for_status(Direction::Incoming, PaymentState::Pending);
    let outgoing = swap_for_status(Direction::Outgoing, PaymentState::Pending);
    let update = update_with(SwapStatus::TransactionMempool, Some("U"));
    let unexpected = done(Err(PaymentError::UnexpectedEvent));
    assert_eq!(
        on_new_incoming_status(&incoming, &update, StatusPhase::Start, completed(Ok(()))),
        unexpected
    );
    assert_eq!(
        on_new_incoming_status(&incoming, &update, StatusPhase::Done, StatusEvent::Begin),
        unexpected
    );
    assert_eq!(
        on_new_incoming_status(
            &incoming,
            &update,
            StatusPhase::LockingFunds,
            StatusEvent::LockedUp(Err(PaymentError::WalletError))
        ),
        unexpected
    );
    assert_eq!(
        on_new_incoming_status(
            &incoming,
            &update,
            StatusPhase::Refunding,
            StatusEvent::Refunded(Ok("r".to_string()))
        ),
        unexpected
    );
    assert_eq!(
        on_new_outgoing_status(
            &outgoing,
            &update,
            NOW,
            StatusPhase::CheckingUserLockup,
            completed(Ok(()))
        ),
        unexpected
    );
    assert_eq!(
        on_new_outgoing_status(&outgoing, &update, NOW, StatusPhase::Claiming, StatusEvent::Begin),
        unexpected
    );
    let mut no_tx = update_with(SwapStatus::TransactionServerMempool, None);
    no_tx.transaction = None;
    assert_eq!(
        on_new_outgoing_status(
            &outgoing,
            &no_tx,
            NOW,
            StatusPhase::VerifyingServerMempool,
            completed(Ok(()))
        ),
        done(Err(PaymentError::UnexpectedPayload))
    );
}
