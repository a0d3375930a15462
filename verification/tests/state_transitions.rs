use std::collections::{HashMap, HashSet};

use chain_swap::error::PaymentError;
use chain_swap::model::{Chain, ChainSwap, Direction, SwapScript};
use chain_swap::record::update_swap_info;
use chain_swap::state::PaymentState::{
    Complete, Created, Failed, Pending, RefundPending, Refundable, TimedOut,
};
use chain_swap::state::{is_valid_transition, validate_state_transition, PaymentState};

fn new_chain_swap(direction: Direction, state: PaymentState) -> ChainSwap {
    let (lockup_chain, claim_chain) = match direction {
        Direction::Incoming => (Chain::Bitcoin, Chain::Liquid),
        Direction::Outgoing => (Chain::Liquid, Chain::Bitcoin),
    };
    ChainSwap {
        id: "swap-1".to_string(),
        direction,
        receiver_amount_sat: 20_000,
        claim_fees_sat: 150,
        timeout_block_height: 800_000,
        created_at: 1_700_000_000,
        accept_zero_conf: false,
        lockup_address: "lockup-address".to_string(),
        lockup_amount_sat: 21_000,
        claim_amount_sat: 20_500,
        lockup_script: SwapScript { chain: lockup_chain, script_pubkey: vec![0x51], locktime: 800_000 },
        claim_script: SwapScript { chain: claim_chain, script_pubkey: vec![0x52], locktime: 2_500_000 },
        claim_address: None,
        user_lockup_tx_id: None,
        server_lockup_tx_id: None,
        claim_tx_id: None,
        refund_tx_id: None,
        state,
    }
}

#[test]
fn test_chain_swap_state_transitions() {
    // Test valid combinations of states
    let all_states = HashSet::from([Created, Pending, Complete, TimedOut, Failed]);
    let valid_combinations = HashMap::from([
        (
            Created,
            HashSet::from([Pending, Complete, TimedOut, Refundable, Failed]),
        ),
        (
            Pending,
            HashSet::from([Pending, Complete, Refundable, RefundPending, Failed]),
        ),
        (TimedOut, HashSet::from([Failed])),
        (Complete, HashSet::from([Refundable])),
        (Refundable, HashSet::from([RefundPending, Failed])),
        (RefundPending, HashSet::from([Refundable, Complete, Failed])),
        (Failed, HashSet::from([Failed, Refundable])),
    ]);

    for (first_state, allowed_states) in valid_combinations.iter() {
        for allowed_state in allowed_states {
            let mut chain_swap = new_chain_swap(Direction::Incoming, *first_state);
            assert!(
                update_swap_info(&mut chain_swap, *allowed_state, None, None, None, None).is_ok()
            );
            assert_eq!(chain_swap.state, *allowed_state);
        }
    }

    // Test invalid combinations of states
    let invalid_combinations: HashMap<PaymentState, HashSet<PaymentState>> = valid_combinations
        .iter()
        .map(|(first_state, allowed_states)| {
            (
                *first_state,
                all_states.difference(allowed_states).cloned().collect(),
            )
        })
        .collect();

    for (first_state, disallowed_states) in invalid_combinations.iter() {
        for disallowed_state in disallowed_states {
            let mut chain_swap = new_chain_swap(Direction::Incoming, *first_state);
            assert!(
                update_swap_info(&mut chain_swap, *disallowed_state, None, None, None, None)
                    .is_err()
            );
            assert_eq!(chain_swap.state, *first_state);
        }
    }
}

#[test]
fn every_pair_of_states_follows_the_table() {
    let all = [Created, Pending, Complete, TimedOut, Refundable, RefundPending, Failed];
    let allowed = |from: PaymentState| -> Vec<PaymentState> {
        match from {
            Created => vec![Pending, Complete, TimedOut, Refundable, Failed],
            Pending => vec![Pending, Complete, Refundable, RefundPending, Failed],
            TimedOut => vec![Failed],
            Complete => vec![Refundable],
            Refundable => vec![RefundPending, Failed],
            RefundPending => vec![Refundable, Complete, Failed],
            Failed => vec![Failed, Refundable],
        }
    };
    for from in all {
        for to in all {
            let expected = allowed(from).contains(&to);
            assert_eq!(is_valid_transition(from, to), expected, "{from:?} -> {to:?}");
            let checked = validate_state_transition(from, to);
            if expected {
                assert_eq!(checked, Ok(()));
            } else {
                assert_eq!(checked, Err(PaymentError::InvalidTransition { from, to }));
            }
        }
    }
}

#[test]
fn update_records_ids_once_and_reports_payment_id() {
    let mut swap = new_chain_swap(Direction::Incoming, PaymentState::Created);
    let published =
        update_swap_info(&mut swap, PaymentState::Pending, None, Some("user-1"), None, None);
    assert_eq!(published, Ok(None));
    assert_eq!(swap.user_lockup_tx_id.as_deref(), Some("user-1"));

    let published = update_swap_info(
        &mut swap,
        PaymentState::Pending,
        Some("server-1"),
        Some("user-2"),
        Some("claim-1"),
        None,
    );
    assert_eq!(published, Ok(Some("claim-1".to_string())));
    assert_eq!(swap.user_lockup_tx_id.as_deref(), Some("user-1"));
    assert_eq!(swap.server_lockup_tx_id.as_deref(), Some("server-1"));
    assert_eq!(swap.claim_tx_id.as_deref(), Some("claim-1"));
    assert_eq!(swap.refund_tx_id, None);

    let published = update_swap_info(&mut swap, PaymentState::Complete, None, None, None, None);
    assert_eq!(published, Ok(Some("claim-1".to_string())));
    assert_eq!(swap.state, PaymentState::Complete);
}

#[test]
fn outgoing_update_announces_user_lockup() {
    let mut swap = new_chain_swap(Direction::Outgoing, PaymentState::Created);
    let published =
        update_swap_info(&mut swap, PaymentState::Pending, None, Some("lockup-9"), None, None);
    assert_eq!(published, Ok(Some("lockup-9".to_string())));
    let published = update_swap_info(
        &mut swap,
        PaymentState::RefundPending,
        None,
        None,
        Some("claim-3"),
        Some("refund-3"),
    );
    assert_eq!(published, Ok(Some("lockup-9".to_string())));
    assert_eq!(swap.refund_tx_id.as_deref(), Some("refund-3"));
}

#[test]
fn refused_update_changes_nothing() {
    let mut swap = new_chain_swap(Direction::Outgoing, PaymentState::Complete);
    let res = update_swap_info(
        &mut swap,
        PaymentState::Failed,
        Some("server"),
        Some("user"),
        Some("claim"),
        Some("refund"),
    );
    assert_eq!(
        res,
        Err(PaymentError::InvalidTransition {
            from: PaymentState::Complete,
            to: PaymentState::Failed
        })
    );
    assert_eq!(swap.state, PaymentState::Complete);
    assert_eq!(swap.user_lockup_tx_id, None);
    assert_eq!(swap.server_lockup_tx_id, None);
    assert_eq!(swap.claim_tx_id, None);
    assert_eq!(swap.refund_tx_id, None);
}
