//! The reaction to a status update of the swap service, as a machine that
//! is told the outcome of each operation and answers with the next one.

use vstd::prelude::*;

use crate::error::PaymentError;
use crate::model::{
    opt_view, ChainSwap, ChainSwapView, Direction, PaymentTxData, PaymentTxDataView, PaymentType,
    UpdateTx, UpdateTxView,
};
use crate::state::PaymentState;

verus! {

/// The statuses of a chain swap that the swap service reports. `Other`
/// stands for those that ask nothing of the orchestrator.
#[derive(Clone, Copy, Debug, PartialEq, Eq, Hash, Structural)]
pub enum SwapStatus {
    Created,
    TransactionMempool,
    TransactionConfirmed,
    TransactionServerMempool,
    TransactionServerConfirmed,
    TransactionFailed,
    TransactionLockupFailed,
    TransactionRefunded,
    SwapExpired,
    Other,
}

/// What a status means to the orchestrator.
#[derive(Clone, Copy, Debug, PartialEq, Eq, Structural)]
pub enum StatusKind {
    /// The swap exists at the swap service.
    Created,
    /// The user's lockup was seen.
    UserLockup,
    /// The swap service's lockup is in the mempool.
    ServerMempool,
    /// The swap service's lockup is confirmed.
    ServerConfirmed,
    /// The swap cannot go through any more.
    Unrecoverable,
    /// Nothing to do.
    Other,
}

/// What each status means to the orchestrator.
pub open spec fn status_kind(status: SwapStatus) -> StatusKind {
    match status {
        SwapStatus::Created => StatusKind::Created,
        SwapStatus::TransactionMempool | SwapStatus::TransactionConfirmed => StatusKind::UserLockup,
        SwapStatus::TransactionServerMempool => StatusKind::ServerMempool,
        SwapStatus::TransactionServerConfirmed => StatusKind::ServerConfirmed,
        SwapStatus::TransactionFailed
        | SwapStatus::TransactionLockupFailed
        | SwapStatus::TransactionRefunded
        | SwapStatus::SwapExpired => StatusKind::Unrecoverable,
        SwapStatus::Other => StatusKind::Other,
    }
}

/// Sorts a status by what it asks of the orchestrator.
pub fn classify(status: SwapStatus) -> (kind: StatusKind)
    ensures
        kind == status_kind(status),
{
    match status {
        SwapStatus::Created => StatusKind::Created,
        SwapStatus::TransactionMempool | SwapStatus::TransactionConfirmed => StatusKind::UserLockup,
        SwapStatus::TransactionServerMempool => StatusKind::ServerMempool,
        SwapStatus::TransactionServerConfirmed => StatusKind::ServerConfirmed,
        SwapStatus::TransactionFailed
        | SwapStatus::TransactionLockupFailed
        | SwapStatus::TransactionRefunded
        | SwapStatus::SwapExpired => StatusKind::Unrecoverable,
        SwapStatus::Other => StatusKind::Other,
    }
}

/// A status update as the swap service pushes it. `status` is absent
/// where the status text is none the swap service is known to send.
#[derive(Clone, Debug, PartialEq, Eq)]
pub struct StatusUpdate {
    pub id: String,
    pub status: Option<SwapStatus>,
    pub transaction: Option<UpdateTx>,
    pub zero_conf_rejected: Option<bool>,
}

/// The mathematical view of a [`StatusUpdate`].
pub struct StatusUpdateView {
    pub id: Seq<char>,
    pub status: Option<SwapStatus>,
    pub transaction: Option<UpdateTxView>,
    pub zero_conf_rejected: Option<bool>,
}

impl View for StatusUpdate {
    type V = StatusUpdateView;

    open spec fn view(&self) -> StatusUpdateView {
        StatusUpdateView {
            id: self.id@,
            status: self.status,
            transaction: match self.transaction {
                Some(tx) => Some(tx@),
                None => None,
            },
            zero_conf_rejected: self.zero_conf_rejected,
        }
    }
}

/// The user's lockup transaction after the wallet built it and the Liquid
/// backend took it.
#[derive(Clone, Debug, PartialEq, Eq)]
pub struct LockupBroadcast {
    pub tx_id: String,
    pub fees_sat: u64,
}

/// Where the handling of an update stands between two steps.
#[derive(Clone, Debug, PartialEq, Eq)]
pub enum StatusPhase {
    /// Nothing was done yet.
    Start,
    /// The store was asked to record whether zero-conf is accepted.
    SavingZeroConf,
    /// The unconfirmed server lockup is being verified.
    VerifyingServerMempool,
    /// The store was asked to record the unconfirmed server lockup.
    RecordingServerMempool,
    /// The user lockup is being verified, ahead of the server lockup.
    VerifyingUserLockup,
    /// The confirmed server lockup is being verified.
    VerifyingServerConfirmed,
    /// The store was asked to record the server lockup, verified or not.
    RecordingServerConfirmed { verified: bool },
    /// The claim is under way.
    Claiming,
    /// The user lockup of a failed swap is being looked for.
    CheckingUserLockup,
    /// The wallet and the Liquid backend were asked to lock the funds.
    LockingFunds,
    /// The store was asked to insert the provisional payment entry.
    InsertingLockupPayment { lockup_tx_id: String },
    /// A cooperative refund is under way.
    Refunding,
    /// The store was asked for the last state move.
    Updating,
    /// The update is dealt with.
    Done,
}

/// The mathematical view of a [`StatusPhase`].
pub enum StatusPhaseView {
    Start,
    SavingZeroConf,
    VerifyingServerMempool,
    RecordingServerMempool,
    VerifyingUserLockup,
    VerifyingServerConfirmed,
    RecordingServerConfirmed { verified: bool },
    Claiming,
    CheckingUserLockup,
    LockingFunds,
    InsertingLockupPayment { lockup_tx_id: Seq<char> },
    Refunding,
    Updating,
    Done,
}

impl View for StatusPhase {
    type V = StatusPhaseView;

    open spec fn view(&self) -> StatusPhaseView {
        match *self {
            StatusPhase::Start => StatusPhaseView::Start,
            StatusPhase::SavingZeroConf => StatusPhaseView::SavingZeroConf,
            StatusPhase::VerifyingServerMempool => StatusPhaseView::VerifyingServerMempool,
            StatusPhase::RecordingServerMempool => StatusPhaseView::RecordingServerMempool,
            StatusPhase::VerifyingUserLockup => StatusPhaseView::VerifyingUserLockup,
            StatusPhase::VerifyingServerConfirmed => StatusPhaseView::VerifyingServerConfirmed,
            StatusPhase::RecordingServerConfirmed { verified } => StatusPhaseView::RecordingServerConfirmed {
                verified,
            },
            StatusPhase::Claiming => StatusPhaseView::Claiming,
            StatusPhase::CheckingUserLockup => StatusPhaseView::CheckingUserLockup,
            StatusPhase::LockingFunds => StatusPhaseView::LockingFunds,
            StatusPhase::InsertingLockupPayment { lockup_tx_id } => StatusPhaseView::InsertingLockupPayment {
                lockup_tx_id: lockup_tx_id@,
            },
            StatusPhase::Refunding => StatusPhaseView::Refunding,
            StatusPhase::Updating => StatusPhaseView::Updating,
            StatusPhase::Done => StatusPhaseView::Done,
        }
    }
}

/// The outcome of the operation that the last step asked for.
#[derive(Debug, PartialEq, Eq)]
pub enum StatusEvent {
    /// The update arrived.
    Begin,
    /// The write, the verification or the claim asked for ended thus.
    Completed(Result<(), PaymentError>),
    /// The funds were locked, or were not.
    LockedUp(Result<LockupBroadcast, PaymentError>),
    /// The refund was broadcast under the id given, or was not.
    Refunded(Result<String, PaymentError>),
}

/// The mathematical view of a [`StatusEvent`].
pub enum StatusEventView {
    Begin,
    Completed(Result<(), PaymentError>),
    LockedUp(Result<(Seq<char>, u64), PaymentError>),
    Refunded(Result<Seq<char>, PaymentError>),
}

impl View for StatusEvent {
    type V = StatusEventView;

    open spec fn view(&self) -> StatusEventView {
        match *self {
            StatusEvent::Begin => StatusEventView::Begin,
            StatusEvent::Completed(res) => StatusEventView::Completed(res),
            StatusEvent::LockedUp(res) => StatusEventView::LockedUp(
                match res {
                    Ok(lockup) => Ok((lockup.tx_id@, lockup.fees_sat)),
                    Err(e) => Err(e),
                },
            ),
            StatusEvent::Refunded(res) => StatusEventView::Refunded(
                match res {
                    Ok(id) => Ok(id@),
                    Err(e) => Err(e),
                },
            ),
        }
    }
}

/// The operation to carry out next.
#[derive(Debug, PartialEq, Eq)]
pub enum StatusAction {
    /// Record in the store whether zero-conf is accepted.
    SetAcceptZeroConf { accept_zero_conf: bool },
    /// Move the swap to a state, recording the transaction ids given.
    UpdateSwapInfo {
        to_state: PaymentState,
        server_lockup_tx_id: Option<String>,
        user_lockup_tx_id: Option<String>,
        refund_tx_id: Option<String>,
    },
    /// Verify the transaction announced as the swap service's lockup.
    VerifyServerLockup { verify_confirmation: bool },
    /// Verify the user's lockup against the history of its script.
    VerifyUserLockup,
    /// Claim the swap service's lockup.
    Claim,
    /// Build a transaction paying the amount to the address at the low
    /// fee rate configured, and broadcast it on Liquid.
    LockupFunds { address: String, amount_sat: u64 },
    /// Insert the provisional payment entry.
    InsertPayment { payment: PaymentTxData },
    /// Refund the user's Liquid lockup.
    RefundOutgoing { is_cooperative: bool },
    /// Stop, with this result.
    Finish { result: Result<(), PaymentError> },
}

/// The mathematical view of a [`StatusAction`].
pub enum StatusActionView {
    SetAcceptZeroConf { accept_zero_conf: bool },
    UpdateSwapInfo {
        to_state: PaymentState,
        server_lockup_tx_id: Option<Seq<char>>,
        user_lockup_tx_id: Option<Seq<char>>,
        refund_tx_id: Option<Seq<char>>,
    },
    VerifyServerLockup { verify_confirmation: bool },
    VerifyUserLockup,
    Claim,
    LockupFunds { address: Seq<char>, amount_sat: u64 },
    InsertPayment { payment: PaymentTxDataView },
    RefundOutgoing { is_cooperative: bool },
    Finish { result: Result<(), PaymentError> },
}

impl View for StatusAction {
    type V = StatusActionView;

    open spec fn view(&self) -> StatusActionView {
        match *self {
            StatusAction::SetAcceptZeroConf { accept_zero_conf } => StatusActionView::SetAcceptZeroConf {
                accept_zero_conf,
            },
            StatusAction::UpdateSwapInfo {
                to_state,
                server_lockup_tx_id,
                user_lockup_tx_id,
                refund_tx_id,
            } => StatusActionView::UpdateSwapInfo {
                to_state,
                server_lockup_tx_id: opt_view(server_lockup_tx_id),
                user_lockup_tx_id: opt_view(user_lockup_tx_id),
                refund_tx_id: opt_view(refund_tx_id),
            },
            StatusAction::VerifyServerLockup { verify_confirmation } => StatusActionView::VerifyServerLockup {
                verify_confirmation,
            },
            StatusAction::VerifyUserLockup => StatusActionView::VerifyUserLockup,
            StatusAction::Claim => StatusActionView::Claim,
            StatusAction::LockupFunds { address, amount_sat } => StatusActionView::LockupFunds {
                address: address@,
                amount_sat,
            },
            StatusAction::InsertPayment { payment } => StatusActionView::InsertPayment {
                payment: payment@,
            },
            StatusAction::RefundOutgoing { is_cooperative } => StatusActionView::RefundOutgoing {
                is_cooperative,
            },
            StatusAction::Finish { result } => StatusActionView::Finish { result },
        }
    }
}

/// The step that ends the handling of an update.
pub open spec fn status_finish(result: Result<(), PaymentError>) -> (
    StatusPhaseView,
    StatusActionView,
) {
    (StatusPhaseView::Done, StatusActionView::Finish { result })
}

/// The step that asks for a state move and ends after it.
pub open spec fn status_move(to_state: PaymentState) -> (StatusPhaseView, StatusActionView) {
    (
        StatusPhaseView::Updating,
        StatusActionView::UpdateSwapInfo {
            to_state,
            server_lockup_tx_id: None,
            user_lockup_tx_id: None,
            refund_tx_id: None,
        },
    )
}

/// The step that records the user's lockup announced by the update, if
/// the update carries one.
pub open spec fn record_user_lockup(update: StatusUpdateView) -> (StatusPhaseView, StatusActionView) {
    match update.transaction {
        Some(tx) => (
            StatusPhaseView::Updating,
            StatusActionView::UpdateSwapInfo {
                to_state: PaymentState::Pending,
                server_lockup_tx_id: None,
                user_lockup_tx_id: Some(tx.id),
                refund_tx_id: None,
            },
        ),
        None => status_finish(Ok(())),
    }
}

/// The first step on word of the user's lockup: the swap service's
/// verdict on zero-conf, where it gave one, is recorded first.
pub open spec fn user_lockup_seen(update: StatusUpdateView) -> (StatusPhaseView, StatusActionView) {
    match update.zero_conf_rejected {
        Some(rejected) => (
            StatusPhaseView::SavingZeroConf,
            StatusActionView::SetAcceptZeroConf { accept_zero_conf: !rejected },
        ),
        None => record_user_lockup(update),
    }
}

/// The step that records the server's lockup announced by the update.
pub open spec fn record_server_lockup(update: StatusUpdateView, phase: StatusPhaseView) -> (
    StatusPhaseView,
    StatusActionView,
) {
    match update.transaction {
        Some(tx) => (
            phase,
            StatusActionView::UpdateSwapInfo {
                to_state: PaymentState::Pending,
                server_lockup_tx_id: Some(tx.id),
                user_lockup_tx_id: None,
                refund_tx_id: None,
            },
        ),
        None => status_finish(Err(PaymentError::UnexpectedPayload)),
    }
}

/// The first step on word of the server's lockup: nothing where a claim
/// is on record, an error where the update names no transaction, else the
/// step given.
pub open spec fn server_lockup_seen(
    swap: ChainSwapView,
    update: StatusUpdateView,
    step: (StatusPhaseView, StatusActionView),
) -> (StatusPhaseView, StatusActionView) {
    if swap.claim_tx_id is Some {
        status_finish(Ok(()))
    } else if update.transaction is None {
        status_finish(Err(PaymentError::UnexpectedPayload))
    } else {
        step
    }
}

/// The steps that both directions share, from the second on.
pub open spec fn shared_status_next(
    swap: ChainSwapView,
    update: StatusUpdateView,
    phase: StatusPhaseView,
    event: StatusEventView,
) -> (StatusPhaseView, StatusActionView) {
    match (phase, event) {
        (StatusPhaseView::SavingZeroConf, StatusEventView::Completed(res)) => match res {
            Ok(()) => record_user_lockup(update),
            Err(e) => status_finish(Err(e)),
        },
        (StatusPhaseView::VerifyingServerMempool, StatusEventView::Completed(res)) => match res {
            Ok(()) => record_server_lockup(update, StatusPhaseView::RecordingServerMempool),
            Err(_) => status_finish(Err(PaymentError::ServerLockupUnverified)),
        },
        (StatusPhaseView::RecordingServerMempool, StatusEventView::Completed(res)) => match res {
            Ok(()) => if swap.accept_zero_conf {
                (StatusPhaseView::Claiming, StatusActionView::Claim)
            } else {
                status_finish(Ok(()))
            },
            Err(e) => status_finish(Err(e)),
        },
        (StatusPhaseView::VerifyingUserLockup, StatusEventView::Completed(res)) => match res {
            Ok(()) => (
                StatusPhaseView::VerifyingServerConfirmed,
                StatusActionView::VerifyServerLockup { verify_confirmation: true },
            ),
            Err(_) => status_finish(Err(PaymentError::UserLockupUnverified)),
        },
        (
            StatusPhaseView::RecordingServerConfirmed { verified },
            StatusEventView::Completed(res),
        ) => match res {
            Ok(()) => if verified {
                (StatusPhaseView::Claiming, StatusActionView::Claim)
            } else {
                status_finish(Err(PaymentError::ServerLockupUnverified))
            },
            Err(e) => status_finish(Err(e)),
        },
        (StatusPhaseView::Claiming, StatusEventView::Completed(res)) => match res {
            Ok(()) => status_finish(Ok(())),
            Err(_) => status_finish(Err(PaymentError::ClaimFailed)),
        },
        (StatusPhaseView::Updating, StatusEventView::Completed(res)) => status_finish(res),
        _ => status_finish(Err(PaymentError::UnexpectedEvent)),
    }
}

/// The next phase and operation while an update for an incoming swap is
/// handled.
pub open spec fn incoming_status_next(
    swap: ChainSwapView,
    update: StatusUpdateView,
    phase: StatusPhaseView,
    event: StatusEventView,
) -> (StatusPhaseView, StatusActionView) {
    match (phase, event) {
        (StatusPhaseView::Start, StatusEventView::Begin) => match update.status {
            None => status_finish(Err(PaymentError::InvalidStatus)),
            Some(status) => match status_kind(status) {
                StatusKind::UserLockup => user_lockup_seen(update),
                StatusKind::ServerMempool => server_lockup_seen(
                    swap,
                    update,
                    (
                        StatusPhaseView::VerifyingServerMempool,
                        StatusActionView::VerifyServerLockup { verify_confirmation: false },
                    ),
                ),
                StatusKind::ServerConfirmed => server_lockup_seen(
                    swap,
                    update,
                    (StatusPhaseView::VerifyingUserLockup, StatusActionView::VerifyUserLockup),
                ),
                StatusKind::Unrecoverable => if swap.refund_tx_id is Some {
                    status_finish(Ok(()))
                } else {
                    (StatusPhaseView::CheckingUserLockup, StatusActionView::VerifyUserLockup)
                },
                StatusKind::Created | StatusKind::Other => status_finish(Ok(())),
            },
        },
        (
            StatusPhaseView::VerifyingServerConfirmed,
            StatusEventView::Completed(res),
        ) => record_server_lockup(
            update,
            StatusPhaseView::RecordingServerConfirmed { verified: res is Ok },
        ),
        (StatusPhaseView::CheckingUserLockup, StatusEventView::Completed(res)) => match res {
            Ok(()) => status_move(PaymentState::Refundable),
            Err(_) => status_move(PaymentState::Failed),
        },
        _ => shared_status_next(swap, update, phase, event),
    }
}

/// The fees shown for an outgoing swap once its lockup is broadcast: those
/// of the lockup transaction and those of the claim, capped at the largest
/// amount that can be written.
pub open spec fn lockup_payment_fees(lockup_fees_sat: u64, claim_fees_sat: u64) -> u64 {
    if lockup_fees_sat + claim_fees_sat > u64::MAX {
        u64::MAX
    } else {
        (lockup_fees_sat + claim_fees_sat) as u64
    }
}

/// The entry that makes the lockup of an outgoing swap show in the wallet
/// before the indexer has seen the transaction.
pub open spec fn lockup_payment(
    swap: ChainSwapView,
    lockup_tx_id: Seq<char>,
    lockup_fees_sat: u64,
    now: u32,
) -> PaymentTxDataView {
    PaymentTxDataView {
        tx_id: lockup_tx_id,
        timestamp: Some(now),
        amount_sat: swap.receiver_amount_sat,
        fees_sat: lockup_payment_fees(lockup_fees_sat, swap.claim_fees_sat),
        payment_type: PaymentType::Send,
        is_confirmed: false,
    }
}

/// The next phase and operation while an update for an outgoing swap is
/// handled.
pub open spec fn outgoing_status_next(
    swap: ChainSwapView,
    update: StatusUpdateView,
    now: u32,
    phase: StatusPhaseView,
    event: StatusEventView,
) -> (StatusPhaseView, StatusActionView) {
    match (phase, event) {
        (StatusPhaseView::Start, StatusEventView::Begin) => match update.status {
            None => status_finish(Err(PaymentError::InvalidStatus)),
            Some(status) => match status_kind(status) {
                StatusKind::Created => if swap.state is TimedOut || swap.user_lockup_tx_id is Some {
                    status_finish(Ok(()))
                } else {
                    (
                        StatusPhaseView::LockingFunds,
                        StatusActionView::LockupFunds {
                            address: swap.lockup_address,
                            amount_sat: swap.lockup_amount_sat,
                        },
                    )
                },
                StatusKind::UserLockup => user_lockup_seen(update),
                StatusKind::ServerMempool => server_lockup_seen(
                    swap,
                    update,
                    (
                        StatusPhaseView::VerifyingServerMempool,
                        StatusActionView::VerifyServerLockup { verify_confirmation: false },
                    ),
                ),
                StatusKind::ServerConfirmed => server_lockup_seen(
                    swap,
                    update,
                    (StatusPhaseView::VerifyingUserLockup, StatusActionView::VerifyUserLockup),
                ),
                StatusKind::Unrecoverable => if swap.refund_tx_id is Some {
                    status_finish(Ok(()))
                } else if swap.user_lockup_tx_id is Some {
                    (
                        StatusPhaseView::Refunding,
                        StatusActionView::RefundOutgoing { is_cooperative: true },
                    )
                } else {
                    status_move(PaymentState::Failed)
                },
                StatusKind::Other => status_finish(Ok(())),
            },
        },
        (StatusPhaseView::LockingFunds, StatusEventView::LockedUp(res)) => match res {
            Ok((lockup_tx_id, fees_sat)) => (
                StatusPhaseView::InsertingLockupPayment { lockup_tx_id },
                StatusActionView::InsertPayment {
                    payment: lockup_payment(swap, lockup_tx_id, fees_sat, now),
                },
            ),
            Err(e) => status_finish(Err(e)),
        },
        (
            StatusPhaseView::InsertingLockupPayment { lockup_tx_id },
            StatusEventView::Completed(res),
        ) => match res {
            Ok(()) => (
                StatusPhaseView::Updating,
                StatusActionView::UpdateSwapInfo {
                    to_state: PaymentState::Pending,
                    server_lockup_tx_id: None,
                    user_lockup_tx_id: Some(lockup_tx_id),
                    refund_tx_id: None,
                },
            ),
            Err(e) => status_finish(Err(e)),
        },
        (StatusPhaseView::VerifyingServerConfirmed, StatusEventView::Completed(res)) => match res {
            Ok(()) => record_server_lockup(
                update,
                StatusPhaseView::RecordingServerConfirmed { verified: true },
            ),
            Err(_) => status_finish(Err(PaymentError::ServerLockupUnverified)),
        },
        (StatusPhaseView::Refunding, StatusEventView::Refunded(res)) => (
            StatusPhaseView::Updating,
            StatusActionView::UpdateSwapInfo {
                to_state: PaymentState::RefundPending,
                server_lockup_tx_id: None,
                user_lockup_tx_id: None,
                refund_tx_id: match res {
                    Ok(refund_tx_id) => Some(refund_tx_id),
                    Err(_) => None,
                },
            },
        ),
        _ => shared_status_next(swap, update, phase, event),
    }
}

/// The next phase and operation while an update is handled, by the
/// direction of the swap.
pub open spec fn status_next(
    swap: ChainSwapView,
    update: StatusUpdateView,
    now: u32,
    phase: StatusPhaseView,
    event: StatusEventView,
) -> (StatusPhaseView, StatusActionView) {
    match swap.direction {
        Direction::Incoming => incoming_status_next(swap, update, phase, event),
        Direction::Outgoing => outgoing_status_next(swap, update, now, phase, event),
    }
}

fn finish(result: Result<(), PaymentError>) -> (res: (StatusPhase, StatusAction))
    ensures
        (res.0@, res.1@) == status_finish(result),
{
    (StatusPhase::Done, StatusAction::Finish { result })
}

fn move_to(to_state: PaymentState) -> (res: (StatusPhase, StatusAction))
    ensures
        (res.0@, res.1@) == status_move(to_state),
{
    (
        StatusPhase::Updating,
        StatusAction::UpdateSwapInfo {
            to_state,
            server_lockup_tx_id: None,
            user_lockup_tx_id: None,
            refund_tx_id: None,
        },
    )
}

fn record_user(update: &StatusUpdate) -> (res: (StatusPhase, StatusAction))
    ensures
        (res.0@, res.1@) == record_user_lockup(update@),
{
    match &update.transaction {
        Some(tx) => (
            StatusPhase::Updating,
            StatusAction::UpdateSwapInfo {
                to_state: PaymentState::Pending,
                server_lockup_tx_id: None,
                user_lockup_tx_id: Some(tx.id.clone()),
                refund_tx_id: None,
            },
        ),
        None => finish(Ok(())),
    }
}

fn user_seen(update: &StatusUpdate) -> (res: (StatusPhase, StatusAction))
    ensures
        (res.0@, res.1@) == user_lockup_seen(update@),
{
    match update.zero_conf_rejected {
        Some(rejected) => (
            StatusPhase::SavingZeroConf,
            StatusAction::SetAcceptZeroConf { accept_zero_conf: !rejected },
        ),
        None => record_user(update),
    }
}

fn record_server(update: &StatusUpdate, phase: StatusPhase) -> (res: (StatusPhase, StatusAction))
    ensures
        (res.0@, res.1@) == record_server_lockup(update@, phase@),
{
    match &update.transaction {
        Some(tx) => (
            phase,
            StatusAction::UpdateSwapInfo {
                to_state: PaymentState::Pending,
                server_lockup_tx_id: Some(tx.id.clone()),
                user_lockup_tx_id: None,
                refund_tx_id: None,
            },
        ),
        None => finish(Err(PaymentError::UnexpectedPayload)),
    }
}

fn server_seen(swap: &ChainSwap, update: &StatusUpdate, step: (StatusPhase, StatusAction)) -> (res: (
    StatusPhase,
    StatusAction,
))
    ensures
        (res.0@, res.1@) == server_lockup_seen(swap@, update@, (step.0@, step.1@)),
{
    if swap.claim_tx_id.is_some() {
        finish(Ok(()))
    } else if update.transaction.is_none() {
        finish(Err(PaymentError::UnexpectedPayload))
    } else {
        step
    }
}

fn shared_step(swap: &ChainSwap, update: &StatusUpdate, phase: StatusPhase, event: StatusEvent) -> (res:
    (StatusPhase, StatusAction))
    ensures
        (res.0@, res.1@) == shared_status_next(swap@, update@, phase@, event@),
{
    match (phase, event) {
        (StatusPhase::SavingZeroConf, StatusEvent::Completed(res)) => match res {
            Ok(()) => record_user(update),
            Err(e) => finish(Err(e)),
        },
        (StatusPhase::VerifyingServerMempool, StatusEvent::Completed(res)) => match res {
            Ok(()) => record_server(update, StatusPhase::RecordingServerMempool),
            Err(_) => finish(Err(PaymentError::ServerLockupUnverified)),
        },
        (StatusPhase::RecordingServerMempool, StatusEvent::Completed(res)) => match res {
            Ok(()) => if swap.accept_zero_conf {
                (StatusPhase::Claiming, StatusAction::Claim)
            } else {
                finish(Ok(()))
            },
            Err(e) => finish(Err(e)),
        },
        (StatusPhase::VerifyingUserLockup, StatusEvent::Completed(res)) => match res {
            Ok(()) => (
                StatusPhase::VerifyingServerConfirmed,
                StatusAction::VerifyServerLockup { verify_confirmation: true },
            ),
            Err(_) => finish(Err(PaymentError::UserLockupUnverified)),
        },
        (StatusPhase::RecordingServerConfirmed { verified }, StatusEvent::Completed(res)) => match res {
            Ok(()) => if verified {
                (StatusPhase::Claiming, StatusAction::Claim)
            } else {
                finish(Err(PaymentError::ServerLockupUnverified))
            },
            Err(e) => finish(Err(e)),
        },
        (StatusPhase::Claiming, StatusEvent::Completed(res)) => match res {
            Ok(()) => finish(Ok(())),
            Err(_) => finish(Err(PaymentError::ClaimFailed)),
        },
        (StatusPhase::Updating, StatusEvent::Completed(res)) => finish(res),
        _ => finish(Err(PaymentError::UnexpectedEvent)),
    }
}

fn verify_mempool_step() -> (res: (StatusPhase, StatusAction))
    ensures
        (res.0@, res.1@) == (
            StatusPhaseView::VerifyingServerMempool,
            StatusActionView::VerifyServerLockup { verify_confirmation: false },
        ),
{
    (
        StatusPhase::VerifyingServerMempool,
        StatusAction::VerifyServerLockup { verify_confirmation: false },
    )
}

fn verify_user_step() -> (res: (StatusPhase, StatusAction))
    ensures
        (res.0@, res.1@) == (StatusPhaseView::VerifyingUserLockup, StatusActionView::VerifyUserLockup),
{
    (StatusPhase::VerifyingUserLockup, StatusAction::VerifyUserLockup)
}

/// Takes one step in handling a status update for an incoming swap. The
/// user's lockup is recorded as announced. The swap service's lockup is
/// verified, recorded and claimed: unconfirmed, only if zero-conf is
/// accepted; confirmed, after the user's lockup was verified too, and it
/// is recorded even where its own check fails. A swap that cannot go
/// through becomes refundable if the user's lockup is found, failed if
/// not.
pub fn on_new_incoming_status(
    swap: &ChainSwap,
    update: &StatusUpdate,
    phase: StatusPhase,
    event: StatusEvent,
) -> (res: (StatusPhase, StatusAction))
    ensures
        (res.0@, res.1@) == incoming_status_next(swap@, update@, phase@, event@),
{
    match (phase, event) {
        (StatusPhase::Start, StatusEvent::Begin) => match update.status {
            None => finish(Err(PaymentError::InvalidStatus)),
            Some(status) => match classify(status) {
                StatusKind::UserLockup => user_seen(update),
                StatusKind::ServerMempool => server_seen(swap, update, verify_mempool_step()),
                StatusKind::ServerConfirmed => server_seen(swap, update, verify_user_step()),
                StatusKind::Unrecoverable => if swap.refund_tx_id.is_some() {
                    finish(Ok(()))
                } else {
                    (StatusPhase::CheckingUserLockup, StatusAction::VerifyUserLockup)
                },
                StatusKind::Created | StatusKind::Other => finish(Ok(())),
            },
        },
        (StatusPhase::VerifyingServerConfirmed, StatusEvent::Completed(res)) => record_server(
            update,
            StatusPhase::RecordingServerConfirmed { verified: res.is_ok() },
        ),
        (StatusPhase::CheckingUserLockup, StatusEvent::Completed(res)) => match res {
            Ok(()) => move_to(PaymentState::Refundable),
            Err(_) => move_to(PaymentState::Failed),
        },
        (phase, event) => shared_step(swap, update, phase, event),
    }
}

fn payment_fees(lockup_fees_sat: u64, claim_fees_sat: u64) -> (res: u64)
    ensures
        res == lockup_payment_fees(lockup_fees_sat, claim_fees_sat),
{
    if lockup_fees_sat > u64::MAX - claim_fees_sat {
        u64::MAX
    } else {
        lockup_fees_sat + claim_fees_sat
    }
}

/// Takes one step in handling a status update for an outgoing swap. Once
/// the swap exists at the swap service the funds are locked, unless the
/// swap timed out or a lockup is on record; the lockup shows at once as
/// a payment whose fees are those of the lockup and of the claim. The
/// swap service's lockup is verified, recorded and claimed, a confirmed
/// one only if its own check passes. A swap that cannot go through is
/// refunded with the swap service's help if funds were locked, and waits
/// for the refund whether or not that worked; with nothing locked it has
/// failed.
pub fn on_new_outgoing_status(
    swap: &ChainSwap,
    update: &StatusUpdate,
    now: u32,
    phase: StatusPhase,
    event: StatusEvent,
) -> (res: (StatusPhase, StatusAction))
    ensures
        (res.0@, res.1@) == outgoing_status_next(swap@, update@, now, phase@, event@),
{
    match (phase, event) {
        (StatusPhase::Start, StatusEvent::Begin) => match update.status {
            None => finish(Err(PaymentError::InvalidStatus)),
            Some(status) => match classify(status) {
                StatusKind::Created => if swap.state == PaymentState::TimedOut
                    || swap.user_lockup_tx_id.is_some() {
                    finish(Ok(()))
                } else {
                    (
                        StatusPhase::LockingFunds,
                        StatusAction::LockupFunds {
                            address: swap.lockup_address.clone(),
                            amount_sat: swap.lockup_amount_sat,
                        },
                    )
                },
                StatusKind::UserLockup => user_seen(update),
                StatusKind::ServerMempool => server_seen(swap, update, verify_mempool_step()),
                StatusKind::ServerConfirmed => server_seen(swap, update, verify_user_step()),
                StatusKind::Unrecoverable => if swap.refund_tx_id.is_some() {
                    finish(Ok(()))
                } else if swap.user_lockup_tx_id.is_some() {
                    (StatusPhase::Refunding, StatusAction::RefundOutgoing { is_cooperative: true })
                } else {
                    move_to(PaymentState::Failed)
                },
                StatusKind::Other => finish(Ok(())),
            },
        },
        (StatusPhase::LockingFunds, StatusEvent::LockedUp(res)) => match res {
            Ok(lockup) => {
                let payment = PaymentTxData {
                    tx_id: lockup.tx_id.clone(),
                    timestamp: Some(now),
                    amount_sat: swap.receiver_amount_sat,
                    fees_sat: payment_fees(lockup.fees_sat, swap.claim_fees_sat),
                    payment_type: PaymentType::Send,
                    is_confirmed: false,
                };
                (
                    StatusPhase::InsertingLockupPayment { lockup_tx_id: lockup.tx_id },
                    StatusAction::InsertPayment { payment },
                )
            },
            Err(e) => finish(Err(e)),
        },
        (StatusPhase::InsertingLockupPayment { lockup_tx_id }, StatusEvent::Completed(res)) => match res {
            Ok(()) => (
                StatusPhase::Updating,
                StatusAction::UpdateSwapInfo {
                    to_state: PaymentState::Pending,
                    server_lockup_tx_id: None,
                    user_lockup_tx_id: Some(lockup_tx_id),
                    refund_tx_id: None,
                },
            ),
            Err(e) => finish(Err(e)),
        },
        (StatusPhase::VerifyingServerConfirmed, StatusEvent::Completed(res)) => match res {
            Ok(()) => record_server(update, StatusPhase::RecordingServerConfirmed { verified: true }),
            Err(_) => finish(Err(PaymentError::ServerLockupUnverified)),
        },
        (StatusPhase::Refunding, StatusEvent::Refunded(res)) => (
            StatusPhase::Updating,
            StatusAction::UpdateSwapInfo {
                to_state: PaymentState::RefundPending,
                server_lockup_tx_id: None,
                user_lockup_tx_id: None,
                refund_tx_id: match res {
                    Ok(refund_tx_id) => Some(refund_tx_id),
                    Err(_) => None,
                },
            },
        ),
        (phase, event) => shared_step(swap, update, phase, event),
    }
}

/// Takes one step in handling a status update, by the direction of the
/// swap it is for.
pub fn on_new_status(
    swap: &ChainSwap,
    update: &StatusUpdate,
    now: u32,
    phase: StatusPhase,
    event: StatusEvent,
) -> (res: (StatusPhase, StatusAction))
    ensures
        (res.0@, res.1@) == status_next(swap@, update@, now, phase@, event@),
{
    match swap.direction {
        Direction::Incoming => on_new_incoming_status(swap, update, phase, event),
        Direction::Outgoing => on_new_outgoing_status(swap, update, now, phase, event),
    }
}

/// Once a claim is on record, word of the swap service's lockup asks for
/// nothing more.
pub proof fn lemma_claimed_swap_ignores_server_lockup(
    swap: ChainSwapView,
    update: StatusUpdateView,
    now: u32,
)
    requires
        swap.claim_tx_id is Some,
        update.status matches Some(status) && (status_kind(status) is ServerMempool || status_kind(
            status,
        ) is ServerConfirmed),
    ensures
        status_next(swap, update, now, StatusPhaseView::Start, StatusEventView::Begin)
            == status_finish(Ok(())),
{
}

/// Once a refund is on record, word that the swap cannot go through asks
/// for nothing more.
pub proof fn lemma_refunded_swap_ignores_failure(
    swap: ChainSwapView,
    update: StatusUpdateView,
    now: u32,
)
    requires
        swap.refund_tx_id is Some,
        update.status matches Some(status) && status_kind(status) is Unrecoverable,
    ensures
        status_next(swap, update, now, StatusPhaseView::Start, StatusEventView::Begin)
            == status_finish(Ok(())),
{
}

/// A claim is asked for only after the store recorded the swap service's
/// lockup, and for an unconfirmed lockup only where zero-conf is accepted.
pub proof fn lemma_claim_follows_recorded_server_lockup(
    swap: ChainSwapView,
    update: StatusUpdateView,
    now: u32,
    phase: StatusPhaseView,
    event: StatusEventView,
)
    requires
        status_next(swap, update, now, phase, event).1 is Claim,
    ensures
        event matches StatusEventView::Completed(Ok(_)),
        phase is RecordingServerMempool || phase == (StatusPhaseView::RecordingServerConfirmed {
            verified: true,
        }),
        phase is RecordingServerMempool ==> swap.accept_zero_conf,
{
    match swap.direction {
        Direction::Incoming => {
            assert(incoming_status_next(swap, update, phase, event).1 is Claim);
        },
        Direction::Outgoing => {
            assert(outgoing_status_next(swap, update, now, phase, event).1 is Claim);
        },
    }
}

} // verus!
