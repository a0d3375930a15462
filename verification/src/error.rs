//! Errors raised by the orchestrator's decisions.

use vstd::prelude::*;

use crate::state::PaymentState;

verus! {

/// Why an operation on a swap did not go through.
#[derive(Clone, Copy, Debug, PartialEq, Eq, Structural)]
pub enum PaymentError {
    /// The store could not be read or written.
    PersistError,
    /// No swap is stored under the identifier or lockup address given.
    SwapNotFound,
    /// The status of an update is not one the swap service is known to send.
    InvalidStatus,
    /// The state machine has no edge between the two states.
    InvalidTransition { from: PaymentState, to: PaymentState },
    /// A claim transaction was already recorded for the swap.
    AlreadyClaimed,
    /// A refund transaction was already recorded for the swap.
    AlreadyRefunded,
    /// A refund was asked for a swap that is not marked refundable.
    NotRefundable,
    /// A status update lacks the transaction it must carry.
    UnexpectedPayload,
    /// The swap's script is for the other chain than the operation needs.
    UnexpectedScript,
    /// A transaction for the other chain than expected was handed over.
    UnexpectedTransaction,
    /// An unconfirmed counterparty transaction can still be replaced.
    SignalsRbf,
    /// An output paying the swap script could not be unblinded.
    UnblindFailed,
    /// The counterparty locked less than agreed.
    AmountTooLow { value: u64, expected: u64 },
    /// The user's lockup transaction is absent from the script's history.
    LockupNotInHistory,
    /// The script's history is empty.
    EmptyHistory,
    /// The server's lockup transaction is absent from the script's history.
    ServerLockupNotFound,
    /// A chain height is too large to be a lock time in blocks.
    InvalidHeight,
    /// The claim address is not a Bitcoin address.
    InvalidAddress,
    /// The swap has no claim transaction to look for.
    MissingClaimTxId,
    /// The user's lockup transaction could not be verified.
    UserLockupUnverified,
    /// The server's lockup transaction could not be verified.
    ServerLockupUnverified,
    /// The claim could not be carried out.
    ClaimFailed,
    /// A step was handed an answer to a question it had not asked.
    UnexpectedEvent,
    /// The wallet failed to derive an address or build a transaction.
    WalletError,
    /// The swap service failed to build or relay a transaction.
    SwapperError,
    /// A chain backend failed to answer.
    ChainError,
    /// No backend accepted the transaction.
    BroadcastError,
}

} // verus!
