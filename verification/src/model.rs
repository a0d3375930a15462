//! The swap record and the plain values exchanged with the chain backends,
//! the wallet and the swap service.

use vstd::prelude::*;

use crate::state::PaymentState;

verus! {

/// Which way the funds move: towards the user's Liquid wallet, or out of it.
#[derive(Clone, Copy, Debug, PartialEq, Eq, Hash, Structural)]
pub enum Direction {
    Incoming,
    Outgoing,
}

/// One of the two chains a swap spans.
#[derive(Clone, Copy, Debug, PartialEq, Eq, Hash, Structural)]
pub enum Chain {
    Bitcoin,
    Liquid,
}

/// Whether a payment entry adds to the wallet's balance or takes from it.
#[derive(Clone, Copy, Debug, PartialEq, Eq, Hash, Structural)]
pub enum PaymentType {
    Receive,
    Send,
}

/// What the orchestrator reads of a swap script: its chain, the script of
/// its address and the lock time after which a refund needs no cosigner.
#[derive(Clone, Debug, PartialEq, Eq)]
pub struct SwapScript {
    pub chain: Chain,
    pub script_pubkey: Vec<u8>,
    pub locktime: u32,
}

/// The mathematical view of a [`SwapScript`].
pub struct SwapScriptView {
    pub chain: Chain,
    pub script_pubkey: Seq<u8>,
    pub locktime: u32,
}

impl View for SwapScript {
    type V = SwapScriptView;

    open spec fn view(&self) -> SwapScriptView {
        SwapScriptView {
            chain: self.chain,
            script_pubkey: self.script_pubkey@,
            locktime: self.locktime,
        }
    }
}

/// The view of an optional string.
pub open spec fn opt_view(s: Option<String>) -> Option<Seq<char>> {
    match s {
        Some(s) => Some(s@),
        None => None,
    }
}

/// The view of an optional borrowed string.
pub open spec fn opt_str_view(s: Option<&str>) -> Option<Seq<char>> {
    match s {
        Some(s) => Some(s@),
        None => None,
    }
}

/// One swap, as the store holds it.
#[derive(Clone, Debug, PartialEq, Eq)]
pub struct ChainSwap {
    pub id: String,
    pub direction: Direction,
    /// The amount the receiving side ends up with.
    pub receiver_amount_sat: u64,
    pub claim_fees_sat: u64,
    pub timeout_block_height: u32,
    /// Seconds since the epoch.
    pub created_at: u32,
    pub accept_zero_conf: bool,
    /// Where the user locks funds, and how much.
    pub lockup_address: String,
    pub lockup_amount_sat: u64,
    /// How much the swap service must lock on the other chain.
    pub claim_amount_sat: u64,
    /// The script the user locks to.
    pub lockup_script: SwapScript,
    /// The script the swap service locks to.
    pub claim_script: SwapScript,
    pub claim_address: Option<String>,
    pub user_lockup_tx_id: Option<String>,
    pub server_lockup_tx_id: Option<String>,
    pub claim_tx_id: Option<String>,
    pub refund_tx_id: Option<String>,
    pub state: PaymentState,
}

/// The mathematical view of a [`ChainSwap`].
pub struct ChainSwapView {
    pub id: Seq<char>,
    pub direction: Direction,
    pub receiver_amount_sat: u64,
    pub claim_fees_sat: u64,
    pub timeout_block_height: u32,
    pub created_at: u32,
    pub accept_zero_conf: bool,
    pub lockup_address: Seq<char>,
    pub lockup_amount_sat: u64,
    pub claim_amount_sat: u64,
    pub lockup_script: SwapScriptView,
    pub claim_script: SwapScriptView,
    pub claim_address: Option<Seq<char>>,
    pub user_lockup_tx_id: Option<Seq<char>>,
    pub server_lockup_tx_id: Option<Seq<char>>,
    pub claim_tx_id: Option<Seq<char>>,
    pub refund_tx_id: Option<Seq<char>>,
    pub state: PaymentState,
}

impl View for ChainSwap {
    type V = ChainSwapView;

    open spec fn view(&self) -> ChainSwapView {
        ChainSwapView {
            id: self.id@,
            direction: self.direction,
            receiver_amount_sat: self.receiver_amount_sat,
            claim_fees_sat: self.claim_fees_sat,
            timeout_block_height: self.timeout_block_height,
            created_at: self.created_at,
            accept_zero_conf: self.accept_zero_conf,
            lockup_address: self.lockup_address@,
            lockup_amount_sat: self.lockup_amount_sat,
            claim_amount_sat: self.claim_amount_sat,
            lockup_script: self.lockup_script@,
            claim_script: self.claim_script@,
            claim_address: opt_view(self.claim_address),
            user_lockup_tx_id: opt_view(self.user_lockup_tx_id),
            server_lockup_tx_id: opt_view(self.server_lockup_tx_id),
            claim_tx_id: opt_view(self.claim_tx_id),
            refund_tx_id: opt_view(self.refund_tx_id),
            state: self.state,
        }
    }
}

/// A transaction as wallet queries show it before the indexer has seen it.
#[derive(Clone, Debug, PartialEq, Eq)]
pub struct PaymentTxData {
    pub tx_id: String,
    pub timestamp: Option<u32>,
    pub amount_sat: u64,
    pub fees_sat: u64,
    pub payment_type: PaymentType,
    pub is_confirmed: bool,
}

/// The mathematical view of a [`PaymentTxData`].
pub struct PaymentTxDataView {
    pub tx_id: Seq<char>,
    pub timestamp: Option<u32>,
    pub amount_sat: u64,
    pub fees_sat: u64,
    pub payment_type: PaymentType,
    pub is_confirmed: bool,
}

impl View for PaymentTxData {
    type V = PaymentTxDataView;

    open spec fn view(&self) -> PaymentTxDataView {
        PaymentTxDataView {
            tx_id: self.tx_id@,
            timestamp: self.timestamp,
            amount_sat: self.amount_sat,
            fees_sat: self.fees_sat,
            payment_type: self.payment_type,
            is_confirmed: self.is_confirmed,
        }
    }
}

/// One entry of a script's history. A height of zero or less means the
/// transaction is not confirmed.
#[derive(Clone, Debug, PartialEq, Eq)]
pub struct HistoryEntry {
    pub txid: String,
    pub height: i32,
}

/// What a script holds, in confirmed and in unconfirmed funds.
#[derive(Clone, Copy, Debug, PartialEq, Eq, Structural)]
pub struct ScriptBalance {
    pub confirmed: u64,
    pub unconfirmed: i64,
}

/// One output of a lockup transaction. `value` is absent where the output
/// is blinded and could not be unblinded with the swap's key.
#[derive(Clone, Debug, PartialEq, Eq)]
pub struct TxOutput {
    pub script_pubkey: Vec<u8>,
    pub value: Option<u64>,
}

/// What the checks read of a lockup transaction that a chain backend has
/// located and matched against the bytes announced: the sequence number of
/// each input, and the outputs.
#[derive(Clone, Debug, PartialEq, Eq)]
pub struct LockupTx {
    pub sequences: Vec<u32>,
    pub outputs: Vec<TxOutput>,
}

/// A transaction announced in a status update.
#[derive(Clone, Debug, PartialEq, Eq)]
pub struct UpdateTx {
    pub id: String,
    pub hex: String,
}

/// The mathematical view of an [`UpdateTx`].
pub struct UpdateTxView {
    pub id: Seq<char>,
    pub hex: Seq<char>,
}

impl View for UpdateTx {
    type V = UpdateTxView;

    open spec fn view(&self) -> UpdateTxView {
        UpdateTxView { id: self.id@, hex: self.hex@ }
    }
}

} // verus!
