//! Periodic reconciliation: which swaps each rescan looks at, which script
//! it asks a chain backend about, and what the answer means for the swap.

use std::str::FromStr;
use vstd::prelude::*;

use crate::error::PaymentError;
use crate::model::{opt_view, Chain, ChainSwap, ChainSwapView, Direction, HistoryEntry, ScriptBalance};
use crate::state::PaymentState;

verus! {

/// For how many Bitcoin blocks past its timeout an incoming swap is still
/// reconciled.
pub const CHAIN_SWAP_MONITORING_PERIOD_BITCOIN_BLOCKS: u32 = 4320;

/// The three rescans.
#[derive(Clone, Copy, Debug, PartialEq, Eq, Structural)]
pub enum Rescan {
    /// The user's Bitcoin lockups of incoming swaps.
    IncomingUserLockup,
    /// The swap service's Liquid lockups of incoming swaps.
    IncomingServerLockup,
    /// The Bitcoin claims of outgoing swaps.
    OutgoingClaim,
}

/// Whether a rescan looks at a swap.
pub open spec fn in_rescan(rescan: Rescan, swap: ChainSwapView) -> bool {
    match rescan {
        Rescan::IncomingUserLockup => swap.direction is Incoming,
        Rescan::IncomingServerLockup => swap.direction is Incoming && swap.state is Pending
            && swap.claim_tx_id is None,
        Rescan::OutgoingClaim => swap.direction is Outgoing && swap.state is Pending
            && swap.claim_tx_id is Some,
    }
}

/// Whether `picked` lists, in rising order, the positions of exactly the
/// swaps that the rescan looks at.
pub open spec fn picks(rescan: Rescan, swaps: Seq<ChainSwap>, picked: Seq<usize>) -> bool {
    &&& forall|k: int|
        0 <= k < picked.len() ==> (#[trigger] picked[k]) < swaps.len() && in_rescan(
            rescan,
            swaps[picked[k] as int]@,
        )
    &&& forall|k: int, l: int| 0 <= k < l < picked.len() ==> picked[k] < picked[l]
    &&& forall|i: int|
        0 <= i < swaps.len() && in_rescan(rescan, (#[trigger] swaps[i])@) ==> picked.contains(
            i as usize,
        )
}

/// Decides whether a rescan looks at a swap.
pub fn is_in_rescan(rescan: Rescan, swap: &ChainSwap) -> (res: bool)
    ensures
        res == in_rescan(rescan, swap@),
{
    match rescan {
        Rescan::IncomingUserLockup => swap.direction == Direction::Incoming,
        Rescan::IncomingServerLockup => swap.direction == Direction::Incoming && swap.state
            == PaymentState::Pending && swap.claim_tx_id.is_none(),
        Rescan::OutgoingClaim => swap.direction == Direction::Outgoing && swap.state
            == PaymentState::Pending && swap.claim_tx_id.is_some(),
    }
}

/// Lists the positions of the swaps that a rescan looks at.
pub fn select_for_rescan(rescan: Rescan, swaps: &Vec<ChainSwap>) -> (picked: Vec<usize>)
    ensures
        picks(rescan, swaps@, picked@),
{
    let mut picked: Vec<usize> = Vec::new();
    let mut i: usize = 0;
    while i < swaps.len()
        invariant
            i <= swaps.len(),
            forall|k: int|
                0 <= k < picked.len() ==> (#[trigger] picked[k]) < i && in_rescan(
                    rescan,
                    swaps[picked[k] as int]@,
                ),
            forall|k: int, l: int| 0 <= k < l < picked.len() ==> picked[k] < picked[l],
            forall|j: int|
                0 <= j < i && in_rescan(rescan, (#[trigger] swaps[j])@) ==> picked@.contains(
                    j as usize,
                ),
        decreases swaps.len() - i,
    {
        if is_in_rescan(rescan, &swaps[i]) {
            let ghost before = picked@;
            picked.push(i);
            proof {
                assert(picked@[before.len() as int] == i);
                assert forall|j: int|
                    0 <= j < i + 1 && in_rescan(rescan, (#[trigger] swaps[j])@) implies picked@.contains(
                    j as usize,
                ) by {
                    if j < i {
                        let k = choose|k: int| 0 <= k < before.len() && before[k] == j as usize;
                        assert(picked@[k] == j as usize);
                    }
                }
            }
        }
        i += 1;
    }
    picked
}

/// The incoming swaps, whose user lockups the Bitcoin rescan looks at.
pub fn rescan_incoming_user_lockup_txs(swaps: &Vec<ChainSwap>) -> (picked: Vec<usize>)
    ensures
        picks(Rescan::IncomingUserLockup, swaps@, picked@),
{
    select_for_rescan(Rescan::IncomingUserLockup, swaps)
}

/// The pending incoming swaps without a claim, whose server lockups the
/// Liquid rescan looks at.
pub fn rescan_incoming_server_lockup_txs(swaps: &Vec<ChainSwap>) -> (picked: Vec<usize>)
    ensures
        picks(Rescan::IncomingServerLockup, swaps@, picked@),
{
    select_for_rescan(Rescan::IncomingServerLockup, swaps)
}

/// The pending outgoing swaps with a claim, whose claims the Bitcoin
/// rescan looks at.
pub fn rescan_outgoing_claim_txs(swaps: &Vec<ChainSwap>) -> (picked: Vec<usize>)
    ensures
        picks(Rescan::OutgoingClaim, swaps@, picked@),
{
    select_for_rescan(Rescan::OutgoingClaim, swaps)
}

/// Whether the balance of an incoming swap's lockup script is worth
/// asking for: the swap is past its timeout and still within the
/// monitoring period, or a refund of it is under way.
pub open spec fn user_lockup_monitored(
    swap: ChainSwapView,
    current_height: u32,
    monitoring_period: u32,
    ignore_monitoring_block_height: bool,
) -> bool {
    let expired = current_height > swap.timeout_block_height;
    let monitoring_expired = !ignore_monitoring_block_height && current_height
        > swap.timeout_block_height + monitoring_period;
    (expired && !monitoring_expired) || swap.state is RefundPending
}

/// Decides whether to ask for the balance of an incoming swap's lockup
/// script. A swap whose lockup script is not a Bitcoin script is an error
/// where the balance would be asked for.
pub fn begin_user_lockup_rescan(
    swap: &ChainSwap,
    current_height: u32,
    monitoring_period: u32,
    ignore_monitoring_block_height: bool,
) -> (res: Result<bool, PaymentError>)
    ensures
        res == (if !user_lockup_monitored(
            swap@,
            current_height,
            monitoring_period,
            ignore_monitoring_block_height,
        ) {
            Ok::<bool, PaymentError>(false)
        } else if swap.lockup_script.chain is Bitcoin {
            Ok::<bool, PaymentError>(true)
        } else {
            Err::<bool, PaymentError>(PaymentError::UnexpectedScript)
        }),
{
    let timeout: u64 = swap.timeout_block_height as u64;
    let period: u64 = monitoring_period as u64;
    let height: u64 = current_height as u64;
    let is_swap_expired = height > timeout;
    let is_monitoring_expired = !ignore_monitoring_block_height && height > timeout + period;
    if (is_swap_expired && !is_monitoring_expired) || swap.state == PaymentState::RefundPending {
        match swap.lockup_script.chain {
            Chain::Bitcoin => Ok(true),
            Chain::Liquid => Err(PaymentError::UnexpectedScript),
        }
    } else {
        Ok(false)
    }
}

/// The state that the balance of the lockup script moves an incoming swap
/// to, if any. Confirmed funds with nothing in flight make the swap
/// refundable. An empty script means the funds were spent: by the claim,
/// if there is one, and the swap is complete; or else the swap failed.
pub open spec fn user_lockup_rescan_target(
    state: PaymentState,
    has_claim: bool,
    balance: ScriptBalance,
) -> Option<PaymentState> {
    if balance.confirmed > 0 && balance.unconfirmed == 0 && !(state is Refundable) {
        Some(PaymentState::Refundable)
    } else if balance.confirmed == 0 {
        let to_state = if has_claim {
            PaymentState::Complete
        } else {
            PaymentState::Failed
        };
        if to_state != state {
            Some(to_state)
        } else {
            None
        }
    } else {
        None
    }
}

/// Decides which state, if any, an incoming swap moves to for the balance
/// found on its lockup script.
pub fn rescan_incoming_chain_swap_user_lockup_tx(swap: &ChainSwap, balance: ScriptBalance) -> (res:
    Option<PaymentState>)
    ensures
        res == user_lockup_rescan_target(swap.state, swap.claim_tx_id is Some, balance),
{
    if balance.confirmed > 0 && balance.unconfirmed == 0 && swap.state != PaymentState::Refundable {
        Some(PaymentState::Refundable)
    } else if balance.confirmed == 0 {
        let to_state = if swap.claim_tx_id.is_some() {
            PaymentState::Complete
        } else {
            PaymentState::Failed
        };
        if to_state != swap.state {
            Some(to_state)
        } else {
            None
        }
    } else {
        None
    }
}

/// The rescan of user lockups makes a swap refundable exactly on confirmed
/// funds with nothing in flight, unless it is refundable already; complete
/// exactly on an empty script with a claim on record, unless it is
/// complete already; failed exactly on an empty script without a claim,
/// unless it has failed already.
pub proof fn lemma_user_lockup_rescan_targets(
    state: PaymentState,
    has_claim: bool,
    balance: ScriptBalance,
)
    ensures
        user_lockup_rescan_target(state, has_claim, balance) == Some(PaymentState::Refundable) <==> (
        balance.confirmed > 0 && balance.unconfirmed == 0 && !(state is Refundable)),
        user_lockup_rescan_target(state, has_claim, balance) == Some(PaymentState::Complete) <==> (
        balance.confirmed == 0 && has_claim && !(state is Complete)),
        user_lockup_rescan_target(state, has_claim, balance) == Some(PaymentState::Failed) <==> (
        balance.confirmed == 0 && !has_claim && !(state is Failed)),
        user_lockup_rescan_target(state, has_claim, balance) matches Some(to) ==> to is Refundable
            || to is Complete || to is Failed,
{
}

/// The height at which the first entry for `txid` stands in a history.
pub open spec fn height_in_history(history: Seq<HistoryEntry>, txid: Seq<char>) -> Option<i32>
    decreases history.len(),
{
    if history.len() == 0 {
        None
    } else if history[0].txid@ == txid {
        Some(history[0].height)
    } else {
        height_in_history(history.skip(1), txid)
    }
}

/// Looks up the height of a transaction in a script's history.
pub fn find_height(history: &Vec<HistoryEntry>, txid: &String) -> (res: Option<i32>)
    ensures
        res == height_in_history(history@, txid@),
{
    let mut i: usize = 0;
    assert(history@.skip(0) =~= history@);
    while i < history.len()
        invariant
            i <= history.len(),
            height_in_history(history@, txid@) == height_in_history(history@.skip(i as int), txid@),
        decreases history.len() - i,
    {
        let ghost rest = history@.skip(i as int);
        assert(rest[0] == history@[i as int]);
        assert(rest.skip(1) =~= history@.skip(i + 1));
        if history[i].txid == *txid {
            return Some(history[i].height);
        }
        i += 1;
    }
    assert(history@.skip(i as int).len() == 0);
    None
}

/// Decides whether the Liquid rescan has anything to ask for a swap: not
/// before the swap service's lockup is on record. The claim script must
/// be a Liquid script.
pub fn begin_server_lockup_rescan(swap: &ChainSwap) -> (res: Result<bool, PaymentError>)
    ensures
        res == (if swap.server_lockup_tx_id is None {
            Ok::<bool, PaymentError>(false)
        } else if swap.claim_script.chain is Liquid {
            Ok::<bool, PaymentError>(true)
        } else {
            Err::<bool, PaymentError>(PaymentError::UnexpectedScript)
        }),
{
    if swap.server_lockup_tx_id.is_none() {
        return Ok(false);
    }
    match swap.claim_script.chain {
        Chain::Liquid => Ok(true),
        Chain::Bitcoin => Err(PaymentError::UnexpectedScript),
    }
}

/// What the history of the claim script says of the swap service's
/// lockup: whether to claim now.
pub open spec fn server_lockup_rescan_verdict(
    server_lockup_tx_id: Option<Seq<char>>,
    history: Seq<HistoryEntry>,
) -> Result<bool, PaymentError> {
    match server_lockup_tx_id {
        None => Ok(false),
        Some(txid) => match height_in_history(history, txid) {
            None => Err(PaymentError::ServerLockupNotFound),
            Some(height) => Ok(height > 0),
        },
    }
}

/// Decides from the history of the claim script whether the swap
/// service's lockup is confirmed, so that the swap is to be claimed.
pub fn rescan_incoming_chain_swap_server_lockup_tx(
    swap: &ChainSwap,
    history: &Vec<HistoryEntry>,
) -> (res: Result<bool, PaymentError>)
    ensures
        res == server_lockup_rescan_verdict(opt_view(swap.server_lockup_tx_id), history@),
{
    match &swap.server_lockup_tx_id {
        None => Ok(false),
        Some(txid) => match find_height(history, txid) {
            None => Err(PaymentError::ServerLockupNotFound),
            Some(height) => Ok(height > 0),
        },
    }
}

/// The script that `Address::from_str` of the bitcoin crate, followed by
/// `assume_checked` and `script_pubkey`, gives for an address; nothing
/// where the address does not parse.
pub uninterp spec fn bitcoin_address_script(address: Seq<char>) -> Option<Seq<u8>>;

/// Parses a Bitcoin address with `Address::from_str` of the bitcoin crate,
/// for whichever network, and hands back the bytes of its
/// `script_pubkey`. The result is named, not described.
#[verifier::external_body]
fn bitcoin_address_script_pubkey(address: &str) -> (res: Option<Vec<u8>>)
    ensures
        res matches Some(script) ==> bitcoin_address_script(address@) == Some(script@),
        res is None ==> bitcoin_address_script(address@) is None,
{
    match lwk_wollet::bitcoin::Address::from_str(address) {
        Ok(parsed) => Some(parsed.assume_checked().script_pubkey().into_bytes()),
        Err(_) => None,
    }
}

/// Which script the rescan of an outgoing claim asks the Bitcoin backend
/// about, given what the claim address parses to.
pub open spec fn outgoing_claim_script(
    claim_address: Option<Seq<char>>,
    has_claim: bool,
    parsed: Option<Seq<u8>>,
) -> Result<Option<Seq<u8>>, PaymentError> {
    if claim_address is None {
        Ok(None)
    } else if parsed is None {
        Err(PaymentError::InvalidAddress)
    } else if !has_claim {
        Err(PaymentError::MissingClaimTxId)
    } else {
        Ok(parsed)
    }
}

/// The view of a script to ask about, of none, or of an error.
pub open spec fn opt_bytes_view(res: Result<Option<Vec<u8>>, PaymentError>) -> Result<
    Option<Seq<u8>>,
    PaymentError,
> {
    match res {
        Ok(Some(script)) => Ok(Some(script@)),
        Ok(None) => Ok(None),
        Err(e) => Err(e),
    }
}

/// Settles which script to ask about from the parsed claim address.
pub fn claim_script_for_rescan(swap: &ChainSwap, parsed: Option<Vec<u8>>) -> (res: Result<
    Option<Vec<u8>>,
    PaymentError,
>)
    ensures
        opt_bytes_view(res) == outgoing_claim_script(
            opt_view(swap.claim_address),
            swap.claim_tx_id is Some,
            match parsed {
                Some(script) => Some(script@),
                None => None,
            },
        ),
{
    if swap.claim_address.is_none() {
        return Ok(None);
    }
    match parsed {
        None => Err(PaymentError::InvalidAddress),
        Some(script) => {
            if swap.claim_tx_id.is_none() {
                Err(PaymentError::MissingClaimTxId)
            } else {
                Ok(Some(script))
            }
        },
    }
}

/// Decides which script the rescan of an outgoing claim asks the Bitcoin
/// backend about: that of the claim address, which must parse. A swap
/// without a claim address is passed over.
pub fn begin_outgoing_claim_rescan(swap: &ChainSwap) -> (res: Result<Option<Vec<u8>>, PaymentError>)
    ensures
        opt_bytes_view(res) == outgoing_claim_script(
            opt_view(swap.claim_address),
            swap.claim_tx_id is Some,
            match swap.claim_address {
                Some(address) => bitcoin_address_script(address@),
                None => None,
            },
        ),
{
    match &swap.claim_address {
        None => Ok(None),
        Some(address) => {
            let parsed = bitcoin_address_script_pubkey(address.as_str());
            claim_script_for_rescan(swap, parsed)
        },
    }
}

/// Whether a history shows a transaction as confirmed.
pub open spec fn confirmed_in_history(history: Seq<HistoryEntry>, txid: Seq<char>) -> bool {
    exists|i: int|
        0 <= i < history.len() && (#[trigger] history[i]).txid@ == txid && history[i].height > 0
}

/// Decides from the history of the claim address whether an outgoing
/// swap's claim is confirmed, so that the swap is to be completed.
pub fn rescan_outgoing_chain_swap_claim_tx(swap: &ChainSwap, history: &Vec<HistoryEntry>) -> (res:
    bool)
    ensures
        res == match opt_view(swap.claim_tx_id) {
            Some(txid) => confirmed_in_history(history@, txid),
            None => false,
        },
{
    match &swap.claim_tx_id {
        None => false,
        Some(txid) => {
            let mut i: usize = 0;
            while i < history.len()
                invariant
                    i <= history.len(),
                    opt_view(swap.claim_tx_id) == Some(txid@),
                    forall|j: int|
                        0 <= j < i ==> !((#[trigger] history@[j]).txid@ == txid@ && history@[j].height
                            > 0),
                decreases history.len() - i,
            {
                if history[i].txid == *txid && history[i].height > 0 {
                    assert(history@[i as int].txid@ == txid@ && history@[i as int].height > 0);
                    return true;
                }
                i += 1;
            }
            false
        },
    }
}

} // verus!
