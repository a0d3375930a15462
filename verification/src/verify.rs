//! Checks on the lockup transactions of both parties: replace-by-fee
//! signalling and locked amount for the swap service's transaction,
//! presence in the script's history for the user's.

use vstd::prelude::*;

use crate::error::PaymentError;
use crate::model::{Chain, ChainSwap, Direction, HistoryEntry, LockupTx, TxOutput};

verus! {

/// The lowest sequence number that does not opt in to replace-by-fee.
pub const MIN_NO_RBF_SEQUENCE: u32 = 0xFFFF_FFFE;

/// Calls `Sequence::is_rbf` of the bitcoin crate on the sequence number
/// given. The claim made of it, after its source: the input opts in to
/// replacement exactly when its sequence number is below `0xFFFFFFFE`.
#[verifier::external_body]
fn bitcoin_sequence_is_rbf(sequence: u32) -> (res: bool)
    ensures
        res == (sequence < MIN_NO_RBF_SEQUENCE),
{
    lwk_wollet::bitcoin::Sequence(sequence).is_rbf()
}

/// Calls `Sequence::is_rbf` of the elements crate on the sequence number
/// given. The claim made of it, after its source: the input opts in to
/// replacement exactly when its sequence number is below `0xFFFFFFFE`.
#[verifier::external_body]
fn elements_sequence_is_rbf(sequence: u32) -> (res: bool)
    ensures
        res == (sequence < MIN_NO_RBF_SEQUENCE),
{
    lwk_wollet::elements::Sequence(sequence).is_rbf()
}

/// Whether any input of a transaction opts in to replace-by-fee.
pub open spec fn signals_rbf(sequences: Seq<u32>) -> bool {
    exists|i: int| 0 <= i < sequences.len() && sequences[i] < MIN_NO_RBF_SEQUENCE
}

/// Whether the output pays to the script given.
pub open spec fn pays_to(output: TxOutput, script_pubkey: Seq<u8>) -> bool {
    output.script_pubkey@ == script_pubkey
}

/// Whether an output that pays to the script hides its value.
pub open spec fn has_unreadable_output(outputs: Seq<TxOutput>, script_pubkey: Seq<u8>) -> bool {
    exists|i: int|
        0 <= i < outputs.len() && pays_to(#[trigger] outputs[i], script_pubkey)
            && outputs[i].value is None
}

/// The sum of the values of the outputs that pay to the script given.
pub open spec fn locked_value(outputs: Seq<TxOutput>, script_pubkey: Seq<u8>) -> nat
    decreases outputs.len(),
{
    if outputs.len() == 0 {
        0
    } else {
        let last = outputs.last();
        let rest = locked_value(outputs.drop_last(), script_pubkey);
        if pays_to(last, script_pubkey) && last.value is Some {
            rest + last.value->0 as nat
        } else {
            rest
        }
    }
}

/// The chain on which the swap service locks its funds.
pub open spec fn server_lockup_chain(direction: Direction) -> Chain {
    match direction {
        Direction::Incoming => Chain::Liquid,
        Direction::Outgoing => Chain::Bitcoin,
    }
}

/// The chain on which the user locks funds.
pub open spec fn user_lockup_chain(direction: Direction) -> Chain {
    match direction {
        Direction::Incoming => Chain::Bitcoin,
        Direction::Outgoing => Chain::Liquid,
    }
}

/// What the check of a lockup transaction of the swap service yields, on
/// the chain given: the claim script must be of that chain, no input may
/// signal replace-by-fee unless a confirmation was asked for, every output
/// to the claim script must show its value, and these values must add up
/// to the amount agreed or more.
pub open spec fn lockup_verdict(
    chain: Chain,
    claim_chain: Chain,
    claim_script_pubkey: Seq<u8>,
    claim_amount_sat: u64,
    sequences: Seq<u32>,
    outputs: Seq<TxOutput>,
    verify_confirmation: bool,
) -> Result<(), PaymentError> {
    if claim_chain != chain {
        Err(PaymentError::UnexpectedScript)
    } else if !verify_confirmation && signals_rbf(sequences) {
        Err(PaymentError::SignalsRbf)
    } else if has_unreadable_output(outputs, claim_script_pubkey) {
        Err(PaymentError::UnblindFailed)
    } else if locked_value(outputs, claim_script_pubkey) < claim_amount_sat {
        Err(
            PaymentError::AmountTooLow {
                value: locked_value(outputs, claim_script_pubkey) as u64,
                expected: claim_amount_sat,
            },
        )
    } else {
        Ok(())
    }
}

/// What the check of the swap service's lockup transaction yields, on the
/// chain that the direction of the swap puts it on.
pub open spec fn server_lockup_verdict(
    direction: Direction,
    claim_chain: Chain,
    claim_script_pubkey: Seq<u8>,
    claim_amount_sat: u64,
    sequences: Seq<u32>,
    outputs: Seq<TxOutput>,
    verify_confirmation: bool,
) -> Result<(), PaymentError> {
    lockup_verdict(
        server_lockup_chain(direction),
        claim_chain,
        claim_script_pubkey,
        claim_amount_sat,
        sequences,
        outputs,
        verify_confirmation,
    )
}

/// Compares two byte strings.
pub fn bytes_eq(a: &Vec<u8>, b: &Vec<u8>) -> (res: bool)
    ensures
        res == (a@ == b@),
{
    if a.len() != b.len() {
        return false;
    }
    let mut i: usize = 0;
    while i < a.len()
        invariant
            i <= a.len(),
            a.len() == b.len(),
            forall|j: int| 0 <= j < i ==> a@[j] == b@[j],
        decreases a.len() - i,
    {
        if a[i] != b[i] {
            return false;
        }
        i += 1;
    }
    assert(a@ =~= b@);
    true
}

/// Tells whether any input opts in to replace-by-fee, by the rule of the
/// chain the transaction is on.
pub fn any_input_signals_rbf(chain: Chain, sequences: &Vec<u32>) -> (res: bool)
    ensures
        res == signals_rbf(sequences@),
{
    let mut i: usize = 0;
    while i < sequences.len()
        invariant
            i <= sequences.len(),
            forall|j: int| 0 <= j < i ==> sequences@[j] >= MIN_NO_RBF_SEQUENCE,
        decreases sequences.len() - i,
    {
        let rbf = match chain {
            Chain::Bitcoin => bitcoin_sequence_is_rbf(sequences[i]),
            Chain::Liquid => elements_sequence_is_rbf(sequences[i]),
        };
        if rbf {
            return true;
        }
        i += 1;
    }
    false
}

proof fn lemma_locked_value_bound(outputs: Seq<TxOutput>, script_pubkey: Seq<u8>)
    ensures
        locked_value(outputs, script_pubkey) <= outputs.len() * u64::MAX,
    decreases outputs.len(),
{
    if outputs.len() > 0 {
        lemma_locked_value_bound(outputs.drop_last(), script_pubkey);
        assert((outputs.len() - 1) * u64::MAX + u64::MAX == outputs.len() * u64::MAX)
            by (nonlinear_arith);
    }
}

/// Adds up what the outputs pay to the script. Fails on the first output
/// to the script whose value cannot be read.
pub fn sum_locked_value(outputs: &Vec<TxOutput>, script_pubkey: &Vec<u8>) -> (res: Option<u128>)
    ensures
        res is None <==> has_unreadable_output(outputs@, script_pubkey@),
        res matches Some(v) ==> v == locked_value(outputs@, script_pubkey@),
{
    let mut total: u128 = 0;
    let mut i: usize = 0;
    while i < outputs.len()
        invariant
            i <= outputs.len(),
            total == locked_value(outputs@.take(i as int), script_pubkey@),
            !has_unreadable_output(outputs@.take(i as int), script_pubkey@),
        decreases outputs.len() - i,
    {
        let ghost before = outputs@.take(i as int);
        let ghost after = outputs@.take(i + 1);
        proof {
            assert(after.drop_last() =~= before);
            assert(after.last() == outputs@[i as int]);
            lemma_locked_value_bound(after, script_pubkey@);
            assert(after.len() * u64::MAX <= usize::MAX * u64::MAX) by (nonlinear_arith)
                requires
                    after.len() <= usize::MAX,
            ;
            assert(usize::MAX * u64::MAX <= u64::MAX * u64::MAX) by (nonlinear_arith)
                requires
                    usize::MAX <= u64::MAX,
            ;
            assert(u64::MAX * u64::MAX < u128::MAX) by (nonlinear_arith);
        }
        if bytes_eq(&outputs[i].script_pubkey, script_pubkey) {
            match outputs[i].value {
                Some(v) => {
                    total = total + v as u128;
                },
                None => {
                    assert(pays_to(outputs@[i as int], script_pubkey@));
                    return None;
                },
            }
        }
        proof {
            assert forall|j: int|
                0 <= j < after.len() && pays_to(#[trigger] after[j], script_pubkey@) implies after[j].value is Some by {
                if j < i {
                    assert(after[j] == before[j]);
                }
            }
        }
        i += 1;
    }
    assert(outputs@.take(i as int) =~= outputs@);
    Some(total)
}

fn verify_lockup(chain: Chain, swap: &ChainSwap, tx: &LockupTx, verify_confirmation: bool) -> (res:
    Result<(), PaymentError>)
    ensures
        res == lockup_verdict(
            chain,
            swap.claim_script.chain,
            swap.claim_script.script_pubkey@,
            swap.claim_amount_sat,
            tx.sequences@,
            tx.outputs@,
            verify_confirmation,
        ),
{
    if swap.claim_script.chain != chain {
        return Err(PaymentError::UnexpectedScript);
    }
    if !verify_confirmation && any_input_signals_rbf(chain, &tx.sequences) {
        return Err(PaymentError::SignalsRbf);
    }
    match sum_locked_value(&tx.outputs, &swap.claim_script.script_pubkey) {
        None => Err(PaymentError::UnblindFailed),
        Some(value) => {
            if value < swap.claim_amount_sat as u128 {
                Err(
                    PaymentError::AmountTooLow {
                        value: value as u64,
                        expected: swap.claim_amount_sat,
                    },
                )
            } else {
                Ok(())
            }
        },
    }
}

/// Checks the Liquid transaction that the swap service locked for an
/// incoming swap, once the Liquid backend has located it, matched it to
/// the bytes announced and seen that it pays to the claim script's
/// address. Without a confirmation no input may signal replace-by-fee;
/// each output to the claim script must have unblinded; and their values
/// must add up to the amount agreed or more.
pub fn verify_incoming_server_lockup_tx(
    chain_swap: &ChainSwap,
    tx: &LockupTx,
    verify_confirmation: bool,
) -> (res: Result<(), PaymentError>)
    ensures
        res == lockup_verdict(
            Chain::Liquid,
            chain_swap.claim_script.chain,
            chain_swap.claim_script.script_pubkey@,
            chain_swap.claim_amount_sat,
            tx.sequences@,
            tx.outputs@,
            verify_confirmation,
        ),
{
    verify_lockup(Chain::Liquid, chain_swap, tx, verify_confirmation)
}

/// Checks the Bitcoin transaction that the swap service locked for an
/// outgoing swap, once the Bitcoin backend has located it, matched it to
/// the bytes announced and seen that it pays to the claim script's
/// address. Without a confirmation no input may signal replace-by-fee;
/// and the outputs to the claim script must add up to the amount agreed
/// or more.
pub fn verify_outgoing_server_lockup_tx(
    chain_swap: &ChainSwap,
    tx: &LockupTx,
    verify_confirmation: bool,
) -> (res: Result<(), PaymentError>)
    ensures
        res == lockup_verdict(
            Chain::Bitcoin,
            chain_swap.claim_script.chain,
            chain_swap.claim_script.script_pubkey@,
            chain_swap.claim_amount_sat,
            tx.sequences@,
            tx.outputs@,
            verify_confirmation,
        ),
{
    verify_lockup(Chain::Bitcoin, chain_swap, tx, verify_confirmation)
}

/// Checks the swap service's lockup transaction by the rules of the chain
/// it is on: Liquid for an incoming swap, Bitcoin for an outgoing one.
pub fn verify_server_lockup_tx(chain_swap: &ChainSwap, tx: &LockupTx, verify_confirmation: bool) -> (res:
    Result<(), PaymentError>)
    ensures
        res == server_lockup_verdict(
            chain_swap.direction,
            chain_swap.claim_script.chain,
            chain_swap.claim_script.script_pubkey@,
            chain_swap.claim_amount_sat,
            tx.sequences@,
            tx.outputs@,
            verify_confirmation,
        ),
{
    match chain_swap.direction {
        Direction::Incoming => verify_incoming_server_lockup_tx(chain_swap, tx, verify_confirmation),
        Direction::Outgoing => verify_outgoing_server_lockup_tx(chain_swap, tx, verify_confirmation),
    }
}

/// An underpaying lockup is refused, and so is an unconfirmed one that
/// can still be replaced.
pub proof fn lemma_server_lockup_rejected(
    direction: Direction,
    claim_chain: Chain,
    claim_script_pubkey: Seq<u8>,
    claim_amount_sat: u64,
    sequences: Seq<u32>,
    outputs: Seq<TxOutput>,
    verify_confirmation: bool,
)
    requires
        locked_value(outputs, claim_script_pubkey) < claim_amount_sat || (!verify_confirmation
            && signals_rbf(sequences)),
    ensures
        server_lockup_verdict(
            direction,
            claim_chain,
            claim_script_pubkey,
            claim_amount_sat,
            sequences,
            outputs,
            verify_confirmation,
        ) is Err,
{
}

/// A lockup on the right chain, with readable outputs that add up to the
/// amount agreed or more, is accepted once it is confirmed or if no input
/// signals replace-by-fee.
pub proof fn lemma_server_lockup_accepted(
    direction: Direction,
    claim_script_pubkey: Seq<u8>,
    claim_amount_sat: u64,
    sequences: Seq<u32>,
    outputs: Seq<TxOutput>,
    verify_confirmation: bool,
)
    requires
        verify_confirmation || !signals_rbf(sequences),
        !has_unreadable_output(outputs, claim_script_pubkey),
        locked_value(outputs, claim_script_pubkey) >= claim_amount_sat,
    ensures
        server_lockup_verdict(
            direction,
            server_lockup_chain(direction),
            claim_script_pubkey,
            claim_amount_sat,
            sequences,
            outputs,
            verify_confirmation,
        ) is Ok,
{
}

/// How often a script's history is asked for before giving up.
pub const SCRIPT_HISTORY_RETRIES: u32 = 5;

/// The user's lockup transaction, and whether it was learnt from the
/// script's history rather than from the record.
#[derive(Clone, Debug, PartialEq, Eq)]
pub struct UserLockup {
    pub txid: String,
    pub adopted: bool,
}

/// Whether a transaction shows in a script's history.
pub open spec fn in_history(history: Seq<HistoryEntry>, txid: Seq<char>) -> bool {
    exists|i: int| 0 <= i < history.len() && (#[trigger] history[i]).txid@ == txid
}

/// What the check of the user's lockup transaction yields: the
/// transaction id, and whether it is new to the record.
pub open spec fn user_lockup_verdict(
    user_lockup_tx_id: Option<Seq<char>>,
    history: Seq<HistoryEntry>,
) -> Result<(Seq<char>, bool), PaymentError> {
    match user_lockup_tx_id {
        Some(txid) => if in_history(history, txid) {
            Ok((txid, false))
        } else {
            Err(PaymentError::LockupNotInHistory)
        },
        None => if history.len() == 0 {
            Err(PaymentError::EmptyHistory)
        } else {
            Ok((history[0].txid@, true))
        },
    }
}

/// The view of a checked user lockup: its transaction id, and whether the id
/// is new to the record.
pub open spec fn user_lockup_view(res: Result<UserLockup, PaymentError>) -> Result<
    (Seq<char>, bool),
    PaymentError,
> {
    match res {
        Ok(lockup) => Ok((lockup.txid@, lockup.adopted)),
        Err(e) => Err(e),
    }
}

/// The chain whose backend holds the history of the user's lockup script.
pub fn user_lockup_history_chain(swap: &ChainSwap) -> (res: Result<Chain, PaymentError>)
    ensures
        res == (if swap.lockup_script.chain == user_lockup_chain(swap.direction) {
            Ok::<Chain, PaymentError>(swap.lockup_script.chain)
        } else {
            Err::<Chain, PaymentError>(PaymentError::UnexpectedScript)
        }),
{
    let chain = match swap.direction {
        Direction::Incoming => Chain::Bitcoin,
        Direction::Outgoing => Chain::Liquid,
    };
    if swap.lockup_script.chain == chain {
        Ok(chain)
    } else {
        Err(PaymentError::UnexpectedScript)
    }
}

/// Looks a transaction up in a script's history.
pub fn history_contains(history: &Vec<HistoryEntry>, txid: &String) -> (res: bool)
    ensures
        res == in_history(history@, txid@),
{
    let mut i: usize = 0;
    while i < history.len()
        invariant
            i <= history.len(),
            forall|j: int| 0 <= j < i ==> (#[trigger] history@[j]).txid@ != txid@,
        decreases history.len() - i,
    {
        if history[i].txid == *txid {
            assert(history@[i as int].txid@ == txid@);
            return true;
        }
        i += 1;
    }
    false
}

/// Checks the user's lockup against the history of the lockup script. A
/// transaction id on record must show there. Where none is on record, the
/// first transaction of the history is taken as the lockup, to be recorded
/// with a move to `Pending`.
pub fn verify_user_lockup_tx(swap: &ChainSwap, history: &Vec<HistoryEntry>) -> (res: Result<
    UserLockup,
    PaymentError,
>)
    ensures
        user_lockup_view(res) == user_lockup_verdict(
            crate::model::opt_view(swap.user_lockup_tx_id),
            history@,
        ),
{
    match &swap.user_lockup_tx_id {
        Some(txid) => {
            if history_contains(history, txid) {
                Ok(UserLockup { txid: txid.clone(), adopted: false })
            } else {
                Err(PaymentError::LockupNotInHistory)
            }
        },
        None => {
            if history.len() == 0 {
                Err(PaymentError::EmptyHistory)
            } else {
                Ok(UserLockup { txid: history[0].txid.clone(), adopted: true })
            }
        },
    }
}

} // verus!
