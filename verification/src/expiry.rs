//! Whether a swap has outlived its lock time.

use vstd::prelude::*;

use crate::error::PaymentError;
use crate::model::{Chain, ChainSwap, ChainSwapView, Direction};

verus! {

/// Lock times below this value count blocks, the others count seconds.
pub const LOCK_TIME_THRESHOLD: u32 = 500_000_000;

/// A swap younger than this many seconds is never held to be expired.
pub const MIN_SWAP_AGE_SECS: u64 = 600;

/// Whether two lock times are both heights or both times.
pub open spec fn same_unit(a: u32, b: u32) -> bool {
    (a < LOCK_TIME_THRESHOLD) == (b < LOCK_TIME_THRESHOLD)
}

/// Calls `absolute::LockTime::from_height` of the bitcoin crate and hands
/// back the consensus value of the lock time made. The claim made of it,
/// after its source: a height below 500,000,000 is kept as it is, any
/// other is refused.
#[verifier::external_body]
fn bitcoin_locktime_from_height(height: u32) -> (res: Option<u32>)
    ensures
        res == (if height < LOCK_TIME_THRESHOLD {
            Some(height)
        } else {
            None
        }),
{
    match lwk_wollet::bitcoin::absolute::LockTime::from_height(height) {
        Ok(locktime) => Some(locktime.to_consensus_u32()),
        Err(_) => None,
    }
}

/// Calls `absolute::LockTime::is_implied_by` of the bitcoin crate on two
/// lock times given by their consensus values. The claim made of it,
/// after its source: true exactly when both are of one unit and the first
/// is not after the second.
#[verifier::external_body]
fn bitcoin_locktime_is_implied_by(locktime: u32, other: u32) -> (res: bool)
    ensures
        res == (same_unit(locktime, other) && locktime <= other),
{
    let this = lwk_wollet::bitcoin::absolute::LockTime::from_consensus(locktime);
    this.is_implied_by(lwk_wollet::bitcoin::absolute::LockTime::from_consensus(other))
}

/// Calls `LockTime::from_height` of the elements crate and hands back the
/// consensus value of the lock time made. The claim made of it, after its
/// source: a height below 500,000,000 is kept as it is, any other is
/// refused.
#[verifier::external_body]
fn elements_locktime_from_height(height: u32) -> (res: Option<u32>)
    ensures
        res == (if height < LOCK_TIME_THRESHOLD {
            Some(height)
        } else {
            None
        }),
{
    match lwk_wollet::elements::LockTime::from_height(height) {
        Ok(locktime) => Some(locktime.to_consensus_u32()),
        Err(_) => None,
    }
}

/// Calls `LockTime::is_block_height` of the elements crate on the lock
/// time with the consensus value given. The claim made of it, after its
/// source: values below 500,000,000 are heights.
#[verifier::external_body]
fn elements_locktime_is_block_height(locktime: u32) -> (res: bool)
    ensures
        res == (locktime < LOCK_TIME_THRESHOLD),
{
    lwk_wollet::elements::LockTime::from_consensus(locktime).is_block_height()
}

/// Whether the lock time `expiry` is reached at the lock time `current`:
/// both are of one unit and `current` is not before `expiry`.
pub open spec fn locktime_expired(current: u32, expiry: u32) -> bool {
    same_unit(current, expiry) && current >= expiry
}

/// Tells whether a Liquid lock time is reached.
pub fn is_locktime_expired(current_locktime: u32, expiry_locktime: u32) -> (res: bool)
    ensures
        res == locktime_expired(current_locktime, expiry_locktime),
{
    let current_is_height = elements_locktime_is_block_height(current_locktime);
    let expiry_is_height = elements_locktime_is_block_height(expiry_locktime);
    current_is_height == expiry_is_height && current_locktime >= expiry_locktime
}

/// What is settled about a swap's expiry before any chain is asked.
#[derive(Clone, Copy, Debug, PartialEq, Eq, Structural)]
pub enum ExpiryQuery {
    /// The swap is too young to have expired.
    TooYoung,
    /// The answer needs the tip of this chain.
    NeedTip(Chain),
}

/// The first part of the expiry check: the age of the swap and the chain
/// of its lockup script. A swap whose creation lies after the present is
/// younger than any age asked for.
pub open spec fn expiry_query(swap: ChainSwapView, now_secs: u64) -> Result<
    ExpiryQuery,
    PaymentError,
> {
    if now_secs - swap.created_at < MIN_SWAP_AGE_SECS {
        Ok(ExpiryQuery::TooYoung)
    } else {
        match swap.direction {
            Direction::Incoming => if swap.lockup_script.chain is Bitcoin {
                Ok(ExpiryQuery::NeedTip(Chain::Bitcoin))
            } else {
                Err(PaymentError::UnexpectedScript)
            },
            Direction::Outgoing => if swap.lockup_script.chain is Liquid {
                Ok(ExpiryQuery::NeedTip(Chain::Liquid))
            } else {
                Err(PaymentError::UnexpectedScript)
            },
        }
    }
}

/// Whether the swap has expired at the time and chain tip given: it is at
/// least ten minutes old, and the lock time of its lockup script is
/// reached at the tip of the chain the script is on.
pub open spec fn swap_expired(swap: ChainSwapView, now_secs: u64, tip_height: u32) -> Result<
    bool,
    PaymentError,
> {
    match expiry_query(swap, now_secs) {
        Err(e) => Err(e),
        Ok(ExpiryQuery::TooYoung) => Ok(false),
        Ok(ExpiryQuery::NeedTip(_)) => if tip_height >= LOCK_TIME_THRESHOLD {
            Err(PaymentError::InvalidHeight)
        } else {
            Ok(
                same_unit(swap.lockup_script.locktime, tip_height) && swap.lockup_script.locktime
                    <= tip_height,
            )
        },
    }
}

/// Decides whether the expiry of a swap can be settled from its age alone,
/// and if not, which chain's tip is needed.
pub fn begin_swap_expiry_check(swap: &ChainSwap, now_secs: u64) -> (res: Result<
    ExpiryQuery,
    PaymentError,
>)
    ensures
        res == expiry_query(swap@, now_secs),
{
    let created_at: u64 = swap.created_at as u64;
    if now_secs < created_at || now_secs - created_at < MIN_SWAP_AGE_SECS {
        return Ok(ExpiryQuery::TooYoung);
    }
    match (swap.direction, swap.lockup_script.chain) {
        (Direction::Incoming, Chain::Bitcoin) => Ok(ExpiryQuery::NeedTip(Chain::Bitcoin)),
        (Direction::Outgoing, Chain::Liquid) => Ok(ExpiryQuery::NeedTip(Chain::Liquid)),
        _ => Err(PaymentError::UnexpectedScript),
    }
}

/// Tells whether a swap has expired, given the present time in seconds
/// since the epoch and the tip of the chain its lockup script is on.
pub fn check_swap_expiry(swap: &ChainSwap, now_secs: u64, tip_height: u32) -> (res: Result<
    bool,
    PaymentError,
>)
    ensures
        res == swap_expired(swap@, now_secs, tip_height),
        now_secs - swap.created_at < MIN_SWAP_AGE_SECS ==> res == Ok::<bool, PaymentError>(false),
{
    match begin_swap_expiry_check(swap, now_secs) {
        Err(e) => Err(e),
        Ok(ExpiryQuery::TooYoung) => Ok(false),
        Ok(ExpiryQuery::NeedTip(Chain::Bitcoin)) => {
            match bitcoin_locktime_from_height(tip_height) {
                None => Err(PaymentError::InvalidHeight),
                Some(tip) => Ok(bitcoin_locktime_is_implied_by(swap.lockup_script.locktime, tip)),
            }
        },
        Ok(ExpiryQuery::NeedTip(Chain::Liquid)) => {
            match elements_locktime_from_height(tip_height) {
                None => Err(PaymentError::InvalidHeight),
                Some(tip) => Ok(is_locktime_expired(tip, swap.lockup_script.locktime)),
            }
        },
    }
}

/// A swap younger than ten minutes has not expired, whatever its lock
/// time and the chain tip, and no chain is asked for its tip.
pub proof fn lemma_young_swap_not_expired(swap: ChainSwapView, now_secs: u64, tip_height: u32)
    requires
        now_secs - swap.created_at < MIN_SWAP_AGE_SECS,
    ensures
        swap_expired(swap, now_secs, tip_height) == Ok::<bool, PaymentError>(false),
        expiry_query(swap, now_secs) == Ok::<ExpiryQuery, PaymentError>(ExpiryQuery::TooYoung),
{
}

/// A swap held to be expired is at least ten minutes old and its lock
/// time is reached.
pub proof fn lemma_expired_swap_is_old_and_unlocked(
    swap: ChainSwapView,
    now_secs: u64,
    tip_height: u32,
)
    requires
        swap_expired(swap, now_secs, tip_height) == Ok::<bool, PaymentError>(true),
    ensures
        now_secs - swap.created_at >= MIN_SWAP_AGE_SECS,
        swap.lockup_script.locktime <= tip_height,
{
}

} // verus!
