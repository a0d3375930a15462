//! The background task's timetable: which rescans run when a timer fires.

use vstd::prelude::*;

use crate::rescan::Rescan;

verus! {

/// Seconds between two rescans of the Bitcoin side.
pub const BITCOIN_RESCAN_INTERVAL_SECS: u64 = 600;

/// Seconds between two rescans of the Liquid side.
pub const LIQUID_RESCAN_INTERVAL_SECS: u64 = 60;

/// How many payment updates the subscription bus holds for a subscriber
/// that lags behind.
pub const SUBSCRIPTION_CAPACITY: usize = 30;

/// The size assumed for a Bitcoin claim transaction, in virtual bytes.
pub const ESTIMATED_BTC_CLAIM_TX_VSIZE: u64 = 111;

/// What wakes the background task.
#[derive(Clone, Copy, Debug, PartialEq, Eq, Structural)]
pub enum Wakeup {
    /// The Bitcoin timer fired.
    BitcoinTick,
    /// The Liquid timer fired.
    LiquidTick,
    /// The shutdown signal changed.
    Shutdown,
}

/// The rescans to run on a wakeup, in order; none at all means that the
/// task ends.
pub open spec fn rescans_due(wakeup: Wakeup) -> Option<Seq<Rescan>> {
    match wakeup {
        Wakeup::BitcoinTick => Some(seq![Rescan::IncomingUserLockup, Rescan::OutgoingClaim]),
        Wakeup::LiquidTick => Some(seq![Rescan::IncomingServerLockup]),
        Wakeup::Shutdown => None,
    }
}

/// Tells the background task what to do on a wakeup: the rescans to run,
/// each of whose failures is noted without holding up the next, or to end.
pub fn on_wakeup(wakeup: Wakeup) -> (res: Option<Vec<Rescan>>)
    ensures
        match res {
            Some(rescans) => rescans_due(wakeup) == Some(rescans@),
            None => rescans_due(wakeup) is None,
        },
{
    match wakeup {
        Wakeup::BitcoinTick => {
            let mut rescans: Vec<Rescan> = Vec::new();
            rescans.push(Rescan::IncomingUserLockup);
            rescans.push(Rescan::OutgoingClaim);
            assert(rescans@ =~= seq![Rescan::IncomingUserLockup, Rescan::OutgoingClaim]);
            Some(rescans)
        },
        Wakeup::LiquidTick => {
            let mut rescans: Vec<Rescan> = Vec::new();
            rescans.push(Rescan::IncomingServerLockup);
            assert(rescans@ =~= seq![Rescan::IncomingServerLockup]);
            Some(rescans)
        },
        Wakeup::Shutdown => None,
    }
}

/// Whether the user-lockup rescan that a timer starts still looks at swaps
/// past their monitoring period: it does not.
pub const IGNORE_MONITORING_ON_TICK: bool = false;

} // verus!
