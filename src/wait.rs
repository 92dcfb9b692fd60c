//! The consumer's wait word: the three states it takes, and the decisions
//! that producers and the consumer make from the value they displace.
use vstd::prelude::*;
use crate::time::Instant;

verus! {

/// The consumer is about to block, or is blocked, on the word.
pub const PARKED: u32 = 0xffff_ffff;
/// The consumer is not parked and no signal is pending.
pub const EMPTY: u32 = 0;
/// A producer signalled since the consumer last reset the word.
pub const NOTIFIED: u32 = 1;

/// What the consumer does after it found nothing ready.
#[derive(Clone, Copy, Debug, PartialEq, Eq, Structural)]
pub enum WaitAction {
    /// A producer signalled meanwhile: look at the store again at once.
    Retry,
    /// Block on the word, until the given instant where one is known.
    Park(Option<Instant>),
}

/// The word after the consumer decrements it.
pub open spec fn armed_word(prior: u32) -> u32 {
    if prior == 0 {
        PARKED
    } else {
        (prior - 1) as u32
    }
}

/// Whether a consumer that displaced `prior` by its decrement goes on to block.
pub open spec fn arm_parks(prior: u32) -> bool {
    prior != NOTIFIED
}

/// Whether a producer that displaced `prior` by storing `NOTIFIED` must wake
/// the consumer.
pub open spec fn notify_wakes(prior: u32) -> bool {
    prior == PARKED
}

/// Whether a producer that swapped `NOTIFIED` into the word, and read back
/// `prior`, has to issue a wake.
pub fn must_wake(prior: u32) -> (r: bool)
    ensures
        r == notify_wakes(prior),
{
    prior == PARKED
}

/// What the consumer does after its decrement displaced `prior`, given the
/// earliest pending deadline (if any) that it saw in the store.
pub fn after_arm(prior: u32, deadline: Option<Instant>) -> (r: WaitAction)
    ensures
        !arm_parks(prior) ==> r == WaitAction::Retry,
        arm_parks(prior) ==> r == WaitAction::Park(deadline),
{
    if prior == NOTIFIED {
        WaitAction::Retry
    } else {
        WaitAction::Park(deadline)
    }
}

/// The word's values make the decrement-and-check step sound. From either
/// state the consumer runs in (`EMPTY` or `NOTIFIED`): a consumer that reads
/// `NOTIFIED` retries rather than parks; a consumer that parks has left the
/// word at `PARKED`, and a producer that then reads `PARKED` back wakes it;
/// and the producer's `NOTIFIED` differs from the `PARKED` that the
/// consumer's wait expects. This covers the two orders of one signal and
/// one decrement on the word; it does not model threads or the kernel.
pub proof fn law_no_missed_wakeup(w: u32)
    requires
        w == EMPTY || w == NOTIFIED,
    ensures
        !arm_parks(NOTIFIED),
        arm_parks(w) ==> armed_word(w) == PARKED && notify_wakes(armed_word(w)),
        NOTIFIED != PARKED,
{
}

} // verus!
