use vstd::prelude::*;

use crate::outcome::{FetchOutcome, GuardEvent};

verus! {

/// The outcome that the deadline race of one item settles on.
///
/// Whichever resolved first determines the outcome: a value gives
/// `Success`, an error gives `Failure`, and the timer firing first gives
/// `TimedOut` no matter what the operation would later have produced.
pub open spec fn spec_resolve_race<K, V, E>(
    position: usize,
    key: K,
    event: GuardEvent<V, E>,
) -> FetchOutcome<K, V, E> {
    match event {
        GuardEvent::OpOk(value) => FetchOutcome::Success { position, key, value },
        GuardEvent::OpErr(error) => FetchOutcome::Failure { position, key, error },
        GuardEvent::TimerFired => FetchOutcome::TimedOut { position, key },
    }
}

/// Races a single fetch against its deadline — the decision half.
///
/// The driver starts the operation and a timer of the configured length
/// concurrently, and reports here which of the two resolved first. The
/// guard turns that report into the item's outcome. Once `TimerFired` has
/// been reported, the operation itself need not have been stopped: it may
/// run on in the background, but its eventual result is never observed. A
/// well-behaved driver hands the fetch a cancellation signal so it can stop
/// promptly; correctness does not depend on that succeeding.
pub struct TimeoutGuard;

impl TimeoutGuard {
    /// Fixes the outcome of one item from the first-resolved report of its
    /// deadline race.
    pub fn resolve_race<K, V, E>(position: usize, key: K, event: GuardEvent<V, E>) -> (o:
        FetchOutcome<K, V, E>)
        ensures
            o == spec_resolve_race(position, key, event),
    {
        match event {
            GuardEvent::OpOk(value) => FetchOutcome::Success { position, key, value },
            GuardEvent::OpErr(error) => FetchOutcome::Failure { position, key, error },
            GuardEvent::TimerFired => FetchOutcome::TimedOut { position, key },
        }
    }
}

} // verus!
