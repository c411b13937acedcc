use vstd::prelude::*;

verus! {

/// What the deadline race of one item reported first: the operation
/// resolved (with a value or an error), or the timer fired.
#[derive(Debug)]
pub enum GuardEvent<V, E> {
    /// The fetch operation resolved with a value before the deadline.
    OpOk(V),
    /// The fetch operation resolved with an error before the deadline.
    OpErr(E),
    /// The deadline elapsed before the operation settled.
    TimerFired,
}

impl<V, E> GuardEvent<V, E> {
    /// The value an `OpOk` report carries.
    pub open spec fn spec_op_value(self) -> V
        recommends
            self is OpOk,
    {
        match self {
            GuardEvent::OpOk(value) => value,
            _ => arbitrary(),
        }
    }
}

/// Per-item result of one fetch attempt. Every variant carries the
/// originating key and the item's original position in the input list, so
/// that aggregation can restore input order and an abort can name the
/// offending key.
#[derive(Debug, PartialEq, Eq)]
pub enum FetchOutcome<K, V, E> {
    /// The fetch settled with a value before its deadline.
    Success { position: usize, key: K, value: V },
    /// The fetch reported an error before its deadline.
    Failure { position: usize, key: K, error: E },
    /// The per-item deadline elapsed first; any late result of the
    /// operation is never observed.
    TimedOut { position: usize, key: K },
}

/// Final result of a batch: either every aggregated value, or the first
/// failing outcome observed under the all-or-nothing policy.
#[derive(Debug, PartialEq, Eq)]
pub enum AggregateOutcome<K, V, E> {
    /// The batch finished; `values` holds the retrieved values in input
    /// order (one per success outcome, and nothing else).
    Completed { values: Vec<V> },
    /// The batch was aborted on its first failing outcome; no partial
    /// success list is returned.
    Aborted { failure: FetchOutcome<K, V, E> },
}

impl<K, V, E> FetchOutcome<K, V, E> {
    /// The item's original position in the input key list.
    pub open spec fn spec_position(self) -> usize {
        match self {
            FetchOutcome::Success { position, .. } => position,
            FetchOutcome::Failure { position, .. } => position,
            FetchOutcome::TimedOut { position, .. } => position,
        }
    }

    /// The originating key.
    pub open spec fn spec_key(self) -> K {
        match self {
            FetchOutcome::Success { key, .. } => key,
            FetchOutcome::Failure { key, .. } => key,
            FetchOutcome::TimedOut { key, .. } => key,
        }
    }

    /// Whether the fetch settled with a value.
    pub open spec fn spec_is_success(self) -> bool {
        self is Success
    }

    /// The retrieved value of a success outcome.
    pub open spec fn spec_value(self) -> V
        recommends
            self is Success,
    {
        match self {
            FetchOutcome::Success { value, .. } => value,
            _ => arbitrary(),
        }
    }

    /// The item's original position in the input key list.
    pub fn position(&self) -> (p: usize)
        ensures
            p == self.spec_position(),
    {
        match self {
            FetchOutcome::Success { position, .. } => *position,
            FetchOutcome::Failure { position, .. } => *position,
            FetchOutcome::TimedOut { position, .. } => *position,
        }
    }

    /// Whether the fetch settled with a value.
    pub fn is_success(&self) -> (b: bool)
        ensures
            b == self.spec_is_success(),
    {
        match self {
            FetchOutcome::Success { .. } => true,
            FetchOutcome::Failure { .. } => false,
            FetchOutcome::TimedOut { .. } => false,
        }
    }
}

/// The values of the success outcomes of `slots`, in slot (that is, input)
/// order; failed, timed-out and not-yet-settled slots contribute nothing.
pub open spec fn success_values<K, V, E>(slots: Seq<Option<FetchOutcome<K, V, E>>>) -> Seq<V>
    decreases slots.len(),
{
    if slots.len() == 0 {
        Seq::empty()
    } else {
        let head: Seq<V> = match slots[0] {
            Some(FetchOutcome::Success { value, .. }) => seq![value],
            _ => Seq::empty(),
        };
        head + success_values(slots.drop_first())
    }
}

} // verus!
