use vstd::prelude::*;

use crate::outcome::{success_values, AggregateOutcome, FetchOutcome};

verus! {

/// Number of occupied (settled) slots in `s`.
pub open spec fn count_settled<K, V, E>(s: Seq<Option<FetchOutcome<K, V, E>>>) -> int
    decreases s.len(),
{
    if s.len() == 0 {
        0
    } else {
        count_settled(s.drop_last()) + if s.last() is Some {
            1int
        } else {
            0int
        }
    }
}

/// The settled count lies between 0 and the slot count.
pub proof fn lemma_count_settled_bounds<K, V, E>(s: Seq<Option<FetchOutcome<K, V, E>>>)
    ensures
        0 <= count_settled(s) <= s.len(),
    decreases s.len(),
{
    if s.len() > 0 {
        lemma_count_settled_bounds(s.drop_last());
    }
}

/// How the settled count moves under a point update.
pub proof fn lemma_count_settled_update<K, V, E>(
    s: Seq<Option<FetchOutcome<K, V, E>>>,
    i: int,
    v: Option<FetchOutcome<K, V, E>>,
)
    requires
        0 <= i < s.len(),
    ensures
        count_settled(s.update(i, v)) == count_settled(s) - (if s[i] is Some {
            1int
        } else {
            0int
        }) + (if v is Some {
            1int
        } else {
            0int
        }),
    decreases s.len(),
{
    let t = s.update(i, v);
    if i == s.len() - 1 {
        assert(t.drop_last() =~= s.drop_last());
    } else {
        assert(t.drop_last() =~= s.drop_last().update(i, v));
        lemma_count_settled_update(s.drop_last(), i, v);
    }
}

/// An empty slot keeps the settled count strictly under the slot count.
pub proof fn lemma_count_settled_lt<K, V, E>(s: Seq<Option<FetchOutcome<K, V, E>>>, i: int)
    requires
        0 <= i < s.len(),
        s[i] is None,
    ensures
        count_settled(s) <= s.len() - 1,
    decreases s.len(),
{
    lemma_count_settled_bounds(s.drop_last());
    if i < s.len() - 1 {
        lemma_count_settled_lt(s.drop_last(), i);
    }
}

/// When the settled count has reached the slot count, every slot is
/// occupied.
pub proof fn lemma_count_settled_full<K, V, E>(s: Seq<Option<FetchOutcome<K, V, E>>>)
    requires
        count_settled(s) == s.len(),
    ensures
        forall|i: int| 0 <= i < s.len() ==> (#[trigger] s[i]) is Some,
    decreases s.len(),
{
    if s.len() > 0 {
        lemma_count_settled_bounds(s.drop_last());
        lemma_count_settled_full(s.drop_last());
        assert(forall|i: int|
            0 <= i < s.len() - 1 ==> #[trigger] s[i] == s.drop_last()[i]);
    }
}

/// When every slot from `n` on is empty, only the first `n` slots count.
pub proof fn lemma_count_settled_prefix<K, V, E>(s: Seq<Option<FetchOutcome<K, V, E>>>, n: int)
    requires
        0 <= n <= s.len(),
        forall|i: int| n <= i < s.len() ==> (#[trigger] s[i]) is None,
    ensures
        count_settled(s) == count_settled(s.take(n)),
    decreases s.len(),
{
    if s.len() == n {
        assert(s.take(n) =~= s);
    } else {
        lemma_count_settled_prefix(s.drop_last(), n);
        assert(s.drop_last().take(n) =~= s.take(n));
    }
}

/// Combines per-item outcomes into the final result of the batch under the
/// selected policy.
///
/// Outcomes arrive in completion order, which may differ from input order;
/// each is filed into the slot of its original position, so that the final
/// success list is in input order under either policy (for the best-effort
/// policy this order preservation is a documented guarantee of this
/// implementation, not a requirement).
///
/// Under the all-or-nothing policy (`fail_fast`), the first failing outcome
/// observed — first by completion order — is pinned and the batch result is
/// `Aborted` with exactly that outcome; outcomes that arrive after the abort
/// are discarded (they are filed, but never surfaced). Under the best-effort
/// policy, failing outcomes are silently dropped and every success is kept.
pub struct ResultAggregator<K, V, E> {
    /// `true` for the all-or-nothing policy, `false` for best-effort.
    pub fail_fast: bool,
    /// One slot per input key, indexed by original position.
    pub slots: Vec<Option<FetchOutcome<K, V, E>>>,
    /// Number of occupied slots.
    pub settled: usize,
    /// Position of the first failing outcome observed, when `fail_fast`.
    pub first_failure: Option<usize>,
}

impl<K, V, E> ResultAggregator<K, V, E> {
    /// The aggregator invariant: the settled counter matches the occupied
    /// slots, every filed outcome sits in the slot of its own position,
    /// and the pinned first failure — present only under the
    /// all-or-nothing policy — points at a settled failing outcome; while
    /// none is pinned, every settled outcome is a success.
    pub open spec fn wf(self) -> bool {
        &&& self.settled == count_settled(self.slots@)
        &&& forall|i: int|
            0 <= i < self.slots@.len() ==> (#[trigger] self.slots@[i] matches Some(o)
                ==> o.spec_position() == i)
        &&& (self.first_failure matches Some(p)
            ==> self.fail_fast && p < self.slots@.len() && (self.slots@[p as int] matches Some(o)
                && !o.spec_is_success()))
        &&& (self.fail_fast && self.first_failure is None ==> forall|i: int|
                0 <= i < self.slots@.len() ==> (#[trigger] self.slots@[i] matches Some(o)
                    ==> o.spec_is_success()))
    }

    /// A batch is terminal once it has aborted or every slot has settled.
    pub open spec fn spec_is_terminal(self) -> bool {
        self.first_failure is Some || self.settled == self.slots@.len()
    }

    /// A fresh aggregator with one empty slot per input key.
    pub fn new(expected: usize, fail_fast: bool) -> (r: ResultAggregator<K, V, E>)
        ensures
            r.wf(),
            r.fail_fast == fail_fast,
            r.slots@.len() == expected,
            forall|i: int| 0 <= i < expected ==> (#[trigger] r.slots@[i]) is None,
            r.settled == 0,
            r.first_failure is None,
    {
        let mut slots: Vec<Option<FetchOutcome<K, V, E>>> = Vec::new();
        while slots.len() < expected
            invariant
                slots@.len() <= expected,
                forall|i: int| 0 <= i < slots@.len() ==> (#[trigger] slots@[i]) is None,
                count_settled(slots@) == 0,
            decreases expected - slots@.len(),
        {
            let ghost before = slots@;
            slots.push(None);
            proof {
                assert(slots@.drop_last() =~= before);
            }
        }
        ResultAggregator { fail_fast, slots, settled: 0, first_failure: None }
    }

    /// Files one freshly settled outcome into the slot of its original
    /// position and, under the all-or-nothing policy, pins the first
    /// failure. A failure arriving after the first one never displaces it.
    pub fn accept(&mut self, outcome: FetchOutcome<K, V, E>)
        requires
            old(self).wf(),
            outcome.spec_position() < old(self).slots@.len(),
            old(self).slots@[outcome.spec_position() as int] is None,
        ensures
            final(self).wf(),
            final(self).fail_fast == old(self).fail_fast,
            final(self).slots@ == old(self).slots@.update(
                outcome.spec_position() as int,
                Some(outcome),
            ),
            final(self).settled == old(self).settled + 1,
            old(self).first_failure is Some ==> final(self).first_failure == old(
                self,
            ).first_failure,
            old(self).first_failure is None && old(self).fail_fast && !outcome.spec_is_success()
                ==> final(self).first_failure == Some(outcome.spec_position()),
            old(self).first_failure is None && !(old(self).fail_fast
                && !outcome.spec_is_success()) ==> final(self).first_failure is None,
    {
        let pos = outcome.position();
        let failed = !outcome.is_success();
        let n: usize = self.slots.len();
        proof {
            lemma_count_settled_lt(self.slots@, pos as int);
            lemma_count_settled_update(self.slots@, pos as int, Some(outcome));
            assert(self.settled < n);
        }
        if self.fail_fast && failed && self.first_failure.is_none() {
            self.first_failure = Some(pos);
        }
        self.slots.set(pos, Some(outcome));
        self.settled = self.settled + 1;
    }

    /// Whether the batch has aborted on a failing outcome.
    pub fn is_aborted(&self) -> (b: bool)
        ensures
            b == (self.first_failure is Some),
    {
        self.first_failure.is_some()
    }

    /// Whether the batch has reached a terminal state.
    pub fn is_terminal(&self) -> (b: bool)
        ensures
            b == self.spec_is_terminal(),
    {
        self.first_failure.is_some() || self.settled == self.slots.len()
    }

    /// Produces the final result: the pinned first failure if the batch
    /// aborted, otherwise every success value in input order.
    pub fn finalize(self) -> (r: AggregateOutcome<K, V, E>)
        requires
            self.wf(),
            self.spec_is_terminal(),
        ensures
            (self.first_failure matches Some(p) ==> r == (AggregateOutcome::<K, V, E>::Aborted {
                failure: self.slots@[p as int]->0,
            })),
            (self.first_failure is None ==> (r matches AggregateOutcome::Completed { values }
                && values@ == success_values(self.slots@))),
    {
        let mut this = self;
        match this.first_failure {
            Some(p) => {
                let failure = this.slots.swap_remove(p).unwrap();
                AggregateOutcome::Aborted { failure }
            },
            None => {
                let ghost orig = this.slots@;
                let mut values: Vec<V> = Vec::new();
                while this.slots.len() > 0
                    invariant
                        values@ + success_values(this.slots@) == success_values(orig),
                    decreases this.slots@.len(),
                {
                    let ghost before = this.slots@;
                    let slot = this.slots.remove(0);
                    proof {
                        assert(before.remove(0) =~= before.drop_first());
                        assert(this.slots@ =~= before.drop_first());
                    }
                    match slot {
                        Some(FetchOutcome::Success { value, .. }) => {
                            let ghost v = values@;
                            values.push(value);
                            proof {
                                assert(values@ =~= v + seq![value]);
                                assert(values@ + success_values(this.slots@) =~= success_values(
                                    orig,
                                ));
                            }
                        },
                        _ => {
                            proof {
                                assert(values@ + success_values(this.slots@) =~= success_values(
                                    orig,
                                ));
                            }
                        },
                    }
                }
                proof {
                    assert(success_values(this.slots@) =~= Seq::<V>::empty());
                    assert(values@ =~= success_values(orig));
                }
                AggregateOutcome::Completed { values }
            },
        }
    }
}

} // verus!
