use vstd::prelude::*;

use crate::aggregator::{
    lemma_count_settled_full, lemma_count_settled_lt, lemma_count_settled_prefix, ResultAggregator,
};
use crate::guard::{spec_resolve_race, TimeoutGuard};
use crate::limiter::ConcurrencyLimiter;
use crate::outcome::{success_values, AggregateOutcome, FetchOutcome, GuardEvent};
use crate::policy::{ConfigError, Policy};

verus! {

/// One batch call, as a state machine that a driver advances event by
/// event.
///
/// The driver loop is: while the batch is not done, start every item that
/// `start_next` grants (each grant holds a limiter permit), run its fetch
/// raced against the per-item deadline outside this crate, and report each
/// item's first-resolved event through `settle`, in completion order —
/// which may differ from dispatch order. When `is_done` reports a terminal
/// state, `finish` yields the aggregate result. All state is created per
/// batch call and discarded when the batch returns.
pub struct Orchestrator<K, V, E> {
    /// The batch configuration; immutable for the duration of the batch.
    pub policy: Policy,
    /// The keys to fetch, in input order. Duplicates are fetched
    /// independently; no deduplication occurs.
    pub keys: Vec<K>,
    /// Dispatch cursor: keys before `next` have been dispatched, keys from
    /// `next` on are still pending.
    pub next: usize,
    /// The permit pool bounding simultaneous fetches.
    pub limiter: ConcurrencyLimiter,
    /// The per-item outcomes collected so far.
    pub agg: ResultAggregator<K, V, E>,
}

impl<K: Copy, V, E> Orchestrator<K, V, E> {
    /// Number of fetches currently in flight: dispatched and not settled.
    pub open spec fn in_flight(self) -> int {
        self.next - self.agg.settled
    }

    /// The state invariant, established by `new` and preserved by every
    /// step.
    pub open spec fn wf(self) -> bool {
        &&& self.policy.is_valid()
        &&& self.agg.wf()
        &&& self.agg.fail_fast == self.policy.fail_fast
        &&& self.agg.slots@.len() == self.keys@.len()
        &&& self.next <= self.keys@.len()
        &&& forall|i: int|
            self.next <= i < self.keys@.len() ==> (#[trigger] self.agg.slots@[i]) is None
        &&& self.limiter.capacity == self.policy.max_concurrency
        &&& self.limiter.outstanding == self.in_flight()
        &&& self.limiter.wf()
        &&& forall|i: int|
            0 <= i < self.keys@.len() ==> (#[trigger] self.agg.slots@[i] matches Some(o)
                ==> o.spec_key() == self.keys@[i])
    }

    /// A new item may start only while keys are pending, a permit is free,
    /// and the batch has not aborted.
    pub open spec fn spec_can_dispatch(self) -> bool {
        &&& self.next < self.keys@.len()
        &&& self.in_flight() < self.policy.max_concurrency
        &&& self.agg.first_failure is None
    }

    /// The batch is terminal: aborted, or every item settled.
    pub open spec fn spec_is_done(self) -> bool {
        self.agg.spec_is_terminal()
    }

    /// Validates the policy and sets up the batch. An invalid policy is a
    /// fatal configuration error: no state is built and no fetch is ever
    /// dispatched.
    pub fn new(keys: Vec<K>, policy: Policy) -> (r: Result<Orchestrator<K, V, E>, ConfigError>)
        ensures
            r is Ok <==> policy.is_valid(),
            (r matches Err(e) ==> e == policy.spec_rejection()),
            (r matches Ok(o) ==> {
                &&& o.wf()
                &&& o.policy == policy
                &&& o.keys == keys
                &&& o.next == 0
                &&& o.agg.settled == 0
                &&& o.agg.first_failure is None
                &&& o.limiter.outstanding == 0
                &&& forall|i: int|
                    0 <= i < keys@.len() ==> (#[trigger] o.agg.slots@[i]) is None
            }),
    {
        match policy.validate() {
            Err(e) => Err(e),
            Ok(()) => {
                let agg = ResultAggregator::new(keys.len(), policy.fail_fast);
                let limiter = ConcurrencyLimiter::new(policy.max_concurrency);
                Ok(Orchestrator { policy, keys, next: 0, limiter, agg })
            },
        }
    }

    /// Grants the next pending item if and only if dispatch is possible:
    /// keys remain, a limiter permit is free, and the batch has not
    /// aborted. The granted item holds one permit until it settles.
    pub fn start_next(&mut self) -> (r: Option<usize>)
        requires
            old(self).wf(),
        ensures
            final(self).wf(),
            final(self).keys == old(self).keys,
            final(self).policy == old(self).policy,
            r is Some <==> old(self).spec_can_dispatch(),
            (r matches Some(i) ==> {
                &&& i == old(self).next
                &&& final(self).next == old(self).next + 1
                &&& final(self).agg == old(self).agg
                &&& final(self).limiter.outstanding == old(self).limiter.outstanding + 1
            }),
            r is None ==> *final(self) == *old(self),
    {
        if self.next < self.keys.len() && !self.agg.is_aborted() {
            if self.limiter.try_acquire() {
                let i = self.next;
                self.next = self.next + 1;
                Some(i)
            } else {
                None
            }
        } else {
            None
        }
    }

    /// The key of one item, by original position.
    pub fn key_at(&self, position: usize) -> (k: K)
        requires
            position < self.keys@.len(),
        ensures
            k == self.keys@[position as int],
    {
        self.keys[position]
    }

    /// Reports the first-resolved event of one dispatched item's deadline
    /// race, in completion order. The item's permit is returned to the
    /// pool — on every exit path: success, failure or timeout — and its
    /// outcome is filed with the aggregator.
    pub fn settle(&mut self, position: usize, event: GuardEvent<V, E>)
        requires
            old(self).wf(),
            position < old(self).next,
            old(self).agg.slots@[position as int] is None,
        ensures
            final(self).wf(),
            final(self).keys == old(self).keys,
            final(self).policy == old(self).policy,
            final(self).next == old(self).next,
            final(self).limiter.outstanding == old(self).limiter.outstanding - 1,
            final(self).agg.settled == old(self).agg.settled + 1,
            final(self).agg.slots@ == old(self).agg.slots@.update(
                position as int,
                Some(spec_resolve_race(position, old(self).keys@[position as int], event)),
            ),
            old(self).agg.first_failure is Some ==> final(self).agg.first_failure == old(
                self,
            ).agg.first_failure,
            (old(self).agg.first_failure is None && old(self).policy.fail_fast
                && !spec_resolve_race(
                position,
                old(self).keys@[position as int],
                event,
            ).spec_is_success() ==> final(self).agg.first_failure == Some(position)),
            (old(self).agg.first_failure is None && !(old(self).policy.fail_fast
                && !spec_resolve_race(
                position,
                old(self).keys@[position as int],
                event,
            ).spec_is_success()) ==> final(self).agg.first_failure is None),
    {
        let key = self.key_at(position);
        let outcome = TimeoutGuard::resolve_race(position, key, event);
        proof {
            lemma_count_settled_prefix(self.agg.slots@, self.next as int);
            lemma_count_settled_lt(self.agg.slots@.take(self.next as int), position as int);
        }
        self.limiter.release();
        self.agg.accept(outcome);
    }

    /// Whether the batch has reached a terminal state.
    pub fn is_done(&self) -> (b: bool)
        ensures
            b == self.spec_is_done(),
    {
        self.agg.is_terminal()
    }

    /// Number of fetches in flight right now; never exceeds the bound.
    pub fn in_flight_count(&self) -> (n: usize)
        requires
            self.wf(),
        ensures
            n == self.in_flight(),
            n <= self.policy.max_concurrency,
    {
        self.limiter.outstanding
    }

    /// Yields the aggregate result of a terminal batch: the pinned first
    /// failure if the batch aborted, otherwise every success value in
    /// input order.
    pub fn finish(self) -> (r: AggregateOutcome<K, V, E>)
        requires
            self.wf(),
            self.spec_is_done(),
        ensures
            (self.agg.first_failure matches Some(p) ==> r == (
            AggregateOutcome::<K, V, E>::Aborted { failure: self.agg.slots@[p as int]->0 })),
            (self.agg.first_failure is None ==> (r matches AggregateOutcome::Completed { values }
                && values@ == success_values(self.agg.slots@))),
    {
        self.agg.finalize()
    }
}

/// Concurrency bound law: in every reachable batch state, the number of
/// fetches actively in flight is at most the configured
/// `max_concurrency` — `new` starts with zero in flight, `start_next`
/// admits an item only against a free permit, and `settle` returns the
/// permit, so the invariant carries through every step.
pub proof fn lemma_concurrency_bound<K: Copy, V, E>(o: Orchestrator<K, V, E>)
    requires
        o.wf(),
    ensures
        o.in_flight() <= o.policy.max_concurrency,
{
}

/// All-or-nothing law: under the fail-fast policy, whenever any settled
/// item holds a failing outcome, the batch is aborted — its pinned first
/// failure is a settled failing outcome carrying its originating key — so
/// `finish` returns `Aborted` and never a partial success list.
pub proof fn lemma_fail_fast_all_or_nothing<K: Copy, V, E>(o: Orchestrator<K, V, E>, i: int)
    requires
        o.wf(),
        o.policy.fail_fast,
        0 <= i < o.agg.slots@.len(),
        o.agg.slots@[i] is Some,
        !o.agg.slots@[i]->0.spec_is_success(),
    ensures
        o.agg.first_failure is Some,
        (o.agg.first_failure matches Some(p) ==> {
            &&& o.agg.slots@[p as int] matches Some(f)
            &&& !f.spec_is_success()
            &&& f.spec_key() == o.keys@[p as int]
        }),
{
}

/// Best-effort law: when every slot holds a success outcome — as with an
/// always-succeeding fetch awaited to completion — the collected values are
/// exactly the fetched values, one per input key, in input order.
pub proof fn lemma_all_success_values<K, V, E>(slots: Seq<Option<FetchOutcome<K, V, E>>>)
    requires
        forall|i: int|
            0 <= i < slots.len() ==> (#[trigger] slots[i] matches Some(o) && o is Success),
    ensures
        success_values(slots).len() == slots.len(),
        forall|i: int|
            0 <= i < slots.len() ==> success_values(slots)[i] == (#[trigger] slots[i])->0.spec_value(),
    decreases slots.len(),
{
    if slots.len() > 0 {
        let rest = slots.drop_first();
        assert(forall|i: int| 0 <= i < rest.len() ==> #[trigger] rest[i] == slots[i + 1]);
        lemma_all_success_values(rest);
        assert(slots[0] matches Some(FetchOutcome::Success { .. }));
        assert(success_values(slots) =~= seq![slots[0]->0.spec_value()] + success_values(rest));
        assert forall|i: int| 0 <= i < slots.len() implies success_values(slots)[i] == (
        #[trigger] slots[i])->0.spec_value() by {
            if i > 0 {
                assert(success_values(slots)[i] == success_values(rest)[i - 1]);
                assert(rest[i - 1] == slots[i]);
            }
        }
    }
}

/// Whether `o` can be the outcome of one call of `fetch` for the item at
/// position `j` with key `k`: some event that the call can report resolves
/// to `o`.
pub open spec fn event_backed<K, V, E, F: Fn(usize, K) -> GuardEvent<V, E>>(
    fetch: F,
    j: usize,
    k: K,
    o: FetchOutcome<K, V, E>,
) -> bool {
    exists|ev: GuardEvent<V, E>|
        call_ensures(fetch, (j, k), ev) && o == spec_resolve_race(j, k, ev)
}

/// The slot assignment that explains a `Completed` result of `fetch_all`:
/// every slot is settled by an outcome that `fetch` can produce for its
/// position (under fail-fast, a success), and the values are the success
/// values in input order.
pub open spec fn spec_completed_slots<K, V, E, F: Fn(usize, K) -> GuardEvent<V, E>>(
    fetch: F,
    keys: Seq<K>,
    policy: Policy,
    slots: Seq<Option<FetchOutcome<K, V, E>>>,
    values: Seq<V>,
) -> bool {
    &&& slots.len() == keys.len()
    &&& forall|j: int|
        0 <= j < slots.len() ==> (#[trigger] slots[j] matches Some(o) ==> o.spec_position() == j
            && o.spec_key() == keys[j] && event_backed(fetch, j as usize, keys[j], o))
    &&& (policy.fail_fast ==> forall|j: int|
        0 <= j < slots.len() ==> (#[trigger] slots[j] matches Some(o) && o is Success))
    &&& (!policy.fail_fast ==> forall|j: int|
        0 <= j < slots.len() ==> (#[trigger] slots[j]) is Some)
    &&& values == success_values(slots)
}

/// Whether `v` is a value that one call of `fetch` for position `j` and
/// key `k` can resolve with.
pub open spec fn ok_event_value<K, V, E, F: Fn(usize, K) -> GuardEvent<V, E>>(
    fetch: F,
    j: usize,
    k: K,
    v: V,
) -> bool {
    exists|ev: GuardEvent<V, E>|
        #[trigger] call_ensures(fetch, (j, k), ev) && ev is OpOk && v == ev.spec_op_value()
}

/// Best-effort law at the batch entry point: for any key list and a fetch
/// that can only resolve with a value, a completed batch returns exactly
/// one value per input key, in input order, each a value the fetch
/// produced for its key.
pub proof fn lemma_best_effort_all_success<K, V, E, F: Fn(usize, K) -> GuardEvent<V, E>>(
    fetch: F,
    keys: Seq<K>,
    policy: Policy,
    slots: Seq<Option<FetchOutcome<K, V, E>>>,
    values: Seq<V>,
)
    requires
        spec_completed_slots(fetch, keys, policy, slots, values),
        forall|args: (usize, K), ev: GuardEvent<V, E>| #[trigger]
            call_ensures(fetch, args, ev) ==> ev is OpOk,
    ensures
        values.len() == keys.len(),
        forall|j: int|
            0 <= j < keys.len() ==> #[trigger] ok_event_value(
                fetch,
                j as usize,
                keys[j],
                values[j],
            ),
{
    assert forall|j: int| 0 <= j < slots.len() implies (#[trigger] slots[j] matches Some(o)
        && o is Success) by {
        assert(slots[j] is Some);
        let o = slots[j]->0;
        assert(event_backed(fetch, j as usize, keys[j], o));
        let ev = choose|ev: GuardEvent<V, E>|
            #[trigger] call_ensures(fetch, (j as usize, keys[j]), ev) && o == spec_resolve_race(
                j as usize,
                keys[j],
                ev,
            );
        assert(ev is OpOk);
    }
    lemma_all_success_values(slots);
    assert forall|j: int| 0 <= j < keys.len() implies #[trigger] ok_event_value(
        fetch,
        j as usize,
        keys[j],
        values[j],
    ) by {
        assert(slots[j] is Some);
        let o = slots[j]->0;
        assert(event_backed(fetch, j as usize, keys[j], o));
        let ev = choose|ev: GuardEvent<V, E>|
            #[trigger] call_ensures(fetch, (j as usize, keys[j]), ev) && o == spec_resolve_race(
                j as usize,
                keys[j],
                ev,
            );
        assert(values[j] == success_values(slots)[j]);
        assert(success_values(slots)[j] == o.spec_value());
        assert(call_ensures(fetch, (j as usize, keys[j]), ev) && ev is OpOk && values[j]
            == ev.spec_op_value());
    }
}

/// All-or-nothing law, completed side: a fail-fast batch that completes
/// did so with every item a success, so it returns one value per input
/// key.
pub proof fn lemma_fail_fast_completed_is_total<K, V, E, F: Fn(usize, K) -> GuardEvent<V, E>>(
    fetch: F,
    keys: Seq<K>,
    policy: Policy,
    slots: Seq<Option<FetchOutcome<K, V, E>>>,
    values: Seq<V>,
)
    requires
        spec_completed_slots(fetch, keys, policy, slots, values),
        policy.fail_fast,
    ensures
        values.len() == keys.len(),
{
    lemma_all_success_values(slots);
}

/// The batch entry point, run serially: validates the policy, then for
/// each key in input order dispatches the fetch, races it against the
/// per-item deadline (the race is reported by `fetch` as the first-resolved
/// event), and aggregates the outcomes under the selected policy. Under
/// fail-fast the batch stops at the first failing outcome; best effort
/// awaits every item. The empty key list completes immediately with no
/// fetch dispatched, and an invalid policy is rejected before any fetch.
pub fn fetch_all<K: Copy, V, E, F: Fn(usize, K) -> GuardEvent<V, E>>(
    keys: Vec<K>,
    policy: Policy,
    fetch: F,
) -> (r: Result<AggregateOutcome<K, V, E>, ConfigError>)
    requires
        forall|j: usize| j < keys@.len() ==> call_requires(fetch, (j, keys@[j as int])),
    ensures
        r is Ok <==> policy.is_valid(),
        (r matches Err(e) ==> e == policy.spec_rejection()),
        (r matches Ok(out) ==> (out matches AggregateOutcome::Aborted { failure } ==> {
            &&& policy.fail_fast
            &&& !failure.spec_is_success()
            &&& failure.spec_position() < keys@.len()
            &&& failure.spec_key() == keys@[failure.spec_position() as int]
            &&& event_backed(fetch, failure.spec_position(), failure.spec_key(), failure)
        })),
        (r matches Ok(out) ==> (out matches AggregateOutcome::Completed { values } ==> exists|
            slots: Seq<Option<FetchOutcome<K, V, E>>>,
        | spec_completed_slots(fetch, keys@, policy, slots, values@))),
{
    let ghost gkeys = keys@;
    let mut orch: Orchestrator<K, V, E> = match Orchestrator::new(keys, policy) {
        Err(e) => {
            return Err(e);
        },
        Ok(o) => o,
    };
    loop
        invariant
            orch.wf(),
            orch.policy == policy,
            orch.keys@ == gkeys,
            orch.limiter.outstanding == 0,
            forall|j: usize| j < gkeys.len() ==> call_requires(fetch, (j, gkeys[j as int])),
            forall|j: int|
                0 <= j < gkeys.len() ==> (#[trigger] orch.agg.slots@[j] matches Some(o)
                    ==> event_backed(fetch, j as usize, gkeys[j], o)),
        ensures
            orch.wf(),
            orch.policy == policy,
            orch.keys@ == gkeys,
            orch.limiter.outstanding == 0,
            !orch.spec_can_dispatch(),
            forall|j: int|
                0 <= j < gkeys.len() ==> (#[trigger] orch.agg.slots@[j] matches Some(o)
                    ==> event_backed(fetch, j as usize, gkeys[j], o)),
        decreases gkeys.len() - orch.next,
    {
        match orch.start_next() {
            None => {
                break;
            },
            Some(i) => {
                let k = orch.key_at(i);
                let ev = fetch(i, k);
                let ghost gev = ev;
                orch.settle(i, ev);
                proof {
                    assert(call_ensures(fetch, (i, k), gev));
                    assert(orch.agg.slots@[i as int] == Some(spec_resolve_race(i, k, gev)));
                    assert(event_backed(fetch, i, gkeys[i as int], spec_resolve_race(i, k, gev)));
                }
            },
        }
    }
    proof {
        if orch.agg.first_failure is None {
            assert(orch.in_flight() == 0);
            assert(orch.next == gkeys.len());
            assert(orch.agg.settled == orch.agg.slots@.len());
        }
        assert(orch.spec_is_done());
    }
    let ghost final_slots = orch.agg.slots@;
    let ghost ff = orch.agg.first_failure;
    proof {
        if ff is None {
            lemma_count_settled_full(final_slots);
        }
    }
    let out = orch.finish();
    let ghost gout = out;
    proof {
        if ff is None {
            let values = match gout {
                AggregateOutcome::Completed { values } => values@,
                _ => arbitrary(),
            };
            assert(spec_completed_slots(fetch, gkeys, policy, final_slots, values));
        }
    }
    Ok(out)
}

} // verus!
