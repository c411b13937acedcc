use std::cell::Cell;

use fanout::orchestrator::{fetch_all, Orchestrator};
use fanout::outcome::{AggregateOutcome, FetchOutcome, GuardEvent};
use fanout::policy::{ConfigError, Policy};

fn policy(max_concurrency: usize, per_item_timeout_ms: u64, fail_fast: bool) -> Policy {
    Policy { max_concurrency, per_item_timeout_ms, fail_fast }
}

#[test]
fn best_effort_all_success_returns_every_value_in_input_order() {
    let keys: Vec<u64> = vec![10, 20, 30];
    let r = fetch_all::<u64, u64, String, _>(keys, policy(2, 100, false), |_i, k| {
        GuardEvent::OpOk(k * 2)
    });
    match r {
        Ok(AggregateOutcome::Completed { values }) => assert_eq!(values, vec![20, 40, 60]),
        other => panic!("unexpected result: {:?}", other),
    }
}

#[test]
fn fail_fast_with_failing_key_aborts_referencing_it() {
    let keys: Vec<u64> = vec![1, 2, 3];
    let r = fetch_all::<u64, u64, String, _>(keys, policy(2, 100, true), |_i, k| {
        if k == 2 {
            GuardEvent::OpErr(String::from("boom"))
        } else {
            GuardEvent::OpOk(k)
        }
    });
    match r {
        Ok(AggregateOutcome::Aborted { failure }) => match failure {
            FetchOutcome::Failure { position, key, error } => {
                assert_eq!(position, 1);
                assert_eq!(key, 2);
                assert_eq!(error, "boom");
            }
            other => panic!("unexpected failure kind: {:?}", other),
        },
        other => panic!("expected abort, got: {:?}", other),
    }
}

#[test]
fn concurrency_bound_is_never_exceeded() {
    // Drive the batch by hand, dispatching as eagerly as the orchestrator
    // allows, and record the peak number of simultaneously active items.
    let keys: Vec<u64> = vec![1, 2, 3, 4, 5];
    let bound: usize = 2;
    let mut orch: Orchestrator<u64, u64, String> =
        Orchestrator::new(keys, policy(bound, 100, false)).unwrap();
    let mut peak: usize = 0;
    let mut active: Vec<usize> = Vec::new();
    while !orch.is_done() {
        while let Some(i) = orch.start_next() {
            active.push(i);
            peak = peak.max(orch.in_flight_count());
        }
        // one item completes; later-dispatched items may finish first
        let i = active.pop().unwrap();
        let k = orch.key_at(i);
        orch.settle(i, GuardEvent::OpOk(k));
    }
    assert_eq!(peak, bound);
    match orch.finish() {
        AggregateOutcome::Completed { values } => assert_eq!(values.len(), 5),
        other => panic!("unexpected result: {:?}", other),
    }
}

#[test]
fn timer_event_yields_timed_out_under_best_effort() {
    let keys: Vec<u64> = vec![4, 5];
    let r = fetch_all::<u64, u64, String, _>(keys, policy(1, 100, false), |_i, k| {
        if k == 5 {
            GuardEvent::TimerFired
        } else {
            GuardEvent::OpOk(k)
        }
    });
    match r {
        Ok(AggregateOutcome::Completed { values }) => assert_eq!(values, vec![4]),
        other => panic!("unexpected result: {:?}", other),
    }
}

#[test]
fn timer_event_yields_timed_out_under_fail_fast() {
    let keys: Vec<u64> = vec![4, 5];
    let r = fetch_all::<u64, u64, String, _>(keys, policy(1, 100, true), |_i, k| {
        if k == 5 {
            GuardEvent::TimerFired
        } else {
            GuardEvent::OpOk(k)
        }
    });
    match r {
        Ok(AggregateOutcome::Aborted { failure }) => {
            assert_eq!(failure, FetchOutcome::TimedOut { position: 1, key: 5 });
        }
        other => panic!("expected abort, got: {:?}", other),
    }
}

#[test]
fn duplicate_keys_are_fetched_independently() {
    let calls = Cell::new(0u32);
    let keys: Vec<u64> = vec![7, 7];
    let r = fetch_all::<u64, u64, String, _>(keys, policy(2, 100, false), |_i, k| {
        calls.set(calls.get() + 1);
        GuardEvent::OpOk(k + 1)
    });
    assert_eq!(calls.get(), 2);
    match r {
        Ok(AggregateOutcome::Completed { values }) => assert_eq!(values, vec![8, 8]),
        other => panic!("unexpected result: {:?}", other),
    }
}

#[test]
fn concrete_scenario_best_effort_drops_the_slow_key() {
    // keys [1,2,3], bound 2, deadline 100 ms; the fetch of key 2 would take
    // 500 ms, so its timer fires first; keys 1 and 3 return at once.
    let keys: Vec<u64> = vec![1, 2, 3];
    let r = fetch_all::<u64, u64, String, _>(keys, policy(2, 100, false), |_i, k| match k {
        2 => GuardEvent::TimerFired,
        1 => GuardEvent::OpOk(100),
        _ => GuardEvent::OpOk(300),
    });
    match r {
        Ok(AggregateOutcome::Completed { values }) => assert_eq!(values, vec![100, 300]),
        other => panic!("unexpected result: {:?}", other),
    }
}

#[test]
fn concrete_scenario_fail_fast_aborts_on_the_slow_key() {
    let calls = Cell::new(0u32);
    let keys: Vec<u64> = vec![1, 2, 3];
    let r = fetch_all::<u64, u64, String, _>(keys, policy(2, 100, true), |_i, k| {
        calls.set(calls.get() + 1);
        match k {
            2 => GuardEvent::TimerFired,
            1 => GuardEvent::OpOk(100),
            _ => GuardEvent::OpOk(300),
        }
    });
    match r {
        Ok(AggregateOutcome::Aborted { failure }) => {
            assert_eq!(failure, FetchOutcome::TimedOut { position: 1, key: 2 });
        }
        other => panic!("expected abort, got: {:?}", other),
    }
    // the abort ended the batch: key 3 was never fetched
    assert_eq!(calls.get(), 2);
}

#[test]
fn invalid_concurrency_is_rejected_before_any_fetch() {
    let calls = Cell::new(0u32);
    let keys: Vec<u64> = vec![1, 2, 3];
    let r = fetch_all::<u64, u64, String, _>(keys, policy(0, 100, true), |_i, k| {
        calls.set(calls.get() + 1);
        GuardEvent::OpOk(k)
    });
    assert_eq!(r, Err(ConfigError::ZeroMaxConcurrency));
    assert_eq!(calls.get(), 0);
}

#[test]
fn invalid_timeout_is_rejected_before_any_fetch() {
    let calls = Cell::new(0u32);
    let keys: Vec<u64> = vec![1];
    let r = fetch_all::<u64, u64, String, _>(keys, policy(3, 0, false), |_i, k| {
        calls.set(calls.get() + 1);
        GuardEvent::OpOk(k)
    });
    assert_eq!(r, Err(ConfigError::ZeroTimeout));
    assert_eq!(calls.get(), 0);
}

#[test]
fn empty_key_list_completes_immediately() {
    let calls = Cell::new(0u32);
    for fail_fast in [false, true] {
        let r = fetch_all::<u64, u64, String, _>(Vec::new(), policy(4, 100, fail_fast), |_i, k| {
            calls.set(calls.get() + 1);
            GuardEvent::OpOk(k)
        });
        match r {
            Ok(AggregateOutcome::Completed { values }) => assert!(values.is_empty()),
            other => panic!("unexpected result: {:?}", other),
        }
    }
    assert_eq!(calls.get(), 0);
}

#[test]
fn completion_order_does_not_leak_into_the_result() {
    // All three items in flight at once; they settle in reverse order, yet
    // the values come back in input order.
    let keys: Vec<u64> = vec![1, 2, 3];
    let mut orch: Orchestrator<u64, u64, String> =
        Orchestrator::new(keys, policy(3, 100, false)).unwrap();
    assert_eq!(orch.start_next(), Some(0));
    assert_eq!(orch.start_next(), Some(1));
    assert_eq!(orch.start_next(), Some(2));
    orch.settle(2, GuardEvent::OpOk(30));
    orch.settle(0, GuardEvent::OpOk(10));
    orch.settle(1, GuardEvent::OpOk(20));
    assert!(orch.is_done());
    match orch.finish() {
        AggregateOutcome::Completed { values } => assert_eq!(values, vec![10, 20, 30]),
        other => panic!("unexpected result: {:?}", other),
    }
}

#[test]
fn first_failure_is_by_completion_order_not_input_order() {
    let keys: Vec<u64> = vec![1, 2];
    let mut orch: Orchestrator<u64, u64, String> =
        Orchestrator::new(keys, policy(2, 100, true)).unwrap();
    assert_eq!(orch.start_next(), Some(0));
    assert_eq!(orch.start_next(), Some(1));
    // the later-dispatched item fails first
    orch.settle(1, GuardEvent::OpErr(String::from("late item failed first")));
    assert!(orch.is_done());
    // the earlier item's late outcome is accepted and discarded
    orch.settle(0, GuardEvent::OpErr(String::from("earlier item failed later")));
    match orch.finish() {
        AggregateOutcome::Aborted { failure } => match failure {
            FetchOutcome::Failure { position, key, error } => {
                assert_eq!(position, 1);
                assert_eq!(key, 2);
                assert_eq!(error, "late item failed first");
            }
            other => panic!("unexpected failure kind: {:?}", other),
        },
        other => panic!("expected abort, got: {:?}", other),
    }
}

#[test]
fn no_new_dispatch_after_abort() {
    let keys: Vec<u64> = vec![1, 2, 3];
    let mut orch: Orchestrator<u64, u64, String> =
        Orchestrator::new(keys, policy(1, 100, true)).unwrap();
    assert_eq!(orch.start_next(), Some(0));
    orch.settle(0, GuardEvent::TimerFired);
    assert_eq!(orch.start_next(), None);
    assert!(orch.is_done());
}
