use vstd::prelude::*;

verus! {

/// Configuration of one batch call. It is constructed once per call and
/// immutable for the duration of the batch.
#[derive(Clone, Copy, Debug, PartialEq, Eq, Structural)]
pub struct Policy {
    /// Upper bound on the number of fetches in flight at any instant.
    pub max_concurrency: usize,
    /// Per-item deadline, in milliseconds. The deadline applies to each
    /// fetch individually, never to the batch as a whole.
    pub per_item_timeout_ms: u64,
    /// `true` selects the all-or-nothing policy (abort on first failure),
    /// `false` the best-effort policy (drop failures, keep successes).
    pub fail_fast: bool,
}

/// Fatal configuration error: the policy is rejected before any fetch is
/// dispatched.
#[derive(Clone, Copy, Debug, PartialEq, Eq, Structural)]
pub enum ConfigError {
    /// `max_concurrency` was zero: no fetch could ever be dispatched.
    ZeroMaxConcurrency,
    /// `per_item_timeout_ms` was zero: every fetch would time out at once.
    ZeroTimeout,
}

impl Policy {
    /// A policy is valid when it admits at least one in-flight fetch and a
    /// positive per-item deadline.
    pub open spec fn is_valid(self) -> bool {
        self.max_concurrency >= 1 && self.per_item_timeout_ms >= 1
    }

    /// The error an invalid policy is rejected with: a zero concurrency
    /// bound is reported first.
    pub open spec fn spec_rejection(self) -> ConfigError {
        if self.max_concurrency == 0 {
            ConfigError::ZeroMaxConcurrency
        } else {
            ConfigError::ZeroTimeout
        }
    }

    /// Checks the batch invariants `max_concurrency >= 1` and
    /// `per_item_timeout_ms > 0`; an invalid policy is rejected, and the
    /// caller dispatches no fetch.
    pub fn validate(&self) -> (r: Result<(), ConfigError>)
        ensures
            r is Ok <==> self.is_valid(),
            r matches Err(e) ==> e == self.spec_rejection(),
    {
        if self.max_concurrency == 0 {
            Err(ConfigError::ZeroMaxConcurrency)
        } else if self.per_item_timeout_ms == 0 {
            Err(ConfigError::ZeroTimeout)
        } else {
            Ok(())
        }
    }
}

} // verus!
