use vstd::prelude::*;

verus! {

/// Bounds the number of simultaneously in-flight fetch operations.
///
/// The pool is a plain counter: `try_acquire` hands out a permit when one is
/// free, `release` returns it. The hard guarantee is the upper bound
/// `outstanding <= capacity` at every instant; no fairness is promised.
/// The driver that wants to block until a permit frees up simply retries
/// `try_acquire` after the next completion event.
///
/// Releasing a permit that is not held is a programming error, excluded by
/// the precondition of `release`, not a runtime failure to recover from.
pub struct ConcurrencyLimiter {
    /// Size of the permit pool; fixed at construction.
    pub capacity: usize,
    /// Number of permits currently handed out.
    pub outstanding: usize,
}

impl ConcurrencyLimiter {
    /// The counter never exceeds the pool size.
    pub open spec fn wf(self) -> bool {
        self.outstanding <= self.capacity
    }

    /// A fresh pool with every permit free.
    pub fn new(capacity: usize) -> (r: ConcurrencyLimiter)
        ensures
            r.capacity == capacity,
            r.outstanding == 0,
            r.wf(),
    {
        ConcurrencyLimiter { capacity, outstanding: 0 }
    }

    /// Grants a permit exactly when one is free.
    pub fn try_acquire(&mut self) -> (granted: bool)
        requires
            old(self).wf(),
        ensures
            final(self).wf(),
            final(self).capacity == old(self).capacity,
            granted <==> old(self).outstanding < old(self).capacity,
            granted ==> final(self).outstanding == old(self).outstanding + 1,
            !granted ==> *final(self) == *old(self),
    {
        if self.outstanding < self.capacity {
            self.outstanding = self.outstanding + 1;
            true
        } else {
            false
        }
    }

    /// Returns a held permit to the pool.
    pub fn release(&mut self)
        requires
            old(self).wf(),
            old(self).outstanding >= 1,
        ensures
            final(self).wf(),
            final(self).capacity == old(self).capacity,
            final(self).outstanding == old(self).outstanding - 1,
    {
        self.outstanding = self.outstanding - 1;
    }
}

} // verus!
