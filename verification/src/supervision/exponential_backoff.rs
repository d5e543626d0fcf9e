use rand::Rng;
use vstd::prelude::*;

use crate::supervision::restart_statistics::{failures_within, RestartStatistics};

verus! {

/// Exclusive upper bound, in nanoseconds, of the random jitter added to a
/// restart delay.
pub const BACKOFF_NOISE_BOUND: u64 = 500;

/// A random jitter in nanoseconds, below [`BACKOFF_NOISE_BOUND`].
///
/// Calls `rand::rng().random_range(0..500)`; the contract claims only what
/// `random_range` documents for a non-empty half-open range: the value lies in
/// the range.  Which value comes out is left open.
#[verifier::external_body]
fn backoff_noise() -> (r: u64)
    ensures
        r < BACKOFF_NOISE_BOUND,
{
    rand::rng().random_range(0..500u64)
}

/// The failure history after an exponential-backoff strategy recorded a
/// failure at `now`: a history with no failure inside the window starts over.
pub open spec fn backoff_history(times: Seq<u64>, window: u64, now: u64) -> Seq<u64> {
    if failures_within(times, window, now) == 0 {
        Seq::<u64>::empty().push(now)
    } else {
        times.push(now)
    }
}

/// `count * base`, saturating at `u64::MAX`.
pub open spec fn saturating_product(count: u64, base: u64) -> int {
    if count * base > u64::MAX {
        u64::MAX as int
    } else {
        count * base
    }
}

/// A strategy that restarts a failed child after a delay that grows with the
/// number of failures.
#[derive(Debug, Clone, Copy, PartialEq, Eq, Structural)]
pub struct ExponentialBackoffStrategy {
    /// Window in nanoseconds; a failure with no other failure inside it resets the count.
    pub backoff_window_ns: u64,
    /// Delay per recorded failure, in nanoseconds; none means no delay but the jitter.
    pub initial_backoff_ns: Option<u64>,
}

impl ExponentialBackoffStrategy {
    /// A strategy with the given window and no initial backoff.
    pub fn new(backoff_window_ns: u64) -> (s: Self)
        ensures
            s.backoff_window_ns == backoff_window_ns,
            s.initial_backoff_ns is None,
    {
        ExponentialBackoffStrategy { backoff_window_ns, initial_backoff_ns: None }
    }

    /// The same strategy with an initial backoff of `initial_backoff_ns` nanoseconds.
    pub fn with_initial_backoff(self, initial_backoff_ns: u64) -> (s: Self)
        ensures
            s.backoff_window_ns == self.backoff_window_ns,
            s.initial_backoff_ns == Some(initial_backoff_ns),
    {
        ExponentialBackoffStrategy { initial_backoff_ns: Some(initial_backoff_ns), ..self }
    }

    /// Records a failure at `now`, first clearing a history with no failure
    /// inside the window.
    pub fn set_failure_count(&self, rs: &mut RestartStatistics, now: u64)
        ensures
            final(rs)@ == backoff_history(old(rs)@, self.backoff_window_ns, now),
    {
        if rs.number_of_failures(self.backoff_window_ns, now) == 0 {
            rs.reset();
        }
        rs.fail(now);
    }

    /// The restart delay in nanoseconds for `failure_count` recorded failures
    /// and a jitter of `noise` nanoseconds.
    pub fn backoff_delay_ns(&self, failure_count: u64, noise: u64) -> (r: u64)
        requires
            saturating_product(
                failure_count,
                match self.initial_backoff_ns {
                    Some(b) => b,
                    None => 0,
                },
            ) + noise <= u64::MAX,
        ensures
            r == saturating_product(
                failure_count,
                match self.initial_backoff_ns {
                    Some(b) => b,
                    None => 0,
                },
            ) + noise,
    {
        let base: u64 = match self.initial_backoff_ns {
            Some(b) => b,
            None => 0,
        };
        let backoff: u64 = match failure_count.checked_mul(base) {
            Some(v) => v,
            None => u64::MAX,
        };
        backoff + noise
    }

    /// Handles the failure of a child at `now`: records it and returns the
    /// delay, in nanoseconds, after which the child is restarted.  The delay is
    /// the number of recorded failures times the initial backoff plus a random
    /// jitter below [`BACKOFF_NOISE_BOUND`].
    pub fn handle_child_failure(&self, rs: &mut RestartStatistics, now: u64) -> (r: u64)
        requires
            saturating_product(
                backoff_history(old(rs)@, self.backoff_window_ns, now).len() as u64,
                match self.initial_backoff_ns {
                    Some(b) => b,
                    None => 0,
                },
            ) + BACKOFF_NOISE_BOUND - 1 <= u64::MAX,
        ensures
            final(rs)@ == backoff_history(old(rs)@, self.backoff_window_ns, now),
            saturating_product(
                final(rs)@.len() as u64,
                match self.initial_backoff_ns {
                    Some(b) => b,
                    None => 0,
                },
            ) <= r,
            r < saturating_product(
                final(rs)@.len() as u64,
                match self.initial_backoff_ns {
                    Some(b) => b,
                    None => 0,
                },
            ) + BACKOFF_NOISE_BOUND,
    {
        self.set_failure_count(rs, now);
        let count = rs.failure_count() as u64;
        let noise = backoff_noise();
        self.backoff_delay_ns(count, noise)
    }
}

/// The restart delay grows with the number of recorded failures: more
/// failures never give a shorter backoff.
pub proof fn lemma_backoff_grows(fewer: u64, more: u64, base: u64)
    requires
        fewer <= more,
    ensures
        saturating_product(fewer, base) <= saturating_product(more, base),
{
    assert(fewer * base <= more * base) by (nonlinear_arith)
        requires
            fewer <= more,
    ;
}

} // verus!
