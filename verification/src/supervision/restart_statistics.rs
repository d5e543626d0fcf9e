use vstd::prelude::*;

verus! {

/// Time elapsed from `t` to `now` in nanoseconds; a sample later than `now`
/// counts as no time elapsed.
pub open spec fn elapsed_since(t: u64, now: u64) -> int {
    if now >= t {
        now - t
    } else {
        0
    }
}

/// Whether a failure recorded at `t` lies inside a window of `within`
/// nanoseconds that ends at `now`.
pub open spec fn is_recent(t: u64, within: u64, now: u64) -> bool {
    elapsed_since(t, now) < within
}

/// How many of the recorded failure times lie inside the window.
pub open spec fn count_recent(times: Seq<u64>, within: u64, now: u64) -> nat
    decreases times.len(),
{
    if times.len() == 0 {
        0
    } else {
        count_recent(times.drop_last(), within, now) + if is_recent(times.last(), within, now) {
            1nat
        } else {
            0nat
        }
    }
}

/// The number of failures a supervisor counts for a window of `within`
/// nanoseconds: a zero-length window counts every recorded failure.
pub open spec fn failures_within(times: Seq<u64>, within: u64, now: u64) -> nat {
    if within == 0 {
        times.len()
    } else {
        count_recent(times, within, now)
    }
}

/// A failure history: the times, in nanoseconds, at which a child failed.
#[derive(Debug, Clone)]
pub struct RestartStatistics {
    failure_times: Vec<u64>,
}

impl View for RestartStatistics {
    type V = Seq<u64>;

    closed spec fn view(&self) -> Seq<u64> {
        self.failure_times@
    }
}

impl RestartStatistics {
    /// A history with no failure.
    pub fn new() -> (s: Self)
        ensures
            s@ == Seq::<u64>::empty(),
    {
        RestartStatistics { failure_times: Vec::new() }
    }

    /// A history holding the given failure times, oldest first.
    pub fn with_values(failure_times: Vec<u64>) -> (s: Self)
        ensures
            s@ == failure_times@,
    {
        RestartStatistics { failure_times }
    }

    /// The number of recorded failures, whatever their age.
    pub fn failure_count(&self) -> (r: usize)
        ensures
            r == self@.len(),
    {
        self.failure_times.len()
    }

    /// Records a failure at `now`.
    pub fn fail(&mut self, now: u64)
        ensures
            final(self)@ == old(self)@.push(now),
    {
        self.failure_times.push(now);
    }

    /// Forgets every recorded failure.
    pub fn reset(&mut self)
        ensures
            final(self)@ == Seq::<u64>::empty(),
    {
        self.failure_times.clear();
    }

    /// The failures inside a window of `within` nanoseconds ending at `now`;
    /// with `within == 0` every recorded failure counts.
    pub fn number_of_failures(&self, within: u64, now: u64) -> (r: usize)
        ensures
            r == failures_within(self@, within, now),
    {
        if within == 0 {
            return self.failure_times.len();
        }
        let mut count: usize = 0;
        let mut i: usize = 0;
        while i < self.failure_times.len()
            invariant
                i <= self.failure_times@.len(),
                count == count_recent(self.failure_times@.take(i as int), within, now),
                count <= i,
            decreases self.failure_times@.len() - i,
        {
            let t = self.failure_times[i];
            proof {
                assert(self.failure_times@.take(i + 1).drop_last() =~= self.failure_times@.take(
                    i as int,
                ));
            }
            let elapsed: u64 = if now >= t {
                now - t
            } else {
                0
            };
            if elapsed < within {
                count = count + 1;
            }
            i = i + 1;
        }
        proof {
            assert(self.failure_times@.take(i as int) =~= self.failure_times@);
        }
        count
    }
}

/// Counting inside a window never yields more failures than were recorded.
pub proof fn lemma_count_recent_bounded(times: Seq<u64>, within: u64, now: u64)
    ensures
        count_recent(times, within, now) <= times.len(),
    decreases times.len(),
{
    if times.len() > 0 {
        lemma_count_recent_bounded(times.drop_last(), within, now);
    }
}

/// A failure recorded at `now` itself always falls inside a non-empty window.
pub proof fn lemma_fail_now_counts(times: Seq<u64>, within: u64, now: u64)
    requires
        within > 0,
    ensures
        failures_within(times.push(now), within, now) == failures_within(times, within, now) + 1,
{
    assert(times.push(now).drop_last() =~= times);
}

} // verus!
