use vstd::prelude::*;

verus! {

/// `count` plus `n`, wrapping past the largest `usize`.
pub open spec fn wrapping_count_add(count: usize, n: usize) -> usize {
    if count + n > usize::MAX {
        (count + n - usize::MAX - 1) as usize
    } else {
        (count + n) as usize
    }
}

/// A counter of outstanding tasks: `add` announces tasks, `done` retires
/// one, and the waiters are woken when the last one is retired.
#[derive(Debug, Default)]
pub struct WaitGroup {
    count: usize,
}

impl WaitGroup {
    /// The number of outstanding tasks.
    pub closed spec fn spec_count(&self) -> usize {
        self.count
    }

    /// A group with no outstanding task.
    pub fn new() -> (r: Self)
        ensures
            r.spec_count() == 0,
    {
        WaitGroup { count: 0 }
    }

    /// A group with `count` outstanding tasks.
    pub fn with_count(count: usize) -> (r: Self)
        ensures
            r.spec_count() == count,
    {
        WaitGroup { count }
    }

    /// Announce `n` more tasks; the count wraps as an atomic counter does.
    pub fn add(&mut self, n: usize)
        ensures
            final(self).spec_count() == wrapping_count_add(old(self).spec_count(), n),
    {
        self.count = self.count.wrapping_add(n);
    }

    /// Retire one task.  Returns whether it was the last, in which case the
    /// waiters are to be woken.
    pub fn done(&mut self) -> (r: bool)
        requires
            old(self).spec_count() > 0,
        ensures
            final(self).spec_count() == old(self).spec_count() - 1,
            r == (old(self).spec_count() == 1),
    {
        let previous = self.count;
        self.count = previous - 1;
        previous == 1
    }

    /// The number of outstanding tasks; a waiter may go on when it is zero.
    pub fn count(&self) -> (r: usize)
        ensures
            r == self.spec_count(),
    {
        self.count
    }
}

/// After `n` tasks are announced on an empty group and `n` are retired,
/// none is outstanding, and exactly the last retirement wakes the waiters.
pub proof fn lemma_last_done_wakes(n: usize, retired: usize)
    requires
        0 < retired <= n,
    ensures
        wrapping_count_add(0, n) == n,
        (wrapping_count_add(0, n) - (retired - 1) == 1) <==> retired == n,
{
}

} // verus!
