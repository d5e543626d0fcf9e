use vstd::prelude::*;

use crate::remote::endpoint_statistics::wrapping_inc;

verus! {

/// How often the supervisor of a cell was asked for and found, and how
/// often it was asked for and missing.
#[derive(Debug, Default, Clone, Copy, PartialEq, Eq)]
pub struct SupervisorCellStats {
    pub hits: u64,
    pub misses: u64,
}

/// The slot that holds an actor's current supervisor, with the metrics
/// runtime it reports to and counts of the lookups that found a supervisor
/// and of those that did not.
#[derive(Debug)]
pub struct SupervisorCell<S, M> {
    supervisor: Option<S>,
    metrics_runtime: Option<M>,
    snapshot_hits: u64,
    snapshot_misses: u64,
}

impl<S, M> SupervisorCell<S, M> {
    /// The supervisor held.
    pub closed spec fn spec_supervisor(&self) -> Option<S> {
        self.supervisor
    }

    /// The metrics runtime held.
    pub closed spec fn spec_metrics_runtime(&self) -> Option<M> {
        self.metrics_runtime
    }

    /// The lookup counts.
    pub closed spec fn spec_stats(&self) -> SupervisorCellStats {
        SupervisorCellStats { hits: self.snapshot_hits, misses: self.snapshot_misses }
    }

    /// An empty cell reporting to `metrics_runtime`, with no lookups counted.
    pub fn new(metrics_runtime: Option<M>) -> (r: Self)
        ensures
            r.spec_supervisor() is None,
            r.spec_metrics_runtime() == metrics_runtime,
            r.spec_stats() == (SupervisorCellStats { hits: 0, misses: 0 }),
    {
        SupervisorCell { supervisor: None, metrics_runtime, snapshot_hits: 0, snapshot_misses: 0 }
    }

    /// Put `supervisor` in the cell, in place of any other.
    pub fn replace_supervisor(&mut self, supervisor: S)
        ensures
            final(self).spec_supervisor() == Some(supervisor),
            final(self).spec_metrics_runtime() == old(self).spec_metrics_runtime(),
            final(self).spec_stats() == old(self).spec_stats(),
    {
        self.supervisor = Some(supervisor);
    }

    /// The supervisor, counting the lookup as a hit when there is one and
    /// as a miss when there is none; the counts wrap.
    pub fn load_supervisor(&mut self) -> (r: Option<&S>)
        ensures
            r matches Some(s) ==> old(self).spec_supervisor() == Some(*s),
            r is None <==> old(self).spec_supervisor() is None,
            final(self).spec_supervisor() == old(self).spec_supervisor(),
            final(self).spec_metrics_runtime() == old(self).spec_metrics_runtime(),
            old(self).spec_supervisor() is Some ==> final(self).spec_stats() == (
            SupervisorCellStats {
                hits: wrapping_inc(old(self).spec_stats().hits),
                misses: old(self).spec_stats().misses,
            }),
            old(self).spec_supervisor() is None ==> final(self).spec_stats() == (
            SupervisorCellStats {
                hits: old(self).spec_stats().hits,
                misses: wrapping_inc(old(self).spec_stats().misses),
            }),
    {
        if self.supervisor.is_some() {
            self.snapshot_hits = self.snapshot_hits.wrapping_add(1);
        } else {
            self.snapshot_misses = self.snapshot_misses.wrapping_add(1);
        }
        self.supervisor.as_ref()
    }

    /// The lookup counts.
    pub fn snapshot_stats(&self) -> (r: SupervisorCellStats)
        ensures
            r == self.spec_stats(),
    {
        SupervisorCellStats { hits: self.snapshot_hits, misses: self.snapshot_misses }
    }

    /// The metrics runtime, if one was given.
    pub fn metrics_runtime(&self) -> (r: Option<&M>)
        ensures
            r matches Some(m) ==> self.spec_metrics_runtime() == Some(*m),
            r is None <==> self.spec_metrics_runtime() is None,
    {
        self.metrics_runtime.as_ref()
    }
}

} // verus!
