use vstd::prelude::*;

verus! {

/// How full the send queue of an endpoint is.
#[derive(Debug, Clone, Copy, PartialEq, Eq, Structural)]
pub enum BackpressureLevel {
    Normal,
    Warning,
    Critical,
}

impl BackpressureLevel {
    /// The numeric code of the level carried in throttling events.
    pub fn code(&self) -> (r: i32)
        ensures
            *self == BackpressureLevel::Normal ==> r == 0,
            *self == BackpressureLevel::Warning ==> r == 1,
            *self == BackpressureLevel::Critical ==> r == 2,
    {
        match self {
            BackpressureLevel::Normal => 0,
            BackpressureLevel::Warning => 1,
            BackpressureLevel::Critical => 2,
        }
    }
}

/// A copy of the counters of one endpoint taken at one moment.
#[derive(Debug, Clone, Copy, PartialEq, Eq, Structural)]
pub struct EndpointStatisticsSnapshot {
    pub queue_capacity: usize,
    pub queue_size: usize,
    pub dead_letters: u64,
    pub backpressure_level: BackpressureLevel,
    pub deliver_success: u64,
    pub deliver_failure: u64,
    pub reconnect_attempts: u64,
}

/// The counters kept for one remote endpoint.  The event counters wrap
/// around on overflow, as atomic counters do.
#[derive(Debug)]
pub struct EndpointStatistics {
    queue_capacity: usize,
    queue_size: usize,
    dead_letters: u64,
    backpressure_level: BackpressureLevel,
    deliver_success: u64,
    deliver_failure: u64,
    reconnect_attempts: u64,
}

/// `x + 1` modulo 2^64.
pub open spec fn wrapping_inc(x: u64) -> u64 {
    if x == u64::MAX {
        0
    } else {
        (x + 1) as u64
    }
}

impl View for EndpointStatistics {
    type V = EndpointStatisticsSnapshot;

    closed spec fn view(&self) -> EndpointStatisticsSnapshot {
        EndpointStatisticsSnapshot {
            queue_capacity: self.queue_capacity,
            queue_size: self.queue_size,
            dead_letters: self.dead_letters,
            backpressure_level: self.backpressure_level,
            deliver_success: self.deliver_success,
            deliver_failure: self.deliver_failure,
            reconnect_attempts: self.reconnect_attempts,
        }
    }
}

impl EndpointStatistics {
    /// Counters at zero, an empty queue of capacity 0 and a normal level.
    pub fn new() -> (s: Self)
        ensures
            s@ == (EndpointStatisticsSnapshot {
                queue_capacity: 0,
                queue_size: 0,
                dead_letters: 0,
                backpressure_level: BackpressureLevel::Normal,
                deliver_success: 0,
                deliver_failure: 0,
                reconnect_attempts: 0,
            }),
    {
        EndpointStatistics {
            queue_capacity: 0,
            queue_size: 0,
            dead_letters: 0,
            backpressure_level: BackpressureLevel::Normal,
            deliver_success: 0,
            deliver_failure: 0,
            reconnect_attempts: 0,
        }
    }

    /// The present values of all counters.
    pub fn snapshot(&self) -> (r: EndpointStatisticsSnapshot)
        ensures
            r == self@,
    {
        EndpointStatisticsSnapshot {
            queue_capacity: self.queue_capacity,
            queue_size: self.queue_size,
            dead_letters: self.dead_letters,
            backpressure_level: self.backpressure_level,
            deliver_success: self.deliver_success,
            deliver_failure: self.deliver_failure,
            reconnect_attempts: self.reconnect_attempts,
        }
    }

    /// Stores the queue capacity, the queue length and the backpressure level
    /// derived from them; returns whether the level changed, in which case a
    /// throttling event is due.
    pub fn record_queue_state(&mut self, capacity: usize, len: usize, level: BackpressureLevel) -> (changed: bool)
        ensures
            final(self)@ == (EndpointStatisticsSnapshot {
                queue_capacity: capacity,
                queue_size: len,
                backpressure_level: level,
                ..old(self)@
            }),
            changed == (old(self)@.backpressure_level != level),
    {
        self.queue_capacity = capacity;
        self.queue_size = len;
        let previous = self.backpressure_level;
        self.backpressure_level = level;
        previous != level
    }

    /// Counts one dead letter.
    pub fn increment_dead_letter(&mut self)
        ensures
            final(self)@ == (EndpointStatisticsSnapshot {
                dead_letters: wrapping_inc(old(self)@.dead_letters),
                ..old(self)@
            }),
    {
        self.dead_letters = self.dead_letters.wrapping_add(1);
    }

    /// Counts one successful delivery.
    pub fn increment_deliver_success(&mut self)
        ensures
            final(self)@ == (EndpointStatisticsSnapshot {
                deliver_success: wrapping_inc(old(self)@.deliver_success),
                ..old(self)@
            }),
    {
        self.deliver_success = self.deliver_success.wrapping_add(1);
    }

    /// Counts one failed delivery.
    pub fn increment_deliver_failure(&mut self)
        ensures
            final(self)@ == (EndpointStatisticsSnapshot {
                deliver_failure: wrapping_inc(old(self)@.deliver_failure),
                ..old(self)@
            }),
    {
        self.deliver_failure = self.deliver_failure.wrapping_add(1);
    }

    /// Counts one reconnect attempt and returns the new count.
    pub fn record_reconnect_attempt(&mut self) -> (r: u64)
        requires
            old(self)@.reconnect_attempts < u64::MAX,
        ensures
            r == old(self)@.reconnect_attempts + 1,
            final(self)@ == (EndpointStatisticsSnapshot { reconnect_attempts: r, ..old(self)@ }),
    {
        self.reconnect_attempts = self.reconnect_attempts + 1;
        self.reconnect_attempts
    }
}

} // verus!
