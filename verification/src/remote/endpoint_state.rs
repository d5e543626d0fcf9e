use vstd::prelude::*;

verus! {

/// The connection state of a remote endpoint.
#[derive(Debug, Clone, Copy, PartialEq, Eq, Structural)]
pub enum ConnectionState {
    Connected,
    Suspended,
    Reconnecting,
    Closed,
}

/// How often and for how long a lost endpoint is reconnected.
#[derive(Debug, Clone, Copy, PartialEq, Eq, Structural)]
pub struct ReconnectPolicy {
    /// Attempts before the endpoint is closed; 0 means no limit.
    pub max_retries: u32,
    /// Delay before the first attempt, in nanoseconds.
    pub initial_backoff_ns: u64,
    /// Largest delay between attempts, in nanoseconds.
    pub max_backoff_ns: u64,
}

impl ReconnectPolicy {
    /// A policy with the given limit and delays.
    pub fn new(max_retries: u32, initial_backoff_ns: u64, max_backoff_ns: u64) -> (p: Self)
        ensures
            p.max_retries == max_retries,
            p.initial_backoff_ns == initial_backoff_ns,
            p.max_backoff_ns == max_backoff_ns,
    {
        ReconnectPolicy { max_retries, initial_backoff_ns, max_backoff_ns }
    }
}

/// How often heartbeats are checked and when a silent endpoint counts as lost.
#[derive(Debug, Clone, Copy, PartialEq, Eq, Structural)]
pub struct HeartbeatConfig {
    /// Interval between checks, in nanoseconds.
    pub interval_ns: u64,
    /// Silence after which the endpoint is lost, in nanoseconds.
    pub timeout_ns: u64,
}

impl HeartbeatConfig {
    /// A configuration with the given interval and timeout.
    pub fn new(interval_ns: u64, timeout_ns: u64) -> (c: Self)
        ensures
            c.interval_ns == interval_ns,
            c.timeout_ns == timeout_ns,
    {
        HeartbeatConfig { interval_ns, timeout_ns }
    }
}

/// Whether a reconnect loop gives up before trying attempt number `attempt`.
pub open spec fn gives_up(max_retries: u32, attempt: u32) -> bool {
    max_retries > 0 && attempt > max_retries
}

/// Whether a reconnect request is ignored: the manager is stopped, or the
/// endpoint is closed or already reconnecting.
pub open spec fn reconnect_skipped(manager_stopped: bool, state: ConnectionState) -> bool {
    manager_stopped || state == ConnectionState::Closed || state == ConnectionState::Reconnecting
}

/// What a heartbeat check decides for an endpoint in `state` whose last
/// heartbeat came at `last`, with a timeout of `timeout` nanoseconds, at `now`.
pub open spec fn heartbeat_decision(
    manager_stopped: bool,
    state: ConnectionState,
    last: u64,
    timeout: u64,
    now: u64,
) -> HeartbeatAction {
    if manager_stopped {
        HeartbeatAction::Stop
    } else {
        match state {
            ConnectionState::Closed => HeartbeatAction::Stop,
            ConnectionState::Suspended => HeartbeatAction::Skip,
            ConnectionState::Reconnecting => HeartbeatAction::Skip,
            ConnectionState::Connected => {
                let elapsed = if now >= last {
                    now - last
                } else {
                    0
                };
                if elapsed >= timeout {
                    HeartbeatAction::TimedOut
                } else {
                    HeartbeatAction::Healthy
                }
            },
        }
    }
}

/// What a reconnect request leads to.
#[derive(Debug, Clone, Copy, PartialEq, Eq, Structural)]
pub enum ReconnectStart {
    /// Nothing is done: the manager is stopped, or the endpoint is closed or
    /// already reconnecting.
    Skipped,
    /// A reconnect loop starts with the given attempt number.
    Started(u32),
}

/// What one check of a heartbeat monitor leads to.
#[derive(Debug, Clone, Copy, PartialEq, Eq, Structural)]
pub enum HeartbeatAction {
    /// The monitor ends: the manager is stopped or the endpoint closed.
    Stop,
    /// The endpoint is not connected; the monitor waits for the next tick.
    Skip,
    /// The endpoint answered in time.
    Healthy,
    /// The endpoint was silent too long: it is now suspended, and the monitor
    /// ends after reporting the endpoint terminated and requesting a reconnect.
    TimedOut,
}

/// The state kept for one remote endpoint: its connection state, the
/// reconnect attempts made so far and the time of its last heartbeat.
#[derive(Debug, Clone)]
pub struct EndpointState {
    address: String,
    connection_state: ConnectionState,
    retries: u32,
    reconnect_policy: ReconnectPolicy,
    heartbeat_config: HeartbeatConfig,
    last_heartbeat_ns: u64,
}

impl EndpointState {
    /// The endpoint address.
    pub closed spec fn spec_address(&self) -> Seq<char> {
        self.address@
    }

    /// The connection state.
    pub closed spec fn spec_state(&self) -> ConnectionState {
        self.connection_state
    }

    /// The number of reconnect attempts recorded since the last reset.
    pub closed spec fn spec_retries(&self) -> u32 {
        self.retries
    }

    /// The reconnect policy.
    pub closed spec fn spec_policy(&self) -> ReconnectPolicy {
        self.reconnect_policy
    }

    /// The heartbeat configuration.
    pub closed spec fn spec_heartbeat(&self) -> HeartbeatConfig {
        self.heartbeat_config
    }

    /// The time of the last heartbeat, in nanoseconds.
    pub closed spec fn spec_last_heartbeat(&self) -> u64 {
        self.last_heartbeat_ns
    }

    /// A new endpoint state: suspended, with no reconnect attempt and a last
    /// heartbeat at time 0.
    pub fn new(address: String, reconnect_policy: ReconnectPolicy, heartbeat_config: HeartbeatConfig) -> (s: Self)
        ensures
            s.spec_address() == address@,
            s.spec_state() == ConnectionState::Suspended,
            s.spec_retries() == 0,
            s.spec_policy() == reconnect_policy,
            s.spec_heartbeat() == heartbeat_config,
            s.spec_last_heartbeat() == 0,
    {
        EndpointState {
            address,
            connection_state: ConnectionState::Suspended,
            retries: 0,
            reconnect_policy,
            heartbeat_config,
            last_heartbeat_ns: 0,
        }
    }

    /// The endpoint address.
    pub fn address(&self) -> (r: &str)
        ensures
            r@ == self.spec_address(),
    {
        self.address.as_str()
    }

    /// The connection state.
    pub fn connection_state(&self) -> (r: ConnectionState)
        ensures
            r == self.spec_state(),
    {
        self.connection_state
    }

    /// The number of reconnect attempts recorded since the last reset.
    pub fn retries(&self) -> (r: u32)
        ensures
            r == self.spec_retries(),
    {
        self.retries
    }

    /// The reconnect policy.
    pub fn reconnect_policy(&self) -> (r: ReconnectPolicy)
        ensures
            r == self.spec_policy(),
    {
        self.reconnect_policy
    }

    /// The heartbeat configuration.
    pub fn heartbeat_config(&self) -> (r: HeartbeatConfig)
        ensures
            r == self.spec_heartbeat(),
    {
        self.heartbeat_config
    }

    /// Sets the connection state; nothing else changes.
    pub fn set_connection_state(&mut self, state: ConnectionState)
        ensures
            final(self).spec_state() == state,
            final(self).spec_address() == old(self).spec_address(),
            final(self).spec_retries() == old(self).spec_retries(),
            final(self).spec_policy() == old(self).spec_policy(),
            final(self).spec_heartbeat() == old(self).spec_heartbeat(),
            final(self).spec_last_heartbeat() == old(self).spec_last_heartbeat(),
    {
        self.connection_state = state;
    }

    /// Forgets the reconnect attempts; nothing else changes.
    pub fn reset_retries(&mut self)
        ensures
            final(self).spec_retries() == 0,
            final(self).spec_state() == old(self).spec_state(),
            final(self).spec_address() == old(self).spec_address(),
            final(self).spec_policy() == old(self).spec_policy(),
            final(self).spec_heartbeat() == old(self).spec_heartbeat(),
            final(self).spec_last_heartbeat() == old(self).spec_last_heartbeat(),
    {
        self.retries = 0;
    }

    /// Records one more reconnect attempt and returns its number.
    pub fn record_retry_attempt(&mut self) -> (r: u32)
        requires
            old(self).spec_retries() < u32::MAX,
        ensures
            r == old(self).spec_retries() + 1,
            final(self).spec_retries() == r,
            final(self).spec_state() == old(self).spec_state(),
            final(self).spec_address() == old(self).spec_address(),
            final(self).spec_policy() == old(self).spec_policy(),
            final(self).spec_heartbeat() == old(self).spec_heartbeat(),
            final(self).spec_last_heartbeat() == old(self).spec_last_heartbeat(),
    {
        self.retries = self.retries + 1;
        self.retries
    }

    /// Records a heartbeat received at `now`.
    pub fn mark_heartbeat(&mut self, now: u64)
        ensures
            final(self).spec_last_heartbeat() == now,
            final(self).spec_state() == old(self).spec_state(),
            final(self).spec_retries() == old(self).spec_retries(),
            final(self).spec_address() == old(self).spec_address(),
            final(self).spec_policy() == old(self).spec_policy(),
            final(self).spec_heartbeat() == old(self).spec_heartbeat(),
    {
        self.last_heartbeat_ns = now;
    }

    /// Nanoseconds since the last heartbeat; 0 when `now` precedes it.
    pub fn elapsed_since_last_heartbeat(&self, now: u64) -> (r: u64)
        ensures
            now >= self.spec_last_heartbeat() ==> r == now - self.spec_last_heartbeat(),
            now < self.spec_last_heartbeat() ==> r == 0,
    {
        if now >= self.last_heartbeat_ns {
            now - self.last_heartbeat_ns
        } else {
            0
        }
    }

    /// Applies a new connection state as an endpoint manager does: a
    /// connected endpoint also forgets its reconnect attempts.
    pub fn update_connection_state(&mut self, state: ConnectionState)
        ensures
            final(self).spec_state() == state,
            state == ConnectionState::Connected ==> final(self).spec_retries() == 0,
            state != ConnectionState::Connected ==> final(self).spec_retries()
                == old(self).spec_retries(),
            final(self).spec_address() == old(self).spec_address(),
            final(self).spec_policy() == old(self).spec_policy(),
            final(self).spec_heartbeat() == old(self).spec_heartbeat(),
            final(self).spec_last_heartbeat() == old(self).spec_last_heartbeat(),
    {
        self.set_connection_state(state);
        if state == ConnectionState::Connected {
            self.reset_retries();
        }
    }

    /// Handles a reconnect request.  When the manager is stopped, or the
    /// endpoint is closed or already reconnecting, nothing changes; otherwise
    /// the endpoint becomes reconnecting and its first attempt is recorded.
    pub fn begin_reconnect(&mut self, manager_stopped: bool) -> (r: ReconnectStart)
        requires
            !reconnect_skipped(manager_stopped, old(self).spec_state()) ==> old(
                self,
            ).spec_retries() < u32::MAX,
        ensures
            reconnect_skipped(manager_stopped, old(self).spec_state()) ==> r
                == ReconnectStart::Skipped && *final(self) == *old(self),
            !reconnect_skipped(manager_stopped, old(self).spec_state()) ==> {
                &&& r == ReconnectStart::Started((old(self).spec_retries() + 1) as u32)
                &&& final(self).spec_state() == ConnectionState::Reconnecting
                &&& final(self).spec_retries() == old(self).spec_retries() + 1
                &&& final(self).spec_address() == old(self).spec_address()
                &&& final(self).spec_policy() == old(self).spec_policy()
                &&& final(self).spec_heartbeat() == old(self).spec_heartbeat()
                &&& final(self).spec_last_heartbeat() == old(self).spec_last_heartbeat()
            },
    {
        if manager_stopped {
            return ReconnectStart::Skipped;
        }
        match self.connection_state {
            ConnectionState::Closed | ConnectionState::Reconnecting => ReconnectStart::Skipped,
            _ => {
                self.set_connection_state(ConnectionState::Reconnecting);
                let attempt = self.record_retry_attempt();
                ReconnectStart::Started(attempt)
            },
        }
    }

    /// The check at the top of each reconnect round for attempt number
    /// `attempt`: the endpoint is marked reconnecting, or closed when the
    /// policy allows no further attempt.  Returns whether the loop gives up.
    pub fn check_reconnect_attempt(&mut self, attempt: u32) -> (give_up: bool)
        ensures
            give_up == gives_up(old(self).spec_policy().max_retries, attempt),
            give_up ==> final(self).spec_state() == ConnectionState::Closed,
            !give_up ==> final(self).spec_state() == ConnectionState::Reconnecting,
            final(self).spec_retries() == old(self).spec_retries(),
            final(self).spec_address() == old(self).spec_address(),
            final(self).spec_policy() == old(self).spec_policy(),
            final(self).spec_heartbeat() == old(self).spec_heartbeat(),
            final(self).spec_last_heartbeat() == old(self).spec_last_heartbeat(),
    {
        let max_retries = self.reconnect_policy.max_retries;
        if max_retries > 0 && attempt > max_retries {
            self.set_connection_state(ConnectionState::Closed);
            true
        } else {
            self.set_connection_state(ConnectionState::Reconnecting);
            false
        }
    }

    /// Records a successful reconnect at `now`: the endpoint is connected,
    /// its attempts are forgotten and a heartbeat is recorded.
    pub fn reconnect_succeeded(&mut self, now: u64)
        ensures
            final(self).spec_state() == ConnectionState::Connected,
            final(self).spec_retries() == 0,
            final(self).spec_last_heartbeat() == now,
            final(self).spec_address() == old(self).spec_address(),
            final(self).spec_policy() == old(self).spec_policy(),
            final(self).spec_heartbeat() == old(self).spec_heartbeat(),
    {
        self.set_connection_state(ConnectionState::Connected);
        self.reset_retries();
        self.mark_heartbeat(now);
    }

    /// Records a failed reconnect attempt: the endpoint is suspended and the
    /// number of the next attempt is returned.
    pub fn reconnect_failed(&mut self) -> (next_attempt: u32)
        requires
            old(self).spec_retries() < u32::MAX,
        ensures
            final(self).spec_state() == ConnectionState::Suspended,
            next_attempt == old(self).spec_retries() + 1,
            final(self).spec_retries() == next_attempt,
            final(self).spec_address() == old(self).spec_address(),
            final(self).spec_policy() == old(self).spec_policy(),
            final(self).spec_heartbeat() == old(self).spec_heartbeat(),
            final(self).spec_last_heartbeat() == old(self).spec_last_heartbeat(),
    {
        self.set_connection_state(ConnectionState::Suspended);
        self.record_retry_attempt()
    }

    /// One tick of the heartbeat monitor at `now`.  A connected endpoint that
    /// has been silent for at least the timeout becomes suspended.
    pub fn heartbeat_tick(&mut self, manager_stopped: bool, now: u64) -> (r: HeartbeatAction)
        ensures
            r == heartbeat_decision(
                manager_stopped,
                old(self).spec_state(),
                old(self).spec_last_heartbeat(),
                old(self).spec_heartbeat().timeout_ns,
                now,
            ),
            r == HeartbeatAction::TimedOut ==> final(self).spec_state()
                == ConnectionState::Suspended,
            !manager_stopped ==> (r == HeartbeatAction::Stop <==> old(self).spec_state()
                == ConnectionState::Closed),
            r == HeartbeatAction::Skip <==> !manager_stopped && (old(self).spec_state()
                == ConnectionState::Suspended || old(self).spec_state()
                == ConnectionState::Reconnecting),
            r != HeartbeatAction::TimedOut ==> *final(self) == *old(self),
            final(self).spec_retries() == old(self).spec_retries(),
            final(self).spec_address() == old(self).spec_address(),
            final(self).spec_policy() == old(self).spec_policy(),
            final(self).spec_heartbeat() == old(self).spec_heartbeat(),
            final(self).spec_last_heartbeat() == old(self).spec_last_heartbeat(),
    {
        if manager_stopped {
            return HeartbeatAction::Stop;
        }
        match self.connection_state {
            ConnectionState::Closed => HeartbeatAction::Stop,
            ConnectionState::Suspended | ConnectionState::Reconnecting => HeartbeatAction::Skip,
            ConnectionState::Connected => {
                let elapsed = self.elapsed_since_last_heartbeat(now);
                if elapsed >= self.heartbeat_config.timeout_ns {
                    self.set_connection_state(ConnectionState::Suspended);
                    HeartbeatAction::TimedOut
                } else {
                    HeartbeatAction::Healthy
                }
            },
        }
    }
}

/// With a limit of `max_retries` attempts, a reconnect loop makes attempts
/// 1 to `max_retries` and gives up at the next one; with no limit it never
/// gives up.
pub proof fn lemma_reconnect_gives_up_after_max(max_retries: u32, attempt: u32)
    ensures
        max_retries > 0 ==> (gives_up(max_retries, attempt) <==> attempt > max_retries),
        max_retries == 0 ==> !gives_up(max_retries, attempt),
{
}

/// A connected endpoint whose heartbeat was recorded within the timeout is
/// healthy; once the timeout has passed since its last heartbeat it is
/// timed out.
pub proof fn lemma_heartbeat_timeout(last: u64, timeout: u64, now: u64)
    requires
        last <= now,
    ensures
        now - last < timeout ==> heartbeat_decision(false, ConnectionState::Connected, last, timeout, now)
            == HeartbeatAction::Healthy,
        now - last >= timeout ==> heartbeat_decision(false, ConnectionState::Connected, last, timeout, now)
            == HeartbeatAction::TimedOut,
{
}

/// The heartbeat monitor ends when the manager stops or the endpoint is
/// closed, and only then; while the endpoint is suspended or reconnecting it
/// waits for the next tick; only a connected endpoint is found healthy or
/// timed out.
pub proof fn lemma_heartbeat_monitor_lifetime(
    manager_stopped: bool,
    state: ConnectionState,
    last: u64,
    timeout: u64,
    now: u64,
)
    ensures
        heartbeat_decision(manager_stopped, state, last, timeout, now) == HeartbeatAction::Stop
            <==> manager_stopped || state == ConnectionState::Closed,
        heartbeat_decision(manager_stopped, state, last, timeout, now) == HeartbeatAction::Skip
            <==> !manager_stopped && (state == ConnectionState::Suspended || state
            == ConnectionState::Reconnecting),
        heartbeat_decision(manager_stopped, state, last, timeout, now) == HeartbeatAction::Healthy
            || heartbeat_decision(manager_stopped, state, last, timeout, now)
            == HeartbeatAction::TimedOut ==> !manager_stopped && state == ConnectionState::Connected,
{
}

} // verus!
