use dashmap::DashMap;
use vstd::prelude::*;

use crate::remote::endpoint_statistics::{
    wrapping_inc, BackpressureLevel, EndpointStatistics, EndpointStatisticsSnapshot,
};

verus! {

/// Declares `dashmap::DashMap` to the verifier; its contents are reached
/// only through [`endpoint_counters_of`].
#[verifier::external_type_specification]
#[verifier::external_body]
#[verifier::reject_recursive_types(K)]
#[verifier::reject_recursive_types(V)]
#[verifier::reject_recursive_types(S)]
pub struct ExDashMap<K, V, S>(DashMap<K, V, S>);

/// A concurrent map from endpoint addresses to their statistics.
pub type EndpointStatsMap = DashMap<String, EndpointStatistics>;

/// The counters held by a `DashMap` from endpoint addresses to statistics,
/// by address as a character sequence.
pub uninterp spec fn endpoint_counters_of(m: EndpointStatsMap) -> Map<
    Seq<char>,
    EndpointStatisticsSnapshot,
>;

/// Calls `DashMap::new`: an empty map.
#[verifier::external_body]
fn stats_new() -> (r: EndpointStatsMap)
    ensures
        endpoint_counters_of(r).dom() == Set::<Seq<char>>::empty(),
{
    DashMap::new()
}

/// Calls `DashMap::insert`: the key maps to `value` afterwards, in place of
/// what it mapped to before; the other keys are untouched.
#[verifier::external_body]
fn stats_insert(m: &mut EndpointStatsMap, key: String, value: EndpointStatistics)
    ensures
        endpoint_counters_of(*final(m)) == endpoint_counters_of(*old(m)).insert(key@, value@),
{
    m.insert(key, value);
}

/// Calls `DashMap::remove`: the key is absent afterwards, and its value is
/// handed back when it was present.
#[verifier::external_body]
fn stats_remove(m: &mut EndpointStatsMap, key: &str) -> (r: Option<
    EndpointStatistics,
>)
    ensures
        endpoint_counters_of(*final(m)) == endpoint_counters_of(*old(m)).remove(key@),
        r is Some <==> endpoint_counters_of(*old(m)).contains_key(key@),
        r matches Some(v) ==> v@ == endpoint_counters_of(*old(m))[key@],
{
    m.remove(key).map(|(_, v)| v)
}

/// Calls `DashMap::get` and takes the snapshot of the value found.
#[verifier::external_body]
fn stats_snapshot(m: &EndpointStatsMap, key: &str) -> (r: Option<
    EndpointStatisticsSnapshot,
>)
    ensures
        r is Some <==> endpoint_counters_of(*m).contains_key(key@),
        r matches Some(v) ==> v == endpoint_counters_of(*m)[key@],
{
    m.get(key).map(|entry| entry.value().snapshot())
}

/// The counters of an endpoint that has none recorded yet.
pub open spec fn fresh_snapshot() -> EndpointStatisticsSnapshot {
    EndpointStatisticsSnapshot {
        queue_capacity: 0,
        queue_size: 0,
        dead_letters: 0,
        backpressure_level: BackpressureLevel::Normal,
        deliver_success: 0,
        deliver_failure: 0,
        reconnect_attempts: 0,
    }
}

/// The counters recorded for `address`, or fresh ones.
pub open spec fn counters_or_fresh(
    table: Map<Seq<char>, EndpointStatisticsSnapshot>,
    address: Seq<char>,
) -> EndpointStatisticsSnapshot {
    if table.contains_key(address) {
        table[address]
    } else {
        fresh_snapshot()
    }
}

/// The counters of each remote endpoint, by address.  An endpoint's entry
/// is made, with fresh counters, the first time something is recorded for it.
#[derive(Debug)]
pub struct EndpointStatisticsTable {
    stats: EndpointStatsMap,
}

impl EndpointStatisticsTable {
    /// The counters of each endpoint with an entry.
    pub closed spec fn spec_table(&self) -> Map<Seq<char>, EndpointStatisticsSnapshot> {
        endpoint_counters_of(self.stats)
    }

    /// A table with no entry.
    pub fn new() -> (r: Self)
        ensures
            r.spec_table() == Map::<Seq<char>, EndpointStatisticsSnapshot>::empty(),
    {
        let r = EndpointStatisticsTable { stats: stats_new() };
        proof {
            assert(r.spec_table() =~= Map::<Seq<char>, EndpointStatisticsSnapshot>::empty());
        }
        r
    }

    /// Takes the counters of `address` out of the table, or fresh ones.
    fn take_or_fresh(&mut self, address: &str) -> (r: EndpointStatistics)
        ensures
            r@ == counters_or_fresh(old(self).spec_table(), address@),
            final(self).spec_table() == old(self).spec_table().remove(address@),
    {
        match stats_remove(&mut self.stats, address) {
            Some(s) => s,
            None => EndpointStatistics::new(),
        }
    }

    /// Puts the counters of `address` back, after taking them out.
    fn put_back(&mut self, address: &str, stats: EndpointStatistics)
        ensures
            final(self).spec_table() == old(self).spec_table().insert(address@, stats@),
    {
        stats_insert(&mut self.stats, String::from_str(address), stats);
    }

    /// Records the queue state of `address`; returns whether its level
    /// changed, in which case a throttling event is due.
    pub fn record_queue_state(
        &mut self,
        address: &str,
        capacity: usize,
        len: usize,
        level: BackpressureLevel,
    ) -> (changed: bool)
        ensures
            final(self).spec_table() == old(self).spec_table().insert(
                address@,
                EndpointStatisticsSnapshot {
                    queue_capacity: capacity,
                    queue_size: len,
                    backpressure_level: level,
                    ..counters_or_fresh(old(self).spec_table(), address@)
                },
            ),
            changed == (counters_or_fresh(old(self).spec_table(), address@).backpressure_level
                != level),
    {
        let mut stats = self.take_or_fresh(address);
        let changed = stats.record_queue_state(capacity, len, level);
        self.put_back(address, stats);
        proof {
            assert(self.spec_table() =~= old(self).spec_table().insert(address@, stats@));
        }
        changed
    }

    /// Counts one dead letter for `address`.
    pub fn increment_dead_letter(&mut self, address: &str)
        ensures
            final(self).spec_table() == old(self).spec_table().insert(
                address@,
                EndpointStatisticsSnapshot {
                    dead_letters: wrapping_inc(
                        counters_or_fresh(old(self).spec_table(), address@).dead_letters,
                    ),
                    ..counters_or_fresh(old(self).spec_table(), address@)
                },
            ),
    {
        let mut stats = self.take_or_fresh(address);
        stats.increment_dead_letter();
        self.put_back(address, stats);
        proof {
            assert(self.spec_table() =~= old(self).spec_table().insert(address@, stats@));
        }
    }

    /// Counts one successful delivery to `address`.
    pub fn increment_deliver_success(&mut self, address: &str)
        ensures
            final(self).spec_table() == old(self).spec_table().insert(
                address@,
                EndpointStatisticsSnapshot {
                    deliver_success: wrapping_inc(
                        counters_or_fresh(old(self).spec_table(), address@).deliver_success,
                    ),
                    ..counters_or_fresh(old(self).spec_table(), address@)
                },
            ),
    {
        let mut stats = self.take_or_fresh(address);
        stats.increment_deliver_success();
        self.put_back(address, stats);
        proof {
            assert(self.spec_table() =~= old(self).spec_table().insert(address@, stats@));
        }
    }

    /// Counts one failed delivery to `address`.
    pub fn increment_deliver_failure(&mut self, address: &str)
        ensures
            final(self).spec_table() == old(self).spec_table().insert(
                address@,
                EndpointStatisticsSnapshot {
                    deliver_failure: wrapping_inc(
                        counters_or_fresh(old(self).spec_table(), address@).deliver_failure,
                    ),
                    ..counters_or_fresh(old(self).spec_table(), address@)
                },
            ),
    {
        let mut stats = self.take_or_fresh(address);
        stats.increment_deliver_failure();
        self.put_back(address, stats);
        proof {
            assert(self.spec_table() =~= old(self).spec_table().insert(address@, stats@));
        }
    }

    /// Counts one reconnect attempt to `address` and returns the new count.
    pub fn record_reconnect_attempt(&mut self, address: &str) -> (r: u64)
        requires
            counters_or_fresh(old(self).spec_table(), address@).reconnect_attempts < u64::MAX,
        ensures
            r == counters_or_fresh(old(self).spec_table(), address@).reconnect_attempts + 1,
            final(self).spec_table() == old(self).spec_table().insert(
                address@,
                EndpointStatisticsSnapshot {
                    reconnect_attempts: r,
                    ..counters_or_fresh(old(self).spec_table(), address@)
                },
            ),
    {
        let mut stats = self.take_or_fresh(address);
        let r = stats.record_reconnect_attempt();
        self.put_back(address, stats);
        proof {
            assert(self.spec_table() =~= old(self).spec_table().insert(address@, stats@));
        }
        r
    }

    /// Forgets the counters of `address`.
    pub fn remove_statistics(&mut self, address: &str)
        ensures
            final(self).spec_table() == old(self).spec_table().remove(address@),
    {
        let _ = stats_remove(&mut self.stats, address);
    }

    /// The counters of `address`, if it has an entry.
    pub fn statistics_snapshot(&self, address: &str) -> (r: Option<EndpointStatisticsSnapshot>)
        ensures
            r is None <==> !self.spec_table().contains_key(address@),
            r is Some ==> r->0 == self.spec_table()[address@],
    {
        stats_snapshot(&self.stats, address)
    }
}

/// Counting an event for one endpoint changes no other endpoint's counters,
/// and forgetting an endpoint forgets only that one.
pub proof fn lemma_other_endpoints_untouched(
    table: Map<Seq<char>, EndpointStatisticsSnapshot>,
    address: Seq<char>,
    counters: EndpointStatisticsSnapshot,
    other: Seq<char>,
)
    requires
        other != address,
    ensures
        table.insert(address, counters).contains_key(other) == table.contains_key(other),
        table.contains_key(other) ==> table.insert(address, counters)[other] == table[other],
        table.remove(address).contains_key(other) == table.contains_key(other),
        table.contains_key(other) ==> table.remove(address)[other] == table[other],
{
}

/// One call on a statistics table for a given address.
pub enum StatisticsEvent {
    /// `record_queue_state` with a capacity, a length and a level.
    QueueState(usize, usize, BackpressureLevel),
    /// `increment_dead_letter`.
    DeadLetter,
    /// `increment_deliver_success`.
    DeliverSuccess,
    /// `increment_deliver_failure`.
    DeliverFailure,
    /// `record_reconnect_attempt`.
    ReconnectAttempt,
}

/// The table after one call for `address`, as that call's contract gives it.
pub open spec fn table_after(
    table: Map<Seq<char>, EndpointStatisticsSnapshot>,
    address: Seq<char>,
    event: StatisticsEvent,
) -> Map<Seq<char>, EndpointStatisticsSnapshot> {
    let c = counters_or_fresh(table, address);
    table.insert(
        address,
        match event {
            StatisticsEvent::QueueState(capacity, len, level) => EndpointStatisticsSnapshot {
                queue_capacity: capacity,
                queue_size: len,
                backpressure_level: level,
                ..c
            },
            StatisticsEvent::DeadLetter => EndpointStatisticsSnapshot {
                dead_letters: wrapping_inc(c.dead_letters),
                ..c
            },
            StatisticsEvent::DeliverSuccess => EndpointStatisticsSnapshot {
                deliver_success: wrapping_inc(c.deliver_success),
                ..c
            },
            StatisticsEvent::DeliverFailure => EndpointStatisticsSnapshot {
                deliver_failure: wrapping_inc(c.deliver_failure),
                ..c
            },
            StatisticsEvent::ReconnectAttempt => EndpointStatisticsSnapshot {
                reconnect_attempts: wrapping_inc(c.reconnect_attempts),
                ..c
            },
        },
    )
}

/// The table after a sequence of calls for `address`.
pub open spec fn table_after_all(
    table: Map<Seq<char>, EndpointStatisticsSnapshot>,
    address: Seq<char>,
    events: Seq<StatisticsEvent>,
) -> Map<Seq<char>, EndpointStatisticsSnapshot>
    decreases events.len(),
{
    if events.len() == 0 {
        table
    } else {
        table_after(table_after_all(table, address, events.drop_last()), address, events.last())
    }
}

/// How many of `events` satisfy `which`.
pub open spec fn count_events(events: Seq<StatisticsEvent>, which: spec_fn(StatisticsEvent) -> bool) -> nat
    decreases events.len(),
{
    if events.len() == 0 {
        0
    } else {
        count_events(events.drop_last(), which) + if which(events.last()) {
            1nat
        } else {
            0nat
        }
    }
}

/// The last queue state recorded among `events`, if any.
pub open spec fn last_queue_state(events: Seq<StatisticsEvent>) -> Option<
    (usize, usize, BackpressureLevel),
>
    decreases events.len(),
{
    if events.len() == 0 {
        None
    } else {
        match events.last() {
            StatisticsEvent::QueueState(capacity, len, level) => Some((capacity, len, level)),
            _ => last_queue_state(events.drop_last()),
        }
    }
}

/// `n` modulo 2^64, as counters that wrap hold it.
pub open spec fn wrapped(n: nat) -> u64 {
    (n % 0x1_0000_0000_0000_0000) as u64
}

proof fn lemma_wrapped_step(n: nat)
    ensures
        wrapping_inc(wrapped(n)) == wrapped(n + 1),
{
    let m: int = 0x1_0000_0000_0000_0000;
    let x: int = n as int;
    let q: int = x / m;
    let r: int = x % m;
    vstd::arithmetic::div_mod::lemma_fundamental_div_mod(x, m);
    if r < m - 1 {
        vstd::arithmetic::div_mod::lemma_fundamental_div_mod_converse(x + 1, m, q, r + 1);
    } else {
        vstd::arithmetic::div_mod::lemma_fundamental_div_mod_converse(x + 1, m, q + 1, 0);
    }
}

/// For an address with no entry (since the table was made or since its
/// entry was removed), after any sequence of calls for it: it has an entry
/// exactly when there was a call; each counter equals the number of its
/// calls, modulo 2^64; the queue capacity, length and level are the last
/// recorded ones, or 0, 0 and normal when none was recorded.
pub proof fn lemma_counters_count_calls(
    table: Map<Seq<char>, EndpointStatisticsSnapshot>,
    address: Seq<char>,
    events: Seq<StatisticsEvent>,
)
    requires
        !table.contains_key(address),
    ensures
        table_after_all(table, address, events).contains_key(address) == (events.len() > 0),
        events.len() > 0 ==> {
            let c = table_after_all(table, address, events)[address];
            &&& c.dead_letters == wrapped(
                count_events(events, |e: StatisticsEvent| e is DeadLetter),
            )
            &&& c.deliver_success == wrapped(
                count_events(events, |e: StatisticsEvent| e is DeliverSuccess),
            )
            &&& c.deliver_failure == wrapped(
                count_events(events, |e: StatisticsEvent| e is DeliverFailure),
            )
            &&& c.reconnect_attempts == wrapped(
                count_events(events, |e: StatisticsEvent| e is ReconnectAttempt),
            )
            &&& c.queue_capacity == match last_queue_state(events) {
                Some(q) => q.0,
                None => 0,
            }
            &&& c.queue_size == match last_queue_state(events) {
                Some(q) => q.1,
                None => 0,
            }
            &&& c.backpressure_level == match last_queue_state(events) {
                Some(q) => q.2,
                None => BackpressureLevel::Normal,
            }
        },
    decreases events.len(),
{
    if events.len() > 0 {
        let prefix = events.drop_last();
        lemma_counters_count_calls(table, address, prefix);
        let dl = |e: StatisticsEvent| e is DeadLetter;
        let ds = |e: StatisticsEvent| e is DeliverSuccess;
        let df = |e: StatisticsEvent| e is DeliverFailure;
        let ra = |e: StatisticsEvent| e is ReconnectAttempt;
        lemma_wrapped_step(count_events(prefix, dl));
        lemma_wrapped_step(count_events(prefix, ds));
        lemma_wrapped_step(count_events(prefix, df));
        lemma_wrapped_step(count_events(prefix, ra));
        assert(wrapped(0) == 0);
    }
}

} // verus!
