use crate::config::StatsConfig;
use crate::connection::events::{StatEvent, StatReply};
use crate::connection::stats::{ClientStats, ConnectionStats};
use crate::connection::table::{distinct_peers, find_peer, has_peer, lookup, peers_distinct};
use crate::connection::table::{lemma_lookup_at, lemma_lookup_push, lemma_lookup_update};
use crate::peer::PeerAddr;
use vstd::prelude::*;
use vstd::seq_lib::*;

verus! {

/// The sum of two counters, held at the largest value where it would go
/// beyond.
pub open spec fn add_saturating(a: u64, b: u64) -> u64 {
    if a + b > u64::MAX {
        u64::MAX
    } else {
        (a + b) as u64
    }
}

/// A client after one more connection from it was opened at `now`.
pub open spec fn connected(c: ClientStats, now: u64) -> ClientStats {
    ClientStats {
        active_connections: add_saturating(c.active_connections, 1),
        last_active: now,
        ..c
    }
}

/// A client after one of its connections ended at `now`.
pub open spec fn disconnected(c: ClientStats, now: u64) -> ClientStats {
    ClientStats {
        active_connections: if c.active_connections > 0 {
            (c.active_connections - 1) as u64
        } else {
            0
        },
        last_active: now,
        ..c
    }
}

/// The smoothed response time after a request that took `sample`
/// milliseconds: the first sample as it is, and from then on the old
/// value moved a tenth of the way to the sample, rounded down.
pub open spec fn smoothed(old_average: u64, sample: u64) -> u64 {
    if old_average == 0 {
        sample
    } else {
        ((9 * old_average + sample) / 10) as u64
    }
}

/// A client after a request of it was handled at `now`.
pub open spec fn processed(c: ClientStats, success: bool, duration_ms: u64, now: u64) -> ClientStats {
    ClientStats {
        active_connections: c.active_connections,
        total_requests: add_saturating(c.total_requests, 1),
        total_errors: if success {
            c.total_errors
        } else {
            add_saturating(c.total_errors, 1)
        },
        last_active: now,
        last_error: if success {
            c.last_error
        } else {
            Some(now)
        },
        avg_response_time_ms: smoothed(c.avg_response_time_ms, duration_ms),
    }
}

/// The client entered for `peer`, or a new one where there is none.
pub open spec fn client_or_fresh(
    entries: Seq<(PeerAddr, ClientStats)>,
    peer: PeerAddr,
    now: u64,
) -> ClientStats {
    match lookup(entries, peer) {
        Some(c) => c,
        None => ClientStats::fresh(now),
    }
}

/// The table with `value` entered for `peer`: in place of its entry, or at
/// the end where it has none.
pub open spec fn with_entry(
    entries: Seq<(PeerAddr, ClientStats)>,
    peer: PeerAddr,
    value: ClientStats,
) -> Seq<(PeerAddr, ClientStats)> {
    if has_peer(entries, peer) {
        entries.update(
            choose|i: int| 0 <= i < entries.len() && entries[i].0 == peer,
            (peer, value),
        )
    } else {
        entries.push((peer, value))
    }
}

/// The table after an event was taken in at `now`. Queries change
/// nothing; the end of a connection from an unknown client changes
/// nothing either.
pub open spec fn after_event(
    entries: Seq<(PeerAddr, ClientStats)>,
    event: StatEvent,
    now: u64,
) -> Seq<(PeerAddr, ClientStats)> {
    match event {
        StatEvent::ClientConnected(addr) => with_entry(
            entries,
            addr,
            connected(client_or_fresh(entries, addr, now), now),
        ),
        StatEvent::ClientDisconnected(addr) => match lookup(entries, addr) {
            Some(c) => with_entry(entries, addr, disconnected(c, now)),
            None => entries,
        },
        StatEvent::RequestProcessed { addr, success, duration_ms } => with_entry(
            entries,
            addr,
            processed(client_or_fresh(entries, addr, now), success, duration_ms, now),
        ),
        StatEvent::QueryStats { addr } => entries,
        StatEvent::QueryConnectionStats => entries,
    }
}

/// Whether a client is kept by the clean-up at `now`: it was heard of
/// within the idle timeout, or its last error lies within the error
/// timeout.
pub open spec fn is_kept(c: ClientStats, config: StatsConfig, now: u64) -> bool {
    ||| now - c.last_active <= config.idle_timeout_ms
    ||| (c.last_error matches Some(t) && now - t <= config.error_timeout_ms)
}

/// No client has more failed requests than requests.
pub open spec fn errors_within_requests(entries: Seq<(PeerAddr, ClientStats)>) -> bool {
    forall|i: int| 0 <= i < entries.len() ==> entries[i].1.total_errors <= entries[i].1.total_requests
}

/// The keeper of the statistics: one entry per client, changed only by
/// the events that are handed to it.
#[derive(Debug)]
pub struct StatsManager {
    stats: Vec<(PeerAddr, ClientStats)>,
    config: StatsConfig,
    total_connections: u64,
}

impl StatsManager {
    /// The clients, in the order in which they were first heard of.
    pub closed spec fn entries(self) -> Seq<(PeerAddr, ClientStats)> {
        self.stats@
    }

    /// The configuration.
    pub closed spec fn settings(self) -> StatsConfig {
        self.config
    }

    /// The number of connections ever opened.
    pub closed spec fn connections_seen(self) -> u64 {
        self.total_connections
    }

    /// No client is entered twice, and none has more failed requests than
    /// requests.
    pub open spec fn wf(self) -> bool {
        &&& distinct_peers(self.entries())
        &&& errors_within_requests(self.entries())
    }

    /// Whether the books are in order.
    pub fn is_wf(&self) -> (b: bool)
        ensures
            b == self.wf(),
    {
        if !peers_distinct(&self.stats) {
            return false;
        }
        let mut i: usize = 0;
        while i < self.stats.len()
            invariant
                i <= self.stats.len(),
                forall|k: int|
                    0 <= k < i ==> self.stats@[k].1.total_errors <= self.stats@[k].1.total_requests,
            decreases self.stats.len() - i,
        {
            if self.stats[i].1.total_errors > self.stats[i].1.total_requests {
                return false;
            }
            i += 1;
        }
        true
    }

    /// What is known about `peer`.
    pub open spec fn client(self, peer: PeerAddr) -> Option<ClientStats> {
        lookup(self.entries(), peer)
    }

    /// A keeper that knows no client yet.
    pub fn new(config: StatsConfig) -> (m: Self)
        ensures
            m.wf(),
            m.entries() == Seq::<(PeerAddr, ClientStats)>::empty(),
            m.settings() == config,
            m.connections_seen() == 0,
    {
        StatsManager { stats: Vec::new(), config, total_connections: 0 }
    }

    /// The number of events that may wait to be taken in.
    pub fn queue_capacity(&self) -> (n: u32)
        ensures
            n == self.settings().max_events_per_second,
    {
        self.config.max_events_per_second
    }

    /// How often idle clients are to be looked for, in milliseconds.
    pub fn cleanup_interval_ms(&self) -> (n: u64)
        ensures
            n == self.settings().cleanup_interval_ms,
    {
        self.config.cleanup_interval_ms
    }

    /// The number of connections ever opened.
    pub fn total_connections(&self) -> (n: u64)
        ensures
            n == self.connections_seen(),
    {
        self.total_connections
    }

    /// Enters `value` for `peer`.
    fn put(&mut self, peer: PeerAddr, value: ClientStats)
        requires
            old(self).wf(),
            value.total_errors <= value.total_requests,
        ensures
            final(self).wf(),
            final(self).entries() == with_entry(old(self).entries(), peer, value),
            final(self).settings() == old(self).settings(),
            final(self).connections_seen() == old(self).connections_seen(),
    {
        match find_peer(&self.stats, peer) {
            Some(i) => {
                proof {
                    lemma_lookup_at(self.stats@, i as int);
                    lemma_lookup_update(self.stats@, i as int, value, peer);
                    let j = choose|j: int| 0 <= j < self.stats@.len() && self.stats@[j].0 == peer;
                    assert(j == i);
                }
                self.stats[i] = (peer, value);
            },
            None => {
                proof {
                    lemma_lookup_push(self.stats@, peer, value, peer);
                }
                self.stats.push((peer, value));
            },
        }
    }

    /// What is known about `peer`.
    pub fn get(&self, peer: PeerAddr) -> (c: Option<ClientStats>)
        requires
            self.wf(),
        ensures
            c == self.client(peer),
    {
        match find_peer(&self.stats, peer) {
            Some(i) => {
                proof {
                    lemma_lookup_at(self.stats@, i as int);
                }
                Some(self.stats[i].1)
            },
            None => None,
        }
    }

    /// Takes in one event at time `now`, and answers it where it asks
    /// something.
    pub fn handle_event(&mut self, event: StatEvent, now: u64) -> (reply: StatReply)
        requires
            old(self).wf(),
        ensures
            final(self).wf(),
            final(self).entries() == after_event(old(self).entries(), event, now),
            final(self).settings() == old(self).settings(),
            final(self).connections_seen() == if event is ClientConnected {
                add_saturating(old(self).connections_seen(), 1)
            } else {
                old(self).connections_seen()
            },
            match event {
                StatEvent::QueryStats { addr } => match old(self).client(addr) {
                    Some(c) => reply matches StatReply::Client(r) && r == c,
                    None => reply is Nothing,
                },
                StatEvent::QueryConnectionStats => reply matches StatReply::Connections(s)
                    && s.is_snapshot_of(old(self).entries(), now),
                _ => reply is Nothing,
            },
    {
        match event {
            StatEvent::ClientConnected(addr) => {
                let mut c = match self.get(addr) {
                    Some(c) => c,
                    None => ClientStats::new(now),
                };
                proof {
                    self.lemma_entry_within(addr);
                }
                c.active_connections = c.active_connections.saturating_add(1);
                c.last_active = now;
                self.put(addr, c);
                self.total_connections = self.total_connections.saturating_add(1);
                StatReply::Nothing
            },
            StatEvent::ClientDisconnected(addr) => {
                match self.get(addr) {
                    Some(mut c) => {
                        proof {
                            self.lemma_entry_within(addr);
                        }
                        c.active_connections = c.active_connections.saturating_sub(1);
                        c.last_active = now;
                        self.put(addr, c);
                    },
                    None => {},
                }
                StatReply::Nothing
            },
            StatEvent::RequestProcessed { addr, success, duration_ms } => {
                let mut c = match self.get(addr) {
                    Some(c) => c,
                    None => ClientStats::new(now),
                };
                proof {
                    self.lemma_entry_within(addr);
                }
                c.total_requests = c.total_requests.saturating_add(1);
                if !success {
                    c.total_errors = c.total_errors.saturating_add(1);
                    c.last_error = Some(now);
                }
                if c.avg_response_time_ms == 0 {
                    c.avg_response_time_ms = duration_ms;
                } else {
                    let old_average = c.avg_response_time_ms as u128;
                    let weighted: u128 = 9 * old_average + duration_ms as u128;
                    c.avg_response_time_ms = (weighted / 10) as u64;
                }
                c.last_active = now;
                self.put(addr, c);
                StatReply::Nothing
            },
            StatEvent::QueryStats { addr } => {
                match self.get(addr) {
                    Some(c) => StatReply::Client(c),
                    None => StatReply::Nothing,
                }
            },
            StatEvent::QueryConnectionStats => {
                StatReply::Connections(ConnectionStats::from_client_stats(&self.stats, now))
            },
        }
    }

    /// The entry of a client does not have more errors than requests.
    proof fn lemma_entry_within(self, peer: PeerAddr)
        requires
            self.wf(),
        ensures
            self.client(peer) matches Some(c) ==> c.total_errors <= c.total_requests,
    {
        if has_peer(self.entries(), peer) {
            let i = choose|i: int| 0 <= i < self.entries().len() && self.entries()[i].0 == peer;
            lemma_lookup_at(self.entries(), i);
        }
    }

    /// Forgets the clients that have been idle for longer than the idle
    /// timeout and whose last error, if any, is older than the error
    /// timeout. The others stay, in their order.
    pub fn cleanup_idle_stats(&mut self, now: u64)
        requires
            old(self).wf(),
        ensures
            final(self).wf(),
            final(self).entries() == old(self).entries().filter(
                |e: (PeerAddr, ClientStats)| is_kept(e.1, old(self).settings(), now),
            ),
            final(self).settings() == old(self).settings(),
            final(self).connections_seen() == old(self).connections_seen(),
    {
        let ghost keep = |e: (PeerAddr, ClientStats)| is_kept(e.1, self.config, now);
        let ghost before = self.stats@;
        let mut kept: Vec<(PeerAddr, ClientStats)> = Vec::new();
        let mut i: usize = 0;
        while i < self.stats.len()
            invariant
                i <= self.stats.len(),
                self.stats@ == before,
                kept@ == before.take(i as int).filter(keep),
                keep == |e: (PeerAddr, ClientStats)| is_kept(e.1, self.config, now),
            decreases self.stats.len() - i,
        {
            let entry = self.stats[i];
            let c = entry.1;
            let is_idle = now < c.last_active || now - c.last_active <= self.config.idle_timeout_ms;
            let has_recent_error = match c.last_error {
                Some(t) => now < t || now - t <= self.config.error_timeout_ms,
                None => false,
            };
            proof {
                assert(before.take(i + 1) == before.take(i as int).push(entry));
                before.take(i as int).lemma_filter_push(entry, keep);
                assert(keep(entry) == (is_idle || has_recent_error));
            }
            if is_idle || has_recent_error {
                kept.push(entry);
            }
            i += 1;
        }
        proof {
            assert(before.take(before.len() as int) == before);
            lemma_filter_keeps_shape(before, keep);
        }
        self.stats = kept;
    }
}

/// What is left of a table after some entries are taken out still has no
/// peer twice and no client with more errors than requests.
pub proof fn lemma_filter_keeps_shape(
    entries: Seq<(PeerAddr, ClientStats)>,
    keep: spec_fn((PeerAddr, ClientStats)) -> bool,
)
    requires
        distinct_peers(entries),
        errors_within_requests(entries),
    ensures
        distinct_peers(entries.filter(keep)),
        errors_within_requests(entries.filter(keep)),
    decreases entries.len(),
{
    reveal(Seq::filter);
    if entries.len() > 0 {
        let rest = entries.drop_last();
        lemma_filter_keeps_shape(rest, keep);
        let kept = rest.filter(keep);
        if keep(entries.last()) {
            assert forall|i: int| 0 <= i < kept.len() implies kept[i].0 != entries.last().0 by {
                rest.lemma_filter_contains_rev(keep, kept[i]);
                assert(kept.contains(kept[i]));
                let j = choose|j: int| 0 <= j < rest.len() && rest[j] == kept[i];
                assert(entries[j] == rest[j]);
            }
        }
    }
}

/// Whatever the event, if no client had more failed requests than
/// requests before it, none has after it; and no client is entered
/// twice.
pub proof fn lemma_errors_never_exceed_requests(
    entries: Seq<(PeerAddr, ClientStats)>,
    event: StatEvent,
    now: u64,
)
    requires
        distinct_peers(entries),
        errors_within_requests(entries),
    ensures
        distinct_peers(after_event(entries, event, now)),
        errors_within_requests(after_event(entries, event, now)),
{
    let peer = match event {
        StatEvent::ClientConnected(addr) => addr,
        StatEvent::ClientDisconnected(addr) => addr,
        StatEvent::RequestProcessed { addr, .. } => addr,
        StatEvent::QueryStats { addr } => addr,
        StatEvent::QueryConnectionStats => arbitrary(),
    };
    if has_peer(entries, peer) {
        let i = choose|i: int| 0 <= i < entries.len() && entries[i].0 == peer;
        lemma_lookup_at(entries, i);
        let value = after_event(entries, event, now)[i].1;
        lemma_lookup_update(entries, i, value, peer);
    } else {
        let value = after_event(entries, event, now).last().1;
        lemma_lookup_push(entries, peer, value, peer);
    }
}

} // verus!
