use crate::peer::PeerAddr;
use vstd::prelude::*;

verus! {

/// The window, in milliseconds, over which recent requests are counted.
pub const RATE_WINDOW_MS: u64 = 60_000;

/// What is known about one client. Times are milliseconds on the clock of
/// whoever feeds the statistics.
#[derive(Debug, Clone, Copy, PartialEq, Eq, Structural)]
pub struct ClientStats {
    /// Connections currently open from this address.
    pub active_connections: u64,
    /// Requests handled, failed ones included.
    pub total_requests: u64,
    /// Requests that failed.
    pub total_errors: u64,
    /// When the client was last heard of.
    pub last_active: u64,
    /// When a request of the client last failed.
    pub last_error: Option<u64>,
    /// Smoothed response time.
    pub avg_response_time_ms: u64,
}

/// What is reported about one client in a snapshot.
#[derive(Debug, Clone, Copy, PartialEq, Eq, Structural)]
pub struct IpStats {
    pub active_connections: u64,
    pub total_requests: u64,
    pub total_errors: u64,
    pub last_active: u64,
    pub last_error: Option<u64>,
    pub avg_response_time_ms: u64,
}

/// A snapshot of all clients together.
#[derive(Debug)]
pub struct ConnectionStats {
    pub total_connections: u64,
    pub active_connections: u64,
    pub total_requests: u64,
    pub total_errors: u64,
    /// Requests of the clients heard of within the last minute. Divided
    /// by sixty this is the estimate of requests per second.
    pub recent_requests: u64,
    pub avg_response_time_ms: u64,
    pub per_ip_stats: Vec<(PeerAddr, IpStats)>,
}

/// The quantities that a snapshot adds up over the clients.
#[derive(Debug, Clone, Copy, PartialEq, Eq, Structural)]
pub enum Tally {
    /// Open connections.
    Active,
    /// Requests.
    Requests,
    /// Failed requests.
    Errors,
    /// Response-time averages, of the clients that have one.
    ResponseTime,
    /// The number of clients that have a response-time average.
    Averaged,
    /// Requests of the clients heard of in the minute before `now`.
    Recent { now: u64 },
}

/// Whether a client was heard of in the minute before `now`.
pub open spec fn is_recent(c: ClientStats, now: u64) -> bool {
    c.last_active <= now && now - c.last_active <= RATE_WINDOW_MS
}

/// What one client adds to a tally.
pub open spec fn share(c: ClientStats, tally: Tally) -> nat {
    match tally {
        Tally::Active => c.active_connections as nat,
        Tally::Requests => c.total_requests as nat,
        Tally::Errors => c.total_errors as nat,
        Tally::ResponseTime => c.avg_response_time_ms as nat,
        Tally::Averaged => if c.avg_response_time_ms > 0 {
            1
        } else {
            0
        },
        Tally::Recent { now } => if is_recent(c, now) {
            c.total_requests as nat
        } else {
            0
        },
    }
}

/// A tally over all clients.
pub open spec fn total<K>(entries: Seq<(K, ClientStats)>, tally: Tally) -> nat
    decreases entries.len(),
{
    if entries.len() == 0 {
        0
    } else {
        total(entries.drop_last(), tally) + share(entries.last().1, tally)
    }
}

/// The largest 64-bit value where `n` is above it, else `n`.
pub open spec fn saturated(n: nat) -> u64 {
    if n > u64::MAX {
        u64::MAX
    } else {
        n as u64
    }
}

/// The mean of the response-time averages of the clients that have one,
/// rounded down; zero where no client has one.
pub open spec fn mean_response_time(entries: Seq<(PeerAddr, ClientStats)>) -> nat {
    if total(entries, Tally::Averaged) > 0 {
        total(entries, Tally::ResponseTime) / total(entries, Tally::Averaged)
    } else {
        0
    }
}

impl ClientStats {
    /// A client of which nothing is known but that it was heard of at
    /// `now`.
    pub open spec fn fresh(now: u64) -> ClientStats {
        ClientStats {
            active_connections: 0,
            total_requests: 0,
            total_errors: 0,
            last_active: now,
            last_error: None,
            avg_response_time_ms: 0,
        }
    }

    /// A client of which nothing is known but that it was heard of at
    /// `now`.
    pub fn new(now: u64) -> (c: Self)
        ensures
            c == Self::fresh(now),
    {
        ClientStats {
            active_connections: 0,
            total_requests: 0,
            total_errors: 0,
            last_active: now,
            last_error: None,
            avg_response_time_ms: 0,
        }
    }
}

impl IpStats {
    /// The report about a client.
    pub open spec fn of(c: ClientStats) -> IpStats {
        IpStats {
            active_connections: c.active_connections,
            total_requests: c.total_requests,
            total_errors: c.total_errors,
            last_active: c.last_active,
            last_error: c.last_error,
            avg_response_time_ms: c.avg_response_time_ms,
        }
    }
}

/// A tally never exceeds what the clients could hold together.
pub proof fn lemma_total_bounded<K>(entries: Seq<(K, ClientStats)>, tally: Tally)
    ensures
        total(entries, tally) <= entries.len() * u64::MAX,
    decreases entries.len(),
{
    if entries.len() > 0 {
        lemma_total_bounded(entries.drop_last(), tally);
        assert(entries.len() * u64::MAX == (entries.len() - 1) * u64::MAX + u64::MAX)
            by (nonlinear_arith);
    }
}

/// The sum of the response-time averages is at most the largest 64-bit
/// value for each client that has an average, so that their mean fits in
/// 64 bits.
pub proof fn lemma_mean_bounded(entries: Seq<(PeerAddr, ClientStats)>)
    ensures
        total(entries, Tally::ResponseTime) <= total(entries, Tally::Averaged) * u64::MAX,
        mean_response_time(entries) <= u64::MAX,
    decreases entries.len(),
{
    if entries.len() > 0 {
        let rest = entries.drop_last();
        lemma_mean_bounded(rest);
        let a = total(rest, Tally::Averaged);
        assert((a + 1) * u64::MAX == a * u64::MAX + u64::MAX) by (nonlinear_arith);
    }
    let n = total(entries, Tally::Averaged);
    let s = total(entries, Tally::ResponseTime);
    if n > 0 {
        assert(s / n <= u64::MAX) by (nonlinear_arith)
            requires
                n > 0,
                s <= n * u64::MAX,
        ;
    }
}

/// Adds up one quantity over all clients.
pub fn tally(entries: &Vec<(PeerAddr, ClientStats)>, what: Tally) -> (sum: u128)
    ensures
        sum == total(entries@, what),
{
    let mut sum: u128 = 0;
    let mut i: usize = 0;
    while i < entries.len()
        invariant
            i <= entries.len(),
            sum == total(entries@.take(i as int), what),
        decreases entries.len() - i,
    {
        let c = entries[i].1;
        let part: u64 = match what {
            Tally::Active => c.active_connections,
            Tally::Requests => c.total_requests,
            Tally::Errors => c.total_errors,
            Tally::ResponseTime => c.avg_response_time_ms,
            Tally::Averaged => if c.avg_response_time_ms > 0 {
                1
            } else {
                0
            },
            Tally::Recent { now } => if c.last_active <= now && now - c.last_active
                <= RATE_WINDOW_MS {
                c.total_requests
            } else {
                0
            },
        };
        proof {
            assert(entries@.take(i + 1).drop_last() == entries@.take(i as int));
            lemma_total_bounded(entries@.take(i + 1), what);
            assert((i + 1) * u64::MAX <= usize::MAX * u64::MAX) by (nonlinear_arith)
                requires
                    i + 1 <= usize::MAX,
            ;
            assert(usize::MAX * u64::MAX <= u64::MAX * u64::MAX) by (nonlinear_arith)
                requires
                    usize::MAX <= u64::MAX,
            ;
            assert(u64::MAX * u64::MAX < u128::MAX) by (nonlinear_arith);
        }
        sum = sum + part as u128;
        i += 1;
    }
    proof {
        assert(entries@.take(entries.len() as int) == entries@);
    }
    sum
}

/// A wide sum brought back to 64 bits.
pub fn saturate(n: u128) -> (r: u64)
    ensures
        r == saturated(n as nat),
{
    if n > u64::MAX as u128 {
        u64::MAX
    } else {
        n as u64
    }
}

impl ConnectionStats {
    /// Whether this is the snapshot of `entries` at `now`: open
    /// connections, requests and errors added up over the clients (and
    /// held at the largest value where the sum is above it), the requests
    /// of the clients heard of in the last minute, the mean of the
    /// response-time averages that are not zero, and one report per
    /// client, in the order of the clients.
    pub open spec fn is_snapshot_of(self, entries: Seq<(PeerAddr, ClientStats)>, now: u64) -> bool {
        &&& self.total_connections == saturated(total(entries, Tally::Active))
        &&& self.active_connections == saturated(total(entries, Tally::Active))
        &&& self.total_requests == saturated(total(entries, Tally::Requests))
        &&& self.total_errors == saturated(total(entries, Tally::Errors))
        &&& self.recent_requests == saturated(total(entries, Tally::Recent { now }))
        &&& self.avg_response_time_ms == mean_response_time(entries)
        &&& self.per_ip_stats@.len() == entries.len()
        &&& forall|i: int|
            0 <= i < entries.len() ==> self.per_ip_stats[i] == (
                entries[i].0,
                IpStats::of(entries[i].1),
            )
    }

    /// The requests of the clients heard of in the minute before `now`.
    pub fn calculate_requests_per_second(
        stats: &Vec<(PeerAddr, ClientStats)>,
        now: u64,
    ) -> (r: u64)
        ensures
            r == saturated(total(stats@, Tally::Recent { now })),
    {
        saturate(tally(stats, Tally::Recent { now }))
    }

    /// The snapshot of all clients at `now`.
    pub fn from_client_stats(stats: &Vec<(PeerAddr, ClientStats)>, now: u64) -> (snapshot: Self)
        ensures
            snapshot.is_snapshot_of(stats@, now),
    {
        let total_active = saturate(tally(stats, Tally::Active));
        let total_requests = saturate(tally(stats, Tally::Requests));
        let total_errors = saturate(tally(stats, Tally::Errors));
        let total_response_time = tally(stats, Tally::ResponseTime);
        let response_time_count = tally(stats, Tally::Averaged);
        let mut per_ip: Vec<(PeerAddr, IpStats)> = Vec::new();
        let mut i: usize = 0;
        while i < stats.len()
            invariant
                i <= stats.len(),
                per_ip@.len() == i,
                forall|k: int|
                    0 <= k < i ==> per_ip[k] == (stats[k].0, IpStats::of(stats[k].1)),
            decreases stats.len() - i,
        {
            let client = stats[i].1;
            per_ip.push(
                (
                    stats[i].0,
                    IpStats {
                        active_connections: client.active_connections,
                        total_requests: client.total_requests,
                        total_errors: client.total_errors,
                        last_active: client.last_active,
                        last_error: client.last_error,
                        avg_response_time_ms: client.avg_response_time_ms,
                    },
                ),
            );
            i += 1;
        }
        proof {
            lemma_mean_bounded(stats@);
        }
        ConnectionStats {
            total_connections: total_active,
            active_connections: total_active,
            total_requests,
            total_errors,
            recent_requests: Self::calculate_requests_per_second(stats, now),
            avg_response_time_ms: if response_time_count > 0 {
                (total_response_time / response_time_count) as u64
            } else {
                0
            },
            per_ip_stats: per_ip,
        }
    }
}

} // verus!
