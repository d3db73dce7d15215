use vstd::prelude::*;

verus! {

/// How long statistics are kept, and how many events may wait to be taken
/// in. Times are in whole milliseconds.
#[derive(Debug, Clone, Copy, PartialEq, Eq, Structural)]
pub struct StatsConfig {
    /// How often idle clients are looked for.
    pub cleanup_interval_ms: u64,
    /// How long a client may be idle before it is forgotten.
    pub idle_timeout_ms: u64,
    /// How long a client's last error keeps it remembered.
    pub error_timeout_ms: u64,
    /// The number of events that may wait in the queue.
    pub max_events_per_second: u32,
}

impl Default for StatsConfig {
    fn default() -> (c: Self)
        ensures
            c == (StatsConfig {
                cleanup_interval_ms: 60_000,
                idle_timeout_ms: 300_000,
                error_timeout_ms: 300_000,
                max_events_per_second: 10000,
            }),
    {
        StatsConfig {
            cleanup_interval_ms: 60_000,
            idle_timeout_ms: 300_000,
            error_timeout_ms: 300_000,
            max_events_per_second: 10000,
        }
    }
}

} // verus!
