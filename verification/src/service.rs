//! The worker pool's settings and its sign of life.

use vstd::prelude::*;

verus! {

/// Seconds granted beyond the idle-poll interval before a pool that has
/// shown no sign of life counts as dead.
pub const LIVENESS_MARGIN_SECS: u64 = 10;

/// Connections set aside for each consumer, so that every consumer can
/// hold one while the notification listeners keep theirs.
pub const CONNECTIONS_PER_WORKER: u32 = 3;

/// Nanoseconds in a second.
pub const NANOS_PER_SEC: u128 = 1_000_000_000;

/// The settings of a worker pool.
#[derive(Clone, Debug)]
pub struct Config {
    /// Where the queue's database is.
    pub database_url: String,
    /// The channel on which new work is announced.
    pub listen_database_channel: String,
    /// The channel on which completions are announced.
    pub notify_database_channel: String,
    /// The idle-poll interval, in seconds.
    pub pg_polling_interval: u32,
    /// The floor of the connection pool's size.
    pub pg_pool_connections: u32,
    /// The number of consumers.
    pub worker_thread_count: u32,
}

/// The size of the connection pool: the configured floor, or what the
/// consumers need at once if that is more.
pub open spec fn spec_pool_connections(floor: u32, workers: u32) -> int {
    if floor >= CONNECTIONS_PER_WORKER * workers {
        floor as int
    } else {
        CONNECTIONS_PER_WORKER * workers
    }
}

/// Whether the last sign of life, `last_active` nanoseconds after the Unix
/// epoch, is recent enough at `now`: fewer whole seconds ago than the
/// idle-poll interval and the margin together. A sign of life that lies
/// after `now` does not count.
pub open spec fn spec_is_alive(last_active: u128, now: u128, polling_interval: u32) -> bool {
    now >= last_active && (now - last_active) / (NANOS_PER_SEC as int) < polling_interval
        + LIVENESS_MARGIN_SECS
}

impl Config {
    /// The size to give the connection pool.
    pub fn pool_connections(&self) -> (connections: u32)
        requires
            CONNECTIONS_PER_WORKER * self.worker_thread_count <= u32::MAX,
        ensures
            connections == spec_pool_connections(
                self.pg_pool_connections,
                self.worker_thread_count,
            ),
            connections >= self.pg_pool_connections,
            connections >= CONNECTIONS_PER_WORKER * self.worker_thread_count,
    {
        let needed = CONNECTIONS_PER_WORKER * self.worker_thread_count;
        if self.pg_pool_connections >= needed {
            self.pg_pool_connections
        } else {
            needed
        }
    }

    /// Seconds without a sign of life after which the pool counts as dead.
    pub fn liveness_threshold(&self) -> (seconds: u64)
        ensures
            seconds == self.pg_polling_interval + LIVENESS_MARGIN_SECS,
    {
        self.pg_polling_interval as u64 + LIVENESS_MARGIN_SECS
    }
}

/// The time at which a consumer of the pool last began an iteration, in
/// nanoseconds since the Unix epoch.
#[derive(Clone, Copy, Debug, PartialEq, Eq, Structural)]
pub struct Liveness {
    pub last_active: u128,
}

impl Liveness {
    /// No sign of life yet: the Unix epoch.
    pub fn new() -> (liveness: Liveness)
        ensures
            liveness.last_active == 0,
    {
        Liveness { last_active: 0 }
    }

    /// Records a sign of life at `now`.
    pub fn record(&mut self, now: u128)
        ensures
            final(self).last_active == now,
    {
        self.last_active = now;
    }

    /// Whether the pool has shown a sign of life recently enough at `now`.
    pub fn is_alive(&self, now: u128, polling_interval: u32) -> (alive: bool)
        ensures
            alive == spec_is_alive(self.last_active, now, polling_interval),
    {
        if now < self.last_active {
            return false;
        }
        let elapsed = (now - self.last_active) / NANOS_PER_SEC;
        elapsed < polling_interval as u128 + LIVENESS_MARGIN_SECS as u128
    }
}

/// A pool that has just shown a sign of life is alive, and stays alive for
/// every instant less than a second past the threshold's last full second.
pub proof fn lemma_alive_after_record(last_active: u128, now: u128, polling_interval: u32)
    requires
        last_active <= now < last_active + (polling_interval + LIVENESS_MARGIN_SECS)
            * NANOS_PER_SEC,
    ensures
        spec_is_alive(last_active, now, polling_interval),
{
    let d = (now - last_active) as int;
    let t = (polling_interval + LIVENESS_MARGIN_SECS) as int;
    assert(d < t * 1_000_000_000);
    assert(d / 1_000_000_000 < t) by (nonlinear_arith)
        requires
            0 <= d < t * 1_000_000_000,
    ;
}

} // verus!
