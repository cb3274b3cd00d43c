//! The informational status snapshot: uptime, environment and per-dependency
//! connectivity.

use vstd::prelude::*;
use vstd::arithmetic::div_mod::lemma_div_is_ordered;
use crate::clock::{rfc3339_of, Timestamp, NANOS_PER_SEC};
use crate::health::{CacheProbe, ProbeResult, HTTP_OK};

verus! {

/// Whole seconds from `start` to `now`; zero where `now` is not after `start`.
pub open spec fn uptime_of(start: Timestamp, now: Timestamp) -> int {
    if now.total_nanos() <= start.total_nanos() {
        0
    } else {
        (now.total_nanos() - start.total_nanos()) / (NANOS_PER_SEC as int)
    }
}

/// Whole seconds elapsed from `start` to `now`, never negative: a clock that
/// reads earlier than `start` gives zero.
pub fn uptime_seconds(start: &Timestamp, now: &Timestamp) -> (r: u64)
    ensures
        r == uptime_of(*start, *now),
{
    let s0 = start.secs();
    let n0 = start.nanos();
    let s1 = now.secs();
    let n1 = now.nanos();
    let t0: i128 = s0 as i128 * 1_000_000_000 + n0 as i128;
    let t1: i128 = s1 as i128 * 1_000_000_000 + n1 as i128;
    if t1 <= t0 {
        0
    } else {
        let d: i128 = (t1 - t0) / 1_000_000_000;
        assert(d <= t1) by (nonlinear_arith)
            requires
                d == (t1 - t0) / 1_000_000_000,
                t1 > t0 >= 0,
        ;
        d as u64
    }
}

/// Uptime never decreases as the clock advances, and is never negative.
pub proof fn lemma_uptime_monotone(start: Timestamp, earlier: Timestamp, later: Timestamp)
    requires
        earlier.total_nanos() <= later.total_nanos(),
    ensures
        0 <= uptime_of(start, earlier) <= uptime_of(start, later),
{
    let d0 = earlier.total_nanos() - start.total_nanos();
    let d1 = later.total_nanos() - start.total_nanos();
    if d0 > 0 {
        lemma_div_is_ordered(d0, d1, NANOS_PER_SEC as int);
        assert(d0 / (NANOS_PER_SEC as int) >= 0);
    }
    if d1 > 0 {
        assert(d1 / (NANOS_PER_SEC as int) >= 0);
    }
}

/// Descriptors of the environment the service runs in.
#[derive(Clone, Debug)]
pub struct Environment {
    pub runtime_version: String,
    pub env: String,
    pub os: String,
}

/// Whether each dependency answered its probe.
#[derive(Clone, Copy, Debug, PartialEq, Eq, Structural)]
pub struct Connections {
    pub database: bool,
    pub redis: bool,
}

impl Connections {
    /// The connectivity flags of the given probe outcomes: the cache counts as
    /// connected only where it is configured and answered.
    pub fn of(db: &ProbeResult, cache: &CacheProbe) -> (r: Connections)
        ensures
            r.database == (*db is Reachable),
            r.redis == (*cache matches CacheProbe::Configured(ProbeResult::Reachable)),
    {
        Connections { database: db.is_reachable(), redis: cache.is_connected() }
    }
}

/// What the status endpoint reports.
#[derive(Clone, Debug)]
pub struct StatusSnapshot {
    pub service: String,
    /// Always `"running"`.
    pub status: String,
    /// Whole seconds since the service started.
    pub uptime: u64,
    pub environment: Environment,
    pub connections: Connections,
    pub timestamp: String,
}

/// Whether `r` is the snapshot for the given service, start instant, clock
/// reading, environment, probe outcomes and timestamp text.
pub open spec fn is_snapshot_of(
    r: StatusSnapshot,
    service: Seq<char>,
    start: Timestamp,
    now: Timestamp,
    environment: Environment,
    db: ProbeResult,
    cache: CacheProbe,
    timestamp: Seq<char>,
) -> bool {
    &&& r.service@ == service
    &&& r.status@ == "running"@
    &&& r.uptime == uptime_of(start, now)
    &&& r.environment == environment
    &&& r.connections.database == (db is Reachable)
    &&& r.connections.redis == (cache matches CacheProbe::Configured(ProbeResult::Reachable))
    &&& r.timestamp@ == timestamp
}

impl StatusSnapshot {
    /// The snapshot for the given probe outcomes, taken at `now` for a service
    /// started at `start`, stamped with `timestamp`.
    pub fn new(
        service: &str,
        start: &Timestamp,
        now: &Timestamp,
        environment: Environment,
        db: &ProbeResult,
        cache: &CacheProbe,
        timestamp: String,
    ) -> (r: StatusSnapshot)
        ensures
            is_snapshot_of(r, service@, *start, *now, environment, *db, *cache, timestamp@),
    {
        StatusSnapshot {
            service: String::from_str(service),
            status: String::from_str("running"),
            uptime: uptime_seconds(start, now),
            environment,
            connections: Connections::of(db, cache),
            timestamp,
        }
    }

    /// The HTTP status code the snapshot is served with: success, whatever the
    /// probes found.
    pub fn http_status(&self) -> (r: u16)
        ensures
            r == HTTP_OK,
    {
        HTTP_OK
    }
}

/// The status snapshot for the given probe outcomes, taken at `now` for a
/// service started at `start`.
pub fn status_snapshot(
    service: &str,
    start: &Timestamp,
    now: &Timestamp,
    environment: Environment,
    db: &ProbeResult,
    cache: &CacheProbe,
) -> (r: StatusSnapshot)
    ensures
        is_snapshot_of(
            r,
            service@,
            *start,
            *now,
            environment,
            *db,
            *cache,
            rfc3339_of(now.secs_spec(), now.nanos_spec()),
        ),
{
    StatusSnapshot::new(service, start, now, environment, db, cache, now.to_rfc3339())
}

} // verus!
