//! Probe outcomes, their combination into one composite health state, and the
//! report served by the liveness endpoint.

use vstd::prelude::*;
use crate::clock::{rfc3339_of, Timestamp};

verus! {

/// HTTP status code for a successful response.
pub const HTTP_OK: u16 = 200;

/// HTTP status code for a service that cannot currently serve.
pub const HTTP_SERVICE_UNAVAILABLE: u16 = 503;

/// The outcome of one round-trip check against a backend dependency.
#[derive(Clone, Debug)]
pub enum ProbeResult {
    /// The dependency answered.
    Reachable,
    /// The dependency did not answer; the text says why.
    Unreachable(String),
}

/// What is known of the cache: it was never set up, or it was probed.
#[derive(Clone, Debug)]
pub enum CacheProbe {
    NotConfigured,
    Configured(ProbeResult),
}

/// The service's health as a whole.
#[derive(Clone, Copy, Debug, PartialEq, Eq, Structural)]
pub enum CompositeHealth {
    /// Every configured dependency is reachable.
    Healthy,
    /// The database is reachable but the configured cache is not.
    Degraded,
    /// The database is unreachable.
    Unhealthy,
}

/// The composite state for a database outcome and a cache outcome: the
/// database decides `Unhealthy` on its own; a configured cache that fails
/// turns what would be `Healthy` into `Degraded`; an absent cache counts for
/// nothing.
pub open spec fn composite_of(db: ProbeResult, cache: CacheProbe) -> CompositeHealth {
    if db is Unreachable {
        CompositeHealth::Unhealthy
    } else if cache matches CacheProbe::Configured(ProbeResult::Unreachable(_)) {
        CompositeHealth::Degraded
    } else {
        CompositeHealth::Healthy
    }
}

/// The note reported for one probed dependency.
pub open spec fn probe_note(p: ProbeResult) -> Seq<char> {
    match p {
        ProbeResult::Reachable => "healthy"@,
        ProbeResult::Unreachable(why) => "unhealthy: "@ + why@,
    }
}

/// The note reported for the cache.
pub open spec fn cache_note(c: CacheProbe) -> Seq<char> {
    match c {
        CacheProbe::NotConfigured => "not configured"@,
        CacheProbe::Configured(p) => probe_note(p),
    }
}

/// The HTTP status code served with a composite state.
pub open spec fn http_code_of(h: CompositeHealth) -> u16 {
    if h == CompositeHealth::Healthy {
        HTTP_OK
    } else {
        HTTP_SERVICE_UNAVAILABLE
    }
}

impl ProbeResult {
    /// Whether the dependency answered.
    pub fn is_reachable(&self) -> (r: bool)
        ensures
            r == (self is Reachable),
    {
        match self {
            ProbeResult::Reachable => true,
            ProbeResult::Unreachable(_) => false,
        }
    }

    /// `"healthy"`, or `"unhealthy: "` followed by the diagnostic.
    pub fn note(&self) -> (r: String)
        ensures
            r@ == probe_note(*self),
    {
        match self {
            ProbeResult::Reachable => String::from_str("healthy"),
            ProbeResult::Unreachable(why) => String::from_str("unhealthy: ").concat(why.as_str()),
        }
    }
}

impl CacheProbe {
    /// Whether a cache was configured and answered.
    pub fn is_connected(&self) -> (r: bool)
        ensures
            r == (self matches CacheProbe::Configured(ProbeResult::Reachable)),
    {
        match self {
            CacheProbe::NotConfigured => false,
            CacheProbe::Configured(p) => p.is_reachable(),
        }
    }

    /// `"not configured"`, or the note of the cache's probe.
    pub fn note(&self) -> (r: String)
        ensures
            r@ == cache_note(*self),
    {
        match self {
            CacheProbe::NotConfigured => String::from_str("not configured"),
            CacheProbe::Configured(p) => p.note(),
        }
    }
}

impl CompositeHealth {
    /// The state's name as reported: `"healthy"`, `"degraded"` or `"unhealthy"`.
    pub fn as_str(&self) -> (r: &'static str)
        ensures
            *self == CompositeHealth::Healthy ==> r@ == "healthy"@,
            *self == CompositeHealth::Degraded ==> r@ == "degraded"@,
            *self == CompositeHealth::Unhealthy ==> r@ == "unhealthy"@,
    {
        match self {
            CompositeHealth::Healthy => "healthy",
            CompositeHealth::Degraded => "degraded",
            CompositeHealth::Unhealthy => "unhealthy",
        }
    }

    /// The HTTP status code to serve: success for `Healthy` alone, service
    /// unavailable for the other two states.
    pub fn http_status(&self) -> (r: u16)
        ensures
            r == http_code_of(*self),
            r == HTTP_OK <==> *self == CompositeHealth::Healthy,
            r != HTTP_OK ==> r == HTTP_SERVICE_UNAVAILABLE,
    {
        match self {
            CompositeHealth::Healthy => HTTP_OK,
            _ => HTTP_SERVICE_UNAVAILABLE,
        }
    }
}

/// Combines a database probe and the cache's probe into one composite state.
pub fn classify(db: &ProbeResult, cache: &CacheProbe) -> (r: CompositeHealth)
    ensures
        r == composite_of(*db, *cache),
        db is Unreachable ==> r == CompositeHealth::Unhealthy,
        db is Reachable && (cache matches CacheProbe::Configured(ProbeResult::Unreachable(_)))
            ==> r == CompositeHealth::Degraded,
        db is Reachable && (cache matches CacheProbe::Configured(ProbeResult::Reachable))
            ==> r == CompositeHealth::Healthy,
        db is Reachable && cache is NotConfigured ==> r == CompositeHealth::Healthy,
{
    if !db.is_reachable() {
        CompositeHealth::Unhealthy
    } else {
        match cache {
            CacheProbe::Configured(ProbeResult::Unreachable(_)) => CompositeHealth::Degraded,
            _ => CompositeHealth::Healthy,
        }
    }
}

/// What the liveness endpoint reports.
#[derive(Clone, Debug)]
pub struct HealthReport {
    pub status: CompositeHealth,
    pub service: String,
    pub timestamp: String,
    /// The database's note.
    pub database: String,
    /// The cache's note.
    pub redis: String,
}

/// Whether `r` is the report for the given service, probe outcomes and
/// timestamp text.
pub open spec fn is_report_of(
    r: HealthReport,
    service: Seq<char>,
    db: ProbeResult,
    cache: CacheProbe,
    timestamp: Seq<char>,
) -> bool {
    &&& r.status == composite_of(db, cache)
    &&& r.service@ == service
    &&& r.timestamp@ == timestamp
    &&& r.database@ == probe_note(db)
    &&& r.redis@ == cache_note(cache)
}

impl HealthReport {
    /// The report for the given probe outcomes, stamped with `timestamp`.
    pub fn new(service: &str, db: &ProbeResult, cache: &CacheProbe, timestamp: String) -> (r:
        HealthReport)
        ensures
            is_report_of(r, service@, *db, *cache, timestamp@),
    {
        HealthReport {
            status: classify(db, cache),
            service: String::from_str(service),
            timestamp,
            database: db.note(),
            redis: cache.note(),
        }
    }

    /// The HTTP status code the report is served with.
    pub fn http_status(&self) -> (r: u16)
        ensures
            r == http_code_of(self.status),
            r == HTTP_OK <==> self.status == CompositeHealth::Healthy,
            r != HTTP_OK ==> r == HTTP_SERVICE_UNAVAILABLE,
    {
        self.status.http_status()
    }
}

/// The liveness report for the given probe outcomes at instant `now`.
pub fn health_report(service: &str, db: &ProbeResult, cache: &CacheProbe, now: &Timestamp) -> (r:
    HealthReport)
    ensures
        is_report_of(r, service@, *db, *cache, rfc3339_of(now.secs_spec(), now.nanos_spec())),
{
    HealthReport::new(service, db, cache, now.to_rfc3339())
}

/// An absent cache is reported as `"not configured"` and leaves the composite
/// state to the database alone: it counts as a reachable cache would.
pub proof fn lemma_absent_cache_is_neutral(db: ProbeResult)
    ensures
        cache_note(CacheProbe::NotConfigured) == "not configured"@,
        composite_of(db, CacheProbe::NotConfigured) == composite_of(
            db,
            CacheProbe::Configured(ProbeResult::Reachable),
        ),
        composite_of(db, CacheProbe::NotConfigured) == (if db is Reachable {
            CompositeHealth::Healthy
        } else {
            CompositeHealth::Unhealthy
        }),
{
}

} // verus!
