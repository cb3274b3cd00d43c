use rs_service::clock::{Timestamp, MAX_SECS};
use rs_service::health::{CacheProbe, ProbeResult};
use rs_service::status::{status_snapshot, uptime_seconds, Connections, Environment, StatusSnapshot};

fn ts(secs: i64, nanos: u32) -> Timestamp {
    Timestamp::new(secs, nanos).unwrap()
}

fn env() -> Environment {
    Environment {
        runtime_version: "0.1.0".to_string(),
        env: "development".to_string(),
        os: "linux".to_string(),
    }
}

#[test]
fn uptime_counts_whole_seconds() {
    assert_eq!(uptime_seconds(&ts(100, 0), &ts(161, 999_999_999)), 61);
    assert_eq!(uptime_seconds(&ts(100, 500_000_000), &ts(101, 499_999_999)), 0);
    assert_eq!(uptime_seconds(&ts(100, 500_000_000), &ts(101, 500_000_000)), 1);
    assert_eq!(uptime_seconds(&ts(5, 0), &ts(5, 0)), 0);
}

#[test]
fn uptime_is_zero_when_clock_is_before_start() {
    assert_eq!(uptime_seconds(&ts(1000, 0), &ts(10, 0)), 0);
    assert_eq!(uptime_seconds(&ts(1000, 5), &ts(1000, 4)), 0);
}

#[test]
fn uptime_never_decreases() {
    let start = ts(1_000, 250_000_000);
    let mut last = 0u64;
    let mut secs = 990i64;
    while secs < 1_010 {
        for nanos in [0u32, 250_000_000, 999_999_999] {
            let u = uptime_seconds(&start, &ts(secs, nanos));
            assert!(u >= last);
            last = u;
        }
        secs += 1;
    }
    assert_eq!(last, 9);
}

#[test]
fn uptime_over_the_whole_range() {
    assert_eq!(uptime_seconds(&ts(0, 0), &ts(MAX_SECS, 999_999_999)), MAX_SECS as u64);
}

#[test]
fn timestamp_range() {
    assert!(Timestamp::new(0, 0).is_some());
    assert!(Timestamp::new(MAX_SECS, 999_999_999).is_some());
    assert!(Timestamp::new(-1, 0).is_none());
    assert!(Timestamp::new(MAX_SECS + 1, 0).is_none());
    assert!(Timestamp::new(0, 1_000_000_000).is_none());
    let t = ts(42, 7);
    assert_eq!(t.secs(), 42);
    assert_eq!(t.nanos(), 7);
}

#[test]
fn rfc3339_text() {
    assert_eq!(ts(0, 0).to_rfc3339(), "1970-01-01T00:00:00+00:00");
    assert_eq!(ts(1_700_000_000, 0).to_rfc3339(), "2023-11-14T22:13:20+00:00");
    assert_eq!(ts(1, 500_000_000).to_rfc3339(), "1970-01-01T00:00:01.500+00:00");
    assert_eq!(ts(MAX_SECS, 0).to_rfc3339(), "9999-12-31T23:59:59+00:00");
}

#[test]
fn status_is_always_served_with_success() {
    let probes = vec![
        (ProbeResult::Reachable, CacheProbe::NotConfigured),
        (ProbeResult::Unreachable("x".to_string()), CacheProbe::NotConfigured),
        (ProbeResult::Reachable, CacheProbe::Configured(ProbeResult::Unreachable("y".to_string()))),
        (
            ProbeResult::Unreachable("x".to_string()),
            CacheProbe::Configured(ProbeResult::Unreachable("y".to_string())),
        ),
        (ProbeResult::Reachable, CacheProbe::Configured(ProbeResult::Reachable)),
    ];
    for (db, cache) in probes.iter() {
        let s = StatusSnapshot::new("svc", &ts(10, 0), &ts(20, 0), env(), db, cache, "t".to_string());
        assert_eq!(s.http_status(), 200);
        assert_eq!(s.status, "running");
        assert_eq!(s.uptime, 10);
    }
}

#[test]
fn connectivity_flags() {
    let c = Connections::of(&ProbeResult::Reachable, &CacheProbe::NotConfigured);
    assert_eq!(c, Connections { database: true, redis: false });
    let c = Connections::of(
        &ProbeResult::Unreachable("x".to_string()),
        &CacheProbe::Configured(ProbeResult::Reachable),
    );
    assert_eq!(c, Connections { database: false, redis: true });
    let c = Connections::of(
        &ProbeResult::Reachable,
        &CacheProbe::Configured(ProbeResult::Unreachable("y".to_string())),
    );
    assert_eq!(c, Connections { database: true, redis: false });
}

#[test]
fn snapshot_fields() {
    let s = status_snapshot(
        "rs-service",
        &ts(1_700_000_000, 0),
        &ts(1_700_000_090, 10),
        env(),
        &ProbeResult::Reachable,
        &CacheProbe::Configured(ProbeResult::Reachable),
    );
    assert_eq!(s.service, "rs-service");
    assert_eq!(s.uptime, 90);
    assert_eq!(s.environment.env, "development");
    assert_eq!(s.environment.os, "linux");
    assert_eq!(s.environment.runtime_version, "0.1.0");
    assert_eq!(s.connections, Connections { database: true, redis: true });
    assert_eq!(s.timestamp, "2023-11-14T22:14:50.000000010+00:00");
}
