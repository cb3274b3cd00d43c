use rs_service::clock::Timestamp;
use rs_service::example::{
    cache_write, cached_value, CacheOutcome, DbRow, ExampleData, ExampleResponse, CACHE_KEY,
    CACHE_TTL_SECS,
};

fn row() -> DbRow {
    DbRow {
        current_time: Some(Timestamp::new(1_700_000_000, 0).unwrap()),
        database: Some("nself".to_string()),
    }
}

#[test]
fn write_uses_fixed_key_and_sixty_seconds() {
    let w = cache_write(&Timestamp::new(1_700_000_000, 0).unwrap());
    assert_eq!(w.key, "last_request");
    assert_eq!(CACHE_KEY, "last_request");
    assert_eq!(w.value, "2023-11-14T22:13:20+00:00");
    assert_eq!(w.ttl_secs, 60);
    assert_eq!(CACHE_TTL_SECS, 60);
}

#[test]
fn read_after_write_reports_written_value() {
    let w = cache_write(&Timestamp::new(1_700_000_000, 0).unwrap());
    let c = CacheOutcome::RoundTrip { written: true, read: Some(w.value.clone()) };
    let r = ExampleResponse::new(&Ok(row()), &c);
    assert_eq!(r.cached, Some("2023-11-14T22:13:20+00:00".to_string()));
    assert_eq!(r.http_status(), 200);
    assert_eq!(r.source, "live");
}

#[test]
fn failed_cache_step_reports_nothing() {
    let c = CacheOutcome::RoundTrip { written: false, read: Some("stale".to_string()) };
    assert_eq!(cached_value(&c), None);
    let c = CacheOutcome::RoundTrip { written: true, read: None };
    let r = ExampleResponse::new(&Ok(row()), &c);
    assert_eq!(r.cached, None);
    assert_eq!(r.http_status(), 200);
    assert_eq!(cached_value(&CacheOutcome::NotConfigured), None);
}

#[test]
fn database_row_is_reported() {
    let r = ExampleResponse::new(&Ok(row()), &CacheOutcome::NotConfigured);
    match r.data {
        ExampleData::Row { current_time, database } => {
            assert_eq!(current_time, Some("2023-11-14T22:13:20+00:00".to_string()));
            assert_eq!(database, Some("nself".to_string()));
        }
        ExampleData::Error(_) => panic!("expected a row"),
    }
    assert_eq!(r.cached, None);
    let empty = DbRow { current_time: None, database: None };
    match ExampleData::from_db(&Ok(empty)) {
        ExampleData::Row { current_time, database } => {
            assert_eq!(current_time, None);
            assert_eq!(database, None);
        }
        ExampleData::Error(_) => panic!("expected a row"),
    }
}

#[test]
fn database_failure_is_embedded() {
    let c = CacheOutcome::RoundTrip { written: true, read: Some("v".to_string()) };
    let r = ExampleResponse::new(&Err("pool timed out".to_string()), &c);
    assert_eq!(r.http_status(), 200);
    match &r.data {
        ExampleData::Error(msg) => assert_eq!(msg, "Database error: pool timed out"),
        ExampleData::Row { .. } => panic!("expected an error"),
    }
    assert_eq!(r.cached, Some("v".to_string()));
    let ok = ExampleResponse::new(&Ok(row()), &c);
    assert_eq!(ok.cached, r.cached);
}
