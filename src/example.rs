//! The example operation: one database read beside a cache write that is
//! read straight back.

use vstd::prelude::*;
use crate::clock::{rfc3339_of, Timestamp};
use crate::health::HTTP_OK;

verus! {

/// The cache key the example operation writes and reads.
pub const CACHE_KEY: &'static str = "last_request";

/// Lifetime, in seconds, of the value the example operation writes.
pub const CACHE_TTL_SECS: u64 = 60;

/// A write to the cache: `value` under `key`, expiring after `ttl_secs`.
#[derive(Clone, Debug)]
pub struct CacheWrite {
    pub key: String,
    pub value: String,
    pub ttl_secs: u64,
}

/// The write the example operation makes at instant `now`: the instant's
/// RFC 3339 text under the fixed key, for sixty seconds.
pub fn cache_write(now: &Timestamp) -> (r: CacheWrite)
    ensures
        r.key@ == CACHE_KEY@,
        r.value@ == rfc3339_of(now.secs_spec(), now.nanos_spec()),
        r.ttl_secs == CACHE_TTL_SECS,
{
    CacheWrite { key: String::from_str(CACHE_KEY), value: now.to_rfc3339(), ttl_secs: CACHE_TTL_SECS }
}

/// The row the database read returns.
#[derive(Clone, Debug)]
pub struct DbRow {
    pub current_time: Option<Timestamp>,
    pub database: Option<String>,
}

/// What the cache part of the operation came to.
#[derive(Clone, Debug)]
pub enum CacheOutcome {
    /// No cache is configured; nothing was tried.
    NotConfigured,
    /// The write was tried (and `written` says whether it succeeded); then the
    /// key was read back, giving `read`, or `None` where the read failed.
    RoundTrip { written: bool, read: Option<String> },
}

/// The data part of the response.
#[derive(Clone, Debug)]
pub enum ExampleData {
    /// The database's time, as RFC 3339 text, and the database's name.
    Row { current_time: Option<String>, database: Option<String> },
    /// The database read failed; the text says why.
    Error(String),
}

/// The view of an optional string.
pub open spec fn opt_view(o: Option<String>) -> Option<Seq<char>> {
    match o {
        Some(s) => Some(s@),
        None => None,
    }
}

/// The RFC 3339 text of an optional instant.
pub open spec fn opt_rfc3339(o: Option<Timestamp>) -> Option<Seq<char>> {
    match o {
        Some(t) => Some(rfc3339_of(t.secs_spec(), t.nanos_spec())),
        None => None,
    }
}

/// Whether `d` is the data part for the database read `db`.
pub open spec fn is_data_of(d: ExampleData, db: Result<DbRow, String>) -> bool {
    match db {
        Ok(row) => match d {
            ExampleData::Row { current_time, database } => {
                &&& opt_view(current_time) == opt_rfc3339(row.current_time)
                &&& opt_view(database) == opt_view(row.database)
            },
            ExampleData::Error(_) => false,
        },
        Err(why) => match d {
            ExampleData::Error(msg) => msg@ == "Database error: "@ + why@,
            ExampleData::Row { .. } => false,
        },
    }
}

/// The cached value reported: what was read back, where a configured cache
/// took the write and answered the read; nothing otherwise.
pub open spec fn cached_of(c: CacheOutcome) -> Option<Seq<char>> {
    match c {
        CacheOutcome::NotConfigured => None,
        CacheOutcome::RoundTrip { written, read } => if written {
            opt_view(read)
        } else {
            None
        },
    }
}

fn copy_opt(o: &Option<String>) -> (r: Option<String>)
    ensures
        opt_view(r) == opt_view(*o),
{
    match o {
        Some(s) => Some(s.clone()),
        None => None,
    }
}

impl ExampleData {
    /// The data part for the database read `db`: the row's fields, or
    /// `"Database error: "` followed by the failure's text.
    pub fn from_db(db: &Result<DbRow, String>) -> (r: ExampleData)
        ensures
            is_data_of(r, *db),
    {
        match db {
            Ok(row) => {
                let current_time = match &row.current_time {
                    Some(t) => Some(t.to_rfc3339()),
                    None => None,
                };
                ExampleData::Row { current_time, database: copy_opt(&row.database) }
            },
            Err(why) => ExampleData::Error(String::from_str("Database error: ").concat(why.as_str())),
        }
    }
}

/// The cached value to report for a cache outcome.
pub fn cached_value(c: &CacheOutcome) -> (r: Option<String>)
    ensures
        opt_view(r) == cached_of(*c),
{
    match c {
        CacheOutcome::NotConfigured => None,
        CacheOutcome::RoundTrip { written, read } => if *written {
            copy_opt(read)
        } else {
            None
        },
    }
}

/// What the example endpoint returns.
#[derive(Clone, Debug)]
pub struct ExampleResponse {
    pub data: ExampleData,
    /// Always `"live"`.
    pub source: String,
    pub cached: Option<String>,
}

/// Whether `r` is the response for the database read `db` and the cache
/// outcome `c`.
pub open spec fn is_response_of(r: ExampleResponse, db: Result<DbRow, String>, c: CacheOutcome) -> bool {
    &&& is_data_of(r.data, db)
    &&& r.source@ == "live"@
    &&& opt_view(r.cached) == cached_of(c)
}

impl ExampleResponse {
    /// The response for the database read `db` and the cache outcome `c`.
    pub fn new(db: &Result<DbRow, String>, c: &CacheOutcome) -> (r: ExampleResponse)
        ensures
            is_response_of(r, *db, *c),
    {
        ExampleResponse {
            data: ExampleData::from_db(db),
            source: String::from_str("live"),
            cached: cached_value(c),
        }
    }

    /// The HTTP status code the response is served with: success, also where
    /// the database read or the cache failed.
    pub fn http_status(&self) -> (r: u16)
        ensures
            r == HTTP_OK,
    {
        HTTP_OK
    }
}

/// Where the cache took the example's write and the read right after gave
/// back what was written, the response reports that instant's text; where
/// either step failed, it reports no cached value.
pub proof fn lemma_cache_round_trip(
    now: Timestamp,
    w: CacheWrite,
    db: Result<DbRow, String>,
    written: bool,
    read: Option<String>,
    r: ExampleResponse,
)
    requires
        w.value@ == rfc3339_of(now.secs_spec(), now.nanos_spec()),
        is_response_of(r, db, CacheOutcome::RoundTrip { written, read }),
    ensures
        written && opt_view(read) == Some(w.value@) ==> opt_view(r.cached) == Some(
            rfc3339_of(now.secs_spec(), now.nanos_spec()),
        ),
        !written || read is None ==> r.cached is None,
{
}

/// A failed database read still gives a response, with the failure's text
/// as its data, and the cached value does not depend on the database read.
pub proof fn lemma_database_failure_contained(
    why: Seq<char>,
    db1: Result<DbRow, String>,
    db2: Result<DbRow, String>,
    c: CacheOutcome,
    r1: ExampleResponse,
    r2: ExampleResponse,
)
    requires
        db1 matches Err(e) && e@ == why,
        is_response_of(r1, db1, c),
        is_response_of(r2, db2, c),
    ensures
        r1.data matches ExampleData::Error(msg) && msg@ == "Database error: "@ + why,
        opt_view(r1.cached) == opt_view(r2.cached),
{
}

} // verus!
