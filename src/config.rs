//! The service's settings, resolved from the values of its environment
//! variables, and the greeting served at the root path.

use vstd::prelude::*;
use crate::clock::{rfc3339_of, Timestamp};

verus! {

pub const DEFAULT_SERVICE_NAME: &'static str = "rs-service";

pub const DEFAULT_PORT: &'static str = "8080";

pub const DEFAULT_ENVIRONMENT: &'static str = "development";

pub const DEFAULT_POSTGRES_USER: &'static str = "postgres";

pub const DEFAULT_POSTGRES_PASSWORD: &'static str = "postgres";

pub const DEFAULT_POSTGRES_HOST: &'static str = "postgres";

pub const DEFAULT_POSTGRES_DB: &'static str = "nself";

pub const DEFAULT_REDIS_HOST: &'static str = "redis";

/// The version the service reports of itself.
pub const SERVICE_VERSION: &'static str = "1.0.0";

/// The values of the environment variables the service reads; `None` for a
/// variable that is unset or not valid Unicode.
#[derive(Clone, Debug, Default)]
pub struct EnvVars {
    /// `SERVICE_NAME`
    pub service_name: Option<String>,
    /// `PORT`
    pub port: Option<String>,
    /// `ENV`
    pub env: Option<String>,
    /// `DATABASE_URL`
    pub database_url: Option<String>,
    /// `POSTGRES_USER`
    pub postgres_user: Option<String>,
    /// `POSTGRES_PASSWORD`
    pub postgres_password: Option<String>,
    /// `POSTGRES_HOST`
    pub postgres_host: Option<String>,
    /// `POSTGRES_DB`
    pub postgres_db: Option<String>,
    /// `REDIS_ENABLED`
    pub redis_enabled: Option<String>,
    /// `REDIS_URL`
    pub redis_url: Option<String>,
    /// `REDIS_HOST`
    pub redis_host: Option<String>,
}

/// The variable's value, or `default` where it is unset.
pub open spec fn or_default(v: Option<String>, default: Seq<char>) -> Seq<char> {
    match v {
        Some(s) => s@,
        None => default,
    }
}

/// The database connection string: `DATABASE_URL` where set, else one built
/// from the user, password, host and database name.
pub open spec fn database_url_of(e: EnvVars) -> Seq<char> {
    match e.database_url {
        Some(url) => url@,
        None => "postgresql://"@ + or_default(e.postgres_user, DEFAULT_POSTGRES_USER@) + ":"@
            + or_default(e.postgres_password, DEFAULT_POSTGRES_PASSWORD@) + "@"@ + or_default(
            e.postgres_host,
            DEFAULT_POSTGRES_HOST@,
        ) + "/"@ + or_default(e.postgres_db, DEFAULT_POSTGRES_DB@),
    }
}

/// The cache connection string where `REDIS_ENABLED` is exactly `"true"`:
/// `REDIS_URL` where set, else one built from the host; `None` otherwise.
pub open spec fn cache_url_of(e: EnvVars) -> Option<Seq<char>> {
    if e.redis_enabled matches Some(flag) && flag@ == "true"@ {
        Some(
            match e.redis_url {
                Some(url) => url@,
                None => "redis://"@ + or_default(e.redis_host, DEFAULT_REDIS_HOST@),
            },
        )
    } else {
        None
    }
}

/// The variable's value, or `default` where it is unset.
pub fn value_or(v: &Option<String>, default: &str) -> (r: String)
    ensures
        r@ == or_default(*v, default@),
{
    match v {
        Some(s) => s.clone(),
        None => String::from_str(default),
    }
}

/// The deployment environment's name: `ENV`, or `"development"`.
pub fn environment_name(env: &Option<String>) -> (r: String)
    ensures
        r@ == or_default(*env, DEFAULT_ENVIRONMENT@),
{
    value_or(env, DEFAULT_ENVIRONMENT)
}

/// The settings the service starts with.
#[derive(Clone, Debug)]
pub struct Settings {
    pub service_name: String,
    pub port: String,
    /// The address to listen on: every interface, at `port`.
    pub bind_address: String,
    pub environment: String,
    pub database_url: String,
    /// `None` where the cache is disabled.
    pub cache_url: Option<String>,
}

impl Settings {
    /// The settings that the environment variables' values give.
    pub fn from_env(e: &EnvVars) -> (r: Settings)
        ensures
            r.service_name@ == or_default(e.service_name, DEFAULT_SERVICE_NAME@),
            r.port@ == or_default(e.port, DEFAULT_PORT@),
            r.bind_address@ == "0.0.0.0:"@ + r.port@,
            r.environment@ == or_default(e.env, DEFAULT_ENVIRONMENT@),
            r.database_url@ == database_url_of(*e),
            r.cache_url matches Some(u) ==> cache_url_of(*e) == Some(u@),
            r.cache_url is None <==> cache_url_of(*e) is None,
    {
        let port = value_or(&e.port, DEFAULT_PORT);
        let bind_address = String::from_str("0.0.0.0:").concat(port.as_str());
        let database_url = match &e.database_url {
            Some(url) => url.clone(),
            None => {
                let user = value_or(&e.postgres_user, DEFAULT_POSTGRES_USER);
                let password = value_or(&e.postgres_password, DEFAULT_POSTGRES_PASSWORD);
                let host = value_or(&e.postgres_host, DEFAULT_POSTGRES_HOST);
                let db = value_or(&e.postgres_db, DEFAULT_POSTGRES_DB);
                let mut url = String::from_str("postgresql://");
                url.append(user.as_str());
                url.append(":");
                url.append(password.as_str());
                url.append("@");
                url.append(host.as_str());
                url.append("/");
                url.append(db.as_str());
                url
            },
        };
        let enabled = match &e.redis_enabled {
            Some(flag) => *flag == String::from_str("true"),
            None => false,
        };
        let cache_url = if enabled {
            match &e.redis_url {
                Some(url) => Some(url.clone()),
                None => {
                    let host = value_or(&e.redis_host, DEFAULT_REDIS_HOST);
                    Some(String::from_str("redis://").concat(host.as_str()))
                },
            }
        } else {
            None
        };
        Settings {
            service_name: value_or(&e.service_name, DEFAULT_SERVICE_NAME),
            port,
            bind_address,
            environment: environment_name(&e.env),
            database_url,
            cache_url,
        }
    }
}

/// What the root path returns.
#[derive(Clone, Debug)]
pub struct Greeting {
    pub message: String,
    pub service: String,
    pub version: String,
    pub environment: String,
    pub timestamp: String,
}

/// Whether `g` greets from `service` in `environment`, stamped with
/// `timestamp`.
pub open spec fn is_greeting_of(
    g: Greeting,
    service: Seq<char>,
    environment: Seq<char>,
    timestamp: Seq<char>,
) -> bool {
    &&& g.message@ == "Hello from "@ + service + "! \u{1F680}"@
    &&& g.service@ == service
    &&& g.version@ == SERVICE_VERSION@
    &&& g.environment@ == environment
    &&& g.timestamp@ == timestamp
}

impl Greeting {
    /// The greeting of `service` in `environment`, stamped with `timestamp`.
    pub fn new(service: &str, environment: &str, timestamp: String) -> (r: Greeting)
        ensures
            is_greeting_of(r, service@, environment@, timestamp@),
    {
        Greeting {
            message: String::from_str("Hello from ").concat(service).concat("! \u{1F680}"),
            service: String::from_str(service),
            version: String::from_str(SERVICE_VERSION),
            environment: String::from_str(environment),
            timestamp,
        }
    }
}

/// The greeting of `service` in `environment` at instant `now`.
pub fn greeting(service: &str, environment: &str, now: &Timestamp) -> (r: Greeting)
    ensures
        is_greeting_of(r, service@, environment@, rfc3339_of(now.secs_spec(), now.nanos_spec())),
{
    Greeting::new(service, environment, now.to_rfc3339())
}

} // verus!
