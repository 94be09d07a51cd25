use crate::common::settings::{bool_or, flag_or, read_string, setting_text};
use vstd::prelude::*;

verus! {

/// How the pool of connections to the data store is laid out.
#[derive(Debug, Clone, Copy, PartialEq, Eq, Structural)]
pub struct PoolSettings {
    pub min_connections: u32,
    pub max_connections: u32,
    /// Seconds to wait for a connection.
    pub connect_timeout: u64,
    /// Seconds a connection may stay idle.
    pub idle_timeout: u64,
    /// Seconds a connection may live.
    pub max_lifetime: u64,
    /// Statements are logged.
    pub sqlx_logging: bool,
}

/// `value`, or `fallback` where there is none.
pub open spec fn or_default<T>(value: Option<T>, fallback: T) -> T {
    match value {
        Some(v) => v,
        None => fallback,
    }
}

impl PoolSettings {
    /// The layout that the options under `db.options` ask for: each number
    /// as it is given, and where it is not, 10 and 20 connections at least
    /// and at most, 10 seconds to connect, 300 seconds idle and 600 seconds
    /// of life. Statements are logged where `app.debug` is on.
    pub fn resolve(
        cfg: &config::Config,
        min_conns: Option<u32>,
        max_conns: Option<u32>,
        conn_timeout: Option<u64>,
        idle_timeout: Option<u64>,
        max_lifetime: Option<u64>,
    ) -> (r: Self)
        ensures
            r.min_connections == or_default(min_conns, 10u32),
            r.max_connections == or_default(max_conns, 20u32),
            r.connect_timeout == or_default(conn_timeout, 10u64),
            r.idle_timeout == or_default(idle_timeout, 300u64),
            r.max_lifetime == or_default(max_lifetime, 600u64),
            r.sqlx_logging == flag_or(*cfg, "app.debug"@, false),
    {
        PoolSettings {
            min_connections: match min_conns {
                Some(v) => v,
                None => 10,
            },
            max_connections: match max_conns {
                Some(v) => v,
                None => 20,
            },
            connect_timeout: match conn_timeout {
                Some(v) => v,
                None => 10,
            },
            idle_timeout: match idle_timeout {
                Some(v) => v,
                None => 300,
            },
            max_lifetime: match max_lifetime {
                Some(v) => v,
                None => 600,
            },
            sqlx_logging: bool_or(cfg, "app.debug", false),
        }
    }
}

/// The address of the data store: the text under `db.dsn`, where there is
/// one.
pub fn dsn(cfg: &config::Config) -> (r: Option<String>)
    ensures
        match setting_text(*cfg, "db.dsn"@) {
            Some(text) => r matches Some(s) && s@ == text,
            None => r is None,
        },
{
    read_string(cfg, "db.dsn")
}

} // verus!
