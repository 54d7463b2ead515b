//! The backend-tagged connection configuration: driver descriptors, the
//! per-driver defaulting policy, and validation of the pool sizing.
//!
//! A configuration is built once per logical database handle, fully
//! defaulted and validated before any connection attempt, and is immutable
//! afterwards.

use vstd::prelude::*;

use crate::errors::DbError;
use crate::errors::ErrorKind;

verus! {

/// Default lower bound of the pool, shared by every driver.
pub const DEFAULT_MIN_CONNECTIONS: u32 = 1;

/// Default pool ceiling for the SQLite driver.
pub const SQLITE_DEFAULT_MAX_CONNECTIONS: u32 = 16;

/// Default pool ceiling for the MySQL driver.
pub const MYSQL_DEFAULT_MAX_CONNECTIONS: u32 = 32;

/// Default pool ceiling for the Postgres driver.
pub const POSTGRES_DEFAULT_MAX_CONNECTIONS: u32 = 32;

/// Default pool ceiling on the generic, file-based path.
pub const FILE_DEFAULT_MAX_CONNECTIONS: u32 = 32;

/// Default MySQL server port.
pub const MYSQL_DEFAULT_PORT: u16 = 3306;

/// Default Postgres server port.
pub const POSTGRES_DEFAULT_PORT: u16 = 5432;

/// A backend-specific connector descriptor: which driver to use and the
/// endpoint and credentials it needs.
#[derive(Clone, PartialEq, Debug)]
pub enum Driver {
    SQLite { filename: String },
    MySQL { name: String, host: String, port: u16, user: String, password: String },
    Postgres { name: String, host: String, port: u16, user: String, password: String },
}

/// A validated, backend-tagged connection descriptor: driver kind, pool
/// sizing, endpoint credentials.
#[derive(Clone, PartialEq, Debug)]
pub struct ConnectionConfig {
    pub driver: Driver,
    pub min_connections: u32,
    pub max_connections: u32,
}

/// The pool-sizing invariant every constructed configuration satisfies:
/// both bounds positive and the floor no larger than the ceiling.
pub open spec fn spec_valid_pool_sizes(min: u32, max: u32) -> bool {
    0 < min && min <= max
}

impl ConnectionConfig {
    /// The configuration invariant.
    pub open spec fn valid(self) -> bool {
        spec_valid_pool_sizes(self.min_connections, self.max_connections)
    }
}

/// The value of an optional parameter after defaulting.
pub open spec fn spec_or_default<T>(given: Option<T>, default: T) -> T {
    match given {
        Some(v) => v,
        None => default,
    }
}

/// Resolve the optional pool bounds against the defaulting policy of one
/// driver kind, and validate them. One policy for every driver: only the
/// default ceiling differs, and it is passed in.
pub fn resolve_pool_sizes(
    min_connections: Option<u32>,
    max_connections: Option<u32>,
    default_max: u32,
) -> (r: Result<(u32, u32), DbError>)
    ensures
        ({
            let m = spec_or_default(min_connections, DEFAULT_MIN_CONNECTIONS);
            let x = spec_or_default(max_connections, default_max);
            &&& (r is Ok <==> spec_valid_pool_sizes(m, x))
            &&& (r matches Ok(sizes) ==> sizes == (m, x))
            &&& (r matches Err(e) ==> e.kind == ErrorKind::ProgrammingError
                && e.message@ == "connection pool sizes must satisfy 1 <= min <= max"@)
        }),
{
    let m: u32 = match min_connections {
        Some(v) => v,
        None => DEFAULT_MIN_CONNECTIONS,
    };
    let x: u32 = match max_connections {
        Some(v) => v,
        None => default_max,
    };
    if 0 < m && m <= x {
        Ok((m, x))
    } else {
        Err(DbError {
            kind: ErrorKind::ProgrammingError,
            message: "connection pool sizes must satisfy 1 <= min <= max".to_owned(),
        })
    }
}

impl ConnectionConfig {
    /// Build a SQLite configuration from explicit parameters, defaulting the
    /// pool bounds (floor 1, ceiling 16). Invalid sizing is rejected before
    /// any connection attempt.
    pub fn sqlite(
        filename: String,
        min_connections: Option<u32>,
        max_connections: Option<u32>,
    ) -> (r: Result<ConnectionConfig, DbError>)
        ensures
            ({
                let m = spec_or_default(min_connections, DEFAULT_MIN_CONNECTIONS);
                let x = spec_or_default(max_connections, SQLITE_DEFAULT_MAX_CONNECTIONS);
                &&& (r is Ok <==> spec_valid_pool_sizes(m, x))
                &&& (r matches Ok(c) ==> c == (ConnectionConfig {
                    driver: Driver::SQLite { filename },
                    min_connections: m,
                    max_connections: x,
                }))
                &&& (r matches Ok(c) ==> c.valid())
                &&& (r matches Err(e) ==> e.kind == ErrorKind::ProgrammingError)
            }),
    {
        let sizes = resolve_pool_sizes(min_connections, max_connections, SQLITE_DEFAULT_MAX_CONNECTIONS)?;
        Ok(ConnectionConfig {
            driver: Driver::SQLite { filename },
            min_connections: sizes.0,
            max_connections: sizes.1,
        })
    }

    /// Build a MySQL configuration from explicit parameters, defaulting host
    /// (`localhost`), port (3306) and the pool bounds (floor 1, ceiling 32).
    pub fn mysql(
        name: String,
        user: String,
        password: String,
        host: Option<String>,
        port: Option<u16>,
        min_connections: Option<u32>,
        max_connections: Option<u32>,
    ) -> (r: Result<ConnectionConfig, DbError>)
        ensures
            ({
                let m = spec_or_default(min_connections, DEFAULT_MIN_CONNECTIONS);
                let x = spec_or_default(max_connections, MYSQL_DEFAULT_MAX_CONNECTIONS);
                &&& (r is Ok <==> spec_valid_pool_sizes(m, x))
                &&& (r matches Ok(c) ==> {
                    &&& c.min_connections == m
                    &&& c.max_connections == x
                    &&& c.valid()
                    &&& (c.driver matches Driver::MySQL { name: n, host: h, port: p, user: u, password: w }
                        && n == name
                        && u == user
                        && w == password
                        && p == spec_or_default(port, MYSQL_DEFAULT_PORT)
                        && (host matches Some(given) ==> h == given)
                        && (host is None ==> h@ == "localhost"@))
                })
                &&& (r matches Err(e) ==> e.kind == ErrorKind::ProgrammingError)
            }),
    {
        let sizes = resolve_pool_sizes(min_connections, max_connections, MYSQL_DEFAULT_MAX_CONNECTIONS)?;
        let h: String = match host {
            Some(given) => given,
            None => "localhost".to_owned(),
        };
        let p: u16 = match port {
            Some(given) => given,
            None => MYSQL_DEFAULT_PORT,
        };
        Ok(ConnectionConfig {
            driver: Driver::MySQL { name, host: h, port: p, user, password },
            min_connections: sizes.0,
            max_connections: sizes.1,
        })
    }

    /// Build a Postgres configuration from explicit parameters, defaulting
    /// host (`localhost`), port (5432) and the pool bounds (floor 1,
    /// ceiling 32).
    pub fn postgres(
        name: String,
        user: String,
        password: String,
        host: Option<String>,
        port: Option<u16>,
        min_connections: Option<u32>,
        max_connections: Option<u32>,
    ) -> (r: Result<ConnectionConfig, DbError>)
        ensures
            ({
                let m = spec_or_default(min_connections, DEFAULT_MIN_CONNECTIONS);
                let x = spec_or_default(max_connections, POSTGRES_DEFAULT_MAX_CONNECTIONS);
                &&& (r is Ok <==> spec_valid_pool_sizes(m, x))
                &&& (r matches Ok(c) ==> {
                    &&& c.min_connections == m
                    &&& c.max_connections == x
                    &&& c.valid()
                    &&& (c.driver matches Driver::Postgres { name: n, host: h, port: p, user: u, password: w }
                        && n == name
                        && u == user
                        && w == password
                        && p == spec_or_default(port, POSTGRES_DEFAULT_PORT)
                        && (host matches Some(given) ==> h == given)
                        && (host is None ==> h@ == "localhost"@))
                })
                &&& (r matches Err(e) ==> e.kind == ErrorKind::ProgrammingError)
            }),
    {
        let sizes = resolve_pool_sizes(min_connections, max_connections, POSTGRES_DEFAULT_MAX_CONNECTIONS)?;
        let h: String = match host {
            Some(given) => given,
            None => "localhost".to_owned(),
        };
        let p: u16 = match port {
            Some(given) => given,
            None => POSTGRES_DEFAULT_PORT,
        };
        Ok(ConnectionConfig {
            driver: Driver::Postgres { name, host: h, port: p, user, password },
            min_connections: sizes.0,
            max_connections: sizes.1,
        })
    }

    /// Build a configuration from the already-parsed `database` section of a
    /// configuration file (the boundary parses the file and hands the driver
    /// descriptor in), with optional pool-size overrides. The generic path
    /// defaults the floor to 1 and the ceiling to 32 for every driver kind.
    pub fn from_file_section(
        driver: Driver,
        min_connections: Option<u32>,
        max_connections: Option<u32>,
    ) -> (r: Result<ConnectionConfig, DbError>)
        ensures
            ({
                let m = spec_or_default(min_connections, DEFAULT_MIN_CONNECTIONS);
                let x = spec_or_default(max_connections, FILE_DEFAULT_MAX_CONNECTIONS);
                &&& (r is Ok <==> spec_valid_pool_sizes(m, x))
                &&& (r matches Ok(c) ==> c == (ConnectionConfig {
                    driver,
                    min_connections: m,
                    max_connections: x,
                }))
                &&& (r matches Ok(c) ==> c.valid())
                &&& (r matches Err(e) ==> e.kind == ErrorKind::ProgrammingError)
            }),
    {
        let sizes = resolve_pool_sizes(min_connections, max_connections, FILE_DEFAULT_MAX_CONNECTIONS)?;
        Ok(ConnectionConfig { driver, min_connections: sizes.0, max_connections: sizes.1 })
    }
}

} // verus!
