//! The connection pool's accounting and the decisions of the connect path.
//!
//! The pool itself holds live backend connections, which only the driver can
//! open; opening and closing them is I/O performed at the boundary. This
//! module owns every decision around that I/O: whether a configuration may
//! reach the backend at all, whether the opened connections amount to a
//! usable pool (construction is atomic: all of the floor or nothing),
//! whether a checkout can be granted, must grow the pool, or must wait, and
//! when the pool may be torn down. Teardown policy: drain then close — a
//! close request is refused while any connection is checked out.

use vstd::prelude::*;

use crate::config::ConnectionConfig;
use crate::errors::DbError;
use crate::errors::ErrorKind;
use crate::errors::RawError;
use crate::errors::classify;
use crate::errors::spec_classify;

verus! {

/// Accounting state of one bounded connection pool: how many connections
/// are live, how many of those are checked out, and whether the pool was
/// torn down.
#[derive(PartialEq, Debug)]
pub struct Pool {
    pub config: ConnectionConfig,
    pub total: u32,
    pub in_use: u32,
}

impl Pool {
    /// The pool invariant: a valid configuration, no more checkouts than
    /// live connections, and a live count between the configured floor and
    /// ceiling.
    pub open spec fn wf(self) -> bool {
        &&& self.config.valid()
        &&& self.in_use <= self.total
        &&& self.config.min_connections <= self.total
        &&& self.total <= self.config.max_connections
    }

    /// Connections currently free to be checked out.
    pub open spec fn spec_available(self) -> int {
        self.total - self.in_use
    }
}

/// The handle through which all queries execute. It is the sole owner of
/// its pool: the pool is torn down exactly when the handle's teardown is
/// accepted, and two handles never share one pool. The handle is not
/// cloneable: shared ownership would let two owners account one pool.
#[derive(PartialEq, Debug)]
pub enum Database {
    /// The pool is live.
    Open { pool: Pool },
    /// The handle was torn down; every further operation is interface
    /// misuse.
    Closed,
}

impl Database {
    /// The handle invariant.
    pub open spec fn wf(self) -> bool {
        self matches Database::Open { pool } ==> pool.wf()
    }

    /// Whether the handle is still open.
    pub fn is_open(&self) -> (b: bool)
        ensures
            b == (self is Open),
    {
        match self {
            Database::Open { .. } => true,
            Database::Closed => false,
        }
    }
}

/// Whether an attempt that opened `opened` connections under `config`
/// amounts to a successful, atomic pool construction.
pub open spec fn spec_connect_ok(config: ConnectionConfig, outcome: Result<u32, RawError>) -> bool {
    &&& config.valid()
    &&& outcome matches Ok(opened)
    &&& config.min_connections <= outcome->Ok_0
    &&& outcome->Ok_0 <= config.max_connections
}

/// The pool a successful construction yields: every opened connection live,
/// none checked out.
pub open spec fn spec_connect_pool(config: ConnectionConfig, opened: u32) -> Pool {
    Pool { config, total: opened, in_use: 0 }
}

/// Decide the outcome of one connect attempt. The boundary validates
/// nothing itself: it reports how many connections the driver opened, or
/// the raw driver failure, and this function decides what the caller gets.
///
/// An invalid configuration is misuse of the client surface and never
/// reaches the backend; a raw driver failure is classified; an attempt that
/// opened fewer connections than the configured floor is a connectivity
/// failure and exposes no partially-initialized pool; one that opened more
/// than the ceiling is driver misuse and exposes no pool either.
pub fn connect_outcome(config: ConnectionConfig, outcome: Result<u32, RawError>) -> (r: Result<
    Database,
    DbError,
>)
    ensures
        r is Ok <==> spec_connect_ok(config, outcome),
        (r matches Ok(db) ==> db == (Database::Open {
            pool: spec_connect_pool(config, outcome->Ok_0),
        })),
        (r matches Ok(db) ==> db.wf()),
        !config.valid() ==> (r matches Err(e) && e.kind == ErrorKind::InterfaceError),
        config.valid() ==> (outcome matches Err(raw) ==> (r matches Err(e) && e.kind
            == spec_classify(raw.kind) && e.message == raw.message)),
        config.valid() ==> (outcome matches Ok(opened) ==> (opened < config.min_connections ==> (
        r matches Err(e) && e.kind == ErrorKind::OperationalError))),
        config.valid() ==> (outcome matches Ok(opened) ==> (opened > config.max_connections ==> (
        r matches Err(e) && e.kind == ErrorKind::InterfaceError))),
{
    if !(0 < config.min_connections && config.min_connections <= config.max_connections) {
        return Err(DbError {
            kind: ErrorKind::InterfaceError,
            message: "invalid connection configuration".to_owned(),
        });
    }
    match outcome {
        Err(raw) => Err(classify(raw)),
        Ok(opened) => {
            if opened < config.min_connections {
                Err(DbError {
                    kind: ErrorKind::OperationalError,
                    message: "could not establish the configured minimum of connections".to_owned(),
                })
            } else if opened > config.max_connections {
                Err(DbError {
                    kind: ErrorKind::InterfaceError,
                    message: "driver opened more connections than the configured maximum".to_owned(),
                })
            } else {
                Ok(Database::Open { pool: Pool { config, total: opened, in_use: 0 } })
            }
        },
    }
}

/// Pool construction is atomic: whenever construction succeeds, the pool it
/// yields is well-formed, holds at least the configured floor of live
/// connections, and every one of them is checked in and usable. A failed
/// construction yields no pool at all, so no caller ever sees a pool with
/// fewer than `min_connections` usable connections.
pub proof fn lemma_connect_atomic(config: ConnectionConfig, outcome: Result<u32, RawError>)
    requires
        spec_connect_ok(config, outcome),
    ensures
        spec_connect_pool(config, outcome->Ok_0).wf(),
        spec_connect_pool(config, outcome->Ok_0).total >= config.min_connections,
        spec_connect_pool(config, outcome->Ok_0).spec_available()
            >= config.min_connections,
{
}

/// What one checkout request decides.
#[derive(Copy, Clone, PartialEq, Eq, Structural, Debug)]
pub enum AcquireDecision {
    /// A live connection was checked out to the caller.
    Granted,
    /// Every live connection is checked out but the pool may still grow:
    /// the boundary should open one more connection and record it with
    /// `add_connection`, then ask again.
    Grow,
    /// The pool is at its ceiling and fully checked out: the caller must
    /// suspend until a connection is released.
    Wait,
}

impl Database {
    /// Decide one checkout request against the pool's accounting. Only a
    /// grant changes the state; a closed handle is reported as interface
    /// misuse and the caller gets no connection.
    pub fn try_acquire(&mut self) -> (r: Result<AcquireDecision, DbError>)
        requires
            old(self).wf(),
        ensures
            final(self).wf(),
            (*old(self)) is Closed ==> (r matches Err(e) && e.kind == ErrorKind::InterfaceError
                && *final(self) == *old(self)),
            ((*old(self)) matches Database::Open { pool } ==> {
                &&& (pool.in_use < pool.total ==> r == Ok::<_, DbError>(AcquireDecision::Granted)
                    && *final(self) == (Database::Open {
                    pool: Pool {
                        config: pool.config,
                        total: pool.total,
                        in_use: (pool.in_use + 1) as u32,
                    },
                }))
                &&& (pool.in_use == pool.total && pool.total < pool.config.max_connections ==> r
                    == Ok::<_, DbError>(AcquireDecision::Grow) && *final(self) == *old(self))
                &&& (pool.in_use == pool.total && pool.total == pool.config.max_connections ==> r
                    == Ok::<_, DbError>(AcquireDecision::Wait) && *final(self) == *old(self))
            }),
    {
        match self {
            Database::Closed => Err(DbError {
                kind: ErrorKind::InterfaceError,
                message: "operation on a closed database handle".to_owned(),
            }),
            Database::Open { pool } => {
                if pool.in_use < pool.total {
                    pool.in_use = pool.in_use + 1;
                    Ok(AcquireDecision::Granted)
                } else if pool.total < pool.config.max_connections {
                    Ok(AcquireDecision::Grow)
                } else {
                    Ok(AcquireDecision::Wait)
                }
            },
        }
    }

    /// Record one more connection the driver opened for lazy growth. The
    /// pool never grows past its configured ceiling and never grows after
    /// teardown: such an attempt is refused and changes nothing.
    pub fn add_connection(&mut self) -> (ok: bool)
        requires
            old(self).wf(),
        ensures
            final(self).wf(),
            ((*old(self)) matches Database::Open { pool } ==> {
                &&& (pool.total < pool.config.max_connections ==> ok && *final(self)
                    == (Database::Open {
                    pool: Pool {
                        config: pool.config,
                        total: (pool.total + 1) as u32,
                        in_use: pool.in_use,
                    },
                }))
                &&& (pool.total == pool.config.max_connections ==> !ok && *final(self) == *old(self))
            }),
            (*old(self)) is Closed ==> !ok && *final(self) == *old(self),
    {
        match self {
            Database::Closed => false,
            Database::Open { pool } => {
                if pool.total < pool.config.max_connections {
                    pool.total = pool.total + 1;
                    true
                } else {
                    false
                }
            },
        }
    }

    /// Return one checked-out connection to the pool. Releasing with
    /// nothing checked out (or after teardown) is refused and changes
    /// nothing.
    pub fn release(&mut self) -> (ok: bool)
        requires
            old(self).wf(),
        ensures
            final(self).wf(),
            ((*old(self)) matches Database::Open { pool } ==> {
                &&& (pool.in_use > 0 ==> ok && *final(self) == (Database::Open {
                    pool: Pool {
                        config: pool.config,
                        total: pool.total,
                        in_use: (pool.in_use - 1) as u32,
                    },
                }))
                &&& (pool.in_use == 0 ==> !ok && *final(self) == *old(self))
            }),
            (*old(self)) is Closed ==> !ok && *final(self) == *old(self),
    {
        match self {
            Database::Closed => false,
            Database::Open { pool } => {
                if pool.in_use > 0 {
                    pool.in_use = pool.in_use - 1;
                    true
                } else {
                    false
                }
            },
        }
    }

    /// Tear the pool down, drain-then-close: teardown is accepted only once
    /// every in-flight operation has returned its connection, and it
    /// releases every backend resource at once. While connections are
    /// checked out the request is refused and the pool is unchanged.
    pub fn close(&mut self) -> (ok: bool)
        requires
            old(self).wf(),
        ensures
            final(self).wf(),
            ((*old(self)) matches Database::Open { pool } ==> {
                &&& (pool.in_use == 0 ==> ok && (*final(self)) is Closed)
                &&& (pool.in_use > 0 ==> !ok && *final(self) == *old(self))
            }),
            (*old(self)) is Closed ==> ok && *final(self) == *old(self),
    {
        match self {
            Database::Closed => true,
            Database::Open { pool } => {
                if pool.in_use == 0 {
                    *self = Database::Closed;
                    true
                } else {
                    false
                }
            },
        }
    }
}

} // verus!
