//! Completion side of the blocking bridge.
//!
//! A unit of database work runs on a dedicated blocking context, away from
//! the cooperative request scheduler. Around the driver call itself stand
//! three accounting steps of this library: a checkout (`Pool::checkout` or
//! `PoolRegistry::checkout_at`), then — whatever the driver did — exactly one
//! completion from this module, which releases the connection or the reserved
//! slot on every path and maps the failure into the bridge's error taxonomy.
//! No failure is retried here: statements may not be idempotent.
use crate::pool::{Connection, Pool};
use vstd::prelude::*;

verus! {

/// Why a bridged unit of work failed, with the underlying description. Every
/// variant surfaces to the caller as a server error; none is retried.
pub enum BridgeError {
    /// The pool could not provide a connection: saturation or a failed
    /// driver connect.
    Acquire(String),
    /// The driver rejected or aborted the statement itself.
    Driver(String),
    /// A parameter value cannot be represented in the driver's parameter
    /// encoding.
    Encoding(String),
    /// The blocking unit could not be scheduled, or its result could not be
    /// retrieved.
    Dispatch(String),
}

impl BridgeError {
    /// The textual description carried by the error, as surfaced to the
    /// caller.
    pub fn message(&self) -> (m: &String)
        ensures
            m@ == match self {
                BridgeError::Acquire(s) => s@,
                BridgeError::Driver(s) => s@,
                BridgeError::Encoding(s) => s@,
                BridgeError::Dispatch(s) => s@,
            },
    {
        match self {
            BridgeError::Acquire(s) => s,
            BridgeError::Driver(s) => s,
            BridgeError::Encoding(s) => s,
            BridgeError::Dispatch(s) => s,
        }
    }
}

/// Completes a bridged unit of work: the connection is released on every
/// outcome — the liveness verdict decides whether it rejoins the idle set —
/// and a driver failure is mapped to its error variant. Success is returned
/// exactly as the work produced it.
pub fn finish_work<T>(
    pool: &mut Pool,
    conn: Connection,
    healthy: bool,
    outcome: Result<T, String>,
) -> (r: Result<T, BridgeError>)
    requires
        old(pool).wf(),
        old(pool).in_use >= 1,
    ensures
        final(pool).wf(),
        final(pool).in_use == old(pool).in_use - 1,
        final(pool).connecting == old(pool).connecting,
        healthy ==> final(pool).idle@ == old(pool).idle@.push(conn),
        !healthy ==> final(pool).idle@ == old(pool).idle@,
        outcome matches Result::Ok(v) ==> r == Result::<T, BridgeError>::Ok(v),
        outcome matches Result::Err(e) ==> r == Result::<T, BridgeError>::Err(
            BridgeError::Driver(e),
        ),
{
    pool.release(conn, healthy);
    match outcome {
        Result::Ok(v) => Result::Ok(v),
        Result::Err(e) => Result::Err(BridgeError::Driver(e)),
    }
}

/// Completes a checkout whose driver connect failed: the reserved slot is
/// freed and the failure reported as a pool-acquire error, fatal to this
/// call alone — the pool stays usable for every other caller.
pub fn fail_acquire(pool: &mut Pool, message: String) -> (e: BridgeError)
    requires
        old(pool).wf(),
        old(pool).connecting >= 1,
    ensures
        final(pool).wf(),
        final(pool).idle@ == old(pool).idle@,
        final(pool).in_use == old(pool).in_use,
        final(pool).connecting == old(pool).connecting - 1,
        e == BridgeError::Acquire(message),
{
    pool.connect_failed();
    BridgeError::Acquire(message)
}

} // verus!
