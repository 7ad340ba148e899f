//! Core of a multi-tenant bridge between a cooperative request scheduler and a
//! blocking SQL driver: a registry of bounded per-database connection pools, a
//! checkout/release protocol with guaranteed accounting, a generic result
//! materializer, a sanitizing dynamic-statement builder, and a TTL cache for
//! one expensive listing query.
use vstd::prelude::*;

pub mod bridge;
pub mod cache;
pub mod mutation;
pub mod pool;
pub mod registry;
pub mod table;

verus! {

/// Soft cap on live connections per pool, for the control database and every
/// tenant database alike.
pub const MAX_POOL_SIZE: usize = 16;

} // verus!
