//! Marketplace escrow and reputation core.
//!
//! Coordinates a buyer, a service-providing agent, and an optional
//! challenger around a unit of billable work (a job): agent stake
//! custody, incremental usage-based billing via checkpoints, settlement
//! under a price cap, and a time-boxed dispute/slashing process.
//!
//! The host ledger supplies durable keyed storage, caller
//! authentication, a monotonic clock, and custodial balance movement;
//! every operation here is a synchronous computation over
//! already-loaded record state, handed the authenticated caller key and
//! the current clock reading as plain values.

pub mod agent;
pub mod errors;
pub mod identity;
pub mod job;
pub mod laws;
pub mod registry;
pub mod resolve;
