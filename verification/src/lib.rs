//! Orchestration core for a relay that moves value and registers storage
//! against external token-accounting services ("external ledgers").
//!
//! Every remote interaction is represented as data: an operation returns a
//! [`types::PendingOp`] describing the remote calls it wants issued and the
//! continuation stages that handle their results, and an unverified shell
//! performs them. This keeps the decision logic — registration guarantees,
//! the storage-allocation mirror, withdrawal and two-phase unregistration —
//! fully checked.

pub mod account_set;
pub mod admin;
pub mod errors;
pub mod events;
pub mod ft;
pub mod laws;
pub mod mirror;
pub mod state;
pub mod types;
