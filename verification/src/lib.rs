//! Reward and penalty accounting for a proof-of-stake beacon chain.
//!
//! Given a snapshot of one epoch (validator records, participation totals and
//! the protocol constants), the crate computes the attestation rewards an
//! ideally behaving validator would earn at each effective-balance level, the
//! rewards and penalties each requested validator actually earned, and the
//! sync-committee rewards paid for one block. All arithmetic is checked: a
//! product that does not fit or a zero divisor ends the computation with an
//! error instead of a wrong amount.
//!
//! The computations read nothing but their arguments and change nothing:
//! fetching blocks and states from the chain is left to the caller, who
//! hands over what it found as plain values.

pub mod arith;
pub mod attestation;
pub mod config;
pub mod error;
pub mod ideal;
pub mod records;
pub mod snapshot;
pub mod sync_committee;
pub mod theorems;
pub mod total;
