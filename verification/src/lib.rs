//! Account state cache and transition engine for a deterministic ledger
//! execution environment.
//!
//! During execution of a batch of transactions, every account that is read or
//! mutated is tracked in a cache entry: an optional account record paired with
//! a status drawn from a closed lattice. Each mutating operation updates the
//! status according to the lattice rules and returns a transition record — a
//! self-sufficient diff that a downstream aggregator merges into a cumulative
//! changeset.

pub mod account;
pub mod cache_account;
pub mod replay;
pub mod status;
pub mod storage;
pub mod transition;
pub mod u256;
