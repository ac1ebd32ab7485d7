//! Per-account transaction sequence numbers for a node client: a cache of each
//! account's next number, an allocator that hands numbers out in increasing order
//! and re-resolves from the chain after a conflict, and the decisions a submission
//! makes around them.

pub mod allocator;
pub mod cache;
pub mod config;
pub mod coordinator;
pub mod error;
pub mod laws;
