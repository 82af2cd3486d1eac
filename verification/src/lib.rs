//! A civic issue-tracking registry: an authenticated record store holding
//! user records (identity, role, reputation, activity counters) and issue
//! records (status, category, vote and verification counters), with
//! create-once record addressing, role-gated status updates, overflow-checked
//! counters, and an auto-close threshold on verified resolutions.

pub mod addr;
pub mod arith;
pub mod auth;
pub mod laws;
pub mod ops;
pub mod store;
pub mod types;
