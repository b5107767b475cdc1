//! Core of a small secret-keeping service: password login issues short-lived
//! bearer tokens, and every read or write of a named secret value must pass a
//! token check before the store is touched.
//!
//! The library holds the verified logic: the password-check rule (a missing
//! user converges to a hash that can never verify), token issuance and
//! expiry, the deterministic mapping from a secret's name to its storage
//! identifier, the access gate in front of the secret records, and the audit
//! and counter bookkeeping that every outcome owes.  Network plumbing, the
//! hashing primitive, and the processes that carry the store and the audit
//! sink live outside it.
use vstd::prelude::*;

pub mod events;
pub mod metrics;
pub mod laws;
pub mod messages;
pub mod paths;
pub mod secret_id;
pub mod server;
pub mod store;
pub mod token;

verus! {

/// Number of characters in an issued session token.
pub const TOKEN_LENGTH: usize = 24;

/// How many seconds an issued token stays valid unless configured otherwise.
pub const DEFAULT_TOKEN_TTL_SECS: u64 = 600;

} // verus!
