//! A read-through scrape cache with request coalescing, together with the
//! client-side pieces that drive it: a single-slot asynchronous task tracker,
//! an adapter that normalizes the two upstream provider response shapes, and
//! an append-only history ledger with consecutive de-duplication.

pub mod adapter;
pub mod api;
mod clock;
pub mod coordinator;
pub mod export;
pub mod ledger;
pub mod processing;
pub mod session;
pub mod store;
pub mod text;
