//! Feed ingestion and deduplication: a retrying fetch, a feed parser, a
//! deduplication store with per-record expiry, a size-bounded message composer
//! and the state machine that runs them for one site.

pub mod compose;
pub mod config;
pub mod feed;
pub mod fetch;
pub mod laws;
pub mod memory;
pub mod nesting;
pub mod pipeline;
pub mod run_laws;
pub mod schedule;
pub mod store;
