//! Write-back buffering core for an analytics ingestion service.
//!
//! Events (page visits and file downloads) are accepted instantly into
//! in-memory queues and flushed to a columnar store in periodic batches.
//! This crate holds the buffering-and-flush engine: the per-kind write
//! buffers, the tick that lazily initializes the store and drains each
//! buffer into a batch insert, the rollback policy that re-queues a failed
//! batch so that no record is ever lost, and the scheduler's interval and
//! non-overlap bookkeeping.

pub mod buffer;
pub mod connector;
pub mod error;
pub mod models;
pub mod routes;
pub mod scheduler;
pub mod settings;
