//! Resilience and progress-tracking core of a document-chunking worker.
//!
//! A worker process drains a queue of "chunk this page" tasks, chunks each
//! page, persists the chunk records, and advances a per-document completion
//! record. This crate holds the decision logic of that worker: the capped
//! exponential backoff used while acquiring a broker connection, the bounded
//! retry policy of the task-consumption loop, the step-by-step protocol of
//! the chunk ingestion handler, and the completion state machine that turns
//! per-page results into a document-level status. The surrounding process
//! (queue, object storage, analytical store, signals) performs the I/O and
//! feeds its outcomes back in as events.

pub mod backoff;
pub mod handler;
pub mod models;
pub mod retry;
pub mod status;
