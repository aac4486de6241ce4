//! Verified core of a catalog-ingestion pipeline.
//!
//! The library models and verifies the parts of the pipeline that carry
//! engineering risk: admission control for concurrent fetch phases, a
//! sliding-window outbound rate bound, per-resource retry with linear
//! backoff, an idempotent durable store, and a resumable progress
//! checkpoint with a shutdown flush. The surrounding process (HTTP,
//! database, signals, display) drives these components from outside.

pub mod gate;
pub mod models;
pub mod pipeline;
pub mod progress;
pub mod rate;
pub mod retry;
pub mod store;
