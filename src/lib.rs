//! Ingestion, symbolication and retention logic for a debug-artifact upload
//! service: artifact keys, per-field upload decisions, the symbolication
//! pipeline and the retention sweeper, each as a verified function or state
//! machine over plain values.

pub mod timestamp;
pub mod store;
pub mod ingest;
pub mod symbolicate;
pub mod sweep;
pub mod listing;
