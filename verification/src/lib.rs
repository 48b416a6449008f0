//! Core of a blockchain archive: an ingestion scheduler that pulls ranged
//! batches of blocks under a retry policy, a columnar writer that buffers
//! typed rows and rotates them into immutable row groups, and a field
//! selection compiler that turns sparse, mergeable selections of output
//! fields into deterministic projection lists.

pub mod config;
pub mod error;
pub mod field_selection;
pub mod ingester;
pub mod parquet_writer;
pub mod retry;
pub mod types;
