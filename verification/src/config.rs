//! The already-parsed configuration the core consumes. Reading and parsing
//! the configuration document is the surrounding program's business.

use crate::ingester::IngestConfig;
use crate::parquet_writer::ParquetConfig;
use crate::retry::RetryConfig;
use vstd::prelude::*;

verus! {

/// The writer program's full configuration: one writer per entity kind,
/// the ingestion bounds and fan-out, and the retry policy.
#[derive(Debug, Clone, PartialEq, Eq)]
pub struct Config {
    pub block: ParquetConfig,
    pub transaction: ParquetConfig,
    pub log: ParquetConfig,
    pub ingest: IngestConfig,
    pub retry: RetryConfig,
    pub block_overlap_size: usize,
    pub delete_blocks_chunk_size: usize,
}

} // verus!
