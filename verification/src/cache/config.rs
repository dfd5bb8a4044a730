//! Settings and errors of the cache.
use vstd::prelude::*;

use crate::text::concat2;

verus! {

/// Settings of the cache. Durations are in milliseconds.
#[derive(Debug, Clone)]
pub struct CacheConfig {
    pub max_entries: usize,
    pub max_memory_mb: usize,
    pub default_ttl_ms: u64,
    pub max_ttl_ms: u64,
    pub adaptive_ttl: bool,
    pub enable_compression: bool,
    /// Responses smaller than this are not compressed.
    pub compression_threshold_bytes: usize,
    /// gzip level, 0 to 9.
    pub compression_level: u32,
    pub enable_pattern_learning: bool,
    pub enable_prefetching: bool,
    pub enable_adaptive_sizing: bool,
    pub cleanup_interval_ms: u64,
    pub stats_update_interval_ms: u64,
}

impl Default for CacheConfig {
    /// 1000 entries, 50 MB, five minutes to live (an hour at most),
    /// compression at level 6 from 1 KiB, pattern learning on, prefetching
    /// off.
    fn default() -> (r: CacheConfig)
        ensures
            r.max_entries == 1000,
            r.max_memory_mb == 50,
            r.default_ttl_ms == 300_000,
            r.max_ttl_ms == 3_600_000,
            r.adaptive_ttl,
            r.enable_compression,
            r.compression_threshold_bytes == 1024,
            r.compression_level == 6,
            r.enable_pattern_learning,
            !r.enable_prefetching,
            r.enable_adaptive_sizing,
            r.cleanup_interval_ms == 60_000,
            r.stats_update_interval_ms == 10_000,
    {
        CacheConfig {
            max_entries: 1000,
            max_memory_mb: 50,
            default_ttl_ms: 300_000,
            max_ttl_ms: 3_600_000,
            adaptive_ttl: true,
            enable_compression: true,
            compression_threshold_bytes: 1024,
            compression_level: 6,
            enable_pattern_learning: true,
            enable_prefetching: false,
            enable_adaptive_sizing: true,
            cleanup_interval_ms: 60_000,
            stats_update_interval_ms: 10_000,
        }
    }
}

/// Why a cache operation failed.
#[derive(Debug, Clone, PartialEq, Eq)]
pub enum CacheError {
    CompressionError(String),
    DecompressionError(String),
    CapacityExceeded,
    InvalidEntry,
    LockPoisoned,
    InvalidConfiguration(String),
    OperationFailed(String),
}

impl CacheError {
    /// The text the error displays.
    pub open spec fn text(&self) -> Seq<char> {
        match self {
            CacheError::CompressionError(s) => "Compression failed: "@ + s@,
            CacheError::DecompressionError(s) => "Decompression failed: "@ + s@,
            CacheError::CapacityExceeded => "Cache capacity exceeded"@,
            CacheError::InvalidEntry => "Invalid cache entry"@,
            CacheError::LockPoisoned => "Cache mutex poisoned"@,
            CacheError::InvalidConfiguration(s) => "Invalid configuration: "@ + s@,
            CacheError::OperationFailed(s) => "Cache operation failed: "@ + s@,
        }
    }

    /// The text the error displays.
    pub fn display_string(&self) -> (r: String)
        ensures
            r@ == self.text(),
    {
        match self {
            CacheError::CompressionError(s) => concat2("Compression failed: ", s.as_str()),
            CacheError::DecompressionError(s) => concat2("Decompression failed: ", s.as_str()),
            CacheError::CapacityExceeded => String::from_str("Cache capacity exceeded"),
            CacheError::InvalidEntry => String::from_str("Invalid cache entry"),
            CacheError::LockPoisoned => String::from_str("Cache mutex poisoned"),
            CacheError::InvalidConfiguration(s) => concat2("Invalid configuration: ", s.as_str()),
            CacheError::OperationFailed(s) => concat2("Cache operation failed: ", s.as_str()),
        }
    }
}

} // verus!
