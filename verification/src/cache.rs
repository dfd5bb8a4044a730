//! The response cache of the asset stream.

pub mod config;
pub mod gzip;
pub mod history;
pub mod json;
pub mod size;
pub mod store;
pub mod keys;

pub use keys::{
    CacheKey, CacheKeyAttributes, CacheKeyHasher, DefaultCacheKeyHasher, FileSizeRange,
    OperationType,
};
pub use history::{AccessPatternAnalyzer, AccessRecord, CachePredictor, CircularBuffer, CircularBufferIterator};
pub use config::{CacheConfig, CacheError};
pub mod stream;
pub use stream::{CacheStatistics, StreamCache};
