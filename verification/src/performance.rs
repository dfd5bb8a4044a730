//! Tuning of the stream service: settings, object pools, the integer
//! bookkeeping of the performance monitor and of stream sessions.

pub mod config;
pub mod pool;
pub mod monitor;
pub mod sessions;

pub use config::{OptimizationConfig, OptimizationContext, OptimizationError, PerformanceLevel};
pub use pool::{ObjectPool, ObjectPoolStats, ResourcePool, ResourcePoolConfig, ResourcePoolError};
pub use monitor::{HistoricalData, LatencySamples, PerformanceCounters, ThroughputWindow};
pub use sessions::{MonitoringError, SessionInfo, SessionStatistics, SessionTracker};
