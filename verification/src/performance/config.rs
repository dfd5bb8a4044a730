//! Settings of the stream service's tuning, and its errors.
use vstd::prelude::*;

use crate::clock::{instant_now, nanos_since};
use crate::text::concat2;

verus! {

/// Calls `num_cpus::get`: the number of logical CPUs, which the crate
/// documents as at least one; nothing else is stated of it.
#[verifier::external_body]
pub fn cpu_count() -> (r: usize)
    ensures
        r >= 1,
{
    num_cpus::get()
}

/// Settings of the stream service's tuning. Durations are in
/// milliseconds; the back-pressure threshold is in thousandths.
#[derive(Debug, Clone)]
pub struct OptimizationConfig {
    pub worker_count: usize,
    pub worker_queue_capacity: usize,
    pub worker_timeout_ms: u64,
    pub batch_size: usize,
    pub batch_timeout_ms: u64,
    pub max_batch_wait_ms: u64,
    pub cache_capacity: usize,
    pub cache_ttl_ms: u64,
    pub enable_cache_compression: bool,
    pub service_pool_size: usize,
    pub validator_pool_size: usize,
    pub buffer_pool_size: usize,
    pub buffer_initial_capacity: usize,
    /// The share of capacity at which back-pressure starts, in thousandths.
    pub backpressure_threshold_permille: u32,
    pub backpressure_window_ms: u64,
    pub max_concurrent_connections: usize,
    pub enable_metrics: bool,
    pub metrics_interval_ms: u64,
    pub enable_detailed_tracing: bool,
    pub stream_channel_capacity: usize,
    pub stream_timeout_ms: u64,
    pub enable_stream_compression: bool,
}

/// The balanced settings for `cpus` CPUs: as many workers as CPUs, at
/// least two.
pub open spec fn balanced(c: OptimizationConfig, cpus: usize) -> bool {
    &&& c.worker_count == (if cpus >= 2 { cpus } else { 2 })
    &&& c.worker_queue_capacity == 1000
    &&& c.worker_timeout_ms == 30_000
    &&& c.batch_size == 10
    &&& c.batch_timeout_ms == 10
    &&& c.max_batch_wait_ms == 50
    &&& c.cache_capacity == 1000
    &&& c.cache_ttl_ms == 300_000
    &&& !c.enable_cache_compression
    &&& c.service_pool_size == 10
    &&& c.validator_pool_size == 5
    &&& c.buffer_pool_size == 50
    &&& c.buffer_initial_capacity == 8192
    &&& c.backpressure_threshold_permille == 800
    &&& c.backpressure_window_ms == 1000
    &&& c.max_concurrent_connections == 100
    &&& c.enable_metrics
    &&& c.metrics_interval_ms == 10_000
    &&& !c.enable_detailed_tracing
    &&& c.stream_channel_capacity == 10_000
    &&& c.stream_timeout_ms == 60_000
    &&& !c.enable_stream_compression
}

/// What `validate` says of settings.
pub open spec fn config_verdict(c: OptimizationConfig) -> Result<(), Seq<char>> {
    if c.worker_count == 0 {
        Err("Worker count must be greater than 0"@)
    } else if c.batch_size == 0 {
        Err("Batch size must be greater than 0"@)
    } else if c.cache_capacity == 0 {
        Err("Cache capacity must be greater than 0"@)
    } else if c.backpressure_threshold_permille == 0 || c.backpressure_threshold_permille > 1000 {
        Err("Backpressure threshold must be between 0.0 and 1.0"@)
    } else if c.max_concurrent_connections == 0 {
        Err("Max concurrent connections must be greater than 0"@)
    } else {
        Ok(())
    }
}

/// The throughput settings made from the balanced ones `b`.
pub open spec fn high_performance_of(b: OptimizationConfig, cpus: usize) -> OptimizationConfig {
    OptimizationConfig {
        worker_count: if cpus <= usize::MAX / 2 { (2 * cpus) as usize } else { usize::MAX },
        batch_size: 20,
        batch_timeout_ms: 5,
        cache_capacity: 5000,
        backpressure_threshold_permille: 900,
        enable_detailed_tracing: false,
        ..b
    }
}

/// The memory settings made from the balanced ones `b`.
pub open spec fn memory_efficient_of(b: OptimizationConfig) -> OptimizationConfig {
    OptimizationConfig {
        worker_count: 2,
        batch_size: 5,
        cache_capacity: 100,
        service_pool_size: 3,
        buffer_pool_size: 10,
        buffer_initial_capacity: 1024,
        ..b
    }
}

/// The development settings made from the balanced ones `b`.
pub open spec fn development_of(b: OptimizationConfig) -> OptimizationConfig {
    OptimizationConfig {
        enable_detailed_tracing: true,
        metrics_interval_ms: 1000,
        worker_timeout_ms: 5000,
        stream_timeout_ms: 10_000,
        ..b
    }
}

impl OptimizationConfig {
    fn balanced_for(cpus: usize) -> (r: OptimizationConfig)
        ensures
            balanced(r, cpus),
    {
        OptimizationConfig {
            worker_count: if cpus >= 2 { cpus } else { 2 },
            worker_queue_capacity: 1000,
            worker_timeout_ms: 30_000,
            batch_size: 10,
            batch_timeout_ms: 10,
            max_batch_wait_ms: 50,
            cache_capacity: 1000,
            cache_ttl_ms: 300_000,
            enable_cache_compression: false,
            service_pool_size: 10,
            validator_pool_size: 5,
            buffer_pool_size: 50,
            buffer_initial_capacity: 8192,
            backpressure_threshold_permille: 800,
            backpressure_window_ms: 1000,
            max_concurrent_connections: 100,
            enable_metrics: true,
            metrics_interval_ms: 10_000,
            enable_detailed_tracing: false,
            stream_channel_capacity: 10_000,
            stream_timeout_ms: 60_000,
            enable_stream_compression: false,
        }
    }

    /// The balanced settings for this machine's CPUs.
    pub fn balanced_default() -> (r: OptimizationConfig)
        ensures
            exists|cpus: usize| #![trigger balanced(r, cpus)] cpus >= 1 && balanced(r, cpus),
    {
        let cpus = cpu_count();
        OptimizationConfig::balanced_for(cpus)
    }

    /// Settings for throughput: twice as many workers as CPUs, batches of
    /// 20 within 5 ms, a cache of 5000 entries, back-pressure from 90%; the
    /// rest balanced.
    pub fn high_performance() -> (r: OptimizationConfig)
        ensures
            exists|cpus: usize, b: OptimizationConfig| #![trigger balanced(b, cpus)]
                cpus >= 1 && balanced(b, cpus) && r == high_performance_of(b, cpus),
    {
        let cpus = cpu_count();
        let mut config = OptimizationConfig::balanced_for(cpus);
        let ghost b = config;
        config.worker_count = if cpus <= usize::MAX / 2 { cpus * 2 } else { usize::MAX };
        config.batch_size = 20;
        config.batch_timeout_ms = 5;
        config.cache_capacity = 5000;
        config.backpressure_threshold_permille = 900;
        config.enable_detailed_tracing = false;
        assert(config == high_performance_of(b, cpus));
        config
    }

    /// Settings for memory: two workers, batches of 5, a cache of 100
    /// entries, three services and ten buffers of 1 KiB in the pools; the
    /// rest balanced.
    pub fn memory_efficient() -> (r: OptimizationConfig)
        ensures
            exists|cpus: usize, b: OptimizationConfig| #![trigger balanced(b, cpus)]
                cpus >= 1 && balanced(b, cpus) && r == memory_efficient_of(b),
    {
        let cpus = cpu_count();
        let mut config = OptimizationConfig::balanced_for(cpus);
        let ghost b = config;
        config.worker_count = 2;
        config.batch_size = 5;
        config.cache_capacity = 100;
        config.service_pool_size = 3;
        config.buffer_pool_size = 10;
        config.buffer_initial_capacity = 1024;
        assert(config == memory_efficient_of(b));
        config
    }

    /// Settings for development: detailed tracing, metrics every second,
    /// short timeouts; the rest balanced.
    pub fn development() -> (r: OptimizationConfig)
        ensures
            exists|cpus: usize, b: OptimizationConfig| #![trigger balanced(b, cpus)]
                cpus >= 1 && balanced(b, cpus) && r == development_of(b),
    {
        let cpus = cpu_count();
        let mut config = OptimizationConfig::balanced_for(cpus);
        let ghost b = config;
        config.enable_detailed_tracing = true;
        config.metrics_interval_ms = 1000;
        config.worker_timeout_ms = 5000;
        config.stream_timeout_ms = 10_000;
        assert(config == development_of(b));
        config
    }

    /// Checks the settings: counts and capacities above zero, the
    /// threshold above 0 and at most 1.
    pub fn validate(&self) -> (r: Result<(), String>)
        ensures
            match r {
                Ok(()) => config_verdict(*self) is Ok,
                Err(m) => config_verdict(*self) == Err::<(), Seq<char>>(m@),
            },
    {
        if self.worker_count == 0 {
            return Err(String::from_str("Worker count must be greater than 0"));
        }
        if self.batch_size == 0 {
            return Err(String::from_str("Batch size must be greater than 0"));
        }
        if self.cache_capacity == 0 {
            return Err(String::from_str("Cache capacity must be greater than 0"));
        }
        if self.backpressure_threshold_permille == 0 || self.backpressure_threshold_permille > 1000 {
            return Err(String::from_str("Backpressure threshold must be between 0.0 and 1.0"));
        }
        if self.max_concurrent_connections == 0 {
            return Err(String::from_str("Max concurrent connections must be greater than 0"));
        }
        Ok(())
    }
}

/// How the service is tuned.
#[derive(Debug, Clone, Copy, PartialEq, Eq, Structural)]
pub enum PerformanceLevel {
    MemoryEfficient,
    Balanced,
    HighPerformance,
    /// Settings given by hand; starts from the balanced ones.
    Custom,
}

impl PerformanceLevel {
    /// The settings of the level.
    pub fn to_config(self) -> (r: OptimizationConfig)
        ensures
            exists|cpus: usize, b: OptimizationConfig| #![trigger balanced(b, cpus)] cpus >= 1 && balanced(b, cpus) && r == match self {
                PerformanceLevel::MemoryEfficient => memory_efficient_of(b),
                PerformanceLevel::HighPerformance => high_performance_of(b, cpus),
                PerformanceLevel::Balanced | PerformanceLevel::Custom => b,
            },
    {
        match self {
            PerformanceLevel::MemoryEfficient => OptimizationConfig::memory_efficient(),
            PerformanceLevel::Balanced => {
                let r = OptimizationConfig::balanced_default();
                assert(exists|cpus: usize, b: OptimizationConfig| #![trigger balanced(b, cpus)] cpus >= 1 && balanced(b, cpus) && r == b);
                r
            },
            PerformanceLevel::HighPerformance => OptimizationConfig::high_performance(),
            PerformanceLevel::Custom => {
                let r = OptimizationConfig::balanced_default();
                assert(exists|cpus: usize, b: OptimizationConfig| #![trigger balanced(b, cpus)] cpus >= 1 && balanced(b, cpus) && r == b);
                r
            },
        }
    }
}

/// Why tuning failed.
#[derive(Debug, Clone, PartialEq, Eq)]
pub enum OptimizationError {
    WorkerPoolError(String),
    CacheError(String),
    ResourcePoolError(String),
    MonitoringError(String),
    ConfigError(String),
}

impl OptimizationError {
    /// The text the error displays.
    pub open spec fn text(&self) -> Seq<char> {
        match self {
            OptimizationError::WorkerPoolError(s) => "Worker pool initialization failed: "@ + s@,
            OptimizationError::CacheError(s) => "Cache initialization failed: "@ + s@,
            OptimizationError::ResourcePoolError(s) => "Resource pool error: "@ + s@,
            OptimizationError::MonitoringError(s) => "Performance monitoring error: "@ + s@,
            OptimizationError::ConfigError(s) => "Configuration error: "@ + s@,
        }
    }

    /// The text the error displays.
    pub fn display_string(&self) -> (r: String)
        ensures
            r@ == self.text(),
    {
        match self {
            OptimizationError::WorkerPoolError(s) => concat2("Worker pool initialization failed: ", s.as_str()),
            OptimizationError::CacheError(s) => concat2("Cache initialization failed: ", s.as_str()),
            OptimizationError::ResourcePoolError(s) => concat2("Resource pool error: ", s.as_str()),
            OptimizationError::MonitoringError(s) => concat2("Performance monitoring error: ", s.as_str()),
            OptimizationError::ConfigError(s) => concat2("Configuration error: ", s.as_str()),
        }
    }
}

/// A connection being tuned.
#[derive(Debug, Clone)]
pub struct OptimizationContext {
    pub connection_id: String,
    pub session_start: std::time::Instant,
    pub message_count: u64,
    pub config: OptimizationConfig,
}

impl OptimizationContext {
    /// A context started now, with no message yet.
    pub fn new(connection_id: String, config: OptimizationConfig) -> (r: OptimizationContext)
        ensures
            r.connection_id == connection_id,
            r.message_count == 0,
            r.config == config,
    {
        OptimizationContext { connection_id, session_start: instant_now(), message_count: 0, config }
    }

    /// Counts one more message.
    pub fn increment_message_count(&mut self)
        requires
            old(self).message_count < u64::MAX,
        ensures
            final(self).message_count == old(self).message_count + 1,
            final(self).connection_id == old(self).connection_id,
            final(self).config == old(self).config,
    {
        self.message_count = self.message_count + 1;
    }

    /// How long the session has lasted, in nanoseconds.
    pub fn session_duration_nanos(&self) -> u64 {
        nanos_since(&self.session_start)
    }
}

/// Every level's settings pass `validate`, on every machine.
pub proof fn law_levels_valid(b: OptimizationConfig, cpus: usize)
    requires
        cpus >= 1,
        balanced(b, cpus),
    ensures
        config_verdict(b) is Ok,
        config_verdict(high_performance_of(b, cpus)) is Ok,
        config_verdict(memory_efficient_of(b)) is Ok,
        config_verdict(development_of(b)) is Ok,
{
}

} // verus!
