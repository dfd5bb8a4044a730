use unity_mcp::grpc::error::StatusCode;
use unity_mcp::grpc::operations::{
    operation_failed_response, ImportAssetOperation, MoveAssetOperation, RefreshOperation,
    StreamOperationHandler,
};
use unity_mcp::performance::monitor::history_capacity;
use unity_mcp::performance::pool::efficiency_counts;
use unity_mcp::performance::{
    HistoricalData, LatencySamples, ObjectPool, OptimizationConfig, OptimizationError, PerformanceCounters,
    PerformanceLevel, ResourcePool, ResourcePoolConfig, ResourcePoolError, SessionTracker, ThroughputWindow,
};
use unity_mcp::proto::{MoveAssetRequest, RefreshResponse, StreamResponseMessage};

#[test]
fn test_resource_pool_config() {
    let config = ResourcePoolConfig::default();
    assert_eq!(config.service_pool_max, 20);
    assert_eq!(config.validator_pool_max, 10);
    assert_eq!(config.buffer_pool_max, 100);
}

#[test]
fn object_pool_basic_operations() {
    let mut pool: ObjectPool<String> = ObjectPool::new(5, 2);
    let make = || String::from("test");
    let obj1 = pool.get(&make);
    assert_eq!(obj1.as_str(), "test");
    pool.return_object(String::new(), 1);
    let obj2 = pool.get(&make);
    assert_eq!(obj2.as_str(), "");
    let stats = pool.get_stats();
    assert_eq!(stats.total_created, 1);
    assert_eq!(stats.total_acquired, 2);
    assert_eq!(stats.total_returned, 1);
    assert_eq!(stats.current_active, 1);
}

#[test]
fn pool_keeps_at_most_its_size_and_trims_idle() {
    let mut pool: ObjectPool<u32> = ObjectPool::new(3, 1);
    let make = || 7u32;
    pool.preallocate(10, &make, 0);
    assert_eq!(pool.available_count(), 3);
    pool.return_object(1, 5);
    assert_eq!(pool.available_count(), 3);
    pool.cleanup_idle_objects(100, 1_000);
    assert_eq!(pool.available_count(), 1);
}

#[test]
fn resource_pool_integration() {
    let mut pools = ResourcePool::new(0);
    let _service = pools.get_service();
    let _validator = pools.get_validator();
    let buffer = pools.get_buffer();
    assert!(buffer.is_empty());
    pools.return_buffer(vec![1, 2, 3], 1);
    let stats = pools.get_pool_statistics();
    assert_eq!(stats.service_pool_stats.total_acquired, 1);
    assert_eq!(stats.service_pool_stats.total_created, 0);
    assert_eq!(stats.total_memory_allocated, 0);
    let (hits, requests) = efficiency_counts(&stats);
    assert_eq!((hits, requests), (3, 3));
    let s = pools.get_string_buffer();
    assert!(s.is_empty());
}

#[test]
fn pool_errors_display() {
    assert_eq!(ResourcePoolError::PoolAtCapacity.display_string(), "Pool is at capacity");
    assert_eq!(
        ResourcePoolError::InternalError("x".into()).display_string(),
        "Internal pool error: x"
    );
    assert_eq!(
        OptimizationError::ConfigError("bad".into()).display_string(),
        "Configuration error: bad"
    );
}

#[test]
fn test_default_config_validation() {
    let config = OptimizationConfig::balanced_default();
    assert!(config.validate().is_ok());
}

#[test]
fn test_high_performance_config() {
    let config = OptimizationConfig::high_performance();
    assert!(config.worker_count >= num_cpus::get());
    assert!(config.validate().is_ok());
}

#[test]
fn test_memory_efficient_config() {
    let config = OptimizationConfig::memory_efficient();
    assert_eq!(config.worker_count, 2);
    assert!(config.validate().is_ok());
}

#[test]
fn test_config_validation_errors() {
    let mut config = OptimizationConfig::balanced_default();
    config.worker_count = 0;
    assert!(config.validate().is_err());
    let mut config = OptimizationConfig::balanced_default();
    config.batch_size = 0;
    assert!(config.validate().is_err());
    let mut config = OptimizationConfig::balanced_default();
    config.cache_capacity = 0;
    assert!(config.validate().is_err());
    let mut config = OptimizationConfig::balanced_default();
    config.backpressure_threshold_permille = 1500;
    assert!(config.validate().is_err());
    let mut config = OptimizationConfig::balanced_default();
    config.max_concurrent_connections = 0;
    assert!(config.validate().is_err());
}

#[test]
fn test_performance_level_to_config() {
    let mem_config = PerformanceLevel::MemoryEfficient.to_config();
    assert_eq!(mem_config.worker_count, 2);
    let high_perf_config = PerformanceLevel::HighPerformance.to_config();
    assert!(high_perf_config.worker_count >= num_cpus::get());
    let balanced_config = PerformanceLevel::Balanced.to_config();
    assert_eq!(balanced_config.worker_count, num_cpus::get().max(2));
}

#[test]
fn sessions_start_and_complete() {
    let mut t = SessionTracker::new();
    t.start_session("c1".to_string(), 0);
    t.start_session("c2".to_string(), 0);
    assert_eq!(t.get_statistics().active_sessions, 2);
    t.complete_session("c1".to_string(), 10, 100);
    t.complete_session("unknown".to_string(), 99, 99);
    let s = t.get_statistics();
    assert_eq!(s.active_sessions, 1);
    assert_eq!(s.total_sessions, 2);
    assert_eq!(s.total_messages_processed, 10);
    assert_eq!(s.total_bytes_processed, 100);
}

#[test]
fn operation_handlers_name_and_wrap() {
    assert_eq!(ImportAssetOperation::get_operation_name(), "import_asset");
    let info = MoveAssetOperation::extract_debug_info(&MoveAssetRequest {
        src_path: "Assets/a".into(),
        dst_path: "Assets/b".into(),
    });
    assert_eq!(info, vec![("src_path", "Assets/a".to_string()), ("dst_path", "Assets/b".to_string())]);
    let r = RefreshOperation::build_stream_response(RefreshResponse { success: true, error: None });
    assert!(matches!(r.message, Some(StreamResponseMessage::Refresh(_))));
}

#[test]
fn failed_operation_answer() {
    let r = operation_failed_response("move_asset", StatusCode::NotFound, "gone");
    match r.message {
        Some(StreamResponseMessage::MoveAsset(m)) => {
            let e = m.error.unwrap();
            assert_eq!(e.code, 5);
            assert!(e.message.contains("move_asset operation failed: gone"));
            assert!(e.details.contains("gRPC status: NotFound | Details: gone"));
        }
        _ => panic!("expected a move response"),
    }
}

#[test]
fn performance_counters_count_sessions_errors_memory_and_cache() {
    let mut c = PerformanceCounters::new();
    c.record_session_messages(100);
    assert_eq!(c.total_requests, 100);
    assert_eq!(c.successful_requests, 100);
    c.record_error();
    c.record_backpressure_event();
    assert_eq!(c.failed_requests, 1);
    assert_eq!(c.backpressure_events, 1);
    c.update_memory_usage(500);
    c.update_memory_usage(200);
    assert_eq!(c.memory_usage_bytes, 200);
    assert_eq!(c.peak_memory_bytes, 500);
    c.update_queue_depth(7);
    assert_eq!(c.queue_depth, 7);
    c.record_cache_hit();
    c.record_cache_hit();
    c.record_cache_miss();
    assert_eq!(c.cache_hits, 2);
    assert_eq!(c.cache_total_ops, 3);
    c.cache_hits = u64::MAX;
    c.cache_total_ops = u64::MAX;
    c.record_cache_hit();
    assert_eq!(c.cache_hits, u64::MAX);
    assert_eq!(c.cache_total_ops, u64::MAX);
}

#[test]
fn throughput_window_drops_times_older_than_the_window() {
    let mut w = ThroughputWindow::new(10);
    w.update_throughput(2, 5);
    assert_eq!(w.request_count(), 2);
    w.update_throughput(1, 15);
    assert_eq!(w.request_count(), 3);
    w.update_throughput(0, 16);
    assert_eq!(w.request_count(), 1);
    w.update_throughput(3, 100);
    assert_eq!(w.request_count(), 3);
    assert_eq!(w.window_nanos(), 10);
}

#[test]
fn latency_samples_keep_the_latest() {
    let mut s = LatencySamples::new(3);
    for l in [1u64, 2, 3, 4] {
        s.update_latency(l);
    }
    assert_eq!(s.to_vec(), vec![2, 3, 4]);
    let mut none = LatencySamples::new(0);
    none.update_latency(9);
    assert!(none.to_vec().is_empty());
}

#[test]
fn history_keeps_at_most_its_capacity() {
    assert_eq!(history_capacity(24 * 60 * 60, 1), 86400);
    assert_eq!(history_capacity(10, 3), 3);
    let mut h: HistoricalData<u32> = HistoricalData::new(2);
    h.add_data_point(1);
    h.add_data_point(2);
    h.add_data_point(3);
    assert_eq!(h.len(), 2);
    assert_eq!(h.max_history_size(), 2);
}

#[test]
fn cleanup_drops_idle_objects_anywhere_down_to_the_minimum() {
    let mut pool: ObjectPool<u32> = ObjectPool::new(5, 0);
    pool.return_object(1, 0);
    pool.return_object(2, 1000);
    pool.cleanup_idle_objects(100, 1050);
    assert_eq!(pool.available_count(), 1);
    let make = || 9u32;
    assert_eq!(pool.get(&make), 2);
    let mut kept: ObjectPool<u32> = ObjectPool::new(5, 2);
    kept.return_object(1, 0);
    kept.return_object(2, 0);
    kept.return_object(3, 0);
    kept.cleanup_idle_objects(100, 1050);
    assert_eq!(kept.available_count(), 2);
}

#[test]
fn session_totals_count_every_start() {
    let mut t = SessionTracker::new();
    t.start_session("a".to_string(), 0);
    t.start_session("a".to_string(), 1);
    t.complete_session("a".to_string(), 1, 1);
    t.complete_session("a".to_string(), 1, 1);
    t.start_session("b".to_string(), 2);
    let s = t.get_statistics();
    assert_eq!(s.total_sessions, 3);
    assert!(s.active_sessions <= s.total_sessions);
    assert_eq!(s.active_sessions, 2);
}
