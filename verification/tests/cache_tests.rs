use unity_mcp::cache::{
    CacheConfig, CacheKeyHasher, CircularBuffer, DefaultCacheKeyHasher, OperationType, StreamCache,
};
use unity_mcp::cache::json::{parse_response, serialize_response};
use unity_mcp::proto::{
    DeleteAssetResponse, ImportAssetRequest, ImportAssetResponse, McpError, MoveAssetRequest, MoveAssetResponse,
    RefreshResponse, StreamRequest, StreamRequestMessage, StreamResponse, StreamResponseMessage, UnityAsset,
};

fn create_test_request() -> StreamRequest {
    StreamRequest {
        message: Some(StreamRequestMessage::ImportAsset(ImportAssetRequest {
            asset_path: "Assets/TestAsset.png".to_string(),
        })),
    }
}

fn create_different_test_request() -> StreamRequest {
    StreamRequest {
        message: Some(StreamRequestMessage::ImportAsset(ImportAssetRequest {
            asset_path: "Assets/DifferentAsset.png".to_string(),
        })),
    }
}

fn create_test_response() -> StreamResponse {
    StreamResponse {
        message: Some(StreamResponseMessage::ImportAsset(ImportAssetResponse {
            asset: Some(UnityAsset {
                guid: "test-guid-12345".to_string(),
                asset_path: "Assets/TestAsset.png".to_string(),
                asset_type: "Texture2D".to_string(),
            }),
            error: None,
        })),
    }
}

fn asset_path_of(r: &StreamResponse) -> String {
    match &r.message {
        Some(StreamResponseMessage::ImportAsset(x)) => x.asset.as_ref().unwrap().asset_path.clone(),
        _ => panic!("Response message types don't match"),
    }
}

#[test]
fn test_cache_key_generation() {
    let hasher = DefaultCacheKeyHasher::new();
    let request = create_test_request();
    let key = hasher.generate_key(&request);
    assert!(key.is_some());
    let cache_key = key.unwrap();
    assert_eq!(cache_key.operation_type.as_str(), "import_asset");
    assert_eq!(cache_key.version, 1);
    assert!(cache_key.attributes.normalized_path.is_some());
}

#[test]
fn test_cache_key_consistency() {
    let hasher = DefaultCacheKeyHasher::new();
    let request = create_test_request();
    let key1 = hasher.generate_key(&request);
    let key2 = hasher.generate_key(&request);
    assert_eq!(key1, key2);
}

#[test]
fn test_different_operation_types() {
    let hasher = DefaultCacheKeyHasher::new();
    let import_request = StreamRequest {
        message: Some(StreamRequestMessage::ImportAsset(ImportAssetRequest {
            asset_path: "Assets/Test.png".to_string(),
        })),
    };
    let move_request = StreamRequest {
        message: Some(StreamRequestMessage::MoveAsset(MoveAssetRequest {
            src_path: "Assets/Test.png".to_string(),
            dst_path: "Assets/Moved.png".to_string(),
        })),
    };
    let import_key = hasher.generate_key(&import_request).unwrap();
    let move_key = hasher.generate_key(&move_request).unwrap();
    assert_eq!(import_key.operation_type.as_str(), "import_asset");
    assert_eq!(move_key.operation_type.as_str(), "move_asset");
    assert_ne!(import_key, move_key);
}

#[test]
fn move_key_joins_both_paths() {
    let hasher = DefaultCacheKeyHasher::new();
    let r = StreamRequest {
        message: Some(StreamRequestMessage::MoveAsset(MoveAssetRequest {
            src_path: "Assets/a".to_string(),
            dst_path: "Assets/b".to_string(),
        })),
    };
    let k = hasher.generate_key(&r).unwrap();
    assert_eq!(k.operation_type, OperationType::MoveAsset);
    assert_eq!(k.attributes.normalized_path, Some("Assets/a:Assets/b".to_string()));
    assert!(hasher.generate_key(&StreamRequest { message: None }).is_none());
    assert_eq!(hasher.calculate_ttl(&r, 1234), 1234);
}

#[test]
fn test_cache_statistics() {
    let cache = StreamCache::new().expect("Failed to create cache");
    let stats = cache.get_statistics();
    assert_eq!(stats.total_requests, 0);
    assert_eq!(stats.cache_hits, 0);
    assert_eq!(stats.cache_misses, 0);
    let hit_ratio: f64 = if stats.total_requests == 0 { 0.0 } else { stats.cache_hits as f64 / stats.total_requests as f64 };
    assert_eq!(hit_ratio, 0.0);
}

#[test]
fn basic_cache_operations() {
    let mut cache = StreamCache::new().expect("Failed to create cache");
    let request = create_test_request();
    assert!(cache.get(&request).is_none());
    let response = create_test_response();
    cache.put(&request, response.clone());
    let cached = cache.get(&request).expect("cached");
    assert_eq!(asset_path_of(&cached), asset_path_of(&response));
}

#[test]
fn cache_hit_statistics() {
    let mut cache = StreamCache::new().expect("Failed to create cache");
    let request = create_test_request();
    assert!(cache.get(&request).is_none());
    cache.put(&request, create_test_response());
    assert!(cache.get(&request).is_some());
    let stats = cache.get_statistics();
    assert_eq!(stats.total_requests, 2);
    assert_eq!(stats.cache_hits, 1);
    assert_eq!(stats.cache_misses, 1);
    assert_eq!(stats.cache_hits * 2, stats.total_requests);
}

#[test]
fn multiple_different_requests() {
    let mut cache = StreamCache::new().expect("Failed to create cache");
    cache.put(&create_test_request(), create_test_response());
    cache.put(&create_different_test_request(), create_test_response());
    assert!(cache.get(&create_test_request()).is_some());
    assert!(cache.get(&create_different_test_request()).is_some());
    let stats = cache.get_statistics();
    assert_eq!(stats.cache_hits, 2);
    assert_eq!(stats.total_requests, 2);
}

#[test]
fn ttl_expiration() {
    let config = CacheConfig { default_ttl_ms: 10, ..Default::default() };
    let mut cache = StreamCache::with_config(config).expect("Failed to create cache");
    let request = create_test_request();
    cache.put(&request, create_test_response());
    assert!(cache.get(&request).is_some());
    let start = std::time::Instant::now();
    while start.elapsed() < std::time::Duration::from_millis(15) {}
    assert!(cache.get(&request).is_none());
}

#[test]
fn cache_resize_and_clear() {
    let mut cache = StreamCache::new().expect("Failed to create cache");
    assert_eq!(cache.get_statistics().current_entry_count, 0);
    cache.resize_cache(500).expect("Failed to resize cache");
    assert!(cache.resize_cache(0).is_err());
    let request = create_test_request();
    cache.put(&request, create_test_response());
    assert!(cache.get(&request).is_some());
    cache.clear();
    assert!(cache.get(&request).is_none());
    let stats = cache.get_statistics();
    assert_eq!(stats.total_requests, 1);
    assert_eq!(stats.cache_hits, 0);
    assert_eq!(stats.cache_misses, 1);
}

#[test]
fn resize_keeps_the_most_recent_entries() {
    let mut cache = StreamCache::new().expect("Failed to create cache");
    cache.put(&create_test_request(), create_test_response());
    cache.put(&create_different_test_request(), create_test_response());
    cache.resize_cache(1).unwrap();
    assert_eq!(cache.entry_count(), 1);
    assert!(cache.get(&create_different_test_request()).is_some());
    assert!(cache.get(&create_test_request()).is_none());
}

#[test]
fn zero_entries_is_refused() {
    let config = CacheConfig { max_entries: 0, ..Default::default() };
    let e = StreamCache::with_config(config).err().unwrap();
    assert_eq!(
        e.display_string(),
        "Invalid configuration: max_entries must be greater than 0"
    );
}

#[test]
fn compression_configuration() {
    let config = CacheConfig {
        enable_compression: true,
        compression_threshold_bytes: 10,
        ..Default::default()
    };
    let mut cache = StreamCache::with_config(config).expect("Failed to create cache");
    let request = create_test_request();
    cache.put(&request, create_test_response());
    let cached = cache.get(&request).expect("cached");
    assert_eq!(asset_path_of(&cached), "Assets/TestAsset.png");
    assert_eq!(cached, create_test_response());
}

#[test]
fn get_by_key_direct_access() {
    let mut cache = StreamCache::new().expect("Failed to create cache");
    let request = create_test_request();
    cache.put(&request, create_test_response());
    let key = DefaultCacheKeyHasher::new().generate_key(&request).unwrap();
    assert!(cache.get_by_key(&key).is_some());
}

#[test]
fn efficiency_recommendations() {
    let cache = StreamCache::new().expect("Failed to create cache");
    let r = cache.generate_optimization_recommendations();
    assert_eq!(r.len(), 3);
    assert_eq!(r[1], "Enable compression for better memory efficiency");
}

#[test]
fn response_json_round_trips() {
    let response = create_test_response();
    let bytes = serialize_response(&response);
    let back = parse_response(&bytes).expect("parses");
    assert_eq!(asset_path_of(&back), "Assets/TestAsset.png");
}

#[test]
fn circular_buffer_keeps_the_last_items() {
    let mut b: CircularBuffer<u32> = CircularBuffer::new(3);
    for i in 0..5u32 {
        b.push(i);
    }
    assert_eq!(b.len(), 3);
    let mut it = b.iter();
    let mut items: Vec<u32> = Vec::new();
    while let Some(x) = it.next() {
        items.push(*x);
    }
    assert_eq!(items, vec![2, 3, 4]);
}

#[test]
fn response_json_round_trips_escapes_and_errors() {
    let odd = "q\"b\\s\nn\rr\tt\u{8}b\u{c}f\u{1}x\u{1f}é✓".to_string();
    let cases = vec![
        StreamResponse { message: None },
        StreamResponse {
            message: Some(StreamResponseMessage::MoveAsset(MoveAssetResponse {
                asset: None,
                error: Some(McpError { code: i32::MIN, message: odd.clone(), details: String::new() }),
            })),
        },
        StreamResponse {
            message: Some(StreamResponseMessage::ImportAsset(ImportAssetResponse {
                asset: Some(UnityAsset { guid: odd.clone(), asset_path: "".to_string(), asset_type: "T".to_string() }),
                error: Some(McpError { code: 0, message: "m".to_string(), details: odd.clone() }),
            })),
        },
        StreamResponse {
            message: Some(StreamResponseMessage::DeleteAsset(DeleteAssetResponse {
                success: true,
                error: Some(McpError { code: i32::MAX, message: String::new(), details: "d".to_string() }),
            })),
        },
        StreamResponse {
            message: Some(StreamResponseMessage::Refresh(RefreshResponse { success: false, error: None })),
        },
    ];
    for response in cases {
        let text = serialize_response(&response);
        let back = parse_response(&text).expect("parses");
        assert_eq!(back, response);
    }
}

#[test]
fn response_json_text_is_exact() {
    let response = StreamResponse {
        message: Some(StreamResponseMessage::DeleteAsset(DeleteAssetResponse {
            success: false,
            error: Some(McpError { code: -12, message: "a\"b".to_string(), details: "\u{1}".to_string() }),
        })),
    };
    assert_eq!(
        serialize_response(&response),
        "{\"error\":{\"code\":-12,\"details\":\"\\u0001\",\"message\":\"a\\\"b\"},\"success\":false,\"type\":\"delete_asset\"}"
    );
}

#[test]
fn response_json_reads_any_layout() {
    let moved = parse_response(
        "{\"type\":\"move_asset\",\"asset\":{\"guid\":\"g1\",\"asset_path\":\"Assets/B.png\",\"type\":\"Texture2D\"},\"error\":null}",
    )
    .expect("reads");
    assert_eq!(
        moved,
        StreamResponse {
            message: Some(StreamResponseMessage::MoveAsset(MoveAssetResponse {
                asset: Some(UnityAsset {
                    guid: "g1".to_string(),
                    asset_path: "Assets/B.png".to_string(),
                    asset_type: "Texture2D".to_string(),
                }),
                error: None,
            })),
        }
    );
    assert_eq!(parse_response("{\"type\": \"empty\"}"), Some(StreamResponse { message: None }));
    let deleted = parse_response("{ \"type\" : \"delete_asset\", \"extra\": [1, 2] }").expect("reads");
    assert_eq!(
        deleted,
        StreamResponse {
            message: Some(StreamResponseMessage::DeleteAsset(DeleteAssetResponse { success: false, error: None })),
        }
    );
}

#[test]
fn response_json_refuses_other_text() {
    assert!(parse_response("{\"type\":\"unknown\"}").is_none());
    assert!(parse_response("{\"type\":3}").is_none());
    assert!(parse_response("[1,2]").is_none());
    assert!(parse_response("{\"error\":null,\"success\":maybe,\"type\":\"refresh\"}").is_none());
    assert!(parse_response("{\"error\":{\"code\":007,\"details\":\"\",\"message\":\"\"},\"success\":true,\"type\":\"refresh\"}").is_none());
    assert!(parse_response("").is_none());
}

#[test]
fn circular_buffer_holds_newest_over_many_pushes() {
    let mut b: CircularBuffer<u32> = CircularBuffer::new(4);
    for i in 0..2u32 {
        b.push(i);
    }
    let mut items: Vec<u32> = Vec::new();
    let mut it = b.iter();
    while let Some(x) = it.next() {
        items.push(*x);
    }
    assert_eq!(items, vec![0, 1]);
    for i in 2..11u32 {
        b.push(i);
    }
    assert_eq!(b.len(), 4);
    let mut items: Vec<u32> = Vec::new();
    let mut it = b.iter();
    while let Some(x) = it.next() {
        items.push(*x);
    }
    assert_eq!(items, vec![7, 8, 9, 10]);
}

#[test]
fn lookup_times_measure_the_lookup_alone() {
    let mut cache = StreamCache::new().expect("Failed to create cache");
    let request = create_test_request();
    let begun = std::time::Instant::now();
    while begun.elapsed() < std::time::Duration::from_millis(30) {}
    assert!(cache.get(&request).is_none());
    cache.put(&request, create_test_response());
    assert!(cache.get(&request).is_some());
    let stats = cache.get_statistics();
    assert!(stats.avg_miss_time_ns < 20_000_000);
    assert!(stats.avg_hit_time_ns < 20_000_000);
}
