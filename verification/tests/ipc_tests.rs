use unity_mcp::config::{BridgeConfig, BridgeSettingsText, ServerConfig};
use unity_mcp::features::{FeatureFlag, FeatureSet};
use unity_mcp::ipc::client::{
    build_hello, handshake_outcome, next_retry_backoff, next_supervisor_backoff, reply_outcome,
    require_feature, CorrelationIds, HandshakeReply, RejectCode, ReplyShape, RetrySchedule,
    RetryStep,
};
use unity_mcp::ipc::path::{default_endpoint_from, parse_endpoint_on, IpcSettingsText, Platform};
use unity_mcp::ipc::{parse_endpoint, Endpoint, IpcConfig, IpcError};
use unity_mcp::ipc::pending::{route_envelope, Delivery, EnvelopeKind, PendingRequests};

#[test]
fn test_feature_flag_from_string() {
    assert_eq!(FeatureFlag::from_string("assets.basic"), FeatureFlag::AssetsBasic);
    assert_eq!(FeatureFlag::from_string("prefabs.basic"), FeatureFlag::PrefabsBasic);
    assert_eq!(FeatureFlag::from_string("build.min"), FeatureFlag::BuildMin);
    assert_eq!(FeatureFlag::from_string("events.log"), FeatureFlag::EventsLog);
    assert_eq!(FeatureFlag::from_string("ops.progress"), FeatureFlag::OpsProgress);
    match FeatureFlag::from_string("unknown.feature") {
        FeatureFlag::Unknown(s) => assert_eq!(s, "unknown.feature"),
        _ => panic!("Expected Unknown variant"),
    }
}

#[test]
fn test_feature_flag_to_string() {
    assert_eq!(FeatureFlag::AssetsBasic.display_string(), "assets.basic");
    assert_eq!(FeatureFlag::PrefabsBasic.display_string(), "prefabs.basic");
    assert_eq!(FeatureFlag::BuildMin.display_string(), "build.min");
    assert_eq!(FeatureFlag::EventsLog.display_string(), "events.log");
    assert_eq!(FeatureFlag::OpsProgress.display_string(), "ops.progress");
}

#[test]
fn test_feature_string_normalization() {
    let normalized = FeatureFlag::normalize_string(" Assets.Basic ");
    assert_eq!(normalized, "assets.basic");
    let feature = FeatureFlag::from_string(&normalized);
    assert_eq!(feature, FeatureFlag::AssetsBasic);
}

#[test]
fn test_feature_set_from_strings() {
    let client_features = vec![
        "assets.basic".to_string(),
        "prefabs.basic".to_string(),
        "unknown.feature".to_string(),
    ];
    let feature_set = FeatureSet::from_strings(&client_features);
    assert!(!feature_set.to_strings().contains(&"unknown.feature".to_string()));
    assert!(feature_set.contains(&FeatureFlag::AssetsBasic));
    assert!(feature_set.contains(&FeatureFlag::PrefabsBasic));
}

#[test]
fn test_feature_set_intersection() {
    let mut client_features = FeatureSet::new();
    client_features.insert(FeatureFlag::AssetsBasic);
    client_features.insert(FeatureFlag::PrefabsBasic);
    client_features.insert(FeatureFlag::BuildMin);
    client_features.insert(FeatureFlag::EventsLog);

    let mut server_features = FeatureSet::new();
    server_features.insert(FeatureFlag::AssetsBasic);
    server_features.insert(FeatureFlag::PrefabsBasic);
    server_features.insert(FeatureFlag::EventsLog);
    server_features.insert(FeatureFlag::OpsProgress);

    let negotiated = client_features.intersect(&server_features);
    assert!(negotiated.contains(&FeatureFlag::AssetsBasic));
    assert!(negotiated.contains(&FeatureFlag::PrefabsBasic));
    assert!(negotiated.contains(&FeatureFlag::EventsLog));
    assert!(!negotiated.contains(&FeatureFlag::BuildMin));
    assert!(!negotiated.contains(&FeatureFlag::OpsProgress));
}

#[test]
fn intersection_is_symmetric_on_an_example() {
    let a = FeatureSet::from_strings(&["build.min".to_string(), "events.log".to_string()]);
    let b = FeatureSet::from_strings(&["events.log".to_string(), "ops.progress".to_string()]);
    let mut ab = a.intersect(&b).to_strings();
    let mut ba = b.intersect(&a).to_strings();
    ab.sort();
    ba.sort();
    assert_eq!(ab, ba);
    assert_eq!(ab, vec!["events.log".to_string()]);
}

#[test]
fn flag_names_round_trip() {
    for name in [
        "assets.basic", "prefabs.basic", "build.min", "events.log", "ops.progress",
        "assets.advanced", "build.full", "events.full",
    ] {
        assert_eq!(FeatureFlag::from_string(name).display_string(), name);
    }
}

#[test]
fn test_supported_by_client() {
    let client_features = FeatureSet::supported_by_client();
    assert!(client_features.contains(&FeatureFlag::AssetsBasic));
    assert!(client_features.contains(&FeatureFlag::PrefabsBasic));
    assert!(client_features.contains(&FeatureFlag::BuildMin));
    assert!(client_features.contains(&FeatureFlag::EventsLog));
    assert!(client_features.contains(&FeatureFlag::OpsProgress));
    assert!(!client_features.contains(&FeatureFlag::AssetsAdvanced));
}

#[test]
fn test_parse_endpoint() {
    let tcp = parse_endpoint("tcp://127.0.0.1:8080");
    assert_eq!(tcp, Endpoint::Tcp("127.0.0.1:8080".to_string()));
    let bare = parse_endpoint("localhost:3000");
    assert_eq!(bare, Endpoint::Tcp("localhost:3000".to_string()));
    let unix = parse_endpoint("unix:///tmp/test.sock");
    assert_eq!(unix, Endpoint::Unix("/tmp/test.sock".to_string()));
    let pipe = parse_endpoint_on("pipe://test-pipe", Platform::Windows);
    assert_eq!(pipe, Endpoint::Pipe("test-pipe".to_string()));
}

#[test]
fn local_transports_belong_to_their_platform() {
    assert_eq!(
        parse_endpoint_on("pipe://x", Platform::Unix),
        Endpoint::Tcp("pipe://x".to_string())
    );
    assert_eq!(
        parse_endpoint_on("unix:///s", Platform::Windows),
        Endpoint::Tcp("unix:///s".to_string())
    );
}

#[test]
fn test_default_endpoint() {
    match default_endpoint_from(None, Platform::Unix) {
        Endpoint::Tcp(addr) => assert_eq!(addr, "127.0.0.1:7777"),
        other => panic!("Expected TCP endpoint, got {:?}", other),
    }
    assert_eq!(
        default_endpoint_from(Some("tcp://h:1".to_string()), Platform::Unix),
        Endpoint::Tcp("h:1".to_string())
    );
}

fn no_settings() -> IpcSettingsText {
    IpcSettingsText {
        is_ci: false,
        endpoint: None,
        token: None,
        connect_timeout_ms: None,
        handshake_timeout_ms: None,
        total_handshake_timeout_ms: None,
        call_timeout_ms: None,
        max_reconnect_attempts: None,
    }
}

#[test]
fn test_ipc_config_default() {
    let config = IpcConfig::from_settings(&no_settings());
    assert_eq!(config.connect_timeout_ms, 2000);
    assert_eq!(config.total_handshake_timeout_ms, 3000);
    assert_eq!(config.handshake_timeout_ms, 2000);
    assert_eq!(config.call_timeout_ms, 4000);
    assert_eq!(config.max_reconnect_attempts, Some(10));
}

#[test]
fn ipc_config_under_ci_and_with_settings() {
    let mut text = no_settings();
    text.is_ci = true;
    let config = IpcConfig::from_settings(&text);
    assert_eq!(config.connect_timeout_ms, 5000);
    assert_eq!(config.total_handshake_timeout_ms, 8000);
    text.call_timeout_ms = Some("123".to_string());
    text.max_reconnect_attempts = Some("abc".to_string());
    let config = IpcConfig::from_settings(&text);
    assert_eq!(config.call_timeout_ms, 123);
    assert_eq!(config.max_reconnect_attempts, Some(10));
}

#[test]
fn test_next_cid_generates_unique_ids() {
    let mut ids = CorrelationIds::starting_at(100);
    let cid1 = ids.next_cid();
    let cid2 = ids.next_cid();
    let cid3 = ids.next_cid();
    assert_ne!(cid1, cid2);
    assert_ne!(cid2, cid3);
    assert_ne!(cid1, cid3);
}

#[test]
fn test_next_cid_format() {
    let mut ids = CorrelationIds::starting_at(0x123456789abcdef0);
    let cid = ids.next_cid();
    assert_eq!(cid, "123456789abcdef0");
}

#[test]
fn cid_counter_wraps() {
    let mut ids = CorrelationIds::starting_at(u64::MAX);
    assert_eq!(ids.next_cid(), "ffffffffffffffff");
    assert_eq!(ids.next_cid(), "0000000000000000");
}

#[test]
fn test_ipc_error_display() {
    assert_eq!(IpcError::ConnectTimeout.display_string(), "connect timeout");
    assert_eq!(
        IpcError::Handshake("test error".to_string()).display_string(),
        "handshake failed: test error"
    );
    assert_eq!(IpcError::RequestTimeout.display_string(), "request timeout");
    assert_eq!(IpcError::Closed.display_string(), "closed");
}

#[test]
fn only_transient_errors_are_retried() {
    assert!(IpcError::ConnectTimeout.should_retry());
    assert!(IpcError::Io("reset".to_string()).should_retry());
    assert!(IpcError::ServerUnavailable("x".to_string()).should_retry());
    assert!(!IpcError::Authentication("x".to_string()).should_retry());
    assert!(!IpcError::Closed.should_retry());
}

#[test]
fn handshake_rejections_map_to_errors() {
    let r = handshake_outcome(HandshakeReply::Reject {
        code: RejectCode::FailedPrecondition,
        message: "schema hash differs".to_string(),
    });
    assert_eq!(r.unwrap_err(), IpcError::SchemaMismatch("schema hash differs".to_string()));
    let r = handshake_outcome(HandshakeReply::Reject {
        code: RejectCode::FailedPrecondition,
        message: "editor busy".to_string(),
    });
    assert_eq!(r.unwrap_err(), IpcError::FailedPrecondition("editor busy".to_string()));
    let r = handshake_outcome(HandshakeReply::Reject {
        code: RejectCode::Internal,
        message: "boom".to_string(),
    });
    assert_eq!(r.unwrap_err(), IpcError::Handshake("server error: boom".to_string()));
    let r = handshake_outcome(HandshakeReply::Other);
    assert_eq!(r.unwrap_err(), IpcError::Handshake("unexpected control response".to_string()));
    let r = handshake_outcome(HandshakeReply::Welcome {
        accepted_features: vec!["assets.basic".to_string(), "weird".to_string()],
    })
    .unwrap();
    assert!(r.contains(&FeatureFlag::AssetsBasic));
    assert_eq!(r.to_strings(), vec!["assets.basic".to_string()]);
}

#[test]
fn replies_decide_operations() {
    let ok = ReplyShape::Area { status_code: 0, message: String::new(), expected_payload: true };
    assert!(reply_outcome("assets import", &ok).is_ok());
    let bad = ReplyShape::Area { status_code: 3, message: "nope".to_string(), expected_payload: true };
    assert_eq!(
        reply_outcome("assets import", &bad).unwrap_err(),
        IpcError::Handshake("assets import failed: nope".to_string())
    );
    assert_eq!(
        reply_outcome("x", &ReplyShape::Other).unwrap_err(),
        IpcError::Handshake("unexpected response".to_string())
    );
}

#[test]
fn missing_feature_is_refused() {
    let set = FeatureSet::new();
    assert_eq!(
        require_feature(&set, &FeatureFlag::BuildMin).unwrap_err(),
        IpcError::UnsupportedFeature("build.min feature not negotiated".to_string())
    );
    let set = FeatureSet::supported_by_client();
    assert!(require_feature(&set, &FeatureFlag::BuildMin).is_ok());
}

#[test]
fn backoff_doubles_with_jitter_and_caps() {
    assert_eq!(next_supervisor_backoff(200, 0), 400);
    assert_eq!(next_supervisor_backoff(200, 101), 400 + 101 % 100);
    assert_eq!(next_supervisor_backoff(4000, 0), 5000);
    assert_eq!(next_retry_backoff(250, 7), 500 + 7 % 62);
}

#[test]
fn retry_schedule_gives_up_after_the_last_attempt() {
    let mut s = RetrySchedule::new(2);
    assert_eq!(s.on_failure(&IpcError::ConnectTimeout, 0), RetryStep::WaitMs(250));
    assert_eq!(s.on_failure(&IpcError::ConnectTimeout, 0), RetryStep::GiveUp);
    let mut s = RetrySchedule::new(5);
    assert_eq!(s.on_failure(&IpcError::Closed, 0), RetryStep::GiveUp);
}

#[test]
fn hello_carries_the_client_features() {
    let h = build_hello(&None, vec![1, 2, 3], "0.1.0");
    assert_eq!(h.token, "");
    assert_eq!(h.ipc_version, "1.0");
    assert_eq!(h.schema_hash, vec![1, 2, 3]);
    assert_eq!(h.client_name, "unity-mcp-rs");
    assert!(h.features.contains(&"ops.progress".to_string()));
    assert_eq!(h.features.len(), 5);
}

fn bridge_text() -> BridgeSettingsText {
    BridgeSettingsText {
        mcp_host: None,
        unity_host: None,
        mcp_port: None,
        unity_port: None,
        health_timeout_ms: None,
    }
}

#[test]
fn server_config_loads_bridge_config() {
    let server_config = ServerConfig::with_bridge_config(BridgeConfig::from_settings(&bridge_text()));
    assert_eq!(server_config.bridge.host, "127.0.0.1");
    assert_eq!(server_config.bridge.port, 50051);
    assert_eq!(server_config.bridge.health_timeout_ms, 2000);
}

#[test]
fn server_config_health_timeout_returns_duration() {
    let server_config = ServerConfig::with_bridge_config(BridgeConfig::from_settings(&bridge_text()));
    let timeout = server_config.health_timeout();
    assert_eq!(timeout, std::time::Duration::from_millis(2000));
}

#[test]
fn bridge_settings_fall_back_in_order() {
    let mut t = bridge_text();
    t.unity_host = Some("10.0.0.2".to_string());
    t.unity_port = Some("6000".to_string());
    t.mcp_port = Some("notaport".to_string());
    t.health_timeout_ms = Some("750".to_string());
    let c = BridgeConfig::from_settings(&t);
    assert_eq!(c.host, "10.0.0.2");
    assert_eq!(c.port, 50051);
    assert_eq!(c.health_timeout_ms, 750);
}

#[test]
fn responses_reach_their_waiter_once() {
    let mut p = PendingRequests::new();
    p.insert("a".to_string(), 1);
    p.insert("b".to_string(), 2);
    assert_eq!(p.len(), 2);
    assert_eq!(route_envelope(EnvelopeKind::Response, "a", &mut p), Delivery::ToWaiter(1));
    assert_eq!(route_envelope(EnvelopeKind::Response, "a", &mut p), Delivery::NoWaiter);
    assert_eq!(route_envelope(EnvelopeKind::Event, "b", &mut p), Delivery::Broadcast);
    assert_eq!(route_envelope(EnvelopeKind::Other, "b", &mut p), Delivery::Ignore);
    assert_eq!(p.take("b"), Some(2));
    assert_eq!(p.len(), 0);
}

#[test]
fn feature_names_normalise_once_and_for_all() {
    let once = FeatureFlag::normalize_string("\t Ops.PROGRESS  ");
    assert_eq!(once, "ops.progress");
    assert_eq!(FeatureFlag::normalize_string(&once), once);
    assert_eq!(FeatureFlag::normalize_string(" ÄBC "), "äbc");
    assert_eq!(FeatureFlag::normalize_string("   "), "");
}
