use std::time::SystemTime;

use unity_mcp::proto::{
    DeleteAssetRequest, ImportAssetRequest, MoveAssetRequest, RefreshRequest, StreamRequest,
    StreamRequestMessage,
};
use unity_mcp::validation::{
    AssetPathValidator, ClientInfo, DeleteAssetStreamValidator, DeleteAssetValidationError,
    ImportAssetStreamValidator, ImportAssetValidationError, MoveAssetStreamValidator,
    MoveAssetValidationError, RateLimiter, RefreshStreamValidator, SecurityValidationError,
    SecurityValidator, StreamRequestValidator, StreamValidationEngine, StreamValidationError,
    ValidationContext, ValidationPerformanceMonitor, ValidationType,
};

fn create_test_context() -> ValidationContext {
    ValidationContext {
        client_id: "test_client".to_string(),
        connection_id: "test_connection".to_string(),
        message_id: 1,
        timestamp: SystemTime::now(),
        client_info: Some(ClientInfo {
            user_agent: Some("Unity Editor/2023.3.0f1".to_string()),
            ip_address: Some("127.0.0.1".to_string()),
            unity_version: Some("2023.3.0f1".to_string()),
        }),
    }
}

fn import_request(path: &str) -> StreamRequest {
    StreamRequest {
        message: Some(StreamRequestMessage::ImportAsset(ImportAssetRequest {
            asset_path: path.to_string(),
        })),
    }
}

#[test]
fn test_asset_path_validator_valid_paths() {
    let validator = AssetPathValidator::new();
    assert!(validator.validate_asset_path("Assets/Scripts/Test.cs").is_ok());
    assert!(validator.validate_asset_path("Assets/Textures/icon.png").is_ok());
    assert!(validator.validate_asset_path("Assets/Models/character.fbx").is_ok());
    assert!(validator.validate_asset_path("Assets/Audio/background.mp3").is_ok());
    assert!(validator.validate_asset_path("Assets/Scenes/MainScene.unity").is_ok());
}

#[test]
fn test_asset_path_validator_invalid_paths() {
    let validator = AssetPathValidator::new();
    assert!(validator.validate_asset_path("").is_err());
    assert!(validator.validate_asset_path("Scripts/Test.cs").is_err());
    assert!(validator.validate_asset_path("Test.cs").is_err());
    assert!(validator.validate_asset_path("Assets/../Scripts/Test.cs").is_err());
    assert!(validator.validate_asset_path("Assets/Scripts/../../etc/passwd").is_err());
    assert!(validator.validate_asset_path("Assets/..\\Scripts\\Test.cs").is_err());
    assert!(validator.validate_asset_path("Assets/Scripts/<script>.cs").is_err());
    assert!(validator.validate_asset_path("Assets/Scripts/test|file.cs").is_err());
    assert!(validator.validate_asset_path("Assets/Scripts/test?.cs").is_err());
    assert!(validator.validate_asset_path("Assets/Scripts/test*.cs").is_err());
    assert!(validator.validate_asset_path("Assets/Scripts/test\".cs").is_err());
}

#[test]
fn test_asset_path_validator_normalize_path() {
    let validator = AssetPathValidator::new();
    assert_eq!(
        validator.normalize_path("Assets\\Scripts\\Test.cs").unwrap(),
        "Assets/Scripts/Test.cs"
    );
    assert_eq!(
        validator.normalize_path("Assets//Scripts//Test.cs").unwrap(),
        "Assets/Scripts/Test.cs"
    );
    assert_eq!(
        validator.normalize_path("Scripts/Test.cs").unwrap(),
        "Assets/Scripts/Test.cs"
    );
    assert_eq!(
        validator.normalize_path("Assets/Scripts/Test.cs").unwrap(),
        "Assets/Scripts/Test.cs"
    );
}

#[test]
fn normalizing_twice_changes_nothing() {
    let validator = AssetPathValidator::new();
    for p in ["Scripts\\\\A.cs", "Assets//B//c.png", "x", "/Assets/y/"] {
        let once = validator.normalize_path(p).unwrap();
        let twice = validator.normalize_path(&once).unwrap();
        assert_eq!(once, twice);
    }
}

#[test]
fn path_errors_name_the_rule() {
    let validator = AssetPathValidator::new();
    assert_eq!(validator.validate_asset_path("").unwrap_err(), "Path cannot be empty");
    let long = format!("Assets/{}", "a".repeat(300));
    assert!(validator.validate_asset_path(&long).is_err());
}

#[test]
fn test_security_validator_valid_requests() {
    let validator = SecurityValidator::new();
    let valid_import = ImportAssetRequest { asset_path: "Assets/Scripts/Test.cs".to_string() };
    assert!(validator.validate_import_request(&valid_import).is_ok());
    let valid_move = MoveAssetRequest {
        src_path: "Assets/Scripts/Old.cs".to_string(),
        dst_path: "Assets/Scripts/New.cs".to_string(),
    };
    assert!(validator.validate_move_request(&valid_move).is_ok());
    let valid_delete = DeleteAssetRequest { asset_path: "Assets/Scripts/Temp.cs".to_string() };
    assert!(validator.validate_delete_request(&valid_delete).is_ok());
}

#[test]
fn test_security_validator_malicious_requests() {
    let validator = SecurityValidator::new();
    let malicious_import = ImportAssetRequest { asset_path: "Assets/../../../etc/passwd".to_string() };
    assert!(validator.validate_import_request(&malicious_import).is_err());
    let script_injection = ImportAssetRequest {
        asset_path: "Assets/Scripts/javascript:alert('xss')".to_string(),
    };
    assert!(validator.validate_import_request(&script_injection).is_err());
    let invalid_chars = ImportAssetRequest { asset_path: "Assets/Scripts/test<script>.cs".to_string() };
    assert!(validator.validate_import_request(&invalid_chars).is_err());
    let control_chars = ImportAssetRequest { asset_path: "Assets/Scripts/test\x00.cs".to_string() };
    assert!(validator.validate_import_request(&control_chars).is_err());
}

#[test]
fn security_validator_checks_the_destination_of_a_move() {
    let validator = SecurityValidator::new();
    let bad_dst = MoveAssetRequest {
        src_path: "Assets/a.cs".to_string(),
        dst_path: "Assets/VBScript:x".to_string(),
    };
    assert_eq!(
        validator.validate_move_request(&bad_dst).unwrap_err(),
        "Security violation: path matches blocked pattern"
    );
}

#[test]
fn rate_limiter_allows_requests_within_limit() {
    let mut limiter = RateLimiter::new(3, 60_000_000_000);
    assert!(limiter.is_allowed_at("test_client", 1));
    assert!(limiter.is_allowed_at("test_client", 2));
    assert!(limiter.is_allowed_at("test_client", 3));
    assert!(!limiter.is_allowed_at("test_client", 4));
}

#[test]
fn rate_limiter_keeps_clients_apart() {
    let mut limiter = RateLimiter::new(2, 60_000_000_000);
    assert!(limiter.is_allowed_at("client1", 10));
    assert!(limiter.is_allowed_at("client2", 10));
    assert!(limiter.is_allowed_at("client1", 11));
    assert!(limiter.is_allowed_at("client2", 11));
    assert!(!limiter.is_allowed_at("client1", 12));
    assert!(!limiter.is_allowed_at("client2", 12));
}

#[test]
fn rate_limiter_window_resets() {
    let mut limiter = RateLimiter::new(1, 100_000_000);
    assert!(limiter.is_allowed_at("c", 1_000));
    assert!(!limiter.is_allowed_at("c", 50_000_000));
    assert!(limiter.is_allowed_at("c", 150_001_000));
}

#[test]
fn rate_limiter_on_the_clock() {
    let mut limiter = RateLimiter::new(1, 60_000_000_000);
    assert!(limiter.is_allowed("a"));
    assert!(!limiter.is_allowed("a"));
    assert!(limiter.is_allowed("b"));
}

#[test]
fn test_import_asset_validator() {
    let validator = ImportAssetStreamValidator::new();
    let valid_req = ImportAssetRequest { asset_path: "Assets/Scripts/Test.cs".to_string() };
    assert!(validator.validate(&valid_req).is_ok());
    let empty_req = ImportAssetRequest { asset_path: "".to_string() };
    assert!(matches!(
        validator.validate(&empty_req),
        Err(ImportAssetValidationError::EmptyAssetPath)
    ));
    let invalid_req = ImportAssetRequest { asset_path: "Scripts/Test.cs".to_string() };
    assert!(matches!(
        validator.validate(&invalid_req),
        Err(ImportAssetValidationError::InvalidPath(_))
    ));
}

#[test]
fn test_move_asset_validator() {
    let validator = MoveAssetStreamValidator::new();
    let valid_req = MoveAssetRequest {
        src_path: "Assets/Scripts/Old.cs".to_string(),
        dst_path: "Assets/Scripts/New.cs".to_string(),
    };
    assert!(validator.validate(&valid_req).is_ok());
    let empty_src = MoveAssetRequest {
        src_path: "".to_string(),
        dst_path: "Assets/Scripts/New.cs".to_string(),
    };
    assert!(matches!(
        validator.validate(&empty_src),
        Err(MoveAssetValidationError::EmptySourcePath)
    ));
    let empty_dst = MoveAssetRequest {
        src_path: "Assets/Scripts/Old.cs".to_string(),
        dst_path: "".to_string(),
    };
    assert!(matches!(
        validator.validate(&empty_dst),
        Err(MoveAssetValidationError::EmptyDestinationPath)
    ));
    let same_paths = MoveAssetRequest {
        src_path: "Assets/Scripts/Test.cs".to_string(),
        dst_path: "Assets/Scripts/Test.cs".to_string(),
    };
    assert!(matches!(
        validator.validate(&same_paths),
        Err(MoveAssetValidationError::SameSourceAndDestination)
    ));
}

#[test]
fn move_validator_names_the_bad_path() {
    let validator = MoveAssetStreamValidator::new();
    let bad_src = MoveAssetRequest { src_path: "x.cs".to_string(), dst_path: "Assets/y.cs".to_string() };
    assert!(matches!(validator.validate(&bad_src), Err(MoveAssetValidationError::InvalidSourcePath(_))));
    let bad_dst = MoveAssetRequest { src_path: "Assets/x.cs".to_string(), dst_path: "y.cs".to_string() };
    assert!(matches!(validator.validate(&bad_dst), Err(MoveAssetValidationError::InvalidDestinationPath(_))));
}

#[test]
fn test_delete_asset_validator() {
    let validator = DeleteAssetStreamValidator::new();
    let valid_req = DeleteAssetRequest { asset_path: "Assets/Scripts/Test.cs".to_string() };
    assert!(validator.validate(&valid_req).is_ok());
    let empty_req = DeleteAssetRequest { asset_path: "".to_string() };
    assert!(matches!(
        validator.validate(&empty_req),
        Err(DeleteAssetValidationError::EmptyAssetPath)
    ));
}

#[test]
fn test_refresh_validator() {
    let validator = RefreshStreamValidator::new();
    let req = RefreshRequest {};
    assert!(validator.validate(&req).is_ok());
}

#[test]
fn sanitizing_normalizes_the_path() {
    let validator = ImportAssetStreamValidator::new();
    let req = ImportAssetRequest { asset_path: "Scripts\\\\Test.cs  ".to_string() };
    let out = validator.sanitize(req).unwrap();
    assert_eq!(out.asset_path, "Assets/Scripts/Test.cs");
}

#[test]
fn test_validation_performance_monitor() {
    let mut monitor = ValidationPerformanceMonitor::new();
    monitor.record_validation(5_000_000, &Ok(()));
    monitor.record_validation(3_000_000, &Ok(()));
    monitor.record_validation(10_000_000, &Err(StreamValidationError::EmptyMessage));

    let stats = monitor.get_performance_stats();
    assert_eq!(stats.total_validations, 3);
    assert!(stats.average_validation_time > 5_000_000);
    assert!(stats.average_validation_time < 7_000_000);
    assert_eq!(stats.error_counts.len(), 1);
    let empty = stats
        .error_counts
        .iter()
        .find(|(k, _)| k == "EmptyMessage")
        .map(|(_, v)| *v)
        .unwrap_or(0);
    assert_eq!(empty, 1);
}

#[test]
fn monitor_keeps_the_average_exact() {
    let mut monitor = ValidationPerformanceMonitor::new();
    assert_eq!(monitor.get_performance_stats().average_validation_time, 0);
    monitor.record_validation(1, &Ok(()));
    monitor.record_validation(2, &Ok(()));
    assert_eq!(monitor.get_performance_stats().average_validation_time, 1);
}

#[test]
fn test_validation_rules_metadata() {
    let import_validator = ImportAssetStreamValidator::new();
    let rules = import_validator.get_validation_rules();
    assert!(!rules.is_empty());
    assert!(rules.iter().any(|rule| rule.rule_type == ValidationType::Required));
    assert!(rules.iter().any(|rule| rule.rule_type == ValidationType::Format));
}

#[test]
fn engine_accepts_a_valid_request() {
    let mut engine = StreamValidationEngine::new();
    let context = create_test_context();
    assert!(engine
        .validate_stream_request(&import_request("Assets/Scripts/TestScript.cs"), &context)
        .is_ok());
}

#[test]
fn engine_refuses_an_empty_message() {
    let mut engine = StreamValidationEngine::new();
    let context = create_test_context();
    let r = engine.validate_stream_request(&StreamRequest { message: None }, &context);
    assert!(matches!(r, Err(StreamValidationError::EmptyMessage)));
}

#[test]
fn engine_refuses_path_traversal_by_its_security_rules() {
    let mut engine = StreamValidationEngine::new();
    let context = create_test_context();
    let r = engine.validate_stream_request(&import_request("Assets/../../../etc/passwd"), &context);
    assert!(matches!(
        r,
        Err(StreamValidationError::Security(SecurityValidationError::MaliciousPattern { .. }))
    ));
}

#[test]
fn engine_refuses_an_empty_path_through_its_validator() {
    let mut engine = StreamValidationEngine::new();
    let context = create_test_context();
    let r = engine.validate_stream_request(&import_request(""), &context);
    assert!(matches!(
        r,
        Err(StreamValidationError::ImportAsset(ImportAssetValidationError::EmptyAssetPath))
    ));
}

#[test]
fn engine_limits_each_client() {
    let mut engine = StreamValidationEngine::new();
    let context = create_test_context();
    for _ in 0..100 {
        assert!(engine
            .validate_stream_request(&import_request("Assets/a.cs"), &context)
            .is_ok());
    }
    let r = engine.validate_stream_request(&import_request("Assets/a.cs"), &context);
    assert!(matches!(
        r,
        Err(StreamValidationError::Security(SecurityValidationError::RateLimitExceeded { .. }))
    ));
    let mut other = create_test_context();
    other.client_id = "other".to_string();
    other.client_info = None;
    assert!(engine
        .validate_stream_request(&import_request("Assets/a.cs"), &other)
        .is_ok());
}

#[test]
fn engine_sanitizes_paths() {
    let engine = StreamValidationEngine::new();
    let context = create_test_context();
    let out = engine
        .sanitize_stream_request(import_request("Scripts//Test.cs"), &context)
        .unwrap();
    match out.message {
        Some(StreamRequestMessage::ImportAsset(req)) => {
            assert_eq!(req.asset_path, "Assets/Scripts/Test.cs")
        }
        _ => panic!("expected an import request"),
    }
}

#[test]
fn monitor_keeps_the_last_thousand_durations() {
    let mut monitor = ValidationPerformanceMonitor::new();
    for _ in 0..1005u32 {
        monitor.record_validation(7, &Ok(()));
    }
    let stats = monitor.get_performance_stats();
    assert_eq!(stats.total_validations, 1000);
    assert_eq!(stats.average_validation_time, 7);
}
