use unity_mcp::grpc::{
    internal_server_error, not_found_error, validation_error, AuthInterceptor, GrpcServerBuilder,
    GrpcServerConfig, DEFAULT_GRPC_HOST, DEFAULT_GRPC_PORT,
};
use unity_mcp::grpc::error::{mcp_error_status, status_code_for, StatusCode};
use unity_mcp::proto::McpError;
use unity_mcp::grpc::service::{ErrorContext, UnityMcpServiceImpl};
use unity_mcp::proto::{ImportAssetRequest, StreamRequest, StreamRequestMessage, StreamResponseMessage};

#[test]
fn test_auth_interceptor_new_with_token() {
    let interceptor = AuthInterceptor::new(Some("test-token".to_string()));
    assert_eq!(interceptor.header(), Some("Bearer test-token".to_string()));
}

#[test]
fn test_auth_interceptor_new_with_bearer_token() {
    let interceptor = AuthInterceptor::new(Some("Bearer test-token".to_string()));
    assert_eq!(interceptor.header(), Some("Bearer test-token".to_string()));
}

#[test]
fn test_auth_interceptor_new_with_empty_token() {
    let interceptor = AuthInterceptor::new(Some("".to_string()));
    assert_eq!(interceptor.header(), None);
}

#[test]
fn test_auth_interceptor_new_with_none() {
    let interceptor = AuthInterceptor::new(None);
    assert_eq!(interceptor.header(), None);
}

#[test]
fn test_mcp_error_to_status() {
    let mcp_error = McpError {
        code: 404,
        message: "Resource not found".to_string(),
        details: "The requested resource does not exist".to_string(),
    };

    let status = unity_mcp::grpc::mcp_error_to_status(&mcp_error);
    assert_eq!(status.code(), tonic::Code::NotFound);
    assert_eq!(
        status.message(),
        "Resource not found: The requested resource does not exist"
    );
}

#[test]
fn test_validation_error() {
    let error = validation_error("Invalid parameter", "Parameter 'name' is required");
    assert_eq!(error.code, 400);
    assert_eq!(error.message, "Invalid parameter");
    assert_eq!(error.details, "Parameter 'name' is required");
}

#[test]
fn test_not_found_error() {
    let error = not_found_error("Asset", "12345");
    assert_eq!(error.code, 404);
    assert_eq!(error.message, "Asset not found");
    assert_eq!(error.details, "Resource ID: 12345");
}

#[test]
fn test_internal_server_error() {
    let error = internal_server_error("Database connection failed");
    assert_eq!(error.code, 500);
    assert_eq!(error.message, "Database connection failed");
    assert_eq!(error.details, "Internal server error occurred");
}

#[test]
fn test_default_config() {
    let config = GrpcServerConfig::default();
    assert_eq!(config.host, DEFAULT_GRPC_HOST);
    assert_eq!(config.port, DEFAULT_GRPC_PORT);
    assert_eq!(config.max_message_size, 4 * 1024 * 1024);
}

#[test]
fn test_config_builder() {
    let config = GrpcServerConfig::new()
        .with_host("0.0.0.0")
        .with_port(8080)
        .with_max_message_size(8 * 1024 * 1024);

    assert_eq!(config.host, "0.0.0.0");
    assert_eq!(config.port, 8080);
    assert_eq!(config.max_message_size, 8 * 1024 * 1024);
}

#[test]
fn test_server_builder() {
    let builder = GrpcServerBuilder::new()
        .host("localhost")
        .port(9090)
        .max_message_size(1024);

    assert_eq!(builder.config().host, "localhost");
    assert_eq!(builder.config().port, 9090);
    assert_eq!(builder.config().max_message_size, 1024);
}

#[test]
fn status_codes_follow_the_http_like_code() {
    assert_eq!(status_code_for(400), StatusCode::InvalidArgument);
    assert_eq!(status_code_for(401), StatusCode::Internal);
    assert_eq!(status_code_for(408), StatusCode::DeadlineExceeded);
    assert_eq!(status_code_for(403), StatusCode::PermissionDenied);
    assert_eq!(status_code_for(404), StatusCode::NotFound);
    assert_eq!(status_code_for(409), StatusCode::AlreadyExists);
    assert_eq!(status_code_for(429), StatusCode::ResourceExhausted);
    assert_eq!(status_code_for(500), StatusCode::Internal);
    assert_eq!(status_code_for(501), StatusCode::Unimplemented);
    assert_eq!(status_code_for(503), StatusCode::Unavailable);
    assert_eq!(status_code_for(7), StatusCode::Internal);
}

#[test]
fn status_message_joins_message_and_details() {
    let e = McpError { code: 400, message: "Bad".to_string(), details: "field x".to_string() };
    let s = mcp_error_status(&e);
    assert_eq!(s.code, StatusCode::InvalidArgument);
    assert_eq!(s.message, "Bad: field x");
    let e = McpError { code: 500, message: "Oops".to_string(), details: "".to_string() };
    assert_eq!(mcp_error_status(&e).message, "Oops");
    let e = McpError { code: 500, message: "".to_string(), details: "".to_string() };
    assert_eq!(mcp_error_status(&e).message, "Unknown error");
}

#[test]
fn internal_error_status_wraps_the_text() {
    let status = unity_mcp::grpc::internal_error_to_status(&anyhow::Error::msg("disk full"));
    assert_eq!(status.code(), tonic::Code::Internal);
    assert_eq!(status.message(), "Internal server error: disk full");
}

#[test]
fn test_process_stream_request() {
    let mut service = UnityMcpServiceImpl::new().expect("Failed to create service");
    let request = StreamRequest {
        message: Some(StreamRequestMessage::ImportAsset(ImportAssetRequest {
            asset_path: "Assets/Test/texture.png".to_string(),
        })),
    };
    let response = service.process_stream_request(request, 1);
    assert!(response.message.is_some());
    if let Some(StreamResponseMessage::ImportAsset(import_response)) = response.message {
        assert!(import_response.asset.is_some());
        assert!(import_response.error.is_none());
    } else {
        panic!("Expected ImportAsset response");
    }
}

#[test]
fn test_empty_stream_request() {
    let mut service = UnityMcpServiceImpl::new().expect("Failed to create service");
    let empty_request = StreamRequest { message: None };
    let response = service.process_stream_request(empty_request, 2);
    assert!(response.message.is_some());
    if let Some(StreamResponseMessage::ImportAsset(import_response)) = response.message {
        assert!(import_response.asset.is_none());
        assert!(import_response.error.is_some());
        let error = import_response.error.unwrap();
        assert_eq!(error.code, 3);
        assert!(error.message.contains("Generic stream error"));
    } else {
        panic!("Expected ImportAsset error response");
    }
}

#[test]
fn auth_header_rebuilt_from_itself_is_unchanged() {
    for token in ["  tok  ", "bearer xyz", "BEARER q", "Bearer  "] {
        let first = AuthInterceptor::new(Some(token.to_string())).header();
        let second = AuthInterceptor::new(first.clone()).header();
        assert_eq!(first, second);
    }
    assert_eq!(AuthInterceptor::new(Some(" a ".to_string())).header(), Some("Bearer a".to_string()));
}

#[test]
fn error_context_before_the_epoch_reads_as_failure() {
    let ctx = ErrorContext::new(Some("refresh".to_string()));
    assert_eq!(ctx.context_details(None), "Error context serialization failed");
    let text = ctx.context_details(Some((5, 7)));
    assert!(text.contains("\"secs_since_epoch\":5,\"nanos_since_epoch\":7"));
    assert!(text.contains("\"request_type\":\"refresh\""));
}
