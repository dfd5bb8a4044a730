//! The gRPC side: status mapping, authorisation header, server settings.

pub mod error;
pub mod ids;

pub use error::{
    internal_error_to_status, internal_server_error, mcp_error_to_status, no_error,
    not_found_error, validation_error,
};
pub mod channel;
pub mod server;
pub mod service;
pub mod operations;

pub use channel::AuthInterceptor;
pub use server::{GrpcServerBuilder, GrpcServerConfig, DEFAULT_GRPC_HOST, DEFAULT_GRPC_PORT};
