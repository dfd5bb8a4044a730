//! Verified core of the Unity MCP server: request validation, feature
//! negotiation, endpoint parsing, caching and the decisions of the bridge.

pub mod text;
pub mod features;
pub mod proto;
pub mod clock;
pub mod validation;
pub mod grpc;
pub mod ipc;
pub mod config;
pub mod cache;
pub mod mcp;
pub mod frame;
pub mod performance;
