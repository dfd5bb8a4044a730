//! The IPC link to the Unity editor's bridge.

pub mod path;

pub use crate::features::{FeatureFlag, FeatureSet};
pub use path::{parse_endpoint, Endpoint, IpcConfig};
pub mod client;
pub mod pending;

pub use client::IpcError;
