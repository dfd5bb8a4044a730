//! Validation and sanitising of the requests of the asset stream.

pub mod errors;

pub use errors::{
    DeleteAssetValidationError, ImportAssetValidationError, MoveAssetValidationError,
    RefreshValidationError, SecurityValidationError, StreamValidationError,
};
pub mod paths;

pub use paths::AssetPathValidator;
pub mod security;

pub use security::SecurityValidator;
pub mod context;

pub use context::{ClientInfo, ValidationContext, ValidationRule, ValidationSeverity, ValidationType};
pub mod rules;

pub use rules::SecurityValidationRules;
pub use security::RateLimiter;
pub mod validators;

pub use validators::{
    DeleteAssetStreamValidator, ImportAssetStreamValidator, MoveAssetStreamValidator,
    RefreshStreamValidator, StreamRequestValidator,
};
pub mod monitor;

pub use monitor::{ValidationPerformanceMonitor, ValidationPerformanceStats};
pub mod engine;

pub use engine::StreamValidationEngine;
