//! Validators of each kind of stream request.
use vstd::prelude::*;

use crate::proto::{DeleteAssetRequest, ImportAssetRequest, MoveAssetRequest, RefreshRequest};
use crate::text::{all_white_space, is_blank, str_eq, trim, trim_str};
use crate::validation::context::{make_rule, ValidationRule, ValidationSeverity, ValidationType};
use crate::validation::errors::{
    result_view, DeleteAssetValidationError, DeleteErrorModel, ImportAssetValidationError,
    ImportErrorModel, MoveAssetValidationError, MoveErrorModel, RefreshValidationError,
};
use crate::validation::paths::{asset_path_error, normalized_asset_path, AssetPathValidator};
use crate::validation::security::{
    blocked_path_message, first_blocking, validator_patterns, SecurityValidator,
};

verus! {

/// Validation and sanitising of one kind of request.
pub trait StreamRequestValidator {
    type Request;
    type ValidationError;

    /// Checks `request`.
    fn validate(&self, request: &Self::Request) -> Result<(), Self::ValidationError>;

    /// Puts `request` in normal form.
    fn sanitize(&self, request: Self::Request) -> Result<Self::Request, Self::ValidationError>;

    /// The rules `validate` applies.
    fn get_validation_rules(&self) -> Vec<ValidationRule>;
}

/// Whether a security validator with `patterns` blocks `path`.
pub open spec fn blocked(patterns: Seq<Seq<char>>, path: Seq<char>) -> bool {
    first_blocking(patterns, path) is Some
}

/// What validating an import of `path` gives.
pub open spec fn import_outcome(path: Seq<char>, max: nat, patterns: Seq<Seq<char>>) -> Result<(), ImportErrorModel> {
    if all_white_space(path) {
        Err(ImportErrorModel::EmptyAssetPath)
    } else if asset_path_error(path, max) is Some {
        Err(ImportErrorModel::InvalidPath(asset_path_error(path, max)->0))
    } else if blocked(patterns, path) {
        Err(ImportErrorModel::SecurityViolation(blocked_path_message()))
    } else {
        Ok(())
    }
}

/// What validating a move from `src` to `dst` gives.
pub open spec fn move_outcome(src: Seq<char>, dst: Seq<char>, max: nat, patterns: Seq<Seq<char>>) -> Result<(), MoveErrorModel> {
    if all_white_space(src) {
        Err(MoveErrorModel::EmptySourcePath)
    } else if all_white_space(dst) {
        Err(MoveErrorModel::EmptyDestinationPath)
    } else if src == dst {
        Err(MoveErrorModel::SameSourceAndDestination)
    } else if asset_path_error(src, max) is Some {
        Err(MoveErrorModel::InvalidSourcePath(asset_path_error(src, max)->0))
    } else if asset_path_error(dst, max) is Some {
        Err(MoveErrorModel::InvalidDestinationPath(asset_path_error(dst, max)->0))
    } else if blocked(patterns, src) || blocked(patterns, dst) {
        Err(MoveErrorModel::SecurityViolation(blocked_path_message()))
    } else {
        Ok(())
    }
}

/// What validating a delete of `path` gives.
pub open spec fn delete_outcome(path: Seq<char>, max: nat, patterns: Seq<Seq<char>>) -> Result<(), DeleteErrorModel> {
    if all_white_space(path) {
        Err(DeleteErrorModel::EmptyAssetPath)
    } else if asset_path_error(path, max) is Some {
        Err(DeleteErrorModel::InvalidPath(asset_path_error(path, max)->0))
    } else if blocked(patterns, path) {
        Err(DeleteErrorModel::SecurityViolation(blocked_path_message()))
    } else {
        Ok(())
    }
}

/// Validates import requests.
pub struct ImportAssetStreamValidator {
    path_validator: AssetPathValidator,
    security_validator: SecurityValidator,
}

impl ImportAssetStreamValidator {
    /// Longest path accepted, in bytes.
    pub closed spec fn max_len(&self) -> nat {
        self.path_validator.max_len()
    }

    /// Patterns checked.
    pub closed spec fn patterns(&self) -> Seq<Seq<char>> {
        self.security_validator.patterns()
    }

    /// A validator with the default path rules and patterns.
    pub fn new() -> (r: ImportAssetStreamValidator)
        ensures
            r.max_len() == 260,
            r.patterns() == validator_patterns(),
    {
        ImportAssetStreamValidator { path_validator: AssetPathValidator::new(), security_validator: SecurityValidator::new() }
    }
}

impl StreamRequestValidator for ImportAssetStreamValidator {
    type Request = ImportAssetRequest;
    type ValidationError = ImportAssetValidationError;

    /// Refuses an empty path, then a path that breaks the path rules, then a
    /// path that a security pattern blocks.
    fn validate(&self, request: &ImportAssetRequest) -> (r: Result<(), ImportAssetValidationError>)
        ensures
            result_view(r) == import_outcome(request.asset_path@, self.max_len(), self.patterns()),
    {
        if is_blank(request.asset_path.as_str()) {
            return Err(ImportAssetValidationError::EmptyAssetPath);
        }
        match self.path_validator.validate_asset_path(request.asset_path.as_str()) {
            Err(m) => {
                return Err(ImportAssetValidationError::InvalidPath(m));
            },
            Ok(()) => {},
        }
        match self.security_validator.validate_import_request(request) {
            Err(m) => Err(ImportAssetValidationError::SecurityViolation(m)),
            Ok(()) => Ok(()),
        }
    }

    /// Normalises the path, then trims white space around it.
    fn sanitize(&self, request: ImportAssetRequest) -> (r: Result<ImportAssetRequest, ImportAssetValidationError>)
        ensures
            r matches Ok(q) && q.asset_path@ == trim(normalized_asset_path(request.asset_path@)),
    {
        let normalized = match self.path_validator.normalize_path(request.asset_path.as_str()) {
            Ok(p) => p,
            Err(m) => {
                return Err(ImportAssetValidationError::InvalidPath(m));
            },
        };
        let asset_path = trim_str(normalized.as_str());
        Ok(ImportAssetRequest { asset_path })
    }

    /// The path must be given and in the Unity format.
    fn get_validation_rules(&self) -> (r: Vec<ValidationRule>)
        ensures
            r@.len() == 2,
            r@[0].name@ == "asset_path_required"@,
            r@[0].rule_type == ValidationType::Required,
            r@[1].name@ == "asset_path_format"@,
            r@[1].rule_type == ValidationType::Format,
            r@[0].severity == ValidationSeverity::Error && r@[1].severity == ValidationSeverity::Error,
    {
        let mut r: Vec<ValidationRule> = Vec::new();
        r.push(make_rule("asset_path_required", "Asset path must not be empty", ValidationSeverity::Error, ValidationType::Required));
        r.push(make_rule("asset_path_format", "Asset path must follow Unity format (Assets/...)", ValidationSeverity::Error, ValidationType::Format));
        r
    }
}

impl Default for ImportAssetStreamValidator {
    fn default() -> (r: ImportAssetStreamValidator)
        ensures
            r.max_len() == 260,
            r.patterns() == validator_patterns(),
    {
        ImportAssetStreamValidator::new()
    }
}

/// Validates move requests.
pub struct MoveAssetStreamValidator {
    path_validator: AssetPathValidator,
    security_validator: SecurityValidator,
}

impl MoveAssetStreamValidator {
    /// Longest path accepted, in bytes.
    pub closed spec fn max_len(&self) -> nat {
        self.path_validator.max_len()
    }

    /// Patterns checked.
    pub closed spec fn patterns(&self) -> Seq<Seq<char>> {
        self.security_validator.patterns()
    }

    /// A validator with the default path rules and patterns.
    pub fn new() -> (r: MoveAssetStreamValidator)
        ensures
            r.max_len() == 260,
            r.patterns() == validator_patterns(),
    {
        MoveAssetStreamValidator { path_validator: AssetPathValidator::new(), security_validator: SecurityValidator::new() }
    }
}

impl StreamRequestValidator for MoveAssetStreamValidator {
    type Request = MoveAssetRequest;
    type ValidationError = MoveAssetValidationError;

    /// Refuses empty paths, the same path twice, paths that break the path
    /// rules, then paths that a security pattern blocks.
    fn validate(&self, request: &MoveAssetRequest) -> (r: Result<(), MoveAssetValidationError>)
        ensures
            result_view(r) == move_outcome(request.src_path@, request.dst_path@, self.max_len(), self.patterns()),
    {
        if is_blank(request.src_path.as_str()) {
            return Err(MoveAssetValidationError::EmptySourcePath);
        }
        if is_blank(request.dst_path.as_str()) {
            return Err(MoveAssetValidationError::EmptyDestinationPath);
        }
        if str_eq(request.src_path.as_str(), request.dst_path.as_str()) {
            return Err(MoveAssetValidationError::SameSourceAndDestination);
        }
        match self.path_validator.validate_asset_path(request.src_path.as_str()) {
            Err(m) => {
                return Err(MoveAssetValidationError::InvalidSourcePath(m));
            },
            Ok(()) => {},
        }
        match self.path_validator.validate_asset_path(request.dst_path.as_str()) {
            Err(m) => {
                return Err(MoveAssetValidationError::InvalidDestinationPath(m));
            },
            Ok(()) => {},
        }
        match self.security_validator.validate_move_request(request) {
            Err(m) => Err(MoveAssetValidationError::SecurityViolation(m)),
            Ok(()) => Ok(()),
        }
    }

    /// Normalises both paths.
    fn sanitize(&self, request: MoveAssetRequest) -> (r: Result<MoveAssetRequest, MoveAssetValidationError>)
        ensures
            r matches Ok(q) && q.src_path@ == normalized_asset_path(request.src_path@)
                && q.dst_path@ == normalized_asset_path(request.dst_path@),
    {
        let src_path = match self.path_validator.normalize_path(request.src_path.as_str()) {
            Ok(p) => p,
            Err(m) => {
                return Err(MoveAssetValidationError::InvalidSourcePath(m));
            },
        };
        let dst_path = match self.path_validator.normalize_path(request.dst_path.as_str()) {
            Ok(p) => p,
            Err(m) => {
                return Err(MoveAssetValidationError::InvalidDestinationPath(m));
            },
        };
        Ok(MoveAssetRequest { src_path, dst_path })
    }

    /// Both paths must be given.
    fn get_validation_rules(&self) -> (r: Vec<ValidationRule>)
        ensures
            r@.len() == 2,
            r@[0].name@ == "src_path_required"@,
            r@[1].name@ == "dst_path_required"@,
            r@[0].rule_type == ValidationType::Required && r@[1].rule_type == ValidationType::Required,
            r@[0].severity == ValidationSeverity::Error && r@[1].severity == ValidationSeverity::Error,
    {
        let mut r: Vec<ValidationRule> = Vec::new();
        r.push(make_rule("src_path_required", "Source path must not be empty", ValidationSeverity::Error, ValidationType::Required));
        r.push(make_rule("dst_path_required", "Destination path must not be empty", ValidationSeverity::Error, ValidationType::Required));
        r
    }
}

impl Default for MoveAssetStreamValidator {
    fn default() -> (r: MoveAssetStreamValidator)
        ensures
            r.max_len() == 260,
            r.patterns() == validator_patterns(),
    {
        MoveAssetStreamValidator::new()
    }
}

/// Validates delete requests.
pub struct DeleteAssetStreamValidator {
    path_validator: AssetPathValidator,
    security_validator: SecurityValidator,
}

impl DeleteAssetStreamValidator {
    /// Longest path accepted, in bytes.
    pub closed spec fn max_len(&self) -> nat {
        self.path_validator.max_len()
    }

    /// Patterns checked.
    pub closed spec fn patterns(&self) -> Seq<Seq<char>> {
        self.security_validator.patterns()
    }

    /// A validator with the default path rules and patterns.
    pub fn new() -> (r: DeleteAssetStreamValidator)
        ensures
            r.max_len() == 260,
            r.patterns() == validator_patterns(),
    {
        DeleteAssetStreamValidator { path_validator: AssetPathValidator::new(), security_validator: SecurityValidator::new() }
    }
}

impl StreamRequestValidator for DeleteAssetStreamValidator {
    type Request = DeleteAssetRequest;
    type ValidationError = DeleteAssetValidationError;

    /// Refuses an empty path, then a path that breaks the path rules, then a
    /// path that a security pattern blocks.
    fn validate(&self, request: &DeleteAssetRequest) -> (r: Result<(), DeleteAssetValidationError>)
        ensures
            result_view(r) == delete_outcome(request.asset_path@, self.max_len(), self.patterns()),
    {
        if is_blank(request.asset_path.as_str()) {
            return Err(DeleteAssetValidationError::EmptyAssetPath);
        }
        match self.path_validator.validate_asset_path(request.asset_path.as_str()) {
            Err(m) => {
                return Err(DeleteAssetValidationError::InvalidPath(m));
            },
            Ok(()) => {},
        }
        match self.security_validator.validate_delete_request(request) {
            Err(m) => Err(DeleteAssetValidationError::SecurityViolation(m)),
            Ok(()) => Ok(()),
        }
    }

    /// Normalises the path.
    fn sanitize(&self, request: DeleteAssetRequest) -> (r: Result<DeleteAssetRequest, DeleteAssetValidationError>)
        ensures
            r matches Ok(q) && q.asset_path@ == normalized_asset_path(request.asset_path@),
    {
        let asset_path = match self.path_validator.normalize_path(request.asset_path.as_str()) {
            Ok(p) => p,
            Err(m) => {
                return Err(DeleteAssetValidationError::InvalidPath(m));
            },
        };
        Ok(DeleteAssetRequest { asset_path })
    }

    /// The path must be given.
    fn get_validation_rules(&self) -> (r: Vec<ValidationRule>)
        ensures
            r@.len() == 1,
            r@[0].name@ == "asset_path_required"@,
            r@[0].rule_type == ValidationType::Required,
            r@[0].severity == ValidationSeverity::Error,
    {
        let mut r: Vec<ValidationRule> = Vec::new();
        r.push(make_rule("asset_path_required", "Asset path must not be empty", ValidationSeverity::Error, ValidationType::Required));
        r
    }
}

impl Default for DeleteAssetStreamValidator {
    fn default() -> (r: DeleteAssetStreamValidator)
        ensures
            r.max_len() == 260,
            r.patterns() == validator_patterns(),
    {
        DeleteAssetStreamValidator::new()
    }
}

/// Validates refresh requests, which are always allowed.
pub struct RefreshStreamValidator;

impl RefreshStreamValidator {
    /// The validator.
    pub fn new() -> (r: RefreshStreamValidator) {
        RefreshStreamValidator
    }
}

impl StreamRequestValidator for RefreshStreamValidator {
    type Request = RefreshRequest;
    type ValidationError = RefreshValidationError;

    /// Accepts every refresh request.
    fn validate(&self, request: &RefreshRequest) -> (r: Result<(), RefreshValidationError>)
        ensures
            r is Ok,
    {
        Ok(())
    }

    /// Gives the request back as it is.
    fn sanitize(&self, request: RefreshRequest) -> (r: Result<RefreshRequest, RefreshValidationError>)
        ensures
            r == Ok::<RefreshRequest, RefreshValidationError>(request),
    {
        Ok(request)
    }

    /// Refresh is always allowed.
    fn get_validation_rules(&self) -> (r: Vec<ValidationRule>)
        ensures
            r@.len() == 1,
            r@[0].name@ == "refresh_allowed"@,
            r@[0].rule_type == ValidationType::Business,
            r@[0].severity == ValidationSeverity::Info,
    {
        let mut r: Vec<ValidationRule> = Vec::new();
        r.push(make_rule("refresh_allowed", "Refresh operation is always allowed", ValidationSeverity::Info, ValidationType::Business));
        r
    }
}

impl Default for RefreshStreamValidator {
    fn default() -> (r: RefreshStreamValidator) {
        RefreshStreamValidator::new()
    }
}

} // verus!
