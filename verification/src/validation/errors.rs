//! Errors of stream-request validation, with the texts they display.
use vstd::prelude::*;

use crate::text::{
    append_str, concat2, debug_quote, debug_quoted, decimal, join, usize_to_decimal,
};

verus! {

/// Why an import request was refused.
#[derive(Debug, Clone, PartialEq, Eq)]
pub enum ImportAssetValidationError {
    EmptyAssetPath,
    InvalidPath(String),
    SecurityViolation(String),
    UnsupportedFileType { path: String, allowed_extensions: Vec<String> },
    InvalidPathFormat(String),
}

/// Why a move request was refused.
#[derive(Debug, Clone, PartialEq, Eq)]
pub enum MoveAssetValidationError {
    EmptySourcePath,
    EmptyDestinationPath,
    InvalidSourcePath(String),
    InvalidDestinationPath(String),
    SameSourceAndDestination,
    SecurityViolation(String),
}

/// Why a delete request was refused.
#[derive(Debug, Clone, PartialEq, Eq)]
pub enum DeleteAssetValidationError {
    EmptyAssetPath,
    InvalidPath(String),
    SecurityViolation(String),
}

/// Why a refresh request was refused.
#[derive(Debug, Clone, PartialEq, Eq)]
pub enum RefreshValidationError {
    SecurityViolation(String),
}

/// Why the security rules refused a request.
#[derive(Debug, Clone, PartialEq, Eq)]
pub enum SecurityValidationError {
    RateLimitExceeded { client_id: String },
    MessageTooLarge { size: usize, max_size: usize },
    PathTooLong { path: String, max_length: usize },
    MaliciousPattern { path: String, pattern: String },
}

/// Why a stream request was refused.
#[derive(Debug, Clone, PartialEq, Eq)]
pub enum StreamValidationError {
    EmptyMessage,
    ImportAsset(ImportAssetValidationError),
    MoveAsset(MoveAssetValidationError),
    DeleteAsset(DeleteAssetValidationError),
    Refresh(RefreshValidationError),
    Security(SecurityValidationError),
}

/// Model of an import error: its strings as character sequences.
pub enum ImportErrorModel {
    EmptyAssetPath,
    InvalidPath(Seq<char>),
    SecurityViolation(Seq<char>),
    UnsupportedFileType { path: Seq<char>, allowed_extensions: Seq<Seq<char>> },
    InvalidPathFormat(Seq<char>),
}

/// Model of a move error.
pub enum MoveErrorModel {
    EmptySourcePath,
    EmptyDestinationPath,
    InvalidSourcePath(Seq<char>),
    InvalidDestinationPath(Seq<char>),
    SameSourceAndDestination,
    SecurityViolation(Seq<char>),
}

/// Model of a delete error.
pub enum DeleteErrorModel {
    EmptyAssetPath,
    InvalidPath(Seq<char>),
    SecurityViolation(Seq<char>),
}

/// Model of a refresh error.
pub enum RefreshErrorModel {
    SecurityViolation(Seq<char>),
}

/// Model of a security error.
pub enum SecurityErrorModel {
    RateLimitExceeded { client_id: Seq<char> },
    MessageTooLarge { size: nat, max_size: nat },
    PathTooLong { path: Seq<char>, max_length: nat },
    MaliciousPattern { path: Seq<char>, pattern: Seq<char> },
}

/// Model of a stream validation error.
pub enum StreamErrorModel {
    EmptyMessage,
    ImportAsset(ImportErrorModel),
    MoveAsset(MoveErrorModel),
    DeleteAsset(DeleteErrorModel),
    Refresh(RefreshErrorModel),
    Security(SecurityErrorModel),
}

impl View for ImportAssetValidationError {
    type V = ImportErrorModel;

    open spec fn view(&self) -> ImportErrorModel {
        match self {
            ImportAssetValidationError::EmptyAssetPath => ImportErrorModel::EmptyAssetPath,
            ImportAssetValidationError::InvalidPath(s) => ImportErrorModel::InvalidPath(s@),
            ImportAssetValidationError::SecurityViolation(s) => ImportErrorModel::SecurityViolation(s@),
            ImportAssetValidationError::UnsupportedFileType { path, allowed_extensions } =>
                ImportErrorModel::UnsupportedFileType {
                    path: path@,
                    allowed_extensions: allowed_extensions@.map_values(|t: String| t@),
                },
            ImportAssetValidationError::InvalidPathFormat(s) => ImportErrorModel::InvalidPathFormat(s@),
        }
    }
}

impl View for MoveAssetValidationError {
    type V = MoveErrorModel;

    open spec fn view(&self) -> MoveErrorModel {
        match self {
            MoveAssetValidationError::EmptySourcePath => MoveErrorModel::EmptySourcePath,
            MoveAssetValidationError::EmptyDestinationPath => MoveErrorModel::EmptyDestinationPath,
            MoveAssetValidationError::InvalidSourcePath(s) => MoveErrorModel::InvalidSourcePath(s@),
            MoveAssetValidationError::InvalidDestinationPath(s) => MoveErrorModel::InvalidDestinationPath(s@),
            MoveAssetValidationError::SameSourceAndDestination => MoveErrorModel::SameSourceAndDestination,
            MoveAssetValidationError::SecurityViolation(s) => MoveErrorModel::SecurityViolation(s@),
        }
    }
}

impl View for DeleteAssetValidationError {
    type V = DeleteErrorModel;

    open spec fn view(&self) -> DeleteErrorModel {
        match self {
            DeleteAssetValidationError::EmptyAssetPath => DeleteErrorModel::EmptyAssetPath,
            DeleteAssetValidationError::InvalidPath(s) => DeleteErrorModel::InvalidPath(s@),
            DeleteAssetValidationError::SecurityViolation(s) => DeleteErrorModel::SecurityViolation(s@),
        }
    }
}

impl View for RefreshValidationError {
    type V = RefreshErrorModel;

    open spec fn view(&self) -> RefreshErrorModel {
        match self {
            RefreshValidationError::SecurityViolation(s) => RefreshErrorModel::SecurityViolation(s@),
        }
    }
}

impl View for SecurityValidationError {
    type V = SecurityErrorModel;

    open spec fn view(&self) -> SecurityErrorModel {
        match self {
            SecurityValidationError::RateLimitExceeded { client_id } =>
                SecurityErrorModel::RateLimitExceeded { client_id: client_id@ },
            SecurityValidationError::MessageTooLarge { size, max_size } =>
                SecurityErrorModel::MessageTooLarge { size: *size as nat, max_size: *max_size as nat },
            SecurityValidationError::PathTooLong { path, max_length } =>
                SecurityErrorModel::PathTooLong { path: path@, max_length: *max_length as nat },
            SecurityValidationError::MaliciousPattern { path, pattern } =>
                SecurityErrorModel::MaliciousPattern { path: path@, pattern: pattern@ },
        }
    }
}

impl View for StreamValidationError {
    type V = StreamErrorModel;

    open spec fn view(&self) -> StreamErrorModel {
        match self {
            StreamValidationError::EmptyMessage => StreamErrorModel::EmptyMessage,
            StreamValidationError::ImportAsset(e) => StreamErrorModel::ImportAsset(e@),
            StreamValidationError::MoveAsset(e) => StreamErrorModel::MoveAsset(e@),
            StreamValidationError::DeleteAsset(e) => StreamErrorModel::DeleteAsset(e@),
            StreamValidationError::Refresh(e) => StreamErrorModel::Refresh(e@),
            StreamValidationError::Security(e) => StreamErrorModel::Security(e@),
        }
    }
}

/// A result with its error taken by its view.
pub open spec fn result_view<E: View>(r: Result<(), E>) -> Result<(), E::V> {
    match r {
        Ok(()) => Ok(()),
        Err(e) => Err(e@),
    }
}

/// `name(` + quoted `s` + `)`: how `Debug` shows a one-string variant.
pub open spec fn debug_tuple(name: Seq<char>, s: Seq<char>) -> Seq<char> {
    name + "("@ + debug_quoted(s) + ")"@
}

/// How `Debug` shows a list of strings.
pub open spec fn debug_list(items: Seq<String>) -> Seq<char> {
    "["@ + join(items.map_values(|t: String| debug_quoted(t@)), ", "@) + "]"@
}

impl ImportAssetValidationError {
    /// The text the error displays.
    pub open spec fn text(&self) -> Seq<char> {
        match self {
            ImportAssetValidationError::EmptyAssetPath => "Asset path cannot be empty"@,
            ImportAssetValidationError::InvalidPath(s) => "Invalid asset path: "@ + s@,
            ImportAssetValidationError::SecurityViolation(s) => "Security violation: "@ + s@,
            ImportAssetValidationError::UnsupportedFileType { path, allowed_extensions } =>
                "Unsupported file type for path '"@ + path@ + "'. Allowed extensions: "@
                    + debug_list(allowed_extensions@),
            ImportAssetValidationError::InvalidPathFormat(s) => "Invalid path format: "@ + s@,
        }
    }

    /// The text `Debug` gives.
    pub open spec fn debug_text(&self) -> Seq<char> {
        match self {
            ImportAssetValidationError::EmptyAssetPath => "EmptyAssetPath"@,
            ImportAssetValidationError::InvalidPath(s) => debug_tuple("InvalidPath"@, s@),
            ImportAssetValidationError::SecurityViolation(s) => debug_tuple("SecurityViolation"@, s@),
            ImportAssetValidationError::UnsupportedFileType { path, allowed_extensions } =>
                "UnsupportedFileType { path: "@ + debug_quoted(path@) + ", allowed_extensions: "@
                    + debug_list(allowed_extensions@) + " }"@,
            ImportAssetValidationError::InvalidPathFormat(s) => debug_tuple("InvalidPathFormat"@, s@),
        }
    }

    /// The text the error displays.
    pub fn display_string(&self) -> (r: String)
        ensures
            r@ == self.text(),
    {
        match self {
            ImportAssetValidationError::EmptyAssetPath => String::from_str("Asset path cannot be empty"),
            ImportAssetValidationError::InvalidPath(s) => concat2("Invalid asset path: ", s.as_str()),
            ImportAssetValidationError::SecurityViolation(s) => concat2("Security violation: ", s.as_str()),
            ImportAssetValidationError::UnsupportedFileType { path, allowed_extensions } => {
                let mut r = concat2("Unsupported file type for path '", path.as_str());
                append_str(&mut r, "'. Allowed extensions: ");
                let l = debug_string_list(allowed_extensions);
                append_str(&mut r, l.as_str());
                r
            },
            ImportAssetValidationError::InvalidPathFormat(s) => concat2("Invalid path format: ", s.as_str()),
        }
    }

    /// The text `Debug` gives.
    pub fn debug_string(&self) -> (r: String)
        ensures
            r@ == self.debug_text(),
    {
        match self {
            ImportAssetValidationError::EmptyAssetPath => String::from_str("EmptyAssetPath"),
            ImportAssetValidationError::InvalidPath(s) => debug_tuple_string("InvalidPath", s.as_str()),
            ImportAssetValidationError::SecurityViolation(s) => debug_tuple_string("SecurityViolation", s.as_str()),
            ImportAssetValidationError::UnsupportedFileType { path, allowed_extensions } => {
                let q = debug_quote(path.as_str());
                let mut r = concat2("UnsupportedFileType { path: ", q.as_str());
                append_str(&mut r, ", allowed_extensions: ");
                let l = debug_string_list(allowed_extensions);
                append_str(&mut r, l.as_str());
                append_str(&mut r, " }");
                r
            },
            ImportAssetValidationError::InvalidPathFormat(s) => debug_tuple_string("InvalidPathFormat", s.as_str()),
        }
    }
}

impl MoveAssetValidationError {
    /// The text the error displays.
    pub open spec fn text(&self) -> Seq<char> {
        match self {
            MoveAssetValidationError::EmptySourcePath => "Source path cannot be empty"@,
            MoveAssetValidationError::EmptyDestinationPath => "Destination path cannot be empty"@,
            MoveAssetValidationError::InvalidSourcePath(s) => "Invalid source path: "@ + s@,
            MoveAssetValidationError::InvalidDestinationPath(s) => "Invalid destination path: "@ + s@,
            MoveAssetValidationError::SameSourceAndDestination =>
                "Source and destination paths cannot be the same"@,
            MoveAssetValidationError::SecurityViolation(s) => "Security violation: "@ + s@,
        }
    }

    /// The text `Debug` gives.
    pub open spec fn debug_text(&self) -> Seq<char> {
        match self {
            MoveAssetValidationError::EmptySourcePath => "EmptySourcePath"@,
            MoveAssetValidationError::EmptyDestinationPath => "EmptyDestinationPath"@,
            MoveAssetValidationError::InvalidSourcePath(s) => debug_tuple("InvalidSourcePath"@, s@),
            MoveAssetValidationError::InvalidDestinationPath(s) => debug_tuple("InvalidDestinationPath"@, s@),
            MoveAssetValidationError::SameSourceAndDestination => "SameSourceAndDestination"@,
            MoveAssetValidationError::SecurityViolation(s) => debug_tuple("SecurityViolation"@, s@),
        }
    }

    /// The text the error displays.
    pub fn display_string(&self) -> (r: String)
        ensures
            r@ == self.text(),
    {
        match self {
            MoveAssetValidationError::EmptySourcePath => String::from_str("Source path cannot be empty"),
            MoveAssetValidationError::EmptyDestinationPath => String::from_str("Destination path cannot be empty"),
            MoveAssetValidationError::InvalidSourcePath(s) => concat2("Invalid source path: ", s.as_str()),
            MoveAssetValidationError::InvalidDestinationPath(s) => concat2("Invalid destination path: ", s.as_str()),
            MoveAssetValidationError::SameSourceAndDestination =>
                String::from_str("Source and destination paths cannot be the same"),
            MoveAssetValidationError::SecurityViolation(s) => concat2("Security violation: ", s.as_str()),
        }
    }

    /// The text `Debug` gives.
    pub fn debug_string(&self) -> (r: String)
        ensures
            r@ == self.debug_text(),
    {
        match self {
            MoveAssetValidationError::EmptySourcePath => String::from_str("EmptySourcePath"),
            MoveAssetValidationError::EmptyDestinationPath => String::from_str("EmptyDestinationPath"),
            MoveAssetValidationError::InvalidSourcePath(s) => debug_tuple_string("InvalidSourcePath", s.as_str()),
            MoveAssetValidationError::InvalidDestinationPath(s) =>
                debug_tuple_string("InvalidDestinationPath", s.as_str()),
            MoveAssetValidationError::SameSourceAndDestination => String::from_str("SameSourceAndDestination"),
            MoveAssetValidationError::SecurityViolation(s) => debug_tuple_string("SecurityViolation", s.as_str()),
        }
    }
}

impl DeleteAssetValidationError {
    /// The text the error displays.
    pub open spec fn text(&self) -> Seq<char> {
        match self {
            DeleteAssetValidationError::EmptyAssetPath => "Asset path cannot be empty"@,
            DeleteAssetValidationError::InvalidPath(s) => "Invalid asset path: "@ + s@,
            DeleteAssetValidationError::SecurityViolation(s) => "Security violation: "@ + s@,
        }
    }

    /// The text `Debug` gives.
    pub open spec fn debug_text(&self) -> Seq<char> {
        match self {
            DeleteAssetValidationError::EmptyAssetPath => "EmptyAssetPath"@,
            DeleteAssetValidationError::InvalidPath(s) => debug_tuple("InvalidPath"@, s@),
            DeleteAssetValidationError::SecurityViolation(s) => debug_tuple("SecurityViolation"@, s@),
        }
    }

    /// The text the error displays.
    pub fn display_string(&self) -> (r: String)
        ensures
            r@ == self.text(),
    {
        match self {
            DeleteAssetValidationError::EmptyAssetPath => String::from_str("Asset path cannot be empty"),
            DeleteAssetValidationError::InvalidPath(s) => concat2("Invalid asset path: ", s.as_str()),
            DeleteAssetValidationError::SecurityViolation(s) => concat2("Security violation: ", s.as_str()),
        }
    }

    /// The text `Debug` gives.
    pub fn debug_string(&self) -> (r: String)
        ensures
            r@ == self.debug_text(),
    {
        match self {
            DeleteAssetValidationError::EmptyAssetPath => String::from_str("EmptyAssetPath"),
            DeleteAssetValidationError::InvalidPath(s) => debug_tuple_string("InvalidPath", s.as_str()),
            DeleteAssetValidationError::SecurityViolation(s) => debug_tuple_string("SecurityViolation", s.as_str()),
        }
    }
}

impl RefreshValidationError {
    /// The text the error displays.
    pub open spec fn text(&self) -> Seq<char> {
        match self {
            RefreshValidationError::SecurityViolation(s) => "Security violation: "@ + s@,
        }
    }

    /// The text `Debug` gives.
    pub open spec fn debug_text(&self) -> Seq<char> {
        match self {
            RefreshValidationError::SecurityViolation(s) => debug_tuple("SecurityViolation"@, s@),
        }
    }

    /// The text the error displays.
    pub fn display_string(&self) -> (r: String)
        ensures
            r@ == self.text(),
    {
        match self {
            RefreshValidationError::SecurityViolation(s) => concat2("Security violation: ", s.as_str()),
        }
    }

    /// The text `Debug` gives.
    pub fn debug_string(&self) -> (r: String)
        ensures
            r@ == self.debug_text(),
    {
        match self {
            RefreshValidationError::SecurityViolation(s) => debug_tuple_string("SecurityViolation", s.as_str()),
        }
    }
}

impl SecurityValidationError {
    /// The text the error displays.
    pub open spec fn text(&self) -> Seq<char> {
        match self {
            SecurityValidationError::RateLimitExceeded { client_id } =>
                "Rate limit exceeded for client "@ + client_id@,
            SecurityValidationError::MessageTooLarge { size, max_size } =>
                "Message too large: "@ + decimal(*size as nat) + " bytes (max: "@ + decimal(*max_size as nat)
                    + " bytes)"@,
            SecurityValidationError::PathTooLong { path, max_length } =>
                "Path too long: '"@ + path@ + "' (max length: "@ + decimal(*max_length as nat) + ")"@,
            SecurityValidationError::MaliciousPattern { path, pattern } =>
                "Malicious pattern detected in path '"@ + path@ + "': "@ + pattern@,
        }
    }

    /// The text `Debug` gives.
    pub open spec fn debug_text(&self) -> Seq<char> {
        match self {
            SecurityValidationError::RateLimitExceeded { client_id } =>
                "RateLimitExceeded { client_id: "@ + debug_quoted(client_id@) + " }"@,
            SecurityValidationError::MessageTooLarge { size, max_size } =>
                "MessageTooLarge { size: "@ + decimal(*size as nat) + ", max_size: "@ + decimal(*max_size as nat)
                    + " }"@,
            SecurityValidationError::PathTooLong { path, max_length } =>
                "PathTooLong { path: "@ + debug_quoted(path@) + ", max_length: "@ + decimal(*max_length as nat)
                    + " }"@,
            SecurityValidationError::MaliciousPattern { path, pattern } =>
                "MaliciousPattern { path: "@ + debug_quoted(path@) + ", pattern: "@ + debug_quoted(pattern@)
                    + " }"@,
        }
    }

    /// The text the error displays.
    pub fn display_string(&self) -> (r: String)
        ensures
            r@ == self.text(),
    {
        match self {
            SecurityValidationError::RateLimitExceeded { client_id } =>
                concat2("Rate limit exceeded for client ", client_id.as_str()),
            SecurityValidationError::MessageTooLarge { size, max_size } => {
                let a = usize_to_decimal(*size);
                let b = usize_to_decimal(*max_size);
                let mut r = concat2("Message too large: ", a.as_str());
                append_str(&mut r, " bytes (max: ");
                append_str(&mut r, b.as_str());
                append_str(&mut r, " bytes)");
                r
            },
            SecurityValidationError::PathTooLong { path, max_length } => {
                let b = usize_to_decimal(*max_length);
                let mut r = concat2("Path too long: '", path.as_str());
                append_str(&mut r, "' (max length: ");
                append_str(&mut r, b.as_str());
                append_str(&mut r, ")");
                r
            },
            SecurityValidationError::MaliciousPattern { path, pattern } => {
                let mut r = concat2("Malicious pattern detected in path '", path.as_str());
                append_str(&mut r, "': ");
                append_str(&mut r, pattern.as_str());
                r
            },
        }
    }

    /// The text `Debug` gives.
    pub fn debug_string(&self) -> (r: String)
        ensures
            r@ == self.debug_text(),
    {
        match self {
            SecurityValidationError::RateLimitExceeded { client_id } => {
                let q = debug_quote(client_id.as_str());
                let mut r = concat2("RateLimitExceeded { client_id: ", q.as_str());
                append_str(&mut r, " }");
                r
            },
            SecurityValidationError::MessageTooLarge { size, max_size } => {
                let a = usize_to_decimal(*size);
                let b = usize_to_decimal(*max_size);
                let mut r = concat2("MessageTooLarge { size: ", a.as_str());
                append_str(&mut r, ", max_size: ");
                append_str(&mut r, b.as_str());
                append_str(&mut r, " }");
                r
            },
            SecurityValidationError::PathTooLong { path, max_length } => {
                let q = debug_quote(path.as_str());
                let b = usize_to_decimal(*max_length);
                let mut r = concat2("PathTooLong { path: ", q.as_str());
                append_str(&mut r, ", max_length: ");
                append_str(&mut r, b.as_str());
                append_str(&mut r, " }");
                r
            },
            SecurityValidationError::MaliciousPattern { path, pattern } => {
                let q = debug_quote(path.as_str());
                let p = debug_quote(pattern.as_str());
                let mut r = concat2("MaliciousPattern { path: ", q.as_str());
                append_str(&mut r, ", pattern: ");
                append_str(&mut r, p.as_str());
                append_str(&mut r, " }");
                r
            },
        }
    }
}

impl StreamValidationError {
    /// The text the error displays.
    pub open spec fn text(&self) -> Seq<char> {
        match self {
            StreamValidationError::EmptyMessage => "Empty message in stream request"@,
            StreamValidationError::ImportAsset(e) => "Import asset validation error: "@ + e.text(),
            StreamValidationError::MoveAsset(e) => "Move asset validation error: "@ + e.text(),
            StreamValidationError::DeleteAsset(e) => "Delete asset validation error: "@ + e.text(),
            StreamValidationError::Refresh(e) => "Refresh validation error: "@ + e.text(),
            StreamValidationError::Security(e) => "Security validation error: "@ + e.text(),
        }
    }

    /// The text `Debug` gives; the validation statistics count errors by it.
    pub open spec fn debug_text(&self) -> Seq<char> {
        match self {
            StreamValidationError::EmptyMessage => "EmptyMessage"@,
            StreamValidationError::ImportAsset(e) => "ImportAsset("@ + e.debug_text() + ")"@,
            StreamValidationError::MoveAsset(e) => "MoveAsset("@ + e.debug_text() + ")"@,
            StreamValidationError::DeleteAsset(e) => "DeleteAsset("@ + e.debug_text() + ")"@,
            StreamValidationError::Refresh(e) => "Refresh("@ + e.debug_text() + ")"@,
            StreamValidationError::Security(e) => "Security("@ + e.debug_text() + ")"@,
        }
    }

    /// The text the error displays.
    pub fn display_string(&self) -> (r: String)
        ensures
            r@ == self.text(),
    {
        match self {
            StreamValidationError::EmptyMessage => String::from_str("Empty message in stream request"),
            StreamValidationError::ImportAsset(e) => {
                let t = e.display_string();
                concat2("Import asset validation error: ", t.as_str())
            },
            StreamValidationError::MoveAsset(e) => {
                let t = e.display_string();
                concat2("Move asset validation error: ", t.as_str())
            },
            StreamValidationError::DeleteAsset(e) => {
                let t = e.display_string();
                concat2("Delete asset validation error: ", t.as_str())
            },
            StreamValidationError::Refresh(e) => {
                let t = e.display_string();
                concat2("Refresh validation error: ", t.as_str())
            },
            StreamValidationError::Security(e) => {
                let t = e.display_string();
                concat2("Security validation error: ", t.as_str())
            },
        }
    }

    /// The text `Debug` gives.
    pub fn debug_string(&self) -> (r: String)
        ensures
            r@ == self.debug_text(),
    {
        let (name, inner) = match self {
            StreamValidationError::EmptyMessage => {
                return String::from_str("EmptyMessage");
            },
            StreamValidationError::ImportAsset(e) => ("ImportAsset(", e.debug_string()),
            StreamValidationError::MoveAsset(e) => ("MoveAsset(", e.debug_string()),
            StreamValidationError::DeleteAsset(e) => ("DeleteAsset(", e.debug_string()),
            StreamValidationError::Refresh(e) => ("Refresh(", e.debug_string()),
            StreamValidationError::Security(e) => ("Security(", e.debug_string()),
        };
        let mut r = concat2(name, inner.as_str());
        append_str(&mut r, ")");
        r
    }
}

/// `name(` + quoted `s` + `)`.
fn debug_tuple_string(name: &str, s: &str) -> (r: String)
    ensures
        r@ == debug_tuple(name@, s@),
{
    let q = debug_quote(s);
    let mut r = concat2(name, "(");
    append_str(&mut r, q.as_str());
    append_str(&mut r, ")");
    r
}

/// How `Debug` shows a list of strings.
fn debug_string_list(items: &Vec<String>) -> (r: String)
    ensures
        r@ == debug_list(items@),
{
    let ghost parts = items@.map_values(|t: String| debug_quoted(t@));
    let mut body = String::new();
    let mut i: usize = 0;
    while i < items.len()
        invariant
            i <= items@.len(),
            parts == items@.map_values(|t: String| debug_quoted(t@)),
            body@ == join(parts.take(i as int), ", "@),
        decreases items.len() - i,
    {
        let q = debug_quote(items[i].as_str());
        assert(parts.take(i + 1).drop_last() == parts.take(i as int));
        if i > 0 {
            append_str(&mut body, ", ");
        }
        append_str(&mut body, q.as_str());
        i = i + 1;
    }
    assert(parts.take(items.len() as int) == parts);
    let mut r = concat2("[", body.as_str());
    append_str(&mut r, "]");
    r
}

} // verus!
