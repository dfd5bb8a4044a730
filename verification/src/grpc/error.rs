//! Errors of the gRPC service and the status they are answered with.
use vstd::prelude::*;

use crate::proto::McpError;
use crate::text::{concat2, concat3};

verus! {

/// The status codes of gRPC that an error is answered with.
#[derive(Debug, Clone, Copy, PartialEq, Eq, Structural)]
pub enum StatusCode {
    Cancelled,
    Unknown,
    InvalidArgument,
    DeadlineExceeded,
    NotFound,
    AlreadyExists,
    PermissionDenied,
    ResourceExhausted,
    FailedPrecondition,
    Aborted,
    OutOfRange,
    Unimplemented,
    Internal,
    Unavailable,
    DataLoss,
    Unauthenticated,
}

/// A gRPC status: its code and message.
#[derive(Debug, Clone)]
pub struct GrpcStatus {
    pub code: StatusCode,
    pub message: String,
}

/// The gRPC code an application error code is answered with.
pub open spec fn code_for_mcp(code: i32) -> StatusCode {
    if code == 400 {
        StatusCode::InvalidArgument
    } else if code == 404 {
        StatusCode::NotFound
    } else if code == 403 {
        StatusCode::PermissionDenied
    } else if code == 408 {
        StatusCode::DeadlineExceeded
    } else if code == 409 {
        StatusCode::AlreadyExists
    } else if code == 429 {
        StatusCode::ResourceExhausted
    } else if code == 500 {
        StatusCode::Internal
    } else if code == 501 {
        StatusCode::Unimplemented
    } else if code == 503 {
        StatusCode::Unavailable
    } else {
        StatusCode::Internal
    }
}

/// The status message for an error's message and details: an empty message
/// reads "Unknown error", and details follow after a colon.
pub open spec fn status_message(message: Seq<char>, details: Seq<char>) -> Seq<char> {
    let m = if message.len() == 0 { "Unknown error"@ } else { message };
    if details.len() == 0 {
        m
    } else {
        m + ": "@ + details
    }
}

/// The gRPC code for an application error code.
pub fn status_code_for(code: i32) -> (r: StatusCode)
    ensures
        r == code_for_mcp(code),
{
    if code == 400 {
        StatusCode::InvalidArgument
    } else if code == 404 {
        StatusCode::NotFound
    } else if code == 403 {
        StatusCode::PermissionDenied
    } else if code == 408 {
        StatusCode::DeadlineExceeded
    } else if code == 409 {
        StatusCode::AlreadyExists
    } else if code == 429 {
        StatusCode::ResourceExhausted
    } else if code == 500 {
        StatusCode::Internal
    } else if code == 501 {
        StatusCode::Unimplemented
    } else if code == 503 {
        StatusCode::Unavailable
    } else {
        StatusCode::Internal
    }
}

/// The status an application error is answered with.
pub fn mcp_error_status(mcp_error: &McpError) -> (r: GrpcStatus)
    ensures
        r.code == code_for_mcp(mcp_error.code),
        r.message@ == status_message(mcp_error.message@, mcp_error.details@),
{
    let code = status_code_for(mcp_error.code);
    let message = if mcp_error.message.as_str().is_empty() {
        String::from_str("Unknown error")
    } else {
        mcp_error.message.clone()
    };
    let full = if mcp_error.details.as_str().is_empty() {
        message
    } else {
        concat3(message.as_str(), ": ", mcp_error.details.as_str())
    };
    GrpcStatus { code, message: full }
}

/// `tonic::Status`, carried through as an opaque value.
#[verifier::external_type_specification]
#[verifier::external_body]
pub struct ExTonicStatus(tonic::Status);

/// `anyhow::Error`, carried through as an opaque value.
#[verifier::external_type_specification]
#[verifier::external_body]
pub struct ExAnyhowError(anyhow::Error);

/// The number gRPC gives a status code.
pub open spec fn code_number(code: StatusCode) -> i32 {
    match code {
        StatusCode::Cancelled => 1,
        StatusCode::Unknown => 2,
        StatusCode::InvalidArgument => 3,
        StatusCode::DeadlineExceeded => 4,
        StatusCode::NotFound => 5,
        StatusCode::AlreadyExists => 6,
        StatusCode::PermissionDenied => 7,
        StatusCode::ResourceExhausted => 8,
        StatusCode::FailedPrecondition => 9,
        StatusCode::Aborted => 10,
        StatusCode::OutOfRange => 11,
        StatusCode::Unimplemented => 12,
        StatusCode::Internal => 13,
        StatusCode::Unavailable => 14,
        StatusCode::DataLoss => 15,
        StatusCode::Unauthenticated => 16,
    }
}

/// The number gRPC gives `code`.
pub fn status_code_number(code: StatusCode) -> (r: i32)
    ensures
        r == code_number(code),
        1 <= r <= 16,
{
    match code {
        StatusCode::Cancelled => 1,
        StatusCode::Unknown => 2,
        StatusCode::InvalidArgument => 3,
        StatusCode::DeadlineExceeded => 4,
        StatusCode::NotFound => 5,
        StatusCode::AlreadyExists => 6,
        StatusCode::PermissionDenied => 7,
        StatusCode::ResourceExhausted => 8,
        StatusCode::FailedPrecondition => 9,
        StatusCode::Aborted => 10,
        StatusCode::OutOfRange => 11,
        StatusCode::Unimplemented => 12,
        StatusCode::Internal => 13,
        StatusCode::Unavailable => 14,
        StatusCode::DataLoss => 15,
        StatusCode::Unauthenticated => 16,
    }
}

/// Name for the code number and message a `tonic::Status` carries, as its
/// `code()` and `message()` give them.
pub uninterp spec fn tonic_status_parts(s: tonic::Status) -> (i32, Seq<char>);

/// Calls `tonic::Status::new` with the code that `tonic::Code::from_i32`
/// gives for `code` and with `message`. For a number from 0 to 16,
/// `from_i32` gives the code of that number, and `Status::new` keeps the
/// code and the message as given.
#[verifier::external_body]
fn to_tonic_status(code: i32, message: String) -> (r: tonic::Status)
    requires
        0 <= code <= 16,
    ensures
        tonic_status_parts(r) == (code, message@),
{
    tonic::Status::new(tonic::Code::from_i32(code), message)
}

/// Calls `anyhow::Error`'s `Display`; nothing is stated of the text, which
/// depends on the error's source.
#[verifier::external_body]
fn anyhow_text(error: &anyhow::Error) -> (r: String) {
    error.to_string()
}

/// The `tonic::Status` an application error is answered with; its code and
/// message are those of `mcp_error_status`.
pub fn mcp_error_to_status(mcp_error: &McpError) -> (r: tonic::Status)
    ensures
        tonic_status_parts(r) == (code_number(code_for_mcp(mcp_error.code)), status_message(mcp_error.message@, mcp_error.details@)),
{
    let status = mcp_error_status(mcp_error);
    to_tonic_status(status_code_number(status.code), status.message)
}

/// The status an internal error with text `details` is answered with.
pub fn internal_error_status(details: &str) -> (r: GrpcStatus)
    ensures
        r.code == StatusCode::Internal,
        r.message@ == status_message("Internal server error"@, details@),
{
    let e = McpError { code: 500, message: String::from_str("Internal server error"), details: String::from_str(details) };
    mcp_error_status(&e)
}

/// The `tonic::Status` an internal error is answered with: code 500 with
/// the error's text as details, as `internal_error_status` builds it.
pub fn internal_error_to_status(error: &anyhow::Error) -> (r: tonic::Status)
    ensures
        exists|details: Seq<char>| #[trigger] status_message("Internal server error"@, details) == tonic_status_parts(r).1
            && tonic_status_parts(r).0 == 13,
{
    let details = anyhow_text(error);
    let status = internal_error_status(details.as_str());
    to_tonic_status(status_code_number(status.code), status.message)
}

/// A success: no error.
pub fn no_error() -> (r: Option<McpError>)
    ensures
        r is None,
{
    None
}

/// An error for invalid request parameters (code 400).
pub fn validation_error(message: &str, details: &str) -> (r: McpError)
    ensures
        r.code == 400,
        r.message@ == message@,
        r.details@ == details@,
{
    McpError { code: 400, message: String::from_str(message), details: String::from_str(details) }
}

/// An error for a missing resource (code 404).
pub fn not_found_error(resource_type: &str, resource_id: &str) -> (r: McpError)
    ensures
        r.code == 404,
        r.message@ == resource_type@ + " not found"@,
        r.details@ == "Resource ID: "@ + resource_id@,
{
    McpError {
        code: 404,
        message: concat2(resource_type, " not found"),
        details: concat2("Resource ID: ", resource_id),
    }
}

/// An internal server error (code 500).
pub fn internal_server_error(message: &str) -> (r: McpError)
    ensures
        r.code == 500,
        r.message@ == message@,
        r.details@ == "Internal server error occurred"@,
{
    McpError { code: 500, message: String::from_str(message), details: String::from_str("Internal server error occurred") }
}

} // verus!
