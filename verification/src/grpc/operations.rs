//! The four kinds of stream operation: their names, what they log, how
//! their answers are wrapped, and the answer to a failed call.
use vstd::prelude::*;

use crate::grpc::error::StatusCode;
use crate::grpc::service::{error_response, error_type_for, StreamErrorType, UnityMcpServiceImpl};
use crate::proto::{
    DeleteAssetRequest, DeleteAssetResponse, ImportAssetRequest, ImportAssetResponse, MoveAssetRequest,
    MoveAssetResponse, RefreshRequest, RefreshResponse, StreamResponse, StreamResponseMessage,
};
use crate::text::{concat2, concat3};

verus! {

/// One kind of stream operation.
pub trait StreamOperationHandler {
    type Request;
    type Response;

    /// The stream response that carries `response`.
    fn build_stream_response(response: Self::Response) -> StreamResponse;

    /// The operation's name.
    fn get_operation_name() -> &'static str;

    /// The request's fields worth logging, by name.
    fn extract_debug_info(request: &Self::Request) -> Vec<(&'static str, String)>;
}

/// Imports of assets.
pub struct ImportAssetOperation;

/// Moves of assets.
pub struct MoveAssetOperation;

/// Deletes of assets.
pub struct DeleteAssetOperation;

/// Refreshes of the asset database.
pub struct RefreshOperation;

impl StreamOperationHandler for ImportAssetOperation {
    type Request = ImportAssetRequest;
    type Response = ImportAssetResponse;

    fn build_stream_response(response: ImportAssetResponse) -> (r: StreamResponse)
        ensures
            r.message == Some(StreamResponseMessage::ImportAsset(response)),
    {
        StreamResponse { message: Some(StreamResponseMessage::ImportAsset(response)) }
    }

    fn get_operation_name() -> (r: &'static str)
        ensures
            r@ == "import_asset"@,
    {
        "import_asset"
    }

    fn extract_debug_info(request: &ImportAssetRequest) -> (r: Vec<(&'static str, String)>)
        ensures
            r@.len() == 1,
            r@[0].0@ == "asset_path"@ && r@[0].1 == request.asset_path,
    {
        let mut v: Vec<(&'static str, String)> = Vec::new();
        v.push(("asset_path", request.asset_path.clone()));
        v
    }
}

impl StreamOperationHandler for MoveAssetOperation {
    type Request = MoveAssetRequest;
    type Response = MoveAssetResponse;

    fn build_stream_response(response: MoveAssetResponse) -> (r: StreamResponse)
        ensures
            r.message == Some(StreamResponseMessage::MoveAsset(response)),
    {
        StreamResponse { message: Some(StreamResponseMessage::MoveAsset(response)) }
    }

    fn get_operation_name() -> (r: &'static str)
        ensures
            r@ == "move_asset"@,
    {
        "move_asset"
    }

    fn extract_debug_info(request: &MoveAssetRequest) -> (r: Vec<(&'static str, String)>)
        ensures
            r@.len() == 2,
            r@[0].0@ == "src_path"@ && r@[0].1 == request.src_path,
            r@[1].0@ == "dst_path"@ && r@[1].1 == request.dst_path,
    {
        let mut v: Vec<(&'static str, String)> = Vec::new();
        v.push(("src_path", request.src_path.clone()));
        v.push(("dst_path", request.dst_path.clone()));
        v
    }
}

impl StreamOperationHandler for DeleteAssetOperation {
    type Request = DeleteAssetRequest;
    type Response = DeleteAssetResponse;

    fn build_stream_response(response: DeleteAssetResponse) -> (r: StreamResponse)
        ensures
            r.message == Some(StreamResponseMessage::DeleteAsset(response)),
    {
        StreamResponse { message: Some(StreamResponseMessage::DeleteAsset(response)) }
    }

    fn get_operation_name() -> (r: &'static str)
        ensures
            r@ == "delete_asset"@,
    {
        "delete_asset"
    }

    fn extract_debug_info(request: &DeleteAssetRequest) -> (r: Vec<(&'static str, String)>)
        ensures
            r@.len() == 1,
            r@[0].0@ == "asset_path"@ && r@[0].1 == request.asset_path,
    {
        let mut v: Vec<(&'static str, String)> = Vec::new();
        v.push(("asset_path", request.asset_path.clone()));
        v
    }
}

impl StreamOperationHandler for RefreshOperation {
    type Request = RefreshRequest;
    type Response = RefreshResponse;

    fn build_stream_response(response: RefreshResponse) -> (r: StreamResponse)
        ensures
            r.message == Some(StreamResponseMessage::Refresh(response)),
    {
        StreamResponse { message: Some(StreamResponseMessage::Refresh(response)) }
    }

    fn get_operation_name() -> (r: &'static str)
        ensures
            r@ == "refresh"@,
    {
        "refresh"
    }

    fn extract_debug_info(request: &RefreshRequest) -> (r: Vec<(&'static str, String)>)
        ensures
            r@.len() == 0,
    {
        Vec::new()
    }
}

/// The name `Debug` gives a status code.
pub open spec fn code_debug_name(code: StatusCode) -> Seq<char> {
    match code {
        StatusCode::Cancelled => "Cancelled"@,
        StatusCode::Unknown => "Unknown"@,
        StatusCode::InvalidArgument => "InvalidArgument"@,
        StatusCode::DeadlineExceeded => "DeadlineExceeded"@,
        StatusCode::NotFound => "NotFound"@,
        StatusCode::AlreadyExists => "AlreadyExists"@,
        StatusCode::PermissionDenied => "PermissionDenied"@,
        StatusCode::ResourceExhausted => "ResourceExhausted"@,
        StatusCode::FailedPrecondition => "FailedPrecondition"@,
        StatusCode::Aborted => "Aborted"@,
        StatusCode::OutOfRange => "OutOfRange"@,
        StatusCode::Unimplemented => "Unimplemented"@,
        StatusCode::Internal => "Internal"@,
        StatusCode::Unavailable => "Unavailable"@,
        StatusCode::DataLoss => "DataLoss"@,
        StatusCode::Unauthenticated => "Unauthenticated"@,
    }
}

/// The name of `code`, as `code_debug_name`.
pub fn code_name(code: StatusCode) -> (r: &'static str)
    ensures
        r@ == code_debug_name(code),
{
    match code {
        StatusCode::Cancelled => "Cancelled",
        StatusCode::Unknown => "Unknown",
        StatusCode::InvalidArgument => "InvalidArgument",
        StatusCode::DeadlineExceeded => "DeadlineExceeded",
        StatusCode::NotFound => "NotFound",
        StatusCode::AlreadyExists => "AlreadyExists",
        StatusCode::PermissionDenied => "PermissionDenied",
        StatusCode::ResourceExhausted => "ResourceExhausted",
        StatusCode::FailedPrecondition => "FailedPrecondition",
        StatusCode::Aborted => "Aborted",
        StatusCode::OutOfRange => "OutOfRange",
        StatusCode::Unimplemented => "Unimplemented",
        StatusCode::Internal => "Internal",
        StatusCode::Unavailable => "Unavailable",
        StatusCode::DataLoss => "DataLoss",
        StatusCode::Unauthenticated => "Unauthenticated",
    }
}

/// The answer when the service call of `operation` fails with `code` and
/// `status_message`: an error of the kind the code maps to, shaped as the
/// operation's response.
pub fn operation_failed_response(operation: &str, code: StatusCode, status_message: &str) -> (r: StreamResponse)
    ensures
        error_response(
            r,
            error_type_for(code),
            operation@ + " operation failed: "@ + status_message@,
            "gRPC status: "@ + code_debug_name(code) + " | Details: "@ + status_message@,
            Some(operation@),
        ),
{
    let error_type = StreamErrorType::from_status_code(code);
    let message = concat3(operation, " operation failed: ", status_message);
    let head = concat3("gRPC status: ", code_name(code), " | Details: ");
    let details = concat2(head.as_str(), status_message);
    UnityMcpServiceImpl::create_error_response(error_type, message.as_str(), details.as_str(), Some(operation))
}

} // verus!
