//! Messages of the Unity MCP gRPC service, as plain data.
use vstd::prelude::*;

verus! {

/// Error carried inside a response.
#[derive(Debug, Clone, PartialEq, Eq)]
pub struct McpError {
    pub code: i32,
    pub message: String,
    pub details: String,
}

/// An asset of the Unity project.
#[derive(Debug, Clone, PartialEq, Eq)]
pub struct UnityAsset {
    pub guid: String,
    pub asset_path: String,
    /// The asset's type name (the `type` field on the wire).
    pub asset_type: String,
}

#[derive(Debug, Clone, PartialEq, Eq, Default)]
pub struct ImportAssetRequest {
    pub asset_path: String,
}

#[derive(Debug, Clone, PartialEq, Eq, Default)]
pub struct MoveAssetRequest {
    pub src_path: String,
    pub dst_path: String,
}

#[derive(Debug, Clone, PartialEq, Eq, Default)]
pub struct DeleteAssetRequest {
    pub asset_path: String,
}

#[derive(Debug, Clone, PartialEq, Eq, Default)]
pub struct RefreshRequest {}

#[derive(Debug, Clone, PartialEq, Eq)]
pub struct ImportAssetResponse {
    pub asset: Option<UnityAsset>,
    pub error: Option<McpError>,
}

#[derive(Debug, Clone, PartialEq, Eq)]
pub struct MoveAssetResponse {
    pub asset: Option<UnityAsset>,
    pub error: Option<McpError>,
}

#[derive(Debug, Clone, PartialEq, Eq)]
pub struct DeleteAssetResponse {
    pub success: bool,
    pub error: Option<McpError>,
}

#[derive(Debug, Clone, PartialEq, Eq)]
pub struct RefreshResponse {
    pub success: bool,
    pub error: Option<McpError>,
}

/// The operation carried by a stream request.
#[derive(Debug, Clone, PartialEq, Eq)]
pub enum StreamRequestMessage {
    ImportAsset(ImportAssetRequest),
    MoveAsset(MoveAssetRequest),
    DeleteAsset(DeleteAssetRequest),
    Refresh(RefreshRequest),
}

/// One message of the bidirectional stream, client to server.
#[derive(Debug, Clone, PartialEq, Eq)]
pub struct StreamRequest {
    pub message: Option<StreamRequestMessage>,
}

/// The result carried by a stream response.
#[derive(Debug, Clone, PartialEq, Eq)]
pub enum StreamResponseMessage {
    ImportAsset(ImportAssetResponse),
    MoveAsset(MoveAssetResponse),
    DeleteAsset(DeleteAssetResponse),
    Refresh(RefreshResponse),
}

/// One message of the bidirectional stream, server to client.
#[derive(Debug, Clone, PartialEq, Eq)]
pub struct StreamResponse {
    pub message: Option<StreamResponseMessage>,
}

#[derive(Debug, Clone, PartialEq, Eq)]
pub struct CallToolRequest {
    pub tool_id: String,
    pub input_json: String,
}

#[derive(Debug, Clone, PartialEq, Eq)]
pub struct CallToolResponse {
    pub output_json: String,
    pub error: Option<McpError>,
}

#[derive(Debug, Clone, PartialEq, Eq)]
pub struct ReadResourceRequest {
    pub uri: String,
}

#[derive(Debug, Clone, PartialEq, Eq)]
pub struct ReadResourceResponse {
    pub data: Vec<u8>,
    pub mime_type: String,
    pub error: Option<McpError>,
}

#[derive(Debug, Clone, PartialEq, Eq)]
pub struct GetPromptRequest {
    pub prompt_id: String,
}

#[derive(Debug, Clone, PartialEq, Eq)]
pub struct GetPromptResponse {
    pub prompt_text: String,
    pub error: Option<McpError>,
}

#[derive(Debug, Clone, PartialEq, Eq)]
pub struct ProjectInfo {
    pub project_name: String,
    pub unity_version: String,
}

#[derive(Debug, Clone, PartialEq, Eq)]
pub struct GetProjectInfoResponse {
    pub project: Option<ProjectInfo>,
    pub error: Option<McpError>,
}

/// Response of the listing calls; they list nothing yet.
#[derive(Debug, Clone, PartialEq, Eq)]
pub struct ListResponse {
    pub items: Vec<String>,
    pub error: Option<McpError>,
}

/// A copy of an error.
pub fn copy_error(e: &Option<McpError>) -> (r: Option<McpError>)
    ensures
        r == *e,
{
    match e {
        Some(e) => Some(McpError { code: e.code, message: e.message.clone(), details: e.details.clone() }),
        None => None,
    }
}

/// A copy of an asset.
pub fn copy_asset(a: &Option<UnityAsset>) -> (r: Option<UnityAsset>)
    ensures
        r == *a,
{
    match a {
        Some(a) => Some(UnityAsset { guid: a.guid.clone(), asset_path: a.asset_path.clone(), asset_type: a.asset_type.clone() }),
        None => None,
    }
}

/// A copy of a stream response.
pub fn copy_response(r: &StreamResponse) -> (c: StreamResponse)
    ensures
        c == *r,
{
    let message = match &r.message {
        Some(StreamResponseMessage::ImportAsset(m)) => Some(StreamResponseMessage::ImportAsset(
            ImportAssetResponse { asset: copy_asset(&m.asset), error: copy_error(&m.error) },
        )),
        Some(StreamResponseMessage::MoveAsset(m)) => Some(StreamResponseMessage::MoveAsset(
            MoveAssetResponse { asset: copy_asset(&m.asset), error: copy_error(&m.error) },
        )),
        Some(StreamResponseMessage::DeleteAsset(m)) => Some(StreamResponseMessage::DeleteAsset(
            DeleteAssetResponse { success: m.success, error: copy_error(&m.error) },
        )),
        Some(StreamResponseMessage::Refresh(m)) => Some(StreamResponseMessage::Refresh(
            RefreshResponse { success: m.success, error: copy_error(&m.error) },
        )),
        None => None,
    };
    StreamResponse { message }
}

/// A copy of a stream request.
pub fn copy_request(r: &StreamRequest) -> (c: StreamRequest)
    ensures
        c == *r,
{
    let message = match &r.message {
        Some(StreamRequestMessage::ImportAsset(q)) => Some(StreamRequestMessage::ImportAsset(
            ImportAssetRequest { asset_path: q.asset_path.clone() },
        )),
        Some(StreamRequestMessage::MoveAsset(q)) => Some(StreamRequestMessage::MoveAsset(
            MoveAssetRequest { src_path: q.src_path.clone(), dst_path: q.dst_path.clone() },
        )),
        Some(StreamRequestMessage::DeleteAsset(q)) => Some(StreamRequestMessage::DeleteAsset(
            DeleteAssetRequest { asset_path: q.asset_path.clone() },
        )),
        Some(StreamRequestMessage::Refresh(_)) => Some(StreamRequestMessage::Refresh(RefreshRequest {})),
        None => None,
    };
    StreamRequest { message }
}

} // verus!
