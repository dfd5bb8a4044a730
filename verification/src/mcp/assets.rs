//! What the asset and build tools send to the bridge and answer.
use vstd::prelude::*;

use crate::features::FeatureSet;
use crate::mcp::bridge::BridgeState;
use crate::text::concat2;

verus! {

/// The default timeout of an asset call, in seconds.
pub const DEFAULT_TIMEOUT_SECS: u64 = 30;

/// The default timeout of a build, in seconds.
pub const DEFAULT_BUILD_TIMEOUT_SECS: u64 = 1800;

/// The timeout given, else `default`.
pub fn timeout_or(timeout_secs: Option<u64>, default: u64) -> (r: u64)
    ensures
        r == (match timeout_secs {
            Some(t) => t,
            None => default,
        }),
{
    match timeout_secs {
        Some(t) => t,
        None => default,
    }
}

/// The flag given, else `default`.
pub fn flag_or(flag: Option<bool>, default: bool) -> (r: bool)
    ensures
        r == (match flag {
            Some(f) => f,
            None => default,
        }),
{
    match flag {
        Some(f) => f,
        None => default,
    }
}

/// A text, or none when it is empty.
pub open spec fn nonempty(s: String) -> Option<String> {
    if s@.len() == 0 { None } else { Some(s) }
}

/// `nonempty`.
pub fn nonempty_text(s: String) -> (r: Option<String>)
    ensures
        r == nonempty(s),
{
    if s.as_str().is_empty() {
        None
    } else {
        Some(s)
    }
}

/// What the bridge answered for one imported path.
#[derive(Debug, Clone)]
pub struct ImportReply {
    pub path: String,
    pub guid: String,
    pub ok: bool,
    pub message: String,
}

/// The result shown for one imported path.
#[derive(Debug, Clone)]
pub struct ImportResult {
    pub path: String,
    pub guid: Option<String>,
    pub ok: bool,
    pub message: Option<String>,
}

/// The output of an import.
#[derive(Debug, Clone)]
pub struct ImportAssetsOutput {
    pub results: Vec<ImportResult>,
}

/// The result shown for a reply: empty GUIDs and messages are left out.
pub open spec fn shown(reply: ImportReply) -> ImportResult {
    ImportResult { path: reply.path, guid: nonempty(reply.guid), ok: reply.ok, message: nonempty(reply.message) }
}

/// The output of an import: one result per reply, in order.
pub fn import_assets_output(replies: Vec<ImportReply>) -> (r: ImportAssetsOutput)
    ensures
        r.results@.len() == replies@.len(),
        forall|i: int| 0 <= i < replies@.len() ==> #[trigger] r.results@[i] == shown(replies@[i]),
        forall|i: int| 0 <= i < replies@.len() ==> (#[trigger] r.results@[i]).ok == replies@[i].ok
            && r.results@[i].path == replies@[i].path,
{
    let mut results: Vec<ImportResult> = Vec::new();
    let mut i: usize = 0;
    while i < replies.len()
        invariant
            i <= replies@.len(),
            results@.len() == i,
            forall|k: int| 0 <= k < i ==> #[trigger] results@[k] == shown(replies@[k]),
        decreases replies.len() - i,
    {
        let reply = &replies[i];
        let item = ImportResult {
            path: reply.path.clone(),
            guid: nonempty_text(reply.guid.clone()),
            ok: reply.ok,
            message: nonempty_text(reply.message.clone()),
        };
        results.push(item);
        i = i + 1;
    }
    ImportAssetsOutput { results }
}

/// The output of a move.
#[derive(Debug, Clone)]
pub struct MoveAssetOutput {
    pub ok: bool,
    pub message: Option<String>,
    pub new_guid: Option<String>,
}

/// The output of a move: empty texts are left out.
pub fn move_asset_output(ok: bool, message: String, new_guid: String) -> (r: MoveAssetOutput)
    ensures
        r.ok == ok,
        r.message == nonempty(message),
        r.new_guid == nonempty(new_guid),
{
    MoveAssetOutput { ok, message: nonempty_text(message), new_guid: nonempty_text(new_guid) }
}

/// The output of a delete.
#[derive(Debug, Clone)]
pub struct DeleteAssetsOutput {
    pub deleted: Vec<String>,
    pub failed: Vec<String>,
}

/// The output of a refresh.
#[derive(Debug, Clone)]
pub struct RefreshAssetsOutput {
    pub ok: bool,
}

/// The output of the bridge status tool.
#[derive(Debug, Clone)]
pub struct BridgeStatusOut {
    pub connected: bool,
    pub attempt: u32,
    pub last_error: Option<String>,
    pub next_retry_ms: Option<u64>,
    /// The features agreed with the bridge, when connected.
    pub negotiated_features: Option<Vec<String>>,
    pub endpoint: String,
}

/// The status output for `state`; the negotiated features are shown only
/// while connected and when the client could be had.
pub fn bridge_status_out(state: BridgeState, negotiated: Option<&FeatureSet>) -> (r: BridgeStatusOut)
    requires
        negotiated matches Some(f) ==> f.wf(),
    ensures
        r.connected == state.connected,
        r.attempt == state.attempt,
        r.last_error == state.last_error,
        r.next_retry_ms == state.next_retry_ms,
        r.endpoint == state.endpoint,
        r.negotiated_features is Some <==> (state.connected && negotiated is Some),
{
    let features = if state.connected {
        match negotiated {
            Some(f) => Some(f.to_strings()),
            None => None,
        }
    } else {
        None
    };
    BridgeStatusOut {
        connected: state.connected,
        attempt: state.attempt,
        last_error: state.last_error,
        next_retry_ms: state.next_retry_ms,
        negotiated_features: features,
        endpoint: state.endpoint,
    }
}

/// The options of a player build.
#[derive(Debug, Clone)]
pub struct BuildVariants {
    pub architecture: String,
    pub abis: Vec<String>,
    pub development: bool,
    pub il2cpp: bool,
    pub strip_symbols: bool,
}

/// A development build: Mono, symbols kept.
pub fn development_variants() -> (r: BuildVariants)
    ensures
        r.architecture@ == Seq::<char>::empty(),
        r.abis@.len() == 0,
        r.development && !r.il2cpp && !r.strip_symbols,
{
    BuildVariants { architecture: String::new(), abis: Vec::new(), development: true, il2cpp: false, strip_symbols: false }
}

/// A release build: IL2CPP, symbols stripped.
pub fn release_variants() -> (r: BuildVariants)
    ensures
        r.architecture@ == Seq::<char>::empty(),
        r.abis@.len() == 0,
        !r.development && r.il2cpp && r.strip_symbols,
{
    BuildVariants { architecture: String::new(), abis: Vec::new(), development: false, il2cpp: true, strip_symbols: true }
}

/// The variants of a build request: development when asked, else release.
pub fn variants_for(development: Option<bool>) -> (r: BuildVariants)
    ensures
        r.architecture@ == Seq::<char>::empty(),
        r.abis@.len() == 0,
        r.development == (development == Some(true)),
        r.il2cpp == !(development == Some(true)),
        r.strip_symbols == !(development == Some(true)),
{
    if flag_or(development, false) {
        development_variants()
    } else {
        release_variants()
    }
}

/// The options of an asset bundle build.
#[derive(Debug, Clone, Copy)]
pub struct BundleOptions {
    pub deterministic: bool,
    pub chunk_based: bool,
    pub force_rebuild: bool,
}

/// The options of a bundle build request: deterministic unless told
/// otherwise, chunk-based and forced only when asked.
pub fn bundle_options(deterministic: Option<bool>, chunk_based: Option<bool>, force_rebuild: Option<bool>) -> (r: BundleOptions)
    ensures
        r.deterministic == (deterministic != Some(false)),
        r.chunk_based == (chunk_based == Some(true)),
        r.force_rebuild == (force_rebuild == Some(true)),
{
    BundleOptions {
        deterministic: flag_or(deterministic, true),
        chunk_based: flag_or(chunk_based, false),
        force_rebuild: flag_or(force_rebuild, false),
    }
}

/// The output of a player build.
#[derive(Debug, Clone)]
pub struct BuildPlayerOutput {
    pub status_code: i32,
    pub message: String,
    pub output_path: String,
    pub build_time_ms: u64,
    pub size_bytes: u64,
    pub warnings: Vec<String>,
}

/// The output of a bundle build.
#[derive(Debug, Clone)]
pub struct BuildAssetBundlesOutput {
    pub status_code: i32,
    pub message: String,
    pub output_directory: String,
    pub build_time_ms: u64,
}

/// The error for a platform name the bridge does not know.
pub fn invalid_platform_message(platform: &str) -> (r: String)
    ensures
        r@ == "invalid platform: "@ + platform@,
{
    concat2("invalid platform: ", platform)
}

/// Each result of an import shows its bridge reply as it came: the same
/// path and the same success flag, whatever the GUID or message; the GUID
/// and message are shown exactly when they are not empty, and then as
/// they came.
pub proof fn law_import_result_faithful(reply: ImportReply)
    ensures
        shown(reply).ok == reply.ok,
        shown(reply).path == reply.path,
        shown(reply).guid is Some <==> reply.guid@.len() > 0,
        shown(reply).guid matches Some(g) ==> g == reply.guid,
        shown(reply).message is Some <==> reply.message@.len() > 0,
        shown(reply).message matches Some(m) ==> m == reply.message,
{
}

} // verus!
