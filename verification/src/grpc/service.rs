//! The Unity MCP gRPC service: checks of its requests, its answers, and the
//! error responses of the asset stream.
use vstd::prelude::*;

use crate::cache::json::{json_string};
use crate::grpc::error::{no_error, not_found_error, validation_error, StatusCode};
use crate::grpc::ids::{is_simple_uuid, new_uuid_hyphenated, new_uuid_simple, since_epoch, system_now};
use crate::proto::{
    CallToolRequest, CallToolResponse, DeleteAssetRequest, DeleteAssetResponse, GetProjectInfoResponse,
    GetPromptRequest, GetPromptResponse, ImportAssetRequest, ImportAssetResponse, ListResponse, McpError,
    MoveAssetRequest, MoveAssetResponse, ProjectInfo, ReadResourceRequest, ReadResourceResponse,
    RefreshRequest, RefreshResponse, StreamRequestMessage, StreamResponse, StreamResponseMessage, UnityAsset,
};
use crate::text::{
    all_white_space, append_str, chars_of, concat2, concat3, contains_char, contains_char_exec, ends_with,
    has_prefix, has_suffix, is_blank, push_all, starts_with, str_eq, string_from_chars, u64_to_decimal, utf8_len,
    utf8_len_exceeds,
};
use crate::validation::paths::{is_path_sep, path_segments};

verus! {

/// Kinds of error of the asset stream.
#[derive(Debug, Clone, Copy, PartialEq, Eq, Structural)]
pub enum StreamErrorType {
    InvalidRequest,
    ProcessingError,
    InternalError,
    ResourceExhausted,
    NotFound,
    ValidationError,
}

/// The gRPC code number of an error kind.
pub open spec fn grpc_code_of(t: StreamErrorType) -> i32 {
    match t {
        StreamErrorType::InvalidRequest => 3,
        StreamErrorType::ProcessingError => 13,
        StreamErrorType::InternalError => 13,
        StreamErrorType::ResourceExhausted => 8,
        StreamErrorType::NotFound => 5,
        StreamErrorType::ValidationError => 3,
    }
}

/// The name of an error kind, as `Debug` writes it.
pub open spec fn error_type_name(t: StreamErrorType) -> Seq<char> {
    match t {
        StreamErrorType::InvalidRequest => "InvalidRequest"@,
        StreamErrorType::ProcessingError => "ProcessingError"@,
        StreamErrorType::InternalError => "InternalError"@,
        StreamErrorType::ResourceExhausted => "ResourceExhausted"@,
        StreamErrorType::NotFound => "NotFound"@,
        StreamErrorType::ValidationError => "ValidationError"@,
    }
}

/// The error kind a gRPC status code stands for.
pub open spec fn error_type_for(code: StatusCode) -> StreamErrorType {
    match code {
        StatusCode::InvalidArgument => StreamErrorType::ValidationError,
        StatusCode::NotFound => StreamErrorType::NotFound,
        StatusCode::ResourceExhausted => StreamErrorType::ResourceExhausted,
        StatusCode::FailedPrecondition => StreamErrorType::ValidationError,
        StatusCode::Internal => StreamErrorType::InternalError,
        StatusCode::Unavailable => StreamErrorType::ProcessingError,
        _ => StreamErrorType::InternalError,
    }
}

impl StreamErrorType {
    /// The error kind for a gRPC status code.
    pub fn from_status_code(code: StatusCode) -> (r: StreamErrorType)
        ensures
            r == error_type_for(code),
    {
        match code {
            StatusCode::InvalidArgument => StreamErrorType::ValidationError,
            StatusCode::NotFound => StreamErrorType::NotFound,
            StatusCode::ResourceExhausted => StreamErrorType::ResourceExhausted,
            StatusCode::FailedPrecondition => StreamErrorType::ValidationError,
            StatusCode::Internal => StreamErrorType::InternalError,
            StatusCode::Unavailable => StreamErrorType::ProcessingError,
            _ => StreamErrorType::InternalError,
        }
    }

    /// The gRPC code number of the kind.
    pub fn to_grpc_code(&self) -> (r: i32)
        ensures
            r == grpc_code_of(*self),
    {
        match self {
            StreamErrorType::InvalidRequest => 3,
            StreamErrorType::ProcessingError => 13,
            StreamErrorType::InternalError => 13,
            StreamErrorType::ResourceExhausted => 8,
            StreamErrorType::NotFound => 5,
            StreamErrorType::ValidationError => 3,
        }
    }

    /// The name of the kind.
    pub fn name(&self) -> (r: &'static str)
        ensures
            r@ == error_type_name(*self),
    {
        match self {
            StreamErrorType::InvalidRequest => "InvalidRequest",
            StreamErrorType::ProcessingError => "ProcessingError",
            StreamErrorType::InternalError => "InternalError",
            StreamErrorType::ResourceExhausted => "ResourceExhausted",
            StreamErrorType::NotFound => "NotFound",
            StreamErrorType::ValidationError => "ValidationError",
        }
    }
}

/// The map a list of (key, value) pairs with distinct keys stands for.
pub open spec fn info_map(pairs: Seq<(String, String)>) -> Map<Seq<char>, Seq<char>>
    decreases pairs.len(),
{
    if pairs.len() == 0 {
        Map::empty()
    } else {
        info_map(pairs.drop_last()).insert(pairs.last().0@, pairs.last().1@)
    }
}

/// The keys of `pairs` are distinct.
pub open spec fn distinct_info_keys(pairs: Seq<(String, String)>) -> bool {
    forall|i: int, j: int| 0 <= i < j < pairs.len() ==> (#[trigger] pairs[i]).0@ != (#[trigger] pairs[j]).0@
}

/// The JSON object of `pairs`, in their order.
pub open spec fn info_json(pairs: Seq<(String, String)>) -> Seq<char>
    decreases pairs.len(),
{
    if pairs.len() == 0 {
        Seq::empty()
    } else {
        info_json(pairs.drop_last()) + (if pairs.len() > 1 { ","@ } else { Seq::empty() })
            + json_string(pairs.last().0@) + ":"@ + json_string(pairs.last().1@)
    }
}

/// What went on around a stream error.
#[derive(Debug, Clone)]
pub struct ErrorContext {
    pub request_id: String,
    pub timestamp: std::time::SystemTime,
    pub request_type: Option<String>,
    /// Further facts, by name; each name once.
    pub additional_info: Vec<(String, String)>,
}

/// The JSON text of a context whose time is `secs` and `nanos` after the
/// epoch.
pub open spec fn context_json(ctx: ErrorContext, secs: u64, nanos: u32) -> Seq<char> {
    "{\"request_id\":"@ + json_string(ctx.request_id@) + ",\"timestamp\":{\"secs_since_epoch\":"@
        + crate::text::decimal(secs as nat) + ",\"nanos_since_epoch\":"@ + crate::text::decimal(nanos as nat)
        + "},\"request_type\":"@ + (match ctx.request_type {
        Some(t) => json_string(t@),
        None => "null"@,
    }) + ",\"additional_info\":{"@ + info_json(ctx.additional_info@) + "}}"@
}

/// What a context reads as when its time reads as `reading` since the
/// epoch: its JSON text, or for a time before the epoch a fixed message.
pub open spec fn details_text(ctx: ErrorContext, reading: Option<(u64, u32)>) -> Seq<char> {
    match reading {
        Some(p) => context_json(ctx, p.0, p.1),
        None => "Error context serialization failed"@,
    }
}

impl ErrorContext {
    /// A context for a request of `request_type`, with a new random id, the
    /// current time and no further facts.
    pub fn new(request_type: Option<String>) -> (r: ErrorContext)
        ensures
            crate::grpc::ids::is_hyphenated_uuid(r.request_id@),
            r.request_type == request_type,
            r.additional_info@.len() == 0,
    {
        ErrorContext {
            request_id: new_uuid_hyphenated(),
            timestamp: system_now(),
            request_type,
            additional_info: Vec::new(),
        }
    }

    /// Records `value` under `key`, replacing what was there.
    pub fn add_info(&mut self, key: String, value: String)
        requires
            distinct_info_keys(old(self).additional_info@),
        ensures
            distinct_info_keys(final(self).additional_info@),
            info_map(final(self).additional_info@) == info_map(old(self).additional_info@).insert(key@, value@),
            final(self).request_id == old(self).request_id,
            final(self).request_type == old(self).request_type,
            final(self).timestamp == old(self).timestamp,
    {
        let mut i: usize = 0;
        while i < self.additional_info.len()
            invariant
                i <= self.additional_info@.len(),
                self.additional_info@ == old(self).additional_info@,
                self.request_id == old(self).request_id,
                self.request_type == old(self).request_type,
                self.timestamp == old(self).timestamp,
                distinct_info_keys(self.additional_info@),
                forall|k: int| 0 <= k < i ==> (#[trigger] self.additional_info@[k]).0@ != key@,
            decreases self.additional_info.len() - i,
        {
            if str_eq(self.additional_info[i].0.as_str(), key.as_str()) {
                let ghost old_pairs = self.additional_info@;
                let name = self.additional_info[i].0.clone();
                self.additional_info.set(i, (name, value));
                proof {
                    lemma_info_update(old_pairs, i as int, self.additional_info@[i as int]);
                }
                return;
            }
            i = i + 1;
        }
        let ghost old_pairs = self.additional_info@;
        self.additional_info.push((key, value));
        assert(self.additional_info@.drop_last() == old_pairs);
        assert forall|a: int, b: int| 0 <= a < b < self.additional_info@.len() implies
            (#[trigger] self.additional_info@[a]).0@ != (#[trigger] self.additional_info@[b]).0@ by {
            if b == old_pairs.len() {
                assert(old_pairs[a] == self.additional_info@[a]);
            } else {
                assert(old_pairs[a] == self.additional_info@[a] && old_pairs[b] == self.additional_info@[b]);
            }
        }
    }

    /// The context as JSON text, or a fixed message when its time is before
    /// the epoch and cannot be written: `context_details` on the reading of
    /// the context's time as seconds and nanoseconds since the epoch.
    pub fn to_details_string(&self) -> (r: String)
        ensures
            exists|reading: Option<(u64, u32)>| #[trigger] details_text(*self, reading) == r@
                && (reading matches Some(p) ==> p.1 < 1_000_000_000),
    {
        let reading = since_epoch(&self.timestamp);
        self.context_details(reading)
    }

    /// The text of `details_text` for the reading `reading` of the
    /// context's time: the JSON text of `context_json` for a time after the
    /// epoch, and "Error context serialization failed" for none.
    pub fn context_details(&self, reading: Option<(u64, u32)>) -> (r: String)
        ensures
            r@ == details_text(*self, reading),
    {
        let (secs, nanos) = match reading {
            Some(p) => p,
            None => {
                return String::from_str("Error context serialization failed");
            },
        };
        let mut out: Vec<char> = Vec::new();
        push_str(&mut out, "{\"request_id\":");
        push_json(&mut out, self.request_id.as_str());
        push_str(&mut out, ",\"timestamp\":{\"secs_since_epoch\":");
        let s = u64_to_decimal(secs);
        push_str(&mut out, s.as_str());
        push_str(&mut out, ",\"nanos_since_epoch\":");
        let n = u64_to_decimal(nanos as u64);
        push_str(&mut out, n.as_str());
        push_str(&mut out, "},\"request_type\":");
        match &self.request_type {
            Some(t) => push_json(&mut out, t.as_str()),
            None => push_str(&mut out, "null"),
        }
        push_str(&mut out, ",\"additional_info\":{");
        let mut i: usize = 0;
        while i < self.additional_info.len()
            invariant
                i <= self.additional_info@.len(),
                out@ == ("{\"request_id\":"@ + json_string(self.request_id@) + ",\"timestamp\":{\"secs_since_epoch\":"@
                    + crate::text::decimal(secs as nat) + ",\"nanos_since_epoch\":"@ + crate::text::decimal(nanos as nat)
                    + "},\"request_type\":"@ + (match self.request_type {
                    Some(t) => json_string(t@),
                    None => "null"@,
                }) + ",\"additional_info\":{"@) + info_json(self.additional_info@.take(i as int)),
            decreases self.additional_info.len() - i,
        {
            assert(self.additional_info@.take(i + 1).drop_last() == self.additional_info@.take(i as int));
            if i > 0 {
                push_str(&mut out, ",");
            }
            push_json(&mut out, self.additional_info[i].0.as_str());
            push_str(&mut out, ":");
            push_json(&mut out, self.additional_info[i].1.as_str());
            i = i + 1;
        }
        assert(self.additional_info@.take(self.additional_info@.len() as int) == self.additional_info@);
        push_str(&mut out, "}}");
        let r = string_from_chars(&out);
        assert(r@ == context_json(*self, secs, nanos));
        r
    }
}

proof fn lemma_info_update(pairs: Seq<(String, String)>, i: int, p: (String, String))
    requires
        distinct_info_keys(pairs),
        0 <= i < pairs.len(),
        p.0@ == pairs[i].0@,
    ensures
        distinct_info_keys(pairs.update(i, p)),
        info_map(pairs.update(i, p)) == info_map(pairs).insert(p.0@, p.1@),
    decreases pairs.len(),
{
    let q = pairs.update(i, p);
    if i == pairs.len() - 1 {
        assert(q.drop_last() == pairs.drop_last());
    } else {
        lemma_info_update(pairs.drop_last(), i, p);
        assert(q.drop_last() == pairs.drop_last().update(i, p));
        assert(pairs.last().0@ != p.0@) by {
            assert(pairs[pairs.len() - 1] == pairs.last());
        }
        assert(info_map(q) =~= info_map(pairs).insert(p.0@, p.1@));
    }
}

fn push_str(out: &mut Vec<char>, s: &str)
    ensures
        final(out)@ == old(out)@ + s@,
{
    let v = chars_of(s);
    push_all(out, &v);
}

fn push_json(out: &mut Vec<char>, s: &str)
    ensures
        final(out)@ == old(out)@ + json_string(s@),
{
    let t = crate::cache::json::quote_json(s);
    push_str(out, t.as_str());
}

/// Whether `path` lies under the `Assets` folder: read as a path with `/`
/// or `\` between parts, it is relative, its first part is `Assets`, and
/// none of its parts is `..`.
pub open spec fn under_assets(path: Seq<char>) -> bool {
    &&& !(path.len() > 0 && is_path_sep(path[0]))
    &&& path_segments(path).len() > 0
    &&& path_segments(path)[0] == "Assets"@
    &&& forall|i: int| 0 <= i < path_segments(path).len() ==> #[trigger] path_segments(path)[i] != ".."@
}

/// The message and details of the first check `path`, named `field`, fails
/// in the service, if any.
pub open spec fn service_path_error(path: Seq<char>, field: Seq<char>) -> Option<(Seq<char>, Seq<char>)> {
    let m = "Invalid "@ + field;
    if all_white_space(path) {
        Some((m, field + " cannot be empty"@))
    } else if !under_assets(path) {
        Some((m, field + " must be under the Assets directory and contain no path traversal"@))
    } else if contains_char(path, ' ') || contains_char(path, '<') || contains_char(path, '>') {
        Some((m, "Path contains invalid characters"@))
    } else if utf8_len(path) > 260 {
        Some((m, "Path exceeds maximum length of 260 characters"@))
    } else {
        None
    }
}

/// Whether `r` is the service's answer to importing `q`.
pub open spec fn import_answer(q: ImportAssetRequest, r: ImportAssetResponse) -> bool {
    match service_path_error(q.asset_path@, "asset_path"@) {
        Some(p) => r.asset is None && error_is(r.error, p.0, p.1),
        None => r.error is None && (r.asset matches Some(a) && is_simple_uuid(a.guid@)
            && a.asset_path@ == q.asset_path@ && a.asset_type@ == DEFAULT_ASSET_TYPE@),
    }
}

/// Whether `r` is the service's answer to moving as `q` asks.
pub open spec fn move_answer(q: MoveAssetRequest, r: MoveAssetResponse) -> bool {
    match move_paths_error(q.src_path@, q.dst_path@) {
        Some(p) => r.asset is None && error_is(r.error, p.0, p.1),
        None => r.error is None && (r.asset matches Some(a) && is_simple_uuid(a.guid@)
            && a.asset_path@ == q.dst_path@ && a.asset_type@ == DEFAULT_ASSET_TYPE@),
    }
}

/// Whether `r` is the service's answer to deleting as `q` asks.
pub open spec fn delete_answer(q: DeleteAssetRequest, r: DeleteAssetResponse) -> bool {
    match service_path_error(q.asset_path@, "asset_path"@) {
        Some(p) => !r.success && error_is(r.error, p.0, p.1),
        None => if deletable(q.asset_path@) {
            r.success && r.error is None
        } else {
            !r.success && (r.error matches Some(e) && is_not_found_error(e, "asset"@, q.asset_path@))
        },
    }
}

/// Whether `r` is the service's answer to the stream message `m`.
pub open spec fn stream_answer(m: StreamRequestMessage, r: StreamResponse) -> bool {
    match m {
        StreamRequestMessage::ImportAsset(q) => r.message matches Some(StreamResponseMessage::ImportAsset(x)) && import_answer(q, x),
        StreamRequestMessage::MoveAsset(q) => r.message matches Some(StreamResponseMessage::MoveAsset(x)) && move_answer(q, x),
        StreamRequestMessage::DeleteAsset(q) => r.message matches Some(StreamResponseMessage::DeleteAsset(x)) && delete_answer(q, x),
        StreamRequestMessage::Refresh(_) => r.message matches Some(StreamResponseMessage::Refresh(x)) && x.success && x.error is None,
    }
}

/// Whether `r` is an error response of kind `t` with `message`, whose
/// details are `details` followed by the error's context, for a request of
/// `request_type`: shaped as that request's response, or as a generic one.
pub open spec fn error_response(r: StreamResponse, t: StreamErrorType, message: Seq<char>, details: Seq<char>, request_type: Option<Seq<char>>) -> bool {
    let prefix = details + " | Context: "@;
    let code = grpc_code_of(t);
    if request_type == Some("import_asset"@) {
        r.message matches Some(StreamResponseMessage::ImportAsset(m)) && m.asset is None
            && (m.error matches Some(e) && e.code == code && e.message@ == message && has_prefix(e.details@, prefix))
    } else if request_type == Some("move_asset"@) {
        r.message matches Some(StreamResponseMessage::MoveAsset(m)) && m.asset is None
            && (m.error matches Some(e) && e.code == code && e.message@ == message && has_prefix(e.details@, prefix))
    } else if request_type == Some("delete_asset"@) {
        r.message matches Some(StreamResponseMessage::DeleteAsset(m)) && !m.success
            && (m.error matches Some(e) && e.code == code && e.message@ == message && has_prefix(e.details@, prefix))
    } else if request_type == Some("refresh"@) {
        r.message matches Some(StreamResponseMessage::Refresh(m)) && !m.success
            && (m.error matches Some(e) && e.code == code && e.message@ == message && has_prefix(e.details@, prefix))
    } else {
        r.message matches Some(StreamResponseMessage::ImportAsset(m)) && m.asset is None
            && (m.error matches Some(e) && e.code == code && e.message@ == "Generic stream error: "@ + message
            && has_prefix(e.details@, "GENERIC_ERROR | "@ + prefix))
    }
}

/// An error of code 400 with `message` and `details`.
pub open spec fn is_validation_error(e: McpError, message: Seq<char>, details: Seq<char>) -> bool {
    e.code == 400 && e.message@ == message && e.details@ == details
}

/// An error of code 404 for a missing `kind` named `id`.
pub open spec fn is_not_found_error(e: McpError, kind: Seq<char>, id: Seq<char>) -> bool {
    e.code == 404 && e.message@ == kind + " not found"@ && e.details@ == "Resource ID: "@ + id
}

/// Whether a move from `src` to `dst` fails the service's checks, and how.
pub open spec fn move_paths_error(src: Seq<char>, dst: Seq<char>) -> Option<(Seq<char>, Seq<char>)> {
    if service_path_error(src, "src_path"@) is Some {
        service_path_error(src, "src_path"@)
    } else if service_path_error(dst, "dst_path"@) is Some {
        service_path_error(dst, "dst_path"@)
    } else if src == dst {
        Some(("Invalid move operation"@, "src_path and dst_path must be different"@))
    } else {
        None
    }
}

/// The asset types the service can delete.
pub open spec fn deletable(path: Seq<char>) -> bool {
    has_suffix(path, ".cs"@) || has_suffix(path, ".prefab"@) || has_suffix(path, ".png"@) || has_suffix(path, ".fbx"@)
}

/// The error an optional error is, when it is one.
pub open spec fn error_is(e: Option<McpError>, message: Seq<char>, details: Seq<char>) -> bool {
    e matches Some(x) && is_validation_error(x, message, details)
}

fn under_assets_exec(path: &str) -> (r: bool)
    ensures
        r == under_assets(path@),
{
    let v = chars_of(path);
    if v.len() > 0 && (v[0] == '/' || v[0] == '\\') {
        return false;
    }
    let segs = crate::validation::paths::segments_of(&v);
    if segs.len() == 0 {
        return false;
    }
    if !str_eq(segs[0].as_str(), "Assets") {
        return false;
    }
    let mut i: usize = 0;
    while i < segs.len()
        invariant
            i <= segs@.len(),
            v@ == path@,
            segs@.len() == path_segments(v@).len(),
            forall|k: int| 0 <= k < segs@.len() ==> (#[trigger] segs@[k])@ == path_segments(v@)[k],
            forall|k: int| 0 <= k < i ==> #[trigger] path_segments(v@)[k] != ".."@,
        decreases segs.len() - i,
    {
        if str_eq(segs[i].as_str(), "..") {
            assert(path_segments(v@)[i as int] == ".."@);
            return false;
        }
        i = i + 1;
    }
    true
}

/// Whether `r` is the answer to a stream request refused with `e`, in
/// message `message_id`.
pub open spec fn validation_error_answer(r: StreamResponse, e: crate::validation::errors::StreamValidationError, message_id: u64) -> bool {
    error_response(r, StreamErrorType::ValidationError, "Request validation failed: "@ + e.text(),
        "Message: "@ + crate::text::decimal(message_id as nat) + " | Validation error details: "@ + e.debug_text(), None)
}

/// The verdict of `engine` on `req` from the stream's client when the rate
/// limiter reads the clock as `now`: the security rules first, then the
/// validator of the request's kind.
pub open spec fn stream_verdict(engine: crate::validation::engine::StreamValidationEngine, req: crate::proto::StreamRequest, now: u64) -> Result<(), crate::validation::errors::StreamErrorModel> {
    crate::validation::engine::verdict_at(engine, "unity_client"@, req.message, now)
}

/// Whether `r` is what validation makes of `req` in message `message_id`:
/// for some reading of the clock, a refused request is answered with the
/// validation error, and an accepted one by the service call of its kind on
/// the sanitised request.
pub open spec fn validated_answer(engine: crate::validation::engine::StreamValidationEngine, req: crate::proto::StreamRequest, message_id: u64, r: StreamResponse) -> bool {
    exists|now: u64| #![trigger stream_verdict(engine, req, now)] match stream_verdict(engine, req, now) {
        Err(em) => exists|e: crate::validation::errors::StreamValidationError| e@ == em && validation_error_answer(r, e, message_id),
        Ok(()) => exists|q: crate::proto::StreamRequest| crate::validation::engine::sanitized(req, q)
            && (q.message matches Some(m) && stream_answer(m, r)),
    }
}

/// The Unity MCP service.
pub struct UnityMcpServiceImpl {
    validation_engine: crate::validation::engine::StreamValidationEngine,
    cache: crate::cache::stream::StreamCache,
}

/// Name of the project the service reports.
pub const STUB_PROJECT_NAME: &'static str = "Unity MCP Test Project";

/// Unity version the service reports.
pub const STUB_UNITY_VERSION: &'static str = "2023.3.0f1";

/// Type given to assets the service creates.
pub const DEFAULT_ASSET_TYPE: &'static str = "Unknown";

/// Longest asset path the service accepts, in bytes.
pub const MAX_PATH_LENGTH: usize = 260;

/// Responses the stream holds before it pushes back.
pub const STREAM_CHANNEL_CAPACITY: usize = 1000;

impl UnityMcpServiceImpl {
    /// The cached entries.
    pub closed spec fn cached(&self) -> Seq<(crate::cache::store::SlotKey, crate::cache::store::CacheEntry)> {
        self.cache.entries()
    }

    /// The key the cache files `req` under.
    pub closed spec fn cache_key(&self, req: crate::proto::StreamRequest) -> Option<crate::cache::keys::CacheKeyModel> {
        self.cache.key_of(req)
    }

    /// The validation engine.
    pub closed spec fn engine(&self) -> crate::validation::engine::StreamValidationEngine {
        self.validation_engine
    }

    /// The validation engine and cache are well formed, and the cache
    /// compresses at a level gzip takes, with a memory limit whose bytes
    /// fit in a `usize`.
    pub closed spec fn wf(&self) -> bool {
        &&& self.validation_engine.wf()
        &&& self.cache.wf()
        &&& self.cache.settings().compression_level <= 10
        &&& self.cache.settings().max_memory_mb <= usize::MAX / 1048576
    }

    /// A service with a new validation engine and a cache of the default
    /// settings.
    pub fn new() -> (r: Result<UnityMcpServiceImpl, crate::cache::config::CacheError>)
        ensures
            r matches Ok(s) && s.wf(),
    {
        let cache = match crate::cache::stream::StreamCache::new() {
            Ok(c) => c,
            Err(e) => {
                return Err(e);
            },
        };
        Ok(UnityMcpServiceImpl { validation_engine: crate::validation::engine::StreamValidationEngine::new(), cache })
    }

    /// Checks an asset path named `field`: not blank, under `Assets`
    /// without `..`, without spaces or angle brackets, at most 260 bytes.
    pub fn validate_asset_path(&self, path: &str, field_name: &str) -> (r: Result<(), McpError>)
        ensures
            match r {
                Ok(()) => service_path_error(path@, field_name@) is None,
                Err(e) => service_path_error(path@, field_name@) matches Some(p) && is_validation_error(e, p.0, p.1),
            },
    {
        let m = concat2("Invalid ", field_name);
        if is_blank(path) {
            let d = concat2(field_name, " cannot be empty");
            return Err(validation_error(m.as_str(), d.as_str()));
        }
        if !under_assets_exec(path) {
            let d = concat2(field_name, " must be under the Assets directory and contain no path traversal");
            return Err(validation_error(m.as_str(), d.as_str()));
        }
        let v = chars_of(path);
        if contains_char_exec(&v, ' ') || contains_char_exec(&v, '<') || contains_char_exec(&v, '>') {
            return Err(validation_error(m.as_str(), "Path contains invalid characters"));
        }
        if utf8_len_exceeds(&v, MAX_PATH_LENGTH) {
            return Err(validation_error(m.as_str(), "Path exceeds maximum length of 260 characters"));
        }
        Ok(())
    }

    /// Checks the source, then the destination, of a move, then that they
    /// differ.
    pub fn validate_move_paths(&self, src_path: &str, dst_path: &str) -> (r: Result<(), McpError>)
        ensures
            match r {
                Ok(()) => move_paths_error(src_path@, dst_path@) is None,
                Err(e) => move_paths_error(src_path@, dst_path@) matches Some(p) && is_validation_error(e, p.0, p.1),
            },
    {
        self.validate_asset_path(src_path, "src_path")?;
        self.validate_asset_path(dst_path, "dst_path")?;
        if str_eq(src_path, dst_path) {
            return Err(validation_error("Invalid move operation", "src_path and dst_path must be different"));
        }
        Ok(())
    }

    /// The answer when the stream is full: an import error of code 8.
    pub fn create_backpressure_error() -> (r: StreamResponse)
        ensures
            r.message matches Some(StreamResponseMessage::ImportAsset(m)) && m.asset is None
                && (m.error matches Some(e) && e.code == 8
                && e.message@ == "Stream processing capacity exceeded"@
                && e.details@ == "Please reduce message rate"@),
    {
        StreamResponse {
            message: Some(StreamResponseMessage::ImportAsset(ImportAssetResponse {
                asset: None,
                error: Some(McpError {
                    code: 8,
                    message: String::from_str("Stream processing capacity exceeded"),
                    details: String::from_str("Please reduce message rate"),
                }),
            })),
        }
    }

    /// The tools offered: none yet.
    pub fn list_tools(&self) -> (r: ListResponse)
        ensures
            r.items@.len() == 0 && r.error is None,
    {
        ListResponse { items: Vec::new(), error: no_error() }
    }

    /// The resources offered: none yet.
    pub fn list_resources(&self) -> (r: ListResponse)
        ensures
            r.items@.len() == 0 && r.error is None,
    {
        ListResponse { items: Vec::new(), error: no_error() }
    }

    /// The prompts offered: none yet.
    pub fn list_prompts(&self) -> (r: ListResponse)
        ensures
            r.items@.len() == 0 && r.error is None,
    {
        ListResponse { items: Vec::new(), error: no_error() }
    }

    /// Runs a tool: a blank tool id is refused; any other answers that tools
    /// are not implemented.
    pub fn call_tool(&self, request: &CallToolRequest) -> (r: CallToolResponse)
        ensures
            all_white_space(request.tool_id@) ==> r.output_json@.len() == 0
                && error_is(r.error, "Invalid tool_id"@, "tool_id cannot be empty"@),
            !all_white_space(request.tool_id@) ==> r.error is None
                && r.output_json@ == "{\"status\": \"not_implemented\", \"message\": \"Tool functionality will be implemented in future tasks\"}"@,
    {
        if is_blank(request.tool_id.as_str()) {
            return CallToolResponse {
                output_json: String::new(),
                error: Some(validation_error("Invalid tool_id", "tool_id cannot be empty")),
            };
        }
        CallToolResponse {
            output_json: String::from_str("{\"status\": \"not_implemented\", \"message\": \"Tool functionality will be implemented in future tasks\"}"),
            error: no_error(),
        }
    }

    /// Reads a resource: a blank URI is refused, one not under `unity://` is
    /// not found, any other gives a short text.
    pub fn read_resource(&self, request: &ReadResourceRequest) -> (r: ReadResourceResponse)
        ensures
            all_white_space(request.uri@) ==> r.data@.len() == 0 && r.mime_type@.len() == 0
                && error_is(r.error, "Invalid URI"@, "URI parameter cannot be empty"@),
            !all_white_space(request.uri@) && !has_prefix(request.uri@, "unity://"@) ==> r.data@.len() == 0
                && r.mime_type@.len() == 0 && (r.error matches Some(e) && is_not_found_error(e, "resource"@, request.uri@)),
            !all_white_space(request.uri@) && has_prefix(request.uri@, "unity://"@) ==> r.error is None
                && r.mime_type@ == "text/plain"@ && r.data@ == vstd::utf8::encode_utf8("Hello from Unity MCP"@),
    {
        if is_blank(request.uri.as_str()) {
            return ReadResourceResponse {
                data: Vec::new(),
                mime_type: String::new(),
                error: Some(validation_error("Invalid URI", "URI parameter cannot be empty")),
            };
        }
        let v = chars_of(request.uri.as_str());
        if !starts_with(&v, "unity://") {
            return ReadResourceResponse {
                data: Vec::new(),
                mime_type: String::new(),
                error: Some(not_found_error("resource", request.uri.as_str())),
            };
        }
        let text = "Hello from Unity MCP";
        let bytes = text.as_bytes();
        let mut data: Vec<u8> = Vec::new();
        let mut i: usize = 0;
        while i < bytes.len()
            invariant
                i <= bytes@.len(),
                bytes@ == vstd::utf8::encode_utf8(text@),
                data@ == bytes@.take(i as int),
            decreases bytes@.len() - i,
        {
            data.push(bytes[i]);
            assert(bytes@.take(i + 1) == bytes@.take(i as int).push(bytes@[i as int]));
            i = i + 1;
        }
        assert(bytes@.take(bytes@.len() as int) == bytes@);
        ReadResourceResponse { data, mime_type: String::from_str("text/plain"), error: no_error() }
    }

    /// Gives a prompt: a blank id is refused, one not starting with
    /// `unity_` is not found, any other gives a sample text naming it.
    pub fn get_prompt(&self, request: &GetPromptRequest) -> (r: GetPromptResponse)
        ensures
            all_white_space(request.prompt_id@) ==> r.prompt_text@.len() == 0
                && error_is(r.error, "Invalid prompt_id"@, "prompt_id parameter cannot be empty"@),
            !all_white_space(request.prompt_id@) && !has_prefix(request.prompt_id@, "unity_"@) ==> r.prompt_text@.len() == 0
                && (r.error matches Some(e) && is_not_found_error(e, "prompt"@, request.prompt_id@)),
            !all_white_space(request.prompt_id@) && has_prefix(request.prompt_id@, "unity_"@) ==> r.error is None
                && r.prompt_text@ == "This is a sample prompt from Unity MCP for prompt ID: "@ + request.prompt_id@
                    + ". Use this prompt to interact with Unity assets and operations."@,
    {
        if is_blank(request.prompt_id.as_str()) {
            return GetPromptResponse {
                prompt_text: String::new(),
                error: Some(validation_error("Invalid prompt_id", "prompt_id parameter cannot be empty")),
            };
        }
        let v = chars_of(request.prompt_id.as_str());
        if !starts_with(&v, "unity_") {
            return GetPromptResponse {
                prompt_text: String::new(),
                error: Some(not_found_error("prompt", request.prompt_id.as_str())),
            };
        }
        let text = concat3(
            "This is a sample prompt from Unity MCP for prompt ID: ",
            request.prompt_id.as_str(),
            ". Use this prompt to interact with Unity assets and operations.",
        );
        GetPromptResponse { prompt_text: text, error: no_error() }
    }

    /// The project's name and Unity version.
    pub fn get_project_info(&self) -> (r: GetProjectInfoResponse)
        ensures
            r.error is None,
            r.project matches Some(p) && p.project_name@ == STUB_PROJECT_NAME@ && p.unity_version@ == STUB_UNITY_VERSION@,
    {
        GetProjectInfoResponse {
            project: Some(ProjectInfo {
                project_name: String::from_str(STUB_PROJECT_NAME),
                unity_version: String::from_str(STUB_UNITY_VERSION),
            }),
            error: no_error(),
        }
    }

    /// Imports an asset: a path failing the checks gives its error; else
    /// the asset at that path, with a new random GUID and type "Unknown".
    pub fn import_asset(&self, request: &ImportAssetRequest) -> (r: ImportAssetResponse)
        ensures
            import_answer(*request, r),
    {
        if let Err(e) = self.validate_asset_path(request.asset_path.as_str(), "asset_path") {
            return ImportAssetResponse { asset: None, error: Some(e) };
        }
        let asset = UnityAsset {
            guid: new_uuid_simple(),
            asset_path: request.asset_path.clone(),
            asset_type: String::from_str(DEFAULT_ASSET_TYPE),
        };
        ImportAssetResponse { asset: Some(asset), error: no_error() }
    }

    /// Moves an asset: paths failing the checks give their error; else the
    /// asset at the destination, with a new random GUID and type "Unknown".
    pub fn move_asset(&self, request: &MoveAssetRequest) -> (r: MoveAssetResponse)
        ensures
            move_answer(*request, r),
            r.asset matches Some(a) ==> a.asset_path == request.dst_path,
    {
        if let Err(e) = self.validate_move_paths(request.src_path.as_str(), request.dst_path.as_str()) {
            return MoveAssetResponse { asset: None, error: Some(e) };
        }
        let asset = UnityAsset {
            guid: new_uuid_simple(),
            asset_path: request.dst_path.clone(),
            asset_type: String::from_str(DEFAULT_ASSET_TYPE),
        };
        MoveAssetResponse { asset: Some(asset), error: no_error() }
    }

    /// Deletes an asset: a path failing the checks gives its error; one that
    /// is not a script, prefab, PNG or FBX is not found; else success.
    pub fn delete_asset(&self, request: &DeleteAssetRequest) -> (r: DeleteAssetResponse)
        ensures
            delete_answer(*request, r),
            accepted_path(request.asset_path@) && (crate::text::has_suffix(request.asset_path@, ".cs"@)
                || crate::text::has_suffix(request.asset_path@, ".prefab"@) || crate::text::has_suffix(request.asset_path@, ".png"@)
                || crate::text::has_suffix(request.asset_path@, ".fbx"@)) ==> r.success && r.error is None,
    {
        if let Err(e) = self.validate_asset_path(request.asset_path.as_str(), "asset_path") {
            let r = DeleteAssetResponse { success: false, error: Some(e) };
            proof {
                if accepted_path(request.asset_path@) {
                    law_accepted_path_passes(request.asset_path@, "asset_path"@);
                }
            }
            return r;
        }
        let v = chars_of(request.asset_path.as_str());
        if !ends_with(&v, ".cs") && !ends_with(&v, ".prefab") && !ends_with(&v, ".png") && !ends_with(&v, ".fbx") {
            return DeleteAssetResponse { success: false, error: Some(not_found_error("asset", request.asset_path.as_str())) };
        }
        DeleteAssetResponse { success: true, error: no_error() }
    }

    /// An error response of kind `error_type`, shaped as the response to a
    /// request of `request_type` (a generic one for none or another), whose
    /// details carry a new context recording the kind.
    pub fn create_error_response(error_type: StreamErrorType, message: &str, details: &str, request_type: Option<&str>) -> (r: StreamResponse)
        ensures
            error_response(r, error_type, message@, details@, match request_type {
                Some(t) => Some(t@),
                None => None,
            }),
    {
        let mut context = ErrorContext::new(match request_type {
            Some(t) => Some(String::from_str(t)),
            None => None,
        });
        context.add_info(String::from_str("error_type"), String::from_str(error_type.name()));
        let ctx = context.to_details_string();
        let enhanced = concat3(details, " | Context: ", ctx.as_str());
        proof {
            lemma_prefix_of_concat(details@ + " | Context: "@, ctx@);
            lemma_prefix_of_concat("GENERIC_ERROR | "@ + details@ + " | Context: "@, ctx@);
        }
        let code = error_type.to_grpc_code();
        let error = McpError { code, message: String::from_str(message), details: enhanced };
        let kind: u8 = match request_type {
            Some(t) => if str_eq(t, "import_asset") {
                0
            } else if str_eq(t, "move_asset") {
                1
            } else if str_eq(t, "delete_asset") {
                2
            } else if str_eq(t, "refresh") {
                3
            } else {
                4
            },
            None => 4,
        };
        let ghost rtv: Option<Seq<char>> = match request_type {
            Some(t) => Some(t@),
            None => None,
        };
        proof {
            reveal_strlit("import_asset");
            reveal_strlit("move_asset");
            reveal_strlit("delete_asset");
            reveal_strlit("refresh");
            assert("delete_asset"@[0] != "import_asset"@[0]);
            assert("delete_asset"@ != "import_asset"@);
            assert("refresh"@[0] != "import_asset"@[0] && "refresh"@[0] != "move_asset"@[0] && "refresh"@[0] != "delete_asset"@[0]);
            assert("move_asset"@[0] != "import_asset"@[0] && "move_asset"@[0] != "delete_asset"@[0]);
            assert(kind == 0 <==> rtv == Some("import_asset"@));
            assert(kind == 1 <==> rtv == Some("move_asset"@));
            assert(kind == 2 <==> rtv == Some("delete_asset"@));
            assert(kind == 3 <==> rtv == Some("refresh"@));
            assert(has_prefix(enhanced@, details@ + " | Context: "@));
        }
        let r = if kind == 0 {
            StreamResponse { message: Some(StreamResponseMessage::ImportAsset(ImportAssetResponse { asset: None, error: Some(error) })) }
        } else if kind == 1 {
            StreamResponse { message: Some(StreamResponseMessage::MoveAsset(MoveAssetResponse { asset: None, error: Some(error) })) }
        } else if kind == 2 {
            StreamResponse { message: Some(StreamResponseMessage::DeleteAsset(DeleteAssetResponse { success: false, error: Some(error) })) }
        } else if kind == 3 {
            StreamResponse { message: Some(StreamResponseMessage::Refresh(RefreshResponse { success: false, error: Some(error) })) }
        } else {
            let generic = McpError {
                code,
                message: concat2("Generic stream error: ", message),
                details: concat2("GENERIC_ERROR | ", error.details.as_str()),
            };
            assert(generic.details@ =~= ("GENERIC_ERROR | "@ + details@ + " | Context: "@) + ctx@);
            assert(("GENERIC_ERROR | "@ + (details@ + " | Context: "@)) =~= ("GENERIC_ERROR | "@ + details@ + " | Context: "@));
            StreamResponse { message: Some(StreamResponseMessage::ImportAsset(ImportAssetResponse { asset: None, error: Some(generic) })) }
        };
        assert(error_response(r, error_type, message@, details@, rtv));
        r
    }

    /// The error response for a request that failed validation.
    pub fn create_validation_error_response(error: &crate::validation::errors::StreamValidationError, message_id: u64) -> (r: StreamResponse)
        ensures
            error_response(r, StreamErrorType::ValidationError, "Request validation failed: "@ + error.text(),
                "Message: "@ + crate::text::decimal(message_id as nat) + " | Validation error details: "@ + error.debug_text(), None),
    {
        let text = error.display_string();
        let message = concat2("Request validation failed: ", text.as_str());
        let id = u64_to_decimal(message_id);
        let debug = error.debug_string();
        let mut details = concat3("Message: ", id.as_str(), " | Validation error details: ");
        append_str(&mut details, debug.as_str());
        UnityMcpServiceImpl::create_error_response(StreamErrorType::ValidationError, message.as_str(), details.as_str(), None)
    }

    /// The error response for a stream request without a message.
    pub fn create_empty_message_error() -> (r: StreamResponse)
        ensures
            error_response(r, StreamErrorType::InvalidRequest, "Empty stream request received"@,
                "StreamRequest must contain a valid message field"@, None),
    {
        UnityMcpServiceImpl::create_error_response(
            StreamErrorType::InvalidRequest,
            "Empty stream request received",
            "StreamRequest must contain a valid message field",
            None,
        )
    }

    /// The error response when the stream itself failed with a status of
    /// `code`, message `status_message` and debug text `status_debug`.
    pub fn create_stream_error_response(code: StatusCode, status_message: &str, status_debug: &str) -> (r: StreamResponse)
        ensures
            error_response(r, error_type_for(code), "Stream processing error: "@ + status_message@,
                "Stream handler encountered an error: "@ + status_debug@, None),
    {
        let t = StreamErrorType::from_status_code(code);
        let message = concat2("Stream processing error: ", status_message);
        let details = concat2("Stream handler encountered an error: ", status_debug);
        UnityMcpServiceImpl::create_error_response(t, message.as_str(), details.as_str(), None)
    }

    /// Answers one stream message by the service call of its kind.
    pub fn handle_request_message(&self, message: crate::proto::StreamRequestMessage) -> (r: StreamResponse)
        ensures
            stream_answer(message, r),
    {
        match message {
            crate::proto::StreamRequestMessage::ImportAsset(q) => {
                let x = self.import_asset(&q);
                StreamResponse { message: Some(StreamResponseMessage::ImportAsset(x)) }
            },
            crate::proto::StreamRequestMessage::MoveAsset(q) => {
                let x = self.move_asset(&q);
                StreamResponse { message: Some(StreamResponseMessage::MoveAsset(x)) }
            },
            crate::proto::StreamRequestMessage::DeleteAsset(q) => {
                let x = self.delete_asset(&q);
                StreamResponse { message: Some(StreamResponseMessage::DeleteAsset(x)) }
            },
            crate::proto::StreamRequestMessage::Refresh(q) => {
                let x = self.refresh(&q);
                StreamResponse { message: Some(StreamResponseMessage::Refresh(x)) }
            },
        }
    }

    /// Answers one stream request: from the cache when it holds a valid
    /// answer; else the request is validated; a refused one gets a
    /// validation error response; an accepted one is sanitised, answered
    /// by the service call of its kind, and the answer is cached.
    pub fn process_stream_request(&mut self, stream_request: crate::proto::StreamRequest, message_id: u64) -> (r: StreamResponse)
        requires
            old(self).wf(),
        ensures
            final(self).wf(),
            stream_request.message is None ==> validation_error_answer(r, crate::validation::errors::StreamValidationError::EmptyMessage, message_id),
            stream_request.message is Some ==> ({
                let es = old(self).cached();
                match old(self).cache_key(stream_request) {
                    Some(k) => match crate::cache::store::index_of_key(es, crate::cache::stream::slot_of(k)) {
                        Some(i) => if es[i].1.key@ == k {
                            exists|now: u64| #![trigger crate::cache::stream::expired(es[i].1, now)]
                                if crate::cache::stream::expired(es[i].1, now) {
                                    validated_answer(old(self).engine(), stream_request, message_id, r)
                                } else {
                                    crate::cache::stream::served_from(es[i].1, r)
                                }
                        } else {
                            validated_answer(old(self).engine(), stream_request, message_id, r)
                        },
                        None => validated_answer(old(self).engine(), stream_request, message_id, r),
                    },
                    None => validated_answer(old(self).engine(), stream_request, message_id, r),
                }
            }),
    {
        let ghost old_entries = self.cache.entries();
        let ghost engine0 = self.validation_engine;
        match self.cache.get(&stream_request) {
            Some(cached) => {
                return cached;
            },
            None => {},
        }
        let context = crate::validation::context::ValidationContext {
            client_id: String::from_str("unity_client"),
            connection_id: String::from_str("stream_connection"),
            message_id,
            timestamp: system_now(),
            client_info: Some(crate::validation::context::ClientInfo { user_agent: None, ip_address: None, unity_version: None }),
        };
        let verdict = self.validation_engine.validate_stream_request(&stream_request, &context);
        proof {
            if stream_request.message is Some {
                let now = choose|now: u64| #![trigger engine0.rules().limiter().admits(context.client_id@, now)]
                    crate::validation::errors::result_view(verdict) == crate::validation::engine::verdict_at(engine0, context.client_id@, stream_request.message, now);
                reveal_strlit("unity_client");
                assert(context.client_id@ == "unity_client"@);
                assert(crate::validation::errors::result_view(verdict) == stream_verdict(engine0, stream_request, now));
            }
        }
        match verdict {
            Err(e) => UnityMcpServiceImpl::create_validation_error_response(&e, message_id),
            Ok(()) => {
                match self.validation_engine.sanitize_stream_request(crate::proto::copy_request(&stream_request), &context) {
                    Err(e) => UnityMcpServiceImpl::create_validation_error_response(&e, message_id),
                    Ok(sanitized) => {
                        let ghost q = sanitized;
                        let response = match sanitized.message {
                            Some(m) => self.handle_request_message(m),
                            None => {
                                let r = UnityMcpServiceImpl::create_empty_message_error();
                                assert(false);
                                r
                            },
                        };
                        self.cache.put(&stream_request, crate::proto::copy_response(&response));
                        response
                    },
                }
            },
        }
    }

    /// Refreshes the asset database: always succeeds.
    pub fn refresh(&self, request: &RefreshRequest) -> (r: RefreshResponse)
        ensures
            r.success && r.error is None,
    {
        RefreshResponse { success: true, error: no_error() }
    }
}

proof fn lemma_prefix_of_concat(a: Seq<char>, b: Seq<char>)
    ensures
        has_prefix(a + b, a),
{
    assert((a + b).subrange(0, a.len() as int) =~= a);
}

/// A path the service accepts: not blank, under `Assets` with no `..`,
/// without spaces or angle brackets, at most 260 bytes in UTF-8.
pub open spec fn accepted_path(p: Seq<char>) -> bool {
    &&& !crate::text::all_white_space(p)
    &&& under_assets(p)
    &&& !crate::text::contains_char(p, ' ')
    &&& !crate::text::contains_char(p, '<')
    &&& !crate::text::contains_char(p, '>')
    &&& crate::text::utf8_len(p) <= 260
}

/// An accepted path passes the service's checks, whatever field it is.
pub proof fn law_accepted_path_passes(p: Seq<char>, field: Seq<char>)
    requires
        accepted_path(p),
    ensures
        service_path_error(p, field) is None,
{
}

/// Deleting an accepted path that ends in `.cs`, `.prefab`, `.png` or
/// `.fbx` succeeds with no error; any other accepted path is answered
/// "asset not found" (code 404) with the path as the resource id.
pub proof fn law_delete_by_suffix(q: DeleteAssetRequest, r: DeleteAssetResponse)
    requires
        delete_answer(q, r),
        accepted_path(q.asset_path@),
    ensures
        (crate::text::has_suffix(q.asset_path@, ".cs"@) || crate::text::has_suffix(q.asset_path@, ".prefab"@)
            || crate::text::has_suffix(q.asset_path@, ".png"@) || crate::text::has_suffix(q.asset_path@, ".fbx"@))
            ==> r.success && r.error is None,
        !(crate::text::has_suffix(q.asset_path@, ".cs"@) || crate::text::has_suffix(q.asset_path@, ".prefab"@)
            || crate::text::has_suffix(q.asset_path@, ".png"@) || crate::text::has_suffix(q.asset_path@, ".fbx"@))
            ==> (!r.success && (r.error matches Some(e) && e.code == 404 && e.message@ == "asset not found"@
                && e.details@ == "Resource ID: "@ + q.asset_path@)),
        r.success ==> r.error is None,
{
    reveal_strlit("asset");
    reveal_strlit(" not found");
    reveal_strlit("asset not found");
    assert("asset"@ + " not found"@ =~= "asset not found"@);
}

/// A move answers with an asset only at the destination; a move between
/// two different accepted paths succeeds, and the asset is no longer
/// reported at its source.
pub proof fn law_move_to_destination(q: MoveAssetRequest, r: MoveAssetResponse)
    requires
        move_answer(q, r),
    ensures
        r.asset matches Some(a) ==> (a.asset_path@ == q.dst_path@ && r.error is None),
        accepted_path(q.src_path@) && accepted_path(q.dst_path@) && q.src_path@ != q.dst_path@ ==> (r.error is None
            && (r.asset matches Some(a) && a.asset_path@ == q.dst_path@ && a.asset_path@ != q.src_path@)),
{
}

} // verus!
