//! Keys under which responses are cached, and how a request gives one.
use vstd::prelude::*;

use crate::proto::{StreamRequest, StreamRequestMessage, StreamResponse};
use crate::text::{concat3, str_eq};

verus! {

/// Name for the `u64` that `std::hash::DefaultHasher` gives after the
/// strings `parts` are hashed into a new hasher, in order.
pub uninterp spec fn std_hash_strs(parts: Seq<Seq<char>>) -> u64;

/// Calls `DefaultHasher::new` and `Hasher::finish` with nothing hashed; the
/// result is named by `std_hash_strs` of no parts.
#[verifier::external_body]
fn hash_no_parts() -> (r: u64)
    ensures
        r == std_hash_strs(Seq::empty()),
{
    let h = std::hash::DefaultHasher::new();
    std::hash::Hasher::finish(&h)
}

/// Hashes `a` into a new `DefaultHasher` and finishes it; the result is
/// named by `std_hash_strs`.
#[verifier::external_body]
fn hash_one_part(a: &str) -> (r: u64)
    ensures
        r == std_hash_strs(seq![a@]),
{
    let mut h = std::hash::DefaultHasher::new();
    std::hash::Hash::hash(a, &mut h);
    std::hash::Hasher::finish(&h)
}

/// Hashes `a`, then `b`, into a new `DefaultHasher` and finishes it; the
/// result is named by `std_hash_strs`.
#[verifier::external_body]
fn hash_two_parts(a: &str, b: &str) -> (r: u64)
    ensures
        r == std_hash_strs(seq![a@, b@]),
{
    let mut h = std::hash::DefaultHasher::new();
    std::hash::Hash::hash(a, &mut h);
    std::hash::Hash::hash(b, &mut h);
    std::hash::Hasher::finish(&h)
}

/// The kind of operation a request is.
#[derive(Debug, Clone, Copy, PartialEq, Eq, Hash, Structural)]
pub enum OperationType {
    ImportAsset,
    MoveAsset,
    DeleteAsset,
    Refresh,
}

/// The name of an operation kind.
pub open spec fn operation_name(op: OperationType) -> Seq<char> {
    match op {
        OperationType::ImportAsset => "import_asset"@,
        OperationType::MoveAsset => "move_asset"@,
        OperationType::DeleteAsset => "delete_asset"@,
        OperationType::Refresh => "refresh"@,
    }
}

impl OperationType {
    /// The name of the operation kind.
    pub fn as_str(&self) -> (r: &'static str)
        ensures
            r@ == operation_name(*self),
    {
        match self {
            OperationType::ImportAsset => "import_asset",
            OperationType::MoveAsset => "move_asset",
            OperationType::DeleteAsset => "delete_asset",
            OperationType::Refresh => "refresh",
        }
    }
}

/// Size classes of files.
#[derive(Debug, Clone, Copy, PartialEq, Eq, Hash, Structural)]
pub enum FileSizeRange {
    /// Under 1 MB.
    Small,
    /// 1 MB to 10 MB.
    Medium,
    /// 10 MB to 100 MB.
    Large,
    /// Over 100 MB.
    XLarge,
}

/// Further attributes of a key.
#[derive(Debug, Clone, PartialEq, Eq, Hash)]
pub struct CacheKeyAttributes {
    /// The request's path, or its two paths joined by `:`.
    pub normalized_path: Option<String>,
    pub file_size_range: Option<FileSizeRange>,
    pub timestamp_bucket: Option<u64>,
}

/// The key under which a response is cached.
#[derive(Debug, Clone, PartialEq, Eq, Hash)]
pub struct CacheKey {
    pub operation_type: OperationType,
    /// Hash of the request's paths.
    pub request_hash: u64,
    /// Version of the key scheme.
    pub version: u32,
    pub attributes: CacheKeyAttributes,
}

/// Model of a key.
pub struct CacheKeyModel {
    pub operation_type: OperationType,
    pub request_hash: u64,
    pub version: u32,
    pub normalized_path: Option<Seq<char>>,
    pub file_size_range: Option<FileSizeRange>,
    pub timestamp_bucket: Option<u64>,
}

impl View for CacheKey {
    type V = CacheKeyModel;

    open spec fn view(&self) -> CacheKeyModel {
        CacheKeyModel {
            operation_type: self.operation_type,
            request_hash: self.request_hash,
            version: self.version,
            normalized_path: match self.attributes.normalized_path {
                Some(p) => Some(p@),
                None => None,
            },
            file_size_range: self.attributes.file_size_range,
            timestamp_bucket: self.attributes.timestamp_bucket,
        }
    }
}

impl CacheKey {
    /// Whether two keys are equal.
    pub fn same_as(&self, other: &CacheKey) -> (r: bool)
        ensures
            r == (self@ == other@),
    {
        if self.operation_type != other.operation_type || self.request_hash != other.request_hash
            || self.version != other.version {
            return false;
        }
        let same_range = match (self.attributes.file_size_range, other.attributes.file_size_range) {
            (Some(a), Some(b)) => a == b,
            (None, None) => true,
            _ => false,
        };
        let same_bucket = match (self.attributes.timestamp_bucket, other.attributes.timestamp_bucket) {
            (Some(a), Some(b)) => a == b,
            (None, None) => true,
            _ => false,
        };
        let same_path = match (&self.attributes.normalized_path, &other.attributes.normalized_path) {
            (Some(a), Some(b)) => str_eq(a.as_str(), b.as_str()),
            (None, None) => true,
            _ => false,
        };
        same_range && same_bucket && same_path
    }

    /// A copy of the key.
    pub fn copy_key(&self) -> (r: CacheKey)
        ensures
            r@ == self@,
    {
        CacheKey {
            operation_type: self.operation_type,
            request_hash: self.request_hash,
            version: self.version,
            attributes: CacheKeyAttributes {
                normalized_path: match &self.attributes.normalized_path {
                    Some(p) => Some(p.clone()),
                    None => None,
                },
                file_size_range: self.attributes.file_size_range,
                timestamp_bucket: self.attributes.timestamp_bucket,
            },
        }
    }
}

/// The key a request gives under key scheme `version`, if it can be cached:
/// the operation kind, the hash of its paths, and its path (the two paths
/// of a move joined by `:`).
pub open spec fn key_for(message: Option<StreamRequestMessage>, version: u32) -> Option<CacheKeyModel> {
    match message {
        Some(StreamRequestMessage::ImportAsset(r)) => Some(CacheKeyModel {
            operation_type: OperationType::ImportAsset,
            request_hash: std_hash_strs(seq![r.asset_path@]),
            version,
            normalized_path: Some(r.asset_path@),
            file_size_range: None,
            timestamp_bucket: None,
        }),
        Some(StreamRequestMessage::MoveAsset(r)) => Some(CacheKeyModel {
            operation_type: OperationType::MoveAsset,
            request_hash: std_hash_strs(seq![r.src_path@, r.dst_path@]),
            version,
            normalized_path: Some(r.src_path@ + ":"@ + r.dst_path@),
            file_size_range: None,
            timestamp_bucket: None,
        }),
        Some(StreamRequestMessage::DeleteAsset(r)) => Some(CacheKeyModel {
            operation_type: OperationType::DeleteAsset,
            request_hash: std_hash_strs(seq![r.asset_path@]),
            version,
            normalized_path: Some(r.asset_path@),
            file_size_range: None,
            timestamp_bucket: None,
        }),
        Some(StreamRequestMessage::Refresh(_)) => Some(CacheKeyModel {
            operation_type: OperationType::Refresh,
            request_hash: std_hash_strs(Seq::empty()),
            version,
            normalized_path: None,
            file_size_range: None,
            timestamp_bucket: None,
        }),
        None => None,
    }
}

/// How requests are keyed, which responses are kept and for how long.
pub trait CacheKeyHasher {
    /// The key of `request`, if it can be cached.
    fn generate_key(&self, request: &StreamRequest) -> Option<CacheKey>;

    /// Whether `response` to `request` is kept.
    fn should_cache_response(&self, request: &StreamRequest, response: &StreamResponse) -> bool;

    /// How long a response to `request` is kept, in milliseconds.
    fn calculate_ttl(&self, request: &StreamRequest, base_ttl_ms: u64) -> u64;
}

/// Keys requests by their kind and paths.
pub struct DefaultCacheKeyHasher {
    version: u32,
}

impl DefaultCacheKeyHasher {
    /// The key scheme's version.
    pub closed spec fn scheme(&self) -> u32 {
        self.version
    }

    /// Key scheme 1.
    pub fn new() -> (r: DefaultCacheKeyHasher)
        ensures
            r.scheme() == 1,
    {
        DefaultCacheKeyHasher { version: 1 }
    }
}

impl CacheKeyHasher for DefaultCacheKeyHasher {
    /// The key `key_for` gives.
    fn generate_key(&self, request: &StreamRequest) -> (r: Option<CacheKey>)
        ensures
            match r {
                Some(k) => key_for(request.message, self.scheme()) == Some(k@),
                None => key_for(request.message, self.scheme()) is None,
            },
    {
        let (operation_type, request_hash, normalized_path) = match &request.message {
            Some(StreamRequestMessage::ImportAsset(req)) => (
                OperationType::ImportAsset,
                hash_one_part(req.asset_path.as_str()),
                Some(req.asset_path.clone()),
            ),
            Some(StreamRequestMessage::MoveAsset(req)) => (
                OperationType::MoveAsset,
                hash_two_parts(req.src_path.as_str(), req.dst_path.as_str()),
                Some(concat3(req.src_path.as_str(), ":", req.dst_path.as_str())),
            ),
            Some(StreamRequestMessage::DeleteAsset(req)) => (
                OperationType::DeleteAsset,
                hash_one_part(req.asset_path.as_str()),
                Some(req.asset_path.clone()),
            ),
            Some(StreamRequestMessage::Refresh(_)) => (OperationType::Refresh, hash_no_parts(), None),
            None => {
                return None;
            },
        };
        Some(CacheKey {
            operation_type,
            request_hash,
            version: self.version,
            attributes: CacheKeyAttributes { normalized_path, file_size_range: None, timestamp_bucket: None },
        })
    }

    /// Every response is kept.
    fn should_cache_response(&self, request: &StreamRequest, response: &StreamResponse) -> (r: bool)
        ensures
            r,
    {
        true
    }

    /// The base time to live.
    fn calculate_ttl(&self, request: &StreamRequest, base_ttl_ms: u64) -> (r: u64)
        ensures
            r == base_ttl_ms,
    {
        base_ttl_ms
    }
}

/// A request has a key exactly when it carries a message.
pub proof fn law_keyed_iff_message(message: Option<StreamRequestMessage>, version: u32)
    ensures
        key_for(message, version) is Some <==> message is Some,
{
}

/// Requests of different kinds never share a key.
pub proof fn law_kinds_keyed_apart(a: StreamRequestMessage, b: StreamRequestMessage, version: u32)
    requires
        !(a is ImportAsset && b is ImportAsset),
        !(a is MoveAsset && b is MoveAsset),
        !(a is DeleteAsset && b is DeleteAsset),
        !(a is Refresh && b is Refresh),
    ensures
        key_for(Some(a), version) != key_for(Some(b), version),
{
}

} // verus!
