//! The decisions of the IPC client: errors, handshake outcome, replies,
//! correlation ids and reconnection back-off.
use vstd::prelude::*;

use crate::features::{client_flags, name_of_flag, FeatureFlag, FeatureSet, FlagModel};
use crate::text::{append_str, concat2, concat3, contains, chars_of, contains_seq, hex_fixed, u64_to_hex_fixed};

verus! {

/// Why an IPC operation failed.
#[derive(Debug, Clone, PartialEq, Eq)]
pub enum IpcError {
    ConnectTimeout,
    Handshake(String),
    Authentication(String),
    VersionIncompatible(String),
    SchemaMismatch(String),
    ServerUnavailable(String),
    PermissionDenied(String),
    UnsupportedFeature(String),
    FailedPrecondition(String),
    /// An I/O error, by its text.
    Io(String),
    /// An encoding or decoding error, by its text.
    Codec(String),
    RequestTimeout,
    Closed,
}

/// Model of an IPC error.
pub enum IpcErrorModel {
    ConnectTimeout,
    Handshake(Seq<char>),
    Authentication(Seq<char>),
    VersionIncompatible(Seq<char>),
    SchemaMismatch(Seq<char>),
    ServerUnavailable(Seq<char>),
    PermissionDenied(Seq<char>),
    UnsupportedFeature(Seq<char>),
    FailedPrecondition(Seq<char>),
    Io(Seq<char>),
    Codec(Seq<char>),
    RequestTimeout,
    Closed,
}

impl View for IpcError {
    type V = IpcErrorModel;

    open spec fn view(&self) -> IpcErrorModel {
        match self {
            IpcError::ConnectTimeout => IpcErrorModel::ConnectTimeout,
            IpcError::Handshake(s) => IpcErrorModel::Handshake(s@),
            IpcError::Authentication(s) => IpcErrorModel::Authentication(s@),
            IpcError::VersionIncompatible(s) => IpcErrorModel::VersionIncompatible(s@),
            IpcError::SchemaMismatch(s) => IpcErrorModel::SchemaMismatch(s@),
            IpcError::ServerUnavailable(s) => IpcErrorModel::ServerUnavailable(s@),
            IpcError::PermissionDenied(s) => IpcErrorModel::PermissionDenied(s@),
            IpcError::UnsupportedFeature(s) => IpcErrorModel::UnsupportedFeature(s@),
            IpcError::FailedPrecondition(s) => IpcErrorModel::FailedPrecondition(s@),
            IpcError::Io(s) => IpcErrorModel::Io(s@),
            IpcError::Codec(s) => IpcErrorModel::Codec(s@),
            IpcError::RequestTimeout => IpcErrorModel::RequestTimeout,
            IpcError::Closed => IpcErrorModel::Closed,
        }
    }
}

impl IpcError {
    /// The text the error displays.
    pub open spec fn text(&self) -> Seq<char> {
        match self {
            IpcError::ConnectTimeout => "connect timeout"@,
            IpcError::Handshake(s) => "handshake failed: "@ + s@,
            IpcError::Authentication(s) => "authentication failed: "@ + s@,
            IpcError::VersionIncompatible(s) => "version incompatible: "@ + s@,
            IpcError::SchemaMismatch(s) => "schema mismatch: "@ + s@,
            IpcError::ServerUnavailable(s) => "server unavailable: "@ + s@,
            IpcError::PermissionDenied(s) => "permission denied: "@ + s@,
            IpcError::UnsupportedFeature(s) => "unsupported feature: "@ + s@,
            IpcError::FailedPrecondition(s) => "failed precondition: "@ + s@,
            IpcError::Io(s) => "io: "@ + s@,
            IpcError::Codec(s) => "codec: "@ + s@,
            IpcError::RequestTimeout => "request timeout"@,
            IpcError::Closed => "closed"@,
        }
    }

    /// The text the error displays.
    pub fn display_string(&self) -> (r: String)
        ensures
            r@ == self.text(),
    {
        match self {
            IpcError::ConnectTimeout => String::from_str("connect timeout"),
            IpcError::Handshake(s) => concat2("handshake failed: ", s.as_str()),
            IpcError::Authentication(s) => concat2("authentication failed: ", s.as_str()),
            IpcError::VersionIncompatible(s) => concat2("version incompatible: ", s.as_str()),
            IpcError::SchemaMismatch(s) => concat2("schema mismatch: ", s.as_str()),
            IpcError::ServerUnavailable(s) => concat2("server unavailable: ", s.as_str()),
            IpcError::PermissionDenied(s) => concat2("permission denied: ", s.as_str()),
            IpcError::UnsupportedFeature(s) => concat2("unsupported feature: ", s.as_str()),
            IpcError::FailedPrecondition(s) => concat2("failed precondition: ", s.as_str()),
            IpcError::Io(s) => concat2("io: ", s.as_str()),
            IpcError::Codec(s) => concat2("codec: ", s.as_str()),
            IpcError::RequestTimeout => String::from_str("request timeout"),
            IpcError::Closed => String::from_str("closed"),
        }
    }

    /// Whether a failed connection is worth trying again: only when the
    /// server was unavailable, the connection timed out, or I/O failed.
    pub open spec fn is_transient(&self) -> bool {
        self is ServerUnavailable || self is ConnectTimeout || self is Io
    }

    /// Whether a failed connection is worth trying again.
    pub fn should_retry(&self) -> (r: bool)
        ensures
            r == self.is_transient(),
    {
        match self {
            IpcError::ServerUnavailable(_) => true,
            IpcError::ConnectTimeout => true,
            IpcError::Io(_) => true,
            _ => false,
        }
    }
}

/// Why the bridge rejected the hello.
#[derive(Debug, Clone, Copy, PartialEq, Eq, Structural)]
pub enum RejectCode {
    Unauthenticated,
    OutOfRange,
    FailedPrecondition,
    Unavailable,
    PermissionDenied,
    Internal,
}

/// The error a rejection of the hello gives.
pub open spec fn reject_error(code: RejectCode, message: Seq<char>) -> IpcErrorModel {
    match code {
        RejectCode::Unauthenticated => IpcErrorModel::Authentication(message),
        RejectCode::OutOfRange => IpcErrorModel::VersionIncompatible(message),
        RejectCode::FailedPrecondition => if contains_seq(message, "schema"@) {
            IpcErrorModel::SchemaMismatch(message)
        } else {
            IpcErrorModel::FailedPrecondition(message)
        },
        RejectCode::Unavailable => IpcErrorModel::ServerUnavailable(message),
        RejectCode::PermissionDenied => IpcErrorModel::PermissionDenied(message),
        RejectCode::Internal => IpcErrorModel::Handshake("server error: "@ + message),
    }
}

/// What the bridge answered to the hello.
#[derive(Debug, Clone)]
pub enum HandshakeReply {
    /// The bridge accepted, with the features it agreed to.
    Welcome { accepted_features: Vec<String> },
    /// The bridge refused.
    Reject { code: RejectCode, message: String },
    /// Any other control message.
    Other,
}

/// The error the bridge's answer gives, if any.
pub open spec fn handshake_error(reply: HandshakeReply) -> Option<IpcErrorModel> {
    match reply {
        HandshakeReply::Welcome { .. } => None,
        HandshakeReply::Reject { code, message } => Some(reject_error(code, message@)),
        HandshakeReply::Other => Some(IpcErrorModel::Handshake("unexpected control response"@)),
    }
}

/// Decides the handshake from the bridge's answer: a welcome gives the
/// features both sides use, from those the bridge accepted; a rejection
/// gives the error for its code.
pub fn handshake_outcome(reply: HandshakeReply) -> (r: Result<FeatureSet, IpcError>)
    ensures
        match r {
            Ok(set) => reply is Welcome && set.wf() && forall|f: FlagModel| #[trigger] set@.contains(f) <==> !(f is Unknown)
                && exists|i: int| 0 <= i < reply->accepted_features.len()
                    && f == crate::features::flag_of_name(crate::features::normalized_name(reply->accepted_features@[i]@)),
            Err(e) => handshake_error(reply) == Some(e@),
        },
{
    match reply {
        HandshakeReply::Welcome { accepted_features } => Ok(FeatureSet::from_strings(accepted_features.as_slice())),
        HandshakeReply::Reject { code, message } => {
            let e = match code {
                RejectCode::Unauthenticated => IpcError::Authentication(message),
                RejectCode::OutOfRange => IpcError::VersionIncompatible(message),
                RejectCode::FailedPrecondition => {
                    let v = chars_of(message.as_str());
                    if contains(&v, "schema") {
                        IpcError::SchemaMismatch(message)
                    } else {
                        IpcError::FailedPrecondition(message)
                    }
                },
                RejectCode::Unavailable => IpcError::ServerUnavailable(message),
                RejectCode::PermissionDenied => IpcError::PermissionDenied(message),
                RejectCode::Internal => IpcError::Handshake(concat2("server error: ", message.as_str())),
            };
            Err(e)
        },
        HandshakeReply::Other => Err(IpcError::Handshake(String::from_str("unexpected control response"))),
    }
}

/// The shape of a reply to an assets or prefab request.
#[derive(Debug, Clone)]
pub enum ReplyShape {
    /// The reply is of the request's area, with its status code and
    /// message, and whether it carries the payload the request asked for.
    Area { status_code: i32, message: String, expected_payload: bool },
    /// The reply is of another kind.
    Other,
}

/// What a reply to an operation gives: success for status 0 with the
/// payload asked for; for any other reply of the area, the operation's
/// failure with the reply's message; else an unexpected response.
pub open spec fn reply_result(operation: Seq<char>, reply: ReplyShape) -> Result<(), IpcErrorModel> {
    match reply {
        ReplyShape::Area { status_code, message, expected_payload } => if status_code == 0 && expected_payload {
            Ok(())
        } else {
            Err(IpcErrorModel::Handshake(operation + " failed: "@ + message@))
        },
        ReplyShape::Other => Err(IpcErrorModel::Handshake("unexpected response"@)),
    }
}

/// An error with its view.
pub open spec fn ipc_result_view(r: Result<(), IpcError>) -> Result<(), IpcErrorModel> {
    match r {
        Ok(()) => Ok(()),
        Err(e) => Err(e@),
    }
}

/// Decides a reply to `operation` (such as "assets import").
pub fn reply_outcome(operation: &str, reply: &ReplyShape) -> (r: Result<(), IpcError>)
    ensures
        ipc_result_view(r) == reply_result(operation@, *reply),
{
    match reply {
        ReplyShape::Area { status_code, message, expected_payload } => {
            if *status_code == 0 && *expected_payload {
                Ok(())
            } else {
                Err(IpcError::Handshake(concat3(operation, " failed: ", message.as_str())))
            }
        },
        ReplyShape::Other => Err(IpcError::Handshake(String::from_str("unexpected response"))),
    }
}

/// Whether a build reply carries the payload asked for; any other reply is
/// an unexpected build response.
pub fn build_reply_outcome(expected_payload: bool) -> (r: Result<(), IpcError>)
    ensures
        expected_payload ==> r is Ok,
        !expected_payload ==> ipc_result_view(r) == Err::<(), IpcErrorModel>(IpcErrorModel::Handshake("unexpected build response"@)),
{
    if expected_payload {
        Ok(())
    } else {
        Err(IpcError::Handshake(String::from_str("unexpected build response")))
    }
}

/// Whether a health reply carries a health payload.
pub fn health_reply_outcome(is_health: bool) -> (r: Result<(), IpcError>)
    ensures
        is_health ==> r is Ok,
        !is_health ==> ipc_result_view(r) == Err::<(), IpcErrorModel>(IpcErrorModel::Handshake("unexpected response type"@)),
{
    if is_health {
        Ok(())
    } else {
        Err(IpcError::Handshake(String::from_str("unexpected response type")))
    }
}

/// Refuses an operation that needs `feature` unless it was negotiated.
pub fn require_feature(negotiated: &FeatureSet, feature: &FeatureFlag) -> (r: Result<(), IpcError>)
    ensures
        negotiated@.contains(feature@) ==> r is Ok,
        !negotiated@.contains(feature@) ==> ipc_result_view(r) == Err::<(), IpcErrorModel>(
            IpcErrorModel::UnsupportedFeature(name_of_flag(feature@) + " feature not negotiated"@),
        ),
{
    if negotiated.contains(feature) {
        Ok(())
    } else {
        let name = feature.display_string();
        Err(IpcError::UnsupportedFeature(concat2(name.as_str(), " feature not negotiated")))
    }
}

/// Hands out correlation ids: the counter in 16 lower-case hex digits,
/// counting on (and wrapping) after each.
pub struct CorrelationIds {
    next: u64,
}

impl CorrelationIds {
    /// The value of the next id.
    pub closed spec fn counter(&self) -> u64 {
        self.next
    }

    /// Ids starting at `start` (the client starts at a random value).
    pub fn starting_at(start: u64) -> (r: CorrelationIds)
        ensures
            r.counter() == start,
    {
        CorrelationIds { next: start }
    }

    /// The next id.
    pub fn next_cid(&mut self) -> (r: String)
        ensures
            r@ == hex_fixed(old(self).counter() as nat, 16),
            final(self).counter() == (if old(self).counter() == u64::MAX { 0 } else { (old(self).counter() + 1) as u64 }),
    {
        let r = u64_to_hex_fixed(self.next, 16);
        self.next = if self.next == u64::MAX { 0 } else { self.next + 1 };
        r
    }
}

/// `16` to the power `w`.
pub open spec fn pow16(w: nat) -> nat
    decreases w,
{
    if w == 0 { 1 } else { 16 * pow16((w - 1) as nat) }
}

proof fn lemma_hex_fixed_injective(a: nat, b: nat, w: nat)
    requires
        a < pow16(w),
        b < pow16(w),
        hex_fixed(a, w) == hex_fixed(b, w),
    ensures
        a == b,
    decreases w,
{
    if w > 0 {
        let p = pow16((w - 1) as nat);
        assert(hex_fixed(a, w) == hex_fixed(a / 16, (w - 1) as nat).push(crate::text::hex_digit(a % 16)));
        assert(hex_fixed(b, w) == hex_fixed(b / 16, (w - 1) as nat).push(crate::text::hex_digit(b % 16)));
        let da = crate::text::hex_digit(a % 16);
        let db = crate::text::hex_digit(b % 16);
        assert(hex_fixed(a, w).last() == da);
        assert(hex_fixed(b, w).last() == db);
        assert(da == db);
        crate::text::lemma_hex_digit_injective(a % 16, b % 16);
        assert(hex_fixed(a, w).drop_last() == hex_fixed(a / 16, (w - 1) as nat));
        assert(hex_fixed(b, w).drop_last() == hex_fixed(b / 16, (w - 1) as nat));
        assert(a / 16 < p) by (nonlinear_arith)
            requires a < 16 * p;
        assert(b / 16 < p) by (nonlinear_arith)
            requires b < 16 * p;
        lemma_hex_fixed_injective(a / 16, b / 16, (w - 1) as nat);
        assert(a == 16 * (a / 16) + a % 16) by (nonlinear_arith);
        assert(b == 16 * (b / 16) + b % 16) by (nonlinear_arith);
    }
}

/// Correlation ids of different counter values differ: the id is the whole
/// 64-bit counter in hex. Ids handed out one after another therefore never
/// repeat until the counter wraps.
pub proof fn law_distinct_counters_distinct_ids(a: u64, b: u64)
    requires
        a != b,
    ensures
        hex_fixed(a as nat, 16) != hex_fixed(b as nat, 16),
{
    reveal_with_fuel(pow16, 17);
    assert(pow16(16) == 18446744073709551616);
    if hex_fixed(a as nat, 16) == hex_fixed(b as nat, 16) {
        lemma_hex_fixed_injective(a as nat, b as nat, 16);
    }
}

/// First wait before reconnecting, in milliseconds.
pub const SUPERVISOR_INITIAL_BACKOFF_MS: u64 = 200;

/// First wait between attempts to connect, in milliseconds.
pub const RETRY_INITIAL_BACKOFF_MS: u64 = 250;

/// The longest wait, before jitter.
pub const MAX_BACKOFF_MS: u64 = 5000;

/// `a` or `b`, whichever is less.
pub open spec fn min_u64(a: u64, b: u64) -> u64 {
    if a <= b { a } else { b }
}

/// The wait after a failed reconnection: doubled up to the cap, then a
/// jitter of `random` modulo a quarter of that added.
pub open spec fn supervisor_backoff(backoff: u64, random: u64) -> int {
    let capped = min_u64((backoff * 2) as u64, MAX_BACKOFF_MS);
    capped + random % (capped / 4)
}

/// The wait after a failed attempt to connect: a jitter of `random` modulo
/// a quarter of the current wait, added to the current wait doubled up to
/// the cap.
pub open spec fn retry_backoff(backoff: u64, random: u64) -> int {
    min_u64((backoff * 2) as u64, MAX_BACKOFF_MS) + random % (backoff / 4)
}

/// The next wait of the reconnection supervisor.
pub fn next_supervisor_backoff(backoff: u64, random: u64) -> (r: u64)
    requires
        4 <= backoff <= 10000,
    ensures
        r == supervisor_backoff(backoff, random),
        8 <= r < 6250,
{
    let capped = if backoff * 2 < MAX_BACKOFF_MS { backoff * 2 } else { MAX_BACKOFF_MS };
    capped + random % (capped / 4)
}

/// The next wait between attempts to connect.
pub fn next_retry_backoff(backoff: u64, random: u64) -> (r: u64)
    requires
        4 <= backoff <= 10000,
    ensures
        r == retry_backoff(backoff, random),
        8 <= r < 7500,
{
    let capped = if backoff * 2 < MAX_BACKOFF_MS { backoff * 2 } else { MAX_BACKOFF_MS };
    capped + random % (backoff / 4)
}

/// What to do after a failed attempt to connect.
#[derive(Debug, Clone, Copy, PartialEq, Eq, Structural)]
pub enum RetryStep {
    /// Give up and report the error.
    GiveUp,
    /// Wait this many milliseconds, then try again.
    WaitMs(u64),
}

/// Attempts to connect, with a growing wait between them.
pub struct RetrySchedule {
    attempt: u32,
    max_attempts: u32,
    backoff_ms: u64,
}

impl RetrySchedule {
    /// The attempt under way, from 1.
    pub closed spec fn attempt(&self) -> nat {
        self.attempt as nat
    }

    /// How many attempts are allowed.
    pub closed spec fn max_attempts(&self) -> nat {
        self.max_attempts as nat
    }

    /// The wait before the next attempt.
    pub closed spec fn backoff(&self) -> u64 {
        self.backoff_ms
    }

    /// The attempt lies within the allowed ones and the wait within its
    /// bounds.
    pub open spec fn wf(&self) -> bool {
        1 <= self.attempt() <= self.max_attempts() && 4 <= self.backoff() <= 10000
    }

    /// A schedule of `max_attempts` attempts, the first under way.
    pub fn new(max_attempts: u32) -> (r: RetrySchedule)
        requires
            max_attempts >= 1,
        ensures
            r.wf(),
            r.attempt() == 1,
            r.max_attempts() == max_attempts,
            r.backoff() == RETRY_INITIAL_BACKOFF_MS,
    {
        RetrySchedule { attempt: 1, max_attempts, backoff_ms: RETRY_INITIAL_BACKOFF_MS }
    }

    /// Decides what follows a failed attempt with `error`: give up on an
    /// error not worth retrying or after the last attempt; else wait the
    /// current back-off and move to the next attempt.
    pub fn on_failure(&mut self, error: &IpcError, random: u64) -> (r: RetryStep)
        requires
            old(self).wf(),
        ensures
            (!error.is_transient() || old(self).attempt() == old(self).max_attempts()) ==> r == RetryStep::GiveUp
                && *final(self) == *old(self),
            (error.is_transient() && old(self).attempt() < old(self).max_attempts()) ==> {
                &&& r == RetryStep::WaitMs(old(self).backoff())
                &&& final(self).wf()
                &&& final(self).attempt() == old(self).attempt() + 1
                &&& final(self).max_attempts() == old(self).max_attempts()
                &&& final(self).backoff() == retry_backoff(old(self).backoff(), random)
            },
    {
        if !error.should_retry() || self.attempt == self.max_attempts {
            return RetryStep::GiveUp;
        }
        let wait = self.backoff_ms;
        self.backoff_ms = next_retry_backoff(self.backoff_ms, random);
        self.attempt = self.attempt + 1;
        RetryStep::WaitMs(wait)
    }
}

/// The fields of the hello the client sends.
#[derive(Debug, Clone)]
pub struct HelloFields {
    pub token: String,
    pub ipc_version: String,
    pub features: Vec<String>,
    pub schema_hash: Vec<u8>,
    pub client_name: String,
    pub client_version: String,
}

/// The hello: the token (empty when none is set), IPC version "1.0", the
/// features the client supports by name, the schema hash, and the client's
/// name and version.
pub fn build_hello(token: &Option<String>, schema_hash: Vec<u8>, client_version: &str) -> (r: HelloFields)
    ensures
        r.token@ == (match token {
            Some(t) => t@,
            None => Seq::<char>::empty(),
        }),
        r.ipc_version@ == "1.0"@,
        r.features@.map_values(|t: String| t@) == client_flags().map_values(|f: FlagModel| name_of_flag(f)),
        r.schema_hash@ == schema_hash@,
        r.client_name@ == "unity-mcp-rs"@,
        r.client_version@ == client_version@,
{
    let desired = FeatureSet::supported_by_client();
    let features = desired.to_strings();
    HelloFields {
        token: match token {
            Some(t) => t.clone(),
            None => String::new(),
        },
        ipc_version: String::from_str("1.0"),
        features,
        schema_hash,
        client_name: String::from_str("unity-mcp-rs"),
        client_version: String::from_str(client_version),
    }
}

} // verus!
