//! Where the Unity bridge listens, and the settings of the IPC client.
use vstd::prelude::*;

use crate::text::{chars_of, has_prefix, parse_u64, parse_u64_spec, starts_with, string_from_range};

verus! {

/// The platform the client runs on, which decides the local transports it
/// knows.
#[derive(Debug, Clone, Copy, PartialEq, Eq, Structural)]
pub enum Platform {
    Unix,
    Windows,
}

/// Where the bridge listens.
#[derive(Debug, Clone, PartialEq, Eq)]
pub enum Endpoint {
    /// A Unix domain socket, by path.
    Unix(String),
    /// A Windows named pipe, by name.
    Pipe(String),
    /// A TCP address `host:port`.
    Tcp(String),
}

/// Model of an endpoint.
pub enum EndpointModel {
    Unix(Seq<char>),
    Pipe(Seq<char>),
    Tcp(Seq<char>),
}

impl View for Endpoint {
    type V = EndpointModel;

    open spec fn view(&self) -> EndpointModel {
        match self {
            Endpoint::Unix(s) => EndpointModel::Unix(s@),
            Endpoint::Pipe(s) => EndpointModel::Pipe(s@),
            Endpoint::Tcp(s) => EndpointModel::Tcp(s@),
        }
    }
}

/// The endpoint a string names on `platform`: `unix://` (on Unix) and
/// `pipe://` (on Windows) name local transports, `tcp://` names a TCP
/// address, and any other string is taken as a TCP address itself.
pub open spec fn endpoint_of(s: Seq<char>, platform: Platform) -> EndpointModel {
    if platform == Platform::Unix && has_prefix(s, "unix://"@) {
        EndpointModel::Unix(s.skip(7))
    } else if platform == Platform::Windows && has_prefix(s, "pipe://"@) {
        EndpointModel::Pipe(s.skip(7))
    } else if has_prefix(s, "tcp://"@) {
        EndpointModel::Tcp(s.skip(6))
    } else {
        EndpointModel::Tcp(s)
    }
}

/// The endpoint the string `s` names on `platform`.
pub fn parse_endpoint_on(s: &str, platform: Platform) -> (r: Endpoint)
    ensures
        r@ == endpoint_of(s@, platform),
{
    let v = chars_of(s);
    proof {
        reveal_strlit("unix://");
        reveal_strlit("pipe://");
        reveal_strlit("tcp://");
    }
    if platform == Platform::Unix && starts_with(&v, "unix://") {
        return Endpoint::Unix(string_from_range(&v, 7, v.len()));
    }
    if platform == Platform::Windows && starts_with(&v, "pipe://") {
        return Endpoint::Pipe(string_from_range(&v, 7, v.len()));
    }
    if starts_with(&v, "tcp://") {
        return Endpoint::Tcp(string_from_range(&v, 6, v.len()));
    }
    Endpoint::Tcp(String::from_str(s))
}

/// The endpoint the string `s` names on Unix.
pub fn parse_endpoint(s: &str) -> (r: Endpoint)
    ensures
        r@ == endpoint_of(s@, Platform::Unix),
{
    parse_endpoint_on(s, Platform::Unix)
}

/// The bridge's default address.
pub open spec fn default_tcp_address() -> Seq<char> {
    "127.0.0.1:7777"@
}

/// The endpoint to use: the one configured, else TCP on port 7777 of the
/// local host.
pub fn default_endpoint_from(configured: Option<String>, platform: Platform) -> (r: Endpoint)
    ensures
        match configured {
            Some(s) => r@ == endpoint_of(s@, platform),
            None => r@ == EndpointModel::Tcp(default_tcp_address()),
        },
{
    match configured {
        Some(s) => parse_endpoint_on(s.as_str(), platform),
        None => Endpoint::Tcp(String::from_str("127.0.0.1:7777")),
    }
}

/// What `str::parse::<u32>` gives.
pub open spec fn parse_u32_spec(s: Seq<char>) -> Option<u32> {
    match parse_u64_spec(s) {
        Some(n) => if n <= u32::MAX { Some(n as u32) } else { None },
        None => None,
    }
}

/// `str::parse::<u32>`.
pub fn parse_u32(s: &str) -> (r: Option<u32>)
    ensures
        r == parse_u32_spec(s@),
{
    match parse_u64(s) {
        Some(n) => if n <= 0xffff_ffff { Some(n as u32) } else { None },
        None => None,
    }
}

/// A setting read from text, or `default` when it is missing or is not a
/// number.
pub open spec fn millis_or(text: Option<String>, default: u64) -> u64 {
    match text {
        Some(t) => match parse_u64_spec(t@) {
            Some(n) => n,
            None => default,
        },
        None => default,
    }
}

fn read_millis(text: &Option<String>, default: u64) -> (r: u64)
    ensures
        r == millis_or(*text, default),
{
    match text {
        Some(t) => match parse_u64(t.as_str()) {
            Some(n) => n,
            None => default,
        },
        None => default,
    }
}

/// Settings of the IPC client. Durations are in milliseconds.
#[derive(Debug, Clone)]
pub struct IpcConfig {
    /// The endpoint as written, such as `unix:///...`, `pipe://...` or
    /// `tcp://host:port`.
    pub endpoint: Option<String>,
    pub token: Option<String>,
    pub connect_timeout_ms: u64,
    /// How long to wait for the answer to the hello.
    pub handshake_timeout_ms: u64,
    /// How long the whole handshake may take.
    pub total_handshake_timeout_ms: u64,
    pub call_timeout_ms: u64,
    /// How many times to try to connect.
    pub max_reconnect_attempts: Option<u32>,
}

/// The texts of the settings, as the environment gives them.
#[derive(Debug, Clone)]
pub struct IpcSettingsText {
    /// Whether the client runs under continuous integration, where the
    /// timeouts are longer.
    pub is_ci: bool,
    pub endpoint: Option<String>,
    pub token: Option<String>,
    pub connect_timeout_ms: Option<String>,
    pub handshake_timeout_ms: Option<String>,
    pub total_handshake_timeout_ms: Option<String>,
    pub call_timeout_ms: Option<String>,
    pub max_reconnect_attempts: Option<String>,
}

impl IpcConfig {
    /// The settings that the texts give: each timeout is read as a number of
    /// milliseconds, with defaults of 2000 ms to connect (5000 under CI),
    /// 2000 ms for the answer to the hello, 3000 ms for the whole handshake
    /// (8000 under CI) and 4000 ms per call; 10 attempts to connect unless
    /// another number is given.
    pub fn from_settings(text: &IpcSettingsText) -> (r: IpcConfig)
        ensures
            r.endpoint == text.endpoint,
            r.token == text.token,
            r.connect_timeout_ms == millis_or(text.connect_timeout_ms, if text.is_ci { 5000 } else { 2000 }),
            r.handshake_timeout_ms == millis_or(text.handshake_timeout_ms, 2000),
            r.total_handshake_timeout_ms == millis_or(text.total_handshake_timeout_ms, if text.is_ci { 8000 } else { 3000 }),
            r.call_timeout_ms == millis_or(text.call_timeout_ms, 4000),
            r.max_reconnect_attempts == Some(match text.max_reconnect_attempts {
                Some(t) => match parse_u32_spec(t@) {
                    Some(n) => n,
                    None => 10u32,
                },
                None => 10u32,
            }),
    {
        let attempts = match &text.max_reconnect_attempts {
            Some(t) => match parse_u32(t.as_str()) {
                Some(n) => n,
                None => 10,
            },
            None => 10,
        };
        IpcConfig {
            endpoint: text.endpoint.clone(),
            token: text.token.clone(),
            connect_timeout_ms: read_millis(&text.connect_timeout_ms, if text.is_ci { 5000 } else { 2000 }),
            handshake_timeout_ms: read_millis(&text.handshake_timeout_ms, 2000),
            total_handshake_timeout_ms: read_millis(&text.total_handshake_timeout_ms, if text.is_ci { 8000 } else { 3000 }),
            call_timeout_ms: read_millis(&text.call_timeout_ms, 4000),
            max_reconnect_attempts: Some(attempts),
        }
    }
}

} // verus!
