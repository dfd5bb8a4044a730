//! Settings of the server: where the Unity bridge is and how long to wait
//! for its health check.
use vstd::prelude::*;

use crate::clock::duration_from_millis;
use crate::text::{parse_u64, parse_u64_spec};

verus! {

/// What `str::parse::<u16>` gives.
pub open spec fn parse_u16_spec(s: Seq<char>) -> Option<u16> {
    match parse_u64_spec(s) {
        Some(n) => if n <= u16::MAX { Some(n as u16) } else { None },
        None => None,
    }
}

/// `str::parse::<u16>`.
pub fn parse_u16(s: &str) -> (r: Option<u16>)
    ensures
        r == parse_u16_spec(s@),
{
    match parse_u64(s) {
        Some(n) => if n <= 0xffff { Some(n as u16) } else { None },
        None => None,
    }
}

/// Where the bridge listens and how long its health check may take.
#[derive(Clone, Debug)]
pub struct BridgeConfig {
    pub host: String,
    pub port: u16,
    pub health_timeout_ms: u64,
}

/// The texts of the bridge settings, as the environment gives them.
#[derive(Clone, Debug)]
pub struct BridgeSettingsText {
    /// `MCP_BRIDGE_HOST`.
    pub mcp_host: Option<String>,
    /// `UNITY_BRIDGE_HOST`, read when the first is not set.
    pub unity_host: Option<String>,
    /// `MCP_BRIDGE_PORT`.
    pub mcp_port: Option<String>,
    /// `UNITY_BRIDGE_PORT`, read when the first is not set.
    pub unity_port: Option<String>,
    /// `UNITY_HEALTH_TIMEOUT_MS`.
    pub health_timeout_ms: Option<String>,
}

/// The first of two settings that is set.
pub open spec fn first_set(a: Option<String>, b: Option<String>) -> Option<String> {
    if a is Some { a } else { b }
}

impl BridgeConfig {
    /// The settings the texts give: the host, else 127.0.0.1; the port if
    /// its text is a number below 65536, else 50051; the health timeout if
    /// its text is a number, else 2000 ms. The second name of a setting is
    /// read only when the first is not set at all.
    pub fn from_settings(text: &BridgeSettingsText) -> (r: BridgeConfig)
        ensures
            r.host@ == (match first_set(text.mcp_host, text.unity_host) {
                Some(h) => h@,
                None => "127.0.0.1"@,
            }),
            r.port == (match first_set(text.mcp_port, text.unity_port) {
                Some(p) => match parse_u16_spec(p@) {
                    Some(n) => n,
                    None => 50051u16,
                },
                None => 50051u16,
            }),
            r.health_timeout_ms == (match text.health_timeout_ms {
                Some(t) => match parse_u64_spec(t@) {
                    Some(n) => n,
                    None => 2000u64,
                },
                None => 2000u64,
            }),
    {
        let host = match &text.mcp_host {
            Some(h) => h.clone(),
            None => match &text.unity_host {
                Some(h) => h.clone(),
                None => String::from_str("127.0.0.1"),
            },
        };
        let port_text = match &text.mcp_port {
            Some(p) => Some(p),
            None => match &text.unity_port {
                Some(p) => Some(p),
                None => None,
            },
        };
        let port = match port_text {
            Some(p) => match parse_u16(p.as_str()) {
                Some(n) => n,
                None => 50051,
            },
            None => 50051,
        };
        let health_timeout_ms = match &text.health_timeout_ms {
            Some(t) => match parse_u64(t.as_str()) {
                Some(n) => n,
                None => 2000,
            },
            None => 2000,
        };
        BridgeConfig { host, port, health_timeout_ms }
    }

    /// Settings with the given values.
    pub fn with_values(host: String, port: u16, health_timeout_ms: u64) -> (r: BridgeConfig)
        ensures
            r.host == host,
            r.port == port,
            r.health_timeout_ms == health_timeout_ms,
    {
        BridgeConfig { host, port, health_timeout_ms }
    }
}

/// Settings of the server.
#[derive(Clone, Debug)]
pub struct ServerConfig {
    pub bridge: BridgeConfig,
}

impl ServerConfig {
    /// Settings with the given bridge settings.
    pub fn with_bridge_config(bridge: BridgeConfig) -> (r: ServerConfig)
        ensures
            r.bridge == bridge,
    {
        ServerConfig { bridge }
    }

    /// How long the bridge's health check may take, in milliseconds.
    pub fn health_timeout_ms(&self) -> (r: u64)
        ensures
            r == self.bridge.health_timeout_ms,
    {
        self.bridge.health_timeout_ms
    }

    /// How long the bridge's health check may take.
    pub fn health_timeout(&self) -> (r: std::time::Duration)
        ensures
            crate::clock::duration_millis(r) == self.bridge.health_timeout_ms,
    {
        duration_from_millis(self.bridge.health_timeout_ms)
    }
}

} // verus!
