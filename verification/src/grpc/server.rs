//! Settings of the gRPC server.
use vstd::prelude::*;

verus! {

/// Default port of the gRPC server.
pub const DEFAULT_GRPC_PORT: u16 = 50051;

/// Default host of the gRPC server.
pub const DEFAULT_GRPC_HOST: &'static str = "127.0.0.1";

/// Default largest message, in bytes (4 MiB).
pub const DEFAULT_MAX_MESSAGE_SIZE: usize = 4194304;

/// Where the server listens and how large a message may be.
#[derive(Debug, Clone)]
pub struct GrpcServerConfig {
    pub host: String,
    pub port: u16,
    pub max_message_size: usize,
}

impl Default for GrpcServerConfig {
    fn default() -> (r: GrpcServerConfig)
        ensures
            r.host@ == DEFAULT_GRPC_HOST@,
            r.port == DEFAULT_GRPC_PORT,
            r.max_message_size == DEFAULT_MAX_MESSAGE_SIZE,
    {
        GrpcServerConfig {
            host: String::from_str(DEFAULT_GRPC_HOST),
            port: DEFAULT_GRPC_PORT,
            max_message_size: 4 * 1024 * 1024,
        }
    }
}

impl GrpcServerConfig {
    /// The default settings.
    pub fn new() -> (r: GrpcServerConfig)
        ensures
            r.host@ == DEFAULT_GRPC_HOST@,
            r.port == DEFAULT_GRPC_PORT,
            r.max_message_size == DEFAULT_MAX_MESSAGE_SIZE,
    {
        GrpcServerConfig::default()
    }

    /// These settings with `host`.
    pub fn with_host(self, host: &str) -> (r: GrpcServerConfig)
        ensures
            r.host@ == host@,
            r.port == self.port,
            r.max_message_size == self.max_message_size,
    {
        GrpcServerConfig { host: String::from_str(host), ..self }
    }

    /// These settings with `port`.
    pub fn with_port(self, port: u16) -> (r: GrpcServerConfig)
        ensures
            r.host == self.host,
            r.port == port,
            r.max_message_size == self.max_message_size,
    {
        GrpcServerConfig { port, ..self }
    }

    /// These settings with `size` as the largest message.
    pub fn with_max_message_size(self, size: usize) -> (r: GrpcServerConfig)
        ensures
            r.host == self.host,
            r.port == self.port,
            r.max_message_size == size,
    {
        GrpcServerConfig { max_message_size: size, ..self }
    }
}

/// Builds the settings of a server step by step.
pub struct GrpcServerBuilder {
    config: GrpcServerConfig,
}

impl GrpcServerBuilder {
    /// The settings built so far.
    pub closed spec fn settings(&self) -> GrpcServerConfig {
        self.config
    }

    /// A builder with the default settings.
    pub fn new() -> (r: GrpcServerBuilder)
        ensures
            r.settings().host@ == DEFAULT_GRPC_HOST@,
            r.settings().port == DEFAULT_GRPC_PORT,
            r.settings().max_message_size == DEFAULT_MAX_MESSAGE_SIZE,
    {
        GrpcServerBuilder { config: GrpcServerConfig::default() }
    }

    /// A builder with `config`.
    pub fn with_config(config: GrpcServerConfig) -> (r: GrpcServerBuilder)
        ensures
            r.settings() == config,
    {
        GrpcServerBuilder { config }
    }

    /// The builder with `host`.
    pub fn host(self, host: &str) -> (r: GrpcServerBuilder)
        ensures
            r.settings().host@ == host@,
            r.settings().port == self.settings().port,
            r.settings().max_message_size == self.settings().max_message_size,
    {
        GrpcServerBuilder { config: self.config.with_host(host) }
    }

    /// The builder with `port`.
    pub fn port(self, port: u16) -> (r: GrpcServerBuilder)
        ensures
            r.settings().host == self.settings().host,
            r.settings().port == port,
            r.settings().max_message_size == self.settings().max_message_size,
    {
        GrpcServerBuilder { config: self.config.with_port(port) }
    }

    /// The builder with `size` as the largest message.
    pub fn max_message_size(self, size: usize) -> (r: GrpcServerBuilder)
        ensures
            r.settings().host == self.settings().host,
            r.settings().port == self.settings().port,
            r.settings().max_message_size == size,
    {
        GrpcServerBuilder { config: self.config.with_max_message_size(size) }
    }

    /// The settings built.
    pub fn config(&self) -> (r: &GrpcServerConfig)
        ensures
            *r == self.settings(),
    {
        &self.config
    }
}

impl Default for GrpcServerBuilder {
    fn default() -> (r: GrpcServerBuilder)
        ensures
            r.settings().port == DEFAULT_GRPC_PORT,
    {
        GrpcServerBuilder::new()
    }
}

} // verus!
