[package]
name = "unity_mcp"
version = "0.1.0"
edition = "2021"
publish = false

[dependencies]
regex = "1"
lru = "*"
flate2 = "1"
uuid = { version = "1", features = ["v4"] }
rand = "*"
chrono = "0.4"
serde = { version = "1", features = ["derive"] }
serde_json = "1"
tokio = { version = "1", features = ["rt-multi-thread", "macros", "net", "io-util", "time", "sync"] }
tokio-util = { version = "*", features = ["codec"] }
tokio-stream = "*"
bytes = "1"
futures = "0.3"
prost = "*"
thiserror = "*"
anyhow = "1"
tracing = "*"
tonic = { version = "*", default-features = false }
num_cpus = "1"
rmcp = { version = "*", features = ["server", "transport-io"] }
async-trait = "*"
