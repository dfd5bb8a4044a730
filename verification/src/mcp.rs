//! The MCP side: the state of the bridge link, log and operation events,
//! and the logic of the tools.

pub mod bridge;
pub mod events;
pub mod operations;
pub mod test_runs;
pub mod diagnostics;
pub mod assets;
pub mod tools;
pub mod stdio;
