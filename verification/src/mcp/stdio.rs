//! The decisions of the sample JSON-RPC server and client that talk over
//! standard input and output.
use vstd::prelude::*;

use crate::text::{concat2, concat3, str_eq};

verus! {

/// The sample server's name, version and tools (by name).
#[derive(Debug, Clone)]
pub struct ServerConfig {
    pub name: String,
    pub version: String,
    pub tools: Vec<String>,
}

impl ServerConfig {
    /// "MCP Server" 1.0.0 with no tool.
    pub fn new() -> (r: ServerConfig)
        ensures
            r.name@ == "MCP Server"@,
            r.version@ == "1.0.0"@,
            r.tools@.len() == 0,
    {
        ServerConfig { name: String::from_str("MCP Server"), version: String::from_str("1.0.0"), tools: Vec::new() }
    }

    /// These settings with `name`.
    pub fn with_name(self, name: &str) -> (r: ServerConfig)
        ensures
            r.name@ == name@,
            r.version == self.version,
            r.tools == self.tools,
    {
        ServerConfig { name: String::from_str(name), ..self }
    }

    /// These settings with `version`.
    pub fn with_version(self, version: &str) -> (r: ServerConfig)
        ensures
            r.name == self.name,
            r.version@ == version@,
            r.tools == self.tools,
    {
        ServerConfig { version: String::from_str(version), ..self }
    }

    /// These settings with one more tool, named `tool`.
    pub fn with_tool(self, tool: String) -> (r: ServerConfig)
        ensures
            r.name == self.name,
            r.version == self.version,
            r.tools@ == self.tools@.push(tool),
    {
        let mut s = self;
        s.tools.push(tool);
        s
    }
}

/// Whether one of `names` is `name`.
pub open spec fn names_contain(names: Seq<String>, name: Seq<char>) -> bool {
    exists|i: int| 0 <= i < names.len() && (#[trigger] names[i])@ == name
}

fn contains_name(names: &Vec<String>, name: &str) -> (r: bool)
    ensures
        r == names_contain(names@, name@),
{
    let mut i: usize = 0;
    while i < names.len()
        invariant
            i <= names@.len(),
            forall|k: int| 0 <= k < i ==> (#[trigger] names@[k])@ != name@,
        decreases names.len() - i,
    {
        if str_eq(names[i].as_str(), name) {
            return true;
        }
        i = i + 1;
    }
    false
}

/// The tools of a server and which have handlers.
pub struct ToolRegistry {
    config: ServerConfig,
    handlers: Vec<String>,
}

impl ToolRegistry {
    /// The settings.
    pub closed spec fn settings(&self) -> ServerConfig {
        self.config
    }

    /// The tools with handlers, in the order registered.
    pub closed spec fn handled(&self) -> Seq<String> {
        self.handlers@
    }

    /// A registry for `config` with no handler.
    pub fn new(config: ServerConfig) -> (r: ToolRegistry)
        ensures
            r.settings() == config,
            r.handled().len() == 0,
    {
        ToolRegistry { config, handlers: Vec::new() }
    }

    /// Registers a handler for `tool_name`; refused unless the settings
    /// name that tool.
    pub fn register_tool_handler(&mut self, tool_name: &str) -> (r: Result<(), String>)
        ensures
            final(self).settings() == old(self).settings(),
            names_contain(old(self).settings().tools@, tool_name@) ==> r is Ok
                && final(self).handled().len() == old(self).handled().len() + 1
                && final(self).handled().last()@ == tool_name@
                && final(self).handled().drop_last() == old(self).handled(),
            !names_contain(old(self).settings().tools@, tool_name@) ==> (r matches Err(m)
                && m@ == "Tool '"@ + tool_name@ + "' not found in server configuration"@)
                && final(self).handled() == old(self).handled(),
    {
        if !contains_name(&self.config.tools, tool_name) {
            return Err(concat3("Tool '", tool_name, "' not found in server configuration"));
        }
        self.handlers.push(String::from_str(tool_name));
        Ok(())
    }

    /// Whether `tool_name` has a handler.
    pub fn has_handler(&self, tool_name: &str) -> (r: bool)
        ensures
            r == names_contain(self.handled(), tool_name@),
    {
        contains_name(&self.handlers, tool_name)
    }

    /// The tool a call asks for: refused when the call has no parameters,
    /// no tool name, or names a tool without a handler.
    pub fn tool_call_target(&self, has_params: bool, tool_name: Option<&str>) -> (r: Result<String, String>)
        ensures
            !has_params ==> (r matches Err(m) && m@ == "Missing parameters in tool call request"@),
            has_params && tool_name is None ==> (r matches Err(m) && m@ == "Missing tool name in parameters"@),
            has_params ==> (tool_name matches Some(t) ==> if names_contain(self.handled(), t@) {
                r matches Ok(name) && name@ == t@
            } else {
                r matches Err(m) && m@ == "No handler registered for tool '"@ + t@ + "'"@
            }),
    {
        if !has_params {
            return Err(String::from_str("Missing parameters in tool call request"));
        }
        match tool_name {
            None => Err(String::from_str("Missing tool name in parameters")),
            Some(t) => if self.has_handler(t) {
                Ok(String::from_str(t))
            } else {
                Err(concat3("No handler registered for tool '", t, "'"))
            },
        }
    }
}

/// What the server does with a request.
#[derive(Debug, Clone, PartialEq, Eq)]
pub enum ServerStep {
    /// Answer with the server's name, version and tools.
    Initialize,
    /// Run a tool.
    ToolCall,
    /// Answer, close the transport and stop.
    Shutdown,
    /// Answer with an error of this code and message.
    Error { code: i32, message: String },
}

/// The code of an unknown method.
pub const METHOD_NOT_FOUND: i32 = -32601;

/// The code of a tool that failed.
pub const TOOL_FAILED: i32 = -32000;

/// What the server does with a request of `method`.
pub fn dispatch(method: &str) -> (r: ServerStep)
    ensures
        method@ == "initialize"@ ==> r == ServerStep::Initialize,
        method@ == "tool_call"@ ==> r == ServerStep::ToolCall,
        method@ == "shutdown"@ ==> r == ServerStep::Shutdown,
        method@ != "initialize"@ && method@ != "tool_call"@ && method@ != "shutdown"@ ==> (r matches ServerStep::Error { code, message }
            && code == METHOD_NOT_FOUND && message@ == "Method not found: "@ + method@),
{
    proof {
        reveal_strlit("initialize");
        reveal_strlit("tool_call");
        reveal_strlit("shutdown");
        assert("initialize"@.len() == 10 && "tool_call"@.len() == 9 && "shutdown"@.len() == 8);
    }
    if str_eq(method, "initialize") {
        ServerStep::Initialize
    } else if str_eq(method, "tool_call") {
        ServerStep::ToolCall
    } else if str_eq(method, "shutdown") {
        ServerStep::Shutdown
    } else {
        ServerStep::Error { code: METHOD_NOT_FOUND, message: concat2("Method not found: ", method) }
    }
}

/// The error answered for a tool that failed with the text `error`.
pub fn tool_failure(error: &str) -> (r: ServerStep)
    ensures
        r matches ServerStep::Error { code, message } && code == TOOL_FAILED
            && message@ == "Tool execution failed: "@ + error@,
{
    ServerStep::Error { code: TOOL_FAILED, message: concat2("Tool execution failed: ", error) }
}

/// The sample `hello` tool: greets `name`, refused without one.
pub fn hello_tool(name: Option<&str>) -> (r: Result<String, String>)
    ensures
        match name {
            Some(n) => r matches Ok(m) && m@ == "Hello, "@ + n@ + "!"@,
            None => r matches Err(e) && e@ == "Missing name parameter"@,
        },
{
    match name {
        Some(n) => Ok(concat3("Hello, ", n, "!")),
        None => Err(String::from_str("Missing name parameter")),
    }
}

/// The ids of a client's requests: 1, 2, 3, ...
pub struct RequestIds {
    next: i64,
}

impl RequestIds {
    /// The next id.
    pub closed spec fn next(&self) -> i64 {
        self.next
    }

    /// Ids from 1.
    pub fn new() -> (r: RequestIds)
        ensures
            r.next() == 1,
    {
        RequestIds { next: 1 }
    }

    /// The next id, counting on.
    pub fn next_request_id(&mut self) -> (r: i64)
        requires
            old(self).next() < i64::MAX,
        ensures
            r == old(self).next(),
            final(self).next() == old(self).next() + 1,
    {
        let id = self.next;
        self.next = self.next + 1;
        id
    }
}

/// The kind of message a client receives.
#[derive(Debug, Clone, Copy, PartialEq, Eq, Structural)]
pub enum ReplyKind {
    Response,
    Error,
    Other,
}

/// Decides a reply at `stage` ("Initialization", "Tool call" or
/// "Shutdown"): a response is success; an error is the stage's failure
/// with the error as its `Debug` writes it; anything else is unexpected.
pub fn client_reply_outcome(stage: &str, kind: ReplyKind, error_debug: &str) -> (r: Result<(), String>)
    ensures
        kind == ReplyKind::Response ==> r is Ok,
        kind == ReplyKind::Error ==> (r matches Err(m) && m@ == stage@ + " failed: "@ + error_debug@),
        kind == ReplyKind::Other ==> (r matches Err(m) && m@ == "Unexpected response type"@),
{
    match kind {
        ReplyKind::Response => Ok(()),
        ReplyKind::Error => Err(concat3(stage, " failed: ", error_debug)),
        ReplyKind::Other => Err(String::from_str("Unexpected response type")),
    }
}

} // verus!
