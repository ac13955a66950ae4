//! The tool protocol: requests, responses, and how a connection's server
//! answers each method.
use vstd::prelude::*;

use crate::json::{get_text_member, text_member};
use crate::selection::{apply_event, replica_after, Event, SelectionState};
use crate::text::text_eq;
use crate::tools::{all_text_blocks, dispatch_tool, texts, tool_answer, TextContent};

verus! {

/// Error code of a frame that is not a request.
pub const PARSE_ERROR: i32 = -32700;

/// Error code of a method the server does not know.
pub const METHOD_NOT_FOUND: i32 = -32601;

/// Error code of a request whose handler failed.
pub const INTERNAL_ERROR: i32 = -32603;

/// A decoded request frame.
pub struct MCPRequest {
    pub jsonrpc: String,
    pub id: Option<serde_json::Value>,
    pub method: String,
    pub params: Option<serde_json::Value>,
}

/// An error answer. `details` says why a handler failed.
pub struct MCPError {
    pub code: i32,
    pub message: String,
    pub details: Option<String>,
}

#[derive(Clone, Copy, Debug, PartialEq, Eq, Structural)]
pub struct ToolsCapability {
    pub list_changed: Option<bool>,
}

#[derive(Clone, Copy, Debug, PartialEq, Eq, Structural)]
pub struct PromptsCapability {
    pub list_changed: Option<bool>,
}

#[derive(Clone, Copy, Debug, PartialEq, Eq, Structural)]
pub struct LoggingCapability {}

/// What the server declares it supports.
#[derive(Clone, Copy, Debug, PartialEq, Eq, Structural)]
pub struct ServerCapabilities {
    pub tools: Option<ToolsCapability>,
    pub prompts: Option<PromptsCapability>,
    pub logging: Option<LoggingCapability>,
}

/// The server's name and version.
pub struct ServerInfo {
    pub name: String,
    pub version: String,
}

/// A tool as the catalogue lists it.
pub struct Tool {
    pub name: String,
    pub description: Option<String>,
    pub input_schema: serde_json::Value,
}

/// The result part of a successful answer, per method.
pub enum McpResult {
    Initialize { protocol_version: String, capabilities: ServerCapabilities, server_info: ServerInfo },
    ToolsList { tools: Vec<Tool> },
    ToolsCall { content: Vec<TextContent>, is_error: bool },
    /// An empty object: the acknowledgement of `logging/setLevel`.
    Empty,
    /// No prompts.
    PromptsList,
    /// A placeholder prompt with no messages.
    PromptsGet { description: String },
}

/// An answer: it echoes the request's id and carries exactly one of a result
/// and an error.
pub struct MCPResponse {
    pub jsonrpc: String,
    pub id: Option<serde_json::Value>,
    pub result: Option<McpResult>,
    pub error: Option<MCPError>,
}

/// Why a handler failed.
#[derive(Clone, Copy, Debug, PartialEq, Eq, Structural)]
pub enum RequestError {
    MissingToolCallParams,
    MissingToolName,
    MissingPromptParams,
    MissingPromptName,
}

/// A handler failure, with the id of the request it concerns.
pub struct RequestFailure {
    pub id: Option<serde_json::Value>,
    pub error: RequestError,
}

pub open spec fn error_details(e: RequestError) -> Seq<char> {
    match e {
        RequestError::MissingToolCallParams => "Missing parameters for tools/call"@,
        RequestError::MissingToolName => "Missing tool name"@,
        RequestError::MissingPromptParams => "Missing parameters for prompts/get"@,
        RequestError::MissingPromptName => "Missing prompt name"@,
    }
}

impl RequestError {
    /// What the failure says.
    pub fn details(&self) -> (r: String)
        ensures
            r@ == error_details(*self),
    {
        match self {
            RequestError::MissingToolCallParams => String::from_str("Missing parameters for tools/call"),
            RequestError::MissingToolName => String::from_str("Missing tool name"),
            RequestError::MissingPromptParams => String::from_str("Missing parameters for prompts/get"),
            RequestError::MissingPromptName => String::from_str("Missing prompt name"),
        }
    }
}

/// The methods the server answers.
#[derive(Clone, Copy, Debug, PartialEq, Eq, Structural)]
pub enum Method {
    Initialize,
    ToolsList,
    ToolsCall,
    LoggingSetLevel,
    PromptsList,
    PromptsGet,
    Unknown,
}

pub open spec fn method_of(m: Seq<char>) -> Method {
    if m == "initialize"@ {
        Method::Initialize
    } else if m == "tools/list"@ {
        Method::ToolsList
    } else if m == "tools/call"@ {
        Method::ToolsCall
    } else if m == "logging/setLevel"@ {
        Method::LoggingSetLevel
    } else if m == "prompts/list"@ {
        Method::PromptsList
    } else if m == "prompts/get"@ {
        Method::PromptsGet
    } else {
        Method::Unknown
    }
}

/// The method that the name `m` denotes.
pub fn method_kind(m: &str) -> (r: Method)
    ensures
        r == method_of(m@),
{
    if text_eq(m, "initialize") {
        Method::Initialize
    } else if text_eq(m, "tools/list") {
        Method::ToolsList
    } else if text_eq(m, "tools/call") {
        Method::ToolsCall
    } else if text_eq(m, "logging/setLevel") {
        Method::LoggingSetLevel
    } else if text_eq(m, "prompts/list") {
        Method::PromptsList
    } else if text_eq(m, "prompts/get") {
        Method::PromptsGet
    } else {
        Method::Unknown
    }
}

/// The capabilities every connection declares.
pub open spec fn capabilities_spec() -> ServerCapabilities {
    ServerCapabilities {
        tools: Some(ToolsCapability { list_changed: Some(true) }),
        prompts: Some(PromptsCapability { list_changed: Some(false) }),
        logging: Some(LoggingCapability {  }),
    }
}

/// The capabilities every connection declares: tools whose list may change,
/// a fixed set of prompts, and logging.
pub fn create_capabilities() -> (r: ServerCapabilities)
    ensures
        r == capabilities_spec(),
{
    ServerCapabilities {
        tools: Some(ToolsCapability { list_changed: Some(true) }),
        prompts: Some(PromptsCapability { list_changed: Some(false) }),
        logging: Some(LoggingCapability {  }),
    }
}

pub open spec fn protocol_version_text() -> Seq<char> {
    "2025-03-26"@
}

pub open spec fn server_version_text() -> Seq<char> {
    "0.1.0"@
}

/// The success answer to request `id` with `result`.
pub open spec fn is_success(r: MCPResponse, id: Option<serde_json::Value>) -> bool {
    r.jsonrpc@ == "2.0"@ && r.id == id && r.error is None && r.result is Some
}

/// The error answer to request `id` with `code` and `message`.
pub open spec fn is_error(r: MCPResponse, id: Option<serde_json::Value>, code: i32, message: Seq<char>) -> bool {
    &&& r.jsonrpc@ == "2.0"@
    &&& r.id == id
    &&& r.result is None
    &&& r.error matches Some(e) && e.code == code && e.message@ == message
}

/// A successful answer to request `id` whose result satisfies `ok`.
pub open spec fn succeeds_with(
    r: Result<MCPResponse, RequestFailure>,
    id: Option<serde_json::Value>,
    ok: spec_fn(McpResult) -> bool,
) -> bool {
    match r {
        Ok(resp) => is_success(resp, id) && ok(resp.result.unwrap()),
        Err(_) => false,
    }
}

/// A handler failure for request `id`.
pub open spec fn fails_with(r: Result<MCPResponse, RequestFailure>, id: Option<serde_json::Value>, e: RequestError) -> bool {
    match r {
        Ok(_) => false,
        Err(f) => f.id == id && f.error == e,
    }
}

/// What the answer to `request` is, given the connection's selection
/// replica, workspace root and declared capabilities.
pub open spec fn answers(
    selection: Option<SelectionState>,
    worktree: Option<String>,
    capabilities: ServerCapabilities,
    server_name: String,
    request: MCPRequest,
    r: Result<MCPResponse, RequestFailure>,
) -> bool {
    let id = request.id;
    match method_of(request.method@) {
        Method::Initialize => succeeds_with(
            r,
            id,
            |res: McpResult|
                match res {
                    McpResult::Initialize { protocol_version, capabilities: c, server_info } => protocol_version@
                        == protocol_version_text() && c == capabilities && server_info.name
                        == server_name && server_info.version@ == server_version_text(),
                    _ => false,
                },
        ),
        Method::ToolsList => succeeds_with(
            r,
            id,
            |res: McpResult|
                match res {
                    McpResult::ToolsList { tools } => tools@.len() == 0,
                    _ => false,
                },
        ),
        Method::ToolsCall => match request.params {
            None => fails_with(r, id, RequestError::MissingToolCallParams),
            Some(p) => match text_member(p, "name"@) {
                None => fails_with(r, id, RequestError::MissingToolName),
                Some(name) => succeeds_with(
                    r,
                    id,
                    |res: McpResult|
                        match res {
                            McpResult::ToolsCall { content, is_error } => !is_error && texts(content@)
                                == seq![tool_answer(name, selection, worktree)] && all_text_blocks(content@),
                            _ => false,
                        },
                ),
            },
        },
        Method::LoggingSetLevel => succeeds_with(r, id, |res: McpResult| res is Empty),
        Method::PromptsList => succeeds_with(r, id, |res: McpResult| res is PromptsList),
        Method::PromptsGet => match request.params {
            None => fails_with(r, id, RequestError::MissingPromptParams),
            Some(p) => match text_member(p, "name"@) {
                None => fails_with(r, id, RequestError::MissingPromptName),
                Some(name) => succeeds_with(
                    r,
                    id,
                    |res: McpResult|
                        match res {
                            McpResult::PromptsGet { description } => description@ == "Prompt: "@ + name,
                            _ => false,
                        },
                ),
            },
        },
        Method::Unknown => match r {
            Ok(resp) => is_error(resp, id, METHOD_NOT_FOUND, "Method not found: "@ + request.method@)
                && resp.error.unwrap().details is None,
            Err(_) => false,
        },
    }
}

fn success(id: Option<serde_json::Value>, result: McpResult) -> (r: MCPResponse)
    ensures
        is_success(r, id),
        r.result == Some(result),
{
    MCPResponse { jsonrpc: String::from_str("2.0"), id, result: Some(result), error: None }
}

/// The error answer to request `id`.
pub fn error_response(id: Option<serde_json::Value>, code: i32, message: String, details: Option<String>) -> (r:
    MCPResponse)
    ensures
        is_error(r, id, code, message@),
        r.error.unwrap().details == details,
{
    MCPResponse {
        jsonrpc: String::from_str("2.0"),
        id,
        result: None,
        error: Some(MCPError { code, message, details }),
    }
}

/// The answer to a frame that is not a request: a parse error, with no id.
pub fn parse_error_response() -> (r: MCPResponse)
    ensures
        is_error(r, None, PARSE_ERROR, "Parse error"@),
        r.error.unwrap().details is None,
{
    error_response(None, PARSE_ERROR, String::from_str("Parse error"), None)
}

/// The answer to a request whose handler failed: an internal error carrying
/// the failure's details, echoing the request's id.
pub fn internal_error_response(failure: RequestFailure) -> (r: MCPResponse)
    ensures
        is_error(r, failure.id, INTERNAL_ERROR, "Internal error"@),
        r.error.unwrap().details matches Some(d) && d@ == error_details(failure.error),
{
    let details = failure.error.details();
    error_response(failure.id, INTERNAL_ERROR, String::from_str("Internal error"), Some(details))
}

/// One connection's tool server: the declared capabilities, the name it
/// introduces itself by, its private replica of the editor selection, and the
/// workspace root it reports.
pub struct MCPServer {
    pub capabilities: ServerCapabilities,
    pub name: String,
    pub selection: Option<SelectionState>,
    pub worktree: Option<String>,
}

impl MCPServer {
    /// A server named `name`, with no selection known yet and no workspace root.
    pub fn new(name: String) -> (r: MCPServer)
        ensures
            r.capabilities == capabilities_spec(),
            r.name == name,
            r.selection is None,
            r.worktree is None,
    {
        MCPServer::with_worktree(name, None)
    }

    /// A server named `name` reporting `worktree` as its workspace root.
    pub fn with_worktree(name: String, worktree: Option<String>) -> (r: MCPServer)
        ensures
            r.capabilities == capabilities_spec(),
            r.name == name,
            r.selection is None,
            r.worktree == worktree,
    {
        MCPServer { capabilities: create_capabilities(), name, selection: None, worktree }
    }

    /// Take in an event from the bus: the replica follows the latest selection.
    pub fn apply_event(&mut self, e: &Event)
        ensures
            final(self).selection == replica_after(old(self).selection, *e),
            final(self).capabilities == old(self).capabilities,
            final(self).worktree == old(self).worktree,
            final(self).name == old(self).name,
    {
        apply_event(&mut self.selection, e);
    }

    /// Answer `request`. Unknown methods get a method-not-found answer; a
    /// request missing what its method needs fails.
    pub fn handle_request(&self, request: MCPRequest) -> (r: Result<MCPResponse, RequestFailure>)
        ensures
            answers(self.selection, self.worktree, self.capabilities, self.name, request, r),
    {
        let method = method_kind(request.method.as_str());
        let MCPRequest { jsonrpc: _, id, method: method_name, params } = request;
        match method {
            Method::Initialize => {
                let info = ServerInfo {
                    name: self.name.clone(),
                    version: String::from_str("0.1.0"),
                };
                Ok(
                    success(
                        id,
                        McpResult::Initialize {
                            protocol_version: String::from_str("2025-03-26"),
                            capabilities: self.capabilities,
                            server_info: info,
                        },
                    ),
                )
            },
            Method::ToolsList => Ok(success(id, McpResult::ToolsList { tools: Vec::new() })),
            Method::ToolsCall => {
                match &params {
                    None => Err(RequestFailure { id, error: RequestError::MissingToolCallParams }),
                    Some(p) => match get_text_member(p, "name") {
                        None => Err(RequestFailure { id, error: RequestError::MissingToolName }),
                        Some(name) => {
                            let content = dispatch_tool(name.as_str(), &self.selection, &self.worktree);
                            Ok(success(id, McpResult::ToolsCall { content, is_error: false }))
                        },
                    },
                }
            },
            Method::LoggingSetLevel => Ok(success(id, McpResult::Empty)),
            Method::PromptsList => Ok(success(id, McpResult::PromptsList)),
            Method::PromptsGet => {
                match &params {
                    None => Err(RequestFailure { id, error: RequestError::MissingPromptParams }),
                    Some(p) => match get_text_member(p, "name") {
                        None => Err(RequestFailure { id, error: RequestError::MissingPromptName }),
                        Some(name) => {
                            let mut description = String::from_str("Prompt: ");
                            description.append(name.as_str());
                            Ok(success(id, McpResult::PromptsGet { description }))
                        },
                    },
                }
            },
            Method::Unknown => {
                let mut message = String::from_str("Method not found: ");
                message.append(method_name.as_str());
                Ok(error_response(id, METHOD_NOT_FOUND, message, None))
            },
        }
    }
}

} // verus!
