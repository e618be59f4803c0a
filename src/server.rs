//! The server's per-line step: framing, request decoding, the handshake
//! gate and method dispatch.
//!
//! Each input line is turned into a [`Step`]: nothing to send, a response
//! line, or a tool call whose filesystem and selection work the caller
//! performs before it turns the tool's result into a line with
//! [`tool_reply`].
use vstd::prelude::*;
use vstd::utf8::{valid_utf8, decode_utf8};
use crate::config::ServerConfig;
use crate::error::{McpErrorCode, McpErrorResponse, domain_error_text};
use crate::json::{parse_json, parsed_json, json_quoted, signed_decimal};
use crate::paths::{check_cache_name, is_refused_name};
use crate::resolve::check_budget;
use crate::request::{
    InspectCacheParams, JsonRpcRequest, ResolveContextParams, RpcId, ToolCallParams,
    spec_inspect_params, spec_request, spec_resolve_params, spec_tool_call,
};
use crate::response::{
    INVALID_PARAMS, INVALID_REQUEST, JsonRpcError, JsonRpcResponse, METHOD_NOT_FOUND, PARSE_ERROR,
    ToolResult, content_text, contents_text, id_text, is_single_text, tool_result_text,
};
use crate::text::{text_eq, trim, trimmed, utf8_text};

verus! {

/// The largest frame accepted, line end included.
pub const MAX_MESSAGE_BYTES: usize = 1048576;

/// Work that a tool call needs done outside: the cache names in it have
/// been screened already.
#[derive(Clone, Debug)]
pub enum ToolWork {
    ListCaches,
    InspectCache { cache: String },
    Resolve { cache: String, query: String, budget: u64 },
}

/// A tool call to be carried out, with the id to answer under.
#[derive(Clone, Debug)]
pub struct ToolCall {
    pub id: Option<RpcId>,
    pub work: ToolWork,
}

/// What to do about one input line.
#[derive(Clone, Debug)]
pub enum Step {
    /// Send nothing.
    Skip,
    /// Send this line.
    Reply(String),
    /// Carry out the tool call, then send [`tool_reply`] of its result.
    Call(ToolCall),
}

/// Tool work as plain values.
pub enum WorkView {
    ListCaches,
    InspectCache(Seq<char>),
    Resolve(Seq<char>, Seq<char>, u64),
}

/// A step as plain values.
pub enum StepView {
    Skip,
    Reply(Seq<char>),
    Call(Option<RpcId>, WorkView),
}

/// Tool work as plain values.
pub open spec fn work_view(w: ToolWork) -> WorkView {
    match w {
        ToolWork::ListCaches => WorkView::ListCaches,
        ToolWork::InspectCache { cache } => WorkView::InspectCache(cache@),
        ToolWork::Resolve { cache, query, budget } => WorkView::Resolve(cache@, query@, budget),
    }
}

/// A step as plain values.
pub open spec fn step_view(s: Step) -> StepView {
    match s {
        Step::Skip => StepView::Skip,
        Step::Reply(t) => StepView::Reply(t@),
        Step::Call(c) => StepView::Call(c.id, work_view(c.work)),
    }
}

/// The `initialize` result: protocol version, capabilities, server name
/// and version.
pub open spec fn init_result_text() -> Seq<char> {
    "{\"capabilities\":{\"tools\":{}},\"protocolVersion\":\"2024-11-05\",\"serverInfo\":{\"name\":\"mcp-context-server\",\"version\":\"0.1.0\"}}"@
}

/// The `tools/list` result: the three tools and their parameter schemas.
pub open spec fn tool_catalog_text() -> Seq<char> {
    "{\"tools\":[{\"description\":\"Resolve context from a cache using a query and token budget\",\"inputSchema\":{\"properties\":{\"budget\":{\"description\":\"Maximum token budget for selected context\",\"minimum\":0,\"type\":\"integer\"},\"cache\":{\"description\":\"Cache directory name (relative to CONTEXT_CACHE_ROOT)\",\"type\":\"string\"},\"query\":{\"description\":\"Search query for context selection\",\"type\":\"string\"}},\"required\":[\"cache\",\"query\",\"budget\"],\"type\":\"object\"},\"name\":\"context.resolve\"},{\"description\":\"List available context caches under the server's cache root\",\"inputSchema\":{\"properties\":{},\"type\":\"object\"},\"name\":\"context.list_caches\"},{\"description\":\"Inspect cache structure, metadata, and validity\",\"inputSchema\":{\"properties\":{\"cache\":{\"description\":\"Cache directory name (relative to CONTEXT_CACHE_ROOT)\",\"type\":\"string\"}},\"required\":[\"cache\"],\"type\":\"object\"},\"name\":\"context.inspect_cache\"}]}"@
}

fn init_result() -> (r: &'static str)
    ensures
        r@ == init_result_text(),
{
    "{\"capabilities\":{\"tools\":{}},\"protocolVersion\":\"2024-11-05\",\"serverInfo\":{\"name\":\"mcp-context-server\",\"version\":\"0.1.0\"}}"
}

fn tool_catalog() -> (r: &'static str)
    ensures
        r@ == tool_catalog_text(),
{
    "{\"tools\":[{\"description\":\"Resolve context from a cache using a query and token budget\",\"inputSchema\":{\"properties\":{\"budget\":{\"description\":\"Maximum token budget for selected context\",\"minimum\":0,\"type\":\"integer\"},\"cache\":{\"description\":\"Cache directory name (relative to CONTEXT_CACHE_ROOT)\",\"type\":\"string\"},\"query\":{\"description\":\"Search query for context selection\",\"type\":\"string\"}},\"required\":[\"cache\",\"query\",\"budget\"],\"type\":\"object\"},\"name\":\"context.resolve\"},{\"description\":\"List available context caches under the server's cache root\",\"inputSchema\":{\"properties\":{},\"type\":\"object\"},\"name\":\"context.list_caches\"},{\"description\":\"Inspect cache structure, metadata, and validity\",\"inputSchema\":{\"properties\":{\"cache\":{\"description\":\"Cache directory name (relative to CONTEXT_CACHE_ROOT)\",\"type\":\"string\"}},\"required\":[\"cache\"],\"type\":\"object\"},\"name\":\"context.inspect_cache\"}]}"
}

/// The id member of a response, if the request had an id.
pub open spec fn id_part(id: Option<RpcId>) -> Seq<char> {
    match id {
        Some(i) => ",\"id\":"@ + id_text(i),
        None => Seq::empty(),
    }
}

/// The line of a successful response.
pub open spec fn success_line(id: Option<RpcId>, result: Seq<char>) -> Seq<char> {
    "{\"jsonrpc\":"@ + json_quoted("2.0"@) + id_part(id) + ",\"result\":"@ + result + "}"@
        + "\n"@
}

/// The line of a protocol error response without data.
pub open spec fn error_line(id: Option<RpcId>, code: i32, message: Seq<char>) -> Seq<char> {
    "{\"jsonrpc\":"@ + json_quoted("2.0"@) + id_part(id) + ",\"error\":"@ + "{\"code\":"@
        + signed_decimal(code as int) + ",\"message\":"@ + json_quoted(message) + "}"@ + "}"@
        + "\n"@
}

/// A protocol error: answered when the request has an id, and not at all
/// for a notification.
pub open spec fn error_step(id: Option<RpcId>, code: i32, message: Seq<char>) -> StepView {
    match id {
        None => StepView::Skip,
        Some(_) => StepView::Reply(error_line(id, code, message)),
    }
}

/// The wire text of a tool result of one text block.
pub open spec fn single_tool_text(text: Seq<char>, is_error: bool) -> Seq<char> {
    "{\"content\":["@ + "{\"text\":"@ + json_quoted(text) + ",\"type\":"@ + json_quoted("text"@)
        + "}"@ + "]"@ + if is_error {
        ",\"isError\":true"@
    } else {
        Seq::empty()
    } + "}"@
}

/// The reply to a tool call that failed with the given text.
pub open spec fn tool_failure(id: Option<RpcId>, text: Seq<char>) -> StepView {
    StepView::Reply(success_line(id, single_tool_text(text, true)))
}

/// The step for a `tools/call` of a known shape.
pub open spec fn spec_tool(id: Option<RpcId>, tc: ToolCallParams) -> StepView {
    let name = tc.name@;
    if name == "context.resolve"@ {
        match tc.arguments {
            None => tool_failure(id, "Missing arguments for context.resolve"@),
            Some(a) => match spec_resolve_params(a) {
                Err(why) => tool_failure(id, "Invalid arguments for context.resolve: "@ + why),
                Ok(p) => if p.budget < 0 {
                    tool_failure(id, domain_error_text(McpErrorCode::InvalidBudget))
                } else if is_refused_name(p.cache@) {
                    tool_failure(id, domain_error_text(McpErrorCode::CacheMissing))
                } else {
                    StepView::Call(id, WorkView::Resolve(p.cache@, p.query@, p.budget as u64))
                },
            },
        }
    } else if name == "context.list_caches"@ {
        StepView::Call(id, WorkView::ListCaches)
    } else if name == "context.inspect_cache"@ {
        match tc.arguments {
            None => tool_failure(id, "Missing arguments for context.inspect_cache"@),
            Some(a) => match spec_inspect_params(a) {
                Err(why) => tool_failure(
                    id,
                    "Invalid arguments for context.inspect_cache: "@ + why,
                ),
                Ok(p) => if is_refused_name(p.cache@) {
                    tool_failure(id, domain_error_text(McpErrorCode::CacheMissing))
                } else {
                    StepView::Call(id, WorkView::InspectCache(p.cache@))
                },
            },
        }
    } else {
        tool_failure(id, "Unknown tool: "@ + name)
    }
}

/// The step for a request admitted by the handshake gate.
pub open spec fn spec_dispatch(req: JsonRpcRequest) -> StepView {
    let id = req.id;
    let m = req.method@;
    if m == "initialize"@ {
        StepView::Reply(success_line(id, init_result_text()))
    } else if m == "notifications/initialized"@ {
        StepView::Skip
    } else if m == "ping"@ {
        StepView::Reply(success_line(id, "{}"@))
    } else if m == "tools/list"@ {
        StepView::Reply(success_line(id, tool_catalog_text()))
    } else if m == "tools/call"@ {
        match req.params {
            None => error_step(id, INVALID_PARAMS, "Missing params for tools/call"@),
            Some(p) => match spec_tool_call(p) {
                Err(why) => error_step(id, INVALID_PARAMS, "Invalid tools/call params: "@ + why),
                Ok(tc) => spec_tool(id, tc),
            },
        }
    } else {
        error_step(id, METHOD_NOT_FOUND, "Method not found: "@ + m)
    }
}

/// The handshake gate and dispatch: the new handshake flag and the step.
/// Before the handshake only `initialize` is admitted; a refused request is
/// answered when it has an id and dropped when it has none. The flag is
/// set once `initialize` has been dispatched.
pub open spec fn spec_gate(initialized: bool, req: JsonRpcRequest) -> (bool, StepView) {
    if req.jsonrpc@ != "2.0"@ {
        (initialized, error_step(req.id, INVALID_REQUEST, "Invalid Request"@))
    } else if !initialized && req.method@ != "initialize"@ {
        (initialized, error_step(req.id, INVALID_REQUEST, "Server not initialized"@))
    } else {
        (initialized || req.method@ == "initialize"@, spec_dispatch(req))
    }
}

/// The line that answers a frame that is no request.
pub open spec fn parse_error_line() -> Seq<char> {
    error_line(None, PARSE_ERROR, "Parse error"@)
}

/// The request that a frame holds, if it holds one.
pub open spec fn line_request(raw: Seq<u8>) -> Option<JsonRpcRequest> {
    if raw.len() > MAX_MESSAGE_BYTES || !valid_utf8(raw) {
        None
    } else {
        match parsed_json(trimmed(decode_utf8(raw))) {
            Some(j) => spec_request(j),
            None => None,
        }
    }
}

/// The effect of one frame: the new handshake flag and the step. An
/// oversized frame, one that is not UTF-8, not JSON or not a request is
/// answered with a parse error; a blank frame is skipped.
pub open spec fn spec_line(initialized: bool, raw: Seq<u8>) -> (bool, StepView) {
    if raw.len() > MAX_MESSAGE_BYTES || !valid_utf8(raw) {
        (initialized, StepView::Reply(parse_error_line()))
    } else if trimmed(decode_utf8(raw)).len() == 0 {
        (initialized, StepView::Skip)
    } else {
        match line_request(raw) {
            None => (initialized, StepView::Reply(parse_error_line())),
            Some(req) => spec_gate(initialized, req),
        }
    }
}

/// The line of a successful response.
fn success_reply(id: Option<RpcId>, result: String) -> (r: String)
    ensures
        r@ == success_line(id, result@),
{
    let resp = JsonRpcResponse::success(id, result);
    let line = resp.to_line();
    assert(line@ =~= success_line(id, result@));
    line
}

/// The line of a protocol error response.
fn error_reply(id: Option<RpcId>, error: JsonRpcError) -> (r: String)
    requires
        error.data is None,
    ensures
        r@ == error_line(id, error.code, error.message@),
{
    let resp = JsonRpcResponse::error(id, error);
    let line = resp.to_line();
    assert(line@ =~= error_line(id, error.code, error.message@));
    line
}

/// A protocol error step: silent for a notification.
fn error_step_for(id: Option<RpcId>, error: JsonRpcError) -> (r: Step)
    requires
        error.data is None,
    ensures
        step_view(r) == error_step(id, error.code, error.message@),
{
    match id {
        None => Step::Skip,
        Some(i) => Step::Reply(error_reply(Some(i), error)),
    }
}

proof fn lemma_single_text(t: ToolResult, text: Seq<char>, is_error: bool)
    requires
        is_single_text(t, text, is_error),
    ensures
        tool_result_text(t) =~= single_tool_text(text, is_error),
{
    assert(contents_text(t.content@) == content_text(t.content@[0]));
}

/// The line that answers a tool call with its result.
pub fn tool_reply(id: Option<RpcId>, result: &ToolResult) -> (r: String)
    ensures
        r@ == success_line(id, tool_result_text(*result)),
{
    success_reply(id, result.to_json())
}

fn tool_failure_reply(id: Option<RpcId>, text: String) -> (r: Step)
    ensures
        step_view(r) == tool_failure(id, text@),
{
    let result = ToolResult::error(text);
    proof {
        lemma_single_text(result, text@, true);
    }
    Step::Reply(tool_reply(id, &result))
}

fn domain_failure_reply(id: Option<RpcId>, e: McpErrorResponse) -> (r: Step)
    requires
        e.is_canonical(),
    ensures
        step_view(r) == tool_failure(id, domain_error_text(e.error.code)),
{
    let result = ToolResult::from_mcp(e);
    proof {
        lemma_single_text(result, e.spec_json() + "\n"@, true);
    }
    Step::Reply(tool_reply(id, &result))
}

/// The step for a `tools/call` of a known shape.
pub fn dispatch_tool_call(id: Option<RpcId>, tc: ToolCallParams) -> (r: Step)
    ensures
        step_view(r) == spec_tool(id, tc),
{
    let ghost g = tc;
    let ToolCallParams { name, arguments } = tc;
    if text_eq(name.as_str(), "context.resolve") {
        let args = match arguments {
            None => {
                return tool_failure_reply(
                    id,
                    String::from_str("Missing arguments for context.resolve"),
                );
            },
            Some(a) => a,
        };
        let p = match ResolveContextParams::from_json(args) {
            Err(why) => {
                let text = String::from_str("Invalid arguments for context.resolve: ").concat(
                    why.as_str(),
                );
                return tool_failure_reply(id, text);
            },
            Ok(p) => p,
        };
        let budget = match check_budget(p.budget) {
            Err(e) => {
                return domain_failure_reply(id, e);
            },
            Ok(b) => b,
        };
        match check_cache_name(p.cache.as_str()) {
            Err(e) => domain_failure_reply(id, e),
            Ok(()) => Step::Call(
                ToolCall { id, work: ToolWork::Resolve { cache: p.cache, query: p.query, budget } },
            ),
        }
    } else if text_eq(name.as_str(), "context.list_caches") {
        Step::Call(ToolCall { id, work: ToolWork::ListCaches })
    } else if text_eq(name.as_str(), "context.inspect_cache") {
        let args = match arguments {
            None => {
                return tool_failure_reply(
                    id,
                    String::from_str("Missing arguments for context.inspect_cache"),
                );
            },
            Some(a) => a,
        };
        let p = match InspectCacheParams::from_json(args) {
            Err(why) => {
                let text = String::from_str("Invalid arguments for context.inspect_cache: ").concat(
                    why.as_str(),
                );
                return tool_failure_reply(id, text);
            },
            Ok(p) => p,
        };
        match check_cache_name(p.cache.as_str()) {
            Err(e) => domain_failure_reply(id, e),
            Ok(()) => Step::Call(ToolCall { id, work: ToolWork::InspectCache { cache: p.cache } }),
        }
    } else {
        let text = String::from_str("Unknown tool: ").concat(name.as_str());
        tool_failure_reply(id, text)
    }
}

/// Routes a request admitted by the handshake gate.
pub fn dispatch(req: JsonRpcRequest) -> (r: Step)
    ensures
        step_view(r) == spec_dispatch(req),
{
    let JsonRpcRequest { jsonrpc, id, method, params } = req;
    if text_eq(method.as_str(), "initialize") {
        Step::Reply(success_reply(id, String::from_str(init_result())))
    } else if text_eq(method.as_str(), "notifications/initialized") {
        Step::Skip
    } else if text_eq(method.as_str(), "ping") {
        Step::Reply(success_reply(id, String::from_str("{}")))
    } else if text_eq(method.as_str(), "tools/list") {
        Step::Reply(success_reply(id, String::from_str(tool_catalog())))
    } else if text_eq(method.as_str(), "tools/call") {
        let p = match params {
            None => {
                return error_step_for(
                    id,
                    JsonRpcError::invalid_params("Missing params for tools/call"),
                );
            },
            Some(p) => p,
        };
        match ToolCallParams::from_json(p) {
            Err(why) => {
                let message = String::from_str("Invalid tools/call params: ").concat(why.as_str());
                error_step_for(id, JsonRpcError::invalid_params(message.as_str()))
            },
            Ok(tc) => dispatch_tool_call(id, tc),
        }
    } else {
        error_step_for(id, JsonRpcError::method_not_found(method.as_str()))
    }
}

/// A server for one connection: its configuration and its handshake flag.
#[derive(Clone, Debug)]
pub struct McpServer {
    config: ServerConfig,
    initialized: bool,
}

impl McpServer {
    /// The handshake flag.
    pub closed spec fn ready(&self) -> bool {
        self.initialized
    }

    /// The configuration.
    pub closed spec fn spec_config(&self) -> ServerConfig {
        self.config
    }

    /// The configuration.
    pub fn config(&self) -> (r: &ServerConfig)
        ensures
            *r == self.spec_config(),
    {
        &self.config
    }

    /// A server that has not seen `initialize` yet.
    pub fn new(config: ServerConfig) -> (r: Self)
        ensures
            r.spec_config() == config,
            !r.ready(),
    {
        McpServer { config, initialized: false }
    }

    /// Whether `initialize` has been dispatched.
    pub fn is_initialized(&self) -> (r: bool)
        ensures
            r == self.ready(),
    {
        self.initialized
    }

    /// Handles one frame read from the input, line end included.
    pub fn handle_line(&mut self, raw: &[u8]) -> (r: Step)
        ensures
            (final(self).ready(), step_view(r)) == spec_line(old(self).ready(), raw@),
            final(self).spec_config() == old(self).spec_config(),
    {
        if raw.len() > MAX_MESSAGE_BYTES {
            return Step::Reply(error_reply(None, JsonRpcError::parse_error()));
        }
        let text = match utf8_text(raw) {
            None => {
                return Step::Reply(error_reply(None, JsonRpcError::parse_error()));
            },
            Some(t) => t,
        };
        let t = trim(text);
        if t.unicode_len() == 0 {
            return Step::Skip;
        }
        let req = match parse_json(t) {
            None => {
                return Step::Reply(error_reply(None, JsonRpcError::parse_error()));
            },
            Some(j) => match JsonRpcRequest::from_json(j) {
                None => {
                    return Step::Reply(error_reply(None, JsonRpcError::parse_error()));
                },
                Some(req) => req,
            },
        };
        if !text_eq(req.jsonrpc.as_str(), "2.0") {
            return error_step_for(req.id, JsonRpcError::invalid_request());
        }
        let is_initialize = text_eq(req.method.as_str(), "initialize");
        if !self.initialized && !is_initialize {
            return error_step_for(req.id, JsonRpcError::invalid_request_with("Server not initialized"));
        }
        let step = dispatch(req);
        if is_initialize {
            self.initialized = true;
        }
        step
    }
}

/// Once the handshake is done it stays done, whatever the next frame is.
pub proof fn lemma_handshake_is_monotone(initialized: bool, raw: Seq<u8>)
    ensures
        initialized ==> spec_line(initialized, raw).0,
{
}

/// The handshake completes only on a frame that holds an `initialize`
/// request, and before it no frame leads to tool work.
pub proof fn lemma_handshake_gate(raw: Seq<u8>)
    ensures
        spec_line(false, raw).0 ==> (line_request(raw) matches Some(req) && req.method@
            == "initialize"@),
        !(spec_line(false, raw).1 is Call),
{
    reveal_strlit("initialize");
    reveal_strlit("tools/call");
}

/// No frame leads to filesystem work on a refused cache name.
pub proof fn lemma_refused_names_stay_off_filesystem(initialized: bool, raw: Seq<u8>)
    ensures
        spec_line(initialized, raw).1 matches StepView::Call(_, w) ==> match w {
            WorkView::InspectCache(c) => !is_refused_name(c),
            WorkView::Resolve(c, _, _) => !is_refused_name(c),
            WorkView::ListCaches => true,
        },
{
}

/// A resolve or inspect call naming a refused cache is answered at once
/// with the missing-cache failure.
pub proof fn lemma_refused_name_is_cache_missing(id: Option<RpcId>, tc: ToolCallParams)
    requires
        tc.name@ == "context.resolve"@ || tc.name@ == "context.inspect_cache"@,
        tc.arguments matches Some(a) && (if tc.name@ == "context.resolve"@ {
            spec_resolve_params(a) matches Ok(p) && p.budget >= 0 && is_refused_name(p.cache@)
        } else {
            spec_inspect_params(a) matches Ok(p) && is_refused_name(p.cache@)
        }),
    ensures
        spec_tool(id, tc) == tool_failure(id, domain_error_text(McpErrorCode::CacheMissing)),
{
    reveal_strlit("context.resolve");
    reveal_strlit("context.list_caches");
    reveal_strlit("context.inspect_cache");
}

/// Whether a step answers with a successful response.
pub open spec fn is_success_reply(st: StepView, id: Option<RpcId>) -> bool {
    exists|result: Seq<char>| st == StepView::Reply(success_line(id, result))
}

/// A notification never draws a protocol error: it is dropped, handed to a
/// tool, or answered with a successful response.
pub proof fn lemma_notifications_draw_no_errors(initialized: bool, req: JsonRpcRequest)
    requires
        req.id is None,
    ensures
        ({
            let st = spec_gate(initialized, req).1;
            st is Skip || st is Call || is_success_reply(st, None)
        }),
{
    let st = spec_gate(initialized, req).1;
    if st is Reply {
        let m = req.method@;
        if m == "initialize"@ {
            assert(st == StepView::Reply(success_line(None, init_result_text())));
        } else if m == "ping"@ {
            assert(st == StepView::Reply(success_line(None, "{}"@)));
        } else if m == "tools/list"@ {
            assert(st == StepView::Reply(success_line(None, tool_catalog_text())));
        } else {
            let tc = spec_tool_call(req.params->0)->Ok_0;
            let name = tc.name@;
            if name == "context.resolve"@ {
                let a = tc.arguments;
                if a is None {
                    let t = single_tool_text("Missing arguments for context.resolve"@, true);
                    assert(st == StepView::Reply(success_line(None, t)));
                } else if spec_resolve_params(a->0) is Err {
                    let why = spec_resolve_params(a->0)->Err_0;
                    let t = single_tool_text("Invalid arguments for context.resolve: "@ + why, true);
                    assert(st == StepView::Reply(success_line(None, t)));
                } else if spec_resolve_params(a->0)->Ok_0.budget < 0 {
                    let t = single_tool_text(domain_error_text(McpErrorCode::InvalidBudget), true);
                    assert(st == StepView::Reply(success_line(None, t)));
                } else {
                    let t = single_tool_text(domain_error_text(McpErrorCode::CacheMissing), true);
                    assert(st == StepView::Reply(success_line(None, t)));
                }
            } else if name == "context.inspect_cache"@ {
                let a = tc.arguments;
                if a is None {
                    let t = single_tool_text("Missing arguments for context.inspect_cache"@, true);
                    assert(st == StepView::Reply(success_line(None, t)));
                } else if spec_inspect_params(a->0) is Err {
                    let why = spec_inspect_params(a->0)->Err_0;
                    let t = single_tool_text(
                        "Invalid arguments for context.inspect_cache: "@ + why,
                        true,
                    );
                    assert(st == StepView::Reply(success_line(None, t)));
                } else {
                    let t = single_tool_text(domain_error_text(McpErrorCode::CacheMissing), true);
                    assert(st == StepView::Reply(success_line(None, t)));
                }
            } else {
                let t = single_tool_text("Unknown tool: "@ + name, true);
                assert(st == StepView::Reply(success_line(None, t)));
            }
        }
    }
}

/// A resolve call with a negative budget is answered at once with the
/// invalid-budget failure, before any filesystem work.
pub proof fn lemma_negative_budget_is_refused(id: Option<RpcId>, tc: ToolCallParams)
    requires
        tc.name@ == "context.resolve"@,
        tc.arguments matches Some(a) && spec_resolve_params(a) matches Ok(p) && p.budget < 0,
    ensures
        spec_tool(id, tc) == tool_failure(id, domain_error_text(McpErrorCode::InvalidBudget)),
{
}

/// A request with an id whose method is none of the five known ones is
/// answered with the method-not-found error.
pub proof fn lemma_unknown_method(req: JsonRpcRequest)
    requires
        req.id is Some,
        req.method@ != "initialize"@,
        req.method@ != "notifications/initialized"@,
        req.method@ != "ping"@,
        req.method@ != "tools/list"@,
        req.method@ != "tools/call"@,
    ensures
        spec_dispatch(req) == StepView::Reply(
            error_line(req.id, METHOD_NOT_FOUND, "Method not found: "@ + req.method@),
        ),
{
}

} // verus!
