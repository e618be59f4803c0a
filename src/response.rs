//! JSON-RPC responses, protocol errors and tool results, with their exact
//! wire text.
use vstd::prelude::*;
use crate::error::{McpErrorResponse, spec_json_rpc_code};
use crate::json::{json_quoted, quote, signed_decimal, signed_decimal_text};
use crate::request::RpcId;

verus! {

pub const PARSE_ERROR: i32 = -32700;

pub const INVALID_REQUEST: i32 = -32600;

pub const METHOD_NOT_FOUND: i32 = -32601;

pub const INVALID_PARAMS: i32 = -32602;

pub const INTERNAL_ERROR: i32 = -32603;

/// The wire text of a request id.
pub open spec fn id_text(id: RpcId) -> Seq<char> {
    match id {
        RpcId::Number(n) => signed_decimal(n as int),
        RpcId::Str(s) => json_quoted(s@),
    }
}

/// The wire text of a request id.
pub fn render_id(id: &RpcId) -> (r: String)
    ensures
        r@ == id_text(*id),
{
    match id {
        RpcId::Number(n) => signed_decimal_text(*n),
        RpcId::Str(s) => quote(s.as_str()),
    }
}

/// A protocol-level error object. `data`, when present, is JSON text.
#[derive(Clone, Debug)]
pub struct JsonRpcError {
    pub code: i32,
    pub message: String,
    pub data: Option<String>,
}

/// The wire text of a protocol error object.
pub open spec fn error_text(e: JsonRpcError) -> Seq<char> {
    "{\"code\":"@ + signed_decimal(e.code as int) + ",\"message\":"@ + json_quoted(e.message@)
        + match e.data {
        Some(d) => ",\"data\":"@ + d@,
        None => Seq::empty(),
    } + "}"@
}

impl JsonRpcError {
    pub fn parse_error() -> (r: Self)
        ensures
            r.code == PARSE_ERROR,
            r.message@ == "Parse error"@,
            r.data is None,
    {
        JsonRpcError { code: PARSE_ERROR, message: String::from_str("Parse error"), data: None }
    }

    pub fn invalid_request() -> (r: Self)
        ensures
            r.code == INVALID_REQUEST,
            r.message@ == "Invalid Request"@,
            r.data is None,
    {
        JsonRpcError {
            code: INVALID_REQUEST,
            message: String::from_str("Invalid Request"),
            data: None,
        }
    }

    pub fn invalid_request_with(detail: &str) -> (r: Self)
        ensures
            r.code == INVALID_REQUEST,
            r.message@ == detail@,
            r.data is None,
    {
        JsonRpcError { code: INVALID_REQUEST, message: String::from_str(detail), data: None }
    }

    pub fn method_not_found(method: &str) -> (r: Self)
        ensures
            r.code == METHOD_NOT_FOUND,
            r.message@ == "Method not found: "@ + method@,
            r.data is None,
    {
        JsonRpcError {
            code: METHOD_NOT_FOUND,
            message: String::from_str("Method not found: ").concat(method),
            data: None,
        }
    }

    pub fn invalid_params(detail: &str) -> (r: Self)
        ensures
            r.code == INVALID_PARAMS,
            r.message@ == detail@,
            r.data is None,
    {
        JsonRpcError { code: INVALID_PARAMS, message: String::from_str(detail), data: None }
    }

    pub fn internal_error(detail: &str) -> (r: Self)
        ensures
            r.code == INTERNAL_ERROR,
            r.message@ == detail@,
            r.data is None,
    {
        JsonRpcError { code: INTERNAL_ERROR, message: String::from_str(detail), data: None }
    }

    /// A domain error as a protocol error: the code of its kind, its
    /// message, and the whole domain error object as data.
    pub fn from_mcp(mcp: McpErrorResponse) -> (r: Self)
        ensures
            r.code == spec_json_rpc_code(mcp.error.code),
            r.message@ == mcp.error.message@,
            r.data matches Some(d) && d@ == mcp.spec_json(),
    {
        let data = mcp.to_json();
        JsonRpcError {
            code: mcp.error.code.json_rpc_code(),
            message: mcp.error.message,
            data: Some(data),
        }
    }

    /// The wire text of this error object.
    pub fn to_json(&self) -> (r: String)
        ensures
            r@ == error_text(*self),
    {
        let s = String::from_str("{\"code\":")
            .concat(signed_decimal_text(self.code as i64).as_str())
            .concat(",\"message\":")
            .concat(quote(self.message.as_str()).as_str());
        let s = match &self.data {
            Some(d) => s.concat(",\"data\":").concat(d.as_str()),
            None => s,
        };
        s.concat("}")
    }
}


/// A JSON-RPC 2.0 response envelope. `result`, when present, is JSON text.
#[derive(Clone, Debug)]
pub struct JsonRpcResponse {
    pub jsonrpc: String,
    pub id: Option<RpcId>,
    pub result: Option<String>,
    pub error: Option<JsonRpcError>,
}

/// The wire text of a response envelope, without the line end.
pub open spec fn response_text(r: JsonRpcResponse) -> Seq<char> {
    "{\"jsonrpc\":"@ + json_quoted(r.jsonrpc@) + match r.id {
        Some(id) => ",\"id\":"@ + id_text(id),
        None => Seq::empty(),
    } + match r.result {
        Some(t) => ",\"result\":"@ + t@,
        None => Seq::empty(),
    } + match r.error {
        Some(e) => ",\"error\":"@ + error_text(e),
        None => Seq::empty(),
    } + "}"@
}

impl JsonRpcResponse {
    /// Exactly one of `result` and `error` is present, under version 2.0.
    pub open spec fn wf(&self) -> bool {
        &&& self.jsonrpc@ == "2.0"@
        &&& (self.result is Some) != (self.error is Some)
    }

    pub fn success(id: Option<RpcId>, result: String) -> (r: Self)
        ensures
            r.wf(),
            r.id == id,
            r.result == Some(result),
            r.error is None,
    {
        JsonRpcResponse { jsonrpc: String::from_str("2.0"), id, result: Some(result), error: None }
    }

    pub fn error(id: Option<RpcId>, error: JsonRpcError) -> (r: Self)
        ensures
            r.wf(),
            r.id == id,
            r.result is None,
            r.error == Some(error),
    {
        JsonRpcResponse { jsonrpc: String::from_str("2.0"), id, result: None, error: Some(error) }
    }

    /// The wire text of the response followed by one line end.
    pub fn to_line(&self) -> (r: String)
        ensures
            r@ == response_text(*self) + "\n"@,
    {
        let mut s = String::from_str("{\"jsonrpc\":").concat(quote(self.jsonrpc.as_str()).as_str());
        match &self.id {
            Some(id) => {
                s = s.concat(",\"id\":").concat(render_id(id).as_str());
            },
            None => {},
        }
        match &self.result {
            Some(t) => {
                s = s.concat(",\"result\":").concat(t.as_str());
            },
            None => {},
        }
        match &self.error {
            Some(e) => {
                s = s.concat(",\"error\":").concat(e.to_json().as_str());
            },
            None => {},
        }
        s.concat("}").concat("\n")
    }
}

/// One content block of a tool result.
#[derive(Clone, Debug)]
pub struct ToolResultContent {
    pub content_type: String,
    pub text: String,
}

/// The outcome of one tool call. A failed call is still a successful
/// response, with `is_error` set.
#[derive(Clone, Debug)]
pub struct ToolResult {
    pub content: Vec<ToolResultContent>,
    pub is_error: bool,
}

/// The wire text of a content block; members in key order.
pub open spec fn content_text(c: ToolResultContent) -> Seq<char> {
    "{\"text\":"@ + json_quoted(c.text@) + ",\"type\":"@ + json_quoted(c.content_type@) + "}"@
}

/// The wire text of content blocks, comma-separated.
pub open spec fn contents_text(cs: Seq<ToolResultContent>) -> Seq<char>
    decreases cs.len(),
{
    if cs.len() == 0 {
        Seq::empty()
    } else if cs.len() == 1 {
        content_text(cs[0])
    } else {
        contents_text(cs.drop_last()) + ","@ + content_text(cs.last())
    }
}

/// The wire text of a tool result; `isError` appears only when set.
pub open spec fn tool_result_text(t: ToolResult) -> Seq<char> {
    "{\"content\":["@ + contents_text(t.content@) + "]"@ + if t.is_error {
        ",\"isError\":true"@
    } else {
        Seq::empty()
    } + "}"@
}

/// Whether a tool result is one text block with the given text and flag.
pub open spec fn is_single_text(t: ToolResult, text: Seq<char>, is_error: bool) -> bool {
    &&& t.content@.len() == 1
    &&& t.content@[0].content_type@ == "text"@
    &&& t.content@[0].text@ == text
    &&& t.is_error == is_error
}

impl ToolResult {
    /// A successful result of one text block.
    pub fn text(text: String) -> (r: Self)
        ensures
            is_single_text(r, text@, false),
    {
        let mut content: Vec<ToolResultContent> = Vec::new();
        content.push(ToolResultContent { content_type: String::from_str("text"), text });
        ToolResult { content, is_error: false }
    }

    /// A failed result of one text block.
    pub fn error(text: String) -> (r: Self)
        ensures
            is_single_text(r, text@, true),
    {
        let mut content: Vec<ToolResultContent> = Vec::new();
        content.push(ToolResultContent { content_type: String::from_str("text"), text });
        ToolResult { content, is_error: true }
    }

    /// A domain error as a failed tool result: its JSON text and a line end.
    pub fn from_mcp(mcp: McpErrorResponse) -> (r: Self)
        ensures
            is_single_text(r, mcp.spec_json() + "\n"@, true),
    {
        Self::error(mcp.to_json().concat("\n"))
    }

    /// The wire text of this tool result.
    pub fn to_json(&self) -> (r: String)
        ensures
            r@ == tool_result_text(*self),
    {
        let mut body = String::new();
        let mut i: usize = 0;
        while i < self.content.len()
            invariant
                i <= self.content.len(),
                body@ == contents_text(self.content@.take(i as int)),
            decreases self.content.len() - i,
        {
            let c = &self.content[i];
            let block = String::from_str("{\"text\":")
                .concat(quote(c.text.as_str()).as_str())
                .concat(",\"type\":")
                .concat(quote(c.content_type.as_str()).as_str())
                .concat("}");
            proof {
                let t = self.content@.take(i + 1);
                assert(t.drop_last() =~= self.content@.take(i as int));
                assert(t.last() == self.content@[i as int]);
            }
            if i == 0 {
                body = block;
            } else {
                body = body.concat(",").concat(block.as_str());
            }
            i = i + 1;
        }
        assert(self.content@.take(self.content@.len() as int) =~= self.content@);
        let s = String::from_str("{\"content\":[").concat(body.as_str()).concat("]");
        let s = if self.is_error {
            s.concat(",\"isError\":true")
        } else {
            s
        };
        s.concat("}")
    }
}

} // verus!
