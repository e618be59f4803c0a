//! Domain error kinds, their canonical messages and their protocol codes.
use vstd::prelude::*;
use crate::json::{json_quoted, quote};

verus! {

/// JSON-RPC code for a request whose parameters were rejected.
pub const INVALID_PARAMS_CODE: i32 = -32602;

/// JSON-RPC code for a failure on the server's side.
pub const INTERNAL_ERROR_CODE: i32 = -32603;

/// The closed set of domain error kinds.
#[derive(Clone, Copy, Debug, PartialEq, Eq, Structural, Hash)]
pub enum McpErrorCode {
    CacheMissing,
    CacheInvalid,
    InvalidQuery,
    InvalidBudget,
    IoError,
    InternalError,
}

/// Whether the kind stems from the client's input rather than the server.
pub open spec fn is_client_fault(code: McpErrorCode) -> bool {
    match code {
        McpErrorCode::IoError | McpErrorCode::InternalError => false,
        _ => true,
    }
}

/// The protocol error code that a domain error kind maps to.
pub open spec fn spec_json_rpc_code(code: McpErrorCode) -> i32 {
    if is_client_fault(code) {
        INVALID_PARAMS_CODE
    } else {
        INTERNAL_ERROR_CODE
    }
}

/// The name under which a kind appears on the wire.
pub open spec fn wire_name(code: McpErrorCode) -> Seq<char> {
    match code {
        McpErrorCode::CacheMissing => "cache_missing"@,
        McpErrorCode::CacheInvalid => "cache_invalid"@,
        McpErrorCode::InvalidQuery => "invalid_query"@,
        McpErrorCode::InvalidBudget => "invalid_budget"@,
        McpErrorCode::IoError => "io_error"@,
        McpErrorCode::InternalError => "internal_error"@,
    }
}

/// The one fixed message of each kind.
pub open spec fn canonical_message(code: McpErrorCode) -> Seq<char> {
    match code {
        McpErrorCode::CacheMissing => "Cache does not exist"@,
        McpErrorCode::CacheInvalid => "Cache exists but is invalid"@,
        McpErrorCode::InvalidQuery => "Query is invalid"@,
        McpErrorCode::InvalidBudget => "Budget is invalid"@,
        McpErrorCode::IoError => "I/O error occurred"@,
        McpErrorCode::InternalError => "Internal error"@,
    }
}

impl McpErrorCode {
    /// Input validation failures map to invalid-params, server-side
    /// failures to internal-error.
    pub fn json_rpc_code(&self) -> (r: i32)
        ensures
            r == spec_json_rpc_code(*self),
    {
        match self {
            McpErrorCode::CacheMissing | McpErrorCode::CacheInvalid => INVALID_PARAMS_CODE,
            McpErrorCode::InvalidQuery | McpErrorCode::InvalidBudget => INVALID_PARAMS_CODE,
            McpErrorCode::IoError | McpErrorCode::InternalError => INTERNAL_ERROR_CODE,
        }
    }

    /// The wire name of the kind, in snake case.
    pub fn as_str(&self) -> (r: &'static str)
        ensures
            r@ == wire_name(*self),
    {
        match self {
            McpErrorCode::CacheMissing => "cache_missing",
            McpErrorCode::CacheInvalid => "cache_invalid",
            McpErrorCode::InvalidQuery => "invalid_query",
            McpErrorCode::InvalidBudget => "invalid_budget",
            McpErrorCode::IoError => "io_error",
            McpErrorCode::InternalError => "internal_error",
        }
    }

    /// The canonical message of the kind.
    pub fn message(&self) -> (r: &'static str)
        ensures
            r@ == canonical_message(*self),
    {
        match self {
            McpErrorCode::CacheMissing => "Cache does not exist",
            McpErrorCode::CacheInvalid => "Cache exists but is invalid",
            McpErrorCode::InvalidQuery => "Query is invalid",
            McpErrorCode::InvalidBudget => "Budget is invalid",
            McpErrorCode::IoError => "I/O error occurred",
            McpErrorCode::InternalError => "Internal error",
        }
    }
}

/// A domain error: its kind and a human-readable message.
#[derive(Clone, Debug, PartialEq, Eq)]
pub struct McpError {
    pub code: McpErrorCode,
    pub message: String,
}

/// The top-level domain error object, `{"error": {...}}` on the wire.
#[derive(Clone, Debug, PartialEq, Eq)]
pub struct McpErrorResponse {
    pub error: McpError,
}

impl McpErrorResponse {
    pub fn new(code: McpErrorCode, message: &str) -> (r: Self)
        ensures
            r.error.code == code,
            r.error.message@ == message@,
    {
        McpErrorResponse { error: McpError { code, message: String::from_str(message) } }
    }

    /// The error of the given kind with its canonical message.
    pub fn canonical(code: McpErrorCode) -> (r: Self)
        ensures
            r.error.code == code,
            r.error.message@ == canonical_message(code),
    {
        Self::new(code, code.message())
    }

    /// Whether this error carries the canonical message of its kind.
    pub open spec fn is_canonical(&self) -> bool {
        self.error.message@ == canonical_message(self.error.code)
    }

    /// The JSON text of this error object.
    pub open spec fn spec_json(&self) -> Seq<char> {
        error_object_text(self.error.code, self.error.message@)
    }

    /// The JSON text `{"error":{"code":...,"message":...}}`.
    pub fn to_json(&self) -> (r: String)
        ensures
            r@ == self.spec_json(),
    {
        let message = quote(self.error.message.as_str());
        String::from_str("{\"error\":{\"code\":\"")
            .concat(self.error.code.as_str())
            .concat("\",\"message\":")
            .concat(message.as_str())
            .concat("}}")
    }
}

/// The text of a failed tool result for a kind: its canonical error
/// object and a line end.
pub open spec fn domain_error_text(code: McpErrorCode) -> Seq<char> {
    error_object_text(code, canonical_message(code)) + "\n"@
}

/// The JSON text of a domain error object of the given kind and message.
pub open spec fn error_object_text(code: McpErrorCode, message: Seq<char>) -> Seq<char> {
    "{\"error\":{\"code\":\""@ + wire_name(code) + "\",\"message\":"@ + json_quoted(message)
        + "}}"@
}

} // verus!
