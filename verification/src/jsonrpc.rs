//! JSON-RPC 2.0 envelope types and the standard and A2A-specific error codes.

use serde_json::Value;
use vstd::prelude::*;

verus! {

/// JSON-RPC 2.0 request envelope.
#[derive(Debug, Clone)]
pub struct JsonRpcRequest {
    pub jsonrpc: String,
    pub id: Option<Value>,
    pub method: String,
    pub params: Value,
}

/// JSON-RPC 2.0 response: a result on success, an error object otherwise.
#[derive(Debug, Clone)]
pub struct JsonRpcResponse {
    pub jsonrpc: String,
    pub id: Option<Value>,
    pub result: Option<Value>,
    pub error: Option<JsonRpcError>,
}

/// JSON-RPC 2.0 error object.
#[derive(Debug, Clone)]
pub struct JsonRpcError {
    pub code: i64,
    pub message: String,
    pub data: Option<Value>,
}

// ── Standard JSON-RPC error codes ───────────────────────────────

pub const PARSE_ERROR: i64 = -32700;
pub const INVALID_REQUEST: i64 = -32600;
pub const METHOD_NOT_FOUND: i64 = -32601;
pub const INVALID_PARAMS: i64 = -32602;
pub const INTERNAL_ERROR: i64 = -32603;

// ── A2A-specific error codes ────────────────────────────────────

pub const TASK_NOT_FOUND: i64 = -32001;
pub const TASK_NOT_CANCELABLE: i64 = -32002;
pub const CAPACITY_EXCEEDED: i64 = -32003;

/// An error object has `code` and `message` and no data.
pub open spec fn is_error(e: JsonRpcError, code: i64, message: Seq<char>) -> bool {
    e.code == code && e.message@ == message && e.data is None
}

/// A response answers request `id` with the error `code` / `message`.
pub open spec fn is_error_response(
    r: JsonRpcResponse,
    id: Option<Value>,
    code: i64,
    message: Seq<char>,
) -> bool {
    &&& r.jsonrpc@ == "2.0"@
    &&& r.id == id
    &&& r.result is None
    &&& r.error matches Some(e) && is_error(e, code, message)
}

impl JsonRpcResponse {
    /// A success response carrying `result`.
    pub fn success(id: Option<Value>, result: Value) -> (r: Self)
        ensures
            r.jsonrpc@ == "2.0"@,
            r.id == id,
            r.result == Some(result),
            r.error is None,
    {
        JsonRpcResponse { jsonrpc: "2.0".to_owned(), id, result: Some(result), error: None }
    }

    /// An error response with the given code and message.
    pub fn error(id: Option<Value>, code: i64, message: String) -> (r: Self)
        ensures
            is_error_response(r, id, code, message@),
    {
        JsonRpcResponse {
            jsonrpc: "2.0".to_owned(),
            id,
            result: None,
            error: Some(JsonRpcError { code, message, data: None }),
        }
    }
}

} // verus!
