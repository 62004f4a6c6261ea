//! Error types of the server core.
//!
//! Tool-call errors carry a JSON-RPC style error code and a message; they are
//! returned to the caller and never crash the server.

use vstd::prelude::*;

verus! {

/// JSON-RPC error code: invalid method parameters.
pub const ERROR_CODE_INVALID_PARAMS: i64 = -32602;

/// JSON-RPC error code: internal error.
pub const ERROR_CODE_INTERNAL_ERROR: i64 = -32603;

/// JSON-RPC error code: method not found.
pub const ERROR_CODE_METHOD_NOT_FOUND: i64 = -32601;

/// A structured tool-call error: an error code plus a human-readable message.
#[derive(Debug, Clone)]
pub struct McpError {
    pub code: i64,
    pub message: String,
}

impl McpError {
    /// Builds an error from a code and a message.
    pub fn new(code: i64, message: String) -> (r: McpError)
        ensures
            r.code == code,
            r.message@ == message@,
    {
        McpError { code, message }
    }
}

/// Errors of server construction and configuration.
#[derive(Debug, Clone)]
pub enum CorsError {
    /// CORS layer was requested while the configuration has it disabled.
    NotEnabled,
    /// Credentials may not be combined with a wildcard origin.
    CredentialsWithAnyOrigin,
    /// Neither an origin list, origin patterns, nor the wildcard was given.
    NoOrigins,
    /// An entry of the exact-origin list is not a valid URL or header value.
    InvalidOrigin(String),
    /// An entry of the origin-pattern list is not a valid regular expression.
    InvalidOriginPattern(String),
    /// An entry of the allowed-method list is not a valid HTTP method.
    InvalidMethod(String),
    /// An entry of the allowed-header list is not a valid header name.
    InvalidHeaderName(String),
    /// An entry of the exposed-header list is not a valid header name.
    InvalidExposeHeaderName(String),
}

} // verus!
