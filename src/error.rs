//! The closed set of error kinds of the protocol engine, each with its fixed
//! JSON-RPC code and its human-readable message.
use vstd::prelude::*;

verus! {

pub const PARSE_ERROR_CODE: i32 = -32700;

pub const INVALID_REQUEST_CODE: i32 = -32600;

pub const METHOD_NOT_FOUND_CODE: i32 = -32601;

pub const INVALID_PARAMS_CODE: i32 = -32602;

pub const INTERNAL_ERROR_CODE: i32 = -32603;

pub const TOOL_NOT_FOUND_CODE: i32 = -32000;

pub const TOOL_EXECUTION_ERROR_CODE: i32 = -32001;

pub const TRANSPORT_ERROR_CODE: i32 = -32002;

pub const SERIALIZATION_ERROR_CODE: i32 = -32003;

/// The result of an operation of the protocol engine.
pub type McpResult<T> = Result<T, McpError>;

/// Errors of the protocol engine, following the JSON-RPC 2.0 error model.
#[derive(Debug, Clone)]
pub enum McpError {
    /// Malformed JSON on the wire.
    ParseError { message: String },
    /// A request that is structurally invalid or out of protocol sequence.
    InvalidRequest { message: String },
    /// A method that the server does not know.
    MethodNotFound { method: String },
    /// Missing or malformed parameters of a known method.
    InvalidParams { message: String },
    /// An unexpected internal fault.
    InternalError { message: String },
    /// A tool call that names no registered tool.
    ToolNotFound { tool_name: String },
    /// A tool whose handler failed.
    ToolExecutionError { tool_name: String, message: String },
    /// An I/O failure of the transport.
    TransportError { message: String },
    /// A failure to encode or decode a payload.
    SerializationError { message: String },
}

/// The JSON-RPC code of each kind of error.
pub open spec fn code_of(e: McpError) -> int {
    match e {
        McpError::ParseError { .. } => PARSE_ERROR_CODE as int,
        McpError::InvalidRequest { .. } => INVALID_REQUEST_CODE as int,
        McpError::MethodNotFound { .. } => METHOD_NOT_FOUND_CODE as int,
        McpError::InvalidParams { .. } => INVALID_PARAMS_CODE as int,
        McpError::InternalError { .. } => INTERNAL_ERROR_CODE as int,
        McpError::ToolNotFound { .. } => TOOL_NOT_FOUND_CODE as int,
        McpError::ToolExecutionError { .. } => TOOL_EXECUTION_ERROR_CODE as int,
        McpError::TransportError { .. } => TRANSPORT_ERROR_CODE as int,
        McpError::SerializationError { .. } => SERIALIZATION_ERROR_CODE as int,
    }
}

/// The human-readable text of an error: a fixed prefix for its kind, then its details.
pub open spec fn message_of(e: McpError) -> Seq<char> {
    match e {
        McpError::ParseError { message } => "Parse error: "@ + message@,
        McpError::InvalidRequest { message } => "Invalid request: "@ + message@,
        McpError::MethodNotFound { method } => "Method not found: "@ + method@,
        McpError::InvalidParams { message } => "Invalid params: "@ + message@,
        McpError::InternalError { message } => "Internal error: "@ + message@,
        McpError::ToolNotFound { tool_name } => "Tool not found: "@ + tool_name@,
        McpError::ToolExecutionError { tool_name, message } =>
            "Tool execution failed: "@ + tool_name@ + " - "@ + message@,
        McpError::TransportError { message } => "Transport error: "@ + message@,
        McpError::SerializationError { message } => "Serialization error: "@ + message@,
    }
}

/// Concatenates a literal prefix and a string.
fn prefixed(prefix: &str, rest: &String) -> (r: String)
    ensures
        r@ == prefix@ + rest@,
{
    let mut r = String::from_str(prefix);
    r.append(rest.as_str());
    r
}

impl McpError {
    /// The JSON-RPC 2.0 error code of this error.
    pub fn to_json_rpc_code(&self) -> (r: i32)
        ensures
            r as int == code_of(*self),
    {
        match self {
            McpError::ParseError { .. } => PARSE_ERROR_CODE,
            McpError::InvalidRequest { .. } => INVALID_REQUEST_CODE,
            McpError::MethodNotFound { .. } => METHOD_NOT_FOUND_CODE,
            McpError::InvalidParams { .. } => INVALID_PARAMS_CODE,
            McpError::InternalError { .. } => INTERNAL_ERROR_CODE,
            McpError::ToolNotFound { .. } => TOOL_NOT_FOUND_CODE,
            McpError::ToolExecutionError { .. } => TOOL_EXECUTION_ERROR_CODE,
            McpError::TransportError { .. } => TRANSPORT_ERROR_CODE,
            McpError::SerializationError { .. } => SERIALIZATION_ERROR_CODE,
        }
    }

    /// The human-readable text of this error.
    pub fn to_message(&self) -> (r: String)
        ensures
            r@ == message_of(*self),
    {
        match self {
            McpError::ParseError { message } => prefixed("Parse error: ", message),
            McpError::InvalidRequest { message } => prefixed("Invalid request: ", message),
            McpError::MethodNotFound { method } => prefixed("Method not found: ", method),
            McpError::InvalidParams { message } => prefixed("Invalid params: ", message),
            McpError::InternalError { message } => prefixed("Internal error: ", message),
            McpError::ToolNotFound { tool_name } => prefixed("Tool not found: ", tool_name),
            McpError::ToolExecutionError { tool_name, message } => {
                let mut r = prefixed("Tool execution failed: ", tool_name);
                r.append(" - ");
                r.append(message.as_str());
                r
            },
            McpError::TransportError { message } => prefixed("Transport error: ", message),
            McpError::SerializationError { message } => prefixed("Serialization error: ", message),
        }
    }

    /// A parse error with the given details.
    pub fn parse_error(message: String) -> (r: Self)
        ensures
            r == (McpError::ParseError { message }),
    {
        McpError::ParseError { message }
    }

    /// An invalid-request error with the given details.
    pub fn invalid_request(message: String) -> (r: Self)
        ensures
            r == (McpError::InvalidRequest { message }),
    {
        McpError::InvalidRequest { message }
    }

    /// A method-not-found error naming the method.
    pub fn method_not_found(method: String) -> (r: Self)
        ensures
            r == (McpError::MethodNotFound { method }),
    {
        McpError::MethodNotFound { method }
    }

    /// An invalid-params error with the given details.
    pub fn invalid_params(message: String) -> (r: Self)
        ensures
            r == (McpError::InvalidParams { message }),
    {
        McpError::InvalidParams { message }
    }

    /// An internal error with the given details.
    pub fn internal_error(message: String) -> (r: Self)
        ensures
            r == (McpError::InternalError { message }),
    {
        McpError::InternalError { message }
    }

    /// A tool-not-found error naming the tool.
    pub fn tool_not_found(tool_name: String) -> (r: Self)
        ensures
            r == (McpError::ToolNotFound { tool_name }),
    {
        McpError::ToolNotFound { tool_name }
    }

    /// A tool-execution error naming the tool and carrying the handler's message.
    pub fn tool_execution_error(tool_name: String, message: String) -> (r: Self)
        ensures
            r == (McpError::ToolExecutionError { tool_name, message }),
    {
        McpError::ToolExecutionError { tool_name, message }
    }

    /// A transport error with the given details.
    pub fn transport_error(message: String) -> (r: Self)
        ensures
            r == (McpError::TransportError { message }),
    {
        McpError::TransportError { message }
    }

    /// A serialization error with the given details.
    pub fn serialization_error(message: String) -> (r: Self)
        ensures
            r == (McpError::SerializationError { message }),
    {
        McpError::SerializationError { message }
    }
}

} // verus!
