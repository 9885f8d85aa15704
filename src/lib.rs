//! A server for the Model Context Protocol: the JSON-RPC 2.0 message model,
//! the error taxonomy, the tool registry, the server's lifecycle and dispatch,
//! and the framing of the line-delimited transport.
pub mod config;
pub mod error;
pub mod json;
pub mod misp;
pub mod protocol;
pub mod registry;
pub mod server;
pub mod transport;

pub use config::Config;
pub use error::{McpError, McpResult};
pub use json::JsonValue;
pub use protocol::{
    CallToolParams, CallToolResult, ClientCapabilities, Implementation, InitializeParams,
    InitializeResult, JsonRpcError, JsonRpcNotification, JsonRpcRequest, JsonRpcResponse,
    ListResourcesParams, ListResourcesResult, ListToolsParams, ListToolsResult, LoggingCapability,
    PromptsCapability, ReadResourceParams, ReadResourceResult, Resource, ResourceContents,
    ResourceReference, ResourcesCapability, ResponseResult, SamplingCapability, ServerCapabilities,
    ToolContent, ToolDefinition, ToolInputSchema, ToolsCapability,
};
pub use registry::{Tool, ToolInput, ToolRegistry, ToolResult};
pub use server::{Dispatch, ReadOutcome, Server, ServerState, Step, create_error_response};
pub use transport::{decode_request, frame_line};
