//! The JSON-RPC 2.0 envelopes and the MCP payloads that they carry.
use vstd::prelude::*;
use crate::error::McpError;
use crate::json::{JsonValue, absent_or_null, field, str_of, take_member};

verus! {

/// The version tag that every envelope carries.
pub open spec fn jsonrpc_version() -> Seq<char> {
    "2.0"@
}

/// A JSON-RPC 2.0 request. A missing `id` marks a notification.
#[derive(Debug)]
pub struct JsonRpcRequest {
    pub jsonrpc: String,
    pub id: Option<JsonValue>,
    pub method: String,
    pub params: Option<JsonValue>,
}

/// The payload of a successful response, one shape for each method.
#[derive(Debug)]
pub enum ResponseResult {
    Initialize(InitializeResult),
    ToolList(ListToolsResult),
    ToolCall(CallToolResult),
}

/// A JSON-RPC 2.0 response: exactly one of `result` and `error` is present.
#[derive(Debug)]
pub struct JsonRpcResponse {
    pub jsonrpc: String,
    pub id: Option<JsonValue>,
    pub result: Option<ResponseResult>,
    pub error: Option<JsonRpcError>,
}

/// A JSON-RPC 2.0 error object.
#[derive(Debug)]
pub struct JsonRpcError {
    pub code: i32,
    pub message: String,
    pub data: Option<JsonValue>,
}

/// A JSON-RPC 2.0 notification.
#[derive(Debug)]
pub struct JsonRpcNotification {
    pub jsonrpc: String,
    pub method: String,
    pub params: Option<JsonValue>,
}

/// The parameters of `initialize`.
#[derive(Debug)]
pub struct InitializeParams {
    pub protocol_version: String,
    pub capabilities: ClientCapabilities,
    pub client_info: Implementation,
}

/// The answer to `initialize`.
#[derive(Debug)]
pub struct InitializeResult {
    pub protocol_version: String,
    pub capabilities: ServerCapabilities,
    pub server_info: Implementation,
}

/// What a client declares it supports. A missing entry means "not supported".
#[derive(Debug)]
pub struct ClientCapabilities {
    pub experimental: Option<Vec<(String, JsonValue)>>,
    pub sampling: Option<SamplingCapability>,
}

/// What a server declares it supports. A missing entry means "not supported".
#[derive(Debug)]
pub struct ServerCapabilities {
    pub experimental: Option<Vec<(String, JsonValue)>>,
    pub logging: Option<LoggingCapability>,
    pub prompts: Option<PromptsCapability>,
    pub resources: Option<ResourcesCapability>,
    pub tools: Option<ToolsCapability>,
}

#[derive(Debug, Clone, Copy, PartialEq, Eq, Structural)]
pub struct SamplingCapability {}

#[derive(Debug, Clone, Copy, PartialEq, Eq, Structural)]
pub struct LoggingCapability {}

#[derive(Debug, Clone, Copy, PartialEq, Eq, Structural)]
pub struct PromptsCapability {
    pub list_changed: Option<bool>,
}

#[derive(Debug, Clone, Copy, PartialEq, Eq, Structural)]
pub struct ResourcesCapability {
    pub subscribe: Option<bool>,
    pub list_changed: Option<bool>,
}

#[derive(Debug, Clone, Copy, PartialEq, Eq, Structural)]
pub struct ToolsCapability {
    pub list_changed: Option<bool>,
}

/// The name and version of a client or of a server.
#[derive(Debug)]
pub struct Implementation {
    pub name: String,
    pub version: String,
}

/// The metadata of a tool: its name, which is its key, a description and
/// the shape of its input.
#[derive(Debug)]
pub struct ToolDefinition {
    pub name: String,
    pub description: String,
    pub input_schema: ToolInputSchema,
}

/// A JSON-Schema-like description of a tool's input.
#[derive(Debug)]
pub struct ToolInputSchema {
    pub schema_type: String,
    pub properties: Option<Vec<(String, JsonValue)>>,
    pub required: Vec<String>,
    pub additional_properties: Option<bool>,
}

/// The parameters of `tools/list` (a cursor is reserved and unused).
#[derive(Debug, Clone, Copy, PartialEq, Eq, Structural)]
pub struct ListToolsParams {}

/// The answer to `tools/list`.
#[derive(Debug)]
pub struct ListToolsResult {
    pub tools: Vec<ToolDefinition>,
}

/// The parameters of `tools/call`.
#[derive(Debug)]
pub struct CallToolParams {
    pub name: String,
    pub arguments: Option<Vec<(String, JsonValue)>>,
}

/// The answer to `tools/call`. `is_error` is left out unless it is set.
#[derive(Debug)]
pub struct CallToolResult {
    pub content: Vec<ToolContent>,
    pub is_error: Option<bool>,
}

/// One item of a tool's output.
#[derive(Debug)]
pub enum ToolContent {
    Text { text: String },
    Image { data: String, mime_type: String },
    Resource { resource: ResourceReference },
}

/// A reference to a resource.
#[derive(Debug)]
pub struct ResourceReference {
    pub uri: String,
    pub text: Option<String>,
}

/// A resource definition.
#[derive(Debug)]
pub struct Resource {
    pub uri: String,
    pub name: String,
    pub description: Option<String>,
    pub mime_type: Option<String>,
}

#[derive(Debug)]
pub struct ListResourcesParams {
    pub cursor: Option<String>,
}

#[derive(Debug)]
pub struct ListResourcesResult {
    pub resources: Vec<Resource>,
    pub next_cursor: Option<String>,
}

#[derive(Debug)]
pub struct ReadResourceParams {
    pub uri: String,
}

#[derive(Debug)]
pub struct ReadResourceResult {
    pub contents: Vec<ResourceContents>,
}

/// The contents of a resource, as text or as an encoded blob.
#[derive(Debug)]
pub enum ResourceContents {
    Text { uri: String, mime_type: String, text: String },
    Blob { uri: String, mime_type: String, blob: String },
}

/// A member that is missing, `null`, or an object.
pub open spec fn optional_object_ok(v: Option<JsonValue>) -> bool {
    absent_or_null(v) || v matches Some(JsonValue::Object(_))
}

/// The text of member `key` of the value `v`, when both exist and it is a string.
pub open spec fn text_field(v: Option<JsonValue>, key: Seq<char>) -> Option<Seq<char>> {
    match v {
        Some(o) => str_of(field(o, key)),
        None => None,
    }
}

/// A client or server descriptor: an object with a string name and version.
pub open spec fn implementation_ok(v: Option<JsonValue>) -> bool {
    &&& v matches Some(JsonValue::Object(_))
    &&& text_field(v, "name"@) is Some
    &&& text_field(v, "version"@) is Some
}

/// Client capabilities: an object whose `experimental` and `sampling` entries,
/// where present and not null, are objects.
pub open spec fn capabilities_ok(v: Option<JsonValue>) -> bool {
    &&& v matches Some(JsonValue::Object(_))
    &&& optional_object_ok(field(v->0, "experimental"@))
    &&& optional_object_ok(field(v->0, "sampling"@))
}

/// The shape that the parameters of `initialize` must have.
pub open spec fn initialize_params_ok(v: JsonValue) -> bool {
    &&& v is Object
    &&& str_of(field(v, "protocolVersion"@)) is Some
    &&& capabilities_ok(field(v, "capabilities"@))
    &&& implementation_ok(field(v, "clientInfo"@))
}

/// The shape that the parameters of `tools/call` must have: a string `name`
/// and, where present and not null, an object of `arguments`.
pub open spec fn call_params_ok(v: JsonValue) -> bool {
    &&& v is Object
    &&& str_of(field(v, "name"@)) is Some
    &&& optional_object_ok(field(v, "arguments"@))
}

/// The shape that the parameters of `tools/list` must have: an object, or an
/// empty array.
pub open spec fn list_params_ok(v: JsonValue) -> bool {
    v is Object || (v matches JsonValue::Array(xs) && xs@.len() == 0)
}

/// A string member, copied.
fn text_member(v: &JsonValue, key: &str) -> (r: Option<String>)
    ensures
        r matches Some(s) ==> str_of(field(*v, key@)) == Some(s@),
        r is None ==> str_of(field(*v, key@)) is None,
{
    match v.get(key) {
        Some(JsonValue::Str(s)) => Some(s.clone()),
        _ => None,
    }
}

/// Whether a member is missing, `null`, or an object.
fn optional_object_member(v: &JsonValue, key: &str) -> (r: bool)
    ensures
        r == optional_object_ok(field(*v, key@)),
{
    match v.get(key) {
        None => true,
        Some(JsonValue::Null) => true,
        Some(JsonValue::Object(_)) => true,
        _ => false,
    }
}

fn decode_failure(what: &str) -> (r: McpError)
    ensures
        r is InvalidParams,
{
    let mut message = String::from_str("invalid ");
    message.append(what);
    McpError::InvalidParams { message }
}

impl InitializeParams {
    /// Reads the parameters of `initialize`; a value of another shape is an
    /// invalid-params error.
    pub fn from_json(v: JsonValue) -> (r: Result<InitializeParams, McpError>)
        ensures
            r is Ok <==> initialize_params_ok(v),
            r matches Err(e) ==> e is InvalidParams,
            r matches Ok(p) ==> {
                &&& Some(p.protocol_version@) == str_of(field(v, "protocolVersion"@))
                &&& Some(p.client_info.name@) == text_field(field(v, "clientInfo"@), "name"@)
                &&& Some(p.client_info.version@) == text_field(field(v, "clientInfo"@), "version"@)
                &&& (p.capabilities.sampling is Some <==> !absent_or_null(
                    field(field(v, "capabilities"@)->0, "sampling"@),
                ))
                &&& match p.capabilities.experimental {
                    Some(m) => field(field(v, "capabilities"@)->0, "experimental"@) == Some(
                        JsonValue::Object(m),
                    ),
                    None => absent_or_null(field(field(v, "capabilities"@)->0, "experimental"@)),
                }
            },
    {
        let version = match text_member(&v, "protocolVersion") {
            Some(s) => s,
            None => { return Err(decode_failure("initialization parameters: protocolVersion")); },
        };
        let (name, impl_version) = match v.get("clientInfo") {
            Some(info) => match (text_member(info, "name"), text_member(info, "version")) {
                (Some(n), Some(ver)) => {
                    match info {
                        JsonValue::Object(_) => {},
                        _ => { return Err(decode_failure("initialization parameters: clientInfo")); },
                    }
                    (n, ver)
                },
                _ => { return Err(decode_failure("initialization parameters: clientInfo")); },
            },
            None => { return Err(decode_failure("initialization parameters: clientInfo")); },
        };
        let sampling = match v.get("capabilities") {
            Some(caps) => {
                match caps {
                    JsonValue::Object(_) => {},
                    _ => { return Err(decode_failure("initialization parameters: capabilities")); },
                }
                if !optional_object_member(caps, "experimental") || !optional_object_member(caps, "sampling") {
                    return Err(decode_failure("initialization parameters: capabilities"));
                }
                match caps.get("sampling") {
                    None => None,
                    Some(JsonValue::Null) => None,
                    Some(_) => Some(SamplingCapability {}),
                }
            },
            None => { return Err(decode_failure("initialization parameters: capabilities")); },
        };
        let ghost caps_value = field(v, "capabilities"@)->0;
        let mut fields = match v {
            JsonValue::Object(fields) => fields,
            _ => { return Err(decode_failure("initialization parameters")); },
        };
        let experimental = match take_member(&mut fields, "capabilities") {
            Some(JsonValue::Object(mut caps)) => {
                assert(caps_value == JsonValue::Object(caps));
                match take_member(&mut caps, "experimental") {
                    Some(JsonValue::Object(m)) => Some(m),
                    _ => None,
                }
            },
            _ => None,
        };
        Ok(InitializeParams {
            protocol_version: version,
            capabilities: ClientCapabilities { experimental, sampling },
            client_info: Implementation { name, version: impl_version },
        })
    }
}

impl CallToolParams {
    /// Reads the parameters of `tools/call`; a value of another shape is an
    /// invalid-params error.
    pub fn from_json(v: JsonValue) -> (r: Result<CallToolParams, McpError>)
        ensures
            r is Ok <==> call_params_ok(v),
            r matches Err(e) ==> e is InvalidParams,
            r matches Ok(p) ==> {
                &&& Some(p.name@) == str_of(field(v, "name"@))
                &&& match p.arguments {
                    Some(m) => field(v, "arguments"@) == Some(JsonValue::Object(m)),
                    None => absent_or_null(field(v, "arguments"@)),
                }
            },
    {
        let name = match text_member(&v, "name") {
            Some(s) => s,
            None => { return Err(decode_failure("tool call parameters: name")); },
        };
        if !optional_object_member(&v, "arguments") {
            return Err(decode_failure("tool call parameters: arguments"));
        }
        let mut fields = match v {
            JsonValue::Object(fields) => fields,
            _ => { return Err(decode_failure("tool call parameters")); },
        };
        let arguments = match take_member(&mut fields, "arguments") {
            Some(JsonValue::Object(m)) => Some(m),
            _ => None,
        };
        Ok(CallToolParams { name, arguments })
    }
}

impl ListToolsParams {
    /// Reads the parameters of `tools/list`; a value of another shape is an
    /// invalid-params error.
    pub fn from_json(v: &JsonValue) -> (r: Result<ListToolsParams, McpError>)
        ensures
            r is Ok <==> list_params_ok(*v),
            r matches Err(e) ==> e is InvalidParams,
    {
        match v {
            JsonValue::Object(_) => Ok(ListToolsParams {}),
            JsonValue::Array(xs) => if xs.len() == 0 {
                Ok(ListToolsParams {})
            } else {
                Err(decode_failure("tool list parameters"))
            },
            _ => Err(decode_failure("tool list parameters")),
        }
    }
}

impl JsonRpcRequest {
    /// A request with an id and no parameters.
    pub fn new(id: JsonValue, method: String) -> (r: Self)
        ensures
            r.jsonrpc@ == jsonrpc_version(),
            r.id == Some(id),
            r.method == method,
            r.params is None,
    {
        JsonRpcRequest { jsonrpc: String::from_str("2.0"), id: Some(id), method, params: None }
    }

    /// A request with an id and parameters.
    pub fn with_params(id: JsonValue, method: String, params: JsonValue) -> (r: Self)
        ensures
            r.jsonrpc@ == jsonrpc_version(),
            r.id == Some(id),
            r.method == method,
            r.params == Some(params),
    {
        JsonRpcRequest { jsonrpc: String::from_str("2.0"), id: Some(id), method, params: Some(params) }
    }
}

impl JsonRpcResponse {
    /// Whether exactly one of `result` and `error` is present.
    pub open spec fn well_formed(&self) -> bool {
        self.jsonrpc@ == jsonrpc_version() && (self.result is Some) != (self.error is Some)
    }

    /// A successful response.
    pub fn success(id: Option<JsonValue>, result: ResponseResult) -> (r: Self)
        ensures
            r.well_formed(),
            r.id == id,
            r.result == Some(result),
            r.error is None,
    {
        JsonRpcResponse { jsonrpc: String::from_str("2.0"), id, result: Some(result), error: None }
    }

    /// An error response.
    pub fn error(id: Option<JsonValue>, error: JsonRpcError) -> (r: Self)
        ensures
            r.well_formed(),
            r.id == id,
            r.result is None,
            r.error == Some(error),
    {
        JsonRpcResponse { jsonrpc: String::from_str("2.0"), id, result: None, error: Some(error) }
    }
}

impl JsonRpcError {
    /// An error object without data.
    pub fn new(code: i32, message: String) -> (r: Self)
        ensures
            r.code == code,
            r.message == message,
            r.data is None,
    {
        JsonRpcError { code, message, data: None }
    }

    /// An error object with data.
    pub fn with_data(code: i32, message: String, data: JsonValue) -> (r: Self)
        ensures
            r.code == code,
            r.message == message,
            r.data == Some(data),
    {
        JsonRpcError { code, message, data: Some(data) }
    }
}

impl ToolContent {
    /// Text content.
    pub fn text(text: String) -> (r: Self)
        ensures
            r == (ToolContent::Text { text }),
    {
        ToolContent::Text { text }
    }

    /// Image content, encoded data with its MIME type.
    pub fn image(data: String, mime_type: String) -> (r: Self)
        ensures
            r == (ToolContent::Image { data, mime_type }),
    {
        ToolContent::Image { data, mime_type }
    }

    /// A reference to the resource at `uri`, without text.
    pub fn resource(uri: String) -> (r: Self)
        ensures
            r == (ToolContent::Resource { resource: ResourceReference { uri, text: None } }),
    {
        ToolContent::Resource { resource: ResourceReference { uri, text: None } }
    }
}

} // verus!
