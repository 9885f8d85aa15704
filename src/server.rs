//! The server: its lifecycle state, the dispatch of each request by method,
//! and the decisions of the read-dispatch-write loop. The loop itself, with
//! its reads, writes and awaited handlers, runs outside; it hands each event
//! to `handle_read` and carries out the step that comes back.
use vstd::prelude::*;
use crate::error::{McpError, code_of, message_of};
use crate::json::{JsonValue, field, str_of};
use crate::protocol::{
    CallToolParams, Implementation, InitializeParams, InitializeResult,
    JsonRpcError, JsonRpcRequest, JsonRpcResponse, ListToolsParams, ListToolsResult,
    ResponseResult, ServerCapabilities, ToolsCapability, call_params_ok, initialize_params_ok,
    list_params_ok,
};
use crate::registry::{
    Tool, ToolInput, ToolRegistry, ToolResult, has_tool, index_of, same_definition,
};

verus! {

/// The protocol version that this server speaks, whatever the client asks for.
pub open spec fn server_protocol_version() -> Seq<char> {
    "2024-11-05"@
}

/// The lifecycle of a server: `Created`, then `Initialized`, then `Shutdown`,
/// never backwards.
#[derive(Debug, Clone, Copy, PartialEq, Eq, Structural)]
pub enum ServerState {
    Created,
    Initialized,
    Shutdown,
}

/// What the server does with one request: answer it at once, or have the
/// handler of the tool at `index` run on `input` first.
#[derive(Debug)]
pub enum Dispatch {
    Reply(JsonRpcResponse),
    CallTool { id: Option<JsonValue>, index: usize, input: ToolInput },
}

/// What one read of the transport produced.
#[derive(Debug)]
pub enum ReadOutcome {
    /// A well-formed request.
    Request(JsonRpcRequest),
    /// The peer closed the stream.
    EndOfStream,
    /// A line that is no request; `id` is what could be recovered of its id.
    Malformed { id: Option<JsonValue>, error: McpError },
    /// The transport failed.
    Failed(McpError),
}

/// What the loop does next.
#[derive(Debug)]
pub enum Step {
    /// Carry out this dispatch, write its response, and read again.
    Dispatch(Dispatch),
    /// Leave the loop; `clean` tells a closed stream from a failure.
    Stop { clean: bool },
}

/// An error response to the request `id` with the given code and text.
pub open spec fn error_reply(r: JsonRpcResponse, id: Option<JsonValue>, code: int, text: Seq<char>) -> bool {
    &&& r.well_formed()
    &&& r.id == id
    &&& r.result is None
    &&& r.error matches Some(e) && e.code as int == code && e.message@ == text && e.data is None
}

/// A dispatch that answers `id` with an error of the given code and text.
pub open spec fn rejects(d: Dispatch, id: Option<JsonValue>, code: int, text: Seq<char>) -> bool {
    d matches Dispatch::Reply(r) && error_reply(r, id, code, text)
}

/// A dispatch that answers `id` with an error of the given code.
pub open spec fn rejects_with_code(d: Dispatch, id: Option<JsonValue>, code: int) -> bool {
    d matches Dispatch::Reply(r) && (r.well_formed() && r.id == id && r.result is None && (
    r.error matches Some(e) && e.code as int == code && e.data is None))
}

/// A dispatch that answers `id` successfully.
pub open spec fn succeeds(d: Dispatch, id: Option<JsonValue>) -> bool {
    d matches Dispatch::Reply(r) && r.well_formed() && r.id == id && r.result is Some
}

/// The answer to `initialize` from a server named `name`, version `version`.
pub open spec fn initialize_answer(d: Dispatch, name: Seq<char>, version: Seq<char>) -> bool {
    d matches Dispatch::Reply(r) && r.result matches Some(ResponseResult::Initialize(res)) && {
        &&& res.protocol_version@ == server_protocol_version()
        &&& res.server_info.name@ == name
        &&& res.server_info.version@ == version
        &&& res.capabilities.tools == Some(ToolsCapability { list_changed: None })
        &&& res.capabilities.experimental is None
        &&& res.capabilities.logging is None
        &&& res.capabilities.prompts is None
        &&& res.capabilities.resources is None
    }
}

/// The answer to `tools/list`: a copy of each definition, in registration order.
pub open spec fn list_answer<H>(d: Dispatch, tools: Seq<Tool<H>>) -> bool {
    d matches Dispatch::Reply(r) && r.result matches Some(ResponseResult::ToolList(l))
        && l.tools@.len() == tools.len() && forall|i: int|
        0 <= i < tools.len() ==> same_definition(#[trigger] tools[i].definition, l.tools@[i])
}

/// The arguments of a call: the object given, or none.
pub open spec fn arguments_given(p: JsonValue, args: Seq<(String, JsonValue)>) -> bool {
    match field(p, "arguments"@) {
        Some(JsonValue::Object(m)) => args == m@,
        _ => args.len() == 0,
    }
}

/// The handling of one request, for a server in state `st` with the given
/// tools, name and version, that dispatches `d` and moves to state `next`.
pub open spec fn answers<H>(
    st: ServerState,
    tools: Seq<Tool<H>>,
    name: Seq<char>,
    version: Seq<char>,
    request: JsonRpcRequest,
    d: Dispatch,
    next: ServerState,
) -> bool {
    let m = request.method@;
    let id = request.id;
    if m == "initialize"@ {
        if st != ServerState::Created {
            next == st && rejects(d, id, -32600, "Invalid request: "@ + "Server already initialized"@)
        } else {
            match request.params {
                None => next == st && rejects(
                    d,
                    id,
                    -32602,
                    "Invalid params: "@ + "Missing initialization parameters"@,
                ),
                Some(p) => if !initialize_params_ok(p) {
                    next == st && rejects_with_code(d, id, -32602)
                } else if str_of(field(p, "protocolVersion"@))->0.len() == 0 {
                    next == st && rejects(d, id, -32602, "Invalid params: "@ + "Protocol version is required"@)
                } else {
                    next == ServerState::Initialized && succeeds(d, id) && initialize_answer(
                        d,
                        name,
                        version,
                    )
                },
            }
        }
    } else if m == "tools/list"@ {
        next == st && if st != ServerState::Initialized {
            rejects(d, id, -32600, "Invalid request: "@ + "Server not initialized"@)
        } else if request.params matches Some(p) && !list_params_ok(p) {
            rejects_with_code(d, id, -32602)
        } else {
            succeeds(d, id) && list_answer(d, tools)
        }
    } else if m == "tools/call"@ {
        next == st && if st != ServerState::Initialized {
            rejects(d, id, -32600, "Invalid request: "@ + "Server not initialized"@)
        } else {
            match request.params {
                None => rejects(d, id, -32602, "Invalid params: "@ + "Missing tool call parameters"@),
                Some(p) => if !call_params_ok(p) {
                    rejects_with_code(d, id, -32602)
                } else {
                    let tool = str_of(field(p, "name"@))->0;
                    if !has_tool(tools, tool) {
                        rejects(d, id, -32000, "Tool not found: "@ + tool)
                    } else {
                        d matches Dispatch::CallTool { id: call_id, index, input } && call_id == id
                            && index == index_of(tools, tool) && input.name@ == tool
                            && arguments_given(p, input.arguments@)
                    }
                },
            }
        }
    } else {
        next == st && rejects(d, id, -32601, "Method not found: "@ + m)
    }
}

/// The server: its name and version, its state and its tools. It advertises
/// the tools capability and nothing else.
pub struct Server<H> {
    server_info: Implementation,
    state: ServerState,
    tool_registry: ToolRegistry<H>,
}

/// Whether a string holds exactly the given text.
fn same_text(s: &String, text: &str) -> (r: bool)
    ensures
        r == (s@ == text@),
{
    *s == String::from_str(text)
}

/// An error response to `id` that carries the error's code and text.
pub fn create_error_response(id: Option<JsonValue>, error: McpError) -> (r: JsonRpcResponse)
    ensures
        error_reply(r, id, code_of(error), message_of(error)),
{
    let e = JsonRpcError::new(error.to_json_rpc_code(), error.to_message());
    JsonRpcResponse::error(id, e)
}

/// The capabilities that a server advertises: tools, and nothing else.
fn tools_only() -> (r: ServerCapabilities)
    ensures
        r.tools == Some(ToolsCapability { list_changed: None }),
        r.experimental is None,
        r.logging is None,
        r.prompts is None,
        r.resources is None,
{
    ServerCapabilities {
        experimental: None,
        logging: None,
        prompts: None,
        resources: None,
        tools: Some(ToolsCapability { list_changed: None }),
    }
}

impl<H> Server<H> {
    /// The current lifecycle state.
    pub closed spec fn spec_state(&self) -> ServerState {
        self.state
    }

    /// The registered tools.
    pub closed spec fn tools(&self) -> Seq<Tool<H>> {
        self.tool_registry@
    }

    /// The server's name.
    pub closed spec fn name(&self) -> Seq<char> {
        self.server_info.name@
    }

    /// The server's version.
    pub closed spec fn version(&self) -> Seq<char> {
        self.server_info.version@
    }

    /// A server in the `Created` state, without tools.
    pub fn new(name: String, version: String) -> (r: Self)
        ensures
            r.spec_state() == ServerState::Created,
            r.tools().len() == 0,
            r.name() == name@,
            r.version() == version@,
    {
        Server {
            server_info: Implementation { name, version },
            state: ServerState::Created,
            tool_registry: ToolRegistry::new(),
        }
    }

    /// Registers a tool, replacing any tool of the same name.
    pub fn add_tool(&mut self, tool: Tool<H>)
        ensures
            final(self).tools() == crate::registry::registered(old(self).tools(), tool),
            final(self).spec_state() == old(self).spec_state(),
            final(self).name() == old(self).name(),
            final(self).version() == old(self).version(),
    {
        self.tool_registry.register(tool);
    }

    /// The current lifecycle state.
    pub fn state(&self) -> (r: ServerState)
        ensures
            r == self.spec_state(),
    {
        self.state
    }

    /// The number of registered tools.
    pub fn tool_count(&self) -> (r: usize)
        ensures
            r == self.tools().len(),
    {
        self.tool_registry.len()
    }

    /// The tool at position `index`, as a dispatch names it.
    pub fn tool_at(&self, index: usize) -> (r: &Tool<H>)
        requires
            index < self.tools().len(),
        ensures
            *r == self.tools()[index as int],
    {
        self.tool_registry.tool_at(index)
    }

    /// Answers `initialize`.
    pub fn handle_initialize(&mut self, params: Option<JsonValue>) -> (r: Result<InitializeResult, McpError>)
        ensures
            final(self).tools() == old(self).tools(),
            final(self).name() == old(self).name(),
            final(self).version() == old(self).version(),
            old(self).spec_state() != ServerState::Created ==> final(self).spec_state() == old(self).spec_state()
                && (r matches Err(McpError::InvalidRequest { message })
                && message@ == "Server already initialized"@),
            old(self).spec_state() == ServerState::Created ==> match params {
                None => final(self).spec_state() == old(self).spec_state()
                    && (r matches Err(McpError::InvalidParams { message })
                    && message@ == "Missing initialization parameters"@),
                Some(p) => if !initialize_params_ok(p) {
                    final(self).spec_state() == old(self).spec_state() && (r matches Err(e)
                        && e is InvalidParams)
                } else if str_of(field(p, "protocolVersion"@))->0.len() == 0 {
                    final(self).spec_state() == old(self).spec_state()
                        && (r matches Err(McpError::InvalidParams { message })
                        && message@ == "Protocol version is required"@)
                } else {
                    final(self).spec_state() == ServerState::Initialized && (r matches Ok(res) && {
                        &&& res.protocol_version@ == server_protocol_version()
                        &&& res.server_info.name@ == old(self).name()
                        &&& res.server_info.version@ == old(self).version()
                        &&& res.capabilities.tools == Some(ToolsCapability { list_changed: None })
                        &&& res.capabilities.experimental is None
                        &&& res.capabilities.logging is None
                        &&& res.capabilities.prompts is None
                        &&& res.capabilities.resources is None
                    })
                },
            },
    {
        if self.state != ServerState::Created {
            return Err(McpError::invalid_request(String::from_str("Server already initialized")));
        }
        let params: InitializeParams = match params {
            Some(p) => InitializeParams::from_json(p)?,
            None => {
                return Err(McpError::invalid_params(String::from_str("Missing initialization parameters")));
            },
        };
        if params.protocol_version.as_str().is_empty() {
            return Err(McpError::invalid_params(String::from_str("Protocol version is required")));
        }
        self.state = ServerState::Initialized;
        Ok(InitializeResult {
            protocol_version: String::from_str("2024-11-05"),
            capabilities: tools_only(),
            server_info: Implementation {
                name: self.server_info.name.clone(),
                version: self.server_info.version.clone(),
            },
        })
    }

    /// Answers `tools/list`.
    pub fn handle_list_tools(&self, params: &Option<JsonValue>) -> (r: Result<ListToolsResult, McpError>)
        ensures
            self.spec_state() != ServerState::Initialized ==> (r matches Err(
                McpError::InvalidRequest { message },
            ) && message@ == "Server not initialized"@),
            self.spec_state() == ServerState::Initialized ==> if *params matches Some(p) && !list_params_ok(p) {
                r matches Err(e) && e is InvalidParams
            } else {
                r matches Ok(l) && l.tools@.len() == self.tools().len() && forall|i: int|
                    0 <= i < self.tools().len() ==> same_definition(
                        #[trigger] self.tools()[i].definition,
                        l.tools@[i],
                    )
            },
    {
        if self.state != ServerState::Initialized {
            return Err(McpError::invalid_request(String::from_str("Server not initialized")));
        }
        let _params: ListToolsParams = match params {
            Some(p) => ListToolsParams::from_json(p)?,
            None => ListToolsParams {},
        };
        Ok(ListToolsResult { tools: self.tool_registry.list_tools() })
    }

    /// Answers `tools/call` as far as it can without running the handler:
    /// the position of the tool and its input.
    pub fn handle_call_tool(&self, params: Option<JsonValue>) -> (r: Result<(usize, ToolInput), McpError>)
        ensures
            self.spec_state() != ServerState::Initialized ==> (r matches Err(
                McpError::InvalidRequest { message },
            ) && message@ == "Server not initialized"@),
            self.spec_state() == ServerState::Initialized ==> match params {
                None => r matches Err(McpError::InvalidParams { message })
                    && message@ == "Missing tool call parameters"@,
                Some(p) => if !call_params_ok(p) {
                    r matches Err(e) && e is InvalidParams
                } else {
                    let tool = str_of(field(p, "name"@))->0;
                    if !has_tool(self.tools(), tool) {
                        r matches Err(McpError::ToolNotFound { tool_name }) && tool_name@ == tool
                    } else {
                        r matches Ok((index, input)) && index == index_of(self.tools(), tool)
                            && input.name@ == tool && arguments_given(p, input.arguments@)
                    }
                },
            },
    {
        if self.state != ServerState::Initialized {
            return Err(McpError::invalid_request(String::from_str("Server not initialized")));
        }
        let params: CallToolParams = match params {
            Some(p) => CallToolParams::from_json(p)?,
            None => {
                return Err(McpError::invalid_params(String::from_str("Missing tool call parameters")));
            },
        };
        let arguments = match params.arguments {
            Some(m) => m,
            None => Vec::new(),
        };
        self.tool_registry.prepare_call(params.name, arguments)
    }

    /// Decides what to do with one request: answer it, or call a tool.
    pub fn process_request(&mut self, request: JsonRpcRequest) -> (d: Dispatch)
        ensures
            answers(
                old(self).spec_state(),
                old(self).tools(),
                old(self).name(),
                old(self).version(),
                request,
                d,
                final(self).spec_state(),
            ),
            final(self).tools() == old(self).tools(),
            final(self).name() == old(self).name(),
            final(self).version() == old(self).version(),
    {
        let JsonRpcRequest { jsonrpc: _, id, method, params } = request;
        if same_text(&method, "initialize") {
            match self.handle_initialize(params) {
                Ok(result) => Dispatch::Reply(JsonRpcResponse::success(id, ResponseResult::Initialize(result))),
                Err(e) => Dispatch::Reply(create_error_response(id, e)),
            }
        } else if same_text(&method, "tools/list") {
            match self.handle_list_tools(&params) {
                Ok(result) => Dispatch::Reply(JsonRpcResponse::success(id, ResponseResult::ToolList(result))),
                Err(e) => Dispatch::Reply(create_error_response(id, e)),
            }
        } else if same_text(&method, "tools/call") {
            match self.handle_call_tool(params) {
                Ok((index, input)) => Dispatch::CallTool { id, index, input },
                Err(e) => Dispatch::Reply(create_error_response(id, e)),
            }
        } else {
            Dispatch::Reply(create_error_response(id, McpError::method_not_found(method)))
        }
    }

    /// Turns the outcome of a tool's handler into the response to the call
    /// `id`: its result, or a tool-execution error.
    pub fn complete_call(&self, id: Option<JsonValue>, name: String, outcome: Result<ToolResult, McpError>) -> (r: JsonRpcResponse)
        ensures
            r.well_formed(),
            r.id == id,
            outcome matches Ok(res) ==> r.result matches Some(ResponseResult::ToolCall(c))
                && c.content == res.content
                && c.is_error == (if res.is_error { Some(true) } else { None::<bool> }),
            outcome matches Err(e) ==> error_reply(
                r,
                id,
                -32001,
                "Tool execution failed: "@ + name@ + " - "@ + message_of(e),
            ),
    {
        match ToolRegistry::<H>::finish_call(name, outcome) {
            Ok(result) => JsonRpcResponse::success(id, ResponseResult::ToolCall(result.into_call_result())),
            Err(e) => create_error_response(id, e),
        }
    }

    /// Moves the server to `Shutdown`.
    pub fn shut_down(&mut self)
        ensures
            final(self).spec_state() == ServerState::Shutdown,
            final(self).tools() == old(self).tools(),
            final(self).name() == old(self).name(),
            final(self).version() == old(self).version(),
    {
        self.state = ServerState::Shutdown;
    }

    /// Decides the next step of the loop from what the transport produced:
    /// a request is dispatched, a malformed line is answered with its error,
    /// and a closed stream or a failed transport ends the loop in `Shutdown`.
    pub fn handle_read(&mut self, read: ReadOutcome) -> (step: Step)
        ensures
            final(self).tools() == old(self).tools(),
            final(self).name() == old(self).name(),
            final(self).version() == old(self).version(),
            match read {
                ReadOutcome::Request(request) => step matches Step::Dispatch(d) && answers(
                    old(self).spec_state(),
                    old(self).tools(),
                    old(self).name(),
                    old(self).version(),
                    request,
                    d,
                    final(self).spec_state(),
                ),
                ReadOutcome::EndOfStream => step == (Step::Stop { clean: true })
                    && final(self).spec_state() == ServerState::Shutdown,
                ReadOutcome::Malformed { id, error } => (step matches Step::Dispatch(
                    Dispatch::Reply(r),
                ) && error_reply(r, id, code_of(error), message_of(error)))
                    && final(self).spec_state() == old(self).spec_state(),
                ReadOutcome::Failed(_) => step == (Step::Stop { clean: false })
                    && final(self).spec_state() == ServerState::Shutdown,
            },
    {
        match read {
            ReadOutcome::Request(request) => Step::Dispatch(self.process_request(request)),
            ReadOutcome::EndOfStream => {
                self.shut_down();
                Step::Stop { clean: true }
            },
            ReadOutcome::Malformed { id, error } => Step::Dispatch(
                Dispatch::Reply(create_error_response(id, error)),
            ),
            ReadOutcome::Failed(_) => {
                self.shut_down();
                Step::Stop { clean: false }
            },
        }
    }
}

/// The three method names differ from one another.
proof fn lemma_methods_differ()
    ensures
        "initialize"@ != "tools/list"@,
        "initialize"@ != "tools/call"@,
        "tools/list"@ != "tools/call"@,
{
    reveal_strlit("initialize");
    reveal_strlit("tools/list");
    reveal_strlit("tools/call");
    assert("initialize"@[0] != "tools/list"@[0]);
    assert("initialize"@[0] != "tools/call"@[0]);
    assert("tools/list"@[6] != "tools/call"@[6]);
}

/// Every dispatch answers the id of its request: a reply carries it, and so
/// does a tool call, which `complete_call` answers under the same id.
pub proof fn law_dispatch_keeps_id<H>(
    st: ServerState,
    tools: Seq<Tool<H>>,
    name: Seq<char>,
    version: Seq<char>,
    request: JsonRpcRequest,
    d: Dispatch,
    next: ServerState,
)
    requires
        answers(st, tools, name, version, request, d, next),
    ensures
        d matches Dispatch::Reply(r) ==> r.id == request.id,
        d matches Dispatch::CallTool { id, .. } ==> id == request.id,
{
}

/// Every response that the server dispatches holds exactly one of a result
/// and an error.
pub proof fn law_reply_well_formed<H>(
    st: ServerState,
    tools: Seq<Tool<H>>,
    name: Seq<char>,
    version: Seq<char>,
    request: JsonRpcRequest,
    d: Dispatch,
    next: ServerState,
)
    requires
        answers(st, tools, name, version, request, d, next),
    ensures
        d matches Dispatch::Reply(r) ==> r.well_formed(),
{
}

/// Before initialization, listing or calling tools is an invalid request,
/// whatever the parameters, and the state stays.
pub proof fn law_tools_need_initialize<H>(
    tools: Seq<Tool<H>>,
    name: Seq<char>,
    version: Seq<char>,
    request: JsonRpcRequest,
    d: Dispatch,
    next: ServerState,
)
    requires
        answers(ServerState::Created, tools, name, version, request, d, next),
        request.method@ == "tools/list"@ || request.method@ == "tools/call"@,
    ensures
        d matches Dispatch::Reply(r) && (r.error matches Some(e) && e.code == -32600),
        next == ServerState::Created,
{
    lemma_methods_differ();
}

/// A second `initialize` after a successful one is an invalid request.
pub proof fn law_initialize_once<H>(
    tools: Seq<Tool<H>>,
    name: Seq<char>,
    version: Seq<char>,
    request: JsonRpcRequest,
    d: Dispatch,
    next: ServerState,
)
    requires
        answers(ServerState::Initialized, tools, name, version, request, d, next),
        request.method@ == "initialize"@,
    ensures
        d matches Dispatch::Reply(r) && (r.error matches Some(e) && e.code == -32600),
        next == ServerState::Initialized,
{
}

/// Once initialized, any method other than `initialize`, `tools/list` and
/// `tools/call` is not found, and the error names the method.
pub proof fn law_unknown_method<H>(
    tools: Seq<Tool<H>>,
    name: Seq<char>,
    version: Seq<char>,
    request: JsonRpcRequest,
    d: Dispatch,
    next: ServerState,
)
    requires
        answers(ServerState::Initialized, tools, name, version, request, d, next),
        request.method@ != "initialize"@,
        request.method@ != "tools/list"@,
        request.method@ != "tools/call"@,
    ensures
        d matches Dispatch::Reply(r) && (r.error matches Some(e) && e.code == -32601
            && e.message@ == "Method not found: "@ + request.method@),
        next == ServerState::Initialized,
{
}

/// Calling a tool that is not registered is a tool-not-found error, and no
/// handler runs.
pub proof fn law_unknown_tool<H>(
    tools: Seq<Tool<H>>,
    name: Seq<char>,
    version: Seq<char>,
    request: JsonRpcRequest,
    d: Dispatch,
    next: ServerState,
)
    requires
        answers(ServerState::Initialized, tools, name, version, request, d, next),
        request.method@ == "tools/call"@,
        request.params matches Some(p) && call_params_ok(p) && !has_tool(
            tools,
            str_of(field(p, "name"@))->0,
        ),
    ensures
        d matches Dispatch::Reply(r) && (r.error matches Some(e) && e.code == -32000),
{
    lemma_methods_differ();
}

} // verus!
