use mcp_core::json::JsonValue;
use mcp_core::{
    Dispatch, JsonRpcRequest, JsonRpcResponse, McpError, ReadOutcome, ResponseResult, Server,
    ServerState, Step, Tool, ToolContent, ToolInput, ToolResult,
};

type Handler = fn(&ToolInput) -> Result<ToolResult, McpError>;

fn text(s: &str) -> JsonValue {
    JsonValue::Str(s.to_string())
}

fn number(s: &str) -> JsonValue {
    JsonValue::Number(s.to_string())
}

fn object(members: Vec<(&str, JsonValue)>) -> JsonValue {
    JsonValue::Object(members.into_iter().map(|(k, v)| (k.to_string(), v)).collect())
}

fn initialize_params(version: &str) -> JsonValue {
    object(vec![
        ("protocolVersion", text(version)),
        ("capabilities", object(vec![])),
        (
            "clientInfo",
            object(vec![("name", text("test-client")), ("version", text("0.1.0"))]),
        ),
    ])
}

fn echo(input: &ToolInput) -> Result<ToolResult, McpError> {
    match input.get_argument("msg")? {
        JsonValue::Str(s) => Ok(ToolResult::text(s.clone())),
        _ => Ok(ToolResult::error("msg must be a string".to_string())),
    }
}

fn failing(_input: &ToolInput) -> Result<ToolResult, McpError> {
    Err(McpError::internal_error("backend down".to_string()))
}

fn reply(d: Dispatch) -> JsonRpcResponse {
    match d {
        Dispatch::Reply(r) => r,
        Dispatch::CallTool { .. } => panic!("expected a reply"),
    }
}

fn error_code(r: &JsonRpcResponse) -> i32 {
    assert!(r.result.is_none());
    r.error.as_ref().expect("an error").code
}

fn initialized() -> Server<Handler> {
    let mut server: Server<Handler> = Server::new("test-server".to_string(), "1.0.0".to_string());
    let r = reply(server.process_request(JsonRpcRequest::with_params(
        number("0"),
        "initialize".to_string(),
        initialize_params("2024-11-05"),
    )));
    assert!(r.error.is_none());
    server
}

/// Runs a request through the server, calling the tool's handler when one is named.
fn run(server: &mut Server<Handler>, request: JsonRpcRequest) -> JsonRpcResponse {
    match server.process_request(request) {
        Dispatch::Reply(r) => r,
        Dispatch::CallTool { id, index, input } => {
            let tool = server.tool_at(index);
            let name = tool.definition.name.clone();
            let outcome = (tool.handler)(&input);
            server.complete_call(id, name, outcome)
        },
    }
}

#[test]
fn list_before_initialize_is_invalid_request() {
    let mut server: Server<Handler> = Server::new("s".to_string(), "1".to_string());
    let r = reply(server.process_request(JsonRpcRequest::new(number("1"), "tools/list".to_string())));
    assert_eq!(error_code(&r), -32600);
    assert_eq!(r.jsonrpc, "2.0");
    assert!(matches!(r.id, Some(JsonValue::Number(ref n)) if n == "1"));
    assert_eq!(r.error.unwrap().message, "Invalid request: Server not initialized");
    assert_eq!(server.state(), ServerState::Created);
}

#[test]
fn call_before_initialize_is_invalid_request() {
    let mut server: Server<Handler> = Server::new("s".to_string(), "1".to_string());
    server.add_tool(Tool::new("echo".to_string(), "Echoes".to_string(), echo as Handler));
    let params = object(vec![("name", text("echo")), ("arguments", object(vec![("msg", text("hi"))]))]);
    let r = reply(server.process_request(JsonRpcRequest::with_params(
        number("2"),
        "tools/call".to_string(),
        params,
    )));
    assert_eq!(error_code(&r), -32600);
    assert_eq!(server.state(), ServerState::Created);
}

#[test]
fn initialize_reports_fixed_version_and_name() {
    let mut server: Server<Handler> = Server::new("misp-mcp".to_string(), "0.1.0".to_string());
    let r = reply(server.process_request(JsonRpcRequest::with_params(
        number("1"),
        "initialize".to_string(),
        initialize_params("2024-11-05"),
    )));
    assert!(r.error.is_none());
    match r.result {
        Some(ResponseResult::Initialize(res)) => {
            assert_eq!(res.protocol_version, "2024-11-05");
            assert_eq!(res.server_info.name, "misp-mcp");
            assert_eq!(res.server_info.version, "0.1.0");
            assert!(res.capabilities.tools.is_some());
            assert!(res.capabilities.prompts.is_none());
        },
        other => panic!("unexpected result {:?}", other),
    }
    assert_eq!(server.state(), ServerState::Initialized);
}

#[test]
fn initialize_does_not_negotiate_down() {
    let mut server: Server<Handler> = Server::new("s".to_string(), "1".to_string());
    let r = reply(server.process_request(JsonRpcRequest::with_params(
        number("1"),
        "initialize".to_string(),
        initialize_params("2023-01-01"),
    )));
    match r.result {
        Some(ResponseResult::Initialize(res)) => assert_eq!(res.protocol_version, "2024-11-05"),
        other => panic!("unexpected result {:?}", other),
    }
}

#[test]
fn second_initialize_is_invalid_request() {
    let mut server = initialized();
    let r = reply(server.process_request(JsonRpcRequest::with_params(
        number("7"),
        "initialize".to_string(),
        initialize_params("2024-11-05"),
    )));
    assert_eq!(error_code(&r), -32600);
    assert_eq!(r.error.unwrap().message, "Invalid request: Server already initialized");
    assert_eq!(server.state(), ServerState::Initialized);
}

#[test]
fn initialize_without_params_is_invalid_params() {
    let mut server: Server<Handler> = Server::new("s".to_string(), "1".to_string());
    let r = reply(server.process_request(JsonRpcRequest::new(number("1"), "initialize".to_string())));
    assert_eq!(error_code(&r), -32602);
    assert_eq!(r.error.unwrap().message, "Invalid params: Missing initialization parameters");
    assert_eq!(server.state(), ServerState::Created);
}

#[test]
fn initialize_with_empty_version_is_invalid_params() {
    let mut server: Server<Handler> = Server::new("s".to_string(), "1".to_string());
    let r = reply(server.process_request(JsonRpcRequest::with_params(
        number("1"),
        "initialize".to_string(),
        initialize_params(""),
    )));
    assert_eq!(error_code(&r), -32602);
    assert_eq!(r.error.unwrap().message, "Invalid params: Protocol version is required");
    assert_eq!(server.state(), ServerState::Created);
}

#[test]
fn initialize_with_malformed_params_is_invalid_params() {
    let mut server: Server<Handler> = Server::new("s".to_string(), "1".to_string());
    let r = reply(server.process_request(JsonRpcRequest::with_params(
        number("1"),
        "initialize".to_string(),
        object(vec![("protocolVersion", text("2024-11-05"))]),
    )));
    assert_eq!(error_code(&r), -32602);
    assert_eq!(server.state(), ServerState::Created);
}

#[test]
fn unknown_method_after_initialize_names_the_method() {
    let mut server = initialized();
    let r = reply(server.process_request(JsonRpcRequest::new(number("3"), "prompts/list".to_string())));
    assert_eq!(error_code(&r), -32601);
    assert_eq!(r.error.unwrap().message, "Method not found: prompts/list");
}

#[test]
fn unknown_method_before_initialize_is_method_not_found() {
    let mut server: Server<Handler> = Server::new("s".to_string(), "1".to_string());
    let r = reply(server.process_request(JsonRpcRequest::new(number("3"), "ping".to_string())));
    assert_eq!(error_code(&r), -32601);
}

#[test]
fn echo_tool_returns_its_message() {
    let mut server = initialized();
    server.add_tool(Tool::new("echo".to_string(), "Echoes msg".to_string(), echo as Handler));
    let params = object(vec![("name", text("echo")), ("arguments", object(vec![("msg", text("hi"))]))]);
    let r = run(&mut server, JsonRpcRequest::with_params(number("4"), "tools/call".to_string(), params));
    assert!(r.error.is_none());
    assert!(matches!(r.id, Some(JsonValue::Number(ref n)) if n == "4"));
    match r.result {
        Some(ResponseResult::ToolCall(c)) => {
            assert_eq!(c.content.len(), 1);
            assert!(matches!(&c.content[0], ToolContent::Text { text } if text == "hi"));
            assert_eq!(c.is_error, None);
        },
        other => panic!("unexpected result {:?}", other),
    }
}

#[test]
fn unknown_tool_is_tool_not_found() {
    let mut server = initialized();
    let params = object(vec![("name", text("nope"))]);
    let r = run(&mut server, JsonRpcRequest::with_params(number("5"), "tools/call".to_string(), params));
    assert_eq!(error_code(&r), -32000);
    assert_eq!(r.error.unwrap().message, "Tool not found: nope");
}

#[test]
fn call_without_params_is_invalid_params() {
    let mut server = initialized();
    let r = run(&mut server, JsonRpcRequest::new(number("5"), "tools/call".to_string()));
    assert_eq!(error_code(&r), -32602);
    assert_eq!(r.error.unwrap().message, "Invalid params: Missing tool call parameters");
}

#[test]
fn call_without_name_is_invalid_params() {
    let mut server = initialized();
    let r = run(
        &mut server,
        JsonRpcRequest::with_params(number("5"), "tools/call".to_string(), object(vec![])),
    );
    assert_eq!(error_code(&r), -32602);
}

#[test]
fn failing_handler_is_tool_execution_error() {
    let mut server = initialized();
    server.add_tool(Tool::new("broken".to_string(), "Fails".to_string(), failing as Handler));
    let params = object(vec![("name", text("broken"))]);
    let r = run(&mut server, JsonRpcRequest::with_params(number("6"), "tools/call".to_string(), params));
    assert_eq!(error_code(&r), -32001);
    assert_eq!(
        r.error.unwrap().message,
        "Tool execution failed: broken - Internal error: backend down"
    );
}

#[test]
fn missing_argument_is_reported_through_the_handler() {
    let mut server = initialized();
    server.add_tool(Tool::new("echo".to_string(), "Echoes msg".to_string(), echo as Handler));
    let params = object(vec![("name", text("echo")), ("arguments", JsonValue::Null)]);
    let r = run(&mut server, JsonRpcRequest::with_params(number("8"), "tools/call".to_string(), params));
    assert_eq!(error_code(&r), -32001);
    assert_eq!(
        r.error.unwrap().message,
        "Tool execution failed: echo - Invalid params: Missing required argument: msg"
    );
}

#[test]
fn list_tools_after_initialize() {
    let mut server = initialized();
    server.add_tool(Tool::new("a".to_string(), "first".to_string(), echo as Handler));
    server.add_tool(Tool::new("b".to_string(), "second".to_string(), echo as Handler));
    let r = run(&mut server, JsonRpcRequest::new(number("9"), "tools/list".to_string()));
    match r.result {
        Some(ResponseResult::ToolList(l)) => {
            let names: Vec<&str> = l.tools.iter().map(|t| t.name.as_str()).collect();
            assert_eq!(names, vec!["a", "b"]);
            assert_eq!(l.tools[1].description, "second");
            assert_eq!(l.tools[0].input_schema.schema_type, "object");
        },
        other => panic!("unexpected result {:?}", other),
    }
}

#[test]
fn list_tools_with_bad_params_is_invalid_params() {
    let mut server = initialized();
    let r = run(
        &mut server,
        JsonRpcRequest::with_params(number("9"), "tools/list".to_string(), text("x")),
    );
    assert_eq!(error_code(&r), -32602);
}

#[test]
fn string_id_comes_back_unchanged() {
    let mut server: Server<Handler> = Server::new("s".to_string(), "1".to_string());
    let r = reply(server.process_request(JsonRpcRequest::new(text("abc"), "tools/list".to_string())));
    assert!(matches!(r.id, Some(JsonValue::Str(ref s)) if s == "abc"));
    let r = reply(server.process_request(JsonRpcRequest::new(number("1.5"), "tools/list".to_string())));
    assert!(matches!(r.id, Some(JsonValue::Number(ref s)) if s == "1.5"));
}

#[test]
fn every_response_has_result_or_error() {
    let mut server: Server<Handler> = Server::new("s".to_string(), "1".to_string());
    server.add_tool(Tool::new("echo".to_string(), "Echoes".to_string(), echo as Handler));
    let requests = vec![
        JsonRpcRequest::new(number("1"), "tools/list".to_string()),
        JsonRpcRequest::with_params(number("2"), "initialize".to_string(), initialize_params("2024-11-05")),
        JsonRpcRequest::new(number("3"), "tools/list".to_string()),
        JsonRpcRequest::new(number("4"), "unknown".to_string()),
        JsonRpcRequest::with_params(
            number("5"),
            "tools/call".to_string(),
            object(vec![("name", text("echo")), ("arguments", object(vec![("msg", text("x"))]))]),
        ),
    ];
    for request in requests {
        let r = run(&mut server, request);
        assert!(r.result.is_some() != r.error.is_some());
    }
}

#[test]
fn end_of_stream_is_a_clean_stop() {
    let mut server: Server<Handler> = Server::new("s".to_string(), "1".to_string());
    let step = server.handle_read(ReadOutcome::EndOfStream);
    assert!(matches!(step, Step::Stop { clean: true }));
    assert_eq!(server.state(), ServerState::Shutdown);
}

#[test]
fn transport_failure_is_an_unclean_stop() {
    let mut server = initialized();
    let step = server.handle_read(ReadOutcome::Failed(McpError::transport_error("broken pipe".to_string())));
    assert!(matches!(step, Step::Stop { clean: false }));
    assert_eq!(server.state(), ServerState::Shutdown);
}

#[test]
fn malformed_line_is_answered_with_parse_error() {
    let mut server = initialized();
    let step = server.handle_read(ReadOutcome::Malformed {
        id: Some(number("12")),
        error: McpError::parse_error("Invalid JSON-RPC request: bad".to_string()),
    });
    match step {
        Step::Dispatch(Dispatch::Reply(r)) => {
            assert_eq!(error_code(&r), -32700);
            assert!(matches!(r.id, Some(JsonValue::Number(ref n)) if n == "12"));
            assert_eq!(r.error.unwrap().message, "Parse error: Invalid JSON-RPC request: bad");
        },
        other => panic!("unexpected step {:?}", other),
    }
    assert_eq!(server.state(), ServerState::Initialized);
}

#[test]
fn add_tool_counts_unique_names() {
    let mut server: Server<Handler> = Server::new("s".to_string(), "1".to_string());
    assert_eq!(server.tool_count(), 0);
    server.add_tool(Tool::new("x".to_string(), "one".to_string(), echo as Handler));
    server.add_tool(Tool::new("x".to_string(), "two".to_string(), failing as Handler));
    assert_eq!(server.tool_count(), 1);
    assert_eq!(server.tool_at(0).definition.description, "two");
}

#[test]
fn handlers_answer_directly() {
    let mut server: Server<Handler> = Server::new("s".to_string(), "1".to_string());
    assert!(matches!(server.handle_list_tools(&None), Err(McpError::InvalidRequest { .. })));
    assert!(matches!(
        server.handle_call_tool(Some(object(vec![("name", text("echo"))]))),
        Err(McpError::InvalidRequest { .. })
    ));
    assert!(matches!(server.handle_initialize(Some(object(vec![]))), Err(McpError::InvalidParams { .. })));
    assert_eq!(server.state(), ServerState::Created);
    let res = server.handle_initialize(Some(initialize_params("1999-01-01"))).unwrap();
    assert_eq!(res.protocol_version, "2024-11-05");
    assert_eq!(server.state(), ServerState::Initialized);
    assert!(matches!(
        server.handle_initialize(Some(initialize_params("2024-11-05"))),
        Err(McpError::InvalidRequest { .. })
    ));
    assert!(matches!(server.handle_call_tool(Some(object(vec![]))), Err(McpError::InvalidParams { .. })));
    match server.handle_call_tool(Some(object(vec![("name", text("nope"))]))) {
        Err(e) => assert_eq!(e.to_json_rpc_code(), -32000),
        Ok(_) => panic!("expected tool-not-found"),
    }
    assert_eq!(server.handle_list_tools(&Some(object(vec![]))).unwrap().tools.len(), 0);
}
