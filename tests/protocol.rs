use mcp_core::json::JsonValue;
use mcp_core::{
    CallToolParams, Config, InitializeParams, JsonRpcError, JsonRpcRequest, JsonRpcResponse,
    ListToolsParams, McpError, ReadOutcome, ToolContent, decode_request, frame_line,
};

fn object(members: Vec<(&str, JsonValue)>) -> JsonValue {
    JsonValue::Object(members.into_iter().map(|(k, v)| (k.to_string(), v)).collect())
}

fn text(s: &str) -> JsonValue {
    JsonValue::Str(s.to_string())
}

#[test]
fn error_codes_are_fixed() {
    let s = || "m".to_string();
    assert_eq!(McpError::parse_error(s()).to_json_rpc_code(), -32700);
    assert_eq!(McpError::invalid_request(s()).to_json_rpc_code(), -32600);
    assert_eq!(McpError::method_not_found(s()).to_json_rpc_code(), -32601);
    assert_eq!(McpError::invalid_params(s()).to_json_rpc_code(), -32602);
    assert_eq!(McpError::internal_error(s()).to_json_rpc_code(), -32603);
    assert_eq!(McpError::tool_not_found(s()).to_json_rpc_code(), -32000);
    assert_eq!(McpError::tool_execution_error(s(), s()).to_json_rpc_code(), -32001);
    assert_eq!(McpError::transport_error(s()).to_json_rpc_code(), -32002);
    assert_eq!(McpError::serialization_error(s()).to_json_rpc_code(), -32003);
}

#[test]
fn error_messages_name_their_kind() {
    assert_eq!(McpError::parse_error("x".to_string()).to_message(), "Parse error: x");
    assert_eq!(McpError::invalid_request("x".to_string()).to_message(), "Invalid request: x");
    assert_eq!(McpError::method_not_found("m".to_string()).to_message(), "Method not found: m");
    assert_eq!(McpError::invalid_params("x".to_string()).to_message(), "Invalid params: x");
    assert_eq!(McpError::internal_error("x".to_string()).to_message(), "Internal error: x");
    assert_eq!(McpError::tool_not_found("t".to_string()).to_message(), "Tool not found: t");
    assert_eq!(
        McpError::tool_execution_error("t".to_string(), "boom".to_string()).to_message(),
        "Tool execution failed: t - boom"
    );
    assert_eq!(McpError::transport_error("x".to_string()).to_message(), "Transport error: x");
    assert_eq!(McpError::serialization_error("x".to_string()).to_message(), "Serialization error: x");
}

#[test]
fn envelope_constructors() {
    let req = JsonRpcRequest::new(JsonValue::Number("1".to_string()), "tools/list".to_string());
    assert_eq!(req.jsonrpc, "2.0");
    assert!(req.params.is_none());
    let req = JsonRpcRequest::with_params(text("a"), "tools/call".to_string(), object(vec![]));
    assert!(matches!(req.id, Some(JsonValue::Str(ref s)) if s == "a"));
    assert!(req.params.is_some());

    let e = JsonRpcError::new(-32600, "bad".to_string());
    assert!(e.data.is_none());
    let e = JsonRpcError::with_data(-32001, "bad".to_string(), JsonValue::Bool(true));
    assert!(matches!(e.data, Some(JsonValue::Bool(true))));
    let r = JsonRpcResponse::error(None, e);
    assert!(r.result.is_none() && r.error.is_some() && r.id.is_none());
    assert_eq!(r.jsonrpc, "2.0");
}

#[test]
fn content_constructors() {
    assert!(matches!(ToolContent::text("a".to_string()), ToolContent::Text { text } if text == "a"));
    assert!(matches!(
        ToolContent::image("d".to_string(), "image/png".to_string()),
        ToolContent::Image { data, mime_type } if data == "d" && mime_type == "image/png"
    ));
    match ToolContent::resource("u".to_string()) {
        ToolContent::Resource { resource } => {
            assert_eq!(resource.uri, "u");
            assert!(resource.text.is_none());
        },
        other => panic!("unexpected {:?}", other),
    }
}

#[test]
fn initialize_params_decoding() {
    let v = object(vec![
        ("protocolVersion", text("2024-11-05")),
        ("capabilities", object(vec![("sampling", object(vec![])), ("experimental", JsonValue::Null)])),
        ("clientInfo", object(vec![("name", text("c")), ("version", text("2"))])),
    ]);
    let p = InitializeParams::from_json(v).unwrap();
    assert_eq!(p.protocol_version, "2024-11-05");
    assert_eq!(p.client_info.name, "c");
    assert_eq!(p.client_info.version, "2");
    assert!(p.capabilities.sampling.is_some());
    assert!(p.capabilities.experimental.is_none());

    let missing_info = object(vec![("protocolVersion", text("1")), ("capabilities", object(vec![]))]);
    assert!(matches!(InitializeParams::from_json(missing_info), Err(McpError::InvalidParams { .. })));
    let bad_sampling = object(vec![
        ("protocolVersion", text("1")),
        ("capabilities", object(vec![("sampling", text("yes"))])),
        ("clientInfo", object(vec![("name", text("c")), ("version", text("2"))])),
    ]);
    assert!(InitializeParams::from_json(bad_sampling).is_err());
}

#[test]
fn call_params_decoding() {
    let p = CallToolParams::from_json(object(vec![
        ("name", text("echo")),
        ("arguments", object(vec![("msg", text("hi"))])),
    ]))
    .unwrap();
    assert_eq!(p.name, "echo");
    assert_eq!(p.arguments.unwrap()[0].0, "msg");
    let p = CallToolParams::from_json(object(vec![("name", text("echo"))])).unwrap();
    assert!(p.arguments.is_none());
    assert!(CallToolParams::from_json(object(vec![("name", JsonValue::Bool(true))])).is_err());
    assert!(CallToolParams::from_json(object(vec![("name", text("e")), ("arguments", text("x"))])).is_err());
}

#[test]
fn list_params_decoding() {
    assert!(ListToolsParams::from_json(&object(vec![("cursor", text("c"))])).is_ok());
    assert!(ListToolsParams::from_json(&JsonValue::Array(vec![])).is_ok());
    assert!(ListToolsParams::from_json(&JsonValue::Array(vec![JsonValue::Null])).is_err());
    assert!(ListToolsParams::from_json(&JsonValue::Null).is_err());
}

#[test]
fn blank_lines_are_skipped() {
    assert_eq!(frame_line(""), None);
    assert_eq!(frame_line("\n"), None);
    assert_eq!(frame_line("   \t \r\n"), None);
    let lines = ["\n", "{\"jsonrpc\":\"2.0\",\"id\":1,\"method\":\"tools/list\"}\n", "  \n", "{\"a\":1}\n"];
    let framed: Vec<String> = lines.iter().filter_map(|l| frame_line(l)).collect();
    assert_eq!(
        framed,
        vec!["{\"jsonrpc\":\"2.0\",\"id\":1,\"method\":\"tools/list\"}".to_string(), "{\"a\":1}".to_string()]
    );
}

#[test]
fn request_envelope_decoding() {
    let v = object(vec![
        ("jsonrpc", text("2.0")),
        ("id", JsonValue::Number("1".to_string())),
        ("method", text("tools/list")),
    ]);
    match decode_request(v) {
        ReadOutcome::Request(req) => {
            assert_eq!(req.method, "tools/list");
            assert_eq!(req.jsonrpc, "2.0");
            assert!(matches!(req.id, Some(JsonValue::Number(ref n)) if n == "1"));
            assert!(req.params.is_none());
        },
        other => panic!("unexpected {:?}", other),
    }
    let v = object(vec![("jsonrpc", text("2.0")), ("id", JsonValue::Null), ("method", text("x")), ("params", JsonValue::Null)]);
    match decode_request(v) {
        ReadOutcome::Request(req) => {
            assert!(req.id.is_none());
            assert!(req.params.is_none());
        },
        other => panic!("unexpected {:?}", other),
    }
}

#[test]
fn malformed_envelope_keeps_its_id() {
    let v = object(vec![("jsonrpc", text("2.0")), ("id", text("q7"))]);
    match decode_request(v) {
        ReadOutcome::Malformed { id, error } => {
            assert!(matches!(id, Some(JsonValue::Str(ref s)) if s == "q7"));
            assert_eq!(error.to_json_rpc_code(), -32700);
        },
        other => panic!("unexpected {:?}", other),
    }
    match decode_request(JsonValue::Array(vec![])) {
        ReadOutcome::Malformed { id, error } => {
            assert!(id.is_none());
            assert!(matches!(error, McpError::ParseError { .. }));
        },
        other => panic!("unexpected {:?}", other),
    }
}

#[test]
fn json_lookup_and_copy() {
    let v = object(vec![("a", text("x")), ("a", text("y")), ("b", JsonValue::Array(vec![JsonValue::Bool(false)]))]);
    assert!(matches!(v.get("a"), Some(JsonValue::Str(s)) if s == "x"));
    assert!(v.get("c").is_none());
    assert!(text("s").get("a").is_none());
    assert_eq!(text("s").as_str().map(|s| s.as_str()), Some("s"));
    match v.deep_copy() {
        JsonValue::Object(m) => {
            assert_eq!(m.len(), 3);
            assert!(matches!(&m[2].1, JsonValue::Array(xs) if matches!(xs[..], [JsonValue::Bool(false)])));
        },
        other => panic!("unexpected {:?}", other),
    }
}

#[test]
fn config_from_values() {
    let c = Config::from_values("https://misp.local".to_string(), "k".to_string(), true, "30").unwrap();
    assert_eq!(c.timeout_seconds, 30);
    assert_eq!(c.misp_url, "https://misp.local");
    assert!(c.verify_tls);
    assert_eq!(Config::from_values("u".to_string(), "k".to_string(), false, "+7").unwrap().timeout_seconds, 7);
    assert_eq!(
        Config::from_values("u".to_string(), "k".to_string(), false, "abc").unwrap_err(),
        "Invalid timeout value: abc"
    );
    assert!(Config::from_values("u".to_string(), "k".to_string(), false, "").is_err());
    assert!(Config::from_values("u".to_string(), "k".to_string(), false, "18446744073709551616").is_err());
}

#[test]
fn unicode_whitespace_lines_are_skipped() {
    assert_eq!(frame_line("\u{3000}\u{a0}\u{2028}\t"), None);
    assert_eq!(frame_line("\u{a0}{}\u{3000}"), Some("{}".to_string()));
    assert_eq!(frame_line("x"), Some("x".to_string()));
}
