use taskter::agent::FunctionDeclaration;
use taskter::json::Json;
use taskter::mcp::{handle_line, is_notification, looks_like_json, parse_request, tool_call_response, McpAction};
use taskter::tools::{builtin_declaration, builtin_names};

fn decls() -> Vec<FunctionDeclaration> {
    builtin_names().into_iter().filter_map(builtin_declaration).collect()
}

fn reply(action: McpAction) -> (Option<taskter::mcp::RpcResponse>, bool) {
    match action {
        McpAction::Reply { response, shutdown } => (response, shutdown),
        McpAction::CallTool { .. } => panic!("expected a reply"),
    }
}

#[test]
fn tools_list_contains_builtin() {
    let (response, shutdown) = reply(handle_line(r#"{"jsonrpc":"2.0","id":1,"method":"tools/list"}"#, &decls(), "0.1.0"));
    assert!(!shutdown);
    let result = response.unwrap().result.unwrap();
    let tools = result.get("tools").unwrap().as_array().unwrap();
    assert!(!tools.is_empty(), "expected at least one tool");
    assert!(tools.iter().any(|t| t.str_field("name").map(|n| n.as_str()) == Some("run_bash")));
    assert!(tools.iter().all(|t| t.get("inputSchema").is_some()));
}

#[test]
fn ping_gets_empty_result_and_notification_gets_none() {
    let (response, _) = reply(handle_line(r#"{"jsonrpc":"2.0","id":1,"method":"ping","params":{}}"#, &decls(), "0.1.0"));
    let response = response.unwrap();
    assert!(matches!(response.result, Some(Json::Object(ref m)) if m.is_empty()));
    assert!(matches!(response.id, Some(Json::Number(ref n)) if n == "1"));
    let (response, _) = reply(handle_line(r#"{"jsonrpc":"2.0","method":"ping"}"#, &decls(), "0.1.0"));
    assert!(response.is_none());
    assert!(is_notification(false));
}

#[test]
fn errors_carry_json_rpc_codes() {
    let (r, _) = reply(handle_line("not json", &decls(), "0.1.0"));
    assert_eq!(r.unwrap().error.unwrap().code, -32700);
    let (r, _) = reply(handle_line(r#"{"jsonrpc":"1.0","id":2,"method":"ping"}"#, &decls(), "0.1.0"));
    assert_eq!(r.unwrap().error.unwrap().code, -32600);
    let (r, _) = reply(handle_line(r#"{"id":3,"method":"nope"}"#, &decls(), "0.1.0"));
    let e = r.unwrap().error.unwrap();
    assert_eq!(e.code, -32601);
    assert_eq!(e.message, "Method `nope` not implemented");
    let (r, _) = reply(handle_line(r#"{"id":4,"method":"tools/call","params":{}}"#, &decls(), "0.1.0"));
    let e = r.unwrap().error.unwrap();
    assert_eq!(e.code, -32602);
    assert_eq!(e.message, "Missing tool name");
    let (_, shutdown) = reply(handle_line(r#"{"id":5,"method":"shutdown"}"#, &decls(), "0.1.0"));
    assert!(shutdown);
}

#[test]
fn tools_call_runs_then_answers() {
    let line = r#"{"jsonrpc":"2.0","id":7,"method":"tools/call","params":{"name":"run_bash","arguments":{"command":"echo hi"}}}"#;
    match handle_line(line, &decls(), "0.1.0") {
        McpAction::CallTool { request, name, args } => {
            assert_eq!(name, "run_bash");
            assert_eq!(args.str_field("command").unwrap(), "echo hi");
            let r = tool_call_response(&request, &name, Ok("hi".to_string())).unwrap();
            let content = r.result.unwrap();
            let item = content.get("content").unwrap().at(0).unwrap();
            assert_eq!(item.str_field("text").unwrap(), "hi");
            let r = tool_call_response(&request, &name, Err("boom".to_string())).unwrap();
            assert_eq!(r.error.unwrap().message, "Tool `run_bash` failed: boom");
        }
        _ => panic!("expected a tool call"),
    }
}

#[test]
fn initialize_without_id_is_answered() {
    let req = parse_request(r#"{"method":"initialize","params":{"protocolVersion":"2024-11-05"}}"#).unwrap();
    assert!(req.has_id);
    let (r, _) = reply(handle_line(r#"{"method":"initialize","params":{"protocolVersion":"2024-11-05"}}"#, &decls(), "9.9.9"));
    let result = r.unwrap().result.unwrap();
    assert_eq!(result.str_field("protocolVersion").unwrap(), "2024-11-05");
    assert_eq!(result.get("serverInfo").unwrap().str_field("version").unwrap(), "9.9.9");
    assert!(looks_like_json("  {\"a\":1}"));
    assert!(looks_like_json("[1]"));
    assert!(!looks_like_json("Content-Length: 4"));
    assert_eq!(parse_request("[1]").err().unwrap(), "MCP request must be a JSON object");
    assert_eq!(parse_request("{}").err().unwrap(), "Missing method");
}
