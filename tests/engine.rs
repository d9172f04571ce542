use taskter::agent::{Agent, ExecutionResult, FunctionDeclaration};
use taskter::engine::{offline_fallback, resolve_api_key, user_prompt, EngineStep, Execution, ProviderSettings};
use taskter::json::Json;
use taskter::store::{Task, TaskStatus};

fn s(x: &str) -> Json {
    Json::Str(x.to_string())
}

fn obj(pairs: Vec<(&str, Json)>) -> Json {
    Json::Object(pairs.into_iter().map(|(k, v)| (k.to_string(), v)).collect())
}

fn arr(items: Vec<Json>) -> Json {
    Json::Array(items)
}

fn settings() -> ProviderSettings {
    ProviderSettings {
        openai_request_style: None,
        openai_base_url: "https://api.openai.com".to_string(),
        openai_responses_endpoint: None,
        openai_chat_endpoint: None,
        openai_response_format: None,
        ollama_base_url: "http://localhost:11434".to_string(),
    }
}

fn agent(tools: Vec<FunctionDeclaration>, model: &str) -> Agent {
    Agent {
        id: 1,
        system_prompt: "You are an email sender".into(),
        tools,
        model: model.into(),
        provider: None,
        schedule: None,
        repeat: false,
    }
}

fn send_email() -> FunctionDeclaration {
    FunctionDeclaration { name: "send_email".into(), description: Some(String::new()), parameters: obj(vec![]) }
}

fn task(title: &str) -> Task {
    Task { id: 1, title: title.into(), description: None, status: TaskStatus::ToDo, agent_id: Some(1), comment: None }
}

fn done(step: EngineStep) -> ExecutionResult {
    match step {
        EngineStep::Done { result } => result,
        _ => panic!("expected the run to end"),
    }
}

#[test]
fn simulate_without_api_behaves() {
    let with_tool = agent(vec![send_email()], "");
    assert!(matches!(offline_fallback(&with_tool), ExecutionResult::Success { .. }));
    let without = agent(vec![], "");
    assert!(matches!(offline_fallback(&without), ExecutionResult::Failure { .. }));
}

#[test]
fn agent_executes_email_task_successfully() {
    let a = agent(vec![send_email()], "gemini-2.5-flash");
    let t = task("Send email to John");
    let (_, step) = Execution::start(&a, Some(&t), &settings(), None);
    assert!(matches!(done(step), ExecutionResult::Success { .. }));
}

#[test]
fn agent_execution_fails_without_tool() {
    let a = agent(vec![], "gemini-2.5-flash");
    let t = task("Send email to John");
    let (_, step) = Execution::start(&a, Some(&t), &settings(), None);
    match done(step) {
        ExecutionResult::Failure { comment } => assert!(comment.contains("Required tool not available.")),
        _ => panic!("expected failure"),
    }
}

#[test]
fn agent_execution_fails_on_network_error_without_tool() {
    let a = agent(vec![], "gemini-2.5-flash");
    let t = task("Test");
    let (mut exec, step) = Execution::start(&a, Some(&t), &settings(), Some("dummy".to_string()));
    assert!(matches!(step, EngineStep::Request { .. }));
    let result = done(exec.on_response(&a, None));
    assert!(matches!(result, ExecutionResult::Failure { .. }));
}

#[test]
fn unreadable_response_falls_back() {
    let a = agent(vec![send_email()], "gemini-2.5-flash");
    let (mut exec, _) = Execution::start(&a, None, &settings(), Some("k".to_string()));
    let result = done(exec.on_response(&a, Some(obj(vec![]))));
    assert_eq!(result, ExecutionResult::Success { comment: "Tool available. Task considered complete.".to_string() });
}

#[test]
fn tool_loop_runs_tool_then_finishes_with_text() {
    let a = agent(vec![], "gemini-2.5-flash");
    let (mut exec, step) = Execution::start(&a, Some(&task("Say hi")), &settings(), Some("k".to_string()));
    match step {
        EngineStep::Request { endpoint, headers, body } => {
            assert!(endpoint.ends_with("gemini-2.5-flash:generateContent"));
            assert_eq!(headers[0].1, "k");
            assert_eq!(body.get("contents").unwrap().as_array().unwrap().len(), 1);
        }
        _ => panic!("expected a request"),
    }
    let call = obj(vec![(
        "candidates",
        arr(vec![obj(vec![(
            "content",
            obj(vec![(
                "parts",
                arr(vec![obj(vec![("functionCall", obj(vec![("name", s("run_bash")), ("args", obj(vec![("command", s("echo hi"))]))]))])]),
            )]),
        )])]),
    )]);
    match exec.on_response(&a, Some(call)) {
        EngineStep::RunTool { name, args } => {
            assert_eq!(name, "run_bash");
            assert_eq!(args.str_field("command").unwrap(), "echo hi");
        }
        _ => panic!("expected a tool run"),
    }
    match exec.on_tool_result(&a, Ok("hi".to_string())) {
        EngineStep::Request { body, .. } => {
            assert_eq!(body.get("contents").unwrap().as_array().unwrap().len(), 3);
        }
        _ => panic!("expected a request"),
    }
    let text = obj(vec![(
        "candidates",
        arr(vec![obj(vec![("content", obj(vec![("parts", arr(vec![obj(vec![("text", s("all done"))])]))]))])]),
    )]);
    assert_eq!(done(exec.on_response(&a, Some(text))), ExecutionResult::Success { comment: "all done".to_string() });
}

#[test]
fn tool_failure_ends_run() {
    let a = agent(vec![], "ollama:llama3");
    let (mut exec, step) = Execution::start(&a, None, &settings(), None);
    assert!(matches!(step, EngineStep::Request { .. }));
    let call = obj(vec![(
        "message",
        obj(vec![("tool_calls", arr(vec![obj(vec![("function", obj(vec![("name", s("nope")), ("arguments", obj(vec![]))]))])]))]),
    )]);
    assert!(matches!(exec.on_response(&a, Some(call)), EngineStep::RunTool { .. }));
    let result = done(exec.on_tool_result(&a, Err("Unknown tool: nope".to_string())));
    assert_eq!(result, ExecutionResult::Failure { comment: "Tool nope failed: Unknown tool: nope".to_string() });
}

#[test]
fn user_prompt_and_key_choice() {
    assert_eq!(user_prompt(None), "");
    assert_eq!(user_prompt(Some(&task("T"))), "T");
    let mut t = task("T");
    t.description = Some("D".into());
    assert_eq!(user_prompt(Some(&t)), "Task Title: T\nTask Description: D");
    assert_eq!(resolve_api_key(Some("a".into()), Some("b".into())), Some("a".to_string()));
    assert_eq!(resolve_api_key(None, Some("  ".into())), None);
    assert_eq!(resolve_api_key(None, Some("b".into())), Some("b".to_string()));
}
