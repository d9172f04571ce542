use taskter::agent::{Agent, FunctionDeclaration};
use taskter::json::Json;
use taskter::providers::gemini::GeminiProvider;
use taskter::providers::ollama::OllamaProvider;
use taskter::providers::openai::{with_additional_properties_false, OpenAIProvider, RequestStyle};
use taskter::providers::{select_provider, ModelAction, ProviderKind, ResponseFormatError};

fn s(x: &str) -> Json {
    Json::Str(x.to_string())
}

fn obj(pairs: Vec<(&str, Json)>) -> Json {
    Json::Object(pairs.into_iter().map(|(k, v)| (k.to_string(), v)).collect())
}

fn arr(items: Vec<Json>) -> Json {
    Json::Array(items)
}

fn field<'a>(v: &'a Json, key: &str) -> &'a Json {
    v.get(key).unwrap_or_else(|| panic!("missing member {key}"))
}

fn item(v: &Json, i: usize) -> &Json {
    v.at(i).unwrap_or_else(|| panic!("missing element {i}"))
}

fn text(v: &Json) -> &str {
    v.as_str().expect("a string").as_str()
}

fn run_bash_declaration() -> FunctionDeclaration {
    FunctionDeclaration {
        name: "run_bash".to_string(),
        description: Some("Execute a bash command and return its output".to_string()),
        parameters: obj(vec![
            ("type", s("object")),
            ("properties", obj(vec![("command", obj(vec![("type", s("string"))]))])),
            ("required", arr(vec![s("command")])),
            ("additionalProperties", Json::Bool(false)),
        ]),
    }
}

fn base_agent(id: usize, model: &str, provider: Option<&str>) -> Agent {
    Agent {
        id,
        system_prompt: "You are helpful.".to_string(),
        tools: vec![run_bash_declaration()],
        model: model.to_string(),
        provider: provider.map(|p| p.to_string()),
        schedule: None,
        repeat: false,
    }
}

#[test]
fn handle_model_response_parses_tool_and_text() {
    let agent = Agent {
        id: 1,
        system_prompt: String::new(),
        tools: vec![],
        model: String::new(),
        provider: None,
        schedule: None,
        repeat: false,
    };
    let provider = GeminiProvider;
    let mut history = Vec::new();
    let response = obj(vec![(
        "candidates",
        arr(vec![obj(vec![(
            "content",
            obj(vec![(
                "parts",
                arr(vec![obj(vec![(
                    "functionCall",
                    obj(vec![("name", s("run_python")), ("args", obj(vec![("code", s("print(40 + 2)"))]))]),
                )])]),
            )]),
        )])]),
    )]);
    match provider.parse_response(&response).expect("tool call") {
        ModelAction::ToolCall { name, args, call_id: _ } => {
            provider.append_tool_result(&agent, &mut history, &name, &args, "ok", None);
            assert_eq!(history.len(), 2);
        }
        _ => panic!("expected tool call"),
    }
    let response = obj(vec![(
        "candidates",
        arr(vec![obj(vec![("content", obj(vec![("parts", arr(vec![obj(vec![("text", s("done"))])]))]))])]),
    )]);
    let action = provider.parse_response(&response).expect("text response");
    assert!(matches!(action, ModelAction::Text { content } if content == "done"));
}

#[test]
fn missing_tool_name_returns_failure() {
    let function_call = obj(vec![("args", obj(vec![]))]);
    assert!(function_call.str_field("name").is_none());
    let response = obj(vec![(
        "candidates",
        arr(vec![obj(vec![(
            "content",
            obj(vec![("parts", arr(vec![obj(vec![("functionCall", function_call)])]))]),
        )])]),
    )]);
    let err = GeminiProvider.parse_response(&response).unwrap_err();
    assert_eq!(err, ResponseFormatError::MissingToolName);
    assert_eq!(err.message(), "Malformed API response: missing field `name`");
}

#[test]
fn non_string_text_returns_failure() {
    let part = obj(vec![("text", Json::Number("123".to_string()))]);
    assert!(part.str_field("text").is_none());
    let response = obj(vec![(
        "candidates",
        arr(vec![obj(vec![("content", obj(vec![("parts", arr(vec![part]))]))])]),
    )]);
    let err = GeminiProvider.parse_response(&response).unwrap_err();
    assert_eq!(err, ResponseFormatError::NoAction);
}

#[test]
fn select_provider_picks_ollama() {
    let agent = base_agent(99, "ollama:llama3.1", Some("ollama"));
    let kind = select_provider(&agent);
    assert_eq!(kind, ProviderKind::Ollama);
    assert_eq!(kind.name(), "ollama");
}

#[test]
fn select_provider_infers_from_model_name() {
    assert_eq!(select_provider(&base_agent(1, "ollama:llama3.1", None)), ProviderKind::Ollama);
    assert_eq!(select_provider(&base_agent(1, "Gemini-2.5-flash", None)), ProviderKind::Gemini);
    assert_eq!(select_provider(&base_agent(1, "mistral", None)), ProviderKind::Gemini);
    assert_eq!(select_provider(&base_agent(1, "gpt-4o", Some("OpenAI"))), ProviderKind::OpenAI);
    assert_eq!(select_provider(&base_agent(1, "gpt-4o", Some("unknown"))), ProviderKind::OpenAI);
}

#[test]
fn ollama_history_includes_system_and_user() {
    let provider = OllamaProvider::new();
    let agent = base_agent(99, "ollama:llama3", Some("ollama"));
    let history = provider.build_history(&agent, "Hello");
    assert_eq!(history.len(), 2);
    assert_eq!(text(field(&history[0], "role")), "system");
    assert_eq!(text(field(&history[1], "role")), "user");
    assert_eq!(text(field(&history[1], "content")), "Hello");
}

#[test]
fn ollama_append_tool_result_shapes_are_correct() {
    let provider = OllamaProvider::new();
    let agent = base_agent(99, "ollama/llama3", Some("ollama"));
    let mut history = Vec::new();
    provider.append_tool_result(
        &agent,
        &mut history,
        "run_bash",
        &obj(vec![("command", s("ls"))]),
        "output",
        Some("call_42"),
    );
    assert_eq!(history.len(), 2);
    assert_eq!(text(field(&history[0], "role")), "assistant");
    assert_eq!(text(field(item(field(&history[0], "tool_calls"), 0), "id")), "call_42");
    assert_eq!(text(field(&history[1], "role")), "tool");
    assert_eq!(text(field(&history[1], "tool_call_id")), "call_42");
}

#[test]
fn ollama_parse_response_tool_call_and_text() {
    let provider = OllamaProvider::new();
    let tool_call = obj(vec![(
        "message",
        obj(vec![
            ("role", s("assistant")),
            (
                "tool_calls",
                arr(vec![obj(vec![
                    ("id", s("call_007")),
                    ("type", s("function")),
                    ("function", obj(vec![("name", s("run_bash")), ("arguments", s("{\"command\":\"echo hi\"}"))])),
                ])]),
            ),
        ]),
    )]);
    match provider.parse_response(&tool_call).expect("tool call parsed") {
        ModelAction::ToolCall { name, args, call_id } => {
            assert_eq!(name, "run_bash");
            assert_eq!(text(field(&args, "command")), "echo hi");
            assert_eq!(call_id.as_deref(), Some("call_007"));
        }
        ModelAction::Text { .. } => panic!("expected tool call"),
    }
    let text_resp = obj(vec![("message", obj(vec![("role", s("assistant")), ("content", s("done"))]))]);
    match provider.parse_response(&text_resp).expect("text parsed") {
        ModelAction::Text { content } => assert_eq!(content, "done"),
        ModelAction::ToolCall { .. } => panic!("expected text"),
    }
}

#[test]
fn ollama_parse_response_joins_segments_and_falls_back_to_response() {
    let provider = OllamaProvider::new();
    let segs = obj(vec![(
        "message",
        obj(vec![("content", arr(vec![obj(vec![("text", s("a"))]), obj(vec![("text", s("b"))])]))]),
    )]);
    match provider.parse_response(&segs).expect("segments") {
        ModelAction::Text { content } => assert_eq!(content, "ab"),
        _ => panic!("expected text"),
    }
    let top = obj(vec![("response", s("plain"))]);
    match provider.parse_response(&top).expect("response text") {
        ModelAction::Text { content } => assert_eq!(content, "plain"),
        _ => panic!("expected text"),
    }
    assert_eq!(provider.parse_response(&obj(vec![])).unwrap_err(), ResponseFormatError::NoAction);
}

#[test]
fn ollama_request_body_includes_tools() {
    let provider = OllamaProvider::new();
    let agent = base_agent(99, "ollama-phi3", Some("ollama"));
    let history = provider.build_history(&agent, "Ping");
    let tools = provider.tools_payload(&agent);
    let body = provider.request_body(&agent, &history, &tools);
    assert_eq!(text(field(&body, "model")), "phi3");
    assert_eq!(field(&body, "messages").as_array().unwrap().len(), 2);
    assert!(field(&body, "tools").as_array().is_some());
}

#[test]
fn ollama_model_prefix_is_stripped() {
    let provider = OllamaProvider::new();
    let agent = base_agent(1, "ollama:llama3.1", Some("ollama"));
    let body = provider.request_body(&agent, &[], &arr(vec![]));
    assert_eq!(text(field(&body, "model")), "llama3.1");
    assert!(body.get("tools").is_none());
    assert_eq!(OllamaProvider::normalized_model_name(&base_agent(1, "  llama3 ", None)), "llama3");
}

#[test]
fn ollama_endpoint_trims_trailing_slashes() {
    let provider = OllamaProvider { base_url: "http://host:1234//".to_string() };
    assert_eq!(provider.endpoint_url(), "http://host:1234/api/chat");
    assert_eq!(OllamaProvider::new().endpoint_url(), "http://localhost:11434/api/chat");
}

#[test]
fn select_provider_picks_openai_for_gpt_models() {
    let agent = base_agent(42, "gpt-4.1", None);
    assert_eq!(select_provider(&agent).name(), "openai");
}

#[test]
fn openai_chat_parses_tool_call_and_text() {
    let provider = OpenAIProvider::new();
    let v = obj(vec![(
        "choices",
        arr(vec![obj(vec![(
            "message",
            obj(vec![(
                "tool_calls",
                arr(vec![obj(vec![
                    ("id", s("call_123")),
                    ("type", s("function")),
                    ("function", obj(vec![("name", s("run_bash")), ("arguments", s("{\"command\":\"echo hi\"}"))])),
                ])]),
            )]),
        )])]),
    )]);
    match provider.parse_response(&v).expect("tool call parsed") {
        ModelAction::ToolCall { name, args, call_id } => {
            assert_eq!(name, "run_bash");
            assert_eq!(text(field(&args, "command")), "echo hi");
            assert_eq!(call_id.as_deref(), Some("call_123"));
        }
        _ => panic!("expected tool call"),
    }
    let v = obj(vec![("choices", arr(vec![obj(vec![("message", obj(vec![("content", s("done"))]))])]))]);
    match provider.parse_response(&v).expect("text parsed") {
        ModelAction::Text { content } => assert_eq!(content, "done"),
        _ => panic!("expected text"),
    }
}

#[test]
fn openai_responses_parses_function_call_and_message() {
    let provider = OpenAIProvider::new();
    let v = obj(vec![(
        "output",
        arr(vec![
            obj(vec![("type", s("reasoning")), ("summary", arr(vec![]))]),
            obj(vec![
                ("type", s("function_call")),
                ("id", s("fc_1")),
                ("call_id", s("call_1")),
                ("name", s("run_bash")),
                ("arguments", s("{\"command\":\"echo hello\"}")),
            ]),
        ]),
    )]);
    match provider.parse_response(&v).expect("function_call parsed") {
        ModelAction::ToolCall { name, args, call_id } => {
            assert_eq!(name, "run_bash");
            assert_eq!(text(field(&args, "command")), "echo hello");
            assert_eq!(call_id.as_deref(), Some("call_1"));
        }
        _ => panic!("expected tool call"),
    }
    let v = obj(vec![(
        "output",
        arr(vec![obj(vec![
            ("type", s("message")),
            ("role", s("assistant")),
            ("content", arr(vec![obj(vec![("type", s("output_text")), ("text", s("ok"))])])),
        ])]),
    )]);
    match provider.parse_response(&v).expect("text parsed") {
        ModelAction::Text { content } => assert_eq!(content, "ok"),
        _ => panic!("expected text"),
    }
}

#[test]
fn openai_invalid_arguments_become_empty_object() {
    let provider = OpenAIProvider::new();
    let v = obj(vec![(
        "output",
        arr(vec![obj(vec![("type", s("function_call")), ("id", s("fc_9")), ("name", s("x")), ("arguments", s("not json"))])]),
    )]);
    match provider.parse_response(&v).expect("parsed") {
        ModelAction::ToolCall { args, call_id, .. } => {
            assert!(matches!(args, Json::Object(ref m) if m.is_empty()));
            assert_eq!(call_id.as_deref(), Some("fc_9"));
        }
        _ => panic!("expected tool call"),
    }
    assert_eq!(provider.parse_response(&obj(vec![])).unwrap_err(), ResponseFormatError::NoAction);
}

#[test]
fn append_tool_result_shapes_are_correct() {
    let provider = OpenAIProvider::new();
    let agent_chat = base_agent(42, "gpt-4.1", None);
    let mut hist_chat = Vec::new();
    // gpt-4.1 selects the Responses style; the chat shape is asked for explicitly.
    let chat = OpenAIProvider { request_style: Some("chat".to_string()), ..OpenAIProvider::new() };
    chat.append_tool_result(&agent_chat, &mut hist_chat, "run_bash", &obj(vec![("command", s("ls"))]), "ok", Some("call_abc"));
    assert_eq!(hist_chat.len(), 2);
    assert_eq!(text(field(&hist_chat[0], "role")), "assistant");
    let call = item(field(&hist_chat[0], "tool_calls"), 0);
    assert_eq!(text(field(call, "id")), "call_abc");
    assert_eq!(text(field(field(call, "function"), "name")), "run_bash");
    assert_eq!(text(field(field(call, "function"), "arguments")), "{\"command\":\"ls\"}");
    assert_eq!(text(field(&hist_chat[1], "role")), "tool");
    assert_eq!(text(field(&hist_chat[1], "tool_call_id")), "call_abc");

    let agent_resp = base_agent(42, "gpt-5", None);
    let mut hist_resp = Vec::new();
    provider.append_tool_result(
        &agent_resp,
        &mut hist_resp,
        "run_bash",
        &obj(vec![("command", s("echo hi"))]),
        "hello from tool",
        Some("call_xyz"),
    );
    assert_eq!(hist_resp.len(), 2);
    assert_eq!(text(field(&hist_resp[0], "type")), "function_call");
    assert_eq!(text(field(&hist_resp[0], "call_id")), "call_xyz");
    assert_eq!(text(field(&hist_resp[0], "name")), "run_bash");
    assert_eq!(text(field(&hist_resp[1], "type")), "function_call_output");
    assert_eq!(text(field(&hist_resp[1], "call_id")), "call_xyz");
    assert_eq!(text(field(&hist_resp[1], "output")), "hello from tool");
}

#[test]
fn append_without_call_id_uses_default_id() {
    let provider = OllamaProvider::new();
    let agent = base_agent(1, "ollama:x", None);
    let mut history = Vec::new();
    provider.append_tool_result(&agent, &mut history, "run_bash", &s("raw"), "out", None);
    assert_eq!(text(field(&history[1], "tool_call_id")), "tool_call_1");
    let call = item(field(&history[0], "tool_calls"), 0);
    assert_eq!(text(field(field(call, "function"), "arguments")), "raw");
}

#[test]
fn request_style_follows_model_name() {
    let provider = OpenAIProvider::new();
    let gpt5 = base_agent(1, "gpt-5", None);
    assert_eq!(provider.request_style(&gpt5), RequestStyle::Responses);
    let history = provider.build_history(&gpt5, "hi");
    let body = provider.request_body(&gpt5, &history, &provider.tools_payload(&gpt5));
    assert!(body.get("input").is_some());
    assert!(body.get("messages").is_none());
    assert_eq!(text(field(&body, "instructions")), "You are helpful.");
    assert_eq!(provider.endpoint(&gpt5), "https://api.openai.com/v1/responses");

    let gpt4o = base_agent(1, "gpt-4o", None);
    assert_eq!(provider.request_style(&gpt4o), RequestStyle::ChatCompletions);
    let history = provider.build_history(&gpt4o, "hi");
    let body = provider.request_body(&gpt4o, &history, &provider.tools_payload(&gpt4o));
    assert!(body.get("messages").is_some());
    assert!(body.get("input").is_none());
    assert_eq!(provider.endpoint(&gpt4o), "https://api.openai.com/v1/chat/completions");
}

#[test]
fn request_style_override_wins() {
    let provider = OpenAIProvider { request_style: Some("Responses-API".to_string()), ..OpenAIProvider::new() };
    assert_eq!(provider.request_style(&base_agent(1, "gpt-4o", None)), RequestStyle::Responses);
    assert_eq!(OpenAIProvider::request_style_override("chat_completions"), Some(RequestStyle::ChatCompletions));
    assert_eq!(OpenAIProvider::request_style_override("bogus"), None);
    for m in ["o1-mini", "O3", "o4-mini", "omni-x", "gpt5", "gpt4.1-nano"] {
        assert_eq!(OpenAIProvider::inferred_request_style(m), RequestStyle::Responses, "{m}");
    }
    assert_eq!(OpenAIProvider::inferred_request_style("gpt-4o-mini"), RequestStyle::ChatCompletions);
}

#[test]
fn response_format_override_forms() {
    assert!(OpenAIProvider::response_format_override("   ").is_none());
    let f = OpenAIProvider::response_format_override(" json_object ").unwrap();
    assert_eq!(text(field(&f, "type")), "json_object");
    let f = OpenAIProvider::response_format_override("{\"type\":\"json_schema\"}").unwrap();
    assert_eq!(text(field(&f, "type")), "json_schema");
    assert!(OpenAIProvider::response_format_override("{not json").is_none());
    let provider = OpenAIProvider { response_format: Some("json_object".to_string()), ..OpenAIProvider::new() };
    let agent = base_agent(1, "gpt-4o", None);
    let body = provider.request_body(&agent, &[], &arr(vec![]));
    assert_eq!(text(field(field(&body, "response_format"), "type")), "json_object");
}

#[test]
fn strict_schema_fills_required_and_additional_properties() {
    let params = obj(vec![
        ("type", s("object")),
        ("properties", obj(vec![("b", obj(vec![])), ("a", obj(vec![]))])),
        ("required", arr(vec![s("a")])),
    ]);
    let strict = with_additional_properties_false(params);
    assert!(matches!(field(&strict, "additionalProperties"), Json::Bool(false)));
    let required = field(&strict, "required").as_array().unwrap();
    let names: Vec<&str> = required.iter().map(text).collect();
    assert_eq!(names, vec!["a", "b"]);
    let open = with_additional_properties_false(obj(vec![("type", s("object")), ("additionalProperties", Json::Bool(true))]));
    assert!(matches!(field(&open, "additionalProperties"), Json::Bool(false)));
    let plain = with_additional_properties_false(obj(vec![("type", s("string"))]));
    assert!(plain.get("additionalProperties").is_none());
}

#[test]
fn tools_payload_shapes_per_style() {
    let provider = OpenAIProvider::new();
    let resp = provider.tools_payload(&base_agent(1, "gpt-5", None));
    let t = item(&resp, 0);
    assert_eq!(text(field(t, "name")), "run_bash");
    assert!(matches!(field(t, "strict"), Json::Bool(true)));
    let chat = provider.tools_payload(&base_agent(1, "gpt-4o", None));
    assert_eq!(text(field(field(item(&chat, 0), "function"), "name")), "run_bash");
    let gem = GeminiProvider.tools_payload(&base_agent(1, "gemini-2.5-flash", None));
    assert_eq!(text(field(item(field(&gem, "functionDeclarations"), 0), "name")), "run_bash");
}

#[test]
fn gemini_request_shapes() {
    let agent = base_agent(1, "gemini-2.5-flash", None);
    let history = GeminiProvider.build_history(&agent, "Hi");
    let part = item(field(&history[0], "parts"), 0);
    assert_eq!(text(field(part, "text")), "System: You are helpful.\nUser: Hi");
    assert_eq!(
        GeminiProvider.endpoint(&agent),
        "https://generativelanguage.googleapis.com/v1beta/models/gemini-2.5-flash:generateContent"
    );
    let headers = GeminiProvider.headers("k");
    assert_eq!(headers[0], ("x-goog-api-key".to_string(), "k".to_string()));
    assert_eq!(OpenAIProvider::new().headers("k")[0], ("Authorization".to_string(), "Bearer k".to_string()));
    assert_eq!(OllamaProvider::new().headers("k").len(), 1);
}

#[test]
fn openai_endpoint_joins_base_url_or_uses_override() {
    let provider = OpenAIProvider { base_url: "https://proxy.example//".to_string(), ..OpenAIProvider::new() };
    assert_eq!(provider.endpoint(&base_agent(1, "gpt-5", None)), "https://proxy.example/v1/responses");
    assert_eq!(provider.endpoint(&base_agent(1, "gpt-4o", None)), "https://proxy.example/v1/chat/completions");
    let provider = OpenAIProvider { chat_endpoint: Some("http://chat.local/x".to_string()), ..OpenAIProvider::new() };
    assert_eq!(provider.endpoint(&base_agent(1, "gpt-4o", None)), "http://chat.local/x");
}

#[test]
fn strict_schema_adds_missing_required_keys_sorted() {
    let params = obj(vec![("type", s("object")), ("properties", obj(vec![("b", obj(vec![])), ("a", obj(vec![])), ("c", obj(vec![]))])), ("required", arr(vec![s("c")]))]);
    let strict = with_additional_properties_false(params);
    let names: Vec<&str> = field(&strict, "required").as_array().unwrap().iter().map(text).collect();
    assert_eq!(names, vec!["c", "a", "b"]);
    let params = obj(vec![("type", s("object")), ("properties", obj(vec![("b", obj(vec![])), ("a", obj(vec![]))]))]);
    let strict = with_additional_properties_false(params);
    let names: Vec<&str> = field(&strict, "required").as_array().unwrap().iter().map(text).collect();
    assert_eq!(names, vec!["a", "b"]);
}
