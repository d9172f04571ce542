use taskter::json::Json;
use taskter::tools::{builtin_names, lookup_tool, prepare_tool, search_answer, BuiltinTool, FileAction, ToolRequest};

fn s(x: &str) -> Json {
    Json::Str(x.to_string())
}

fn obj(pairs: Vec<(&str, Json)>) -> Json {
    Json::Object(pairs.into_iter().map(|(k, v)| (k.to_string(), v)).collect())
}

fn err(name: &str, args: Json) -> String {
    match prepare_tool(name, &args) {
        Err(e) => e,
        Ok(_) => panic!("expected an error"),
    }
}

#[test]
fn unknown_tool_returns_error() {
    assert!(err("no_such_tool", obj(vec![])).contains("Unknown tool"));
    assert_eq!(err("no_such_tool", obj(vec![])), "Unknown tool: no_such_tool");
}

#[test]
fn run_bash_requires_command_argument() {
    assert!(err("run_bash", obj(vec![])).contains("command missing"));
}

#[test]
fn run_python_requires_code_argument() {
    assert!(err("run_python", obj(vec![])).contains("code missing"));
}

#[test]
fn send_email_requires_arguments() {
    assert!(prepare_tool("send_email", &obj(vec![])).is_err());
    assert_eq!(err("email", obj(vec![("to", s("a@b"))])), "subject missing");
}

#[test]
fn file_ops_requires_action() {
    assert!(err("file_ops", obj(vec![])).contains("action missing"));
}

#[test]
fn file_ops_unknown_action() {
    assert!(err("file_ops", obj(vec![("action", s("foo"))])).contains("unknown action"));
}

#[test]
fn show_tools_lists_builtins() {
    let names = builtin_names();
    assert!(names.contains(&"taskter_task"));
    assert!(names.contains(&"run_bash"));
    assert!(names.contains(&"web_search"));
    let mut sorted = names.clone();
    sorted.sort();
    assert_eq!(names, sorted);
}

#[test]
fn requests_carry_arguments() {
    match prepare_tool("run_bash", &obj(vec![("command", s("exit 1"))])) {
        Ok(ToolRequest::RunBash { command }) => assert_eq!(command, "exit 1"),
        _ => panic!("expected a bash request"),
    }
    match prepare_tool("file_ops", &obj(vec![("action", s("create")), ("path", s("a.txt"))])) {
        Ok(ToolRequest::Files { action: FileAction::Create { path, content } }) => {
            assert_eq!(path, "a.txt");
            assert_eq!(content, "");
        }
        _ => panic!("expected a create request"),
    }
    let args = obj(vec![("args", Json::Array(vec![s("list")]))]);
    match prepare_tool("taskter_okrs", &args) {
        Ok(ToolRequest::Taskter { subcommand, args }) => {
            assert_eq!(subcommand, "okrs");
            assert_eq!(args, vec!["list".to_string()]);
        }
        _ => panic!("expected a command-line request"),
    }
    let bad = obj(vec![("args", Json::Array(vec![s("list"), Json::Bool(true)]))]);
    assert_eq!(err("taskter_tools", bad), "args must be strings");
    assert_eq!(err("taskter_task", obj(vec![])), "args missing");
    assert_eq!(lookup_tool("email"), Some(BuiltinTool::SendEmail));
    assert_eq!(lookup_tool("project_files"), Some(BuiltinTool::ProjectFiles));
}

#[test]
fn search_answer_prefers_abstract_then_topics() {
    let resp = obj(vec![("AbstractText", s("Rust lang")), ("RelatedTopics", Json::Array(vec![]))]);
    assert_eq!(search_answer(&resp), "Rust lang");
    let resp = obj(vec![
        ("AbstractText", s("")),
        ("RelatedTopics", Json::Array(vec![obj(vec![("Name", s("x"))]), obj(vec![("Text", s("second"))])])),
    ]);
    assert_eq!(search_answer(&resp), "second");
    assert_eq!(search_answer(&obj(vec![])), "No results found");
}
