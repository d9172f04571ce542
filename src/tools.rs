//! The registry of built-in tools: their names, and the arguments each one
//! reads before it runs.
use vstd::prelude::*;

use crate::json::{items_view, json_view, Json, JsonV};

verus! {

/// The built-in tools.
#[derive(Clone, Copy, Debug, PartialEq, Eq, Structural)]
pub enum BuiltinTool {
    SendEmail,
    GetDescription,
    RunBash,
    RunPython,
    WebSearch,
    TaskterTask,
    TaskterAgent,
    TaskterOkrs,
    TaskterTools,
    ProjectFiles,
}

/// The tool registered under a name; `email` and `file_ops` are aliases.
pub open spec fn tool_of(name: Seq<char>) -> Option<BuiltinTool> {
    if name == "send_email"@ || name == "email"@ {
        Some(BuiltinTool::SendEmail)
    } else if name == "get_description"@ {
        Some(BuiltinTool::GetDescription)
    } else if name == "run_bash"@ {
        Some(BuiltinTool::RunBash)
    } else if name == "run_python"@ {
        Some(BuiltinTool::RunPython)
    } else if name == "web_search"@ {
        Some(BuiltinTool::WebSearch)
    } else if name == "taskter_task"@ {
        Some(BuiltinTool::TaskterTask)
    } else if name == "taskter_agent"@ {
        Some(BuiltinTool::TaskterAgent)
    } else if name == "taskter_okrs"@ {
        Some(BuiltinTool::TaskterOkrs)
    } else if name == "taskter_tools"@ {
        Some(BuiltinTool::TaskterTools)
    } else if name == "project_files"@ || name == "file_ops"@ {
        Some(BuiltinTool::ProjectFiles)
    } else {
        None
    }
}

/// The registered names, sorted.
pub open spec fn builtin_name_list() -> Seq<Seq<char>> {
    seq![
        "email"@,
        "file_ops"@,
        "get_description"@,
        "project_files"@,
        "run_bash"@,
        "run_python"@,
        "send_email"@,
        "taskter_agent"@,
        "taskter_okrs"@,
        "taskter_task"@,
        "taskter_tools"@,
        "web_search"@,
    ]
}

/// Returns the names of all built-in tools, sorted.
pub fn builtin_names() -> (r: Vec<&'static str>)
    ensures
        r@.len() == builtin_name_list().len(),
        forall|i: int| 0 <= i < r@.len() ==> #[trigger] r@[i]@ == builtin_name_list()[i],
{
    let v: Vec<&'static str> = vec![
        "email",
        "file_ops",
        "get_description",
        "project_files",
        "run_bash",
        "run_python",
        "send_email",
        "taskter_agent",
        "taskter_okrs",
        "taskter_task",
        "taskter_tools",
        "web_search",
    ];
    v
}

pub fn lookup_tool(name: &str) -> (r: Option<BuiltinTool>)
    ensures
        r == tool_of(name@),
{
    let eq = |a: &str, b: &str| -> (r: bool)
        ensures
            r == (a@ == b@),
        { crate::json::str_eq(a, b) };
    if eq(name, "send_email") || eq(name, "email") {
        Some(BuiltinTool::SendEmail)
    } else if eq(name, "get_description") {
        Some(BuiltinTool::GetDescription)
    } else if eq(name, "run_bash") {
        Some(BuiltinTool::RunBash)
    } else if eq(name, "run_python") {
        Some(BuiltinTool::RunPython)
    } else if eq(name, "web_search") {
        Some(BuiltinTool::WebSearch)
    } else if eq(name, "taskter_task") {
        Some(BuiltinTool::TaskterTask)
    } else if eq(name, "taskter_agent") {
        Some(BuiltinTool::TaskterAgent)
    } else if eq(name, "taskter_okrs") {
        Some(BuiltinTool::TaskterOkrs)
    } else if eq(name, "taskter_tools") {
        Some(BuiltinTool::TaskterTools)
    } else if eq(name, "project_files") || eq(name, "file_ops") {
        Some(BuiltinTool::ProjectFiles)
    } else {
        None
    }
}

/// An object schema whose properties are strings, all of them required.
fn string_params(keys: Vec<&'static str>) -> (r: Json)
    ensures
        r@ is Object,
{
    let mut props = Json::empty_object();
    let mut required: Vec<Json> = Vec::new();
    let mut i: usize = 0;
    while i < keys.len()
        invariant
            props@ is Object,
        decreases keys@.len() - i,
    {
        let mut t = Json::empty_object();
        t.push_member("type", Json::str("string"));
        props.push_member(keys[i], t);
        required.push(Json::str(keys[i]));
        i = i + 1;
    }
    let mut o = Json::empty_object();
    o.push_member("type", Json::str("object"));
    o.push_member("properties", props);
    o.push_member("required", Json::Array(required));
    o
}

/// The declaration of a built-in tool, under the name it was asked for.
pub fn builtin_declaration(name: &str) -> (r: Option<crate::agent::FunctionDeclaration>)
    ensures
        r is Some <==> tool_of(name@) is Some,
        r is Some ==> r->0.name@ == name@ && r->0.parameters@ is Object,
{
    let (description, params): (&str, Json) = match lookup_tool(name) {
        None => {
            return None;
        },
        Some(BuiltinTool::SendEmail) => (
            "Send an email to a recipient",
            string_params(vec!["to", "subject", "body"]),
        ),
        Some(BuiltinTool::GetDescription) => ("Read the project description", string_params(vec![])),
        Some(BuiltinTool::RunBash) => ("Execute a bash command and return its output", string_params(vec!["command"])),
        Some(BuiltinTool::RunPython) => ("Execute Python code and return its output", string_params(vec!["code"])),
        Some(BuiltinTool::WebSearch) => ("Search the web and return the top answer", string_params(vec!["query"])),
        Some(BuiltinTool::TaskterTask) => ("Run the task subcommand of this program", taskter_params()),
        Some(BuiltinTool::TaskterAgent) => ("Run the agent subcommand of this program", taskter_params()),
        Some(BuiltinTool::TaskterOkrs) => ("Run the okrs subcommand of this program", taskter_params()),
        Some(BuiltinTool::TaskterTools) => ("Run the tools subcommand of this program", taskter_params()),
        Some(BuiltinTool::ProjectFiles) => (
            "Create, read, update or search files of the project",
            string_params(vec!["action"]),
        ),
    };
    Some(
        crate::agent::FunctionDeclaration {
            name: String::from_str(name),
            description: Some(String::from_str(description)),
            parameters: params,
        },
    )
}

/// `{"type": "object", "properties": {"args": {"type": "array", ...}}, "required": ["args"]}`.
fn taskter_params() -> (r: Json)
    ensures
        r@ is Object,
{
    let mut items = Json::empty_object();
    items.push_member("type", Json::str("string"));
    let mut args = Json::empty_object();
    args.push_member("type", Json::str("array"));
    args.push_member("items", items);
    let mut props = Json::empty_object();
    props.push_member("args", args);
    let mut o = Json::empty_object();
    o.push_member("type", Json::str("object"));
    o.push_member("properties", props);
    o.push_member("required", crate::json::array1(Json::str("args")));
    o
}

/// A file action of the project-files tool.
pub enum FileAction {
    Create { path: String, content: String },
    Read { path: String },
    Update { path: String, content: String },
    Search { query: String },
}

/// A tool call with its arguments read, ready to run.
pub enum ToolRequest {
    SendEmail { to: String, subject: String, body: String },
    GetDescription,
    RunBash { command: String },
    RunPython { code: String },
    WebSearch { query: String },
    /// A run of the program's own command line: the subcommand, then the arguments.
    Taskter { subcommand: String, args: Vec<String> },
    Files { action: FileAction },
}

pub enum FileActionV {
    Create { path: Seq<char>, content: Seq<char> },
    Read { path: Seq<char> },
    Update { path: Seq<char>, content: Seq<char> },
    Search { query: Seq<char> },
}

pub enum ToolRequestV {
    SendEmail { to: Seq<char>, subject: Seq<char>, body: Seq<char> },
    GetDescription,
    RunBash { command: Seq<char> },
    RunPython { code: Seq<char> },
    WebSearch { query: Seq<char> },
    Taskter { subcommand: Seq<char>, args: Seq<Seq<char>> },
    Files { action: FileActionV },
}

pub open spec fn strs_view(v: Seq<String>) -> Seq<Seq<char>> {
    Seq::new(v.len(), |i: int| v[i]@)
}

impl View for ToolRequest {
    type V = ToolRequestV;

    open spec fn view(&self) -> ToolRequestV {
        match self {
            ToolRequest::SendEmail { to, subject, body } => ToolRequestV::SendEmail {
                to: to@,
                subject: subject@,
                body: body@,
            },
            ToolRequest::GetDescription => ToolRequestV::GetDescription,
            ToolRequest::RunBash { command } => ToolRequestV::RunBash { command: command@ },
            ToolRequest::RunPython { code } => ToolRequestV::RunPython { code: code@ },
            ToolRequest::WebSearch { query } => ToolRequestV::WebSearch { query: query@ },
            ToolRequest::Taskter { subcommand, args } => ToolRequestV::Taskter {
                subcommand: subcommand@,
                args: strs_view(args@),
            },
            ToolRequest::Files { action } => ToolRequestV::Files {
                action: match action {
                    FileAction::Create { path, content } => FileActionV::Create { path: path@, content: content@ },
                    FileAction::Read { path } => FileActionV::Read { path: path@ },
                    FileAction::Update { path, content } => FileActionV::Update { path: path@, content: content@ },
                    FileAction::Search { query } => FileActionV::Search { query: query@ },
                },
            },
        }
    }
}

/// The string argument `key`, or the error `<key> missing`.
pub open spec fn required_str(args: JsonV, key: Seq<char>) -> Result<Seq<char>, Seq<char>> {
    match args.str_field(key) {
        Some(s) => Ok(s),
        None => Err(key + " missing"@),
    }
}

/// The elements of an array where all are strings.
pub open spec fn all_strings(items: Seq<JsonV>) -> Option<Seq<Seq<char>>>
    decreases items.len(),
{
    if items.len() == 0 {
        Some(Seq::empty())
    } else {
        match (all_strings(items.drop_last()), items.last()) {
            (Some(r), JsonV::Str(s)) => Some(r.push(s)),
            _ => None,
        }
    }
}

/// The command-line call of a `taskter_*` tool.
pub open spec fn taskter_request(sub: Seq<char>, args: JsonV) -> Result<ToolRequestV, Seq<char>> {
    match args.get("args"@) {
        Some(JsonV::Array(items)) => match all_strings(items) {
            Some(ss) => Ok(ToolRequestV::Taskter { subcommand: sub, args: ss }),
            None => Err("args must be strings"@),
        },
        _ => Err("args missing"@),
    }
}

/// The file action that the arguments ask for.
pub open spec fn file_request(args: JsonV) -> Result<ToolRequestV, Seq<char>> {
    match required_str(args, "action"@) {
        Err(e) => Err(e),
        Ok(a) => if a == "create"@ {
            match required_str(args, "path"@) {
                Ok(p) => Ok(
                    ToolRequestV::Files {
                        action: FileActionV::Create {
                            path: p,
                            content: match args.str_field("content"@) {
                                Some(c) => c,
                                None => Seq::empty(),
                            },
                        },
                    },
                ),
                Err(e) => Err(e),
            }
        } else if a == "read"@ {
            match required_str(args, "path"@) {
                Ok(p) => Ok(ToolRequestV::Files { action: FileActionV::Read { path: p } }),
                Err(e) => Err(e),
            }
        } else if a == "update"@ {
            match (required_str(args, "path"@), required_str(args, "content"@)) {
                (Ok(p), Ok(c)) => Ok(ToolRequestV::Files { action: FileActionV::Update { path: p, content: c } }),
                (Err(e), _) => Err(e),
                (_, Err(e)) => Err(e),
            }
        } else if a == "search"@ {
            match required_str(args, "query"@) {
                Ok(q) => Ok(ToolRequestV::Files { action: FileActionV::Search { query: q } }),
                Err(e) => Err(e),
            }
        } else {
            Err("unknown action"@)
        },
    }
}

/// The request that a tool makes of its arguments, or the error it reports.
pub open spec fn decode_request(tool: BuiltinTool, args: JsonV) -> Result<ToolRequestV, Seq<char>> {
    match tool {
        BuiltinTool::SendEmail => match (
            required_str(args, "to"@),
            required_str(args, "subject"@),
            required_str(args, "body"@),
        ) {
            (Ok(t), Ok(s), Ok(b)) => Ok(ToolRequestV::SendEmail { to: t, subject: s, body: b }),
            (Err(e), _, _) => Err(e),
            (_, Err(e), _) => Err(e),
            (_, _, Err(e)) => Err(e),
        },
        BuiltinTool::GetDescription => Ok(ToolRequestV::GetDescription),
        BuiltinTool::RunBash => match required_str(args, "command"@) {
            Ok(c) => Ok(ToolRequestV::RunBash { command: c }),
            Err(e) => Err(e),
        },
        BuiltinTool::RunPython => match required_str(args, "code"@) {
            Ok(c) => Ok(ToolRequestV::RunPython { code: c }),
            Err(e) => Err(e),
        },
        BuiltinTool::WebSearch => match required_str(args, "query"@) {
            Ok(q) => Ok(ToolRequestV::WebSearch { query: q }),
            Err(e) => Err(e),
        },
        BuiltinTool::TaskterTask => taskter_request("task"@, args),
        BuiltinTool::TaskterAgent => taskter_request("agent"@, args),
        BuiltinTool::TaskterOkrs => taskter_request("okrs"@, args),
        BuiltinTool::TaskterTools => taskter_request("tools"@, args),
        BuiltinTool::ProjectFiles => file_request(args),
    }
}

/// What the registry does with a call: an unknown name is an error, a known
/// tool reads its arguments.
pub open spec fn prepare_spec(name: Seq<char>, args: JsonV) -> Result<ToolRequestV, Seq<char>> {
    match tool_of(name) {
        None => Err("Unknown tool: "@ + name),
        Some(t) => decode_request(t, args),
    }
}

pub open spec fn prepared_view(r: Result<ToolRequest, String>) -> Result<ToolRequestV, Seq<char>> {
    match r {
        Ok(q) => Ok(q@),
        Err(e) => Err(e@),
    }
}

fn required(args: &Json, key: &str) -> (r: Result<String, String>)
    ensures
        match r {
            Ok(s) => required_str(args@, key@) == Ok::<Seq<char>, Seq<char>>(s@),
            Err(e) => required_str(args@, key@) == Err::<Seq<char>, Seq<char>>(e@),
        },
{
    match args.str_field(key) {
        Some(s) => Ok(s.clone()),
        None => Err(String::from_str(key).concat(" missing")),
    }
}

fn taskter_call(sub: &str, args: &Json) -> (r: Result<ToolRequest, String>)
    ensures
        prepared_view(r) == taskter_request(sub@, args@),
{
    match args.get("args") {
        Some(Json::Array(items)) => {
            proof {
                crate::json::lemma_items_view(items@);
            }
            let ghost iv = items_view(items@);
            let mut out: Vec<String> = Vec::new();
            let mut i: usize = 0;
            while i < items.len()
                invariant
                    args@.get("args"@) == Some(JsonV::Array(iv)),
                    iv == items_view(items@),
                    iv.len() == items@.len(),
                    forall|k: int| 0 <= k < items@.len() ==> #[trigger] iv[k] == json_view(items@[k]),
                    i <= items@.len(),
                    all_strings(iv.subrange(0, i as int)) == Some(strs_view(out@)),
                decreases items@.len() - i,
            {
                assert(iv.subrange(0, i as int + 1).drop_last() =~= iv.subrange(0, i as int));
                match &items[i] {
                    Json::Str(s) => {
                        let ghost before = out@;
                        out.push(s.clone());
                        assert(strs_view(out@) =~= strs_view(before).push(s@));
                    },
                    _ => {
                        proof {
                            lemma_all_strings_stops(iv, i as int);
                        }
                        return Err(String::from_str("args must be strings"));
                    },
                }
                i = i + 1;
            }
            assert(iv.subrange(0, items@.len() as int) =~= iv);
            Ok(ToolRequest::Taskter { subcommand: String::from_str(sub), args: out })
        },
        _ => Err(String::from_str("args missing")),
    }
}

/// Once an element is not a string, no longer prefix is all strings.
proof fn lemma_all_strings_stops(iv: Seq<JsonV>, i: int)
    requires
        0 <= i < iv.len(),
        !(iv[i] is Str),
    ensures
        all_strings(iv) is None,
    decreases iv.len() - i,
{
    let s = iv.subrange(0, i + 1);
    assert(s.last() == iv[i]);
    assert(all_strings(s) is None);
    lemma_all_strings_prefix(iv, i + 1);
}

proof fn lemma_all_strings_prefix(iv: Seq<JsonV>, n: int)
    requires
        0 <= n <= iv.len(),
        all_strings(iv.subrange(0, n)) is None,
    ensures
        all_strings(iv) is None,
    decreases iv.len() - n,
{
    if n == iv.len() {
        assert(iv.subrange(0, n) =~= iv);
    } else {
        assert(iv.subrange(0, n + 1).drop_last() =~= iv.subrange(0, n));
        lemma_all_strings_prefix(iv, n + 1);
    }
}

fn file_call(args: &Json) -> (r: Result<ToolRequest, String>)
    ensures
        prepared_view(r) == file_request(args@),
{
    let action = match required(args, "action") {
        Ok(a) => a,
        Err(e) => {
            return Err(e);
        },
    };
    let a = action.as_str();
    if crate::json::str_eq(a, "create") {
        match required(args, "path") {
            Ok(path) => {
                let content = match args.str_field("content") {
                    Some(c) => c.clone(),
                    None => String::new(),
                };
                Ok(ToolRequest::Files { action: FileAction::Create { path, content } })
            },
            Err(e) => Err(e),
        }
    } else if crate::json::str_eq(a, "read") {
        match required(args, "path") {
            Ok(path) => Ok(ToolRequest::Files { action: FileAction::Read { path } }),
            Err(e) => Err(e),
        }
    } else if crate::json::str_eq(a, "update") {
        match required(args, "path") {
            Ok(path) => match required(args, "content") {
                Ok(content) => Ok(ToolRequest::Files { action: FileAction::Update { path, content } }),
                Err(e) => Err(e),
            },
            Err(e) => Err(e),
        }
    } else if crate::json::str_eq(a, "search") {
        match required(args, "query") {
            Ok(query) => Ok(ToolRequest::Files { action: FileAction::Search { query } }),
            Err(e) => Err(e),
        }
    } else {
        Err(String::from_str("unknown action"))
    }
}

/// Looks the tool up and reads its arguments; `Unknown tool: <name>` where
/// no tool has that name, else the tool's own error for a missing argument.
pub fn prepare_tool(name: &str, args: &Json) -> (r: Result<ToolRequest, String>)
    ensures
        prepared_view(r) == prepare_spec(name@, args@),
{
    match lookup_tool(name) {
        None => Err(String::from_str("Unknown tool: ").concat(name)),
        Some(BuiltinTool::SendEmail) => {
            let to = match required(args, "to") {
                Ok(x) => x,
                Err(e) => {
                    return Err(e);
                },
            };
            let subject = match required(args, "subject") {
                Ok(x) => x,
                Err(e) => {
                    return Err(e);
                },
            };
            let body = match required(args, "body") {
                Ok(x) => x,
                Err(e) => {
                    return Err(e);
                },
            };
            Ok(ToolRequest::SendEmail { to, subject, body })
        },
        Some(BuiltinTool::GetDescription) => Ok(ToolRequest::GetDescription),
        Some(BuiltinTool::RunBash) => match required(args, "command") {
            Ok(command) => Ok(ToolRequest::RunBash { command }),
            Err(e) => Err(e),
        },
        Some(BuiltinTool::RunPython) => match required(args, "code") {
            Ok(code) => Ok(ToolRequest::RunPython { code }),
            Err(e) => Err(e),
        },
        Some(BuiltinTool::WebSearch) => match required(args, "query") {
            Ok(query) => Ok(ToolRequest::WebSearch { query }),
            Err(e) => Err(e),
        },
        Some(BuiltinTool::TaskterTask) => taskter_call("task", args),
        Some(BuiltinTool::TaskterAgent) => taskter_call("agent", args),
        Some(BuiltinTool::TaskterOkrs) => taskter_call("okrs", args),
        Some(BuiltinTool::TaskterTools) => taskter_call("tools", args),
        Some(BuiltinTool::ProjectFiles) => file_call(args),
    }
}

/// The first related topic that has a `Text`, from position `i` on.
pub open spec fn first_topic_text(topics: Seq<JsonV>, i: int) -> Option<Seq<char>>
    decreases topics.len() - i,
{
    if i < 0 || i >= topics.len() {
        None
    } else {
        match topics[i].str_field("Text"@) {
            Some(t) => Some(t),
            None => first_topic_text(topics, i + 1),
        }
    }
}

/// The answer of a search response: its `AbstractText` where that is not
/// empty, else the first related topic's `Text`, else `No results found`.
pub open spec fn search_answer_of(v: JsonV) -> Seq<char> {
    match v.str_field("AbstractText"@) {
        Some(t) if t.len() > 0 => t,
        _ => match v.get("RelatedTopics"@) {
            Some(JsonV::Array(topics)) => match first_topic_text(topics, 0) {
                Some(t) => t,
                None => "No results found"@,
            },
            _ => "No results found"@,
        },
    }
}

pub fn search_answer(v: &Json) -> (r: String)
    ensures
        r@ == search_answer_of(v@),
{
    if let Some(t) = v.str_field("AbstractText") {
        if t.as_str().unicode_len() > 0 {
            return t.clone();
        }
    }
    match v.get("RelatedTopics") {
        Some(Json::Array(topics)) => {
            proof {
                crate::json::lemma_items_view(topics@);
            }
            let ghost iv = items_view(topics@);
            let mut i: usize = 0;
            while i < topics.len()
                invariant
                    v@.get("RelatedTopics"@) == Some(JsonV::Array(iv)),
                    search_answer_of(v@) == match first_topic_text(iv, 0) {
                        Some(t) => t,
                        None => "No results found"@,
                    },
                    iv == items_view(topics@),
                    iv.len() == topics@.len(),
                    forall|k: int| 0 <= k < topics@.len() ==> #[trigger] iv[k] == json_view(topics@[k]),
                    i <= topics@.len(),
                    first_topic_text(iv, 0) == first_topic_text(iv, i as int),
                decreases topics@.len() - i,
            {
                if let Some(t) = topics[i].str_field("Text") {
                    return t.clone();
                }
                i = i + 1;
            }
            String::from_str("No results found")
        },
        _ => String::from_str("No results found"),
    }
}

} // verus!
