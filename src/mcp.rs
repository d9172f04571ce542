//! The decisions of the JSON-RPC tool bridge: reading a request line, and the
//! response to each method. Reading and writing the stream, and running a
//! called tool, are the caller's part.
use vstd::prelude::*;

use crate::agent::FunctionDeclaration;
use crate::json::{or_null, Json, JsonV};
use crate::providers::decl_view;
use crate::text::has_prefix;
use crate::wire::parsed_json;

verus! {

pub const JSONRPC: &'static str = "2.0";

pub const MCP_PROTOCOL_VERSION: &'static str = "2025-06-18";

/// A request as read from one line.
pub struct RpcRequest {
    pub jsonrpc: String,
    pub id: Json,
    pub has_id: bool,
    pub method: String,
    pub params: Json,
}

pub struct RpcError {
    pub code: i64,
    pub message: String,
}

/// A response; the `jsonrpc` member is always `2.0`.
pub struct RpcResponse {
    pub id: Option<Json>,
    pub result: Option<Json>,
    pub error: Option<RpcError>,
}

pub open spec fn opt_json(o: Option<Json>) -> Option<JsonV> {
    match o {
        Some(j) => Some(j@),
        None => None,
    }
}

impl RpcRequest {
    /// The id to answer with; a notification has none.
    pub fn response_id(&self) -> (r: Option<Json>)
        ensures
            self.has_id ==> r is Some && r->0@ == self.id@,
            !self.has_id ==> r is None,
    {
        if self.has_id {
            Some(self.id.copy())
        } else {
            None
        }
    }
}

/// A request without an id is a notification: it gets no response.
pub fn is_notification(has_id: bool) -> (r: bool)
    ensures
        r == !has_id,
{
    !has_id
}

pub fn rpc_ok(id: Option<Json>, result: Json) -> (r: RpcResponse)
    ensures
        opt_json(r.id) == opt_json(id),
        r.result is Some && r.result->0@ == result@,
        r.error is None,
{
    RpcResponse { id, result: Some(result), error: None }
}

pub fn rpc_err(id: Option<Json>, code: i64, message: String) -> (r: RpcResponse)
    ensures
        opt_json(r.id) == opt_json(id),
        r.result is None,
        r.error is Some && r.error->0.code == code && r.error->0.message@ == message@,
{
    RpcResponse { id, result: None, error: Some(RpcError { code, message }) }
}

/// Why a line is not a request.
pub open spec fn request_error(line: Seq<char>) -> Option<Seq<char>> {
    match parsed_json(line) {
        None => Some("Invalid JSON"@),
        Some(JsonV::Object(_)) => match parsed_json(line)->0.str_field("method"@) {
            Some(_) => None,
            None => Some("Missing method"@),
        },
        Some(_) => Some("MCP request must be a JSON object"@),
    }
}

/// Reads one request. An `initialize` without an id is answered as if it had one.
pub fn parse_request(line: &str) -> (r: Result<RpcRequest, String>)
    ensures
        r is Err <==> request_error(line@) is Some,
        r is Err ==> r->Err_0@ == request_error(line@)->0,
        r is Ok ==> {
            let v = parsed_json(line@)->0;
            let q = r->Ok_0;
            &&& q.method@ == v.str_field("method"@)->0
            &&& q.jsonrpc@ == match v.str_field("jsonrpc"@) {
                Some(s) => s,
                None => Seq::empty(),
            }
            &&& q.has_id == (v.get("id"@) is Some || q.method@ == "initialize"@)
            &&& q.id@ == or_null(v.get("id"@))
            &&& q.params@ == or_null(v.get("params"@))
        },
{
    let value = match crate::wire::parse_json(line) {
        Some(v) => v,
        None => {
            return Err(String::from_str("Invalid JSON"));
        },
    };
    let is_object = match &value {
        Json::Object(_) => true,
        _ => false,
    };
    if !is_object {
        return Err(String::from_str("MCP request must be a JSON object"));
    }
    let method = match value.str_field("method") {
        Some(m) => m.clone(),
        None => {
            return Err(String::from_str("Missing method"));
        },
    };
    let jsonrpc = match value.str_field("jsonrpc") {
        Some(s) => s.clone(),
        None => String::new(),
    };
    let id_member = value.get("id");
    let has_id = id_member.is_some() || crate::json::str_eq(method.as_str(), "initialize");
    let id = match id_member {
        Some(i) => i.copy(),
        None => Json::Null,
    };
    let params = match value.get("params") {
        Some(p) => p.copy(),
        None => Json::Null,
    };
    Ok(RpcRequest { jsonrpc, id, has_id, method, params })
}

/// A line that starts, after whitespace, with `{` or `[` is a bare JSON message.
pub fn looks_like_json(line: &str) -> (r: bool)
    ensures
        r == (has_prefix(crate::text::trim_start_of(line@), "{"@) || has_prefix(
            crate::text::trim_start_of(line@),
            "["@,
        )),
{
    let t = crate::text::trim_start(line);
    crate::text::starts_with(t, "{") || crate::text::starts_with(t, "[")
}

/// A declaration as the bridge lists it: its parameters as the input schema,
/// or `{"type": "object"}` where they are not an object or an array.
pub open spec fn descriptor_view(d: FunctionDeclaration) -> JsonV {
    JsonV::Object(
        seq![
            ("name"@, JsonV::Str(d.name@)),
            ("description"@, decl_view(d)->Object_0[1].1),
            ("inputSchema"@, match d.parameters@ {
                JsonV::Object(_) => d.parameters@,
                JsonV::Array(_) => d.parameters@,
                _ => JsonV::Object(seq![("type"@, JsonV::Str("object"@))]),
            }),
        ],
    )
}

pub fn mcp_tool_descriptor(d: &FunctionDeclaration) -> (r: Json)
    ensures
        r@ == descriptor_view(*d),
{
    let schema = match &d.parameters {
        Json::Object(_) | Json::Array(_) => d.parameters.copy(),
        _ => {
            let mut o = Json::empty_object();
            o.push_member("type", Json::str("object"));
            assert(o@->Object_0 =~= seq![("type"@, JsonV::Str("object"@))]);
            o
        },
    };
    let desc = match &d.description {
        Some(s) => Json::Str(s.clone()),
        None => Json::Null,
    };
    let mut o = Json::empty_object();
    o.push_member("name", Json::Str(d.name.clone()));
    o.push_member("description", desc);
    o.push_member("inputSchema", schema);
    assert(o@->Object_0 =~= descriptor_view(*d)->Object_0);
    o
}

pub fn mcp_tool_descriptors(decls: &Vec<FunctionDeclaration>) -> (r: Vec<Json>)
    ensures
        r@.len() == decls@.len(),
        forall|i: int| 0 <= i < decls@.len() ==> #[trigger] r@[i]@ == descriptor_view(decls@[i]),
{
    let mut out: Vec<Json> = Vec::new();
    let mut i: usize = 0;
    while i < decls.len()
        invariant
            i <= decls@.len(),
            out@.len() == i,
            forall|k: int| 0 <= k < i ==> #[trigger] out@[k]@ == descriptor_view(decls@[k]),
        decreases decls@.len() - i,
    {
        out.push(mcp_tool_descriptor(&decls[i]));
        i = i + 1;
    }
    out
}

/// What to do with a request line.
pub enum McpAction {
    /// Write the response, if any, then stop where `shutdown` is set.
    Reply { response: Option<RpcResponse>, shutdown: bool },
    /// Run the tool, then answer with [`tool_call_response`].
    CallTool { request: RpcRequest, name: String, args: Json },
}

fn reply(req: &RpcRequest, response: RpcResponse, shutdown: bool) -> (r: McpAction)
    ensures
        r is Reply,
        r->Reply_shutdown == shutdown,
        !req.has_id ==> r->Reply_response is None,
        req.has_id ==> r->Reply_response == Some(response),
{
    if is_notification(req.has_id) {
        McpAction::Reply { response: None, shutdown }
    } else {
        McpAction::Reply { response: Some(response), shutdown }
    }
}

/// The result of `initialize`: the protocol version that the client asked
/// for (or this bridge's), the tool capability, and the server's name and version.
pub open spec fn initialize_result(params: JsonV, server_version: Seq<char>) -> JsonV {
    JsonV::Object(
        seq![
            ("protocolVersion"@, JsonV::Str(match params.str_field("protocolVersion"@) {
                Some(v) => v,
                None => MCP_PROTOCOL_VERSION@,
            })),
            ("capabilities"@, JsonV::Object(seq![("tools"@, crate::json::empty_obj())])),
            ("serverInfo"@, JsonV::Object(
                seq![("name"@, JsonV::Str("taskter"@)), ("version"@, JsonV::Str(server_version))],
            )),
        ],
    )
}

pub fn handle_initialize(req: &RpcRequest, server_version: &str) -> (r: RpcResponse)
    ensures
        r.error is None,
        r.result is Some && r.result->0@ == initialize_result(req.params@, server_version@),
        req.has_id ==> r.id is Some && r.id->0@ == req.id@,
        !req.has_id ==> r.id is None,
{
    let version = match req.params.str_field("protocolVersion") {
        Some(v) => v.clone(),
        None => String::from_str(MCP_PROTOCOL_VERSION),
    };
    let mut caps = Json::empty_object();
    caps.push_member("tools", Json::empty_object());
    assert(caps@->Object_0 =~= seq![("tools"@, crate::json::empty_obj())]);
    let ghost cv = caps@;
    let mut info = Json::empty_object();
    info.push_member("name", Json::str("taskter"));
    info.push_member("version", Json::str(server_version));
    assert(info@->Object_0 =~= seq![("name"@, JsonV::Str("taskter"@)), ("version"@, JsonV::Str(server_version@))]);
    let ghost vv = version@;
    let mut result = Json::empty_object();
    result.push_member("protocolVersion", Json::Str(version));
    result.push_member("capabilities", caps);
    result.push_member("serverInfo", info);
    assert(result@->Object_0 =~= initialize_result(req.params@, server_version@)->Object_0);
    rpc_ok(req.response_id(), result)
}

/// The request that a readable line holds.
pub open spec fn line_request(line: Seq<char>) -> JsonV {
    parsed_json(line)->0
}

pub open spec fn line_method(line: Seq<char>) -> Seq<char> {
    line_request(line).str_field("method"@)->0
}

/// The line names no `jsonrpc` version, or `2.0`.
pub open spec fn line_version_ok(line: Seq<char>) -> bool {
    match line_request(line).str_field("jsonrpc"@) {
        Some(v) => v.len() == 0 || v == JSONRPC@,
        None => true,
    }
}

pub open spec fn line_has_id(line: Seq<char>) -> bool {
    line_request(line).get("id"@) is Some || line_method(line) == "initialize"@
}

pub open spec fn is_known_method(m: Seq<char>) -> bool {
    m == "initialize"@ || m == "ping"@ || m == "shutdown"@ || m == "tools/list"@ || m == "tools/call"@
}

/// The reply is an error with this code, present exactly for a request with an id.
pub open spec fn error_reply(r: McpAction, has_id: bool, code: int, message: Seq<char>) -> bool {
    &&& r is Reply
    &&& !r->Reply_shutdown
    &&& (r->Reply_response is Some <==> has_id)
    &&& r->Reply_response is Some ==> r->Reply_response->0.error is Some
        && r->Reply_response->0.error->0.code as int == code
        && r->Reply_response->0.error->0.message@ == message
}

/// Decides on one line: an unreadable line gets a parse error, an
/// unsupported `jsonrpc` version an invalid-request error, a known method its
/// result, `tools/call` a tool run, and any other method a not-found error.
/// A notification gets no response.
pub fn handle_line(line: &str, decls: &Vec<FunctionDeclaration>, server_version: &str) -> (r: McpAction)
    ensures
        request_error(line@) is Some ==> error_reply(r, true, -32700, "Invalid JSON: "@ + request_error(line@)->0),
        request_error(line@) is None && !line_version_ok(line@) ==> error_reply(
            r,
            line_has_id(line@),
            -32600,
            "Unsupported jsonrpc version `"@ + line_request(line@).str_field("jsonrpc"@)->0 + "`"@,
        ),
        request_error(line@) is None && line_version_ok(line@) ==> {
            let m = line_method(line@);
            let params = or_null(line_request(line@).get("params"@));
            &&& !is_known_method(m) ==> error_reply(
                r,
                line_has_id(line@),
                -32601,
                "Method `"@ + m + "` not implemented"@,
            )
            &&& (m == "tools/call"@ && params.str_field("name"@) is None) ==> error_reply(
                r,
                line_has_id(line@),
                -32602,
                "Missing tool name"@,
            )
            &&& (m == "tools/call"@ && params.str_field("name"@) is Some) ==> {
                &&& r is CallTool
                &&& r->CallTool_name@ == params.str_field("name"@)->0
                &&& r->CallTool_args@ == match params.get("arguments"@) {
                    Some(a) => a,
                    None => crate::json::empty_obj(),
                }
            }
            &&& (m == "initialize"@ || m == "ping"@ || m == "tools/list"@ || m == "shutdown"@) ==> {
                &&& r is Reply
                &&& r->Reply_shutdown == (m == "shutdown"@)
                &&& (r->Reply_response is Some <==> line_has_id(line@))
                &&& r->Reply_response is Some ==> r->Reply_response->0.error is None
            }
        },
{
    let req = match parse_request(line) {
        Ok(q) => q,
        Err(e) => {
            let msg = String::from_str("Invalid JSON: ").concat(e.as_str());
            return McpAction::Reply { response: Some(rpc_err(None, -32700, msg)), shutdown: false };
        },
    };
    let version = req.jsonrpc.as_str();
    if version.unicode_len() > 0 && !crate::json::str_eq(version, JSONRPC) {
        let msg = String::from_str("Unsupported jsonrpc version `").concat(version).concat("`");
        let resp = rpc_err(req.response_id(), -32600, msg);
        return reply(&req, resp, false);
    }
    let m = req.method.as_str();
    proof {
        reveal_strlit("initialize");
        reveal_strlit("ping");
        reveal_strlit("shutdown");
        reveal_strlit("tools/list");
        reveal_strlit("tools/call");
        assert("tools/list"@[6] != "tools/call"@[6]);
        assert("ping"@[0] != "tools/call"@[0]);
        assert("shutdown"@[0] != "tools/call"@[0]);
        assert("initialize"@[0] != "tools/call"@[0]);
        assert("ping"@[0] != "shutdown"@[0]);
        assert("ping"@[0] != "initialize"@[0]);
        assert("shutdown"@[0] != "initialize"@[0]);
    }
    if crate::json::str_eq(m, "initialize") {
        let resp = handle_initialize(&req, server_version);
        reply(&req, resp, false)
    } else if crate::json::str_eq(m, "ping") || crate::json::str_eq(m, "shutdown") {
        let resp = rpc_ok(req.response_id(), Json::empty_object());
        let stop = crate::json::str_eq(m, "shutdown");
        reply(&req, resp, stop)
    } else if crate::json::str_eq(m, "tools/list") {
        let tools = crate::json::array_of(mcp_tool_descriptors(decls));
        let mut result = Json::empty_object();
        result.push_member("tools", tools);
        let resp = rpc_ok(req.response_id(), result);
        reply(&req, resp, false)
    } else if crate::json::str_eq(m, "tools/call") {
        let name = match req.params.str_field("name") {
            Some(n) => n.clone(),
            None => {
                let resp = rpc_err(req.response_id(), -32602, String::from_str("Missing tool name"));
                return reply(&req, resp, false);
            },
        };
        let args = match req.params.get("arguments") {
            Some(a) => a.copy(),
            None => Json::empty_object(),
        };
        McpAction::CallTool { request: req, name, args }
    } else {
        let msg = String::from_str("Method `").concat(m).concat("` not implemented");
        let resp = rpc_err(req.response_id(), -32601, msg);
        reply(&req, resp, false)
    }
}

/// The answer to `tools/call`: the output as one text content item, or the
/// error `Tool `<name>` failed: <error>`; none for a notification.
pub fn tool_call_response(req: &RpcRequest, name: &str, outcome: Result<String, String>) -> (r: Option<
    RpcResponse,
>)
    ensures
        !req.has_id <==> r is None,
        r is Some && outcome is Err ==> r->0.error is Some && r->0.error->0.code == -32000
            && r->0.error->0.message@ == "Tool `"@ + name@ + "` failed: "@ + outcome->Err_0@,
        r is Some && outcome is Ok ==> r->0.error is None && r->0.result is Some && r->0.result->0@
            == JsonV::Object(
            seq![("content"@, JsonV::Array(seq![
                JsonV::Object(seq![("type"@, JsonV::Str("text"@)), ("text"@, JsonV::Str(outcome->Ok_0@))]),
            ]))],
        ),
{
    if is_notification(req.has_id) {
        return None;
    }
    match outcome {
        Ok(output) => {
            let ghost ov = output@;
            let mut item = Json::empty_object();
            item.push_member("type", Json::str("text"));
            item.push_member("text", Json::Str(output));
            assert(item@->Object_0 =~= seq![("type"@, JsonV::Str("text"@)), ("text"@, JsonV::Str(ov))]);
            let ghost iv = item@;
            let mut result = Json::empty_object();
            result.push_member("content", crate::json::array1(item));
            assert(result@->Object_0 =~= seq![("content"@, JsonV::Array(seq![iv]))]);
            Some(rpc_ok(req.response_id(), result))
        },
        Err(e) => {
            let msg = String::from_str("Tool `").concat(name).concat("` failed: ").concat(e.as_str());
            Some(rpc_err(req.response_id(), -32000, msg))
        },
    }
}

} // verus!
