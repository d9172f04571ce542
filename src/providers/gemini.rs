//! Google Gemini's `generateContent` protocol.
use vstd::prelude::*;

use super::openai::member;
use super::{decls_view, parsed_view, ActionV, ModelAction, ResponseFormatError};
use crate::agent::Agent;
use crate::json::{at_in, empty_obj, get_in, items_view, or_null, Json, JsonV};

verus! {

/// The Gemini adapter.
pub struct GeminiProvider;

/// The single user turn that opens a conversation.
pub open spec fn gemini_first_turn(system: Seq<char>, user: Seq<char>) -> JsonV {
    JsonV::Object(
        seq![
            ("role"@, JsonV::Str("user"@)),
            ("parts"@, JsonV::Array(seq![
                JsonV::Object(seq![("text"@, JsonV::Str("System: "@ + system + "\nUser: "@ + user))]),
            ])),
        ],
    )
}

/// The model's turn asking for a tool.
pub open spec fn gemini_call_turn(tool: Seq<char>, args: JsonV) -> JsonV {
    JsonV::Object(
        seq![
            ("role"@, JsonV::Str("model"@)),
            ("parts"@, JsonV::Array(seq![
                JsonV::Object(seq![("functionCall"@, JsonV::Object(seq![("name"@, JsonV::Str(tool)), ("args"@, args)]))]),
            ])),
        ],
    )
}

/// The turn that carries a tool's output back.
pub open spec fn gemini_result_turn(tool: Seq<char>, output: Seq<char>) -> JsonV {
    JsonV::Object(
        seq![
            ("role"@, JsonV::Str("tool"@)),
            ("parts"@, JsonV::Array(seq![
                JsonV::Object(seq![("functionResponse"@, JsonV::Object(seq![
                    ("name"@, JsonV::Str(tool)),
                    ("response"@, JsonV::Object(seq![("content"@, JsonV::Str(output))])),
                ]))]),
            ])),
        ],
    )
}

/// The first part of the first candidate, `null` where any step is missing.
pub open spec fn gemini_part(v: JsonV) -> JsonV {
    or_null(or_null(or_null(or_null(v.get("candidates"@)).at(0)).get("content"@)).get("parts"@)).nth(0)
}

/// The action that a `generateContent` response asks for.
pub open spec fn gemini_parse(v: JsonV) -> Result<ActionV, ResponseFormatError> {
    let part = gemini_part(v);
    match part.get("functionCall"@) {
        Some(fc) => match fc.str_field("name"@) {
            Some(name) => Ok(
                ActionV::ToolCall {
                    name,
                    args: match fc.get("args"@) {
                        Some(a) => a,
                        None => empty_obj(),
                    },
                    call_id: None,
                },
            ),
            None => Err(ResponseFormatError::MissingToolName),
        },
        None => match part.str_field("text"@) {
            Some(t) => Ok(ActionV::Text { content: t }),
            None => Err(ResponseFormatError::NoAction),
        },
    }
}

/// A turn of the given role with one part.
fn turn(role: &str, part: Json) -> (r: Json)
    ensures
        r@ == JsonV::Object(seq![("role"@, JsonV::Str(role@)), ("parts"@, JsonV::Array(seq![part@]))]),
{
    let mut o = Json::empty_object();
    o.push_member("role", Json::str(role));
    let ghost pv = part@;
    o.push_member("parts", crate::json::array1(part));
    assert(o@->Object_0 =~= seq![("role"@, JsonV::Str(role@)), ("parts"@, JsonV::Array(seq![pv]))]);
    o
}

impl GeminiProvider {
    pub open spec fn spec_tools_payload(&self, agent: &Agent) -> JsonV {
        JsonV::Object(seq![("functionDeclarations"@, JsonV::Array(decls_view(agent.tools@)))])
    }

    pub fn name(&self) -> (r: &'static str)
        ensures
            r@ == "gemini"@,
    {
        "gemini"
    }

    pub fn api_key_env(&self) -> (r: &'static str)
        ensures
            r@ == "GEMINI_API_KEY"@,
    {
        "GEMINI_API_KEY"
    }

    pub fn requires_api_key(&self) -> (r: bool)
        ensures
            r,
    {
        true
    }

    /// One user turn that embeds the system prompt and the user's text.
    pub fn build_history(&self, agent: &Agent, user_prompt: &str) -> (r: Vec<Json>)
        ensures
            items_view(r@) == seq![gemini_first_turn(agent.system_prompt@, user_prompt@)],
    {
        let text = String::from_str("System: ").concat(agent.system_prompt.as_str()).concat(
            "\nUser: ",
        ).concat(user_prompt);
        let t = turn("user", member("text", Json::Str(text)));
        let ghost tv = t@;
        let mut h: Vec<Json> = Vec::new();
        crate::json::push_doc(&mut h, t);
        proof {
            assert(items_view(Seq::<Json>::empty()) =~= Seq::empty());
            assert(tv->Object_0 =~~= gemini_first_turn(agent.system_prompt@, user_prompt@)->Object_0);
        }
        h
    }

    /// Appends the model's call of `tool_name` and the tool's output; Gemini
    /// correlates them by position, so `call_id` is not used.
    pub fn append_tool_result(
        &self,
        agent: &Agent,
        history: &mut Vec<Json>,
        tool_name: &str,
        args: &Json,
        tool_response: &str,
        call_id: Option<&str>,
    )
        ensures
            items_view(final(history)@) == items_view(old(history)@).push(
                gemini_call_turn(tool_name@, args@),
            ).push(gemini_result_turn(tool_name@, tool_response@)),
    {
        let mut call = Json::empty_object();
        call.push_member("name", Json::str(tool_name));
        call.push_member("args", args.copy());
        assert(call@->Object_0 =~= seq![("name"@, JsonV::Str(tool_name@)), ("args"@, args@)]);
        let first = turn("model", member("functionCall", call));
        let ghost fv = first@;
        let mut resp = Json::empty_object();
        resp.push_member("name", Json::str(tool_name));
        resp.push_member("response", member("content", Json::str(tool_response)));
        assert(resp@->Object_0 =~= seq![
            ("name"@, JsonV::Str(tool_name@)),
            ("response"@, JsonV::Object(seq![("content"@, JsonV::Str(tool_response@))])),
        ]);
        let second = turn("tool", member("functionResponse", resp));
        let ghost sv = second@;
        proof {
            assert(fv->Object_0 =~~= gemini_call_turn(tool_name@, args@)->Object_0);
            assert(sv->Object_0 =~~= gemini_result_turn(tool_name@, tool_response@)->Object_0);
        }
        crate::json::push_doc(history, first);
        crate::json::push_doc(history, second);
    }

    /// `{"functionDeclarations": [...]}` with the agent's declarations.
    pub fn tools_payload(&self, agent: &Agent) -> (r: Json)
        ensures
            r@ == self.spec_tools_payload(agent),
    {
        member("functionDeclarations", crate::json::array_of(super::declarations_json(&agent.tools)))
    }

    pub open spec fn spec_endpoint(&self, agent: &Agent) -> Seq<char> {
        "https://generativelanguage.googleapis.com/v1beta/models/"@ + agent.model@ + ":generateContent"@
    }

    pub fn endpoint(&self, agent: &Agent) -> (r: String)
        ensures
            r@ == self.spec_endpoint(agent),
    {
        String::from_str("https://generativelanguage.googleapis.com/v1beta/models/").concat(
            agent.model.as_str(),
        ).concat(":generateContent")
    }

    /// `{"contents": history, "tools": [tools]}`.
    pub open spec fn spec_request_body(&self, history: Seq<JsonV>, tools: JsonV) -> JsonV {
        JsonV::Object(seq![("contents"@, JsonV::Array(history)), ("tools"@, JsonV::Array(seq![tools]))])
    }

    pub fn request_body(&self, agent: &Agent, history: &[Json], tools: &Json) -> (r: Json)
        ensures
            r@ == self.spec_request_body(items_view(history@), tools@),
    {
        let mut o = Json::empty_object();
        o.push_member("contents", crate::json::array_of(crate::json::copy_docs(history)));
        o.push_member("tools", crate::json::array1(tools.copy()));
        assert(o@->Object_0 =~= seq![("contents"@, JsonV::Array(items_view(history@))), ("tools"@, JsonV::Array(seq![tools@]))]);
        o
    }

    /// Reads the first part of the first candidate: a `functionCall` or a `text`.
    pub fn parse_response(&self, response_json: &Json) -> (r: Result<ModelAction, ResponseFormatError>)
        ensures
            parsed_view(r) == gemini_parse(response_json@),
    {
        let cands = response_json.get("candidates");
        let content = get_in(at_in(cands, 0), "content");
        let part = at_in(get_in(content, "parts"), 0);
        match get_in(part, "functionCall") {
            Some(fc) => match fc.str_field("name") {
                Some(name) => {
                    let args = match fc.get("args") {
                        Some(a) => a.copy(),
                        None => Json::empty_object(),
                    };
                    Ok(ModelAction::ToolCall { name: name.clone(), args, call_id: None })
                },
                None => Err(ResponseFormatError::MissingToolName),
            },
            None => match crate::json::str_in(get_in(part, "text")) {
                Some(t) => Ok(ModelAction::Text { content: t.clone() }),
                None => Err(ResponseFormatError::NoAction),
            },
        }
    }

    /// The API key header and the JSON content type.
    pub fn headers(&self, api_key: &str) -> (r: Vec<(String, String)>)
        ensures
            r@.len() == 2,
            r@[0].0@ == "x-goog-api-key"@,
            r@[0].1@ == api_key@,
            r@[1].0@ == "Content-Type"@,
            r@[1].1@ == "application/json"@,
    {
        let mut h: Vec<(String, String)> = Vec::new();
        h.push((String::from_str("x-goog-api-key"), String::from_str(api_key)));
        h.push((String::from_str("Content-Type"), String::from_str("application/json")));
        h
    }
}

} // verus!
