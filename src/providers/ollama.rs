//! Ollama's `/api/chat` protocol.
use vstd::prelude::*;

use super::openai::{
    call_id_or_default, chat_call_message, chat_tool, chat_tool_message, either, named_call,
    non_empty_array, opt_action_view, opt_str, text_action,
};
use super::{decode_args, parsed_view, ActionV, ModelAction, ResponseFormatError};
use crate::agent::Agent;
use crate::json::{get_in, items_view, json_view, Json, JsonV};
use crate::text::{has_prefix, trim_end_char, trim_of};

verus! {

/// The Ollama adapter, with the base URL of the server.
pub struct OllamaProvider {
    pub base_url: String,
}

/// The model name without an `ollama:`, `ollama/` or `ollama-` prefix.
pub open spec fn normalized_model(model: Seq<char>) -> Seq<char> {
    let m = trim_of(model);
    if has_prefix(m, "ollama:"@) {
        m.subrange(7, m.len() as int)
    } else if has_prefix(m, "ollama/"@) {
        m.subrange(7, m.len() as int)
    } else if has_prefix(m, "ollama-"@) {
        m.subrange(7, m.len() as int)
    } else {
        m
    }
}

/// The text segments of a content array, joined.
pub open spec fn joined_texts(segs: Seq<JsonV>) -> Seq<char>
    decreases segs.len(),
{
    if segs.len() == 0 {
        Seq::empty()
    } else {
        joined_texts(segs.drop_last()) + match segs.last().str_field("text"@) {
            Some(t) => t,
            None => Seq::empty(),
        }
    }
}

/// The action of a message: its first tool call where that has a name, else
/// its text content, else the joined text of its content segments where that
/// is not empty.
pub open spec fn message_action(message: JsonV) -> Option<ActionV> {
    either(
        match message.get("tool_calls"@) {
            Some(JsonV::Array(tcs)) => if tcs.len() > 0 {
                let f = tcs[0].key("function"@);
                named_call(f.str_field("name"@), decode_args(f.get("arguments"@)), tcs[0].str_field("id"@))
            } else {
                None
            },
            _ => None,
        },
        either(
            text_action(message.str_field("content"@)),
            match message.get("content"@) {
                Some(JsonV::Array(segs)) => if joined_texts(segs).len() > 0 {
                    Some(ActionV::Text { content: joined_texts(segs) })
                } else {
                    None
                },
                _ => None,
            },
        ),
    )
}

/// The action of an `/api/chat` response: that of its `message`, else its
/// top-level `response` text.
pub open spec fn ollama_parse(v: JsonV) -> Result<ActionV, ResponseFormatError> {
    match either(
        match v.get("message"@) {
            Some(m) => message_action(m),
            None => None,
        },
        text_action(v.str_field("response"@)),
    ) {
        Some(a) => Ok(a),
        None => Err(ResponseFormatError::NoAction),
    }
}

fn joined_text(segs: &Vec<Json>) -> (r: String)
    ensures
        r@ == joined_texts(items_view(segs@)),
{
    proof {
        crate::json::lemma_items_view(segs@);
    }
    let ghost iv = items_view(segs@);
    let mut out = String::new();
    let mut i: usize = 0;
    while i < segs.len()
        invariant
            iv == items_view(segs@),
            iv.len() == segs@.len(),
            forall|k: int| 0 <= k < segs@.len() ==> #[trigger] iv[k] == json_view(segs@[k]),
            i <= segs@.len(),
            out@ == joined_texts(iv.subrange(0, i as int)),
        decreases segs@.len() - i,
    {
        assert(iv.subrange(0, i as int + 1).drop_last() =~= iv.subrange(0, i as int));
        match segs[i].str_field("text") {
            Some(t) => out.append(t.as_str()),
            None => {
                assert(out@ =~= out@ + Seq::<char>::empty());
            },
        }
        i = i + 1;
    }
    assert(iv.subrange(0, segs@.len() as int) =~= iv);
    out
}

fn message_part(message: &Json) -> (r: Option<ModelAction>)
    ensures
        opt_action_view(r) == message_action(message@),
{
    match message.get("tool_calls") {
        Some(Json::Array(tcs)) => {
            proof {
                crate::json::lemma_items_view(tcs@);
            }
            if tcs.len() > 0 {
                let tc = &tcs[0];
                let f = tc.get("function");
                let c = super::openai::named_call_of(
                    crate::json::str_in(get_in(f, "name")),
                    get_in(f, "arguments"),
                    tc.str_field("id"),
                );
                if c.is_some() {
                    return c;
                }
            }
        },
        _ => {},
    }
    let t = super::openai::text_of(message.str_field("content"));
    if t.is_some() {
        return t;
    }
    match message.get("content") {
        Some(Json::Array(segs)) => {
            let combined = joined_text(segs);
            if combined.as_str().unicode_len() > 0 {
                Some(ModelAction::Text { content: combined })
            } else {
                None
            }
        },
        _ => None,
    }
}

impl OllamaProvider {
    /// The adapter for a server on this machine.
    pub fn new() -> (r: OllamaProvider)
        ensures
            r.base_url@ == "http://localhost:11434"@,
    {
        OllamaProvider { base_url: String::from_str("http://localhost:11434") }
    }

    pub fn name(&self) -> (r: &'static str)
        ensures
            r@ == "ollama"@,
    {
        "ollama"
    }

    pub fn api_key_env(&self) -> (r: &'static str)
        ensures
            r@ == "OLLAMA_API_KEY"@,
    {
        "OLLAMA_API_KEY"
    }

    pub fn requires_api_key(&self) -> (r: bool)
        ensures
            !r,
    {
        false
    }

    pub fn normalized_model_name(agent: &Agent) -> (r: String)
        ensures
            r@ == normalized_model(agent.model@),
    {
        let m = crate::text::trim(agent.model.as_str());
        let stripped = match crate::text::strip_prefix(m, "ollama:") {
            Some(rest) => rest,
            None => match crate::text::strip_prefix(m, "ollama/") {
                Some(rest) => rest,
                None => match crate::text::strip_prefix(m, "ollama-") {
                    Some(rest) => rest,
                    None => m,
                },
            },
        };
        proof {
            reveal_strlit("ollama:");
            reveal_strlit("ollama/");
            reveal_strlit("ollama-");
        }
        String::from_str(stripped)
    }

    /// `<base>/api/chat`, with the base's trailing slashes removed.
    pub fn endpoint_url(&self) -> (r: String)
        ensures
            r@ == trim_end_char(self.base_url@, '/') + "/api/chat"@,
    {
        crate::text::trim_end_slashes(self.base_url.as_str()).concat("/api/chat")
    }

    pub open spec fn spec_endpoint(&self) -> Seq<char> {
        trim_end_char(self.base_url@, '/') + "/api/chat"@
    }

    pub fn endpoint(&self, agent: &Agent) -> (r: String)
        ensures
            r@ == self.spec_endpoint(),
    {
        self.endpoint_url()
    }

    /// A system message and a user message.
    pub fn build_history(&self, agent: &Agent, user_prompt: &str) -> (r: Vec<Json>)
        ensures
            items_view(r@) == seq![
                JsonV::Object(seq![("role"@, JsonV::Str("system"@)), ("content"@, JsonV::Str(agent.system_prompt@))]),
                JsonV::Object(seq![("role"@, JsonV::Str("user"@)), ("content"@, JsonV::Str(user_prompt@))]),
            ],
    {
        let mut h: Vec<Json> = Vec::new();
        assert(items_view(h@) =~= Seq::empty());
        crate::json::push_doc(&mut h, super::openai::role_message("system", agent.system_prompt.as_str()));
        crate::json::push_doc(&mut h, super::openai::role_message("user", user_prompt));
        h
    }

    /// Appends the assistant's tool call and the `tool` message with its
    /// output, correlated by `call_id` (or `tool_call_1`).
    pub fn append_tool_result(
        &self,
        agent: &Agent,
        history: &mut Vec<Json>,
        tool_name: &str,
        args: &Json,
        tool_response: &str,
        call_id: Option<&str>,
    )
        ensures
            items_view(final(history)@) == items_view(old(history)@).push(
                chat_call_message(call_id_or_default(opt_str(call_id)), tool_name@, args@),
            ).push(chat_tool_message(call_id_or_default(opt_str(call_id)), tool_name@, tool_response@)),
    {
        let id: &str = match call_id {
            Some(c) => c,
            None => "tool_call_1",
        };
        let args_string = super::arguments_text(args);
        let ghost at = args_string@;
        let mut func = Json::empty_object();
        func.push_member("name", Json::str(tool_name));
        func.push_member("arguments", Json::Str(args_string));
        let ghost fv = func@;
        assert(fv->Object_0 =~= seq![("name"@, JsonV::Str(tool_name@)), ("arguments"@, JsonV::Str(at))]);
        let mut tc = Json::empty_object();
        tc.push_member("id", Json::str(id));
        tc.push_member("type", Json::str("function"));
        tc.push_member("function", func);
        let ghost tv = tc@;
        assert(tv->Object_0 =~= seq![("id"@, JsonV::Str(id@)), ("type"@, JsonV::Str("function"@)), ("function"@, fv)]);
        let mut msg = Json::empty_object();
        msg.push_member("role", Json::str("assistant"));
        msg.push_member("tool_calls", crate::json::array1(tc));
        assert(msg@->Object_0 =~= chat_call_message(id@, tool_name@, args@)->Object_0);
        let mut tool = Json::empty_object();
        tool.push_member("role", Json::str("tool"));
        tool.push_member("tool_call_id", Json::str(id));
        tool.push_member("name", Json::str(tool_name));
        tool.push_member("content", Json::str(tool_response));
        assert(tool@->Object_0 =~= chat_tool_message(id@, tool_name@, tool_response@)->Object_0);
        crate::json::push_doc(history, msg);
        crate::json::push_doc(history, tool);
    }

    /// The agent's tools in the function-calling schema.
    pub open spec fn spec_tools_payload(&self, agent: &Agent) -> JsonV {
        JsonV::Array(Seq::new(agent.tools@.len(), |k: int| chat_tool(agent.tools@[k])))
    }

    pub fn tools_payload(&self, agent: &Agent) -> (r: Json)
        ensures
            r@ == self.spec_tools_payload(agent),
    {
        let mut out: Vec<Json> = Vec::new();
        let mut i: usize = 0;
        while i < agent.tools.len()
            invariant
                i <= agent.tools@.len(),
                out@.len() == i,
                forall|k: int| 0 <= k < i ==> #[trigger] json_view(out@[k]) == chat_tool(agent.tools@[k]),
            decreases agent.tools@.len() - i,
        {
            let t = &agent.tools[i];
            let mut o = Json::empty_object();
            o.push_member("type", Json::str("function"));
            o.push_member("function", super::declaration_json(t));
            assert(o@->Object_0 =~= chat_tool(*t)->Object_0);
            out.push(o);
            i = i + 1;
        }
        proof {
            crate::json::lemma_items_view(out@);
            assert(items_view(out@) =~= Seq::new(agent.tools@.len(), |k: int| chat_tool(agent.tools@[k])));
        }
        Json::Array(out)
    }

    /// `model` (normalized), `messages`, `stream: false`, then `tools` where
    /// there are any.
    pub open spec fn spec_request_body(&self, agent: &Agent, history: Seq<JsonV>, tools: JsonV) -> JsonV {
        JsonV::Object(
                if non_empty_array(tools) {
                    seq![
                        ("model"@, JsonV::Str(normalized_model(agent.model@))),
                        ("messages"@, JsonV::Array(history)),
                        ("stream"@, JsonV::Bool(false)),
                        ("tools"@, tools),
                    ]
                } else {
                    seq![
                        ("model"@, JsonV::Str(normalized_model(agent.model@))),
                        ("messages"@, JsonV::Array(history)),
                        ("stream"@, JsonV::Bool(false)),
                    ]
                },
            )
    }

    pub fn request_body(&self, agent: &Agent, history: &[Json], tools: &Json) -> (r: Json)
        ensures
            r@ == self.spec_request_body(agent, items_view(history@), tools@),
    {
        let mut body = Json::empty_object();
        body.push_member("model", Json::Str(Self::normalized_model_name(agent)));
        body.push_member("messages", crate::json::array_of(crate::json::copy_docs(history)));
        body.push_member("stream", Json::Bool(false));
        let non_empty = match tools.as_array() {
            Some(a) => {
                proof {
                    crate::json::lemma_items_view(a@);
                }
                a.len() > 0
            },
            None => false,
        };
        assert(non_empty == non_empty_array(tools@));
        if non_empty {
            body.push_member("tools", tools.copy());
            assert(body@->Object_0 =~= seq![
                ("model"@, JsonV::Str(normalized_model(agent.model@))),
                ("messages"@, JsonV::Array(items_view(history@))),
                ("stream"@, JsonV::Bool(false)),
                ("tools"@, tools@),
            ]);
        } else {
            assert(body@->Object_0 =~= seq![
                ("model"@, JsonV::Str(normalized_model(agent.model@))),
                ("messages"@, JsonV::Array(items_view(history@))),
                ("stream"@, JsonV::Bool(false)),
            ]);
        }
        body
    }

    /// Reads `message.tool_calls`, then `message.content`, then the
    /// top-level `response` text.
    pub fn parse_response(&self, response_json: &Json) -> (r: Result<ModelAction, ResponseFormatError>)
        ensures
            parsed_view(r) == ollama_parse(response_json@),
    {
        let from_message = match response_json.get("message") {
            Some(m) => message_part(m),
            None => None,
        };
        match from_message {
            Some(a) => Ok(a),
            None => match super::openai::text_of(response_json.str_field("response")) {
                Some(a) => Ok(a),
                None => Err(ResponseFormatError::NoAction),
            },
        }
    }

    /// Only the JSON content type: Ollama takes no key.
    pub fn headers(&self, api_key: &str) -> (r: Vec<(String, String)>)
        ensures
            r@.len() == 1,
            r@[0].0@ == "Content-Type"@,
            r@[0].1@ == "application/json"@,
    {
        let mut h: Vec<(String, String)> = Vec::new();
        h.push((String::from_str("Content-Type"), String::from_str("application/json")));
        h
    }
}

} // verus!
