//! OpenAI's two request styles: the Responses API and Chat Completions.
use vstd::prelude::*;

use super::{args_text, decl_view, decode_args, parsed_view, str_opt_view, ActionV, ModelAction, ResponseFormatError};
use crate::agent::{Agent, FunctionDeclaration};
use crate::json::{get_in, items_view, json_view, opt_view, or_null, Json, JsonV};
use crate::text::{has_prefix, lower_of, sorted_texts, texts_view, trim_end_char, trim_of};
use crate::wire::parsed_json;

verus! {

/// Which OpenAI endpoint and body shape a request uses.
#[derive(Clone, Copy, Debug, PartialEq, Eq, Structural)]
pub enum RequestStyle {
    ChatCompletions,
    Responses,
}

/// The OpenAI adapter, with the settings that the configuration resolved.
pub struct OpenAIProvider {
    /// An explicit request style (`responses`, `chat` or an alias).
    pub request_style: Option<String>,
    /// The base URL that the default endpoints are joined to.
    pub base_url: String,
    /// An explicit Responses endpoint, used as it is.
    pub responses_endpoint: Option<String>,
    /// An explicit Chat Completions endpoint, used as it is.
    pub chat_endpoint: Option<String>,
    /// A `response_format` to send: a JSON object text, or a format type name.
    pub response_format: Option<String>,
}

/// The style that an override names, if it names one.
pub open spec fn style_override(lower: Seq<char>) -> Option<RequestStyle> {
    if lower == "responses"@ || lower == "responses_api"@ || lower == "responses-api"@ {
        Some(RequestStyle::Responses)
    } else if lower == "chat"@ || lower == "chat_completions"@ || lower == "chat-completions"@ {
        Some(RequestStyle::ChatCompletions)
    } else {
        None
    }
}

/// The style that a lowercase model name points to.
pub open spec fn inferred_style(lower_model: Seq<char>) -> RequestStyle {
    if has_prefix(lower_model, "gpt-5"@) || has_prefix(lower_model, "gpt5"@) || has_prefix(
        lower_model,
        "gpt-4.1"@,
    ) || has_prefix(lower_model, "gpt4.1"@) || has_prefix(lower_model, "o1"@) || has_prefix(
        lower_model,
        "o3"@,
    ) || has_prefix(lower_model, "o4"@) || has_prefix(lower_model, "omni"@) {
        RequestStyle::Responses
    } else {
        RequestStyle::ChatCompletions
    }
}

/// The style for a model: the override where it names one, else the model's.
pub open spec fn style_for(request_style: Option<Seq<char>>, model: Seq<char>) -> RequestStyle {
    match request_style {
        Some(raw) => match style_override(lower_of(raw)) {
            Some(s) => s,
            None => inferred_style(lower_of(model)),
        },
        None => inferred_style(lower_of(model)),
    }
}

/// The correlation id used where the backend gave none.
pub open spec fn call_id_or_default(call_id: Option<Seq<char>>) -> Seq<char> {
    match call_id {
        Some(id) => id,
        None => "tool_call_1"@,
    }
}

pub open spec fn opt_str(o: Option<&str>) -> Option<Seq<char>> {
    match o {
        Some(s) => Some(s@),
        None => None,
    }
}

/// The Responses-style `function_call` input item.
pub open spec fn responses_call_item(id: Seq<char>, tool: Seq<char>, args: JsonV) -> JsonV {
    JsonV::Object(
        seq![
            ("type"@, JsonV::Str("function_call"@)),
            ("call_id"@, JsonV::Str(id)),
            ("name"@, JsonV::Str(tool)),
            ("arguments"@, JsonV::Str(args_text(args))),
        ],
    )
}

/// The Responses-style `function_call_output` input item.
pub open spec fn responses_output_item(id: Seq<char>, output: Seq<char>) -> JsonV {
    JsonV::Object(
        seq![
            ("type"@, JsonV::Str("function_call_output"@)),
            ("call_id"@, JsonV::Str(id)),
            ("output"@, JsonV::Str(output)),
        ],
    )
}

/// The Chat-style assistant message that asks for one tool call.
pub open spec fn chat_call_message(id: Seq<char>, tool: Seq<char>, args: JsonV) -> JsonV {
    JsonV::Object(
        seq![
            ("role"@, JsonV::Str("assistant"@)),
            ("tool_calls"@, JsonV::Array(seq![
                JsonV::Object(seq![
                    ("id"@, JsonV::Str(id)),
                    ("type"@, JsonV::Str("function"@)),
                    ("function"@, JsonV::Object(seq![
                        ("name"@, JsonV::Str(tool)),
                        ("arguments"@, JsonV::Str(args_text(args))),
                    ])),
                ]),
            ])),
        ],
    )
}

/// The Chat-style `tool` message with a tool's output.
pub open spec fn chat_tool_message(id: Seq<char>, tool: Seq<char>, output: Seq<char>) -> JsonV {
    JsonV::Object(
        seq![
            ("role"@, JsonV::Str("tool"@)),
            ("tool_call_id"@, JsonV::Str(id)),
            ("name"@, JsonV::Str(tool)),
            ("content"@, JsonV::Str(output)),
        ],
    )
}

/// An object of one member.
pub(crate) fn member(key: &str, value: Json) -> (r: Json)
    ensures
        r@ == JsonV::Object(seq![(key@, value@)]),
{
    let ghost v = value@;
    let mut o = Json::empty_object();
    o.push_member(key, value);
    assert(o@->Object_0 =~= seq![(key@, v)]);
    o
}

/// A message `{"role": role, "content": content}`.
pub(crate) fn role_message(role: &str, content: &str) -> (r: Json)
    ensures
        r@ == JsonV::Object(seq![("role"@, JsonV::Str(role@)), ("content"@, JsonV::Str(content@))]),
{
    let mut o = Json::empty_object();
    o.push_member("role", Json::str(role));
    o.push_member("content", Json::str(content));
    assert(o@->Object_0 =~= seq![("role"@, JsonV::Str(role@)), ("content"@, JsonV::Str(content@))]);
    o
}

/// The strings among the elements of an array, in order.
pub open spec fn strings_in(items: Seq<JsonV>) -> Seq<Seq<char>>
    decreases items.len(),
{
    if items.len() == 0 {
        Seq::empty()
    } else {
        let r = strings_in(items.drop_last());
        match items.last() {
            JsonV::Str(s) => r.push(s),
            _ => r,
        }
    }
}

/// `req` followed by each key of `keys` that it does not hold yet, in order.
pub open spec fn fill_required(req: Seq<Seq<char>>, keys: Seq<Seq<char>>) -> Seq<Seq<char>>
    decreases keys.len(),
{
    if keys.len() == 0 {
        req
    } else {
        let r = fill_required(req, keys.drop_last());
        if r.contains(keys.last()) {
            r
        } else {
            r.push(keys.last())
        }
    }
}

/// The member names of an object, in order.
pub open spec fn member_keys(es: Seq<(Seq<char>, JsonV)>) -> Seq<Seq<char>> {
    Seq::new(es.len(), |i: int| es[i].0)
}

/// An array of strings.
pub open spec fn str_array(ss: Seq<Seq<char>>) -> JsonV {
    JsonV::Array(Seq::new(ss.len(), |i: int| JsonV::Str(ss[i])))
}


/// A parameter schema as strict tool calling wants it: an object schema gets
/// `additionalProperties: false` (replacing any value it had), and
/// `required` lists every declared property: the listed ones first, then
/// the others in ascending order. Any other schema is kept.
pub open spec fn strict_schema(p: JsonV) -> JsonV {
    match p {
        JsonV::Object(es) => if p.str_field("type"@) == Some("object"@) {
            let es1 = crate::json::obj_set(es, "additionalProperties"@, JsonV::Bool(false));
            let obj = JsonV::Object(es1);
            match obj.get("properties"@) {
                Some(JsonV::Object(props)) => {
                    let req0 = match obj.get("required"@) {
                        Some(JsonV::Array(a)) => strings_in(a),
                        _ => Seq::empty(),
                    };
                    JsonV::Object(
                        crate::json::obj_set(
                            es1,
                            "required"@,
                            str_array(fill_required(req0, sorted_texts(member_keys(props)))),
                        ),
                    )
                },
                _ => obj,
            }
        } else {
            p
        },
        _ => p,
    }
}

fn strings_of(a: Option<&Json>) -> (r: Vec<String>)
    ensures
        texts_view(r@) == match or_null(opt_view(a)) {
            JsonV::Array(items) => strings_in(items),
            _ => Seq::empty(),
        },
{
    let mut out: Vec<String> = Vec::new();
    match a {
        Some(Json::Array(items)) => {
            proof {
                crate::json::lemma_items_view(items@);
            }
            let ghost iv = items_view(items@);
            let mut i: usize = 0;
            while i < items.len()
                invariant
                    iv == items_view(items@),
                    iv.len() == items@.len(),
                    forall|k: int| 0 <= k < items@.len() ==> #[trigger] iv[k] == json_view(items@[k]),
                    i <= items@.len(),
                    texts_view(out@) == strings_in(iv.subrange(0, i as int)),
                decreases items@.len() - i,
            {
                assert(iv.subrange(0, i as int + 1).drop_last() =~= iv.subrange(0, i as int));
                match &items[i] {
                    Json::Str(s) => {
                        let ghost before = out@;
                        out.push(s.clone());
                        assert(texts_view(out@) =~= texts_view(before).push(s@));
                    },
                    _ => {},
                }
                i = i + 1;
            }
            assert(iv.subrange(0, items@.len() as int) =~= iv);
        },
        _ => {
            assert(texts_view(out@) =~= Seq::empty());
        },
    }
    out
}

fn contains_str(v: &Vec<String>, k: &str) -> (r: bool)
    ensures
        r == texts_view(v@).contains(k@),
{
    let mut i: usize = 0;
    while i < v.len()
        invariant
            i <= v@.len(),
            forall|j: int| 0 <= j < i ==> v@[j]@ != k@,
        decreases v@.len() - i,
    {
        if crate::json::str_eq(v[i].as_str(), k) {
            assert(texts_view(v@)[i as int] == k@);
            return true;
        }
        i = i + 1;
    }
    assert forall|j: int| 0 <= j < texts_view(v@).len() implies texts_view(v@)[j] != k@ by {}
    false
}

/// The member names of an object, in order.
fn member_names(props: &Vec<(String, Json)>) -> (r: Vec<String>)
    ensures
        texts_view(r@) == member_keys(crate::json::entries_view(props@)),
{
    proof {
        crate::json::lemma_entries_view(props@);
    }
    let mut out: Vec<String> = Vec::new();
    let mut i: usize = 0;
    while i < props.len()
        invariant
            i <= props@.len(),
            out@.len() == i,
            forall|k: int| 0 <= k < i ==> #[trigger] out@[k]@ == props@[k].0@,
        decreases props@.len() - i,
    {
        out.push(props[i].0.clone());
        i = i + 1;
    }
    proof {
        crate::json::lemma_entries_view(props@);
        assert(texts_view(out@) =~= member_keys(crate::json::entries_view(props@)));
    }
    out
}

/// Adds to `required` each of `keys` that it does not hold yet.
fn fill_required_names(required: &mut Vec<String>, keys: &Vec<String>)
    ensures
        texts_view(final(required)@) == fill_required(texts_view(old(required)@), texts_view(keys@)),
{
    let ghost kv = texts_view(keys@);
    let ghost req0 = texts_view(required@);
    let mut i: usize = 0;
    while i < keys.len()
        invariant
            kv == texts_view(keys@),
            i <= keys@.len(),
            texts_view(required@) == fill_required(req0, kv.subrange(0, i as int)),
        decreases keys@.len() - i,
    {
        assert(kv.subrange(0, i as int + 1).drop_last() =~= kv.subrange(0, i as int));
        if !contains_str(required, keys[i].as_str()) {
            let ghost before = required@;
            required.push(keys[i].clone());
            assert(texts_view(required@) =~= texts_view(before).push(keys@[i as int]@));
        }
        i = i + 1;
    }
    assert(kv.subrange(0, keys@.len() as int) =~= kv);
}

fn string_array(ss: Vec<String>) -> (r: Json)
    ensures
        r@ == str_array(texts_view(ss@)),
{
    let mut out: Vec<Json> = Vec::new();
    let mut i: usize = 0;
    while i < ss.len()
        invariant
            i <= ss@.len(),
            out@.len() == i,
            forall|k: int| 0 <= k < i ==> #[trigger] json_view(out@[k]) == JsonV::Str(ss@[k]@),
        decreases ss@.len() - i,
    {
        out.push(Json::Str(ss[i].clone()));
        i = i + 1;
    }
    proof {
        crate::json::lemma_items_view(out@);
        assert(items_view(out@) =~= str_array(texts_view(ss@))->Array_0);
    }
    Json::Array(out)
}

/// Makes a parameter schema strict: see [`strict_schema`].
pub fn with_additional_properties_false(params: Json) -> (r: Json)
    ensures
        r@ == strict_schema(params@),
{
    let mut p = params;
    let is_object_type = match p.str_field("type") {
        Some(t) => crate::json::str_eq(t.as_str(), "object"),
        None => false,
    };
    if !is_object_type {
        return p;
    }
    assert(p@ is Object);
    p.set("additionalProperties", Json::Bool(false));
    let required = match p.get("properties") {
        Some(Json::Object(props)) => {
            let mut required = strings_of(p.get("required"));
            let names = crate::text::sort_texts(&member_names(props));
            fill_required_names(&mut required, &names);
            Some(required)
        },
        _ => None,
    };
    match required {
        Some(req) => {
            p.set("required", string_array(req));
        },
        None => {},
    }
    p
}

/// A tool as the Responses API declares it.
pub open spec fn responses_tool(d: FunctionDeclaration) -> JsonV {
    JsonV::Object(
        seq![
            ("type"@, JsonV::Str("function"@)),
            ("name"@, JsonV::Str(d.name@)),
            ("description"@, decl_view(d)->Object_0[1].1),
            ("parameters"@, strict_schema(d.parameters@)),
            ("strict"@, JsonV::Bool(true)),
        ],
    )
}

/// A tool as Chat Completions declares it.
pub open spec fn chat_tool(d: FunctionDeclaration) -> JsonV {
    JsonV::Object(seq![("type"@, JsonV::Str("function"@)), ("function"@, decl_view(d))])
}

/// The `response_format` that an override text asks for: nothing for a blank
/// text, the parsed object for a text that starts with `{` (nothing where it
/// is not JSON), else `{"type": text}`.
pub open spec fn response_format_of(raw: Seq<char>) -> Option<JsonV> {
    let t = trim_of(raw);
    if t.len() == 0 {
        None
    } else if has_prefix(t, "{"@) {
        parsed_json(t)
    } else {
        Some(JsonV::Object(seq![("type"@, JsonV::Str(t))]))
    }
}

/// `es` with the member `key` added where `o` holds a value.
pub open spec fn opt_member(es: Seq<(Seq<char>, JsonV)>, key: Seq<char>, o: Option<JsonV>) -> Seq<(Seq<char>, JsonV)> {
    match o {
        Some(v) => es.push((key, v)),
        None => es,
    }
}

/// A non-empty array.
pub open spec fn non_empty_array(v: JsonV) -> bool {
    match v {
        JsonV::Array(items) => items.len() > 0,
        _ => false,
    }
}

/// A tool call, where the name is present and not empty.
pub open spec fn named_call(name: Option<Seq<char>>, args: JsonV, call_id: Option<Seq<char>>) -> Option<ActionV> {
    match name {
        Some(n) => if n.len() > 0 {
            Some(ActionV::ToolCall { name: n, args, call_id })
        } else {
            None
        },
        None => None,
    }
}

pub open spec fn first_of(a: Option<Seq<char>>, b: Option<Seq<char>>) -> Option<Seq<char>> {
    match a {
        Some(x) => Some(x),
        None => b,
    }
}

pub open spec fn text_action(t: Option<Seq<char>>) -> Option<ActionV> {
    match t {
        Some(x) => Some(ActionV::Text { content: x }),
        None => None,
    }
}

pub open spec fn either(a: Option<ActionV>, b: Option<ActionV>) -> Option<ActionV> {
    match a {
        Some(x) => Some(x),
        None => b,
    }
}

/// The action of an element of a Responses `message` content: a `tool_call`
/// with a name, or an `output_text` with a text.
pub open spec fn content_item_action(item: JsonV) -> Option<ActionV> {
    let t = item.str_field("type"@);
    either(
        if t == Some("tool_call"@) {
            named_call(item.str_field("name"@), decode_args(item.get("arguments"@)), item.str_field("id"@))
        } else {
            None
        },
        if t == Some("output_text"@) {
            text_action(item.str_field("text"@))
        } else {
            None
        },
    )
}

/// The first action among the content elements from position `i` on.
pub open spec fn first_content_action(items: Seq<JsonV>, i: int) -> Option<ActionV>
    decreases items.len() - i,
{
    if i < 0 || i >= items.len() {
        None
    } else {
        either(content_item_action(items[i]), first_content_action(items, i + 1))
    }
}

/// The action of a Responses output item: a named `function_call`, or the
/// first action of a `message`'s content.
pub open spec fn output_item_action(out: JsonV) -> Option<ActionV> {
    let t = out.str_field("type"@);
    either(
        if t == Some("function_call"@) {
            named_call(
                out.str_field("name"@),
                decode_args(out.get("arguments"@)),
                first_of(out.str_field("call_id"@), out.str_field("id"@)),
            )
        } else {
            None
        },
        if t == Some("message"@) {
            match out.get("content"@) {
                Some(JsonV::Array(c)) => first_content_action(c, 0),
                _ => None,
            }
        } else {
            None
        },
    )
}

/// The first action among the output items from position `i` on.
pub open spec fn first_output_action(items: Seq<JsonV>, i: int) -> Option<ActionV>
    decreases items.len() - i,
{
    if i < 0 || i >= items.len() {
        None
    } else {
        either(output_item_action(items[i]), first_output_action(items, i + 1))
    }
}

/// The action of a Responses-style response: the first action among the
/// `output` items, else the top-level `output_text`.
pub open spec fn responses_action(v: JsonV) -> Option<ActionV> {
    match v.get("output"@) {
        Some(JsonV::Array(items)) => either(first_output_action(items, 0), text_action(v.str_field("output_text"@))),
        _ => None,
    }
}

/// The action of a Chat-style response: the first tool call of the first
/// choice's message where it has a name, else the message's text content.
pub open spec fn chat_action(v: JsonV) -> Option<ActionV> {
    match v.get("choices"@) {
        Some(JsonV::Array(cs)) => if cs.len() > 0 {
            let message = cs[0].key("message"@);
            either(
                match message.get("tool_calls"@) {
                    Some(JsonV::Array(tcs)) => if tcs.len() > 0 {
                        let f = tcs[0].key("function"@);
                        named_call(f.str_field("name"@), decode_args(f.get("arguments"@)), tcs[0].str_field("id"@))
                    } else {
                        None
                    },
                    _ => None,
                },
                text_action(message.str_field("content"@)),
            )
        } else {
            None
        },
        _ => None,
    }
}

/// The action that an OpenAI response asks for, read in the Responses shape
/// first and in the Chat shape after.
pub open spec fn openai_parse(v: JsonV) -> Result<ActionV, ResponseFormatError> {
    match either(responses_action(v), chat_action(v)) {
        Some(a) => Ok(a),
        None => Err(ResponseFormatError::NoAction),
    }
}

pub open spec fn opt_action_view(o: Option<ModelAction>) -> Option<ActionV> {
    match o {
        Some(a) => Some(a@),
        None => None,
    }
}

pub(crate) fn named_call_of(name: Option<&String>, args: Option<&Json>, call_id: Option<&String>) -> (r: Option<ModelAction>)
    ensures
        opt_action_view(r) == named_call(
            crate::json::opt_str_view(name),
            decode_args(opt_view(args)),
            crate::json::opt_str_view(call_id),
        ),
{
    match name {
        Some(n) => {
            if n.as_str().unicode_len() > 0 {
                let id = match call_id {
                    Some(c) => Some(c.clone()),
                    None => None,
                };
                Some(ModelAction::ToolCall { name: n.clone(), args: super::decode_arguments(args), call_id: id })
            } else {
                None
            }
        },
        None => None,
    }
}

pub(crate) fn text_of(t: Option<&String>) -> (r: Option<ModelAction>)
    ensures
        opt_action_view(r) == text_action(crate::json::opt_str_view(t)),
{
    match t {
        Some(x) => Some(ModelAction::Text { content: x.clone() }),
        None => None,
    }
}

fn is_type(item: &Json, t: &str) -> (r: bool)
    ensures
        r == (item@.str_field("type"@) == Some(t@)),
{
    match item.str_field("type") {
        Some(x) => crate::json::str_eq(x.as_str(), t),
        None => false,
    }
}

fn content_item(item: &Json) -> (r: Option<ModelAction>)
    ensures
        opt_action_view(r) == content_item_action(item@),
{
    if is_type(item, "tool_call") {
        let c = named_call_of(item.str_field("name"), item.get("arguments"), item.str_field("id"));
        if c.is_some() {
            return c;
        }
    }
    if is_type(item, "output_text") {
        text_of(item.str_field("text"))
    } else {
        None
    }
}

fn first_content(items: &Vec<Json>) -> (r: Option<ModelAction>)
    ensures
        opt_action_view(r) == first_content_action(items_view(items@), 0),
{
    proof {
        crate::json::lemma_items_view(items@);
    }
    let ghost iv = items_view(items@);
    let mut i: usize = 0;
    while i < items.len()
        invariant
            iv == items_view(items@),
            iv.len() == items@.len(),
            forall|k: int| 0 <= k < items@.len() ==> #[trigger] iv[k] == json_view(items@[k]),
            i <= items@.len(),
            first_content_action(iv, 0) == first_content_action(iv, i as int),
        decreases items@.len() - i,
    {
        let c = content_item(&items[i]);
        if c.is_some() {
            return c;
        }
        i = i + 1;
    }
    None
}

fn output_item(out: &Json) -> (r: Option<ModelAction>)
    ensures
        opt_action_view(r) == output_item_action(out@),
{
    if is_type(out, "function_call") {
        let id = match out.str_field("call_id") {
            Some(c) => Some(c),
            None => out.str_field("id"),
        };
        let c = named_call_of(out.str_field("name"), out.get("arguments"), id);
        if c.is_some() {
            return c;
        }
    }
    if is_type(out, "message") {
        match out.get("content") {
            Some(Json::Array(content)) => first_content(content),
            _ => None,
        }
    } else {
        None
    }
}

fn first_output(items: &Vec<Json>) -> (r: Option<ModelAction>)
    ensures
        opt_action_view(r) == first_output_action(items_view(items@), 0),
{
    proof {
        crate::json::lemma_items_view(items@);
    }
    let ghost iv = items_view(items@);
    let mut i: usize = 0;
    while i < items.len()
        invariant
            iv == items_view(items@),
            iv.len() == items@.len(),
            forall|k: int| 0 <= k < items@.len() ==> #[trigger] iv[k] == json_view(items@[k]),
            i <= items@.len(),
            first_output_action(iv, 0) == first_output_action(iv, i as int),
        decreases items@.len() - i,
    {
        let c = output_item(&items[i]);
        if c.is_some() {
            return c;
        }
        i = i + 1;
    }
    None
}

fn responses_part(v: &Json) -> (r: Option<ModelAction>)
    ensures
        opt_action_view(r) == responses_action(v@),
{
    match v.get("output") {
        Some(Json::Array(items)) => {
            let a = first_output(items);
            if a.is_some() {
                a
            } else {
                text_of(v.str_field("output_text"))
            }
        },
        _ => None,
    }
}

fn chat_part(v: &Json) -> (r: Option<ModelAction>)
    ensures
        opt_action_view(r) == chat_action(v@),
{
    match v.get("choices") {
        Some(Json::Array(cs)) => {
            proof {
                crate::json::lemma_items_view(cs@);
            }
            if cs.len() == 0 {
                return None;
            }
            let message = cs[0].get("message");
            match get_in(message, "tool_calls") {
                Some(Json::Array(tcs)) => {
                    proof {
                        crate::json::lemma_items_view(tcs@);
                    }
                    if tcs.len() > 0 {
                        let tc = &tcs[0];
                        let f = tc.get("function");
                        let c = named_call_of(
                            crate::json::str_in(get_in(f, "name")),
                            get_in(f, "arguments"),
                            tc.str_field("id"),
                        );
                        if c.is_some() {
                            return c;
                        }
                    }
                },
                _ => {},
            }
            text_of(crate::json::str_in(get_in(message, "content")))
        },
        _ => None,
    }
}

impl OpenAIProvider {
    /// The adapter with the public endpoints and no overrides.
    pub fn new() -> (r: OpenAIProvider)
        ensures
            r.request_style is None,
            r.response_format is None,
            r.base_url@ == "https://api.openai.com"@,
            r.responses_endpoint is None,
            r.chat_endpoint is None,
    {
        OpenAIProvider {
            request_style: None,
            base_url: String::from_str("https://api.openai.com"),
            responses_endpoint: None,
            chat_endpoint: None,
            response_format: None,
        }
    }

    pub fn name(&self) -> (r: &'static str)
        ensures
            r@ == "openai"@,
    {
        "openai"
    }

    pub fn api_key_env(&self) -> (r: &'static str)
        ensures
            r@ == "OPENAI_API_KEY"@,
    {
        "OPENAI_API_KEY"
    }

    pub fn requires_api_key(&self) -> (r: bool)
        ensures
            r,
    {
        true
    }

    /// The style that an override text names.
    pub fn request_style_override(raw: &str) -> (r: Option<RequestStyle>)
        ensures
            r == style_override(lower_of(raw@)),
    {
        let l = crate::text::lowercase(raw);
        let s = l.as_str();
        if crate::json::str_eq(s, "responses") || crate::json::str_eq(s, "responses_api")
            || crate::json::str_eq(s, "responses-api") {
            Some(RequestStyle::Responses)
        } else if crate::json::str_eq(s, "chat") || crate::json::str_eq(s, "chat_completions")
            || crate::json::str_eq(s, "chat-completions") {
            Some(RequestStyle::ChatCompletions)
        } else {
            None
        }
    }

    /// The style that a model name points to.
    pub fn inferred_request_style(model: &str) -> (r: RequestStyle)
        ensures
            r == inferred_style(lower_of(model@)),
    {
        let l = crate::text::lowercase(model);
        let m = l.as_str();
        if crate::text::starts_with(m, "gpt-5") || crate::text::starts_with(m, "gpt5")
            || crate::text::starts_with(m, "gpt-4.1") || crate::text::starts_with(m, "gpt4.1")
            || crate::text::starts_with(m, "o1") || crate::text::starts_with(m, "o3")
            || crate::text::starts_with(m, "o4") || crate::text::starts_with(m, "omni") {
            RequestStyle::Responses
        } else {
            RequestStyle::ChatCompletions
        }
    }

    pub open spec fn style_of(&self, agent: &Agent) -> RequestStyle {
        style_for(str_opt_view(self.request_style), agent.model@)
    }

    pub fn request_style(&self, agent: &Agent) -> (r: RequestStyle)
        ensures
            r == self.style_of(agent),
    {
        if let Some(raw) = &self.request_style {
            if let Some(s) = Self::request_style_override(raw.as_str()) {
                return s;
            }
        }
        Self::inferred_request_style(agent.model.as_str())
    }

    /// Responses: one `input_text` user item (the system prompt goes in
    /// `instructions`); Chat: a system message and a user message.
    pub fn build_history(&self, agent: &Agent, user_prompt: &str) -> (r: Vec<Json>)
        ensures
            self.style_of(agent) == RequestStyle::Responses ==> items_view(r@) == seq![
                JsonV::Object(seq![
                    ("role"@, JsonV::Str("user"@)),
                    ("content"@, JsonV::Array(seq![
                        JsonV::Object(seq![("type"@, JsonV::Str("input_text"@)), ("text"@, JsonV::Str(user_prompt@))]),
                    ])),
                ]),
            ],
            self.style_of(agent) == RequestStyle::ChatCompletions ==> items_view(r@) == seq![
                JsonV::Object(seq![("role"@, JsonV::Str("system"@)), ("content"@, JsonV::Str(agent.system_prompt@))]),
                JsonV::Object(seq![("role"@, JsonV::Str("user"@)), ("content"@, JsonV::Str(user_prompt@))]),
            ],
    {
        let mut h: Vec<Json> = Vec::new();
        assert(items_view(h@) =~= Seq::empty());
        match self.request_style(agent) {
            RequestStyle::Responses => {
                let mut part = Json::empty_object();
                part.push_member("type", Json::str("input_text"));
                part.push_member("text", Json::str(user_prompt));
                assert(part@->Object_0 =~= seq![("type"@, JsonV::Str("input_text"@)), ("text"@, JsonV::Str(user_prompt@))]);
                let ghost pv = part@;
                let mut m = Json::empty_object();
                m.push_member("role", Json::str("user"));
                m.push_member("content", crate::json::array1(part));
                assert(m@->Object_0 =~= seq![("role"@, JsonV::Str("user"@)), ("content"@, JsonV::Array(seq![pv]))]);
                crate::json::push_doc(&mut h, m);
            },
            RequestStyle::ChatCompletions => {
                crate::json::push_doc(&mut h, role_message("system", agent.system_prompt.as_str()));
                crate::json::push_doc(&mut h, role_message("user", user_prompt));
            },
        }
        h
    }

    /// Appends the call of `tool_name` and its output, correlated by
    /// `call_id` (or `tool_call_1` where the backend gave none).
    pub fn append_tool_result(
        &self,
        agent: &Agent,
        history: &mut Vec<Json>,
        tool_name: &str,
        args: &Json,
        tool_response: &str,
        call_id: Option<&str>,
    )
        ensures
            self.style_of(agent) == RequestStyle::Responses ==> items_view(final(history)@) == items_view(
                old(history)@,
            ).push(responses_call_item(call_id_or_default(opt_str(call_id)), tool_name@, args@)).push(
                responses_output_item(call_id_or_default(opt_str(call_id)), tool_response@),
            ),
            self.style_of(agent) == RequestStyle::ChatCompletions ==> items_view(final(history)@)
                == items_view(old(history)@).push(
                chat_call_message(call_id_or_default(opt_str(call_id)), tool_name@, args@),
            ).push(chat_tool_message(call_id_or_default(opt_str(call_id)), tool_name@, tool_response@)),
    {
        let id: &str = match call_id {
            Some(c) => c,
            None => "tool_call_1",
        };
        let args_string = super::arguments_text(args);
        let ghost at = args_string@;
        match self.request_style(agent) {
            RequestStyle::Responses => {
                let mut call = Json::empty_object();
                call.push_member("type", Json::str("function_call"));
                call.push_member("call_id", Json::str(id));
                call.push_member("name", Json::str(tool_name));
                call.push_member("arguments", Json::Str(args_string));
                assert(call@->Object_0 =~= responses_call_item(id@, tool_name@, args@)->Object_0);
                let mut out = Json::empty_object();
                out.push_member("type", Json::str("function_call_output"));
                out.push_member("call_id", Json::str(id));
                out.push_member("output", Json::str(tool_response));
                assert(out@->Object_0 =~= responses_output_item(id@, tool_response@)->Object_0);
                crate::json::push_doc(history, call);
                crate::json::push_doc(history, out);
            },
            RequestStyle::ChatCompletions => {
                let mut func = Json::empty_object();
                func.push_member("name", Json::str(tool_name));
                func.push_member("arguments", Json::Str(args_string));
                let ghost fv = func@;
                assert(fv->Object_0 =~= seq![("name"@, JsonV::Str(tool_name@)), ("arguments"@, JsonV::Str(at))]);
                let mut tc = Json::empty_object();
                tc.push_member("id", Json::str(id));
                tc.push_member("type", Json::str("function"));
                tc.push_member("function", func);
                let ghost tv = tc@;
                assert(tv->Object_0 =~= seq![("id"@, JsonV::Str(id@)), ("type"@, JsonV::Str("function"@)), ("function"@, fv)]);
                let mut msg = Json::empty_object();
                msg.push_member("role", Json::str("assistant"));
                msg.push_member("tool_calls", crate::json::array1(tc));
                assert(msg@->Object_0 =~= chat_call_message(id@, tool_name@, args@)->Object_0);
                let mut tool = Json::empty_object();
                tool.push_member("role", Json::str("tool"));
                tool.push_member("tool_call_id", Json::str(id));
                tool.push_member("name", Json::str(tool_name));
                tool.push_member("content", Json::str(tool_response));
                assert(tool@->Object_0 =~= chat_tool_message(id@, tool_name@, tool_response@)->Object_0);
                crate::json::push_doc(history, msg);
                crate::json::push_doc(history, tool);
            },
        }
    }

    pub open spec fn format_of(&self) -> Option<JsonV> {
        match self.response_format {
            Some(raw) => response_format_of(raw@),
            None => None,
        }
    }

    /// The `response_format` that an override text asks for.
    pub fn response_format_override(raw: &str) -> (r: Option<Json>)
        ensures
            opt_json_view(r) == response_format_of(raw@),
    {
        let t = crate::text::trim(raw);
        if t.unicode_len() == 0 {
            return None;
        }
        if crate::text::starts_with(t, "{") {
            crate::wire::parse_json(t)
        } else {
            let mut o = Json::empty_object();
            o.push_member("type", Json::str(t));
            assert(o@->Object_0 =~= seq![("type"@, JsonV::Str(t@))]);
            Some(o)
        }
    }

    fn format(&self) -> (r: Option<Json>)
        ensures
            opt_json_view(r) == self.format_of(),
    {
        match &self.response_format {
            Some(raw) => Self::response_format_override(raw.as_str()),
            None => None,
        }
    }

    /// The agent's tools in the selected style's schema.
    pub open spec fn spec_tools_payload(&self, agent: &Agent) -> JsonV {
        if self.style_of(agent) == RequestStyle::Responses {
            JsonV::Array(Seq::new(agent.tools@.len(), |k: int| responses_tool(agent.tools@[k])))
        } else {
            JsonV::Array(Seq::new(agent.tools@.len(), |k: int| chat_tool(agent.tools@[k])))
        }
    }

    pub fn tools_payload(&self, agent: &Agent) -> (r: Json)
        ensures
            r@ == self.spec_tools_payload(agent),
    {
        let style = self.request_style(agent);
        let mut out: Vec<Json> = Vec::new();
        let mut i: usize = 0;
        while i < agent.tools.len()
            invariant
                style == self.style_of(agent),
                i <= agent.tools@.len(),
                out@.len() == i,
                forall|k: int|
                    0 <= k < i ==> #[trigger] json_view(out@[k]) == if style == RequestStyle::Responses {
                        responses_tool(agent.tools@[k])
                    } else {
                        chat_tool(agent.tools@[k])
                    },
            decreases agent.tools@.len() - i,
        {
            let t = &agent.tools[i];
            let d = super::declaration_json(t);
            let ghost dv = d@;
            let item = match style {
                RequestStyle::Responses => {
                    let desc = match &t.description {
                        Some(s) => Json::Str(s.clone()),
                        None => Json::Null,
                    };
                    let mut o = Json::empty_object();
                    o.push_member("type", Json::str("function"));
                    o.push_member("name", Json::Str(t.name.clone()));
                    o.push_member("description", desc);
                    o.push_member("parameters", with_additional_properties_false(t.parameters.copy()));
                    o.push_member("strict", Json::Bool(true));
                    assert(o@->Object_0 =~= responses_tool(*t)->Object_0);
                    o
                },
                RequestStyle::ChatCompletions => {
                    let mut o = Json::empty_object();
                    o.push_member("type", Json::str("function"));
                    o.push_member("function", d);
                    assert(o@->Object_0 =~= chat_tool(*t)->Object_0);
                    o
                },
            };
            out.push(item);
            i = i + 1;
        }
        proof {
            crate::json::lemma_items_view(out@);
            if style == RequestStyle::Responses {
                assert(items_view(out@) =~= Seq::new(
                    agent.tools@.len(),
                    |k: int| responses_tool(agent.tools@[k]),
                ));
            } else {
                assert(items_view(out@) =~= Seq::new(agent.tools@.len(), |k: int| chat_tool(agent.tools@[k])));
            }
        }
        Json::Array(out)
    }

    /// The endpoint of the selected style: the explicit one where it is set,
    /// else the base URL without trailing slashes joined with
    /// `/v1/responses` or `/v1/chat/completions`.
    pub open spec fn spec_endpoint(&self, agent: &Agent) -> Seq<char> {
        if self.style_of(agent) == RequestStyle::Responses {
            match self.responses_endpoint {
                Some(e) => e@,
                None => trim_end_char(self.base_url@, '/') + "/v1/responses"@,
            }
        } else {
            match self.chat_endpoint {
                Some(e) => e@,
                None => trim_end_char(self.base_url@, '/') + "/v1/chat/completions"@,
            }
        }
    }

    pub fn endpoint(&self, agent: &Agent) -> (r: String)
        ensures
            r@ == self.spec_endpoint(agent),
    {
        let (explicit, path) = match self.request_style(agent) {
            RequestStyle::Responses => (&self.responses_endpoint, "/v1/responses"),
            RequestStyle::ChatCompletions => (&self.chat_endpoint, "/v1/chat/completions"),
        };
        match explicit {
            Some(e) => e.clone(),
            None => crate::text::trim_end_slashes(self.base_url.as_str()).concat(path),
        }
    }

    /// Responses: `model`, `instructions`, `input`, `tool_choice`, then
    /// `tools` where there are any; Chat: `model`, `messages`, `tools`,
    /// `tool_choice`. Both end with the `response_format` override, if any.
    /// The request body in the selected style.
    pub open spec fn spec_request_body(&self, agent: &Agent, history: Seq<JsonV>, tools: JsonV) -> JsonV {
        if self.style_of(agent) == RequestStyle::Responses {
            JsonV::Object(
                opt_member(
                    if non_empty_array(tools) {
                        seq![
                            ("model"@, JsonV::Str(agent.model@)),
                            ("instructions"@, JsonV::Str(agent.system_prompt@)),
                            ("input"@, JsonV::Array(history)),
                            ("tool_choice"@, JsonV::Str("auto"@)),
                            ("tools"@, tools),
                        ]
                    } else {
                        seq![
                            ("model"@, JsonV::Str(agent.model@)),
                            ("instructions"@, JsonV::Str(agent.system_prompt@)),
                            ("input"@, JsonV::Array(history)),
                            ("tool_choice"@, JsonV::Str("auto"@)),
                        ]
                    },
                    "response_format"@,
                    self.format_of(),
                ),
            )
        } else {
            JsonV::Object(
                opt_member(
                    seq![
                        ("model"@, JsonV::Str(agent.model@)),
                        ("messages"@, JsonV::Array(history)),
                        ("tools"@, tools),
                        ("tool_choice"@, JsonV::Str("auto"@)),
                    ],
                    "response_format"@,
                    self.format_of(),
                ),
            )
        }
    }

    pub fn request_body(&self, agent: &Agent, history: &[Json], tools: &Json) -> (r: Json)
        ensures
            r@ == self.spec_request_body(agent, items_view(history@), tools@),
    {
        let mut body = Json::empty_object();
        body.push_member("model", Json::Str(agent.model.clone()));
        match self.request_style(agent) {
            RequestStyle::Responses => {
                body.push_member("instructions", Json::Str(agent.system_prompt.clone()));
                body.push_member("input", crate::json::array_of(crate::json::copy_docs(history)));
                body.push_member("tool_choice", Json::str("auto"));
                let non_empty = match tools.as_array() {
                    Some(a) => {
                        proof {
                            crate::json::lemma_items_view(a@);
                        }
                        a.len() > 0
                    },
                    None => false,
                };
                assert(non_empty == non_empty_array(tools@));
                if non_empty {
                    body.push_member("tools", tools.copy());
                    assert(body@->Object_0 =~= seq![
                        ("model"@, JsonV::Str(agent.model@)),
                        ("instructions"@, JsonV::Str(agent.system_prompt@)),
                        ("input"@, JsonV::Array(items_view(history@))),
                        ("tool_choice"@, JsonV::Str("auto"@)),
                        ("tools"@, tools@),
                    ]);
                } else {
                    assert(body@->Object_0 =~= seq![
                        ("model"@, JsonV::Str(agent.model@)),
                        ("instructions"@, JsonV::Str(agent.system_prompt@)),
                        ("input"@, JsonV::Array(items_view(history@))),
                        ("tool_choice"@, JsonV::Str("auto"@)),
                    ]);
                }
            },
            RequestStyle::ChatCompletions => {
                body.push_member("messages", crate::json::array_of(crate::json::copy_docs(history)));
                body.push_member("tools", tools.copy());
                body.push_member("tool_choice", Json::str("auto"));
                assert(body@->Object_0 =~= seq![
                    ("model"@, JsonV::Str(agent.model@)),
                    ("messages"@, JsonV::Array(items_view(history@))),
                    ("tools"@, tools@),
                    ("tool_choice"@, JsonV::Str("auto"@)),
                ]);
            },
        }
        let ghost before = body@->Object_0;
        match self.format() {
            Some(f) => body.push_member("response_format", f),
            None => {},
        }
        assert(body@->Object_0 =~= opt_member(before, "response_format"@, self.format_of()));
        body
    }

    /// Reads a response in the Responses shape (`output` items), then in the
    /// Chat Completions shape (`choices[0].message`).
    pub fn parse_response(&self, v: &Json) -> (r: Result<ModelAction, ResponseFormatError>)
        ensures
            parsed_view(r) == openai_parse(v@),
    {
        match responses_part(v) {
            Some(a) => Ok(a),
            None => match chat_part(v) {
                Some(a) => Ok(a),
                None => Err(ResponseFormatError::NoAction),
            },
        }
    }

    /// A bearer token and the JSON content type.
    pub fn headers(&self, api_key: &str) -> (r: Vec<(String, String)>)
        ensures
            r@.len() == 2,
            r@[0].0@ == "Authorization"@,
            r@[0].1@ == "Bearer "@ + api_key@,
            r@[1].0@ == "Content-Type"@,
            r@[1].1@ == "application/json"@,
    {
        let mut h: Vec<(String, String)> = Vec::new();
        h.push((String::from_str("Authorization"), String::from_str("Bearer ").concat(api_key)));
        h.push((String::from_str("Content-Type"), String::from_str("application/json")));
        h
    }
}

pub open spec fn opt_json_view(o: Option<Json>) -> Option<JsonV> {
    match o {
        Some(j) => Some(j@),
        None => None,
    }
}

} // verus!
