//! Facts about the wire shapes: a synthetic response reads back as the action
//! it encodes, and the history entries of a tool call correlate.
use vstd::prelude::*;

use super::gemini::gemini_parse;
use super::ollama::ollama_parse;
use super::ollama::{message_action, normalized_model, OllamaProvider};
use super::openai::{chat_call_message, openai_parse, OpenAIProvider, RequestStyle};
use crate::agent::Agent;
use crate::text::{has_prefix, lower_of, trim_of};
use super::{args_text, decode_args, ActionV, ResponseFormatError};
use crate::json::{first_key, lemma_first_key_unique, JsonV};

verus! {

/// The member at position `i` is the first of its name.
pub proof fn lemma_member(es: Seq<(Seq<char>, JsonV)>, i: int)
    requires
        0 <= i < es.len(),
        forall|j: int| 0 <= j < i ==> es[j].0 != es[i].0,
    ensures
        JsonV::Object(es).get(es[i].0) == Some(es[i].1),
{
    assert(first_key(es, es[i].0, i));
    lemma_first_key_unique(es, es[i].0, i);
}

/// The member names that the shapes use.
pub proof fn lemma_names()
    ensures
        "name"@ != "args"@,
        "type"@ != "call_id"@,
        "type"@ != "name"@,
        "type"@ != "arguments"@,
        "call_id"@ != "name"@,
        "call_id"@ != "arguments"@,
        "name"@ != "arguments"@,
        "type"@ != "content"@,
        "id"@ != "type"@,
        "id"@ != "function"@,
        "type"@ != "function"@,
        "role"@ != "parts"@,
        "role"@ != "tool_calls"@,
        "role"@ != "tool_call_id"@,
        "role"@ != "content"@,
        "tool_call_id"@ != "name"@,
        "tool_call_id"@ != "content"@,
        "name"@ != "content"@,
        "type"@ != "output"@,
        "call_id"@ != "output"@,
        "name"@ != "response"@,
        "type"@ != "text"@,
        "id"@ != "arguments"@,
{
    reveal_strlit("name");
    reveal_strlit("args");
    reveal_strlit("type");
    reveal_strlit("call_id");
    reveal_strlit("arguments");
    reveal_strlit("content");
    reveal_strlit("id");
    reveal_strlit("function");
    reveal_strlit("role");
    reveal_strlit("parts");
    reveal_strlit("tool_calls");
    reveal_strlit("tool_call_id");
    reveal_strlit("output");
    reveal_strlit("response");
    reveal_strlit("text");
    assert("name"@[0] != "args"@[0]);
    assert("type"@[0] != "name"@[0]);
    assert("name"@[0] != "arguments"@[0]);
    assert("type"@[0] != "text"@[0] || "type"@[1] != "text"@[1]);
    assert("role"@[0] != "parts"@[0]);
    assert("name"@[0] != "content"@[0]);
    assert("id"@[0] != "type"@[0]);
    assert("call_id"@[0] != "output"@[0]);
}

/// A Gemini response whose first part is a function call.
pub open spec fn gemini_call_payload(name: Seq<char>, args: JsonV) -> JsonV {
    JsonV::Object(seq![("candidates"@, JsonV::Array(seq![
        JsonV::Object(seq![("content"@, JsonV::Object(seq![("parts"@, JsonV::Array(seq![
            JsonV::Object(seq![("functionCall"@, JsonV::Object(seq![("name"@, JsonV::Str(name)), ("args"@, args)]))]),
        ]))]))]),
    ]))])
}

/// A Gemini response whose first part is a text.
pub open spec fn gemini_text_payload(text: Seq<char>) -> JsonV {
    JsonV::Object(seq![("candidates"@, JsonV::Array(seq![
        JsonV::Object(seq![("content"@, JsonV::Object(seq![("parts"@, JsonV::Array(seq![
            JsonV::Object(seq![("text"@, JsonV::Str(text))]),
        ]))]))]),
    ]))])
}

/// Gemini reads a function call back as the tool call it names, with no
/// correlation id.
pub proof fn lemma_gemini_tool_call_round_trip(name: Seq<char>, args: JsonV)
    ensures
        gemini_parse(gemini_call_payload(name, args)) == Ok::<ActionV, ResponseFormatError>(
            ActionV::ToolCall { name, args, call_id: None },
        ),
{
    lemma_names();
    let fc = seq![("name"@, JsonV::Str(name)), ("args"@, args)];
    lemma_member(fc, 0);
    lemma_member(fc, 1);
    let part = seq![("functionCall"@, JsonV::Object(fc))];
    lemma_member(part, 0);
    let content = seq![("parts"@, JsonV::Array(seq![JsonV::Object(part)]))];
    lemma_member(content, 0);
    let cand = seq![("content"@, JsonV::Object(content))];
    lemma_member(cand, 0);
    let top = seq![("candidates"@, JsonV::Array(seq![JsonV::Object(cand)]))];
    lemma_member(top, 0);
}

/// Gemini reads a text part back as that text.
pub proof fn lemma_gemini_text_round_trip(text: Seq<char>)
    ensures
        gemini_parse(gemini_text_payload(text)) == Ok::<ActionV, ResponseFormatError>(
            ActionV::Text { content: text },
        ),
{
    let part = seq![("text"@, JsonV::Str(text))];
    lemma_member(part, 0);
    reveal_strlit("text");
    reveal_strlit("functionCall");
    assert(JsonV::Object(part).get("functionCall"@) is None) by {
        assert("text"@[0] != "functionCall"@[0]);
        assert(!first_key(part, "functionCall"@, 0));
    }
    let content = seq![("parts"@, JsonV::Array(seq![JsonV::Object(part)]))];
    lemma_member(content, 0);
    let cand = seq![("content"@, JsonV::Object(content))];
    lemma_member(cand, 0);
    let top = seq![("candidates"@, JsonV::Array(seq![JsonV::Object(cand)]))];
    lemma_member(top, 0);
}


pub proof fn lemma_names_openai()
    ensures
        "choices"@ != "output"@,
        "content"@ != "tool_calls"@,
        "message"@ != "function_call"@,
        "output_text"@ != "tool_call"@,
        "id"@ != "function"@,
        "type"@ != "call_id"@,
        "type"@ != "content"@,
        "type"@ != "text"@,
        "role"@ != "tool_calls"@,
{
    reveal_strlit("choices");
    reveal_strlit("output");
    reveal_strlit("content");
    reveal_strlit("tool_calls");
    reveal_strlit("message");
    reveal_strlit("function_call");
    reveal_strlit("output_text");
    reveal_strlit("tool_call");
    reveal_strlit("id");
    reveal_strlit("function");
    reveal_strlit("type");
    reveal_strlit("call_id");
    reveal_strlit("text");
    reveal_strlit("role");
    assert("choices"@[0] != "output"@[0]);
    assert("content"@[0] != "tool_calls"@[0]);
    assert("message"@[0] != "function_call"@[0]);
    assert("output_text"@[0] != "tool_call"@[0]);
    assert("id"@[0] != "function"@[0]);
    assert("type"@[0] != "call_id"@[0]);
    assert("type"@[0] != "content"@[0]);
    assert("type"@[2] != "text"@[2]);
    assert("role"@[0] != "tool_calls"@[0]);
}

/// A Chat Completions response whose message asks for one tool call.
pub open spec fn chat_call_payload(name: Seq<char>, args: JsonV, id: Seq<char>) -> JsonV {
    JsonV::Object(seq![("choices"@, JsonV::Array(seq![
        JsonV::Object(seq![("message"@, JsonV::Object(seq![("tool_calls"@, JsonV::Array(seq![
            JsonV::Object(seq![
                ("id"@, JsonV::Str(id)),
                ("type"@, JsonV::Str("function"@)),
                ("function"@, JsonV::Object(seq![("name"@, JsonV::Str(name)), ("arguments"@, args)])),
            ]),
        ]))]))]),
    ]))])
}

/// A Chat Completions response whose message is a text.
pub open spec fn chat_text_payload(text: Seq<char>) -> JsonV {
    JsonV::Object(seq![("choices"@, JsonV::Array(seq![
        JsonV::Object(seq![("message"@, JsonV::Object(seq![("content"@, JsonV::Str(text))]))]),
    ]))])
}

/// A Responses response whose one output item is a function call.
pub open spec fn responses_call_payload(name: Seq<char>, args: JsonV, id: Seq<char>) -> JsonV {
    JsonV::Object(seq![("output"@, JsonV::Array(seq![
        JsonV::Object(seq![
            ("type"@, JsonV::Str("function_call"@)),
            ("call_id"@, JsonV::Str(id)),
            ("name"@, JsonV::Str(name)),
            ("arguments"@, args),
        ]),
    ]))])
}

/// A Responses response whose one output item is a message with a text.
pub open spec fn responses_text_payload(text: Seq<char>) -> JsonV {
    JsonV::Object(seq![("output"@, JsonV::Array(seq![
        JsonV::Object(seq![
            ("type"@, JsonV::Str("message"@)),
            ("content"@, JsonV::Array(seq![
                JsonV::Object(seq![("type"@, JsonV::Str("output_text"@)), ("text"@, JsonV::Str(text))]),
            ])),
        ]),
    ]))])
}

/// An Ollama response whose message asks for one tool call.
pub open spec fn ollama_call_payload(name: Seq<char>, args: JsonV, id: Seq<char>) -> JsonV {
    JsonV::Object(seq![("message"@, JsonV::Object(seq![("tool_calls"@, JsonV::Array(seq![
        JsonV::Object(seq![
            ("id"@, JsonV::Str(id)),
            ("function"@, JsonV::Object(seq![("name"@, JsonV::Str(name)), ("arguments"@, args)])),
        ]),
    ]))]))])
}

/// An Ollama response whose message is a text.
pub open spec fn ollama_text_payload(text: Seq<char>) -> JsonV {
    JsonV::Object(seq![("message"@, JsonV::Object(seq![("content"@, JsonV::Str(text))]))])
}

/// Chat Completions reads a tool call back with its name, arguments and id,
/// where the name is not empty (an empty name is no tool call). Arguments
/// given as a value come back as that value; given as a JSON text, as what
/// the text reads as (`{}` where it is not JSON).
pub proof fn lemma_chat_tool_call_round_trip(name: Seq<char>, args: JsonV, id: Seq<char>)
    requires
        name.len() > 0,
    ensures
        openai_parse(chat_call_payload(name, args, id)) == Ok::<ActionV, ResponseFormatError>(
            ActionV::ToolCall { name, args: decode_args(Some(args)), call_id: Some(id) },
        ),
{
    lemma_names();
    lemma_names_openai();
    let f = seq![("name"@, JsonV::Str(name)), ("arguments"@, args)];
    lemma_member(f, 0);
    lemma_member(f, 1);
    let tc = seq![("id"@, JsonV::Str(id)), ("type"@, JsonV::Str("function"@)), ("function"@, JsonV::Object(f))];
    lemma_member(tc, 0);
    lemma_member(tc, 2);
    let msg = seq![("tool_calls"@, JsonV::Array(seq![JsonV::Object(tc)]))];
    lemma_member(msg, 0);
    let choice = seq![("message"@, JsonV::Object(msg))];
    lemma_member(choice, 0);
    let top = seq![("choices"@, JsonV::Array(seq![JsonV::Object(choice)]))];
    lemma_member(top, 0);
    assert(JsonV::Object(top).get("output"@) is None) by {
        assert(!first_key(top, "output"@, 0));
    }
}

/// Chat Completions reads a text message back as that text.
pub proof fn lemma_chat_text_round_trip(text: Seq<char>)
    ensures
        openai_parse(chat_text_payload(text)) == Ok::<ActionV, ResponseFormatError>(
            ActionV::Text { content: text },
        ),
{
    lemma_names_openai();
    let msg = seq![("content"@, JsonV::Str(text))];
    lemma_member(msg, 0);
    assert(JsonV::Object(msg).get("tool_calls"@) is None) by {
        assert(!first_key(msg, "tool_calls"@, 0));
    }
    let choice = seq![("message"@, JsonV::Object(msg))];
    lemma_member(choice, 0);
    let top = seq![("choices"@, JsonV::Array(seq![JsonV::Object(choice)]))];
    lemma_member(top, 0);
    assert(JsonV::Object(top).get("output"@) is None) by {
        assert(!first_key(top, "output"@, 0));
    }
}

/// The Responses API reads a function call back with its name, arguments
/// and call id, as Chat Completions does.
pub proof fn lemma_responses_tool_call_round_trip(name: Seq<char>, args: JsonV, id: Seq<char>)
    requires
        name.len() > 0,
    ensures
        openai_parse(responses_call_payload(name, args, id)) == Ok::<ActionV, ResponseFormatError>(
            ActionV::ToolCall { name, args: decode_args(Some(args)), call_id: Some(id) },
        ),
{
    lemma_names();
    lemma_names_openai();
    let item = seq![
        ("type"@, JsonV::Str("function_call"@)),
        ("call_id"@, JsonV::Str(id)),
        ("name"@, JsonV::Str(name)),
        ("arguments"@, args),
    ];
    lemma_member(item, 0);
    lemma_member(item, 1);
    lemma_member(item, 2);
    lemma_member(item, 3);
    let top = seq![("output"@, JsonV::Array(seq![JsonV::Object(item)]))];
    lemma_member(top, 0);
    let items = seq![JsonV::Object(item)];
    assert(super::openai::first_output_action(items, 1) is None);
}

/// The Responses API reads a message's output text back as that text.
pub proof fn lemma_responses_text_round_trip(text: Seq<char>)
    ensures
        openai_parse(responses_text_payload(text)) == Ok::<ActionV, ResponseFormatError>(
            ActionV::Text { content: text },
        ),
{
    lemma_names();
    lemma_names_openai();
    let part = seq![("type"@, JsonV::Str("output_text"@)), ("text"@, JsonV::Str(text))];
    lemma_member(part, 0);
    lemma_member(part, 1);
    let parts = seq![JsonV::Object(part)];
    assert(super::openai::first_content_action(parts, 1) is None);
    let item = seq![("type"@, JsonV::Str("message"@)), ("content"@, JsonV::Array(parts))];
    lemma_member(item, 0);
    lemma_member(item, 1);
    let items = seq![JsonV::Object(item)];
    assert(super::openai::first_output_action(items, 1) is None);
    let top = seq![("output"@, JsonV::Array(items))];
    lemma_member(top, 0);
}

/// Ollama reads a tool call back with its name, arguments and id, as Chat
/// Completions does.
pub proof fn lemma_ollama_tool_call_round_trip(name: Seq<char>, args: JsonV, id: Seq<char>)
    requires
        name.len() > 0,
    ensures
        ollama_parse(ollama_call_payload(name, args, id)) == Ok::<ActionV, ResponseFormatError>(
            ActionV::ToolCall { name, args: decode_args(Some(args)), call_id: Some(id) },
        ),
{
    lemma_names();
    lemma_names_openai();
    let f = seq![("name"@, JsonV::Str(name)), ("arguments"@, args)];
    lemma_member(f, 0);
    lemma_member(f, 1);
    let tc = seq![("id"@, JsonV::Str(id)), ("function"@, JsonV::Object(f))];
    lemma_member(tc, 0);
    lemma_member(tc, 1);
    let msg = seq![("tool_calls"@, JsonV::Array(seq![JsonV::Object(tc)]))];
    lemma_member(msg, 0);
    let top = seq![("message"@, JsonV::Object(msg))];
    lemma_member(top, 0);
}

/// Ollama reads a text message back as that text.
pub proof fn lemma_ollama_text_round_trip(text: Seq<char>)
    ensures
        ollama_parse(ollama_text_payload(text)) == Ok::<ActionV, ResponseFormatError>(
            ActionV::Text { content: text },
        ),
{
    lemma_names_openai();
    let msg = seq![("content"@, JsonV::Str(text))];
    lemma_member(msg, 0);
    assert(JsonV::Object(msg).get("tool_calls"@) is None) by {
        assert(!first_key(msg, "tool_calls"@, 0));
    }
    let top = seq![("message"@, JsonV::Object(msg))];
    lemma_member(top, 0);
}

proof fn lemma_ascii_lower_literals()
    ensures
        lower_of("gpt-5"@) == "gpt-5"@,
        lower_of("gpt-4o"@) == "gpt-4o"@,
{
    reveal_strlit("gpt-5");
    reveal_strlit("gpt-4o");
    assert(crate::text::is_ascii_text("gpt-5"@));
    assert(crate::text::is_ascii_text("gpt-4o"@));
    assert(lower_of("gpt-5"@) =~= "gpt-5"@);
    assert(lower_of("gpt-4o"@) =~= "gpt-4o"@);
}

/// With no request style configured, the model `gpt-5` selects the
/// Responses style and `gpt-4o` the Chat Completions style; so the request
/// body carries `input` (not `messages`) for the one and `messages` (not
/// `input`) for the other.
pub proof fn lemma_model_selects_style(p: OpenAIProvider, agent: Agent, history: Seq<JsonV>, tools: JsonV)
    requires
        p.request_style is None,
    ensures
        agent.model@ == "gpt-5"@ ==> {
            &&& p.style_of(&agent) == RequestStyle::Responses
            &&& p.spec_request_body(&agent, history, tools).get("input"@) == Some(JsonV::Array(history))
            &&& p.spec_request_body(&agent, history, tools).get("messages"@) is None
        },
        agent.model@ == "gpt-4o"@ ==> {
            &&& p.style_of(&agent) == RequestStyle::ChatCompletions
            &&& p.spec_request_body(&agent, history, tools).get("messages"@) == Some(JsonV::Array(history))
            &&& p.spec_request_body(&agent, history, tools).get("input"@) is None
        },
{
    lemma_ascii_lower_literals();
    reveal_strlit("gpt-5");
    reveal_strlit("gpt-4o");
    reveal_strlit("gpt5");
    reveal_strlit("gpt-4.1");
    reveal_strlit("gpt4.1");
    reveal_strlit("o1");
    reveal_strlit("o3");
    reveal_strlit("o4");
    reveal_strlit("omni");
    reveal_strlit("model");
    reveal_strlit("instructions");
    reveal_strlit("input");
    reveal_strlit("tool_choice");
    reveal_strlit("tools");
    reveal_strlit("response_format");
    reveal_strlit("messages");
    let m5 = "gpt-5"@;
    assert(has_prefix(m5, "gpt-5"@)) by {
        assert(m5.subrange(0, 5) =~= m5);
    }
    let m4 = "gpt-4o"@;
    assert(!has_prefix(m4, "gpt-5"@)) by {
        assert(m4.subrange(0, 5)[4] != "gpt-5"@[4]);
    }
    assert(!has_prefix(m4, "gpt5"@)) by {
        assert(m4.subrange(0, 4)[3] != "gpt5"@[3]);
    }
    assert(!has_prefix(m4, "gpt4.1"@)) by {
        assert(m4.subrange(0, 6)[3] != "gpt4.1"@[3]);
    }
    assert(!has_prefix(m4, "gpt-4.1"@));
    assert(!has_prefix(m4, "o1"@)) by {
        assert(m4.subrange(0, 2)[0] != "o1"@[0]);
    }
    assert(!has_prefix(m4, "o3"@)) by {
        assert(m4.subrange(0, 2)[0] != "o3"@[0]);
    }
    assert(!has_prefix(m4, "o4"@)) by {
        assert(m4.subrange(0, 2)[0] != "o4"@[0]);
    }
    assert(!has_prefix(m4, "omni"@)) by {
        assert(m4.subrange(0, 4)[0] != "omni"@[0]);
    }
    assert("instructions"@[0] != "model"@[0]);
    assert("input"@[0] != "model"@[0]);
    assert("input"@[2] != "instructions"@[2]);
    assert("messages"@[1] != "model"@[1]);
    assert("messages"@[0] != "input"@[0]);
    assert("messages"@[0] != "instructions"@[0]);
    assert("messages"@[0] != "tool_choice"@[0]);
    assert("messages"@[0] != "tools"@[0]);
    assert("messages"@[0] != "response_format"@[0]);
    assert("input"@[0] != "messages"@[0]);
    assert("input"@[0] != "tools"@[0]);
    assert("input"@[0] != "tool_choice"@[0]);
    assert("input"@[0] != "response_format"@[0]);
    let body = p.spec_request_body(&agent, history, tools);
    let es = body->Object_0;
    if agent.model@ == "gpt-5"@ {
        assert(p.style_of(&agent) == RequestStyle::Responses);
        lemma_member(es, 2);
        assert(forall|j: int| 0 <= j < es.len() ==> es[j].0 != "messages"@);
        crate::json::lemma_lookup_absent(es, "messages"@);
    }
    if agent.model@ == "gpt-4o"@ {
        assert(p.style_of(&agent) == RequestStyle::ChatCompletions);
        lemma_member(es, 1);
        assert(forall|j: int| 0 <= j < es.len() ==> es[j].0 != "input"@);
        crate::json::lemma_lookup_absent(es, "input"@);
    }
}

/// The Ollama model `ollama:llama3.1` is sent as `llama3.1`.
pub proof fn lemma_ollama_model_prefix(p: OllamaProvider, agent: Agent, history: Seq<JsonV>, tools: JsonV)
    requires
        agent.model@ == "ollama:llama3.1"@,
    ensures
        normalized_model(agent.model@) == "llama3.1"@,
        p.spec_request_body(&agent, history, tools).get("model"@) == Some(JsonV::Str("llama3.1"@)),
{
    reveal_strlit("ollama:llama3.1");
    reveal_strlit("ollama:");
    reveal_strlit("llama3.1");
    let m = "ollama:llama3.1"@;
    assert(trim_of(m) == m) by {
        assert(!crate::text::is_whitespace(m[0]));
        assert(crate::text::trim_start_of(m) == m);
        assert(!crate::text::is_whitespace(m.last()));
        assert(crate::text::trim_end_of(m) == m);
    }
    assert(has_prefix(m, "ollama:"@)) by {
        assert(m.subrange(0, 7) =~= "ollama:"@);
    }
    assert(m.subrange(7, m.len() as int) =~= "llama3.1"@);
    let es = p.spec_request_body(&agent, history, tools)->Object_0;
    lemma_member(es, 0);
}

/// Where the message asks for nothing, Ollama reads the top-level `response` text.
pub proof fn lemma_ollama_response_fallback(v: JsonV, text: Seq<char>)
    requires
        v.get("message"@) is None || message_action(v.get("message"@)->0) is None,
        v.str_field("response"@) == Some(text),
    ensures
        ollama_parse(v) == Ok::<ActionV, ResponseFormatError>(ActionV::Text { content: text }),
{
}

/// The assistant message that records a tool call reads back, as an Ollama
/// or a Chat Completions response, as that call: the same name and id, and
/// the arguments as their written text reads.
pub proof fn lemma_recorded_call_reads_back(id: Seq<char>, tool: Seq<char>, args: JsonV)
    requires
        tool.len() > 0,
    ensures
        ollama_parse(JsonV::Object(seq![("message"@, chat_call_message(id, tool, args))])) == Ok::<
            ActionV,
            ResponseFormatError,
        >(ActionV::ToolCall { name: tool, args: decode_args(Some(JsonV::Str(args_text(args)))), call_id: Some(id) }),
        openai_parse(
            JsonV::Object(seq![("choices"@, JsonV::Array(seq![JsonV::Object(seq![("message"@, chat_call_message(id, tool, args))])]))]),
        ) == Ok::<ActionV, ResponseFormatError>(
            ActionV::ToolCall { name: tool, args: decode_args(Some(JsonV::Str(args_text(args)))), call_id: Some(id) },
        ),
{
    lemma_names();
    lemma_names_openai();
    let f = seq![("name"@, JsonV::Str(tool)), ("arguments"@, JsonV::Str(args_text(args)))];
    lemma_member(f, 0);
    lemma_member(f, 1);
    let tc = seq![("id"@, JsonV::Str(id)), ("type"@, JsonV::Str("function"@)), ("function"@, JsonV::Object(f))];
    lemma_member(tc, 0);
    lemma_member(tc, 2);
    let m = seq![("role"@, JsonV::Str("assistant"@)), ("tool_calls"@, JsonV::Array(seq![JsonV::Object(tc)]))];
    assert(chat_call_message(id, tool, args) == JsonV::Object(m));
    lemma_member(m, 1);
    let top = seq![("message"@, JsonV::Object(m))];
    lemma_member(top, 0);
    let choice = seq![("message"@, JsonV::Object(m))];
    let ctop = seq![("choices"@, JsonV::Array(seq![JsonV::Object(choice)]))];
    lemma_member(ctop, 0);
    assert(JsonV::Object(ctop).get("output"@) is None) by {
        assert(!first_key(ctop, "output"@, 0));
    }
}
} // verus!
