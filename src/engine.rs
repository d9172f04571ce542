//! The tool-calling loop, as decisions from state and event to next state and step.
use vstd::prelude::*;

use crate::agent::{has_tool, Agent, ExecutionResult};
use crate::json::{items_view, Json, JsonV};
use crate::providers::gemini::{
    gemini_call_turn, gemini_first_turn, gemini_parse, gemini_result_turn, GeminiProvider,
};
use crate::providers::ollama::{ollama_parse, OllamaProvider};
use crate::providers::openai::{
    call_id_or_default, chat_call_message, chat_tool_message, openai_parse, opt_str,
    responses_call_item, responses_output_item, OpenAIProvider, RequestStyle,
};
use crate::providers::{parsed_view, str_opt_view, ActionV, ModelAction, ProviderKind, ResponseFormatError};
use crate::providers::shapes::{lemma_member, lemma_names, lemma_names_openai};
use crate::store::Task;

verus! {

/// One adapter, with its settings.
pub enum Provider {
    Gemini(GeminiProvider),
    OpenAI(OpenAIProvider),
    Ollama(OllamaProvider),
}

/// The action that a response asks for, by the adapter's protocol.
pub open spec fn provider_parse(p: Provider, v: JsonV) -> Result<ActionV, ResponseFormatError> {
    match p {
        Provider::Gemini(_) => gemini_parse(v),
        Provider::OpenAI(_) => openai_parse(v),
        Provider::Ollama(_) => ollama_parse(v),
    }
}

/// The two history entries that record a tool call and its output.
pub open spec fn provider_tool_entries(
    p: Provider,
    agent: Agent,
    tool: Seq<char>,
    args: JsonV,
    output: Seq<char>,
    call_id: Option<Seq<char>>,
) -> Seq<JsonV> {
    match p {
        Provider::Gemini(_) => seq![gemini_call_turn(tool, args), gemini_result_turn(tool, output)],
        Provider::OpenAI(o) => if o.style_of(&agent) == RequestStyle::Responses {
            seq![
                responses_call_item(call_id_or_default(call_id), tool, args),
                responses_output_item(call_id_or_default(call_id), output),
            ]
        } else {
            seq![
                chat_call_message(call_id_or_default(call_id), tool, args),
                chat_tool_message(call_id_or_default(call_id), tool, output),
            ]
        },
        Provider::Ollama(_) => seq![
            chat_call_message(call_id_or_default(call_id), tool, args),
            chat_tool_message(call_id_or_default(call_id), tool, output),
        ],
    }
}

/// The two entries that record a tool call correlate: Gemini pairs the call
/// and the response by the tool's name; OpenAI and Ollama carry the call id
/// (`tool_call_1` where the backend gave none) in both, the Chat shape as an
/// assistant `tool_calls[0].id` and a `tool` message's `tool_call_id`, the
/// Responses shape as the `call_id` of a `function_call` and of its
/// `function_call_output`.
pub proof fn lemma_tool_entries_correlate(
    p: Provider,
    agent: Agent,
    tool: Seq<char>,
    args: JsonV,
    output: Seq<char>,
    call_id: Option<Seq<char>>,
)
    ensures
        ({
            let e = provider_tool_entries(p, agent, tool, args, output, call_id);
            let id = call_id_or_default(call_id);
            &&& e.len() == 2
            &&& p is Gemini ==> {
                &&& e[0].key("role"@) == JsonV::Str("model"@)
                &&& e[0].key("parts"@).nth(0).key("functionCall"@).key("name"@) == JsonV::Str(tool)
                &&& e[1].key("role"@) == JsonV::Str("tool"@)
                &&& e[1].key("parts"@).nth(0).key("functionResponse"@).key("name"@) == JsonV::Str(tool)
            }
            &&& (p is Ollama || (p is OpenAI && p->OpenAI_0.style_of(&agent) == RequestStyle::ChatCompletions))
                ==> {
                &&& e[0].key("role"@) == JsonV::Str("assistant"@)
                &&& e[0].key("tool_calls"@).nth(0).key("id"@) == JsonV::Str(id)
                &&& e[0].key("tool_calls"@).nth(0).key("function"@).key("name"@) == JsonV::Str(tool)
                &&& e[1].key("role"@) == JsonV::Str("tool"@)
                &&& e[1].key("tool_call_id"@) == JsonV::Str(id)
            }
            &&& (p is OpenAI && p->OpenAI_0.style_of(&agent) == RequestStyle::Responses) ==> {
                &&& e[0].key("type"@) == JsonV::Str("function_call"@)
                &&& e[0].key("call_id"@) == JsonV::Str(id)
                &&& e[0].key("name"@) == JsonV::Str(tool)
                &&& e[1].key("type"@) == JsonV::Str("function_call_output"@)
                &&& e[1].key("call_id"@) == JsonV::Str(id)
                &&& e[1].key("output"@) == JsonV::Str(output)
            }
        }),
{
    lemma_names();
    lemma_names_openai();
    let id = call_id_or_default(call_id);
    let at = crate::providers::args_text(args);
    // Gemini
    let fc = seq![("name"@, JsonV::Str(tool)), ("args"@, args)];
    lemma_member(fc, 0);
    let call_part = seq![("functionCall"@, JsonV::Object(fc))];
    lemma_member(call_part, 0);
    let t0 = seq![("role"@, JsonV::Str("model"@)), ("parts"@, JsonV::Array(seq![JsonV::Object(call_part)]))];
    lemma_member(t0, 0);
    lemma_member(t0, 1);
    let fr = seq![
        ("name"@, JsonV::Str(tool)),
        ("response"@, JsonV::Object(seq![("content"@, JsonV::Str(output))])),
    ];
    lemma_member(fr, 0);
    let response_part = seq![("functionResponse"@, JsonV::Object(fr))];
    lemma_member(response_part, 0);
    let t1 = seq![("role"@, JsonV::Str("tool"@)), ("parts"@, JsonV::Array(seq![JsonV::Object(response_part)]))];
    lemma_member(t1, 0);
    lemma_member(t1, 1);
    // Chat and Ollama
    let f = seq![("name"@, JsonV::Str(tool)), ("arguments"@, JsonV::Str(at))];
    lemma_member(f, 0);
    let tc = seq![("id"@, JsonV::Str(id)), ("type"@, JsonV::Str("function"@)), ("function"@, JsonV::Object(f))];
    lemma_member(tc, 0);
    lemma_member(tc, 2);
    let m0 = seq![("role"@, JsonV::Str("assistant"@)), ("tool_calls"@, JsonV::Array(seq![JsonV::Object(tc)]))];
    lemma_member(m0, 0);
    lemma_member(m0, 1);
    let m1 = seq![
        ("role"@, JsonV::Str("tool"@)),
        ("tool_call_id"@, JsonV::Str(id)),
        ("name"@, JsonV::Str(tool)),
        ("content"@, JsonV::Str(output)),
    ];
    lemma_member(m1, 0);
    lemma_member(m1, 1);
    // Responses
    let r0 = seq![
        ("type"@, JsonV::Str("function_call"@)),
        ("call_id"@, JsonV::Str(id)),
        ("name"@, JsonV::Str(tool)),
        ("arguments"@, JsonV::Str(at)),
    ];
    lemma_member(r0, 0);
    lemma_member(r0, 1);
    lemma_member(r0, 2);
    let r1 = seq![
        ("type"@, JsonV::Str("function_call_output"@)),
        ("call_id"@, JsonV::Str(id)),
        ("output"@, JsonV::Str(output)),
    ];
    lemma_member(r1, 0);
    lemma_member(r1, 1);
    lemma_member(r1, 2);
}

impl Provider {
    /// The conversation that a run opens with.
    pub open spec fn spec_history(&self, agent: &Agent, user_prompt: Seq<char>) -> Seq<JsonV> {
        match self {
            Provider::Gemini(_) => seq![gemini_first_turn(agent.system_prompt@, user_prompt)],
            Provider::OpenAI(o) => if o.style_of(agent) == RequestStyle::Responses {
                seq![
                    JsonV::Object(seq![
                        ("role"@, JsonV::Str("user"@)),
                        ("content"@, JsonV::Array(seq![
                            JsonV::Object(seq![("type"@, JsonV::Str("input_text"@)), ("text"@, JsonV::Str(user_prompt))]),
                        ])),
                    ]),
                ]
            } else {
                seq![
                    JsonV::Object(seq![("role"@, JsonV::Str("system"@)), ("content"@, JsonV::Str(agent.system_prompt@))]),
                    JsonV::Object(seq![("role"@, JsonV::Str("user"@)), ("content"@, JsonV::Str(user_prompt))]),
                ]
            },
            Provider::Ollama(_) => seq![
                JsonV::Object(seq![("role"@, JsonV::Str("system"@)), ("content"@, JsonV::Str(agent.system_prompt@))]),
                JsonV::Object(seq![("role"@, JsonV::Str("user"@)), ("content"@, JsonV::Str(user_prompt))]),
            ],
        }
    }

    pub open spec fn kind(&self) -> ProviderKind {
        match self {
            Provider::Gemini(_) => ProviderKind::Gemini,
            Provider::OpenAI(_) => ProviderKind::OpenAI,
            Provider::Ollama(_) => ProviderKind::Ollama,
        }
    }

    pub fn requires_api_key(&self) -> (r: bool)
        ensures
            r == !(self is Ollama),
    {
        match self {
            Provider::Gemini(g) => g.requires_api_key(),
            Provider::OpenAI(o) => o.requires_api_key(),
            Provider::Ollama(o) => o.requires_api_key(),
        }
    }

    pub fn name(&self) -> (r: &'static str)
        ensures
            self is Gemini ==> r@ == "gemini"@,
            self is OpenAI ==> r@ == "openai"@,
            self is Ollama ==> r@ == "ollama"@,
    {
        match self {
            Provider::Gemini(g) => g.name(),
            Provider::OpenAI(o) => o.name(),
            Provider::Ollama(o) => o.name(),
        }
    }

    pub fn build_history(&self, agent: &Agent, user_prompt: &str) -> (r: Vec<Json>)
        ensures
            items_view(r@) == self.spec_history(agent, user_prompt@),
    {
        match self {
            Provider::Gemini(g) => g.build_history(agent, user_prompt),
            Provider::OpenAI(o) => o.build_history(agent, user_prompt),
            Provider::Ollama(o) => o.build_history(agent, user_prompt),
        }
    }

    pub fn append_tool_result(
        &self,
        agent: &Agent,
        history: &mut Vec<Json>,
        tool_name: &str,
        args: &Json,
        tool_response: &str,
        call_id: Option<&str>,
    )
        ensures
            items_view(final(history)@) == items_view(old(history)@) + provider_tool_entries(
                *self,
                *agent,
                tool_name@,
                args@,
                tool_response@,
                opt_str(call_id),
            ),
    {
        let ghost before = items_view(history@);
        match self {
            Provider::Gemini(g) => g.append_tool_result(agent, history, tool_name, args, tool_response, call_id),
            Provider::OpenAI(o) => o.append_tool_result(agent, history, tool_name, args, tool_response, call_id),
            Provider::Ollama(o) => o.append_tool_result(agent, history, tool_name, args, tool_response, call_id),
        }
        assert(items_view(history@) =~= before + provider_tool_entries(
            *self,
            *agent,
            tool_name@,
            args@,
            tool_response@,
            opt_str(call_id),
        ));
    }

    pub open spec fn spec_tools_payload(&self, agent: &Agent) -> JsonV {
        match self {
            Provider::Gemini(g) => g.spec_tools_payload(agent),
            Provider::OpenAI(o) => o.spec_tools_payload(agent),
            Provider::Ollama(o) => o.spec_tools_payload(agent),
        }
    }

    pub open spec fn spec_endpoint(&self, agent: &Agent) -> Seq<char> {
        match self {
            Provider::Gemini(g) => g.spec_endpoint(agent),
            Provider::OpenAI(o) => o.spec_endpoint(agent),
            Provider::Ollama(o) => o.spec_endpoint(),
        }
    }

    pub open spec fn spec_request_body(&self, agent: &Agent, history: Seq<JsonV>, tools: JsonV) -> JsonV {
        match self {
            Provider::Gemini(g) => g.spec_request_body(history, tools),
            Provider::OpenAI(o) => o.spec_request_body(agent, history, tools),
            Provider::Ollama(o) => o.spec_request_body(agent, history, tools),
        }
    }

    pub fn tools_payload(&self, agent: &Agent) -> (r: Json)
        ensures
            r@ == self.spec_tools_payload(agent),
    {
        match self {
            Provider::Gemini(g) => g.tools_payload(agent),
            Provider::OpenAI(o) => o.tools_payload(agent),
            Provider::Ollama(o) => o.tools_payload(agent),
        }
    }

    pub fn endpoint(&self, agent: &Agent) -> (r: String)
        ensures
            r@ == self.spec_endpoint(agent),
    {
        match self {
            Provider::Gemini(g) => g.endpoint(agent),
            Provider::OpenAI(o) => o.endpoint(agent),
            Provider::Ollama(o) => o.endpoint(agent),
        }
    }

    pub fn request_body(&self, agent: &Agent, history: &[Json], tools: &Json) -> (r: Json)
        ensures
            r@ == self.spec_request_body(agent, items_view(history@), tools@),
    {
        match self {
            Provider::Gemini(g) => g.request_body(agent, history, tools),
            Provider::OpenAI(o) => o.request_body(agent, history, tools),
            Provider::Ollama(o) => o.request_body(agent, history, tools),
        }
    }

    pub fn parse_response(&self, v: &Json) -> (r: Result<ModelAction, ResponseFormatError>)
        ensures
            parsed_view(r) == provider_parse(*self, v@),
    {
        match self {
            Provider::Gemini(g) => g.parse_response(v),
            Provider::OpenAI(o) => o.parse_response(v),
            Provider::Ollama(o) => o.parse_response(v),
        }
    }

    /// The request headers: the key header that the backend wants, then the JSON content type.
    pub fn headers(&self, api_key: &str) -> (r: Vec<(String, String)>)
        ensures
            self is Gemini ==> r@.len() == 2 && r@[0].0@ == "x-goog-api-key"@ && r@[0].1@ == api_key@,
            self is OpenAI ==> r@.len() == 2 && r@[0].0@ == "Authorization"@ && r@[0].1@ == "Bearer "@
                + api_key@,
            self is Ollama ==> r@.len() == 1,
            r@[r@.len() - 1].0@ == "Content-Type"@ && r@[r@.len() - 1].1@ == "application/json"@,
    {
        match self {
            Provider::Gemini(g) => g.headers(api_key),
            Provider::OpenAI(o) => o.headers(api_key),
            Provider::Ollama(o) => o.headers(api_key),
        }
    }
}


/// Settings that the adapters take from the configuration.
pub struct ProviderSettings {
    pub openai_request_style: Option<String>,
    pub openai_base_url: String,
    pub openai_responses_endpoint: Option<String>,
    pub openai_chat_endpoint: Option<String>,
    pub openai_response_format: Option<String>,
    pub ollama_base_url: String,
}

/// The adapter of a kind, set up from the settings.
pub fn make_provider(kind: ProviderKind, settings: &ProviderSettings) -> (r: Provider)
    ensures
        r.kind() == kind,
        r is OpenAI ==> r->OpenAI_0.request_style == settings.openai_request_style
            && r->OpenAI_0.response_format == settings.openai_response_format
            && r->OpenAI_0.base_url@ == settings.openai_base_url@
            && r->OpenAI_0.responses_endpoint == settings.openai_responses_endpoint
            && r->OpenAI_0.chat_endpoint == settings.openai_chat_endpoint,
        r is Ollama ==> r->Ollama_0.base_url@ == settings.ollama_base_url@,
{
    match kind {
        ProviderKind::Gemini => Provider::Gemini(GeminiProvider),
        ProviderKind::OpenAI => Provider::OpenAI(
            OpenAIProvider {
                request_style: settings.openai_request_style.clone(),
                base_url: settings.openai_base_url.clone(),
                responses_endpoint: crate::config::copy_opt(&settings.openai_responses_endpoint),
                chat_endpoint: crate::config::copy_opt(&settings.openai_chat_endpoint),
                response_format: settings.openai_response_format.clone(),
            },
        ),
        ProviderKind::Ollama => Provider::Ollama(
            OllamaProvider { base_url: settings.ollama_base_url.clone() },
        ),
    }
}

/// The result when the backend cannot be used: success where the agent can
/// send email, failure otherwise.
pub open spec fn fallback_result(agent: Agent) -> (bool, Seq<char>) {
    if has_tool(&agent, "send_email"@) {
        (true, "Tool available. Task considered complete."@)
    } else {
        (false, "Required tool not available."@)
    }
}

pub open spec fn result_view(r: ExecutionResult) -> (bool, Seq<char>) {
    (r is Success, r.comment_view())
}

/// The deterministic result used without an API key or after a failed call.
pub fn offline_fallback(agent: &Agent) -> (r: ExecutionResult)
    ensures
        result_view(r) == fallback_result(*agent),
{
    if crate::agent::declares_tool(agent, "send_email") {
        ExecutionResult::Success { comment: String::from_str("Tool available. Task considered complete.") }
    } else {
        ExecutionResult::Failure { comment: String::from_str("Required tool not available.") }
    }
}

/// The user's text for a task: its title, with its description where it has one.
pub open spec fn prompt_of(task: Option<Task>) -> Seq<char> {
    match task {
        Some(t) => match t.description {
            Some(d) => "Task Title: "@ + t.title@ + "\nTask Description: "@ + d@,
            None => t.title@,
        },
        None => Seq::empty(),
    }
}

pub open spec fn opt_task(task: Option<&Task>) -> Option<Task> {
    match task {
        Some(t) => Some(*t),
        None => None,
    }
}

pub fn user_prompt(task: Option<&Task>) -> (r: String)
    ensures
        r@ == prompt_of(opt_task(task)),
{
    match task {
        Some(t) => match &t.description {
            Some(d) => String::from_str("Task Title: ").concat(t.title.as_str()).concat(
                "\nTask Description: ",
            ).concat(d.as_str()),
            None => t.title.clone(),
        },
        None => String::new(),
    }
}

/// The key to use: the configured one, else a legacy one that is not blank.
pub open spec fn key_choice(configured: Option<Seq<char>>, legacy: Option<Seq<char>>) -> Option<Seq<char>> {
    match configured {
        Some(k) => Some(k),
        None => match legacy {
            Some(k) => if crate::text::trim_of(k).len() > 0 {
                Some(k)
            } else {
                None
            },
            None => None,
        },
    }
}

pub fn resolve_api_key(configured: Option<String>, legacy: Option<String>) -> (r: Option<String>)
    ensures
        str_opt_view(r) == key_choice(str_opt_view(configured), str_opt_view(legacy)),
{
    match configured {
        Some(k) => Some(k),
        None => match legacy {
            Some(k) => {
                if crate::text::trim(k.as_str()).unicode_len() > 0 {
                    Some(k)
                } else {
                    None
                }
            },
            None => None,
        },
    }
}

/// What the caller does next.
pub enum EngineStep {
    /// Send this request; hand the parsed response body to [`Execution::on_response`],
    /// or `None` where the call or its status failed.
    Request { endpoint: String, headers: Vec<(String, String)>, body: Json },
    /// Run this tool; hand its outcome to [`Execution::on_tool_result`].
    RunTool { name: String, args: Json },
    /// The run is over.
    Done { result: ExecutionResult },
}

/// A tool call waiting for its outcome.
pub struct PendingCall {
    pub name: String,
    pub args: Json,
    pub call_id: Option<String>,
}

/// One run of an agent on a task: the adapter, the conversation so far, and
/// the tool call that waits for its outcome.
pub struct Execution {
    pub provider: Provider,
    pub api_key: String,
    pub history: Vec<Json>,
    pub pending: Option<PendingCall>,
}

impl EngineStep {
    pub open spec fn is_done_with(&self, r: (bool, Seq<char>)) -> bool {
        self is Done && result_view(self->result) == r
    }
}

impl Execution {
    /// The request for the conversation so far.
    pub open spec fn is_request_for(&self, agent: &Agent, step: EngineStep) -> bool {
        &&& step is Request
        &&& step->Request_endpoint@ == self.provider.spec_endpoint(agent)
        &&& step->Request_body@ == self.provider.spec_request_body(
            agent,
            items_view(self.history@),
            self.provider.spec_tools_payload(agent),
        )
    }

    fn request(&self, agent: &Agent) -> (r: EngineStep)
        ensures
            self.is_request_for(agent, r),
    {
        let tools = self.provider.tools_payload(agent);
        let body = self.provider.request_body(agent, self.history.as_slice(), &tools);
        EngineStep::Request {
            endpoint: self.provider.endpoint(agent),
            headers: self.provider.headers(self.api_key.as_str()),
            body,
        }
    }

    /// Starts a run: without a key where the backend needs one the run ends at
    /// once with the offline fallback; otherwise the history is built and the
    /// first request is due.
    pub fn start(
        agent: &Agent,
        task: Option<&Task>,
        settings: &ProviderSettings,
        api_key: Option<String>,
    ) -> (r: (Execution, EngineStep))
        ensures
            r.0.provider.kind() == crate::providers::provider_for(str_opt_view(agent.provider), agent.model@),
            r.0.pending is None,
            r.0.provider.kind() != ProviderKind::Ollama && api_key is None ==> r.1.is_done_with(
                fallback_result(*agent),
            ),
            !(r.0.provider.kind() != ProviderKind::Ollama && api_key is None) ==> {
                &&& items_view(r.0.history@) == r.0.provider.spec_history(agent, prompt_of(opt_task(task)))
                &&& r.0.is_request_for(agent, r.1)
            },
    {
        let kind = crate::providers::select_provider(agent);
        let provider = make_provider(kind, settings);
        if provider.requires_api_key() && api_key.is_none() {
            let exec = Execution { provider, api_key: String::new(), history: Vec::new(), pending: None };
            return (exec, EngineStep::Done { result: offline_fallback(agent) });
        }
        let key = match api_key {
            Some(k) => k,
            None => String::new(),
        };
        let prompt = user_prompt(task);
        let history = provider.build_history(agent, prompt.as_str());
        let exec = Execution { provider, api_key: key, history, pending: None };
        let step = exec.request(agent);
        (exec, step)
    }

    /// Decides on a response: a failed call or an unreadable response ends
    /// the run with the offline fallback, a text ends it with success, a tool
    /// call is to be run.
    pub fn on_response(&mut self, agent: &Agent, response: Option<Json>) -> (r: EngineStep)
        ensures
            final(self).provider == old(self).provider,
            final(self).history == old(self).history,
            response is None ==> r.is_done_with(fallback_result(*agent)),
            response is Some ==> match provider_parse(old(self).provider, response->0@) {
                Err(_) => r.is_done_with(fallback_result(*agent)),
                Ok(ActionV::Text { content }) => r.is_done_with((true, content)),
                Ok(ActionV::ToolCall { name, args, call_id }) => {
                    &&& r is RunTool
                    &&& r->RunTool_name@ == name
                    &&& r->RunTool_args@ == args
                    &&& final(self).pending is Some
                    &&& final(self).pending->0.name@ == name
                    &&& final(self).pending->0.args@ == args
                    &&& str_opt_view(final(self).pending->0.call_id) == call_id
                },
            },
    {
        match response {
            None => EngineStep::Done { result: offline_fallback(agent) },
            Some(v) => match self.provider.parse_response(&v) {
                Err(_) => EngineStep::Done { result: offline_fallback(agent) },
                Ok(ModelAction::Text { content }) => EngineStep::Done {
                    result: ExecutionResult::Success { comment: content },
                },
                Ok(ModelAction::ToolCall { name, args, call_id }) => {
                    let step = EngineStep::RunTool { name: name.clone(), args: args.copy() };
                    self.pending = Some(PendingCall { name, args, call_id });
                    step
                },
            },
        }
    }

    /// Decides on a tool's outcome: a failure ends the run with
    /// `Tool <name> failed: <error>`; an output is appended to the history and
    /// the next request is due.
    pub fn on_tool_result(&mut self, agent: &Agent, outcome: Result<String, String>) -> (r: EngineStep)
        requires
            old(self).pending is Some,
        ensures
            final(self).provider == old(self).provider,
            final(self).pending is None,
            outcome is Err ==> r.is_done_with(
                (
                    false,
                    "Tool "@ + old(self).pending->0.name@ + " failed: "@ + outcome->Err_0@,
                ),
            ),
            outcome is Ok ==> {
                &&& items_view(final(self).history@) == items_view(old(self).history@) + provider_tool_entries(
                    old(self).provider,
                    *agent,
                    old(self).pending->0.name@,
                    old(self).pending->0.args@,
                    outcome->Ok_0@,
                    str_opt_view(old(self).pending->0.call_id),
                )
                &&& final(self).is_request_for(agent, r)
            },
    {
        let call = match self.pending.take() {
            Some(c) => c,
            None => {
                return EngineStep::Done { result: offline_fallback(agent) };
            },
        };
        match outcome {
            Err(e) => {
                let msg = String::from_str("Tool ").concat(call.name.as_str()).concat(" failed: ").concat(
                    e.as_str(),
                );
                EngineStep::Done { result: ExecutionResult::Failure { comment: msg } }
            },
            Ok(output) => {
                let id: Option<&str> = match &call.call_id {
                    Some(c) => Some(c.as_str()),
                    None => None,
                };
                assert(opt_str(id) == str_opt_view(call.call_id));
                self.provider.append_tool_result(
                    agent,
                    &mut self.history,
                    call.name.as_str(),
                    &call.args,
                    output.as_str(),
                    id,
                );
                self.request(agent)
            },
        }
    }
}
} // verus!
