//! The provider adapters: one per backend wire protocol, and the choice between them.
use vstd::prelude::*;

use crate::agent::{Agent, FunctionDeclaration};
use crate::json::{json_view, opt_view, Json, JsonV};
use crate::text::{has_prefix, lower_of};
use crate::wire::{json_text, parsed_json};

pub mod gemini;
pub mod ollama;
pub mod openai;
pub mod shapes;

verus! {

/// What the backend asks for next.
#[derive(Debug)]
pub enum ModelAction {
    ToolCall { name: String, args: Json, call_id: Option<String> },
    Text { content: String },
}

/// The mathematical value of a [`ModelAction`].
pub enum ActionV {
    ToolCall { name: Seq<char>, args: JsonV, call_id: Option<Seq<char>> },
    Text { content: Seq<char> },
}

pub open spec fn str_opt_view(o: Option<String>) -> Option<Seq<char>> {
    match o {
        Some(s) => Some(s@),
        None => None,
    }
}

impl View for ModelAction {
    type V = ActionV;

    open spec fn view(&self) -> ActionV {
        match self {
            ModelAction::ToolCall { name, args, call_id } => ActionV::ToolCall {
                name: name@,
                args: args@,
                call_id: str_opt_view(*call_id),
            },
            ModelAction::Text { content } => ActionV::Text { content: content@ },
        }
    }
}

/// A response that holds neither a tool call nor a text.
#[derive(Clone, Copy, Debug, PartialEq, Eq, Structural)]
pub enum ResponseFormatError {
    /// A function call without a string `name`.
    MissingToolName,
    /// Neither a tool call nor a text is present.
    NoAction,
}

impl ResponseFormatError {
    pub fn message(&self) -> (r: String)
        ensures
            *self == ResponseFormatError::MissingToolName ==> r@
                == "Malformed API response: missing field `name`"@,
            *self == ResponseFormatError::NoAction ==> r@
                == "No tool call or text response from the model"@,
    {
        match self {
            ResponseFormatError::MissingToolName => String::from_str(
                "Malformed API response: missing field `name`",
            ),
            ResponseFormatError::NoAction => String::from_str(
                "No tool call or text response from the model",
            ),
        }
    }
}

pub open spec fn parsed_view(r: Result<ModelAction, ResponseFormatError>) -> Result<ActionV, ResponseFormatError> {
    match r {
        Ok(a) => Ok(a@),
        Err(e) => Err(e),
    }
}

/// Tool-call arguments as handed to the tools: a JSON text is read into a
/// document (`{}` where it is not JSON), a missing value is `{}`, any other
/// value is kept.
pub open spec fn decode_args(a: Option<JsonV>) -> JsonV {
    match a {
        Some(JsonV::Str(s)) => match parsed_json(s) {
            Some(p) => p,
            None => crate::json::empty_obj(),
        },
        Some(v) => v,
        None => crate::json::empty_obj(),
    }
}

pub fn decode_arguments(a: Option<&Json>) -> (r: Json)
    ensures
        r@ == decode_args(opt_view(a)),
{
    match a {
        Some(Json::Str(s)) => match crate::wire::parse_json(s.as_str()) {
            Some(p) => p,
            None => Json::empty_object(),
        },
        Some(v) => v.copy(),
        None => Json::empty_object(),
    }
}

/// Arguments as the wire carries them in a history entry: a string as it is,
/// any other value as its JSON text.
pub open spec fn args_text(a: JsonV) -> Seq<char> {
    match a {
        JsonV::Str(s) => s,
        _ => json_text(a),
    }
}

pub fn arguments_text(a: &Json) -> (r: String)
    ensures
        r@ == args_text(a@),
{
    match a {
        Json::Str(s) => s.clone(),
        _ => crate::wire::write_json(a),
    }
}

/// A tool declaration as the backends receive it.
pub open spec fn decl_view(d: FunctionDeclaration) -> JsonV {
    JsonV::Object(
        seq![
            ("name"@, JsonV::Str(d.name@)),
            ("description"@, match d.description {
                Some(s) => JsonV::Str(s@),
                None => JsonV::Null,
            }),
            ("parameters"@, d.parameters@),
        ],
    )
}

pub fn declaration_json(d: &FunctionDeclaration) -> (r: Json)
    ensures
        r@ == decl_view(*d),
{
    let mut o = Json::empty_object();
    o.push_member("name", Json::Str(d.name.clone()));
    let desc = match &d.description {
        Some(s) => Json::Str(s.clone()),
        None => Json::Null,
    };
    o.push_member("description", desc);
    assert(desc@ == match d.description {
        Some(s) => JsonV::Str(s@),
        None => JsonV::Null,
    });
    o.push_member("parameters", d.parameters.copy());
    assert(o@->Object_0 =~= decl_view(*d)->Object_0);
    o
}

/// The declarations of a tool list, in order.
pub open spec fn decls_view(tools: Seq<FunctionDeclaration>) -> Seq<JsonV> {
    Seq::new(tools.len(), |k: int| decl_view(tools[k]))
}

pub fn declarations_json(tools: &Vec<FunctionDeclaration>) -> (r: Vec<Json>)
    ensures
        crate::json::items_view(r@) == decls_view(tools@),
{
    let mut out: Vec<Json> = Vec::new();
    let mut i: usize = 0;
    while i < tools.len()
        invariant
            i <= tools@.len(),
            out@.len() == i,
            forall|k: int| 0 <= k < i ==> #[trigger] json_view(out@[k]) == decl_view(tools@[k]),
        decreases tools@.len() - i,
    {
        let d = declaration_json(&tools[i]);
        out.push(d);
        i = i + 1;
    }
    proof {
        crate::json::lemma_items_view(out@);
        assert(crate::json::items_view(out@) =~= decls_view(tools@));
    }
    out
}

/// The supported backends.
#[derive(Clone, Copy, Debug, PartialEq, Eq, Structural)]
pub enum ProviderKind {
    Gemini,
    OpenAI,
    Ollama,
}

/// The backend named by an explicit provider name, if the name is one of them.
pub open spec fn named_provider(name: Seq<char>) -> Option<ProviderKind> {
    if name == "gemini"@ {
        Some(ProviderKind::Gemini)
    } else if name == "openai"@ {
        Some(ProviderKind::OpenAI)
    } else if name == "ollama"@ {
        Some(ProviderKind::Ollama)
    } else {
        None
    }
}

/// The backend inferred from the lowercase model name; Gemini by default.
pub open spec fn inferred_provider(lower_model: Seq<char>) -> ProviderKind {
    if has_prefix(lower_model, "gemini"@) {
        ProviderKind::Gemini
    } else if has_prefix(lower_model, "gpt-"@) {
        ProviderKind::OpenAI
    } else if has_prefix(lower_model, "ollama"@) {
        ProviderKind::Ollama
    } else {
        ProviderKind::Gemini
    }
}

/// The backend for an agent: its explicit provider where that names one,
/// else the one its model name points to.
pub open spec fn provider_for(provider: Option<Seq<char>>, model: Seq<char>) -> ProviderKind {
    match provider {
        Some(p) => match named_provider(lower_of(p)) {
            Some(k) => k,
            None => inferred_provider(lower_of(model)),
        },
        None => inferred_provider(lower_of(model)),
    }
}

pub fn select_provider(agent: &Agent) -> (r: ProviderKind)
    ensures
        r == provider_for(str_opt_view(agent.provider), agent.model@),
{
    if let Some(p) = &agent.provider {
        let lp = crate::text::lowercase(p.as_str());
        if crate::json::str_eq(lp.as_str(), "gemini") {
            return ProviderKind::Gemini;
        } else if crate::json::str_eq(lp.as_str(), "openai") {
            return ProviderKind::OpenAI;
        } else if crate::json::str_eq(lp.as_str(), "ollama") {
            return ProviderKind::Ollama;
        }
    }
    let model = crate::text::lowercase(agent.model.as_str());
    if crate::text::starts_with(model.as_str(), "gemini") {
        ProviderKind::Gemini
    } else if crate::text::starts_with(model.as_str(), "gpt-") {
        ProviderKind::OpenAI
    } else if crate::text::starts_with(model.as_str(), "ollama") {
        ProviderKind::Ollama
    } else {
        ProviderKind::Gemini
    }
}

impl ProviderKind {
    pub fn name(&self) -> (r: &'static str)
        ensures
            *self == ProviderKind::Gemini ==> r@ == "gemini"@,
            *self == ProviderKind::OpenAI ==> r@ == "openai"@,
            *self == ProviderKind::Ollama ==> r@ == "ollama"@,
    {
        match self {
            ProviderKind::Gemini => "gemini",
            ProviderKind::OpenAI => "openai",
            ProviderKind::Ollama => "ollama",
        }
    }

    /// The environment variable that held the key before structured configuration.
    pub fn api_key_env(&self) -> (r: &'static str)
        ensures
            *self == ProviderKind::Gemini ==> r@ == "GEMINI_API_KEY"@,
            *self == ProviderKind::OpenAI ==> r@ == "OPENAI_API_KEY"@,
            *self == ProviderKind::Ollama ==> r@ == "OLLAMA_API_KEY"@,
    {
        match self {
            ProviderKind::Gemini => "GEMINI_API_KEY",
            ProviderKind::OpenAI => "OPENAI_API_KEY",
            ProviderKind::Ollama => "OLLAMA_API_KEY",
        }
    }

    pub fn requires_api_key(&self) -> (r: bool)
        ensures
            r == (*self != ProviderKind::Ollama),
    {
        match self {
            ProviderKind::Ollama => false,
            _ => true,
        }
    }
}

} // verus!
