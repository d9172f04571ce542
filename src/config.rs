//! Configuration: data file paths and provider settings, merged from the
//! configuration sources, the legacy environment variables and command-line
//! overrides, in rising precedence.
use vstd::prelude::*;

use crate::providers::str_opt_view;
use crate::text::{ascii_lower, has_prefix, trim_end_char, trim_of};

verus! {

/// Default relative directory of the data files.
pub const DIR: &'static str = ".taskter";
pub const BOARD_FILE: &'static str = ".taskter/board.json";
pub const OKRS_FILE: &'static str = ".taskter/okrs.json";
pub const LOG_FILE: &'static str = ".taskter/logs.log";
pub const AGENTS_FILE: &'static str = ".taskter/agents.json";
pub const DESCRIPTION_FILE: &'static str = ".taskter/description.md";
pub const EMAIL_CONFIG_FILE: &'static str = ".taskter/email_config.json";
pub const RUNNING_AGENTS_FILE: &'static str = ".taskter/running_agents.json";
pub const RESPONSES_LOG_FILE: &'static str = ".taskter/api_responses.log";

/// Command-line overrides: they take precedence over every other source.
#[derive(Debug)]
pub struct ConfigOverrides {
    pub config_file: Option<String>,
    pub data_dir: Option<String>,
    pub board_file: Option<String>,
    pub okrs_file: Option<String>,
    pub log_file: Option<String>,
    pub agents_file: Option<String>,
    pub description_file: Option<String>,
    pub email_config_file: Option<String>,
    pub running_agents_file: Option<String>,
    pub responses_log_file: Option<String>,
    pub openai_api_key: Option<String>,
    pub openai_base_url: Option<String>,
    pub openai_responses_endpoint: Option<String>,
    pub openai_chat_endpoint: Option<String>,
    pub openai_request_style: Option<String>,
    pub openai_response_format: Option<String>,
    pub gemini_api_key: Option<String>,
    pub ollama_api_key: Option<String>,
    pub ollama_base_url: Option<String>,
}

impl Default for ConfigOverrides {
    /// No override at all.
    fn default() -> (r: ConfigOverrides)
        ensures
            r.config_file is None && r.data_dir is None && r.board_file is None && r.okrs_file is None
                && r.log_file is None && r.agents_file is None && r.description_file is None
                && r.email_config_file is None && r.running_agents_file is None
                && r.responses_log_file is None && r.openai_api_key is None && r.openai_base_url is None
                && r.openai_responses_endpoint is None && r.openai_chat_endpoint is None
                && r.openai_request_style is None && r.openai_response_format is None
                && r.gemini_api_key is None && r.ollama_api_key is None && r.ollama_base_url is None,
    {
        ConfigOverrides {
            config_file: None,
            data_dir: None,
            board_file: None,
            okrs_file: None,
            log_file: None,
            agents_file: None,
            description_file: None,
            email_config_file: None,
            running_agents_file: None,
            responses_log_file: None,
            openai_api_key: None,
            openai_base_url: None,
            openai_responses_endpoint: None,
            openai_chat_endpoint: None,
            openai_request_style: None,
            openai_response_format: None,
            gemini_api_key: None,
            ollama_api_key: None,
            ollama_base_url: None,
        }
    }
}

/// The `[paths]` section as the sources gave it.
#[derive(Debug)]
pub struct PathsSection {
    pub data_dir: String,
    pub board_file: Option<String>,
    pub okrs_file: Option<String>,
    pub log_file: Option<String>,
    pub agents_file: Option<String>,
    pub description_file: Option<String>,
    pub email_config_file: Option<String>,
    pub running_agents_file: Option<String>,
    pub responses_log_file: Option<String>,
}

#[derive(Debug, Default)]
pub struct OpenAiSection {
    pub api_key: Option<String>,
    pub base_url: Option<String>,
    pub responses_endpoint: Option<String>,
    pub chat_endpoint: Option<String>,
    pub request_style: Option<String>,
    pub response_format: Option<String>,
}

#[derive(Debug, Default)]
pub struct GeminiSection {
    pub api_key: Option<String>,
}

#[derive(Debug, Default)]
pub struct OllamaSection {
    pub api_key: Option<String>,
    pub base_url: Option<String>,
}

#[derive(Debug, Default)]
pub struct ProvidersSection {
    pub openai: OpenAiSection,
    pub gemini: GeminiSection,
    pub ollama: OllamaSection,
}

/// The configuration as the sources gave it.
#[derive(Debug)]
pub struct RawConfig {
    pub paths: PathsSection,
    pub providers: ProvidersSection,
}

/// The legacy environment variables, as read.
#[derive(Debug, Default)]
pub struct LegacyEnvironment {
    pub openai_api_key: Option<String>,
    pub openai_base_url: Option<String>,
    pub openai_responses_endpoint: Option<String>,
    pub openai_chat_endpoint: Option<String>,
    pub openai_request_style: Option<String>,
    pub openai_response_format: Option<String>,
    pub gemini_api_key: Option<String>,
    pub ollama_api_key: Option<String>,
    pub ollama_base_url: Option<String>,
}

#[derive(Debug)]
pub struct ResolvedPaths {
    pub data_dir: String,
    pub board: String,
    pub okrs: String,
    pub log: String,
    pub agents: String,
    pub description: String,
    pub email_config: String,
    pub running_agents: String,
    pub responses_log: String,
}

#[derive(Debug)]
pub struct OpenAiResolved {
    pub api_key: Option<String>,
    pub base_url: String,
    pub responses_endpoint: String,
    pub chat_endpoint: String,
    /// The Responses endpoint where one was configured explicitly.
    pub responses_endpoint_override: Option<String>,
    /// The Chat Completions endpoint where one was configured explicitly.
    pub chat_endpoint_override: Option<String>,
    pub request_style: Option<String>,
    pub response_format: Option<String>,
}

#[derive(Debug)]
pub struct GeminiResolved {
    pub api_key: Option<String>,
}

#[derive(Debug)]
pub struct OllamaResolved {
    pub api_key: Option<String>,
    pub base_url: String,
}

#[derive(Debug)]
pub struct ResolvedProviders {
    pub openai: OpenAiResolved,
    pub gemini: GeminiResolved,
    pub ollama: OllamaResolved,
}

#[derive(Debug)]
pub struct ResolvedConfig {
    pub paths: ResolvedPaths,
    pub providers: ResolvedProviders,
}

/// Why the configuration could not be resolved or read.
#[derive(Clone, Copy, Debug, PartialEq, Eq, Structural)]
pub enum ConfigError {
    /// The OpenAI `response_format` starts with `{` but is not JSON.
    InvalidResponseFormat,
    /// No configuration has been loaded yet.
    NotInitialised,
}

impl ConfigError {
    pub fn message(&self) -> (r: String)
        ensures
            *self == ConfigError::InvalidResponseFormat ==> r@
                == "OPENAI response_format override is not valid JSON"@,
            *self == ConfigError::NotInitialised ==> r@ == "configuration not initialised"@,
    {
        match self {
            ConfigError::InvalidResponseFormat => String::from_str(
                "OPENAI response_format override is not valid JSON",
            ),
            ConfigError::NotInitialised => String::from_str("configuration not initialised"),
        }
    }
}

impl PathsSection {
    /// Data in `.taskter`, every file at its default place.
    pub fn default() -> (r: PathsSection)
        ensures
            r.data_dir@ == DIR@,
            r.board_file is None,
            r.okrs_file is None,
            r.log_file is None,
            r.agents_file is None,
            r.description_file is None,
            r.email_config_file is None,
            r.running_agents_file is None,
            r.responses_log_file is None,
    {
        PathsSection {
            data_dir: String::from_str(DIR),
            board_file: None,
            okrs_file: None,
            log_file: None,
            agents_file: None,
            description_file: None,
            email_config_file: None,
            running_agents_file: None,
            responses_log_file: None,
        }
    }
}

/// A value trimmed, and dropped where nothing is left.
pub open spec fn cleaned(value: Option<Seq<char>>) -> Option<Seq<char>> {
    match value {
        Some(s) => if trim_of(s).len() == 0 {
            None
        } else {
            Some(trim_of(s))
        },
        None => None,
    }
}

pub fn clean_string(value: Option<String>) -> (r: Option<String>)
    ensures
        str_opt_view(r) == cleaned(str_opt_view(value)),
{
    match value {
        Some(s) => {
            let t = crate::text::trim(s.as_str());
            if t.unicode_len() == 0 {
                None
            } else {
                Some(String::from_str(t))
            }
        },
        None => None,
    }
}

/// A relative file name under a directory.
pub open spec fn joined(dir: Seq<char>, name: Seq<char>) -> Seq<char> {
    if dir.len() == 0 || dir.last() == '/' {
        dir + name
    } else {
        dir + "/"@ + name
    }
}

/// The explicit path where there is one, else `default_name` under the data directory.
pub open spec fn path_choice(data_dir: Seq<char>, explicit: Option<Seq<char>>, default_name: Seq<char>) -> Seq<char> {
    match explicit {
        Some(p) => p,
        None => joined(data_dir, default_name),
    }
}

/// `default_name` is a relative name under `data_dir`, unless a path is given.
pub fn resolve_path(data_dir: &str, explicit: Option<String>, default_name: &str) -> (r: String)
    ensures
        r@ == path_choice(data_dir@, str_opt_view(explicit), default_name@),
{
    match explicit {
        Some(p) => p,
        None => {
            let n = data_dir.unicode_len();
            if n == 0 || data_dir.get_char(n - 1) == '/' {
                String::from_str(data_dir).concat(default_name)
            } else {
                String::from_str(data_dir).concat("/").concat(default_name)
            }
        },
    }
}

pub open spec fn data_dir_of(p: &PathsSection) -> Seq<char> {
    if p.data_dir@.len() == 0 {
        DIR@
    } else {
        p.data_dir@
    }
}

/// The resolved paths of a `[paths]` section: the explicit path where the
/// section gives one, else the default name under the data directory
/// (`.taskter` where the section leaves it empty).
pub open spec fn paths_resolved(r: ResolvedPaths, paths: PathsSection) -> bool {
    &&& r.data_dir@ == data_dir_of(&paths)
    &&& r.board@ == path_choice(data_dir_of(&paths), str_opt_view(paths.board_file), "board.json"@)
    &&& r.okrs@ == path_choice(data_dir_of(&paths), str_opt_view(paths.okrs_file), "okrs.json"@)
    &&& r.log@ == path_choice(data_dir_of(&paths), str_opt_view(paths.log_file), "logs.log"@)
    &&& r.agents@ == path_choice(data_dir_of(&paths), str_opt_view(paths.agents_file), "agents.json"@)
    &&& r.description@ == path_choice(
        data_dir_of(&paths),
        str_opt_view(paths.description_file),
        "description.md"@,
    )
    &&& r.email_config@ == path_choice(
        data_dir_of(&paths),
        str_opt_view(paths.email_config_file),
        "email_config.json"@,
    )
    &&& r.running_agents@ == path_choice(
        data_dir_of(&paths),
        str_opt_view(paths.running_agents_file),
        "running_agents.json"@,
    )
    &&& r.responses_log@ == path_choice(
        data_dir_of(&paths),
        str_opt_view(paths.responses_log_file),
        "api_responses.log"@,
    )
}

/// Resolves every path of a `[paths]` section.
pub fn resolve_paths(paths: PathsSection) -> (r: ResolvedPaths)
    ensures
        paths_resolved(r, paths),
{
    let data_dir = if paths.data_dir.as_str().unicode_len() == 0 {
        String::from_str(DIR)
    } else {
        paths.data_dir
    };
    let d = data_dir.as_str();
    let board = resolve_path(d, paths.board_file, "board.json");
    let okrs = resolve_path(d, paths.okrs_file, "okrs.json");
    let log = resolve_path(d, paths.log_file, "logs.log");
    let agents = resolve_path(d, paths.agents_file, "agents.json");
    let description = resolve_path(d, paths.description_file, "description.md");
    let email_config = resolve_path(d, paths.email_config_file, "email_config.json");
    let running_agents = resolve_path(d, paths.running_agents_file, "running_agents.json");
    let responses_log = resolve_path(d, paths.responses_log_file, "api_responses.log");
    ResolvedPaths {
        data_dir,
        board,
        okrs,
        log,
        agents,
        description,
        email_config,
        running_agents,
        responses_log,
    }
}

/// The cleaned value where it is not empty, else the default.
pub open spec fn cleaned_or(value: Option<Seq<char>>, default: Seq<char>) -> Seq<char> {
    match cleaned(value) {
        Some(s) => s,
        None => default,
    }
}

/// The OpenAI base URL without trailing slashes.
pub open spec fn openai_base(section: &OpenAiSection) -> Seq<char> {
    trim_end_char(cleaned_or(str_opt_view(section.base_url), "https://api.openai.com"@), '/')
}

/// The cleaned format is a JSON object text that does not parse.
pub open spec fn bad_format(format: Option<Seq<char>>) -> bool {
    match cleaned(format) {
        Some(raw) => has_prefix(raw, "{"@) && crate::wire::parsed_json(raw) is None,
        None => false,
    }
}

/// The cleaned `response_format` is a JSON object text that does not parse.
pub open spec fn bad_response_format(section: &OpenAiSection) -> bool {
    bad_format(str_opt_view(section.response_format))
}

/// The resolved OpenAI settings of a section: each value cleaned, the base
/// URL defaulted and without trailing slashes, each endpoint the explicit one
/// or the base URL joined with its path.
pub open spec fn openai_resolved(o: OpenAiResolved, section: OpenAiSection) -> bool {
    &&& str_opt_view(o.api_key) == cleaned(str_opt_view(section.api_key))
    &&& o.base_url@ == openai_base(&section)
    &&& str_opt_view(o.responses_endpoint_override) == cleaned(str_opt_view(section.responses_endpoint))
    &&& str_opt_view(o.chat_endpoint_override) == cleaned(str_opt_view(section.chat_endpoint))
    &&& o.responses_endpoint@ == cleaned_or(
        str_opt_view(section.responses_endpoint),
        openai_base(&section) + "/v1/responses"@,
    )
    &&& o.chat_endpoint@ == cleaned_or(
        str_opt_view(section.chat_endpoint),
        openai_base(&section) + "/v1/chat/completions"@,
    )
    &&& str_opt_view(o.request_style) == cleaned(str_opt_view(section.request_style))
    &&& str_opt_view(o.response_format) == cleaned(str_opt_view(section.response_format))
}

pub fn resolve_openai(section: OpenAiSection) -> (r: Result<OpenAiResolved, ConfigError>)
    ensures
        r is Err <==> bad_response_format(&section),
        r is Err ==> r->Err_0 == ConfigError::InvalidResponseFormat,
        r is Ok ==> openai_resolved(r->Ok_0, section),
{
    let base_url = match clean_string(section.base_url) {
        Some(b) => b,
        None => String::from_str("https://api.openai.com"),
    };
    let normalized_base = crate::text::trim_end_slashes(base_url.as_str());
    let responses_endpoint_override = clean_string(section.responses_endpoint);
    let responses_endpoint = match &responses_endpoint_override {
        Some(e) => e.clone(),
        None => normalized_base.clone().concat("/v1/responses"),
    };
    let chat_endpoint_override = clean_string(section.chat_endpoint);
    let chat_endpoint = match &chat_endpoint_override {
        Some(e) => e.clone(),
        None => normalized_base.clone().concat("/v1/chat/completions"),
    };
    let response_format = clean_string(section.response_format);
    if let Some(raw) = &response_format {
        if crate::text::starts_with(raw.as_str(), "{") {
            if crate::wire::parse_json(raw.as_str()).is_none() {
                return Err(ConfigError::InvalidResponseFormat);
            }
        }
    }
    Ok(
        OpenAiResolved {
            api_key: clean_string(section.api_key),
            base_url: normalized_base,
            responses_endpoint,
            chat_endpoint,
            responses_endpoint_override,
            chat_endpoint_override,
            request_style: clean_string(section.request_style),
            response_format,
        },
    )
}

pub open spec fn gemini_resolved(g: GeminiResolved, section: GeminiSection) -> bool {
    str_opt_view(g.api_key) == cleaned(str_opt_view(section.api_key))
}

pub fn resolve_gemini(section: GeminiSection) -> (r: GeminiResolved)
    ensures
        gemini_resolved(r, section),
{
    GeminiResolved { api_key: clean_string(section.api_key) }
}

/// The resolved Ollama settings: the key cleaned, the base URL defaulted and
/// without trailing slashes.
pub open spec fn ollama_resolved(o: OllamaResolved, section: OllamaSection) -> bool {
    &&& str_opt_view(o.api_key) == cleaned(str_opt_view(section.api_key))
    &&& o.base_url@ == trim_end_char(cleaned_or(str_opt_view(section.base_url), "http://localhost:11434"@), '/')
}

pub fn resolve_ollama(section: OllamaSection) -> (r: OllamaResolved)
    ensures
        ollama_resolved(r, section),
{
    let base_url = match clean_string(section.base_url) {
        Some(b) => b,
        None => String::from_str("http://localhost:11434"),
    };
    OllamaResolved {
        api_key: clean_string(section.api_key),
        base_url: crate::text::trim_end_slashes(base_url.as_str()),
    }
}

pub open spec fn providers_resolved(r: ResolvedProviders, p: ProvidersSection) -> bool {
    &&& openai_resolved(r.openai, p.openai)
    &&& gemini_resolved(r.gemini, p.gemini)
    &&& ollama_resolved(r.ollama, p.ollama)
}

pub fn resolve_providers(providers: ProvidersSection) -> (r: Result<ResolvedProviders, ConfigError>)
    ensures
        r is Err <==> bad_response_format(&providers.openai),
        r is Err ==> r->Err_0 == ConfigError::InvalidResponseFormat,
        r is Ok ==> providers_resolved(r->Ok_0, providers),
{
    let openai = match resolve_openai(providers.openai) {
        Ok(o) => o,
        Err(e) => {
            return Err(e);
        },
    };
    let gemini = resolve_gemini(providers.gemini);
    let ollama = resolve_ollama(providers.ollama);
    Ok(ResolvedProviders { openai, gemini, ollama })
}

/// The configuration resolved from merged sources.
pub open spec fn config_resolved(c: ResolvedConfig, raw: RawConfig) -> bool {
    paths_resolved(c.paths, raw.paths) && providers_resolved(c.providers, raw.providers)
}

/// Resolves paths and providers.
pub fn resolve(raw: RawConfig) -> (r: Result<ResolvedConfig, ConfigError>)
    ensures
        r is Err <==> bad_response_format(&raw.providers.openai),
        r is Err ==> r->Err_0 == ConfigError::InvalidResponseFormat,
        r is Ok ==> config_resolved(r->Ok_0, raw),
{
    let paths = resolve_paths(raw.paths);
    let providers = match resolve_providers(raw.providers) {
        Ok(p) => p,
        Err(e) => {
            return Err(e);
        },
    };
    Ok(ResolvedConfig { paths, providers })
}

impl ResolvedProviders {
    /// The key configured for a provider name.
    pub fn api_key_for(&self, provider: &str) -> (r: Option<String>)
        ensures
            provider@ == "openai"@ ==> r == self.openai.api_key,
            provider@ == "gemini"@ ==> r == self.gemini.api_key,
            provider@ == "ollama"@ ==> r == self.ollama.api_key,
            provider@ != "openai"@ && provider@ != "gemini"@ && provider@ != "ollama"@ ==> r is None,
    {
        proof {
            reveal_strlit("openai");
            reveal_strlit("gemini");
            reveal_strlit("ollama");
            assert("gemini"@[0] != "openai"@[0]);
            assert("ollama"@[1] != "openai"@[1]);
            assert("ollama"@[0] != "gemini"@[0]);
        }
        if crate::json::str_eq(provider, "openai") {
            copy_opt(&self.openai.api_key)
        } else if crate::json::str_eq(provider, "gemini") {
            copy_opt(&self.gemini.api_key)
        } else if crate::json::str_eq(provider, "ollama") {
            copy_opt(&self.ollama.api_key)
        } else {
            None
        }
    }
}

pub fn copy_opt(o: &Option<String>) -> (r: Option<String>)
    ensures
        r == *o,
{
    match o {
        Some(s) => Some(s.clone()),
        None => None,
    }
}

/// The override where it is given, else the current value.
pub open spec fn overridden(o: Option<String>, cur: Option<String>) -> Option<String> {
    match o {
        Some(v) => Some(v),
        None => cur,
    }
}

fn override_opt(o: &Option<String>, cur: &mut Option<String>)
    ensures
        *final(cur) == overridden(*o, *old(cur)),
{
    match o {
        Some(v) => {
            *cur = Some(v.clone());
        },
        None => {},
    }
}

/// Applies the command-line overrides over the merged sources.
pub fn apply_cli_overrides(raw: &mut RawConfig, overrides: &ConfigOverrides)
    ensures
        final(raw).paths.data_dir == match overrides.data_dir {
            Some(d) => d,
            None => old(raw).paths.data_dir,
        },
        final(raw).paths.board_file == overridden(overrides.board_file, old(raw).paths.board_file),
        final(raw).paths.okrs_file == overridden(overrides.okrs_file, old(raw).paths.okrs_file),
        final(raw).paths.log_file == overridden(overrides.log_file, old(raw).paths.log_file),
        final(raw).paths.agents_file == overridden(overrides.agents_file, old(raw).paths.agents_file),
        final(raw).paths.description_file == overridden(
            overrides.description_file,
            old(raw).paths.description_file,
        ),
        final(raw).paths.email_config_file == overridden(
            overrides.email_config_file,
            old(raw).paths.email_config_file,
        ),
        final(raw).paths.running_agents_file == overridden(
            overrides.running_agents_file,
            old(raw).paths.running_agents_file,
        ),
        final(raw).paths.responses_log_file == overridden(
            overrides.responses_log_file,
            old(raw).paths.responses_log_file,
        ),
        final(raw).providers.openai.api_key == overridden(
            overrides.openai_api_key,
            old(raw).providers.openai.api_key,
        ),
        final(raw).providers.openai.base_url == overridden(
            overrides.openai_base_url,
            old(raw).providers.openai.base_url,
        ),
        final(raw).providers.openai.responses_endpoint == overridden(
            overrides.openai_responses_endpoint,
            old(raw).providers.openai.responses_endpoint,
        ),
        final(raw).providers.openai.chat_endpoint == overridden(
            overrides.openai_chat_endpoint,
            old(raw).providers.openai.chat_endpoint,
        ),
        final(raw).providers.openai.request_style == overridden(
            overrides.openai_request_style,
            old(raw).providers.openai.request_style,
        ),
        final(raw).providers.openai.response_format == overridden(
            overrides.openai_response_format,
            old(raw).providers.openai.response_format,
        ),
        final(raw).providers.gemini.api_key == overridden(
            overrides.gemini_api_key,
            old(raw).providers.gemini.api_key,
        ),
        final(raw).providers.ollama.api_key == overridden(
            overrides.ollama_api_key,
            old(raw).providers.ollama.api_key,
        ),
        final(raw).providers.ollama.base_url == overridden(
            overrides.ollama_base_url,
            old(raw).providers.ollama.base_url,
        ),
{
    if let Some(dir) = &overrides.data_dir {
        raw.paths.data_dir = dir.clone();
    }
    override_opt(&overrides.board_file, &mut raw.paths.board_file);
    override_opt(&overrides.okrs_file, &mut raw.paths.okrs_file);
    override_opt(&overrides.log_file, &mut raw.paths.log_file);
    override_opt(&overrides.agents_file, &mut raw.paths.agents_file);
    override_opt(&overrides.description_file, &mut raw.paths.description_file);
    override_opt(&overrides.email_config_file, &mut raw.paths.email_config_file);
    override_opt(&overrides.running_agents_file, &mut raw.paths.running_agents_file);
    override_opt(&overrides.responses_log_file, &mut raw.paths.responses_log_file);
    override_opt(&overrides.openai_api_key, &mut raw.providers.openai.api_key);
    override_opt(&overrides.openai_base_url, &mut raw.providers.openai.base_url);
    override_opt(&overrides.openai_responses_endpoint, &mut raw.providers.openai.responses_endpoint);
    override_opt(&overrides.openai_chat_endpoint, &mut raw.providers.openai.chat_endpoint);
    override_opt(&overrides.openai_request_style, &mut raw.providers.openai.request_style);
    override_opt(&overrides.openai_response_format, &mut raw.providers.openai.response_format);
    override_opt(&overrides.gemini_api_key, &mut raw.providers.gemini.api_key);
    override_opt(&overrides.ollama_api_key, &mut raw.providers.ollama.api_key);
    override_opt(&overrides.ollama_base_url, &mut raw.providers.ollama.base_url);
}

/// The current value where there is one, else a legacy value that is not blank.
pub open spec fn with_legacy(cur: Option<String>, env: Option<String>) -> Option<String> {
    match cur {
        Some(c) => Some(c),
        None => match env {
            Some(v) => if trim_of(v@).len() > 0 {
                Some(v)
            } else {
                None
            },
            None => None,
        },
    }
}

fn legacy_opt(env: &Option<String>, cur: &mut Option<String>)
    ensures
        *final(cur) == with_legacy(*old(cur), *env),
{
    if cur.is_none() {
        if let Some(v) = env {
            if crate::text::trim(v.as_str()).unicode_len() > 0 {
                *cur = Some(v.clone());
            }
        }
    }
}

/// Fills each provider setting that the sources left unset from its legacy
/// environment variable, where that is not blank.
pub fn apply_legacy_environment(raw: &mut RawConfig, env: &LegacyEnvironment)
    ensures
        final(raw).paths == old(raw).paths,
        final(raw).providers.openai.api_key == with_legacy(old(raw).providers.openai.api_key, env.openai_api_key),
        final(raw).providers.openai.base_url == with_legacy(
            old(raw).providers.openai.base_url,
            env.openai_base_url,
        ),
        final(raw).providers.openai.responses_endpoint == with_legacy(
            old(raw).providers.openai.responses_endpoint,
            env.openai_responses_endpoint,
        ),
        final(raw).providers.openai.chat_endpoint == with_legacy(
            old(raw).providers.openai.chat_endpoint,
            env.openai_chat_endpoint,
        ),
        final(raw).providers.openai.request_style == with_legacy(
            old(raw).providers.openai.request_style,
            env.openai_request_style,
        ),
        final(raw).providers.openai.response_format == with_legacy(
            old(raw).providers.openai.response_format,
            env.openai_response_format,
        ),
        final(raw).providers.gemini.api_key == with_legacy(old(raw).providers.gemini.api_key, env.gemini_api_key),
        final(raw).providers.ollama.api_key == with_legacy(old(raw).providers.ollama.api_key, env.ollama_api_key),
        final(raw).providers.ollama.base_url == with_legacy(
            old(raw).providers.ollama.base_url,
            env.ollama_base_url,
        ),
{
    legacy_opt(&env.openai_api_key, &mut raw.providers.openai.api_key);
    legacy_opt(&env.openai_base_url, &mut raw.providers.openai.base_url);
    legacy_opt(&env.openai_responses_endpoint, &mut raw.providers.openai.responses_endpoint);
    legacy_opt(&env.openai_chat_endpoint, &mut raw.providers.openai.chat_endpoint);
    legacy_opt(&env.openai_request_style, &mut raw.providers.openai.request_style);
    legacy_opt(&env.openai_response_format, &mut raw.providers.openai.response_format);
    legacy_opt(&env.gemini_api_key, &mut raw.providers.gemini.api_key);
    legacy_opt(&env.ollama_api_key, &mut raw.providers.ollama.api_key);
    legacy_opt(&env.ollama_base_url, &mut raw.providers.ollama.base_url);
}

/// Equal up to ASCII case.
pub open spec fn eq_ascii_case(a: Seq<char>, b: Seq<char>) -> bool {
    a.len() == b.len() && forall|i: int| 0 <= i < a.len() ==> ascii_lower(#[trigger] a[i]) == ascii_lower(b[i])
}

fn lower_char(c: char) -> (r: char)
    ensures
        r == ascii_lower(c),
{
    if 'A' <= c && c <= 'Z' {
        let u = ((c as u32) + 32) as u8;
        u as char
    } else {
        c
    }
}

pub fn eq_ignore_ascii_case(a: &str, b: &str) -> (r: bool)
    ensures
        r == eq_ascii_case(a@, b@),
{
    let n = a.unicode_len();
    if n != b.unicode_len() {
        return false;
    }
    let mut i: usize = 0;
    while i < n
        invariant
            n == a@.len(),
            n == b@.len(),
            i <= n,
            forall|j: int| 0 <= j < i ==> ascii_lower(#[trigger] a@[j]) == ascii_lower(b@[j]),
        decreases n - i,
    {
        if lower_char(a.get_char(i)) != lower_char(b.get_char(i)) {
            return false;
        }
        i = i + 1;
    }
    true
}

/// A flag variable is on unless it is unset, blank, `0`, `false` or `off` (in any ASCII case).
pub open spec fn flag_on(value: Option<Seq<char>>) -> bool {
    match value {
        Some(v) => {
            let t = trim_of(v);
            !(t.len() == 0 || eq_ascii_case(t, "0"@) || eq_ascii_case(t, "false"@) || eq_ascii_case(
                t,
                "off"@,
            ))
        },
        None => false,
    }
}

pub fn env_flag(value: Option<&str>) -> (r: bool)
    ensures
        r == flag_on(crate::providers::openai::opt_str(value)),
{
    match value {
        Some(v) => {
            let t = crate::text::trim(v);
            !(t.unicode_len() == 0 || eq_ignore_ascii_case(t, "0") || eq_ignore_ascii_case(t, "false")
                || eq_ignore_ascii_case(t, "off"))
        },
        None => false,
    }
}

/// Host configuration (the dotenv file, the user's configuration file and the
/// legacy variables) is off where `TASKTER_DISABLE_HOST_CONFIG` is on.
pub fn host_config_disabled(flag: Option<&str>) -> (r: bool)
    ensures
        r == flag_on(crate::providers::openai::opt_str(flag)),
{
    env_flag(flag)
}

/// A provider setting after the legacy variable, unless host configuration is off.
pub open spec fn legacy_unless(host_disabled: bool, cur: Option<String>, env: Option<String>) -> Option<String> {
    if host_disabled {
        cur
    } else {
        with_legacy(cur, env)
    }
}

/// The sources merged, in rising precedence: the configuration sources, the
/// legacy variables (unless host configuration is off), the command line.
pub open spec fn merged(raw: RawConfig, legacy: LegacyEnvironment, host_disabled: bool, o: ConfigOverrides) -> RawConfig {
    let po = raw.providers.openai;
    RawConfig {
        paths: PathsSection {
            data_dir: match o.data_dir {
                Some(d) => d,
                None => raw.paths.data_dir,
            },
            board_file: overridden(o.board_file, raw.paths.board_file),
            okrs_file: overridden(o.okrs_file, raw.paths.okrs_file),
            log_file: overridden(o.log_file, raw.paths.log_file),
            agents_file: overridden(o.agents_file, raw.paths.agents_file),
            description_file: overridden(o.description_file, raw.paths.description_file),
            email_config_file: overridden(o.email_config_file, raw.paths.email_config_file),
            running_agents_file: overridden(o.running_agents_file, raw.paths.running_agents_file),
            responses_log_file: overridden(o.responses_log_file, raw.paths.responses_log_file),
        },
        providers: ProvidersSection {
            openai: OpenAiSection {
                api_key: overridden(o.openai_api_key, legacy_unless(host_disabled, po.api_key, legacy.openai_api_key)),
                base_url: overridden(o.openai_base_url, legacy_unless(host_disabled, po.base_url, legacy.openai_base_url)),
                responses_endpoint: overridden(
                    o.openai_responses_endpoint,
                    legacy_unless(host_disabled, po.responses_endpoint, legacy.openai_responses_endpoint),
                ),
                chat_endpoint: overridden(
                    o.openai_chat_endpoint,
                    legacy_unless(host_disabled, po.chat_endpoint, legacy.openai_chat_endpoint),
                ),
                request_style: overridden(
                    o.openai_request_style,
                    legacy_unless(host_disabled, po.request_style, legacy.openai_request_style),
                ),
                response_format: overridden(
                    o.openai_response_format,
                    legacy_unless(host_disabled, po.response_format, legacy.openai_response_format),
                ),
            },
            gemini: GeminiSection {
                api_key: overridden(
                    o.gemini_api_key,
                    legacy_unless(host_disabled, raw.providers.gemini.api_key, legacy.gemini_api_key),
                ),
            },
            ollama: OllamaSection {
                api_key: overridden(
                    o.ollama_api_key,
                    legacy_unless(host_disabled, raw.providers.ollama.api_key, legacy.ollama_api_key),
                ),
                base_url: overridden(
                    o.ollama_base_url,
                    legacy_unless(host_disabled, raw.providers.ollama.base_url, legacy.ollama_base_url),
                ),
            },
        },
    }
}

/// Merges the sources: the legacy variables (unless host configuration is
/// off), then the command-line overrides; then resolves.
pub fn load_config(
    raw: RawConfig,
    legacy: &LegacyEnvironment,
    host_disabled: bool,
    overrides: &ConfigOverrides,
) -> (r: Result<ResolvedConfig, ConfigError>)
    ensures
        r is Err <==> bad_response_format(&merged(raw, *legacy, host_disabled, *overrides).providers.openai),
        r is Err ==> r->Err_0 == ConfigError::InvalidResponseFormat,
        r is Ok ==> config_resolved(r->Ok_0, merged(raw, *legacy, host_disabled, *overrides)),
{
    let mut m = raw;
    if !host_disabled {
        apply_legacy_environment(&mut m, legacy);
    }
    apply_cli_overrides(&mut m, overrides);
    assert(m == merged(raw, *legacy, host_disabled, *overrides));
    resolve(m)
}

/// The process's configuration: the last overrides and what they resolved to.
pub struct ConfigState {
    pub overrides: ConfigOverrides,
    pub resolved: Option<ResolvedConfig>,
}

impl ConfigState {
    pub fn new() -> (r: ConfigState)
        ensures
            r.resolved is None,
    {
        ConfigState { overrides: ConfigOverrides::default(), resolved: None }
    }
}

/// Keeps the overrides and resolves the configuration with them.
pub fn init(
    state: &mut ConfigState,
    overrides: ConfigOverrides,
    raw: RawConfig,
    legacy: &LegacyEnvironment,
    host_disabled: bool,
) -> (r: Result<(), ConfigError>)
    ensures
        final(state).overrides == overrides,
        r is Err <==> bad_response_format(&merged(raw, *legacy, host_disabled, overrides).providers.openai),
        r is Ok ==> final(state).resolved is Some && config_resolved(
            final(state).resolved->0,
            merged(raw, *legacy, host_disabled, overrides),
        ),
        r is Err ==> final(state).resolved == old(state).resolved,
{
    let cfg = load_config(raw, legacy, host_disabled, &overrides);
    state.overrides = overrides;
    match cfg {
        Ok(c) => {
            state.resolved = Some(c);
            Ok(())
        },
        Err(e) => Err(e),
    }
}

/// Resolves the configuration again with the overrides kept by [`init`].
pub fn force_reload(state: &mut ConfigState, raw: RawConfig, legacy: &LegacyEnvironment, host_disabled: bool) -> (r:
    Result<(), ConfigError>)
    ensures
        final(state).overrides == old(state).overrides,
        r is Err <==> bad_response_format(&merged(raw, *legacy, host_disabled, old(state).overrides).providers.openai),
        r is Ok ==> final(state).resolved is Some && config_resolved(
            final(state).resolved->0,
            merged(raw, *legacy, host_disabled, old(state).overrides),
        ),
        r is Err ==> final(state).resolved == old(state).resolved,
{
    match load_config(raw, legacy, host_disabled, &state.overrides) {
        Ok(c) => {
            state.resolved = Some(c);
            Ok(())
        },
        Err(e) => Err(e),
    }
}

/// Resolves the configuration where nothing has been resolved yet.
pub fn ensure_initialized(
    state: &mut ConfigState,
    raw: RawConfig,
    legacy: &LegacyEnvironment,
    host_disabled: bool,
) -> (r: Result<(), ConfigError>)
    ensures
        final(state).overrides == old(state).overrides,
        old(state).resolved is Some ==> r is Ok && final(state).resolved == old(state).resolved,
        old(state).resolved is None ==> (r is Err <==> bad_response_format(
            &merged(raw, *legacy, host_disabled, old(state).overrides).providers.openai,
        )),
        old(state).resolved is None && r is Ok ==> final(state).resolved is Some && config_resolved(
            final(state).resolved->0,
            merged(raw, *legacy, host_disabled, old(state).overrides),
        ),
        r is Ok ==> final(state).resolved is Some,
{
    if state.resolved.is_some() {
        return Ok(());
    }
    force_reload(state, raw, legacy, host_disabled)
}

/// The resolved configuration, or `NotInitialised`.
pub fn state(cfg: &ConfigState) -> (r: Result<&ResolvedConfig, ConfigError>)
    ensures
        cfg.resolved is None <==> r is Err,
        r is Err ==> r->Err_0 == ConfigError::NotInitialised,
        r is Ok ==> *r->Ok_0 == cfg.resolved->0,
{
    match &cfg.resolved {
        Some(c) => Ok(c),
        None => Err(ConfigError::NotInitialised),
    }
}

/// A path of the resolved configuration.
pub open spec fn resolved_path(state: &ConfigState, r: Result<String, ConfigError>, pick: spec_fn(ResolvedPaths) -> String) -> bool {
    match state.resolved {
        Some(c) => r is Ok && r->Ok_0 == pick(c.paths),
        None => r == Err::<String, ConfigError>(ConfigError::NotInitialised),
    }
}

/// Path to the data directory.
pub fn dir(cfg: &ConfigState) -> (r: Result<String, ConfigError>)
    ensures
        resolved_path(cfg, r, |p: ResolvedPaths| p.data_dir),
{
    match state(cfg) {
        Ok(c) => Ok(c.paths.data_dir.clone()),
        Err(e) => Err(e),
    }
}

/// Path to the Kanban board JSON file.
pub fn board_path(cfg: &ConfigState) -> (r: Result<String, ConfigError>)
    ensures
        resolved_path(cfg, r, |p: ResolvedPaths| p.board),
{
    match state(cfg) {
        Ok(c) => Ok(c.paths.board.clone()),
        Err(e) => Err(e),
    }
}

/// Path to the OKRs JSON file.
pub fn okrs_path(cfg: &ConfigState) -> (r: Result<String, ConfigError>)
    ensures
        resolved_path(cfg, r, |p: ResolvedPaths| p.okrs),
{
    match state(cfg) {
        Ok(c) => Ok(c.paths.okrs.clone()),
        Err(e) => Err(e),
    }
}

/// Path to the execution log.
pub fn log_path(cfg: &ConfigState) -> (r: Result<String, ConfigError>)
    ensures
        resolved_path(cfg, r, |p: ResolvedPaths| p.log),
{
    match state(cfg) {
        Ok(c) => Ok(c.paths.log.clone()),
        Err(e) => Err(e),
    }
}

/// Path to the agents registry JSON file.
pub fn agents_path(cfg: &ConfigState) -> (r: Result<String, ConfigError>)
    ensures
        resolved_path(cfg, r, |p: ResolvedPaths| p.agents),
{
    match state(cfg) {
        Ok(c) => Ok(c.paths.agents.clone()),
        Err(e) => Err(e),
    }
}

/// Path to the project description file.
pub fn description_path(cfg: &ConfigState) -> (r: Result<String, ConfigError>)
    ensures
        resolved_path(cfg, r, |p: ResolvedPaths| p.description),
{
    match state(cfg) {
        Ok(c) => Ok(c.paths.description.clone()),
        Err(e) => Err(e),
    }
}

/// Path to the email configuration file.
pub fn email_config_path(cfg: &ConfigState) -> (r: Result<String, ConfigError>)
    ensures
        resolved_path(cfg, r, |p: ResolvedPaths| p.email_config),
{
    match state(cfg) {
        Ok(c) => Ok(c.paths.email_config.clone()),
        Err(e) => Err(e),
    }
}

/// Path to the running-agents file.
pub fn running_agents_path(cfg: &ConfigState) -> (r: Result<String, ConfigError>)
    ensures
        resolved_path(cfg, r, |p: ResolvedPaths| p.running_agents),
{
    match state(cfg) {
        Ok(c) => Ok(c.paths.running_agents.clone()),
        Err(e) => Err(e),
    }
}

/// Path to the debug log of API responses.
pub fn responses_log_path(cfg: &ConfigState) -> (r: Result<String, ConfigError>)
    ensures
        resolved_path(cfg, r, |p: ResolvedPaths| p.responses_log),
{
    match state(cfg) {
        Ok(c) => Ok(c.paths.responses_log.clone()),
        Err(e) => Err(e),
    }
}

/// The resolved OpenAI settings.
pub fn openai(cfg: &ConfigState) -> (r: Result<&OpenAiResolved, ConfigError>)
    ensures
        cfg.resolved is None <==> r is Err,
        r is Ok ==> *r->Ok_0 == cfg.resolved->0.providers.openai,
{
    match state(cfg) {
        Ok(c) => Ok(&c.providers.openai),
        Err(e) => Err(e),
    }
}

/// The resolved Gemini settings.
pub fn gemini(cfg: &ConfigState) -> (r: Result<&GeminiResolved, ConfigError>)
    ensures
        cfg.resolved is None <==> r is Err,
        r is Ok ==> *r->Ok_0 == cfg.resolved->0.providers.gemini,
{
    match state(cfg) {
        Ok(c) => Ok(&c.providers.gemini),
        Err(e) => Err(e),
    }
}

/// The resolved Ollama settings.
pub fn ollama(cfg: &ConfigState) -> (r: Result<&OllamaResolved, ConfigError>)
    ensures
        cfg.resolved is None <==> r is Err,
        r is Ok ==> *r->Ok_0 == cfg.resolved->0.providers.ollama,
{
    match state(cfg) {
        Ok(c) => Ok(&c.providers.ollama),
        Err(e) => Err(e),
    }
}

/// The API key configured for a provider name.
pub fn provider_api_key(cfg: &ConfigState, provider: &str) -> (r: Result<Option<String>, ConfigError>)
    ensures
        cfg.resolved is None <==> r is Err,
        r is Ok && provider@ == "openai"@ ==> r->Ok_0 == cfg.resolved->0.providers.openai.api_key,
        r is Ok && provider@ == "gemini"@ ==> r->Ok_0 == cfg.resolved->0.providers.gemini.api_key,
        r is Ok && provider@ == "ollama"@ ==> r->Ok_0 == cfg.resolved->0.providers.ollama.api_key,
        r is Ok && provider@ != "openai"@ && provider@ != "gemini"@ && provider@ != "ollama"@ ==> r->Ok_0 is None,
{
    match state(cfg) {
        Ok(c) => Ok(c.providers.api_key_for(provider)),
        Err(e) => Err(e),
    }
}

/// The adapters' settings from the resolved configuration.
pub fn provider_settings(cfg: &ResolvedConfig) -> (r: crate::engine::ProviderSettings)
    ensures
        r.openai_request_style == cfg.providers.openai.request_style,
        r.openai_response_format == cfg.providers.openai.response_format,
        r.openai_base_url == cfg.providers.openai.base_url,
        r.openai_responses_endpoint == cfg.providers.openai.responses_endpoint_override,
        r.openai_chat_endpoint == cfg.providers.openai.chat_endpoint_override,
        r.ollama_base_url == cfg.providers.ollama.base_url,
{
    crate::engine::ProviderSettings {
        openai_request_style: copy_opt(&cfg.providers.openai.request_style),
        openai_base_url: cfg.providers.openai.base_url.clone(),
        openai_responses_endpoint: copy_opt(&cfg.providers.openai.responses_endpoint_override),
        openai_chat_endpoint: copy_opt(&cfg.providers.openai.chat_endpoint_override),
        openai_response_format: copy_opt(&cfg.providers.openai.response_format),
        ollama_base_url: cfg.providers.ollama.base_url.clone(),
    }
}

} // verus!
