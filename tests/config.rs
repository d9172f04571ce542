use taskter::config::{
    apply_legacy_environment, board_path, clean_string, dir, env_flag, init, force_reload, provider_api_key,
    resolve_openai, ConfigError, ConfigOverrides, ConfigState, LegacyEnvironment, OpenAiSection, PathsSection,
    ProvidersSection, RawConfig,
};

fn raw(data_dir: &str) -> RawConfig {
    let mut paths = PathsSection::default();
    paths.data_dir = data_dir.to_string();
    RawConfig { paths, providers: ProvidersSection::default() }
}

#[test]
fn layering_respects_flag_env_and_file_order() {
    let mut state = ConfigState::new();
    let env = LegacyEnvironment::default();
    let mut overrides = ConfigOverrides { data_dir: Some("./from-flags".to_string()), ..ConfigOverrides::default() };
    overrides.config_file = Some("config.toml".to_string());
    init(&mut state, overrides, raw("./from-env"), &env, true).expect("init with overrides");
    assert_eq!(dir(&state).expect("dir"), "./from-flags");

    let overrides = ConfigOverrides { config_file: Some("config.toml".to_string()), ..ConfigOverrides::default() };
    init(&mut state, overrides, raw("./from-env"), &env, true).expect("init without flag override");
    assert_eq!(dir(&state).expect("dir"), "./from-env");

    force_reload(&mut state, raw("./from-config"), &env, true).expect("reload without env");
    assert_eq!(dir(&state).expect("dir"), "./from-config");
    assert_eq!(board_path(&state).expect("board"), "./from-config/board.json");
}

#[test]
fn paths_default_under_data_dir() {
    let mut state = ConfigState::new();
    assert_eq!(dir(&state), Err(ConfigError::NotInitialised));
    init(&mut state, ConfigOverrides::default(), raw(""), &LegacyEnvironment::default(), false).unwrap();
    assert_eq!(dir(&state).unwrap(), ".taskter");
    assert_eq!(board_path(&state).unwrap(), ".taskter/board.json");
}

#[test]
fn legacy_environment_fills_only_unset_values() {
    let mut r = raw(".taskter");
    r.providers.gemini.api_key = Some("from-file".to_string());
    let env = LegacyEnvironment {
        gemini_api_key: Some("from-env".to_string()),
        openai_api_key: Some("  ".to_string()),
        ollama_base_url: Some("http://x:1/".to_string()),
        ..LegacyEnvironment::default()
    };
    apply_legacy_environment(&mut r, &env);
    assert_eq!(r.providers.gemini.api_key.as_deref(), Some("from-file"));
    assert_eq!(r.providers.openai.api_key, None);
    assert_eq!(r.providers.ollama.base_url.as_deref(), Some("http://x:1/"));

    let mut state = ConfigState::new();
    init(&mut state, ConfigOverrides::default(), r, &LegacyEnvironment::default(), false).unwrap();
    assert_eq!(provider_api_key(&state, "gemini").unwrap().as_deref(), Some("from-file"));
    assert_eq!(provider_api_key(&state, "other").unwrap(), None);
    assert_eq!(taskter::config::ollama(&state).unwrap().base_url, "http://x:1");
}

#[test]
fn openai_settings_resolve() {
    let section = OpenAiSection {
        base_url: Some(" https://proxy.example/ ".to_string()),
        api_key: Some("  sk  ".to_string()),
        ..OpenAiSection::default()
    };
    let o = resolve_openai(section).unwrap();
    assert_eq!(o.base_url, "https://proxy.example");
    assert_eq!(o.responses_endpoint, "https://proxy.example/v1/responses");
    assert_eq!(o.chat_endpoint, "https://proxy.example/v1/chat/completions");
    assert_eq!(o.api_key.as_deref(), Some("sk"));
    let bad = OpenAiSection { response_format: Some("{oops".to_string()), ..OpenAiSection::default() };
    assert_eq!(resolve_openai(bad).err(), Some(ConfigError::InvalidResponseFormat));
    assert_eq!(clean_string(Some("   ".to_string())), None);
    assert_eq!(clean_string(Some("\u{3000}sk\u{a0}\n".to_string())), Some("sk".to_string()));
}

#[test]
fn flags_read_as_off_for_false_words() {
    assert!(!env_flag(None));
    assert!(!env_flag(Some(" FALSE ")));
    assert!(!env_flag(Some("Off")));
    assert!(!env_flag(Some("0")));
    assert!(env_flag(Some("1")));
    assert!(env_flag(Some("yes")));
}
