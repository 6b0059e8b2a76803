use relay::config::{
    expand_path, expand_path_with, finalize_config, import_config, import_json_config,
    import_toml_config, settings_path, toml_config_fallback, toml_fallback_path, Config,
};
use relay::error::RelayError;

#[test]
fn test_default_api_key_empty() {
    let cfg = Config::default();
    assert!(cfg.api_key.is_empty());
}

#[test]
fn test_toml_fallback() {
    let data = r#"api_key = "sk-test"
base_url = "https://custom.com"
model = "test-model""#;
    let cfg = toml_config_fallback(data);
    assert_eq!(cfg.api_key, "sk-test");
    assert_eq!(cfg.base_url, "https://custom.com");
    assert_eq!(cfg.model, "test-model");
}

#[test]
fn test_toml_fallback_ignores_comments() {
    let data = r#"# comment
[section]
key = "value"
api_key = "sk-real""#;
    let cfg = toml_config_fallback(data);
    assert_eq!(cfg.api_key, "sk-real");
}

#[test]
fn config_test_expand_tilde() {
    let p = expand_path("~/test.txt");
    assert!(p.contains("test.txt"));
}

#[test]
fn defaults_match_documentation() {
    let cfg = Config::default();
    assert_eq!(cfg.base_url, "https://api.deepseek.com");
    assert_eq!(cfg.model, "deepseek-chat");
    assert_eq!(cfg.max_tokens, 16384);
    assert_eq!(cfg.max_context_tokens, 128_000);
    assert_eq!(cfg.context_safety_margin, 4000);
    assert_eq!(cfg.max_tool_turns, 20);
    assert_eq!(cfg.retry_max_attempts, 3);
    assert_eq!(cfg.max_tool_output, 50_000);
    assert_eq!(cfg.max_stderr_output, 10_000);
    assert_eq!(cfg.default_mode, "auto");
    assert!(cfg.anti_stuck_enabled);
    assert_eq!(cfg.reflect_after_failures, 2);
    assert_eq!(cfg.max_failures_before_hard_stop, 4);
    assert!(cfg.compress_tool_history);
    assert!(cfg.memory_enabled);
    assert_eq!(cfg.memory_root, "auto");
    assert!(cfg.skill_enabled);
    assert_eq!(cfg.skill_dirs, vec!["~/.relay/skills".to_string()]);
    assert!(!cfg.dual_agent);
    assert_eq!(cfg.supervisor_max_turns, 3);
    assert!(cfg.enter_sends);
    assert_eq!(cfg.log_level, "WARNING");
}

#[test]
fn toml_last_assignment_wins_and_quotes_trimmed() {
    let data = "model = \"a\"\n  model =  \"b\"  \nbase_url=https://x.org\nnoise\n";
    let cfg = toml_config_fallback(data);
    assert_eq!(cfg.model, "b");
    assert_eq!(cfg.base_url, "https://x.org");
    assert_eq!(cfg.api_key, "");
}

#[test]
fn toml_fallback_of_empty_text_is_default() {
    let cfg = toml_config_fallback("");
    assert_eq!(cfg.base_url, "https://api.deepseek.com");
    assert_eq!(cfg.model, "deepseek-chat");
}

#[test]
fn test_import_toml() {
    let data = r#"api_key = "sk-test"
base_url = "https://test.com"
model = "test-model""#;
    let cfg = import_config("relay_test_setup/config.toml", Some(data));
    let get = |k: &str| cfg.iter().find(|(key, _)| key == k).map(|(_, v)| v.clone());
    assert_eq!(get("api_key").unwrap(), "sk-test");
    assert_eq!(get("base_url").unwrap(), "https://test.com");
    assert_eq!(get("model").unwrap(), "test-model");
}

#[test]
fn import_toml_from_text() {
    let data = "api_key = \"sk-test\"\nbase_url = \"https://test.com\"\nmodel = \"test-model\"";
    let pairs = import_toml_config(data);
    assert_eq!(
        pairs,
        vec![
            ("api_key".to_string(), "sk-test".to_string()),
            ("base_url".to_string(), "https://test.com".to_string()),
            ("model".to_string(), "test-model".to_string()),
        ]
    );
}

#[test]
fn import_toml_skips_absent_keys() {
    let pairs = import_toml_config("# nothing\nmodel = \"m\"");
    assert_eq!(pairs, vec![("model".to_string(), "m".to_string())]);
}

#[test]
fn import_json_takes_text_members() {
    let pairs = import_json_config(r#"{"model": "chat-model", "api_key": 5, "base_url": "https://b"}"#);
    assert_eq!(
        pairs,
        vec![
            ("base_url".to_string(), "https://b".to_string()),
            ("model".to_string(), "chat-model".to_string()),
        ]
    );
}

#[test]
fn import_json_of_non_object_is_empty() {
    assert!(import_json_config("[1, 2]").is_empty());
    assert!(import_json_config("not json").is_empty());
}

#[test]
fn import_config_picks_format_by_path() {
    let toml = "api_key = \"k\"";
    assert_eq!(
        import_config("/home/u/.deepseek/config.toml", Some(toml)),
        vec![("api_key".to_string(), "k".to_string())]
    );
    assert_eq!(
        import_config("/home/u/.othertool/settings.json", Some(r#"{"api_key": "j"}"#)),
        vec![("api_key".to_string(), "j".to_string())]
    );
    assert!(import_config("/home/u/.othertool/settings.json", None).is_empty());
}

#[test]
fn expand_path_with_home() {
    assert_eq!(expand_path_with("~/a/b", Some("/home/me".to_string())), "/home/me/a/b");
    assert_eq!(expand_path_with("~", Some("/home/me".to_string())), "/home/me");
    assert_eq!(expand_path_with("/etc/x", Some("/home/me".to_string())), "/etc/x");
    assert_eq!(expand_path_with("~/a", None), "~/a");
}

#[test]
fn settings_paths_end_in_their_files() {
    assert!(settings_path().ends_with(".relay/settings.json"));
    assert!(toml_fallback_path().ends_with(".deepseek/config.toml"));
}

#[test]
fn environment_overrides_settings() {
    let cfg = Config { api_key: "file-key".to_string(), ..Config::default() };
    let r = finalize_config(cfg, Some("env-key".to_string()), None, Some("env-model".to_string()));
    let c = r.unwrap();
    assert_eq!(c.api_key, "env-key");
    assert_eq!(c.model, "env-model");
    assert_eq!(c.base_url, "https://api.deepseek.com");
}

#[test]
fn missing_api_key_is_a_config_error() {
    let r = finalize_config(Config::default(), None, None, None);
    match r {
        Err(RelayError::Config(m)) => {
            assert_eq!(m, "API key not configured. Set DEEPSEEK_API_KEY or run first-time setup.")
        }
        _ => panic!("expected a configuration error"),
    }
}
