use openwebui_chat::config::{
    config_required_endpoints, default_poll_interval, default_timeout, Config, ConfigError,
    EnvConfig, TomlConfig,
};
use openwebui_chat::paths::{config_path_in, session_path, session_path_in};
use openwebui_chat::text::{decimal_string, parse_u64};

fn no_env() -> EnvConfig {
    EnvConfig { base_url: None, api_key: None, default_model: None, timeout: None }
}

fn file(base: &str, key: &str) -> TomlConfig {
    TomlConfig {
        base_url: Some(base.into()),
        api_key: Some(key.into()),
        default_model: Some("file-model".into()),
        timeout: Some(45),
        poll_interval: Some(2),
        web_search: Some(true),
    }
}

#[test]
fn defaults_are_the_built_in_values() {
    assert_eq!(default_timeout(), 3300);
    assert_eq!(default_poll_interval(), 3);
    let c = Config::default();
    assert_eq!(c.base_url, "");
    assert_eq!(c.timeout, 3300);
    assert_eq!(c.poll_interval, 3);
    assert!(!c.web_search);
}

#[test]
fn command_line_beats_environment_beats_file() {
    let env = EnvConfig {
        base_url: Some("http://env".into()),
        api_key: Some("env-key".into()),
        default_model: None,
        timeout: Some("60".into()),
    };
    let c = Config::load(Some("http://cli"), None, None, None, None, env, Some(file("http://file", "file-key")))
        .unwrap();
    assert_eq!(c.base_url, "http://cli");
    assert_eq!(c.api_key, "env-key");
    assert_eq!(c.default_model, "file-model");
    assert_eq!(c.timeout, 60);
    assert_eq!(c.poll_interval, 2);
    assert!(c.web_search);
}

#[test]
fn environment_timeout_that_is_not_a_number_is_ignored() {
    let env = EnvConfig { timeout: Some("soon".into()), ..no_env() };
    let c = Config::load(Some("u"), Some("k"), Some("m"), None, Some(9), env, None).unwrap();
    assert_eq!(c.timeout, 3300);
    assert_eq!(c.poll_interval, 9);
    assert_eq!(c.default_model, "m");
    assert!(!c.web_search);
}

#[test]
fn base_url_and_api_key_are_required() {
    assert_eq!(
        Config::load(None, Some("k"), None, None, None, no_env(), None).err(),
        Some(ConfigError::MissingBaseUrl)
    );
    assert_eq!(
        Config::load(Some("u"), None, None, None, None, no_env(), None).err(),
        Some(ConfigError::MissingApiKey)
    );
}

#[test]
fn save_to_xdg_writes_config_toml_to_the_xdg_directory() {
    let config = Config {
        base_url: "http://example.test:8080".to_string(),
        api_key: "test-api-key".to_string(),
        default_model: "test-model".to_string(),
        timeout: 45,
        poll_interval: 2,
        web_search: false,
    };
    let saved = config.to_file();
    assert_eq!(saved.base_url.as_deref(), Some("http://example.test:8080"));
    assert_eq!(saved.api_key.as_deref(), Some("test-api-key"));
    assert_eq!(saved.default_model.as_deref(), Some("test-model"));
    assert_eq!(saved.timeout, Some(45));
    assert_eq!(saved.poll_interval, Some(2));
    assert!(config_path_in("/tmp/cfg").ends_with("openwebui-chat/config.toml"));
}

#[test]
fn load_xdg_uses_saved_values_without_environment_overrides() {
    let config = Config {
        base_url: "http://saved.example.test:8080".to_string(),
        api_key: "saved-api-key".to_string(),
        default_model: "saved-model".to_string(),
        timeout: 45,
        poll_interval: 2,
        web_search: true,
    };
    let loaded = Config::load_xdg(Some(config.to_file())).expect("config should have been saved");
    assert_eq!(loaded.base_url, config.base_url);
    assert_eq!(loaded.api_key, config.api_key);
    assert_eq!(loaded.default_model, config.default_model);
    assert_eq!(loaded.timeout, config.timeout);
    assert_eq!(loaded.poll_interval, config.poll_interval);
    assert!(Config::load_xdg(None).is_none());
}

#[test]
fn file_with_missing_keys_gets_defaults() {
    let partial = TomlConfig {
        base_url: Some("u".into()),
        api_key: None,
        default_model: None,
        timeout: None,
        poll_interval: None,
        web_search: None,
    };
    let c = Config::from_file(partial);
    assert_eq!(c.base_url, "u");
    assert_eq!(c.api_key, "");
    assert_eq!(c.timeout, 3300);
    assert_eq!(c.poll_interval, 3);
}

#[test]
fn required_endpoints_are_listed_and_joined() {
    assert_eq!(
        Config::required_endpoints(),
        vec!["/api/chat/completions", "/api/v1/chats", "/api/v1/chats/new", "/api/v1/chats/{id}"]
    );
    assert_eq!(
        config_required_endpoints(),
        "/api/chat/completions\n  /api/v1/chats\n  /api/v1/chats/new\n  /api/v1/chats/{id}"
    );
}

#[test]
fn config_candidates_end_with_the_local_file() {
    let candidates = Config::config_candidates();
    assert_eq!(candidates.last().map(String::as_str), Some("openwebui-chat.toml"));
    if let Ok(user_file) = Config::config_path() {
        assert_eq!(candidates, vec![user_file, "openwebui-chat.toml".to_string()]);
    }
}

#[test]
fn user_config_file_is_tried_before_the_local_file() {
    assert_eq!(
        Config::config_candidates_in(Some("/home/u/.config")),
        vec![
            "/home/u/.config/openwebui-chat/config.toml".to_string(),
            "openwebui-chat.toml".to_string(),
        ]
    );
    assert_eq!(Config::config_candidates_in(None), vec!["openwebui-chat.toml".to_string()]);
}

#[test]
fn session_files_live_under_the_data_directory() {
    assert_eq!(
        session_path_in("/data", "chat-123"),
        "/data/openwebui-chat/sessions/chat-123.jsonl"
    );
    if let Ok(p) = session_path("chat-123") {
        assert!(p.ends_with("openwebui-chat/sessions/chat-123.jsonl"));
    }
}

#[test]
fn numbers_parse_and_print_like_std() {
    assert_eq!(parse_u64("42"), Some(42));
    assert_eq!(parse_u64("+7"), Some(7));
    assert_eq!(parse_u64("18446744073709551615"), Some(u64::MAX));
    assert_eq!(parse_u64("18446744073709551616"), None);
    assert_eq!(parse_u64(""), None);
    assert_eq!(parse_u64("+"), None);
    assert_eq!(parse_u64("-1"), None);
    assert_eq!(parse_u64(" 1"), None);
    for n in [0u64, 9, 10, 3300, u64::MAX] {
        assert_eq!(decimal_string(n), n.to_string());
        assert_eq!(parse_u64(&n.to_string()), Some(n));
    }
}
