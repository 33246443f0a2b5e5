use openwebui_chat::commands::{
    config_init_prompts, default_model_status, diagnostics_header_text, mask_api_key,
    notification_command, prompt_answer, prompt_text, resolve_model, resolve_web_search,
    CommandError, DefaultModelStatus,
};
use openwebui_chat::config::Config;

#[test]
fn no_web_search_flag_overrides_configured_web_search_setting() {
    assert!(resolve_web_search(true, false));
    assert!(!resolve_web_search(true, true));
    assert!(!resolve_web_search(false, false));
}

#[test]
fn api_keys_are_masked() {
    assert_eq!(mask_api_key(""), "");
    assert_eq!(mask_api_key("abc"), "***");
    assert_eq!(mask_api_key("1234567"), "*******");
    assert_eq!(mask_api_key("sk-12345678"), "sk-...5678");
    assert_eq!(mask_api_key("ключ-секрет"), "клю...крет");
}

#[test]
fn model_must_be_configured() {
    assert_eq!(resolve_model(""), Err(CommandError::NoModelSpecified));
    assert_eq!(resolve_model("llama3"), Ok("llama3".to_string()));
}

#[test]
fn prompts_propose_current_values() {
    let existing = Config::default();
    let (base, key, model) = config_init_prompts(&existing);
    assert_eq!(base.current, "http://localhost:8080");
    assert_eq!(prompt_text(&base), "Open WebUI base URL [http://localhost:8080]: ");
    assert_eq!(prompt_text(&key), "API key: ");
    assert_eq!(prompt_text(&model), "Default model (leave empty to skip): ");

    let configured = Config {
        base_url: "http://srv".into(),
        api_key: "sk-abcdefgh".into(),
        default_model: "m".into(),
        ..Config::default()
    };
    let (base, key, model) = config_init_prompts(&configured);
    assert_eq!(base.current, "http://srv");
    assert_eq!(prompt_text(&key), "API key [sk-...efgh]: ");
    assert_eq!(key.current, "sk-abcdefgh");
    assert_eq!(prompt_text(&model), "Default model (leave empty to skip) [m]: ");
}

#[test]
fn empty_answers_keep_the_current_value() {
    assert_eq!(prompt_answer("  \n", "kept"), "kept");
    assert_eq!(prompt_answer("  new value \n", "kept"), "new value");
}

#[test]
fn setup_keeps_other_settings() {
    let existing = Config { timeout: 10, poll_interval: 1, web_search: true, ..Config::default() };
    let c = existing.with_answers("u".into(), "k".into(), "".into());
    assert_eq!(c.base_url, "u");
    assert_eq!(c.timeout, 10);
    assert_eq!(c.poll_interval, 1);
    assert!(c.web_search);
}

#[test]
fn diagnostics_header_shows_masked_configuration() {
    let c = Config {
        base_url: "http://srv:8080".into(),
        api_key: "sk-abcdefgh".into(),
        default_model: "".into(),
        timeout: 3300,
        poll_interval: 3,
        web_search: false,
    };
    assert_eq!(
        diagnostics_header_text(&c),
        "openwebui-chat diagnostics\n==========================\n\nConfiguration:\n  base_url:       http://srv:8080\n  api_key:        sk-...efgh\n  default_model:  (none)\n  timeout:        3300s\n  poll_interval:  3s\n  web_search:     false\n\n"
    );
}

#[test]
fn default_model_is_checked_against_the_list() {
    let models = vec!["a".to_string(), "b".to_string()];
    assert_eq!(default_model_status(&models, ""), DefaultModelStatus::NotConfigured);
    assert_eq!(default_model_status(&models, "b"), DefaultModelStatus::Listed);
    assert_eq!(default_model_status(&models, "c"), DefaultModelStatus::NotListed);
}

#[test]
fn notification_commands_split_on_white_space() {
    assert!(notification_command(None).is_none());
    assert!(notification_command(Some("")).is_none());
    assert!(notification_command(Some("   ")).is_none());
    let n = notification_command(Some("notify-send  'Done' now")).unwrap();
    assert_eq!(n.program, "notify-send");
    assert_eq!(n.args, vec!["'Done'".to_string(), "now".to_string()]);
}
