use openwebui_chat::reports::{
    connectivity_check_text, diagnostics_footer_text, endpoints_hint_text,
    model_listing_check_text, models_check_text, models_listing_text,
    required_endpoints_report_text,
};

#[test]
fn model_listing_has_one_indented_line_per_model() {
    assert_eq!(models_listing_text(&vec![]), "No models available.\n");
    assert_eq!(
        models_listing_text(&vec!["a".to_string(), "b".to_string()]),
        "Available models:\n  a\n  b\n"
    );
}

#[test]
fn required_endpoint_report_lists_every_endpoint() {
    let report = required_endpoints_report_text();
    assert!(report.starts_with(
        "Required API endpoints for Open WebUI API key endpoint restrictions:\n\n"
    ));
    assert!(report.contains(
        "\n  /api/chat/completions\n  /api/v1/chats\n  /api/v1/chats/new\n  /api/v1/chats/{id}\n\nNote: "
    ));
    assert!(report.ends_with("covers sub-paths like '/api/v1/chats/<id>'.\n"));
    assert_eq!(
        endpoints_hint_text(),
        "Required endpoints (if endpoint restrictions are enabled):\n  /api/chat/completions\n  /api/v1/chats\n  /api/v1/chats/new\n  /api/v1/chats/{id}\n"
    );
}

#[test]
fn model_check_reports_count_and_default_model() {
    let models = vec!["a".to_string(), "b".to_string()];
    assert_eq!(models_check_text(&vec![], "a"), "⚠ API key valid but no models available\n");
    assert_eq!(models_check_text(&models, ""), "✓ API key valid (2 models available)\n");
    assert_eq!(
        models_check_text(&models, "b"),
        "✓ API key valid (2 models available)\n✓ Default model 'b' is available\n"
    );
    assert_eq!(
        models_check_text(&models, "c"),
        "✓ API key valid (2 models available)\n⚠ Default model 'c' not found in available models\n  Available: a, b\n"
    );
}


#[test]
fn connectivity_check_stops_the_diagnostics_on_error() {
    let (ok, go_on) = connectivity_check_text(&Ok("0.6.5".to_string()));
    assert_eq!(ok, "✓ Server reachable (Open WebUI v0.6.5)\n");
    assert!(go_on);
    let (failed, go_on) = connectivity_check_text(&Err("Server returned 500".to_string()));
    assert!(!go_on);
    assert_eq!(
        failed,
        format!("✗ Server connection issue: Server returned 500\n\n{}", endpoints_hint_text())
    );
}

#[test]
fn model_listing_check_reports_errors_and_models() {
    let listed = model_listing_check_text(&Ok(vec!["a".to_string()]), "a");
    assert_eq!(listed, "✓ API key valid (1 models available)\n✓ Default model 'a' is available\n");
    let failed = model_listing_check_text(&Err("HTTP 403".to_string()), "a");
    assert_eq!(failed, format!("✗ Cannot list models: HTTP 403\n\n{}", endpoints_hint_text()));
    assert_eq!(diagnostics_footer_text(), "\nAll checks complete.\n");
}
