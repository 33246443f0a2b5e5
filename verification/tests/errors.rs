use openwebui_chat::cli::{CliError, OptionId};
use openwebui_chat::client::{ClientError, ResponseKind};
use openwebui_chat::commands::CommandError;
use openwebui_chat::config::ConfigError;
use openwebui_chat::errors::status_text;
use openwebui_chat::history::HistoryError;
use openwebui_chat::paths::SessionError;

#[test]
fn statuses_are_shown_with_their_reason() {
    assert_eq!(status_text(404), "404 Not Found");
    assert_eq!(status_text(200), "200 OK");
    assert_eq!(status_text(599), "599 <unknown status code>");
    assert_eq!(status_text(42), "42");
}

#[test]
fn client_errors_have_the_program_messages() {
    assert_eq!(ClientError::ServerStatus(500).message(), "Server returned 500 Internal Server Error");
    assert_eq!(ClientError::HttpStatus(502).message(), "HTTP 502 Bad Gateway");
    assert_eq!(ClientError::ChatNotFound("chat-123".into()).message(), "Chat not found: chat-123");
    assert_eq!(
        ClientError::ListModelsFailed { status: 401, body: "nope".into() }.message(),
        "Failed to list models (HTTP 401 Unauthorized): nope"
    );
    assert_eq!(
        ClientError::BodyNotJson(ResponseKind::Chat).message(),
        "Failed to parse chat data"
    );
    assert_eq!(
        ClientError::SubmissionForbidden.message(),
        "Open WebUI returned 403 Forbidden.\nThe API key may lack endpoint permissions.\nRequired endpoints:\n  /api/chat/completions\n  /api/v1/chats\n  /api/v1/chats/new\n  /api/v1/chats/{id}\nAdd these to Admin Settings → API Keys → Allowed Endpoints"
    );
    assert!(ClientError::ApiKeyForbidden
        .message()
        .ends_with("admin settings:\n  /api/chat/completions\n  /api/v1/chats\n  /api/v1/chats/new\n  /api/v1/chats/{id}"));
}

#[test]
fn other_errors_have_the_program_messages() {
    assert_eq!(ConfigError::NoConfigDir.message(), "Could not determine config directory");
    assert!(ConfigError::MissingApiKey.message().starts_with("No API key configured."));
    assert_eq!(SessionError::NoDataDir.message(), "Could not determine the local data directory");
    assert_eq!(HistoryError::PageZero.message(), "--page must be at least 1");
    assert_eq!(
        HistoryError::UnsupportedFormat("xml".into()).message(),
        "Unsupported history format: xml"
    );
    assert!(CommandError::NoModelSpecified.message().starts_with("No model specified."));
}

#[test]
fn command_line_errors_name_the_argument() {
    let args = ["openwebui-chat", "frobnicate"];
    assert_eq!(CliError::UnknownSubcommand(1).message(&args), "unrecognized subcommand 'frobnicate'");
    assert_eq!(
        CliError::MissingRequired(OptionId::ChatId).message(&args),
        "the following required arguments were not provided:\n  --chat-id <CHAT_ID>"
    );
    assert_eq!(CliError::HelpRequested.message(&args), "");
}
