//! The messages shown to the user for the library's errors.
use vstd::prelude::*;
use crate::cli::{arg_texts, CliError, OptionId};
use crate::client::{ClientError, ResponseKind};
use crate::commands::CommandError;
use crate::config::{config_required_endpoints, endpoints_text, opt_string, ConfigError};
use crate::history::HistoryError;
use crate::paths::SessionError;
use crate::text::{decimal, decimal_string};

verus! {

/// The reason phrase that the `http` crate registers for a status code, if
/// any.
pub uninterp spec fn canonical_reason_of(status: u16) -> Option<Seq<char>>;

/// `reqwest::StatusCode::canonical_reason` for the code `status`, which
/// `StatusCode::from_u16` accepts for every value from 100 to 999. The
/// phrase comes from a fixed table of registered codes; the contract names
/// it and claims nothing more of it.
#[verifier::external_body]
fn canonical_reason(status: u16) -> (r: Option<String>)
    requires
        100 <= status <= 999,
    ensures
        opt_string(r) == canonical_reason_of(status),
{
    match reqwest::StatusCode::from_u16(status) {
        Ok(code) => code.canonical_reason().map(|reason| reason.to_owned()),
        Err(_) => None,
    }
}

/// How a status is shown: its number and reason phrase, as `StatusCode`
/// displays a valid code (`<unknown status code>` for an unregistered
/// one); the number alone for a value that is no status code.
pub open spec fn status_shown(status: u16) -> Seq<char> {
    if 100 <= status <= 999 {
        decimal(status as nat) + " "@ + match canonical_reason_of(status) {
            Some(reason) => reason,
            None => "<unknown status code>"@,
        }
    } else {
        decimal(status as nat)
    }
}

/// Renders how a status is shown.
pub fn status_text(status: u16) -> (t: String)
    ensures
        t@ == status_shown(status),
{
    let mut t = decimal_string(status as u64);
    if 100 <= status && status <= 999 {
        t.append(" ");
        match canonical_reason(status) {
            Some(reason) => t.append(reason.as_str()),
            None => t.append("<unknown status code>"),
        }
    }
    t
}

/// The message of a configuration error.
pub open spec fn config_error_message(e: ConfigError) -> Seq<char> {
    match e {
        ConfigError::MissingBaseUrl =>
            "No base URL configured. Set OPENWEBUI_BASE_URL or use --base-url, or add 'base_url' to ~/.config/openwebui-chat/config.toml"@,
        ConfigError::MissingApiKey =>
            "No API key configured. Set OPENWEBUI_API_KEY or use --api-key, or add 'api_key' to ~/.config/openwebui-chat/config.toml"@,
        ConfigError::NoConfigDir => "Could not determine config directory"@,
    }
}

impl ConfigError {
    /// The message shown for this error.
    pub fn message(&self) -> (m: String)
        ensures
            m@ == config_error_message(*self),
    {
        match self {
            ConfigError::MissingBaseUrl =>
                "No base URL configured. Set OPENWEBUI_BASE_URL or use --base-url, or add 'base_url' to ~/.config/openwebui-chat/config.toml".to_owned(),
            ConfigError::MissingApiKey =>
                "No API key configured. Set OPENWEBUI_API_KEY or use --api-key, or add 'api_key' to ~/.config/openwebui-chat/config.toml".to_owned(),
            ConfigError::NoConfigDir => "Could not determine config directory".to_owned(),
        }
    }
}

/// The message of a session error.
pub open spec fn session_error_message(e: SessionError) -> Seq<char> {
    match e {
        SessionError::NoDataDir => "Could not determine the local data directory"@,
    }
}

impl SessionError {
    /// The message shown for this error.
    pub fn message(&self) -> (m: String)
        ensures
            m@ == session_error_message(*self),
    {
        match self {
            SessionError::NoDataDir => "Could not determine the local data directory".to_owned(),
        }
    }
}

/// The message of a history error.
pub open spec fn history_error_message(e: HistoryError) -> Seq<char> {
    match e {
        HistoryError::PageZero => "--page must be at least 1"@,
        HistoryError::PageSizeZero => "--page-size must be at least 1"@,
        HistoryError::UnsupportedFormat(f) => "Unsupported history format: "@ + f@,
    }
}

impl HistoryError {
    /// The message shown for this error.
    pub fn message(&self) -> (m: String)
        ensures
            m@ == history_error_message(*self),
    {
        match self {
            HistoryError::PageZero => "--page must be at least 1".to_owned(),
            HistoryError::PageSizeZero => "--page-size must be at least 1".to_owned(),
            HistoryError::UnsupportedFormat(f) => {
                let mut m = "Unsupported history format: ".to_owned();
                m.append(f.as_str());
                m
            },
        }
    }
}

/// The message of a command error.
pub open spec fn command_error_message(e: CommandError) -> Seq<char> {
    match e {
        CommandError::NoModelSpecified =>
            "No model specified. Use --model, set OPENWEBUI_DEFAULT_MODEL, or add 'default_model' to config.toml"@,
    }
}

impl CommandError {
    /// The message shown for this error.
    pub fn message(&self) -> (m: String)
        ensures
            m@ == command_error_message(*self),
    {
        match self {
            CommandError::NoModelSpecified =>
                "No model specified. Use --model, set OPENWEBUI_DEFAULT_MODEL, or add 'default_model' to config.toml".to_owned(),
        }
    }
}

/// The message of an error in an exchange with the server.
pub open spec fn client_error_message(e: ClientError) -> Seq<char> {
    match e {
        ClientError::ServerStatus(s) => "Server returned "@ + status_shown(s),
        ClientError::InvalidApiKey => "API key is invalid or not recognized (HTTP 401)"@,
        ClientError::ApiKeyForbidden =>
            "API key lacks permission for this endpoint (HTTP 403).\nIf endpoint restrictions are enabled, add these paths to\nauth.api_key.allowed_endpoints in Open WebUI admin settings:\n  "@
                + endpoints_text(),
        ClientError::UnexpectedStatus(s) => "Unexpected status: "@ + status_shown(s),
        ClientError::ListModelsFailed { status, body } => "Failed to list models (HTTP "@
            + status_shown(status) + "): "@ + body@,
        ClientError::HttpStatus(s) => "HTTP "@ + status_shown(s),
        ClientError::ChatNotFound(id) => "Chat not found: "@ + id@,
        ClientError::MessagesMissing => "Could not find messages in chat data"@,
        ClientError::BodyNotJson(kind) => match kind {
            ResponseKind::Models => "Failed to parse models response"@,
            ResponseKind::Delete => "Failed to parse delete response"@,
            ResponseKind::Chat => "Failed to parse chat data"@,
            ResponseKind::Submission => "Failed to parse response"@,
        },
        ClientError::SubmissionForbidden =>
            "Open WebUI returned 403 Forbidden.\nThe API key may lack endpoint permissions.\nRequired endpoints:\n  "@
                + endpoints_text() + "\nAdd these to Admin Settings → API Keys → Allowed Endpoints"@,
        ClientError::SubmissionFailed { status, body } => "Chat submission failed (HTTP "@
            + status_shown(status) + "): "@ + body@,
    }
}

impl ClientError {
    /// The message shown for this error.
    pub fn message(&self) -> (m: String)
        ensures
            m@ == client_error_message(*self),
    {
        match self {
            ClientError::ServerStatus(s) => {
                let mut m = "Server returned ".to_owned();
                let shown = status_text(*s);
                m.append(shown.as_str());
                m
            },
            ClientError::InvalidApiKey => "API key is invalid or not recognized (HTTP 401)".to_owned(),
            ClientError::ApiKeyForbidden => {
                let mut m =
                    "API key lacks permission for this endpoint (HTTP 403).\nIf endpoint restrictions are enabled, add these paths to\nauth.api_key.allowed_endpoints in Open WebUI admin settings:\n  ".to_owned();
                let endpoints = config_required_endpoints();
                m.append(endpoints.as_str());
                m
            },
            ClientError::UnexpectedStatus(s) => {
                let mut m = "Unexpected status: ".to_owned();
                let shown = status_text(*s);
                m.append(shown.as_str());
                m
            },
            ClientError::ListModelsFailed { status, body } => {
                let mut m = "Failed to list models (HTTP ".to_owned();
                let shown = status_text(*status);
                m.append(shown.as_str());
                m.append("): ");
                m.append(body.as_str());
                m
            },
            ClientError::HttpStatus(s) => {
                let mut m = "HTTP ".to_owned();
                let shown = status_text(*s);
                m.append(shown.as_str());
                m
            },
            ClientError::ChatNotFound(id) => {
                let mut m = "Chat not found: ".to_owned();
                m.append(id.as_str());
                m
            },
            ClientError::MessagesMissing => "Could not find messages in chat data".to_owned(),
            ClientError::BodyNotJson(kind) => match kind {
                ResponseKind::Models => "Failed to parse models response".to_owned(),
                ResponseKind::Delete => "Failed to parse delete response".to_owned(),
                ResponseKind::Chat => "Failed to parse chat data".to_owned(),
                ResponseKind::Submission => "Failed to parse response".to_owned(),
            },
            ClientError::SubmissionForbidden => {
                let mut m =
                    "Open WebUI returned 403 Forbidden.\nThe API key may lack endpoint permissions.\nRequired endpoints:\n  ".to_owned();
                let endpoints = config_required_endpoints();
                m.append(endpoints.as_str());
                m.append("\nAdd these to Admin Settings → API Keys → Allowed Endpoints");
                m
            },
            ClientError::SubmissionFailed { status, body } => {
                let mut m = "Chat submission failed (HTTP ".to_owned();
                let shown = status_text(*status);
                m.append(shown.as_str());
                m.append("): ");
                m.append(body.as_str());
                m
            },
        }
    }
}

/// How an option is written in messages: its name, and its value's
/// placeholder when it takes one.
pub open spec fn option_usage(id: OptionId) -> Seq<char> {
    match id {
        OptionId::BaseUrl => "--base-url <BASE_URL>"@,
        OptionId::ApiKey => "--api-key <API_KEY>"@,
        OptionId::Model => "--model <MODEL>"@,
        OptionId::Message => "--message <MESSAGE>"@,
        OptionId::Title => "--title <TITLE>"@,
        OptionId::NoWebSearch => "--no-web-search"@,
        OptionId::ChatId => "--chat-id <CHAT_ID>"@,
        OptionId::MessageId => "--message-id <MESSAGE_ID>"@,
        OptionId::Timeout => "--timeout <TIMEOUT>"@,
        OptionId::PollInterval => "--poll-interval <POLL_INTERVAL>"@,
        OptionId::Notify => "--notify <NOTIFY>"@,
        OptionId::Page => "--page <PAGE>"@,
        OptionId::PageSize => "--page-size <PAGE_SIZE>"@,
        OptionId::Format => "--format <FORMAT>"@,
        OptionId::PrintRequiredEndpoints => "--print-required-endpoints"@,
    }
}

/// Writes an option as messages show it.
pub fn option_usage_text(id: OptionId) -> (t: &'static str)
    ensures
        t@ == option_usage(id),
{
    match id {
        OptionId::BaseUrl => "--base-url <BASE_URL>",
        OptionId::ApiKey => "--api-key <API_KEY>",
        OptionId::Model => "--model <MODEL>",
        OptionId::Message => "--message <MESSAGE>",
        OptionId::Title => "--title <TITLE>",
        OptionId::NoWebSearch => "--no-web-search",
        OptionId::ChatId => "--chat-id <CHAT_ID>",
        OptionId::MessageId => "--message-id <MESSAGE_ID>",
        OptionId::Timeout => "--timeout <TIMEOUT>",
        OptionId::PollInterval => "--poll-interval <POLL_INTERVAL>",
        OptionId::Notify => "--notify <NOTIFY>",
        OptionId::Page => "--page <PAGE>",
        OptionId::PageSize => "--page-size <PAGE_SIZE>",
        OptionId::Format => "--format <FORMAT>",
        OptionId::PrintRequiredEndpoints => "--print-required-endpoints",
    }
}

/// The argument at a position of the command line, or nothing past its end.
pub open spec fn argument_at(args: Seq<Seq<char>>, i: int) -> Seq<char> {
    if 0 <= i < args.len() {
        args[i]
    } else {
        Seq::empty()
    }
}

/// The message for a command line that was not accepted, given its
/// arguments; empty for a request for the help or version text.
pub open spec fn cli_error_message(e: CliError, args: Seq<Seq<char>>) -> Seq<char> {
    match e {
        CliError::HelpRequested => Seq::empty(),
        CliError::VersionRequested => Seq::empty(),
        CliError::MissingSubcommand => "a subcommand is required but one was not provided"@,
        CliError::UnknownSubcommand(i) => "unrecognized subcommand '"@ + argument_at(args, i as int)
            + "'"@,
        CliError::UnknownArgument(i) => "unexpected argument '"@ + argument_at(args, i as int)
            + "' found"@,
        CliError::UnexpectedArgument(i) => "unexpected argument '"@ + argument_at(args, i as int)
            + "' found"@,
        CliError::MissingValue(id) => "a value is required for '"@ + option_usage(id)
            + "' but none was supplied"@,
        CliError::RepeatedOption(id) => "the argument '"@ + option_usage(id)
            + "' cannot be used multiple times"@,
        CliError::InvalidValue(id) => "invalid value for '"@ + option_usage(id) + "'"@,
        CliError::FlagWithValue(id) => "unexpected value for '"@ + option_usage(id) + "'"@,
        CliError::MissingRequired(id) => "the following required arguments were not provided:\n  "@
            + option_usage(id),
    }
}

impl CliError {
    /// The message shown for this error, given the arguments of the command
    /// line.
    pub fn message(&self, args: &[&str]) -> (m: String)
        ensures
            m@ == cli_error_message(*self, arg_texts(args@)),
    {
        match self {
            CliError::HelpRequested | CliError::VersionRequested => String::new(),
            CliError::MissingSubcommand =>
                "a subcommand is required but one was not provided".to_owned(),
            CliError::UnknownSubcommand(i) => {
                let mut m = "unrecognized subcommand '".to_owned();
                if *i < args.len() {
                    m.append(args[*i]);
                }
                m.append("'");
                m
            },
            CliError::UnknownArgument(i) | CliError::UnexpectedArgument(i) => {
                let mut m = "unexpected argument '".to_owned();
                if *i < args.len() {
                    m.append(args[*i]);
                }
                m.append("' found");
                m
            },
            CliError::MissingValue(id) => {
                let mut m = "a value is required for '".to_owned();
                m.append(option_usage_text(*id));
                m.append("' but none was supplied");
                m
            },
            CliError::RepeatedOption(id) => {
                let mut m = "the argument '".to_owned();
                m.append(option_usage_text(*id));
                m.append("' cannot be used multiple times");
                m
            },
            CliError::InvalidValue(id) => {
                let mut m = "invalid value for '".to_owned();
                m.append(option_usage_text(*id));
                m.append("'");
                m
            },
            CliError::FlagWithValue(id) => {
                let mut m = "unexpected value for '".to_owned();
                m.append(option_usage_text(*id));
                m.append("'");
                m
            },
            CliError::MissingRequired(id) => {
                let mut m = "the following required arguments were not provided:\n  ".to_owned();
                m.append(option_usage_text(*id));
                m
            },
        }
    }
}

} // verus!
