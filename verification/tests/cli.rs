use openwebui_chat::cli::{Cli, CliError, Command, ConfigCommand, OptionId};

#[test]
fn config_init_is_a_valid_command() {
    assert!(Cli::try_parse_from(&["openwebui-chat", "config", "init"]).is_ok());
}

#[test]
fn start_and_send_accept_no_web_search_flag() {
    assert!(Cli::try_parse_from(&[
        "openwebui-chat",
        "start",
        "--message",
        "Hello",
        "--no-web-search",
    ])
    .is_ok());
    assert!(Cli::try_parse_from(&[
        "openwebui-chat",
        "send",
        "--chat-id",
        "chat-123",
        "--message",
        "Hello again",
        "--no-web-search",
    ])
    .is_ok());
}

#[test]
fn delete_session_is_a_valid_command() {
    assert!(Cli::try_parse_from(&["openwebui-chat", "delete-session", "--chat-id", "chat-123",]).is_ok());
}

#[test]
fn history_accepts_pagination_and_format_options() {
    assert!(Cli::try_parse_from(&[
        "openwebui-chat",
        "history",
        "--chat-id",
        "chat-123",
        "--page",
        "2",
        "--page-size",
        "5",
        "--format",
        "json",
    ])
    .is_ok());
}

#[test]
fn start_reads_message_title_and_flag() {
    let cli = Cli::try_parse_from(&[
        "openwebui-chat",
        "start",
        "--message",
        "Hello",
        "--title=Greeting",
        "--no-web-search",
    ])
    .unwrap();
    match cli.command {
        Command::Start { message, title, no_web_search } => {
            assert_eq!(message, "Hello");
            assert_eq!(title.as_deref(), Some("Greeting"));
            assert!(no_web_search);
        }
        _ => panic!("expected start"),
    }
    assert!(cli.base_url.is_none());
}

#[test]
fn global_options_may_follow_the_subcommand() {
    let before = Cli::try_parse_from(&["openwebui-chat", "--model", "m1", "models"]).unwrap();
    let after = Cli::try_parse_from(&["openwebui-chat", "models", "--model", "m1"]).unwrap();
    assert_eq!(before.model.as_deref(), Some("m1"));
    assert_eq!(after.model.as_deref(), Some("m1"));
    assert!(matches!(before.command, Command::Models));
    assert!(matches!(after.command, Command::Models));
}

#[test]
fn wait_reads_numbers_and_notify_command() {
    let cli = Cli::try_parse_from(&[
        "openwebui-chat",
        "wait",
        "--chat-id",
        "c",
        "--message-id",
        "m",
        "--timeout",
        "60",
        "--poll-interval=2",
        "--notify",
        "notify-send done",
    ])
    .unwrap();
    match cli.command {
        Command::Wait { chat_id, message_id, timeout, poll_interval, notify } => {
            assert_eq!(chat_id, "c");
            assert_eq!(message_id, "m");
            assert_eq!(timeout, Some(60));
            assert_eq!(poll_interval, Some(2));
            assert_eq!(notify.as_deref(), Some("notify-send done"));
        }
        _ => panic!("expected wait"),
    }
}

#[test]
fn history_values_are_read() {
    let cli = Cli::try_parse_from(&[
        "openwebui-chat",
        "history",
        "--chat-id",
        "chat-123",
        "--page",
        "2",
        "--page-size",
        "5",
        "--format",
        "json",
    ])
    .unwrap();
    match cli.command {
        Command::History { chat_id, page, page_size, format } => {
            assert_eq!(chat_id, "chat-123");
            assert_eq!(page, Some(2));
            assert_eq!(page_size, Some(5));
            assert_eq!(format.as_deref(), Some("json"));
        }
        _ => panic!("expected history"),
    }
}

#[test]
fn config_without_init_lacks_a_subcommand() {
    assert_eq!(
        Cli::try_parse_from(&["openwebui-chat", "config"]).err(),
        Some(CliError::MissingSubcommand)
    );
    assert!(matches!(
        Cli::try_parse_from(&["openwebui-chat", "config", "init"]).unwrap().command,
        Command::Config { command: ConfigCommand::Init }
    ));
}

#[test]
fn parse_errors_are_reported() {
    assert_eq!(Cli::try_parse_from(&["openwebui-chat"]).err(), Some(CliError::MissingSubcommand));
    assert_eq!(
        Cli::try_parse_from(&["openwebui-chat", "bogus"]).err(),
        Some(CliError::UnknownSubcommand(1))
    );
    assert_eq!(
        Cli::try_parse_from(&["openwebui-chat", "start"]).err(),
        Some(CliError::MissingRequired(OptionId::Message))
    );
    assert_eq!(
        Cli::try_parse_from(&["openwebui-chat", "send", "--message", "x"]).err(),
        Some(CliError::MissingRequired(OptionId::ChatId))
    );
    assert_eq!(
        Cli::try_parse_from(&["openwebui-chat", "start", "--message"]).err(),
        Some(CliError::MissingValue(OptionId::Message))
    );
    assert_eq!(
        Cli::try_parse_from(&["openwebui-chat", "start", "--message", "--no-web-search"]).err(),
        Some(CliError::MissingValue(OptionId::Message))
    );
    assert_eq!(
        Cli::try_parse_from(&["openwebui-chat", "start", "--message", "a", "--message", "b"]).err(),
        Some(CliError::RepeatedOption(OptionId::Message))
    );
    assert_eq!(
        Cli::try_parse_from(&["openwebui-chat", "start", "--chat-id", "c"]).err(),
        Some(CliError::UnknownArgument(2))
    );
    assert_eq!(
        Cli::try_parse_from(&["openwebui-chat", "history", "--chat-id", "c", "--format", "xml"]).err(),
        Some(CliError::InvalidValue(OptionId::Format))
    );
    assert_eq!(
        Cli::try_parse_from(&["openwebui-chat", "wait", "--chat-id", "c", "--message-id", "m", "--timeout", "soon"]).err(),
        Some(CliError::InvalidValue(OptionId::Timeout))
    );
    assert_eq!(
        Cli::try_parse_from(&["openwebui-chat", "models", "extra"]).err(),
        Some(CliError::UnexpectedArgument(2))
    );
    assert_eq!(
        Cli::try_parse_from(&["openwebui-chat", "doctor", "--print-required-endpoints=yes"]).err(),
        Some(CliError::FlagWithValue(OptionId::PrintRequiredEndpoints))
    );
    assert_eq!(
        Cli::try_parse_from(&["openwebui-chat", "models", "-x"]).err(),
        Some(CliError::UnknownArgument(2))
    );
}

#[test]
fn help_and_version_are_requests() {
    assert_eq!(Cli::try_parse_from(&["openwebui-chat", "--help"]).err(), Some(CliError::HelpRequested));
    assert_eq!(Cli::try_parse_from(&["openwebui-chat", "start", "-h"]).err(), Some(CliError::HelpRequested));
    assert_eq!(Cli::try_parse_from(&["openwebui-chat", "help"]).err(), Some(CliError::HelpRequested));
    assert_eq!(Cli::try_parse_from(&["openwebui-chat", "-V"]).err(), Some(CliError::VersionRequested));
    assert_eq!(
        Cli::try_parse_from(&["openwebui-chat", "models", "--version"]).err(),
        Some(CliError::UnknownArgument(2))
    );
}

#[test]
fn doctor_flag_is_read() {
    match Cli::try_parse_from(&["openwebui-chat", "doctor", "--print-required-endpoints"]).unwrap().command {
        Command::Doctor { print_required_endpoints } => assert!(print_required_endpoints),
        _ => panic!("expected doctor"),
    }
    match Cli::try_parse_from(&["openwebui-chat", "--base-url=http://x", "doctor"]).unwrap() {
        Cli { base_url, command: Command::Doctor { print_required_endpoints }, .. } => {
            assert_eq!(base_url.as_deref(), Some("http://x"));
            assert!(!print_required_endpoints);
        }
        _ => panic!("expected doctor"),
    }
}
