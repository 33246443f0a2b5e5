use openwebui_chat::cli::{Cli, Command};
use openwebui_chat::commands::CommandError;
use openwebui_chat::config::Config;
use openwebui_chat::program::{
    completion_record, first_step, sent_message_record, server_action, FirstStep, ServerAction,
};
use openwebui_chat::wait::WaitResult;

fn parse(args: &[&str]) -> Command {
    Cli::try_parse_from(args).expect("command line should parse").command
}

fn configured() -> Config {
    Config {
        base_url: "http://srv".into(),
        api_key: "key".into(),
        default_model: "llama3".into(),
        timeout: 60,
        poll_interval: 2,
        web_search: true,
    }
}

#[test]
fn setup_and_endpoint_list_need_no_configuration() {
    assert_eq!(first_step(&parse(&["openwebui-chat", "config", "init"])), FirstStep::ConfigInit);
    assert_eq!(
        first_step(&parse(&["openwebui-chat", "doctor", "--print-required-endpoints"])),
        FirstStep::PrintRequiredEndpoints
    );
    assert_eq!(first_step(&parse(&["openwebui-chat", "doctor"])), FirstStep::LoadConfig);
    assert_eq!(
        first_step(&parse(&["openwebui-chat", "history", "--chat-id", "c"])),
        FirstStep::LocalHistoryFirst
    );
    assert_eq!(first_step(&parse(&["openwebui-chat", "models"])), FirstStep::LoadConfig);
}

#[test]
fn start_submits_to_a_new_chat_with_the_configured_model() {
    let cmd = parse(&["openwebui-chat", "start", "--message", "Hello", "--title", "T"]);
    match server_action(cmd, &configured()) {
        Ok(ServerAction::Submit { message, model, chat_id, title, web_search }) => {
            assert_eq!(message, "Hello");
            assert_eq!(model, "llama3");
            assert_eq!(chat_id, None);
            assert_eq!(title, Some("T".to_string()));
            assert!(web_search);
        }
        other => panic!("unexpected action: {:?}", other),
    }
}

#[test]
fn send_submits_to_the_chat_and_can_turn_web_search_off() {
    let cmd = parse(&[
        "openwebui-chat", "send", "--chat-id", "chat-123", "--message", "Again", "--no-web-search",
    ]);
    match server_action(cmd, &configured()) {
        Ok(ServerAction::Submit { message, model, chat_id, title, web_search }) => {
            assert_eq!(message, "Again");
            assert_eq!(model, "llama3");
            assert_eq!(chat_id, Some("chat-123".to_string()));
            assert_eq!(title, None);
            assert!(!web_search);
        }
        other => panic!("unexpected action: {:?}", other),
    }
}

#[test]
fn messages_need_a_default_model() {
    let mut cfg = configured();
    cfg.default_model = String::new();
    let cmd = parse(&["openwebui-chat", "start", "--message", "Hello"]);
    assert!(matches!(server_action(cmd, &cfg), Err(CommandError::NoModelSpecified)));
    let models = parse(&["openwebui-chat", "models"]);
    assert!(matches!(server_action(models, &cfg), Ok(ServerAction::ListModels)));
}

#[test]
fn wait_takes_configured_timing_unless_given() {
    let cmd = parse(&["openwebui-chat", "wait", "--chat-id", "c", "--message-id", "m"]);
    match server_action(cmd, &configured()) {
        Ok(ServerAction::Wait { chat_id, message_id, timeout, poll_interval, notify }) => {
            assert_eq!(chat_id, "c");
            assert_eq!(message_id, "m");
            assert_eq!(timeout, 60);
            assert_eq!(poll_interval, 2);
            assert_eq!(notify, None);
        }
        other => panic!("unexpected action: {:?}", other),
    }
    let cmd = parse(&[
        "openwebui-chat", "wait", "--chat-id", "c", "--message-id", "m", "--timeout", "5",
        "--poll-interval", "1", "--notify", "echo done",
    ]);
    match server_action(cmd, &configured()) {
        Ok(ServerAction::Wait { timeout, poll_interval, notify, .. }) => {
            assert_eq!(timeout, 5);
            assert_eq!(poll_interval, 1);
            assert_eq!(notify, Some("echo done".to_string()));
        }
        other => panic!("unexpected action: {:?}", other),
    }
}

#[test]
fn other_commands_map_to_their_exchange() {
    let cfg = configured();
    let delete = parse(&["openwebui-chat", "delete-session", "--chat-id", "chat-123"]);
    assert!(matches!(
        server_action(delete, &cfg),
        Ok(ServerAction::DeleteChat { chat_id }) if chat_id == "chat-123"
    ));
    let doctor = parse(&["openwebui-chat", "doctor"]);
    assert!(matches!(server_action(doctor, &cfg), Ok(ServerAction::Doctor)));
    let history = parse(&["openwebui-chat", "history", "--chat-id", "c", "--page", "2"]);
    match server_action(history, &cfg) {
        Ok(ServerAction::FetchHistory { chat_id, page, page_size, format }) => {
            assert_eq!(chat_id, "c");
            assert_eq!(page, Some(2));
            assert_eq!(page_size, None);
            assert_eq!(format, None);
        }
        other => panic!("unexpected action: {:?}", other),
    }
}

#[test]
fn local_session_keeps_sent_and_completed_messages() {
    let sent = sent_message_record("Hello", 100);
    assert_eq!(sent.role, "user");
    assert_eq!(sent.content, "Hello");
    assert_eq!(sent.reasoning, None);
    assert_eq!(sent.timestamp, 100);

    let done = WaitResult::completed("c", "m", "Hi".to_string(), Some("why".to_string()));
    let record = completion_record(&done, 101).expect("completed answers are kept");
    assert_eq!(record.role, "assistant");
    assert_eq!(record.content, "Hi");
    assert_eq!(record.reasoning, Some("why".to_string()));
    assert_eq!(record.timestamp, 101);

    assert!(completion_record(&WaitResult::pending("c", "m"), 102).is_none());
}
