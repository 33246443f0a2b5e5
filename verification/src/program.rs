//! The course the command-line program takes for a command: what it needs
//! before it talks to the server, which exchange it starts, and what it
//! keeps in the local session afterwards.
use vstd::prelude::*;
use crate::cli::{Command, ConfigCommand};
use crate::commands::{resolve_model, resolve_web_search, CommandError};
use crate::config::Config;
use crate::session::LocalMessage;
use crate::text::same_text;
use crate::wait::WaitResult;

verus! {

/// What the program does first for a command.
#[derive(Clone, Copy, Debug, PartialEq, Eq, Structural)]
pub enum FirstStep {
    /// Run the interactive setup, which needs no configuration.
    ConfigInit,
    /// Print the endpoints that an API key must be allowed, which needs no
    /// configuration.
    PrintRequiredEndpoints,
    /// Show the chat's local session when there is one; else load the
    /// configuration and ask the server.
    LocalHistoryFirst,
    /// Load the configuration and ask the server.
    LoadConfig,
}

/// The first step for a command: the setup and the endpoint list go ahead
/// without a configuration, the history looks for a local session first,
/// and every other command needs the configuration.
pub open spec fn first_step_of(command: Command) -> FirstStep {
    match command {
        Command::Config { .. } => FirstStep::ConfigInit,
        Command::Doctor { print_required_endpoints: true } => FirstStep::PrintRequiredEndpoints,
        Command::History { .. } => FirstStep::LocalHistoryFirst,
        _ => FirstStep::LoadConfig,
    }
}

/// Decides the first step for a command.
pub fn first_step(command: &Command) -> (s: FirstStep)
    ensures
        s == first_step_of(*command),
{
    match command {
        Command::Config { command: ConfigCommand::Init } => FirstStep::ConfigInit,
        Command::Doctor { print_required_endpoints } => {
            if *print_required_endpoints {
                FirstStep::PrintRequiredEndpoints
            } else {
                FirstStep::LoadConfig
            }
        },
        Command::History { .. } => FirstStep::LocalHistoryFirst,
        _ => FirstStep::LoadConfig,
    }
}

/// The exchange with the server that a command starts once the
/// configuration is loaded.
#[derive(Clone, Debug)]
pub enum ServerAction {
    /// Submit a message: to a new chat when `chat_id` is `None`.
    Submit {
        message: String,
        model: String,
        chat_id: Option<String>,
        title: Option<String>,
        web_search: bool,
    },
    /// Wait for an assistant message to complete.
    Wait {
        chat_id: String,
        message_id: String,
        timeout: u64,
        poll_interval: u64,
        notify: Option<String>,
    },
    /// Fetch a chat's history and show one page of it.
    FetchHistory {
        chat_id: String,
        page: Option<usize>,
        page_size: Option<usize>,
        format: Option<String>,
    },
    /// Delete a chat.
    DeleteChat { chat_id: String },
    /// Run the diagnostics.
    Doctor,
    /// List the available models.
    ListModels,
}

/// The value of an optional setting, or its configured default.
pub open spec fn or_configured(v: Option<u64>, configured: u64) -> u64 {
    match v {
        Some(x) => x,
        None => configured,
    }
}

/// Whether `a` is the exchange that `command` starts under `cfg`, when it
/// starts one: a message goes with the configured model and with web search
/// when the configuration turns it on and the command does not turn it off;
/// a wait without its own timeout or poll interval takes the configured
/// ones.
pub open spec fn is_server_action(command: Command, cfg: Config, a: ServerAction) -> bool {
    match command {
        Command::Start { message, title, no_web_search } => a == ServerAction::Submit {
            message,
            model: cfg.default_model,
            chat_id: None,
            title,
            web_search: cfg.web_search && !no_web_search,
        },
        Command::Send { chat_id, message, no_web_search } => a == ServerAction::Submit {
            message,
            model: cfg.default_model,
            chat_id: Some(chat_id),
            title: None,
            web_search: cfg.web_search && !no_web_search,
        },
        Command::Wait { chat_id, message_id, timeout, poll_interval, notify } => a
            == ServerAction::Wait {
            chat_id,
            message_id,
            timeout: or_configured(timeout, cfg.timeout),
            poll_interval: or_configured(poll_interval, cfg.poll_interval),
            notify,
        },
        Command::History { chat_id, page, page_size, format } => a == ServerAction::FetchHistory {
            chat_id,
            page,
            page_size,
            format,
        },
        Command::DeleteSession { chat_id } => a == ServerAction::DeleteChat { chat_id },
        Command::Doctor { .. } => a == ServerAction::Doctor,
        Command::Models => a == ServerAction::ListModels,
        Command::Config { .. } => false,
    }
}

/// Whether a command sends a message.
pub open spec fn sends_message(command: Command) -> bool {
    command is Start || command is Send
}

/// The exchange that a command starts under a loaded configuration. A
/// command that sends a message fails when no default model is configured.
/// The setup and the endpoint list never get here.
pub fn server_action(command: Command, cfg: &Config) -> (r: Result<ServerAction, CommandError>)
    requires
        first_step_of(command) == FirstStep::LoadConfig || first_step_of(command)
            == FirstStep::LocalHistoryFirst,
    ensures
        sends_message(command) && cfg.default_model@.len() == 0 ==> r == Err::<
            ServerAction,
            CommandError,
        >(CommandError::NoModelSpecified),
        !(sends_message(command) && cfg.default_model@.len() == 0) ==> r is Ok
            && is_server_action(command, *cfg, r->Ok_0),
{
    match command {
        Command::Start { message, title, no_web_search } => {
            if let Err(e) = resolve_model(cfg.default_model.as_str()) {
                return Err(e);
            }
            let model = cfg.default_model.clone();
            Ok(
                ServerAction::Submit {
                    message,
                    model,
                    chat_id: None,
                    title,
                    web_search: resolve_web_search(cfg.web_search, no_web_search),
                },
            )
        },
        Command::Send { chat_id, message, no_web_search } => {
            if let Err(e) = resolve_model(cfg.default_model.as_str()) {
                return Err(e);
            }
            let model = cfg.default_model.clone();
            Ok(
                ServerAction::Submit {
                    message,
                    model,
                    chat_id: Some(chat_id),
                    title: None,
                    web_search: resolve_web_search(cfg.web_search, no_web_search),
                },
            )
        },
        Command::Wait { chat_id, message_id, timeout, poll_interval, notify } => {
            let timeout = match timeout {
                Some(t) => t,
                None => cfg.timeout,
            };
            let poll_interval = match poll_interval {
                Some(p) => p,
                None => cfg.poll_interval,
            };
            Ok(ServerAction::Wait { chat_id, message_id, timeout, poll_interval, notify })
        },
        Command::History { chat_id, page, page_size, format } => Ok(
            ServerAction::FetchHistory { chat_id, page, page_size, format },
        ),
        Command::DeleteSession { chat_id } => Ok(ServerAction::DeleteChat { chat_id }),
        Command::Doctor { .. } => Ok(ServerAction::Doctor),
        Command::Models => Ok(ServerAction::ListModels),
        Command::Config { .. } => {
            // The setup runs before any configuration is loaded.
            assert(false);
            Ok(ServerAction::Doctor)
        },
    }
}

/// What the local session keeps of a message the user sent: the message as
/// the user's, with no reasoning, at `timestamp`.
pub fn sent_message_record(message: &str, timestamp: u64) -> (m: LocalMessage)
    ensures
        m.role@ == "user"@,
        m.content@ == message@,
        m.reasoning is None,
        m.timestamp == timestamp,
{
    LocalMessage { role: "user".to_owned(), content: message.to_owned(), reasoning: None, timestamp }
}

/// What the local session keeps when a wait ends: the completed answer as
/// the assistant's, with its reasoning, at `timestamp`; nothing when the
/// answer is still pending.
pub fn completion_record(result: &WaitResult, timestamp: u64) -> (m: Option<LocalMessage>)
    ensures
        m is Some <==> result.status@ == "completed"@,
        m is Some ==> {
            &&& m->0.role@ == "assistant"@
            &&& m->0.content == result.content
            &&& m->0.reasoning == result.reasoning
            &&& m->0.timestamp == timestamp
        },
{
    if same_text(result.status.as_str(), "completed") {
        Some(
            LocalMessage {
                role: "assistant".to_owned(),
                content: result.content.clone(),
                reasoning: match &result.reasoning {
                    Some(r) => Some(r.clone()),
                    None => None,
                },
                timestamp,
            },
        )
    } else {
        None
    }
}

/// A message goes out as the command asks: with web search exactly when the
/// configuration turns it on and `--no-web-search` is not given, for a new
/// chat and a follow-up alike; with the command's message and the configured
/// model; to a new chat for `start` (with its title) and to the named chat,
/// without a title, for `send`.
pub proof fn lemma_submission_follows_the_command(command: Command, cfg: Config, a: ServerAction)
    requires
        sends_message(command),
        is_server_action(command, cfg, a),
    ensures
        match (command, a) {
            (
                Command::Start { message, title, no_web_search },
                ServerAction::Submit { message: sent, model, chat_id, title: sent_title, web_search },
            ) => {
                &&& web_search == (cfg.web_search && !no_web_search)
                &&& (no_web_search ==> !web_search)
                &&& sent == message
                &&& model == cfg.default_model
                &&& chat_id is None
                &&& sent_title == title
            },
            (
                Command::Send { chat_id: to, message, no_web_search },
                ServerAction::Submit { message: sent, model, chat_id, title: sent_title, web_search },
            ) => {
                &&& web_search == (cfg.web_search && !no_web_search)
                &&& (no_web_search ==> !web_search)
                &&& sent == message
                &&& model == cfg.default_model
                &&& chat_id == Some(to)
                &&& sent_title is None
            },
            _ => false,
        },
{
}

} // verus!
