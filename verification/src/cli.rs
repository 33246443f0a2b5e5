//! The command-line grammar: a global `--base-url`, `--api-key` and
//! `--model`, one subcommand, and the options of that subcommand.
//!
//! Arguments are read from left to right. An option is written
//! `--name value` or `--name=value`; a value cannot begin with `-` unless it
//! is given after `=` or is `-` itself. The global options are accepted
//! before and after the subcommand. `--help` or `-h` anywhere, and
//! `--version` or `-V` before the subcommand, stop the parse with a request
//! for the help or version text. Every option may be given once.
use vstd::prelude::*;
use crate::config::opt_string;
use crate::text::{parse_u64, parsed_u64, same_text};

verus! {

/// Every option of the command line.
#[derive(Debug, Clone, Copy, PartialEq, Eq, Structural)]
pub enum OptionId {
    BaseUrl,
    ApiKey,
    Model,
    Message,
    Title,
    NoWebSearch,
    ChatId,
    MessageId,
    Timeout,
    PollInterval,
    Notify,
    Page,
    PageSize,
    Format,
    PrintRequiredEndpoints,
}

/// How many options there are.
pub const OPTION_COUNT: usize = 15;

/// Where the parse stands: before a subcommand, after `config`, or inside a
/// subcommand.
#[derive(Debug, Clone, Copy, PartialEq, Eq, Structural)]
pub enum Level {
    Root,
    Config,
    Start,
    Send,
    Wait,
    History,
    DeleteSession,
    Doctor,
    Models,
    ConfigInit,
}

/// Why the command line was not accepted, or what it asked for instead of a
/// command. Positions count the program name as 0.
#[derive(Debug, Clone, Copy, PartialEq, Eq, Structural)]
pub enum CliError {
    /// `--help`, `-h` or the `help` subcommand was given.
    HelpRequested,
    /// `--version` or `-V` was given before the subcommand.
    VersionRequested,
    /// No subcommand was given (or `config` without its subcommand).
    MissingSubcommand,
    /// The argument at this position is not a known subcommand.
    UnknownSubcommand(usize),
    /// The argument at this position is not an option accepted here.
    UnknownArgument(usize),
    /// The argument at this position is a value that nothing expects.
    UnexpectedArgument(usize),
    /// The option needs a value and none follows it.
    MissingValue(OptionId),
    /// The option was given more than once.
    RepeatedOption(OptionId),
    /// The option's value is not acceptable.
    InvalidValue(OptionId),
    /// The flag was given a value.
    FlagWithValue(OptionId),
    /// The subcommand needs this option and it was not given.
    MissingRequired(OptionId),
}

/// The subcommand of `config`.
#[derive(Clone, Debug)]
pub enum ConfigCommand {
    Init,
}

/// A subcommand with its options.
#[derive(Clone, Debug)]
pub enum Command {
    Start { message: String, title: Option<String>, no_web_search: bool },
    Send { chat_id: String, message: String, no_web_search: bool },
    Wait {
        chat_id: String,
        message_id: String,
        timeout: Option<u64>,
        poll_interval: Option<u64>,
        notify: Option<String>,
    },
    History {
        chat_id: String,
        page: Option<usize>,
        page_size: Option<usize>,
        format: Option<String>,
    },
    DeleteSession { chat_id: String },
    Doctor { print_required_endpoints: bool },
    Models,
    Config { command: ConfigCommand },
}

/// A parsed command line.
#[derive(Clone, Debug)]
pub struct Cli {
    pub base_url: Option<String>,
    pub api_key: Option<String>,
    pub model: Option<String>,
    pub command: Command,
}

/// The slot of an option among the collected values.
pub open spec fn option_index(id: OptionId) -> int {
    match id {
        OptionId::BaseUrl => 0,
        OptionId::ApiKey => 1,
        OptionId::Model => 2,
        OptionId::Message => 3,
        OptionId::Title => 4,
        OptionId::NoWebSearch => 5,
        OptionId::ChatId => 6,
        OptionId::MessageId => 7,
        OptionId::Timeout => 8,
        OptionId::PollInterval => 9,
        OptionId::Notify => 10,
        OptionId::Page => 11,
        OptionId::PageSize => 12,
        OptionId::Format => 13,
        OptionId::PrintRequiredEndpoints => 14,
    }
}

/// The option written `--name`.
pub open spec fn option_named(name: Seq<char>) -> Option<OptionId> {
    if name == "base-url"@ {
        Some(OptionId::BaseUrl)
    } else if name == "api-key"@ {
        Some(OptionId::ApiKey)
    } else if name == "model"@ {
        Some(OptionId::Model)
    } else if name == "message"@ {
        Some(OptionId::Message)
    } else if name == "title"@ {
        Some(OptionId::Title)
    } else if name == "no-web-search"@ {
        Some(OptionId::NoWebSearch)
    } else if name == "chat-id"@ {
        Some(OptionId::ChatId)
    } else if name == "message-id"@ {
        Some(OptionId::MessageId)
    } else if name == "timeout"@ {
        Some(OptionId::Timeout)
    } else if name == "poll-interval"@ {
        Some(OptionId::PollInterval)
    } else if name == "notify"@ {
        Some(OptionId::Notify)
    } else if name == "page"@ {
        Some(OptionId::Page)
    } else if name == "page-size"@ {
        Some(OptionId::PageSize)
    } else if name == "format"@ {
        Some(OptionId::Format)
    } else if name == "print-required-endpoints"@ {
        Some(OptionId::PrintRequiredEndpoints)
    } else {
        None
    }
}

/// Whether the option is accepted at every level.
pub open spec fn is_global(id: OptionId) -> bool {
    id == OptionId::BaseUrl || id == OptionId::ApiKey || id == OptionId::Model
}

/// Whether the option is accepted at this level.
pub open spec fn option_allowed(level: Level, id: OptionId) -> bool {
    is_global(id) || match level {
        Level::Start => id == OptionId::Message || id == OptionId::Title || id
            == OptionId::NoWebSearch,
        Level::Send => id == OptionId::ChatId || id == OptionId::Message || id
            == OptionId::NoWebSearch,
        Level::Wait => id == OptionId::ChatId || id == OptionId::MessageId || id
            == OptionId::Timeout || id == OptionId::PollInterval || id == OptionId::Notify,
        Level::History => id == OptionId::ChatId || id == OptionId::Page || id
            == OptionId::PageSize || id == OptionId::Format,
        Level::DeleteSession => id == OptionId::ChatId,
        Level::Doctor => id == OptionId::PrintRequiredEndpoints,
        _ => false,
    }
}

/// Whether the option is a flag, which takes no value.
pub open spec fn is_flag(id: OptionId) -> bool {
    id == OptionId::NoWebSearch || id == OptionId::PrintRequiredEndpoints
}

/// Whether `v` is an acceptable value of the option.
pub open spec fn value_accepted(id: OptionId, v: Seq<char>) -> bool {
    match id {
        OptionId::Timeout => parsed_u64(v) is Some,
        OptionId::PollInterval => parsed_u64(v) is Some,
        OptionId::Page => parsed_u64(v) is Some && parsed_u64(v)->0 <= usize::MAX,
        OptionId::PageSize => parsed_u64(v) is Some && parsed_u64(v)->0 <= usize::MAX,
        OptionId::Format => v == "markdown"@ || v == "json"@,
        _ => true,
    }
}

/// The level that a subcommand name leads to from `level`.
pub open spec fn subcommand_level(level: Level, name: Seq<char>) -> Option<Level> {
    match level {
        Level::Root => if name == "start"@ {
            Some(Level::Start)
        } else if name == "send"@ {
            Some(Level::Send)
        } else if name == "wait"@ {
            Some(Level::Wait)
        } else if name == "history"@ {
            Some(Level::History)
        } else if name == "delete-session"@ {
            Some(Level::DeleteSession)
        } else if name == "doctor"@ {
            Some(Level::Doctor)
        } else if name == "models"@ {
            Some(Level::Models)
        } else if name == "config"@ {
            Some(Level::Config)
        } else {
            None
        },
        Level::Config => if name == "init"@ {
            Some(Level::ConfigInit)
        } else {
            None
        },
        _ => None,
    }
}

/// Whether the level still waits for a subcommand.
pub open spec fn expects_subcommand(level: Level) -> bool {
    level == Level::Root || level == Level::Config
}

/// Whether an argument reads as an option rather than a value.
pub open spec fn flag_like(t: Seq<char>) -> bool {
    t.len() > 1 && t[0] == '-'
}

/// The position of the first `c` in `t` at or after `from`, or `t.len()`.
pub open spec fn find_char(t: Seq<char>, c: char, from: int) -> int
    decreases t.len() - from,
{
    if from >= t.len() {
        t.len() as int
    } else if t[from] == c {
        from
    } else {
        find_char(t, c, from + 1)
    }
}

/// The name of a long option `--name` or `--name=value`.
pub open spec fn long_name(t: Seq<char>) -> Seq<char> {
    t.subrange(2, find_char(t, '=', 2))
}

/// The value given after `=` in a long option, if any.
pub open spec fn inline_value(t: Seq<char>) -> Option<Seq<char>> {
    let k = find_char(t, '=', 2);
    if k < t.len() {
        Some(t.subrange(k + 1, t.len() as int))
    } else {
        None
    }
}

/// The outcome of reading the argument at one position.
pub enum ParseStep {
    /// Reading goes on at `next` with this level and these option values.
    Continue { next: int, level: Level, slots: Seq<Option<Seq<char>>> },
    /// Reading stops with this error.
    Stop(CliError),
}

/// Reads the long option at position `i` as option `id`.
pub open spec fn option_step(
    tokens: Seq<Seq<char>>,
    i: int,
    level: Level,
    slots: Seq<Option<Seq<char>>>,
    id: OptionId,
) -> ParseStep {
    let t = tokens[i];
    if slots[option_index(id)] is Some {
        ParseStep::Stop(CliError::RepeatedOption(id))
    } else if is_flag(id) {
        if inline_value(t) is Some {
            ParseStep::Stop(CliError::FlagWithValue(id))
        } else {
            ParseStep::Continue {
                next: i + 1,
                level,
                slots: slots.update(option_index(id), Some(Seq::empty())),
            }
        }
    } else {
        let (value, next) = match inline_value(t) {
            Some(v) => (Some(v), i + 1),
            None => if i + 1 < tokens.len() && !flag_like(tokens[i + 1]) {
                (Some(tokens[i + 1]), i + 2)
            } else {
                (None, i + 1)
            },
        };
        match value {
            None => ParseStep::Stop(CliError::MissingValue(id)),
            Some(v) => if value_accepted(id, v) {
                ParseStep::Continue { next, level, slots: slots.update(option_index(id), Some(v)) }
            } else {
                ParseStep::Stop(CliError::InvalidValue(id))
            },
        }
    }
}

/// Reads the argument at position `i`.
pub open spec fn parse_step(
    tokens: Seq<Seq<char>>,
    i: int,
    level: Level,
    slots: Seq<Option<Seq<char>>>,
) -> ParseStep {
    let t = tokens[i];
    if t == "--help"@ || t == "-h"@ {
        ParseStep::Stop(CliError::HelpRequested)
    } else if level == Level::Root && (t == "--version"@ || t == "-V"@) {
        ParseStep::Stop(CliError::VersionRequested)
    } else if t.len() > 2 && t[0] == '-' && t[1] == '-' {
        match option_named(long_name(t)) {
            Some(id) => if option_allowed(level, id) {
                option_step(tokens, i, level, slots, id)
            } else {
                ParseStep::Stop(CliError::UnknownArgument(i as usize))
            },
            None => ParseStep::Stop(CliError::UnknownArgument(i as usize)),
        }
    } else if t == "--"@ {
        ParseStep::Stop(CliError::UnexpectedArgument(i as usize))
    } else if flag_like(t) {
        ParseStep::Stop(CliError::UnknownArgument(i as usize))
    } else if expects_subcommand(level) {
        if t == "help"@ {
            ParseStep::Stop(CliError::HelpRequested)
        } else {
            match subcommand_level(level, t) {
                Some(next_level) => ParseStep::Continue { next: i + 1, level: next_level, slots },
                None => ParseStep::Stop(CliError::UnknownSubcommand(i as usize)),
            }
        }
    } else {
        ParseStep::Stop(CliError::UnexpectedArgument(i as usize))
    }
}

/// Reads the arguments from position `i` to the end.
pub open spec fn scan(
    tokens: Seq<Seq<char>>,
    i: int,
    level: Level,
    slots: Seq<Option<Seq<char>>>,
) -> Result<(Level, Seq<Option<Seq<char>>>), CliError>
    decreases tokens.len() - i,
{
    if i >= tokens.len() || i < 0 {
        Ok((level, slots))
    } else {
        match parse_step(tokens, i, level, slots) {
            ParseStep::Stop(e) => Err(e),
            ParseStep::Continue { next, level: next_level, slots: next_slots } => if next > i {
                scan(tokens, next, next_level, next_slots)
            } else {
                Ok((next_level, next_slots))
            },
        }
    }
}

/// The options that a subcommand cannot do without, in the order they are
/// checked.
pub open spec fn required_options(level: Level) -> Seq<OptionId> {
    match level {
        Level::Start => seq![OptionId::Message],
        Level::Send => seq![OptionId::ChatId, OptionId::Message],
        Level::Wait => seq![OptionId::ChatId, OptionId::MessageId],
        Level::History => seq![OptionId::ChatId],
        Level::DeleteSession => seq![OptionId::ChatId],
        _ => Seq::empty(),
    }
}

/// The first required option that was not given, if any.
pub open spec fn first_missing(
    required: Seq<OptionId>,
    slots: Seq<Option<Seq<char>>>,
) -> Option<OptionId>
    decreases required.len(),
{
    if required.len() == 0 {
        None
    } else if slots[option_index(required[0])] is None {
        Some(required[0])
    } else {
        first_missing(required.drop_first(), slots)
    }
}

/// No option given yet.
pub open spec fn empty_slots() -> Seq<Option<Seq<char>>> {
    Seq::new(OPTION_COUNT as nat, |i: int| None)
}

/// What a command line amounts to: the subcommand reached and the values of
/// its options, or why it is not accepted.
pub open spec fn parse_outcome(tokens: Seq<Seq<char>>) -> Result<
    (Level, Seq<Option<Seq<char>>>),
    CliError,
> {
    match scan(tokens, 1, Level::Root, empty_slots()) {
        Err(e) => Err(e),
        Ok((level, slots)) => if expects_subcommand(level) {
            Err(CliError::MissingSubcommand)
        } else {
            match first_missing(required_options(level), slots) {
                Some(id) => Err(CliError::MissingRequired(id)),
                None => Ok((level, slots)),
            }
        },
    }
}

/// The text of every argument.
pub open spec fn arg_texts(args: Seq<&str>) -> Seq<Seq<char>> {
    args.map_values(|a: &str| a@)
}

/// The value of an option, when given.
pub open spec fn slot(slots: Seq<Option<Seq<char>>>, id: OptionId) -> Option<Seq<char>> {
    slots[option_index(id)]
}

/// The numeric value of an option, when given.
pub open spec fn slot_number(slots: Seq<Option<Seq<char>>>, id: OptionId) -> Option<u64> {
    match slot(slots, id) {
        Some(v) => parsed_u64(v),
        None => None,
    }
}

/// Whether an optional `usize` holds the numeric value of an option.
pub open spec fn usize_matches(o: Option<usize>, n: Option<u64>) -> bool {
    match (o, n) {
        (Some(a), Some(b)) => a == b,
        (None, None) => true,
        _ => false,
    }
}

/// Whether a command holds the subcommand and option values read.
pub open spec fn command_built_from(
    command: Command,
    level: Level,
    slots: Seq<Option<Seq<char>>>,
) -> bool {
    match command {
        Command::Start { message, title, no_web_search } => level == Level::Start && Some(message@)
            == slot(slots, OptionId::Message) && opt_string(title) == slot(slots, OptionId::Title)
            && no_web_search == slot(slots, OptionId::NoWebSearch) is Some,
        Command::Send { chat_id, message, no_web_search } => level == Level::Send && Some(chat_id@)
            == slot(slots, OptionId::ChatId) && Some(message@) == slot(slots, OptionId::Message)
            && no_web_search == slot(slots, OptionId::NoWebSearch) is Some,
        Command::Wait { chat_id, message_id, timeout, poll_interval, notify } => level
            == Level::Wait && Some(chat_id@) == slot(slots, OptionId::ChatId) && Some(message_id@)
            == slot(slots, OptionId::MessageId) && timeout == slot_number(slots, OptionId::Timeout)
            && poll_interval == slot_number(slots, OptionId::PollInterval) && opt_string(notify)
            == slot(slots, OptionId::Notify),
        Command::History { chat_id, page, page_size, format } => level == Level::History && Some(
            chat_id@,
        ) == slot(slots, OptionId::ChatId) && usize_matches(page, slot_number(slots, OptionId::Page))
            && usize_matches(page_size, slot_number(slots, OptionId::PageSize)) && opt_string(format)
            == slot(slots, OptionId::Format),
        Command::DeleteSession { chat_id } => level == Level::DeleteSession && Some(chat_id@)
            == slot(slots, OptionId::ChatId),
        Command::Doctor { print_required_endpoints } => level == Level::Doctor
            && print_required_endpoints == slot(slots, OptionId::PrintRequiredEndpoints) is Some,
        Command::Models => level == Level::Models,
        Command::Config { command: ConfigCommand::Init } => level == Level::ConfigInit,
    }
}

/// Whether a parsed command line holds what was read.
pub open spec fn cli_built_from(cli: Cli, level: Level, slots: Seq<Option<Seq<char>>>) -> bool {
    &&& opt_string(cli.base_url) == slot(slots, OptionId::BaseUrl)
    &&& opt_string(cli.api_key) == slot(slots, OptionId::ApiKey)
    &&& opt_string(cli.model) == slot(slots, OptionId::Model)
    &&& command_built_from(cli.command, level, slots)
}

/// The values collected so far, as text.
pub open spec fn slots_view(slots: Seq<Option<String>>) -> Seq<Option<Seq<char>>> {
    slots.map_values(|o: Option<String>| opt_string(o))
}

/// Whether every value collected is acceptable for its option.
pub open spec fn slots_accepted(slots: Seq<Option<Seq<char>>>) -> bool {
    forall|id: OptionId|
        #![trigger slots[option_index(id)]]
        slots[option_index(id)] is Some ==> value_accepted(id, slots[option_index(id)]->0)
}

fn index_of(id: OptionId) -> (r: usize)
    ensures
        r == option_index(id),
        r < OPTION_COUNT,
{
    match id {
        OptionId::BaseUrl => 0,
        OptionId::ApiKey => 1,
        OptionId::Model => 2,
        OptionId::Message => 3,
        OptionId::Title => 4,
        OptionId::NoWebSearch => 5,
        OptionId::ChatId => 6,
        OptionId::MessageId => 7,
        OptionId::Timeout => 8,
        OptionId::PollInterval => 9,
        OptionId::Notify => 10,
        OptionId::Page => 11,
        OptionId::PageSize => 12,
        OptionId::Format => 13,
        OptionId::PrintRequiredEndpoints => 14,
    }
}

fn named_option(name: &str) -> (r: Option<OptionId>)
    ensures
        r == option_named(name@),
{
    if same_text(name, "base-url") {
        Some(OptionId::BaseUrl)
    } else if same_text(name, "api-key") {
        Some(OptionId::ApiKey)
    } else if same_text(name, "model") {
        Some(OptionId::Model)
    } else if same_text(name, "message") {
        Some(OptionId::Message)
    } else if same_text(name, "title") {
        Some(OptionId::Title)
    } else if same_text(name, "no-web-search") {
        Some(OptionId::NoWebSearch)
    } else if same_text(name, "chat-id") {
        Some(OptionId::ChatId)
    } else if same_text(name, "message-id") {
        Some(OptionId::MessageId)
    } else if same_text(name, "timeout") {
        Some(OptionId::Timeout)
    } else if same_text(name, "poll-interval") {
        Some(OptionId::PollInterval)
    } else if same_text(name, "notify") {
        Some(OptionId::Notify)
    } else if same_text(name, "page") {
        Some(OptionId::Page)
    } else if same_text(name, "page-size") {
        Some(OptionId::PageSize)
    } else if same_text(name, "format") {
        Some(OptionId::Format)
    } else if same_text(name, "print-required-endpoints") {
        Some(OptionId::PrintRequiredEndpoints)
    } else {
        None
    }
}

fn allowed(level: Level, id: OptionId) -> (r: bool)
    ensures
        r == option_allowed(level, id),
{
    let global = match id {
        OptionId::BaseUrl | OptionId::ApiKey | OptionId::Model => true,
        _ => false,
    };
    global || match level {
        Level::Start => match id {
            OptionId::Message | OptionId::Title | OptionId::NoWebSearch => true,
            _ => false,
        },
        Level::Send => match id {
            OptionId::ChatId | OptionId::Message | OptionId::NoWebSearch => true,
            _ => false,
        },
        Level::Wait => match id {
            OptionId::ChatId | OptionId::MessageId | OptionId::Timeout | OptionId::PollInterval
            | OptionId::Notify => true,
            _ => false,
        },
        Level::History => match id {
            OptionId::ChatId | OptionId::Page | OptionId::PageSize | OptionId::Format => true,
            _ => false,
        },
        Level::DeleteSession => match id {
            OptionId::ChatId => true,
            _ => false,
        },
        Level::Doctor => match id {
            OptionId::PrintRequiredEndpoints => true,
            _ => false,
        },
        _ => false,
    }
}

fn flag(id: OptionId) -> (r: bool)
    ensures
        r == is_flag(id),
{
    match id {
        OptionId::NoWebSearch | OptionId::PrintRequiredEndpoints => true,
        _ => false,
    }
}

fn accepts(id: OptionId, v: &str) -> (r: bool)
    ensures
        r == value_accepted(id, v@),
{
    match id {
        OptionId::Timeout | OptionId::PollInterval => parse_u64(v).is_some(),
        OptionId::Page | OptionId::PageSize => match parse_u64(v) {
            Some(n) => n <= usize::MAX as u64,
            None => false,
        },
        OptionId::Format => same_text(v, "markdown") || same_text(v, "json"),
        _ => true,
    }
}

fn subcommand(level: Level, name: &str) -> (r: Option<Level>)
    ensures
        r == subcommand_level(level, name@),
{
    match level {
        Level::Root => if same_text(name, "start") {
            Some(Level::Start)
        } else if same_text(name, "send") {
            Some(Level::Send)
        } else if same_text(name, "wait") {
            Some(Level::Wait)
        } else if same_text(name, "history") {
            Some(Level::History)
        } else if same_text(name, "delete-session") {
            Some(Level::DeleteSession)
        } else if same_text(name, "doctor") {
            Some(Level::Doctor)
        } else if same_text(name, "models") {
            Some(Level::Models)
        } else if same_text(name, "config") {
            Some(Level::Config)
        } else {
            None
        },
        Level::Config => if same_text(name, "init") {
            Some(Level::ConfigInit)
        } else {
            None
        },
        _ => None,
    }
}

fn is_flag_like(t: &str) -> (r: bool)
    ensures
        r == flag_like(t@),
{
    t.unicode_len() > 1 && t.get_char(0) == '-'
}

fn find_eq(t: &str, from: usize) -> (r: usize)
    requires
        from <= t@.len(),
    ensures
        r as int == find_char(t@, '=', from as int),
        from <= r <= t@.len(),
{
    let len = t.unicode_len();
    let mut k = from;
    while k < len
        invariant
            from <= k <= len,
            len == t@.len(),
            find_char(t@, '=', from as int) == find_char(t@, '=', k as int),
        decreases len - k,
    {
        if t.get_char(k) == '=' {
            return k;
        }
        k = k + 1;
    }
    k
}

fn store(slots: &mut Vec<Option<String>>, id: OptionId, value: &str)
    requires
        old(slots)@.len() == OPTION_COUNT,
    ensures
        final(slots)@.len() == OPTION_COUNT,
        slots_view(final(slots)@) == slots_view(old(slots)@).update(option_index(id), Some(value@)),
{
    let k = index_of(id);
    slots.set(k, Some(value.to_owned()));
    assert(slots_view(slots@) =~= slots_view(old(slots)@).update(option_index(id), Some(value@)));
}

fn read_option(
    args: &[&str],
    i: usize,
    level: Level,
    slots: &mut Vec<Option<String>>,
    id: OptionId,
) -> (r: Result<(usize, Level), CliError>)
    requires
        1 <= i < args@.len(),
        old(slots)@.len() == OPTION_COUNT,
        slots_accepted(slots_view(old(slots)@)),
        args@[i as int]@.len() > 2,
    ensures
        final(slots)@.len() == OPTION_COUNT,
        slots_accepted(slots_view(final(slots)@)),
        match option_step(arg_texts(args@), i as int, level, slots_view(old(slots)@), id) {
            ParseStep::Stop(e) => r == Err::<(usize, Level), CliError>(e),
            ParseStep::Continue { next, level: l, slots: s } => r is Ok && r->Ok_0.0 == next
                && r->Ok_0.1 == l && slots_view(final(slots)@) == s && i < next <= args@.len(),
        },
{
    let ghost tokens = arg_texts(args@);
    let t: &str = args[i];
    assert(tokens[i as int] == t@);
    let k = index_of(id);
    if slots[k].is_some() {
        return Err(CliError::RepeatedOption(id));
    }
    let eq = find_eq(t, 2);
    let len = t.unicode_len();
    if flag(id) {
        if eq < len {
            return Err(CliError::FlagWithValue(id));
        }
        proof {
            reveal_strlit("");
            assert(""@ =~= Seq::<char>::empty());
        }
        store(slots, id, "");
        proof {
            let sv = slots_view(slots@);
            assert forall|j: OptionId| #![trigger sv[option_index(j)]] sv[option_index(j)] is Some
                implies value_accepted(j, sv[option_index(j)]->0) by {
                if j != id {
                    assert(option_index(j) != option_index(id));
                }
            }
        }
        return Ok((i + 1, level));
    }
    let (value, next): (&str, usize) = if eq < len {
        (t.substring_char(eq + 1, len), i + 1)
    } else if i + 1 < args.len() && !is_flag_like(args[i + 1]) {
        assert(tokens[i + 1] == args@[i + 1]@);
        (args[i + 1], i + 2)
    } else {
        return Err(CliError::MissingValue(id));
    };
    if !accepts(id, value) {
        return Err(CliError::InvalidValue(id));
    }
    store(slots, id, value);
    proof {
        let sv = slots_view(slots@);
        assert forall|j: OptionId| #![trigger sv[option_index(j)]] sv[option_index(j)] is Some
            implies value_accepted(j, sv[option_index(j)]->0) by {
            if j != id {
                assert(option_index(j) != option_index(id));
            }
        }
    }
    Ok((next, level))
}

fn read_arg(args: &[&str], i: usize, level: Level, slots: &mut Vec<Option<String>>) -> (r: Result<
    (usize, Level),
    CliError,
>)
    requires
        1 <= i < args@.len(),
        old(slots)@.len() == OPTION_COUNT,
        slots_accepted(slots_view(old(slots)@)),
    ensures
        final(slots)@.len() == OPTION_COUNT,
        slots_accepted(slots_view(final(slots)@)),
        match parse_step(arg_texts(args@), i as int, level, slots_view(old(slots)@)) {
            ParseStep::Stop(e) => r == Err::<(usize, Level), CliError>(e),
            ParseStep::Continue { next, level: l, slots: s } => r is Ok && r->Ok_0.0 == next
                && r->Ok_0.1 == l && slots_view(final(slots)@) == s && i < next <= args@.len(),
        },
{
    let ghost tokens = arg_texts(args@);
    let t: &str = args[i];
    assert(tokens[i as int] == t@);
    proof {
        reveal_strlit("--help");
        reveal_strlit("-h");
        reveal_strlit("--version");
        reveal_strlit("-V");
        reveal_strlit("--");
    }
    if same_text(t, "--help") || same_text(t, "-h") {
        return Err(CliError::HelpRequested);
    }
    let at_root = match level {
        Level::Root => true,
        _ => false,
    };
    if at_root && (same_text(t, "--version") || same_text(t, "-V")) {
        return Err(CliError::VersionRequested);
    }
    let len = t.unicode_len();
    if len > 2 && t.get_char(0) == '-' && t.get_char(1) == '-' {
        let eq = find_eq(t, 2);
        let name = t.substring_char(2, eq);
        return match named_option(name) {
            Some(id) => if allowed(level, id) {
                read_option(args, i, level, slots, id)
            } else {
                Err(CliError::UnknownArgument(i))
            },
            None => Err(CliError::UnknownArgument(i)),
        };
    }
    if same_text(t, "--") {
        return Err(CliError::UnexpectedArgument(i));
    }
    if is_flag_like(t) {
        return Err(CliError::UnknownArgument(i));
    }
    let waiting = match level {
        Level::Root | Level::Config => true,
        _ => false,
    };
    if waiting {
        if same_text(t, "help") {
            return Err(CliError::HelpRequested);
        }
        match subcommand(level, t) {
            Some(next_level) => Ok((i + 1, next_level)),
            None => Err(CliError::UnknownSubcommand(i)),
        }
    } else {
        Err(CliError::UnexpectedArgument(i))
    }
}

fn first_missing_of(level: Level, slots: &Vec<Option<String>>) -> (r: Option<OptionId>)
    requires
        slots@.len() == OPTION_COUNT,
    ensures
        r == first_missing(required_options(level), slots_view(slots@)),
{
    proof {
        reveal_with_fuel(first_missing, 3);
    }
    let ghost sv = slots_view(slots@);
    match level {
        Level::Start => {
            assert(required_options(level).drop_first() =~= Seq::<OptionId>::empty());
            if slots[3].is_none() {
                Some(OptionId::Message)
            } else {
                None
            }
        },
        Level::Send => {
            let ghost req = required_options(level);
            assert(req.drop_first() =~= seq![OptionId::Message]);
            assert(req.drop_first().drop_first() =~= Seq::<OptionId>::empty());
            if slots[6].is_none() {
                Some(OptionId::ChatId)
            } else if slots[3].is_none() {
                Some(OptionId::Message)
            } else {
                None
            }
        },
        Level::Wait => {
            let ghost req = required_options(level);
            assert(req.drop_first() =~= seq![OptionId::MessageId]);
            assert(req.drop_first().drop_first() =~= Seq::<OptionId>::empty());
            if slots[6].is_none() {
                Some(OptionId::ChatId)
            } else if slots[7].is_none() {
                Some(OptionId::MessageId)
            } else {
                None
            }
        },
        Level::History | Level::DeleteSession => {
            assert(required_options(level).drop_first() =~= Seq::<OptionId>::empty());
            if slots[6].is_none() {
                Some(OptionId::ChatId)
            } else {
                None
            }
        },
        _ => None,
    }
}

fn slot_text(slots: &Vec<Option<String>>, id: OptionId) -> (r: Option<String>)
    requires
        slots@.len() == OPTION_COUNT,
    ensures
        opt_string(r) == slot(slots_view(slots@), id),
{
    let k = index_of(id);
    match &slots[k] {
        Some(s) => Some(s.clone()),
        None => None,
    }
}

fn required_text(slots: &Vec<Option<String>>, id: OptionId) -> (r: String)
    requires
        slots@.len() == OPTION_COUNT,
        slot(slots_view(slots@), id) is Some,
    ensures
        Some(r@) == slot(slots_view(slots@), id),
{
    match slot_text(slots, id) {
        Some(s) => s,
        None => String::new(),
    }
}

fn slot_u64(slots: &Vec<Option<String>>, id: OptionId) -> (r: Option<u64>)
    requires
        slots@.len() == OPTION_COUNT,
    ensures
        r == slot_number(slots_view(slots@), id),
{
    let k = index_of(id);
    match &slots[k] {
        Some(s) => parse_u64(s.as_str()),
        None => None,
    }
}

fn slot_usize(slots: &Vec<Option<String>>, id: OptionId) -> (r: Option<usize>)
    requires
        slots@.len() == OPTION_COUNT,
        slot_number(slots_view(slots@), id) is Some ==> slot_number(slots_view(slots@), id)->0
            <= usize::MAX,
    ensures
        usize_matches(r, slot_number(slots_view(slots@), id)),
{
    match slot_u64(slots, id) {
        Some(n) => Some(n as usize),
        None => None,
    }
}

fn build_command(level: Level, slots: &Vec<Option<String>>) -> (c: Command)
    requires
        slots@.len() == OPTION_COUNT,
        !expects_subcommand(level),
        first_missing(required_options(level), slots_view(slots@)) is None,
        slots_accepted(slots_view(slots@)),
    ensures
        command_built_from(c, level, slots_view(slots@)),
{
    proof {
        reveal_with_fuel(first_missing, 3);
    }
    let ghost sv = slots_view(slots@);
    match level {
        Level::Start => {
            assert(required_options(level).drop_first() =~= Seq::<OptionId>::empty());
            Command::Start {
                message: required_text(slots, OptionId::Message),
                title: slot_text(slots, OptionId::Title),
                no_web_search: slots[5].is_some(),
            }
        },
        Level::Send => {
            assert(required_options(level).drop_first() =~= seq![OptionId::Message]);
            Command::Send {
                chat_id: required_text(slots, OptionId::ChatId),
                message: required_text(slots, OptionId::Message),
                no_web_search: slots[5].is_some(),
            }
        },
        Level::Wait => {
            assert(required_options(level).drop_first() =~= seq![OptionId::MessageId]);
            Command::Wait {
                chat_id: required_text(slots, OptionId::ChatId),
                message_id: required_text(slots, OptionId::MessageId),
                timeout: slot_u64(slots, OptionId::Timeout),
                poll_interval: slot_u64(slots, OptionId::PollInterval),
                notify: slot_text(slots, OptionId::Notify),
            }
        },
        Level::History => {
            assert(required_options(level).drop_first() =~= Seq::<OptionId>::empty());
            assert(sv[option_index(OptionId::Page)] is Some ==> value_accepted(
                OptionId::Page,
                sv[option_index(OptionId::Page)]->0,
            ));
            assert(sv[option_index(OptionId::PageSize)] is Some ==> value_accepted(
                OptionId::PageSize,
                sv[option_index(OptionId::PageSize)]->0,
            ));
            Command::History {
                chat_id: required_text(slots, OptionId::ChatId),
                page: slot_usize(slots, OptionId::Page),
                page_size: slot_usize(slots, OptionId::PageSize),
                format: slot_text(slots, OptionId::Format),
            }
        },
        Level::DeleteSession => {
            assert(required_options(level).drop_first() =~= Seq::<OptionId>::empty());
            Command::DeleteSession { chat_id: required_text(slots, OptionId::ChatId) }
        },
        Level::Doctor => Command::Doctor { print_required_endpoints: slots[14].is_some() },
        Level::Models => Command::Models,
        _ => Command::Config { command: ConfigCommand::Init },
    }
}

impl Cli {
    /// Parses a command line; the first argument is the program's name.
    /// The result is the command that the arguments spell, or the first
    /// reason, reading from the left, why they spell none; a missing
    /// subcommand or required option is reported after all arguments were
    /// read.
    pub fn try_parse_from(args: &[&str]) -> (r: Result<Cli, CliError>)
        ensures
            match parse_outcome(arg_texts(args@)) {
                Ok((level, slots)) => r is Ok && cli_built_from(r->Ok_0, level, slots),
                Err(e) => r == Err::<Cli, CliError>(e),
            },
    {
        let ghost tokens = arg_texts(args@);
        let mut slots: Vec<Option<String>> = Vec::new();
        let mut n: usize = 0;
        while n < OPTION_COUNT
            invariant
                n <= OPTION_COUNT,
                slots@.len() == n,
                forall|j: int| 0 <= j < n ==> slots@[j] is None,
            decreases OPTION_COUNT - n,
        {
            slots.push(None);
            n = n + 1;
        }
        assert(slots_view(slots@) =~= empty_slots());
        let mut level = Level::Root;
        let mut i: usize = 1;
        while i < args.len()
            invariant
                1 <= i,
                slots@.len() == OPTION_COUNT,
                slots_accepted(slots_view(slots@)),
                tokens == arg_texts(args@),
                scan(tokens, 1, Level::Root, empty_slots()) == scan(
                    tokens,
                    i as int,
                    level,
                    slots_view(slots@),
                ),
            decreases args@.len() - i,
        {
            match read_arg(args, i, level, &mut slots) {
                Ok((next, next_level)) => {
                    i = next;
                    level = next_level;
                },
                Err(e) => {
                    return Err(e);
                },
            }
        }
        let waiting = match level {
            Level::Root | Level::Config => true,
            _ => false,
        };
        if waiting {
            return Err(CliError::MissingSubcommand);
        }
        if let Some(id) = first_missing_of(level, &slots) {
            return Err(CliError::MissingRequired(id));
        }
        let command = build_command(level, &slots);
        Ok(Cli {
            base_url: slot_text(&slots, OptionId::BaseUrl),
            api_key: slot_text(&slots, OptionId::ApiKey),
            model: slot_text(&slots, OptionId::Model),
            command,
        })
    }
}

/// The name of a global option, as written after `--`.
pub open spec fn global_option_name(id: OptionId) -> Seq<char> {
    match id {
        OptionId::BaseUrl => "base-url"@,
        OptionId::ApiKey => "api-key"@,
        _ => "model"@,
    }
}

/// Reading from a position looks only at the arguments from there on.
proof fn lemma_scan_reads_from_position(
    a: Seq<Seq<char>>,
    b: Seq<Seq<char>>,
    i: int,
    level: Level,
    slots: Seq<Option<Seq<char>>>,
)
    requires
        a.len() == b.len(),
        0 <= i,
        forall|j: int| i <= j < a.len() ==> a[j] == b[j],
    ensures
        scan(a, i, level, slots) == scan(b, i, level, slots),
    decreases a.len() - i,
{
    if i < a.len() {
        assert(a[i] == b[i]);
        if i + 1 < a.len() {
            assert(a[i + 1] == b[i + 1]);
        }
        assert(parse_step(a, i, level, slots) == parse_step(b, i, level, slots));
        match parse_step(a, i, level, slots) {
            ParseStep::Continue { next, level: next_level, slots: next_slots } => {
                if next > i {
                    lemma_scan_reads_from_position(a, b, next, next_level, next_slots);
                }
            },
            ParseStep::Stop(_) => {},
        }
    }
}

/// What the token `--name` of a global option reads as.
proof fn lemma_global_token(id: OptionId)
    requires
        is_global(id),
    ensures
        ({
            let g = "--"@ + global_option_name(id);
            &&& g.len() > 2 && g[0] == '-' && g[1] == '-'
            &&& g != "--help"@ && g != "-h"@ && g != "--version"@ && g != "-V"@
            &&& option_named(long_name(g)) == Some(id)
            &&& inline_value(g) is None
        }),
{
    reveal_strlit("--");
    reveal_strlit("--help");
    reveal_strlit("-h");
    reveal_strlit("--version");
    reveal_strlit("-V");
    reveal_strlit("base-url");
    reveal_strlit("api-key");
    reveal_strlit("model");
    let name = global_option_name(id);
    let g = "--"@ + name;
    reveal_with_fuel(find_char, 10);
    assert(find_char(g, '=', 2) == g.len());
    assert(long_name(g) =~= name);
    if id == OptionId::ApiKey {
        assert(g[2] != "--version"@[2]);
    }
}

/// What the word of a top-level subcommand reads as.
proof fn lemma_subcommand_token(sub: Seq<char>)
    requires
        subcommand_level(Level::Root, sub) is Some,
    ensures
        !flag_like(sub),
        sub.len() > 0 && sub[0] != '-',
        sub != "--help"@ && sub != "-h"@ && sub != "--version"@ && sub != "-V"@ && sub != "--"@,
        sub != "help"@,
{
    reveal_strlit("--");
    reveal_strlit("--help");
    reveal_strlit("-h");
    reveal_strlit("--version");
    reveal_strlit("-V");
    reveal_strlit("help");
    reveal_strlit("start");
    reveal_strlit("send");
    reveal_strlit("wait");
    reveal_strlit("history");
    reveal_strlit("delete-session");
    reveal_strlit("doctor");
    reveal_strlit("models");
    reveal_strlit("config");
    assert(sub[0] != '-');
    assert(sub[0] != "help"@[0] || sub.len() != 4);
    assert(sub[0] != "--help"@[0]);
    assert(sub[0] != "-h"@[0]);
    assert(sub[0] != "--version"@[0]);
    assert(sub[0] != "-V"@[0]);
    assert(sub[0] != "--"@[0]);
}

/// A global option may stand before or after the subcommand: moving
/// `--name value` from just before the subcommand word to just after it
/// changes nothing in the outcome of the parse, whatever follows.
pub proof fn lemma_global_option_either_side(
    program: Seq<char>,
    id: OptionId,
    value: Seq<char>,
    sub: Seq<char>,
    rest: Seq<Seq<char>>,
)
    requires
        is_global(id),
        !flag_like(value),
        subcommand_level(Level::Root, sub) is Some,
    ensures
        parse_outcome(seq![program, "--"@ + global_option_name(id), value, sub] + rest)
            == parse_outcome(seq![program, sub, "--"@ + global_option_name(id), value] + rest),
{
    lemma_global_token(id);
    lemma_subcommand_token(sub);
    let g = "--"@ + global_option_name(id);
    let a = seq![program, g, value, sub] + rest;
    let b = seq![program, sub, g, value] + rest;
    let lv = subcommand_level(Level::Root, sub)->0;
    let e = empty_slots();
    let s1 = e.update(option_index(id), Some(value));
    assert(a[1] == g && a[2] == value && a[3] == sub);
    assert(b[1] == sub && b[2] == g && b[3] == value);
    assert(e[option_index(id)] is None);
    assert(parse_step(a, 1, Level::Root, e) == ParseStep::Continue {
        next: 3,
        level: Level::Root,
        slots: s1,
    });
    assert(scan(a, 1, Level::Root, e) == scan(a, 3, Level::Root, s1));
    assert(parse_step(a, 3, Level::Root, s1) == ParseStep::Continue { next: 4, level: lv, slots: s1 });
    assert(scan(a, 3, Level::Root, s1) == scan(a, 4, lv, s1));
    assert(parse_step(b, 1, Level::Root, e) == ParseStep::Continue { next: 2, level: lv, slots: e });
    assert(scan(b, 1, Level::Root, e) == scan(b, 2, lv, e));
    assert(parse_step(b, 2, lv, e) == ParseStep::Continue { next: 4, level: lv, slots: s1 });
    assert(scan(b, 2, lv, e) == scan(b, 4, lv, s1));
    assert forall|j: int| 4 <= j < a.len() implies a[j] == b[j] by {
        assert(a[j] == rest[j - 4]);
        assert(b[j] == rest[j - 4]);
    }
    lemma_scan_reads_from_position(a, b, 4, lv, s1);
}

/// Each global option's value reaches its own field: a parsed command line
/// holds as its base URL, API key and model exactly the values read for
/// `--base-url`, `--api-key` and `--model` (none when the option is
/// absent), and the three are read into three different places, so none
/// takes another's value.
pub proof fn lemma_global_values_keep_their_option(
    cli: Cli,
    level: Level,
    slots: Seq<Option<Seq<char>>>,
)
    requires
        cli_built_from(cli, level, slots),
    ensures
        opt_string(cli.base_url) == slots[option_index(OptionId::BaseUrl)],
        opt_string(cli.api_key) == slots[option_index(OptionId::ApiKey)],
        opt_string(cli.model) == slots[option_index(OptionId::Model)],
        option_index(OptionId::BaseUrl) != option_index(OptionId::ApiKey),
        option_index(OptionId::BaseUrl) != option_index(OptionId::Model),
        option_index(OptionId::ApiKey) != option_index(OptionId::Model),
{
}

/// A global option given before a subcommand that needs no options is read
/// as exactly its value: the command line `program --name value sub` parses
/// to that subcommand with that one option set to `value` and every other
/// option absent.
pub proof fn lemma_global_option_read(
    program: Seq<char>,
    id: OptionId,
    value: Seq<char>,
    sub: Seq<char>,
)
    requires
        is_global(id),
        !flag_like(value),
        subcommand_level(Level::Root, sub) is Some,
        !expects_subcommand(subcommand_level(Level::Root, sub)->0),
        required_options(subcommand_level(Level::Root, sub)->0).len() == 0,
    ensures
        parse_outcome(seq![program, "--"@ + global_option_name(id), value, sub]) == Ok::<
            (Level, Seq<Option<Seq<char>>>),
            CliError,
        >((
            subcommand_level(Level::Root, sub)->0,
            empty_slots().update(option_index(id), Some(value)),
        )),
{
    lemma_global_token(id);
    lemma_subcommand_token(sub);
    let g = "--"@ + global_option_name(id);
    let a = seq![program, g, value, sub];
    let lv = subcommand_level(Level::Root, sub)->0;
    let e = empty_slots();
    let s1 = e.update(option_index(id), Some(value));
    assert(e[option_index(id)] is None);
    assert(parse_step(a, 1, Level::Root, e) == ParseStep::Continue {
        next: 3,
        level: Level::Root,
        slots: s1,
    });
    assert(scan(a, 1, Level::Root, e) == scan(a, 3, Level::Root, s1));
    assert(parse_step(a, 3, Level::Root, s1) == ParseStep::Continue { next: 4, level: lv, slots: s1 });
    assert(scan(a, 3, Level::Root, s1) == scan(a, 4, lv, s1));
    assert(first_missing(required_options(lv), s1) is None);
}

} // verus!
