//! The decisions of the command-line program that are not about the
//! server: models and web search for a message, the interactive setup, the
//! diagnostics report and the completion notification.
use vstd::prelude::*;
use crate::config::Config;
use crate::text::{decimal, decimal_string, split_words, trim_text, trimmed, whitespace_words};

verus! {

/// Why a command cannot go ahead.
#[derive(Clone, Debug, PartialEq, Eq, Structural)]
pub enum CommandError {
    /// No model was given on the command line, in the environment or in the
    /// configuration file.
    NoModelSpecified,
}

/// `n` asterisks.
pub open spec fn stars(n: nat) -> Seq<char> {
    Seq::new(n, |i: int| '*')
}

/// An API key as shown to the user: all asterisks when it has at most seven
/// characters, else its first three characters, `...` and its last four.
pub open spec fn masked_key(key: Seq<char>) -> Seq<char> {
    if key.len() <= 7 {
        stars(key.len())
    } else {
        key.take(3) + "..."@ + key.skip(key.len() - 4)
    }
}

/// Masks an API key for display: a key of at most seven characters becomes
/// as many asterisks; a longer one keeps only its first three and last four
/// characters, around `...`.
pub fn mask_api_key(api_key: &str) -> (masked: String)
    ensures
        masked@ == masked_key(api_key@),
{
    let n = api_key.unicode_len();
    if n <= 7 {
        proof {
            reveal_strlit("*");
        }
        let mut masked = String::new();
        let mut i: usize = 0;
        while i < n
            invariant
                i <= n,
                masked@ == stars(i as nat),
            decreases n - i,
        {
            proof {
                reveal_strlit("*");
            }
            masked.append("*");
            assert(masked@ =~= stars((i + 1) as nat));
            i = i + 1;
        }
        return masked;
    }
    let mut masked = api_key.substring_char(0, 3).to_owned();
    masked.append("...");
    masked.append(api_key.substring_char(n - 4, n));
    assert(masked@ =~= masked_key(api_key@));
    masked
}

/// A masked key never shows more than seven of the key's characters: a
/// short key is shown as asterisks only, and a long one as its first three
/// and last four characters around `...`, ten characters in all.
pub proof fn lemma_masked_key_hides_the_middle(key: Seq<char>)
    ensures
        key.len() <= 7 ==> masked_key(key).len() == key.len() && forall|i: int|
            0 <= i < key.len() ==> #[trigger] masked_key(key)[i] == '*',
        key.len() > 7 ==> masked_key(key).len() == 10 && masked_key(key).take(3) == key.take(3)
            && masked_key(key).skip(6) == key.skip(key.len() - 4),
{
    if key.len() > 7 {
        reveal_strlit("...");
        assert(masked_key(key).take(3) =~= key.take(3));
        assert(masked_key(key).skip(6) =~= key.skip(key.len() - 4));
    }
}

/// The model for a message: the configured default model, which must not be
/// empty.
pub fn resolve_model(default_model: &str) -> (r: Result<String, CommandError>)
    ensures
        default_model@.len() == 0 ==> r == Err::<String, CommandError>(
            CommandError::NoModelSpecified,
        ),
        default_model@.len() > 0 ==> r is Ok && r->Ok_0@ == default_model@,
{
    if default_model.is_empty() {
        Err(CommandError::NoModelSpecified)
    } else {
        Ok(default_model.to_owned())
    }
}

/// Whether a message is sent with web search: when the configuration turns
/// it on and the message does not turn it off.
pub fn resolve_web_search(config_web_search: bool, no_web_search: bool) -> (r: bool)
    ensures
        r == (config_web_search && !no_web_search),
{
    config_web_search && !no_web_search
}

/// One question of the interactive setup.
#[derive(Clone, Debug)]
pub struct Prompt {
    /// What is asked for.
    pub label: String,
    /// The value kept when the answer is empty.
    pub current: String,
    /// How the current value is shown, if at all.
    pub shown: Option<String>,
}

/// The text that asks a question: `label [shown]: `, or `label: ` when
/// nothing is shown.
pub open spec fn prompt_line(label: Seq<char>, shown: Option<Seq<char>>) -> Seq<char> {
    match shown {
        Some(s) => label + " ["@ + s + "]: "@,
        None => label + ": "@,
    }
}

/// The text that asks a question.
pub fn prompt_text(p: &Prompt) -> (t: String)
    ensures
        t@ == prompt_line(p.label@, crate::config::opt_string(p.shown)),
{
    let mut t = p.label.clone();
    match &p.shown {
        Some(s) => {
            t.append(" [");
            t.append(s.as_str());
            t.append("]: ");
        },
        None => {
            t.append(": ");
        },
    }
    t
}

/// The server URL proposed by the setup: the configured one, or
/// `http://localhost:8080` when none is configured.
pub open spec fn proposed_base_url(existing: Seq<char>) -> Seq<char> {
    if existing.len() == 0 {
        "http://localhost:8080"@
    } else {
        existing
    }
}

/// The three questions of the interactive setup, in order: the server URL
/// (proposing the configured one, or `http://localhost:8080`), the API key
/// (shown masked, when there is one) and the default model (shown, when
/// there is one).
pub fn config_init_prompts(existing: &Config) -> (r: (Prompt, Prompt, Prompt))
    ensures
        r.0.label@ == "Open WebUI base URL"@,
        r.0.current@ == proposed_base_url(existing.base_url@),
        r.0.shown is Some && r.0.shown->0@ == proposed_base_url(existing.base_url@),
        r.1.label@ == "API key"@,
        r.1.current@ == existing.api_key@,
        r.1.shown is Some <==> existing.api_key@.len() > 0,
        r.1.shown is Some ==> r.1.shown->0@ == masked_key(existing.api_key@),
        r.2.label@ == "Default model (leave empty to skip)"@,
        r.2.current@ == existing.default_model@,
        r.2.shown is Some <==> existing.default_model@.len() > 0,
        r.2.shown is Some ==> r.2.shown->0@ == existing.default_model@,
{
    let base_url_default = if existing.base_url.as_str().is_empty() {
        "http://localhost:8080".to_owned()
    } else {
        existing.base_url.clone()
    };
    let base = Prompt {
        label: "Open WebUI base URL".to_owned(),
        current: base_url_default.clone(),
        shown: Some(base_url_default),
    };
    let key = Prompt {
        label: "API key".to_owned(),
        current: existing.api_key.clone(),
        shown: if existing.api_key.as_str().is_empty() {
            None
        } else {
            Some(mask_api_key(existing.api_key.as_str()))
        },
    };
    let model = Prompt {
        label: "Default model (leave empty to skip)".to_owned(),
        current: existing.default_model.clone(),
        shown: if existing.default_model.as_str().is_empty() {
            None
        } else {
            Some(existing.default_model.clone())
        },
    };
    (base, key, model)
}

/// The value that an answer gives: the answer without surrounding white
/// space, or the current value when that leaves nothing.
pub fn prompt_answer(input: &str, current: &str) -> (r: String)
    ensures
        trimmed(input@).len() == 0 ==> r@ == current@,
        trimmed(input@).len() > 0 ==> r@ == trimmed(input@),
{
    let answer = trim_text(input);
    if answer.as_str().is_empty() {
        current.to_owned()
    } else {
        answer
    }
}

impl Config {
    /// The configuration that the setup saves: the answered server URL, key
    /// and model, with the other settings kept.
    pub fn with_answers(&self, base_url: String, api_key: String, default_model: String) -> (c:
        Config)
        ensures
            c.base_url == base_url,
            c.api_key == api_key,
            c.default_model == default_model,
            c.timeout == self.timeout,
            c.poll_interval == self.poll_interval,
            c.web_search == self.web_search,
    {
        Config {
            base_url,
            api_key,
            default_model,
            timeout: self.timeout,
            poll_interval: self.poll_interval,
            web_search: self.web_search,
        }
    }
}

/// How a configured model is shown: `(none)` when empty.
pub open spec fn model_shown(model: Seq<char>) -> Seq<char> {
    if model.len() == 0 {
        "(none)"@
    } else {
        model
    }
}

/// The literal text of a boolean.
pub open spec fn bool_text(b: bool) -> Seq<char> {
    if b {
        "true"@
    } else {
        "false"@
    }
}

/// The opening of the diagnostics report: its title and the configuration,
/// with the API key masked.
pub open spec fn diagnostics_header(c: Config) -> Seq<char> {
    "openwebui-chat diagnostics\n==========================\n\nConfiguration:\n  base_url:       "@
        + c.base_url@ + "\n  api_key:        "@ + masked_key(c.api_key@)
        + "\n  default_model:  "@ + model_shown(c.default_model@) + "\n  timeout:        "@
        + decimal(c.timeout as nat) + "s\n  poll_interval:  "@ + decimal(c.poll_interval as nat)
        + "s\n  web_search:     "@ + bool_text(c.web_search) + "\n\n"@
}

/// Renders the opening of the diagnostics report.
pub fn diagnostics_header_text(c: &Config) -> (t: String)
    ensures
        t@ == diagnostics_header(*c),
{
    let mut t = "openwebui-chat diagnostics\n==========================\n\nConfiguration:\n  base_url:       ".to_owned();
    t.append(c.base_url.as_str());
    t.append("\n  api_key:        ");
    let masked = mask_api_key(c.api_key.as_str());
    t.append(masked.as_str());
    t.append("\n  default_model:  ");
    proof {
        reveal_strlit("(none)");
    }
    if c.default_model.as_str().is_empty() {
        t.append("(none)");
    } else {
        t.append(c.default_model.as_str());
    }
    t.append("\n  timeout:        ");
    let timeout = decimal_string(c.timeout);
    t.append(timeout.as_str());
    t.append("s\n  poll_interval:  ");
    let poll = decimal_string(c.poll_interval);
    t.append(poll.as_str());
    t.append("s\n  web_search:     ");
    if c.web_search {
        t.append("true");
    } else {
        t.append("false");
    }
    t.append("\n\n");
    assert(t@ =~= diagnostics_header(*c));
    t
}

/// Whether the configured default model is among the available ones.
#[derive(Clone, Debug, PartialEq, Eq, Structural)]
pub enum DefaultModelStatus {
    /// No default model is configured.
    NotConfigured,
    /// The default model is available.
    Listed,
    /// The default model is not available.
    NotListed,
}

/// Checks the configured default model against the available models.
pub fn default_model_status(models: &Vec<String>, default_model: &str) -> (r: DefaultModelStatus)
    ensures
        default_model@.len() == 0 ==> r == DefaultModelStatus::NotConfigured,
        default_model@.len() > 0 ==> (r == DefaultModelStatus::Listed <==> exists|i: int|
            0 <= i < models@.len() && #[trigger] models@[i]@ == default_model@),
        default_model@.len() > 0 ==> r != DefaultModelStatus::NotConfigured,
{
    if default_model.is_empty() {
        return DefaultModelStatus::NotConfigured;
    }
    let wanted = default_model.to_owned();
    let mut i: usize = 0;
    while i < models.len()
        invariant
            i <= models@.len(),
            wanted@ == default_model@,
            default_model@.len() > 0,
            forall|j: int| 0 <= j < i ==> #[trigger] models@[j]@ != default_model@,
        decreases models@.len() - i,
    {
        if models[i] == wanted {
            return DefaultModelStatus::Listed;
        }
        i = i + 1;
    }
    DefaultModelStatus::NotListed
}

/// The program and arguments of a notification command.
#[derive(Clone, Debug)]
pub struct NotifyCommand {
    pub program: String,
    pub args: Vec<String>,
}

/// The notification to run for a configured command: none when there is no
/// command or it has no words; else its first word as the program and the
/// other words as its arguments.
pub fn notification_command(command: Option<&str>) -> (r: Option<NotifyCommand>)
    ensures
        match command {
            None => r is None,
            Some(c) => {
                let words = whitespace_words(c@);
                if c@.len() == 0 || words.len() == 0 {
                    r is None
                } else {
                    &&& r is Some
                    &&& r->0.program@ == words[0]
                    &&& r->0.args@.map_values(|w: String| w@) == words.drop_first()
                }
            },
        },
{
    let c = match command {
        Some(c) => c,
        None => {
            return None;
        },
    };
    if c.is_empty() {
        return None;
    }
    let mut words = split_words(c);
    if words.len() == 0 {
        return None;
    }
    let ghost all = words@;
    let program = words.remove(0);
    assert(words@ =~= all.drop_first());
    assert(words@.map_values(|w: String| w@) =~= all.map_values(|w: String| w@).drop_first());
    Some(NotifyCommand { program, args: words })
}

} // verus!
