//! Configuration: the built-in defaults, the values of the configuration
//! file, and their layering under environment variables and command-line
//! flags.
use vstd::prelude::*;
use crate::text::{parse_u64, parsed_u64};

verus! {

/// Maximum wait for an assistant response, in seconds, unless configured.
pub const DEFAULT_TIMEOUT: u64 = 3300;

/// Seconds between polls, unless configured.
pub const DEFAULT_POLL_INTERVAL: u64 = 3;

/// Seconds allowed for connecting to the server.
pub const DEFAULT_CONNECT_TIMEOUT: u64 = 10;

/// Seconds allowed for one request to the server.
pub const DEFAULT_REQUEST_TIMEOUT: u64 = 30;

/// The resolved settings of the client.
#[derive(Clone, Debug)]
pub struct Config {
    pub base_url: String,
    pub api_key: String,
    pub default_model: String,
    pub timeout: u64,
    pub poll_interval: u64,
    pub web_search: bool,
}

/// The settings of a configuration file; an absent key is `None`.
#[derive(Clone, Debug)]
pub struct TomlConfig {
    pub base_url: Option<String>,
    pub api_key: Option<String>,
    pub default_model: Option<String>,
    pub timeout: Option<u64>,
    pub poll_interval: Option<u64>,
    pub web_search: Option<bool>,
}

/// The raw values of the environment variables that configure the client.
#[derive(Clone, Debug)]
pub struct EnvConfig {
    /// `OPENWEBUI_BASE_URL`
    pub base_url: Option<String>,
    /// `OPENWEBUI_API_KEY`
    pub api_key: Option<String>,
    /// `OPENWEBUI_DEFAULT_MODEL`
    pub default_model: Option<String>,
    /// `OPENWEBUI_TIMEOUT`, unparsed
    pub timeout: Option<String>,
}

/// Why a configuration could not be resolved.
#[derive(Clone, Debug, PartialEq, Eq, Structural)]
pub enum ConfigError {
    /// No base URL from any source.
    MissingBaseUrl,
    /// No API key from any source.
    MissingApiKey,
    /// The platform has no configuration directory.
    NoConfigDir,
}

/// The text of an optional borrowed string.
pub open spec fn opt_str(o: Option<&str>) -> Option<Seq<char>> {
    match o {
        Some(s) => Some(s@),
        None => None,
    }
}

/// The text of an optional owned string.
pub open spec fn opt_string(o: Option<String>) -> Option<Seq<char>> {
    match o {
        Some(s) => Some(s@),
        None => None,
    }
}

/// The first value present, in order of priority.
pub open spec fn first_of<T>(first: Option<T>, second: Option<T>, third: Option<T>) -> Option<T> {
    match first {
        Some(v) => Some(v),
        None => match second {
            Some(v) => Some(v),
            None => third,
        },
    }
}

/// `o`'s value, or `d` when it has none.
pub open spec fn or_default<T>(o: Option<T>, d: T) -> T {
    match o {
        Some(v) => v,
        None => d,
    }
}

/// The file's value of one setting, when there is a file.
pub open spec fn file_value<T>(file: Option<TomlConfig>, pick: spec_fn(TomlConfig) -> Option<T>) -> Option<T> {
    match file {
        Some(f) => pick(f),
        None => None,
    }
}

/// Priority among the sources of a setting: the first source that gives a
/// value wins, in the order command line, environment, file.
pub proof fn lemma_layering_priority<T>(cli: Option<T>, env: Option<T>, file: Option<T>)
    ensures
        cli is Some ==> first_of(cli, env, file) == cli,
        cli is None && env is Some ==> first_of(cli, env, file) == env,
        cli is None && env is None ==> first_of(cli, env, file) == file,
        first_of(cli, env, file) is None <==> cli is None && env is None && file is None,
{
}

/// Default for the `timeout` key of a configuration file.
pub fn default_timeout() -> (r: u64)
    ensures
        r == DEFAULT_TIMEOUT,
{
    DEFAULT_TIMEOUT
}

/// Default for the `poll_interval` key of a configuration file.
pub fn default_poll_interval() -> (r: u64)
    ensures
        r == DEFAULT_POLL_INTERVAL,
{
    DEFAULT_POLL_INTERVAL
}

fn text_or_empty(o: Option<String>) -> (s: String)
    ensures
        s@ == or_default(opt_string(o), Seq::<char>::empty()),
{
    match o {
        Some(s) => s,
        None => String::new(),
    }
}

fn first_text(first: Option<&str>, second: Option<String>, third: Option<String>) -> (r: Option<
    String,
>)
    ensures
        opt_string(r) == first_of(opt_str(first), opt_string(second), opt_string(third)),
{
    match first {
        Some(s) => Some(s.to_owned()),
        None => match second {
            Some(s) => Some(s),
            None => third,
        },
    }
}

impl Default for Config {
    /// Empty server, key and model; the default timeout and poll interval;
    /// web search off.
    fn default() -> (c: Config)
        ensures
            c.base_url@ == Seq::<char>::empty(),
            c.api_key@ == Seq::<char>::empty(),
            c.default_model@ == Seq::<char>::empty(),
            c.timeout == DEFAULT_TIMEOUT,
            c.poll_interval == DEFAULT_POLL_INTERVAL,
            !c.web_search,
    {
        Config {
            base_url: String::new(),
            api_key: String::new(),
            default_model: String::new(),
            timeout: DEFAULT_TIMEOUT,
            poll_interval: DEFAULT_POLL_INTERVAL,
            web_search: false,
        }
    }
}

/// Whether `c` holds a file's settings, with the defaults for absent keys.
pub open spec fn config_from_file(c: Config, f: TomlConfig) -> bool {
    &&& c.base_url@ == or_default(opt_string(f.base_url), Seq::empty())
    &&& c.api_key@ == or_default(opt_string(f.api_key), Seq::empty())
    &&& c.default_model@ == or_default(opt_string(f.default_model), Seq::empty())
    &&& c.timeout == or_default(f.timeout, DEFAULT_TIMEOUT)
    &&& c.poll_interval == or_default(f.poll_interval, DEFAULT_POLL_INTERVAL)
    &&& c.web_search == or_default(f.web_search, false)
}

/// Whether `f` holds every setting of `c`, as a saved file does.
pub open spec fn file_of_config(f: TomlConfig, c: Config) -> bool {
    &&& opt_string(f.base_url) == Some(c.base_url@)
    &&& opt_string(f.api_key) == Some(c.api_key@)
    &&& opt_string(f.default_model) == Some(c.default_model@)
    &&& f.timeout == Some(c.timeout)
    &&& f.poll_interval == Some(c.poll_interval)
    &&& f.web_search == Some(c.web_search)
}

/// Whether two configurations hold the same settings.
pub open spec fn same_settings(a: Config, b: Config) -> bool {
    &&& a.base_url@ == b.base_url@
    &&& a.api_key@ == b.api_key@
    &&& a.default_model@ == b.default_model@
    &&& a.timeout == b.timeout
    &&& a.poll_interval == b.poll_interval
    &&& a.web_search == b.web_search
}

/// What a saved file gives back: loading the file that holds every setting
/// of a configuration yields the same settings.
pub proof fn lemma_saved_file_loads_back(c: Config, f: TomlConfig, loaded: Config)
    requires
        file_of_config(f, c),
        config_from_file(loaded, f),
    ensures
        same_settings(loaded, c),
{
}

impl Config {
    /// The settings of a configuration file, with the built-in defaults for
    /// the keys it does not set.
    pub fn from_file(file: TomlConfig) -> (c: Config)
        ensures
            config_from_file(c, file),
    {
        Config {
            base_url: text_or_empty(file.base_url),
            api_key: text_or_empty(file.api_key),
            default_model: text_or_empty(file.default_model),
            timeout: match file.timeout {
                Some(t) => t,
                None => DEFAULT_TIMEOUT,
            },
            poll_interval: match file.poll_interval {
                Some(p) => p,
                None => DEFAULT_POLL_INTERVAL,
            },
            web_search: match file.web_search {
                Some(w) => w,
                None => false,
            },
        }
    }

    /// The file that saving this configuration writes: every setting present.
    pub fn to_file(&self) -> (f: TomlConfig)
        ensures
            file_of_config(f, *self),
    {
        TomlConfig {
            base_url: Some(self.base_url.clone()),
            api_key: Some(self.api_key.clone()),
            default_model: Some(self.default_model.clone()),
            timeout: Some(self.timeout),
            poll_interval: Some(self.poll_interval),
            web_search: Some(self.web_search),
        }
    }

    /// The configuration saved in the user's configuration file alone, with
    /// no environment or command-line overrides: `None` when there is no
    /// such file.
    pub fn load_xdg(file: Option<TomlConfig>) -> (c: Option<Config>)
        ensures
            c is Some == file is Some,
            c is Some ==> config_from_file(c->0, file->0),
    {
        match file {
            Some(f) => Some(Config::from_file(f)),
            None => None,
        }
    }

    /// Resolves the configuration from, in order of priority, the command
    /// line, the environment, the configuration file and the built-in
    /// defaults. The base URL and the API key must come from some source;
    /// the poll interval is not read from the environment, and an
    /// environment timeout that is not a number is ignored.
    pub fn load(
        cli_base_url: Option<&str>,
        cli_api_key: Option<&str>,
        cli_model: Option<&str>,
        cli_timeout: Option<u64>,
        cli_poll_interval: Option<u64>,
        env: EnvConfig,
        file: Option<TomlConfig>,
    ) -> (r: Result<Config, ConfigError>)
        ensures
            ({
                let base_url = first_of(
                    opt_str(cli_base_url),
                    opt_string(env.base_url),
                    file_value(file, |f: TomlConfig| opt_string(f.base_url)),
                );
                let api_key = first_of(
                    opt_str(cli_api_key),
                    opt_string(env.api_key),
                    file_value(file, |f: TomlConfig| opt_string(f.api_key)),
                );
                let env_timeout = match env.timeout {
                    Some(t) => parsed_u64(t@),
                    None => None,
                };
                if base_url is None {
                    r == Err::<Config, ConfigError>(ConfigError::MissingBaseUrl)
                } else if api_key is None {
                    r == Err::<Config, ConfigError>(ConfigError::MissingApiKey)
                } else {
                    &&& r is Ok
                    &&& r->Ok_0.base_url@ == base_url->0
                    &&& r->Ok_0.api_key@ == api_key->0
                    &&& r->Ok_0.default_model@ == or_default(
                        first_of(
                            opt_str(cli_model),
                            opt_string(env.default_model),
                            file_value(file, |f: TomlConfig| opt_string(f.default_model)),
                        ),
                        Seq::empty(),
                    )
                    &&& r->Ok_0.timeout == or_default(
                        first_of(cli_timeout, env_timeout, file_value(file, |f: TomlConfig| f.timeout)),
                        DEFAULT_TIMEOUT,
                    )
                    &&& r->Ok_0.poll_interval == or_default(
                        first_of(
                            cli_poll_interval,
                            None,
                            file_value(file, |f: TomlConfig| f.poll_interval),
                        ),
                        DEFAULT_POLL_INTERVAL,
                    )
                    &&& r->Ok_0.web_search == or_default(
                        file_value(file, |f: TomlConfig| f.web_search),
                        false,
                    )
                }
            }),
    {
        let (file_base_url, file_api_key, file_model, file_timeout, file_poll, file_web_search) =
            match file {
            Some(f) => (
                f.base_url,
                f.api_key,
                f.default_model,
                f.timeout,
                f.poll_interval,
                f.web_search,
            ),
            None => (None, None, None, None, None, None),
        };
        let env_timeout = match &env.timeout {
            Some(t) => parse_u64(t.as_str()),
            None => None,
        };
        let base_url = match first_text(cli_base_url, env.base_url, file_base_url) {
            Some(b) => b,
            None => {
                return Err(ConfigError::MissingBaseUrl);
            },
        };
        let api_key = match first_text(cli_api_key, env.api_key, file_api_key) {
            Some(k) => k,
            None => {
                return Err(ConfigError::MissingApiKey);
            },
        };
        let default_model = text_or_empty(first_text(cli_model, env.default_model, file_model));
        let timeout = match cli_timeout {
            Some(t) => t,
            None => match env_timeout {
                Some(t) => t,
                None => match file_timeout {
                    Some(t) => t,
                    None => DEFAULT_TIMEOUT,
                },
            },
        };
        let poll_interval = match cli_poll_interval {
            Some(p) => p,
            None => match file_poll {
                Some(p) => p,
                None => DEFAULT_POLL_INTERVAL,
            },
        };
        let web_search = match file_web_search {
            Some(w) => w,
            None => false,
        };
        Ok(Config { base_url, api_key, default_model, timeout, poll_interval, web_search })
    }

    /// The API endpoints that an Open WebUI API key must be allowed to use;
    /// these belong in `auth.api_key.allowed_endpoints`.
    pub fn required_endpoints() -> (r: Vec<&'static str>)
        ensures
            r@.len() == 4,
            r@[0]@ == "/api/chat/completions"@,
            r@[1]@ == "/api/v1/chats"@,
            r@[2]@ == "/api/v1/chats/new"@,
            r@[3]@ == "/api/v1/chats/{id}"@,
    {
        vec!["/api/chat/completions", "/api/v1/chats", "/api/v1/chats/new", "/api/v1/chats/{id}"]
    }
}

/// The required endpoints as one text, one per line, each line after the
/// first indented by two spaces.
pub open spec fn endpoints_text() -> Seq<char> {
    "/api/chat/completions"@ + "\n  "@ + "/api/v1/chats"@ + "\n  "@ + "/api/v1/chats/new"@
        + "\n  "@ + "/api/v1/chats/{id}"@
}

/// The required endpoints joined by a newline and two spaces, for messages
/// that list them.
pub fn config_required_endpoints() -> (s: String)
    ensures
        s@ == endpoints_text(),
{
    let endpoints = Config::required_endpoints();
    let mut s = String::new();
    let mut i: usize = 0;
    while i < endpoints.len()
        invariant
            i <= endpoints.len(),
            endpoints@.len() == 4,
            endpoints@[0]@ == "/api/chat/completions"@,
            endpoints@[1]@ == "/api/v1/chats"@,
            endpoints@[2]@ == "/api/v1/chats/new"@,
            endpoints@[3]@ == "/api/v1/chats/{id}"@,
            i == 0 ==> s@ == Seq::<char>::empty(),
            i == 1 ==> s@ == "/api/chat/completions"@,
            i == 2 ==> s@ == "/api/chat/completions"@ + "\n  "@ + "/api/v1/chats"@,
            i == 3 ==> s@ == "/api/chat/completions"@ + "\n  "@ + "/api/v1/chats"@ + "\n  "@
                + "/api/v1/chats/new"@,
            i == 4 ==> s@ == endpoints_text(),
        decreases endpoints.len() - i,
    {
        if i > 0 {
            s.append("\n  ");
        }
        s.append(endpoints[i]);
        i = i + 1;
    }
    s
}

} // verus!
