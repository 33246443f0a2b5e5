//! Where the client keeps its files: the configuration file and the local
//! session files, under the user's directories.
use vstd::prelude::*;
use crate::config::{opt_str, Config, ConfigError};

verus! {

/// What `std::path::Path::join` gives for these two paths, as text.
pub uninterp spec fn joined_path(base: Seq<char>, part: Seq<char>) -> Seq<char>;

/// `Path::new(base).join(part)`, as text: `part` adjoined to `base` (or
/// `part` alone when it is absolute). The contract names the result and
/// claims nothing more of it.
#[verifier::external_body]
fn join_path(base: &str, part: &str) -> (r: String)
    ensures
        r@ == joined_path(base@, part@),
{
    std::path::Path::new(base).join(part).to_string_lossy().into_owned()
}

/// `dirs::config_dir()`, as text. It reads the environment
/// (`XDG_CONFIG_HOME`, `HOME`) and the password database, so nothing is
/// claimed of the outcome.
#[verifier::external_body]
fn user_config_dir() -> (r: Option<String>) {
    dirs::config_dir().map(|p| p.to_string_lossy().into_owned())
}

/// `dirs::data_dir()`, as text. It reads the environment (`XDG_DATA_HOME`,
/// `HOME`) and the password database, so nothing is claimed of the outcome.
#[verifier::external_body]
fn user_data_dir() -> (r: Option<String>) {
    dirs::data_dir().map(|p| p.to_string_lossy().into_owned())
}

/// The configuration file under a configuration directory:
/// `<dir>/openwebui-chat/config.toml`.
pub open spec fn config_file_in(dir: Seq<char>) -> Seq<char> {
    joined_path(joined_path(dir, "openwebui-chat"@), "config.toml"@)
}

/// The session file of a chat under a data directory:
/// `<dir>/openwebui-chat/sessions/<chat_id>.jsonl`.
pub open spec fn session_file_in(dir: Seq<char>, chat_id: Seq<char>) -> Seq<char> {
    joined_path(joined_path(joined_path(dir, "openwebui-chat"@), "sessions"@), chat_id + ".jsonl"@)
}

/// The configuration file under the configuration directory `dir`.
pub fn config_path_in(dir: &str) -> (p: String)
    ensures
        p@ == config_file_in(dir@),
{
    let app_dir = join_path(dir, "openwebui-chat");
    join_path(app_dir.as_str(), "config.toml")
}

/// The session file of a chat under the data directory `dir`.
pub fn session_path_in(dir: &str, chat_id: &str) -> (p: String)
    ensures
        p@ == session_file_in(dir@, chat_id@),
{
    let app_dir = join_path(dir, "openwebui-chat");
    let sessions = join_path(app_dir.as_str(), "sessions");
    let mut file_name = chat_id.to_owned();
    file_name.append(".jsonl");
    join_path(sessions.as_str(), file_name.as_str())
}

/// The local file name that is read when the user's configuration file
/// does not exist.
pub open spec fn local_config_file() -> Seq<char> {
    "openwebui-chat.toml"@
}

/// The configuration files to try, in order, given the configuration
/// directory when it is known: the user's file under it, then the local
/// file.
pub open spec fn candidate_files(config_dir: Option<Seq<char>>) -> Seq<Seq<char>> {
    match config_dir {
        Some(d) => seq![config_file_in(d), local_config_file()],
        None => seq![local_config_file()],
    }
}

/// Why the local session store is not available.
#[derive(Clone, Debug, PartialEq, Eq, Structural)]
pub enum SessionError {
    /// The platform has no data directory.
    NoDataDir,
}

/// The session file of a chat, under the user's data directory.
pub fn session_path(chat_id: &str) -> (r: Result<String, SessionError>)
    ensures
        r is Ok ==> exists|dir: Seq<char>| r->Ok_0@ == session_file_in(dir, chat_id@),
        r is Err ==> r->Err_0 == SessionError::NoDataDir,
{
    match user_data_dir() {
        Some(dir) => Ok(session_path_in(dir.as_str(), chat_id)),
        None => Err(SessionError::NoDataDir),
    }
}

impl Config {
    /// The user's configuration file, under the configuration directory.
    pub fn config_path() -> (r: Result<String, ConfigError>)
        ensures
            r is Ok ==> exists|dir: Seq<char>| r->Ok_0@ == config_file_in(dir),
            r is Err ==> r->Err_0 == ConfigError::NoConfigDir,
    {
        match user_config_dir() {
            Some(dir) => Ok(config_path_in(dir.as_str())),
            None => Err(ConfigError::NoConfigDir),
        }
    }

    /// The configuration files to try, in order: the user's configuration
    /// file when the configuration directory `config_dir` is known, then
    /// `openwebui-chat.toml` in the working directory. The first that exists
    /// is the one read.
    pub fn config_candidates_in(config_dir: Option<&str>) -> (c: Vec<String>)
        ensures
            c@.map_values(|s: String| s@) == candidate_files(opt_str(config_dir)),
    {
        let mut c: Vec<String> = Vec::new();
        if let Some(dir) = config_dir {
            c.push(config_path_in(dir));
        }
        c.push("openwebui-chat.toml".to_owned());
        assert(c@.map_values(|s: String| s@) =~= candidate_files(opt_str(config_dir)));
        c
    }

    /// The configuration files to try, in order, under the user's
    /// configuration directory as the platform gives it: the user's
    /// configuration file first, when that directory is known, then
    /// `openwebui-chat.toml` in the working directory.
    pub fn config_candidates() -> (c: Vec<String>)
        ensures
            exists|dir: Option<Seq<char>>| c@.map_values(|s: String| s@) == candidate_files(dir),
    {
        match user_config_dir() {
            Some(dir) => Config::config_candidates_in(Some(dir.as_str())),
            None => Config::config_candidates_in(None),
        }
    }
}

} // verus!
