//! Settings: command line and environment first, then the configuration
//! file, then the defaults.
use vstd::prelude::*;

verus! {

/// The address the server listens on by default.
pub const DEFAULT_LISTEN: &'static str = "0.0.0.0:7070";

/// The database file used by default.
pub const DEFAULT_DB: &'static str = "./scheduler.db";

/// The log level used by default.
pub const DEFAULT_LOG_LEVEL: &'static str = "info";

/// What the configuration file may set. `listen` holds the file's address
/// only when it is a valid socket address.
#[derive(Debug, Clone)]
pub struct FileConfig {
    pub listen: Option<String>,
    pub db: Option<String>,
    pub token: Option<String>,
    pub log_level: Option<String>,
}

/// The settings of the scheduler (addresses and paths as text).
#[derive(Debug, Clone)]
pub struct Config {
    pub listen: Option<String>,
    pub db: Option<String>,
    pub token: Option<String>,
    pub log_level: Option<String>,
    pub max_history: Option<usize>,
    pub default_timeout: Option<u64>,
    pub config: String,
}

/// The first of two optional values that is present.
pub open spec fn first_of<T>(a: Option<T>, b: Option<T>) -> Option<T> {
    match a {
        Some(x) => Some(x),
        None => b,
    }
}

/// The text of an optional string.
pub open spec fn opt_view(o: Option<String>) -> Option<Seq<char>> {
    match o {
        Some(s) => Some(s@),
        None => None,
    }
}

fn first_string(a: Option<String>, b: Option<String>) -> (r: Option<String>)
    ensures
        opt_view(r) == first_of(opt_view(a), opt_view(b)),
{
    match a {
        Some(x) => Some(x),
        None => b,
    }
}

impl Config {
    /// Merges the command line (with its environment variables) and the
    /// configuration file: each setting comes from the command line, else the
    /// file, else its default; an empty token counts as none; the history
    /// limit and timeout come from the command line or their defaults.
    pub fn resolve(cli: Config, file: FileConfig) -> (r: Config)
        ensures
            opt_view(r.listen) == Some(
                match first_of(opt_view(cli.listen), opt_view(file.listen)) {
                    Some(l) => l,
                    None => DEFAULT_LISTEN@,
                },
            ),
            opt_view(r.db) == Some(
                match first_of(opt_view(cli.db), opt_view(file.db)) {
                    Some(d) => d,
                    None => DEFAULT_DB@,
                },
            ),
            opt_view(r.token) == (match first_of(opt_view(cli.token), opt_view(file.token)) {
                Some(t) => if t.len() > 0 {
                    Some(t)
                } else {
                    None
                },
                None => None,
            }),
            opt_view(r.log_level) == Some(
                match first_of(opt_view(cli.log_level), opt_view(file.log_level)) {
                    Some(l) => l,
                    None => DEFAULT_LOG_LEVEL@,
                },
            ),
            r.max_history == Some(
                match cli.max_history {
                    Some(m) => m,
                    None => crate::engine::DEFAULT_MAX_HISTORY,
                },
            ),
            r.default_timeout == Some(
                match cli.default_timeout {
                    Some(t) => t,
                    None => crate::engine::DEFAULT_TIMEOUT,
                },
            ),
            r.config@ == cli.config@,
    {
        let listen = match first_string(cli.listen, file.listen) {
            Some(l) => l,
            None => DEFAULT_LISTEN.to_string(),
        };
        let db = match first_string(cli.db, file.db) {
            Some(d) => d,
            None => DEFAULT_DB.to_string(),
        };
        let token = match first_string(cli.token, file.token) {
            Some(t) => if crate::text::chars_of(t.as_str()).len() > 0 {
                Some(t)
            } else {
                None
            },
            None => None,
        };
        let log_level = match first_string(cli.log_level, file.log_level) {
            Some(l) => l,
            None => DEFAULT_LOG_LEVEL.to_string(),
        };
        let max_history = match cli.max_history {
            Some(m) => m,
            None => crate::engine::DEFAULT_MAX_HISTORY,
        };
        let default_timeout = match cli.default_timeout {
            Some(t) => t,
            None => crate::engine::DEFAULT_TIMEOUT,
        };
        Config {
            listen: Some(listen),
            db: Some(db),
            token,
            log_level: Some(log_level),
            max_history: Some(max_history),
            default_timeout: Some(default_timeout),
            config: cli.config,
        }
    }

    /// The address to listen on, as text.
    pub fn listen_text(&self) -> (r: String)
        ensures
            r@ == (match opt_view(self.listen) {
                Some(l) => l,
                None => DEFAULT_LISTEN@,
            }),
    {
        match &self.listen {
            Some(l) => l.clone(),
            None => DEFAULT_LISTEN.to_string(),
        }
    }

    /// The database file.
    pub fn db_path(&self) -> (r: String)
        ensures
            r@ == (match opt_view(self.db) {
                Some(d) => d,
                None => DEFAULT_DB@,
            }),
    {
        match &self.db {
            Some(d) => d.clone(),
            None => DEFAULT_DB.to_string(),
        }
    }

    /// The log level.
    pub fn log_level_str(&self) -> (r: &str)
        ensures
            r@ == (match opt_view(self.log_level) {
                Some(l) => l,
                None => DEFAULT_LOG_LEVEL@,
            }),
    {
        match &self.log_level {
            Some(l) => l.as_str(),
            None => DEFAULT_LOG_LEVEL,
        }
    }

    /// How many execution records the history keeps.
    pub fn max_history(&self) -> (r: usize)
        ensures
            r == (match self.max_history {
                Some(m) => m,
                None => crate::engine::DEFAULT_MAX_HISTORY,
            }),
    {
        match self.max_history {
            Some(m) => m,
            None => crate::engine::DEFAULT_MAX_HISTORY,
        }
    }
}

} // verus!
