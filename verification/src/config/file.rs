//! The configuration file, as read.
use vstd::prelude::*;

use crate::cli::Palette;
use crate::config::categories::CategoryConfig;

verus! {

/// The `[cache]` table.
#[derive(Debug, Clone, PartialEq, Eq)]
pub struct CacheEntry {
    pub directory: Option<String>,
}

/// The `[log]` table.
#[derive(Debug, Clone, PartialEq, Eq)]
pub struct LogEntry {
    pub path: Option<String>,
}

/// The `[theme]` table.
#[derive(Debug, Clone, PartialEq, Eq)]
pub struct ThemeEntry {
    pub name: Option<Palette>,
}

/// The `[feed]` table.
#[derive(Debug, Clone, PartialEq, Eq)]
pub struct FeedEntry {
    pub entries_limit: Option<usize>,
    pub browser: Option<FeedBrowserEntry>,
}

/// The browser of the `[feed]` table.
#[derive(Debug, Clone, PartialEq, Eq)]
pub struct FeedBrowserEntry {
    pub command: Option<String>,
    pub args: Option<Vec<String>>,
}

/// The `[api]` table.
#[derive(Debug, Clone, PartialEq, Eq)]
pub struct ApiEntry {
    pub endpoint: Option<String>,
    /// Client timeout, in milliseconds.
    pub timeout: Option<u64>,
}

/// The `[github]` table.
#[derive(Debug, Clone, PartialEq, Eq)]
pub struct GithubEntry {
    pub enable: Option<bool>,
    pub pat: Option<String>,
}

/// Why the configuration file could not be read.
#[derive(Debug, Clone, PartialEq, Eq)]
pub enum ConfigFileError {
    Io(String),
    Deserialize(String),
}

/// The configuration file.
#[derive(Debug, Clone, PartialEq, Eq)]
pub struct ConfigFile {
    pub cache: Option<CacheEntry>,
    pub log: Option<LogEntry>,
    pub theme: Option<ThemeEntry>,
    pub api: Option<ApiEntry>,
    pub feed: Option<FeedEntry>,
    pub github: Option<GithubEntry>,
    pub categories: Option<Vec<(String, CategoryConfig)>>,
}

/// The configuration file written by `config init`.
pub const INIT_CONFIG: &'static str = "
[cache]
# Cache directory
# directory = \"path/to/dir\"

[log]
# Log file path
# path = \"path/to/log\"

[theme]
# Theme name 
# The available themes can be found by `synd --help`
# name = \"ferra\"

[api]
# Backend api endpoint
# endpoint = \"https://api.syndicationd.ymgyt.io\"

# Client timeout duration 
# timeout = \"30s\"

[feed]
# Feed entries to fetch
# entries_limit = 200 

# Command to browse feed
# browser = { command = \"\", args = [] }

[github]
# Enable github notification feature
# enable = true

# Github Personal access token(PAT) to browse notifications
# pat = \"ghp_xxxx\"
";

} // verus!
