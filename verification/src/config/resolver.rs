//! Resolves the configuration from command line flags (and their environment
//! variables), the configuration file and default values, in this order of priority.
use vstd::prelude::*;

use crate::cli::{ApiOptions, FeedOptions, GithubOptions, Palette};
use crate::config::categories::{config_for, Categories, CategoryConfig};
use crate::config::defaults::{default_browser_command, API_ENDPOINT, DEFAULT_ENTRIES_LIMIT, DEFAULT_TIMEOUT_MILLIS};
use crate::config::entry::{resolved, Entry};
use crate::config::file::{ConfigFile, ConfigFileError};
use crate::config::paths::{config_path, joined_path, log_path, ProjectPaths};

verus! {

/// The palette used when none is configured.
pub const DEFAULT_PALETTE: Palette = Palette::Ferra;

/// What opening and reading the configuration file came to.
#[derive(Debug, Clone, PartialEq, Eq)]
pub enum ConfigLoad {
    /// The file was read.
    Loaded(ConfigFile),
    /// There is no file at the path; the message says so.
    NotFound(String),
    /// The file could not be opened, for the reason given.
    OpenFailed(String),
    /// The file was opened but could not be read.
    Invalid(ConfigFileError),
}

/// Why the configuration could not be resolved.
#[derive(Debug, Clone, PartialEq, Eq)]
pub enum ConfigResolverBuildError {
    ConfigFileOpen { path: String, err: String },
    ConfigFileLoad(ConfigFileError),
    ValidateConfigFile(String),
}

/// The configuration, resolved from its sources.
#[derive(Debug, Clone)]
pub struct ConfigResolver {
    config_file: String,
    log_file: Entry<String>,
    cache_dir: Entry<String>,
    api_endpoint: Entry<String>,
    api_timeout: Entry<u64>,
    feed_entries_limit: Entry<usize>,
    feed_browser_command: Entry<String>,
    feed_browser_args: Entry<Vec<String>>,
    github_enable: Entry<bool>,
    github_pat: Entry<String>,
    palette: Entry<Palette>,
    categories: Categories,
}

/// The log file the configuration file gives, if any.
pub open spec fn file_log_path(f: Option<ConfigFile>) -> Option<String> {
    match f {
        Some(c) => match c.log {
            Some(l) => l.path,
            None => None,
        },
        None => None,
    }
}

/// The cache directory the configuration file gives, if any.
pub open spec fn file_cache_dir(f: Option<ConfigFile>) -> Option<String> {
    match f {
        Some(c) => match c.cache {
            Some(e) => e.directory,
            None => None,
        },
        None => None,
    }
}

/// The API endpoint the configuration file gives, if any.
pub open spec fn file_endpoint(f: Option<ConfigFile>) -> Option<String> {
    match f {
        Some(c) => match c.api {
            Some(e) => e.endpoint,
            None => None,
        },
        None => None,
    }
}

/// The client timeout the configuration file gives, if any.
pub open spec fn file_timeout(f: Option<ConfigFile>) -> Option<u64> {
    match f {
        Some(c) => match c.api {
            Some(e) => e.timeout,
            None => None,
        },
        None => None,
    }
}

/// The entries limit the configuration file gives, if any.
pub open spec fn file_entries_limit(f: Option<ConfigFile>) -> Option<usize> {
    match f {
        Some(c) => match c.feed {
            Some(e) => e.entries_limit,
            None => None,
        },
        None => None,
    }
}

/// The browser command the configuration file gives, if any.
pub open spec fn file_browser_command(f: Option<ConfigFile>) -> Option<String> {
    match f {
        Some(c) => match c.feed {
            Some(e) => match e.browser {
                Some(b) => b.command,
                None => None,
            },
            None => None,
        },
        None => None,
    }
}

/// The browser arguments the configuration file gives, if any.
pub open spec fn file_browser_args(f: Option<ConfigFile>) -> Option<Vec<String>> {
    match f {
        Some(c) => match c.feed {
            Some(e) => match e.browser {
                Some(b) => b.args,
                None => None,
            },
            None => None,
        },
        None => None,
    }
}

/// Whether the configuration file enables GitHub, if it says.
pub open spec fn file_github_enable(f: Option<ConfigFile>) -> Option<bool> {
    match f {
        Some(c) => match c.github {
            Some(e) => e.enable,
            None => None,
        },
        None => None,
    }
}

/// The GitHub token the configuration file gives, if any.
pub open spec fn file_github_pat(f: Option<ConfigFile>) -> Option<String> {
    match f {
        Some(c) => match c.github {
            Some(e) => e.pat,
            None => None,
        },
        None => None,
    }
}

/// The palette the configuration file gives, if any.
pub open spec fn file_palette(f: Option<ConfigFile>) -> Option<Palette> {
    match f {
        Some(c) => match c.theme {
            Some(e) => e.name,
            None => None,
        },
        None => None,
    }
}

/// The categories the configuration file defines, if any.
pub open spec fn file_categories(f: Option<ConfigFile>) -> Seq<(String, CategoryConfig)> {
    match f {
        Some(c) => match c.categories {
            Some(v) => v@,
            None => Seq::<(String, CategoryConfig)>::empty(),
        },
        None => Seq::<(String, CategoryConfig)>::empty(),
    }
}

/// The characters of the value that wins among a flag, a file value and a default.
pub open spec fn text_resolved(flag: Option<String>, file: Option<String>, default: Seq<char>) -> Seq<char> {
    match flag {
        Some(s) => s@,
        None => match file {
            Some(s) => s@,
            None => default,
        },
    }
}

/// The message of the error that a GitHub feature without a token gives.
pub open spec fn missing_pat_message() -> Seq<char> {
    "github pat is required for github feature"@
}

impl ConfigResolver {
    /// The configuration file path.
    pub closed spec fn config_file_view(&self) -> Seq<char> {
        self.config_file@
    }

    /// The log file, from its sources.
    pub closed spec fn log_file_entry(&self) -> Entry<String> {
        self.log_file
    }

    /// The cache directory, from its sources.
    pub closed spec fn cache_dir_entry(&self) -> Entry<String> {
        self.cache_dir
    }

    /// The API endpoint, from its sources.
    pub closed spec fn api_endpoint_entry(&self) -> Entry<String> {
        self.api_endpoint
    }

    /// The client timeout in milliseconds, from its sources.
    pub closed spec fn api_timeout_entry(&self) -> Entry<u64> {
        self.api_timeout
    }

    /// The entries limit, from its sources.
    pub closed spec fn feed_entries_limit_entry(&self) -> Entry<usize> {
        self.feed_entries_limit
    }

    /// The browser command, from its sources.
    pub closed spec fn feed_browser_command_entry(&self) -> Entry<String> {
        self.feed_browser_command
    }

    /// The browser arguments, from its sources.
    pub closed spec fn feed_browser_args_entry(&self) -> Entry<Vec<String>> {
        self.feed_browser_args
    }

    /// Whether GitHub is enabled, from its sources.
    pub closed spec fn github_enable_entry(&self) -> Entry<bool> {
        self.github_enable
    }

    /// The GitHub token, from its sources.
    pub closed spec fn github_pat_entry(&self) -> Entry<String> {
        self.github_pat
    }

    /// The palette, from its sources.
    pub closed spec fn palette_entry(&self) -> Entry<Palette> {
        self.palette
    }

    /// The categories.
    pub closed spec fn categories_view(&self) -> Categories {
        self.categories
    }

    /// A builder with no source set.
    pub fn builder() -> (b: ConfigResolverBuilder)
        ensures
            b == ConfigResolverBuilder::empty_spec(),
    {
        ConfigResolverBuilder::default()
    }

    /// The configuration file path.
    pub fn config_file(&self) -> (s: String)
        ensures
            s@ == self.config_file_view(),
    {
        self.config_file.clone()
    }

    /// The log file.
    pub fn log_file(&self) -> (s: String)
        ensures
            s@ == resolved(self.log_file_entry())@,
    {
        self.log_file.resolve_ref().clone()
    }

    /// The cache directory.
    pub fn cache_dir(&self) -> (s: String)
        ensures
            s@ == resolved(self.cache_dir_entry())@,
    {
        self.cache_dir.resolve_ref().clone()
    }

    /// The API endpoint.
    pub fn api_endpoint(&self) -> (s: String)
        ensures
            s@ == resolved(self.api_endpoint_entry())@,
    {
        self.api_endpoint.resolve_ref().clone()
    }

    /// The client timeout, in milliseconds.
    pub fn api_timeout(&self) -> (t: u64)
        ensures
            t == resolved(self.api_timeout_entry()),
    {
        self.api_timeout.resolve()
    }

    /// The number of feed entries to fetch.
    pub fn feed_entries_limit(&self) -> (n: usize)
        ensures
            n == resolved(self.feed_entries_limit_entry()),
    {
        self.feed_entries_limit.resolve()
    }

    /// The browser command to open entries with.
    pub fn feed_browser_command(&self) -> (s: String)
        ensures
            s@ == resolved(self.feed_browser_command_entry())@,
    {
        self.feed_browser_command.resolve_ref().clone()
    }

    /// The arguments of the browser command.
    pub fn feed_browser_args(&self) -> (v: Vec<String>)
        ensures
            v@.len() == resolved(self.feed_browser_args_entry())@.len(),
            forall|i: int| 0 <= i < v@.len() ==> #[trigger] v@[i]@ == resolved(self.feed_browser_args_entry())@[i]@,
    {
        let args = self.feed_browser_args.resolve_ref();
        let mut out: Vec<String> = Vec::new();
        let mut i: usize = 0;
        while i < args.len()
            invariant
                i <= args@.len(),
                out@.len() == i,
                forall|j: int| 0 <= j < i ==> #[trigger] out@[j]@ == args@[j]@,
            decreases args@.len() - i,
        {
            out.push(args[i].clone());
            i += 1;
        }
        out
    }

    /// Whether the GitHub notification feature is enabled.
    pub fn is_github_enable(&self) -> (b: bool)
        ensures
            b == resolved(self.github_enable_entry()),
    {
        self.github_enable.resolve()
    }

    /// The GitHub personal access token.
    pub fn github_pat(&self) -> (s: String)
        ensures
            s@ == resolved(self.github_pat_entry())@,
    {
        self.github_pat.resolve_ref().clone()
    }

    /// The color theme.
    pub fn palette(&self) -> (p: Palette)
        ensures
            p == resolved(self.palette_entry()),
    {
        self.palette.resolve()
    }

    /// The category icons.
    pub fn categories(&self) -> (c: &Categories)
        ensures
            *c == self.categories_view(),
    {
        &self.categories
    }

    /// Refuses a configuration that enables GitHub without a token.
    fn validate(self) -> (r: Result<ConfigResolver, ConfigResolverBuildError>)
        ensures
            resolved(self.github_enable_entry()) && resolved(self.github_pat_entry())@.len() == 0 ==> (r matches Err(
                ConfigResolverBuildError::ValidateConfigFile(m),
            ) && m@ == missing_pat_message()),
            !(resolved(self.github_enable_entry()) && resolved(self.github_pat_entry())@.len() == 0) ==> r
                == Ok::<ConfigResolver, ConfigResolverBuildError>(self),
    {
        if self.github_enable.resolve() && self.github_pat.resolve_ref().as_str().unicode_len() == 0 {
            return Err(ConfigResolverBuildError::ValidateConfigFile("github pat is required for github feature".to_owned()));
        }
        Ok(self)
    }
}

/// Collects the sources of the configuration before it is resolved.
#[derive(Debug)]
pub struct ConfigResolverBuilder {
    pub config_file: Option<String>,
    pub log_file_flag: Option<String>,
    pub cache_dir_flag: Option<String>,
    pub api_flags: Option<ApiOptions>,
    pub feed_flags: Option<FeedOptions>,
    pub github_flags: Option<GithubOptions>,
    pub palette_flag: Option<Palette>,
}

impl Default for ConfigResolverBuilder {
    fn default() -> (b: Self)
        ensures
            b == ConfigResolverBuilder::empty_spec(),
    {
        ConfigResolverBuilder {
            config_file: None,
            log_file_flag: None,
            cache_dir_flag: None,
            api_flags: None,
            feed_flags: None,
            github_flags: None,
            palette_flag: None,
        }
    }
}

/// Whether a resolved configuration is the one that `b`, the directories, the default
/// categories and the configuration file `f` at `path` give, before validation.
pub open spec fn resolved_from(
    c: ConfigResolver,
    b: ConfigResolverBuilder,
    dirs: ProjectPaths,
    default_categories: Categories,
    f: Option<ConfigFile>,
    path: Seq<char>,
) -> bool {
    let api = b.api_flags->0;
    let feed = b.feed_flags->0;
    let gh = b.github_flags->0;
    &&& c.config_file_view() == path
    &&& c.log_file_entry().flag == b.log_file_flag
    &&& c.log_file_entry().file == file_log_path(f)
    &&& c.log_file_entry().default@ == joined_path(dirs.data_dir@, "syndterm.log"@)
    &&& c.cache_dir_entry().flag == b.cache_dir_flag
    &&& c.cache_dir_entry().file == file_cache_dir(f)
    &&& c.cache_dir_entry().default@ == dirs.cache_dir@
    &&& c.api_endpoint_entry().flag == api.endpoint
    &&& c.api_endpoint_entry().file == file_endpoint(f)
    &&& c.api_endpoint_entry().default@ == API_ENDPOINT@
    &&& c.api_timeout_entry() == (Entry { default: DEFAULT_TIMEOUT_MILLIS, file: file_timeout(f), flag: api.client_timeout })
    &&& c.feed_entries_limit_entry() == (Entry {
        default: DEFAULT_ENTRIES_LIMIT,
        file: file_entries_limit(f),
        flag: feed.entries_limit,
    })
    &&& c.feed_browser_command_entry().flag == feed.browser
    &&& c.feed_browser_command_entry().file == file_browser_command(f)
    &&& c.feed_browser_command_entry().default@ == Seq::<char>::empty()
    &&& c.feed_browser_args_entry().flag == feed.browser_args
    &&& c.feed_browser_args_entry().file == file_browser_args(f)
    &&& c.feed_browser_args_entry().default@.len() == 0
    &&& c.github_enable_entry() == (Entry { default: false, file: file_github_enable(f), flag: gh.enable_github_notification })
    &&& c.github_pat_entry().flag == gh.github_pat
    &&& c.github_pat_entry().file == file_github_pat(f)
    &&& c.github_pat_entry().default@ == Seq::<char>::empty()
    &&& c.palette_entry() == (Entry { default: DEFAULT_PALETTE, file: file_palette(f), flag: b.palette_flag })
    &&& forall|n: Seq<char>| #[trigger] c.categories_view().config(n) == match config_for(file_categories(f), n) {
        Some(cfg) => Some(cfg),
        None => default_categories.config(n),
    }
}

/// What resolving gives once the configuration file is settled as `f` at `path`: the
/// resolved configuration, unless it enables GitHub without a token.
pub open spec fn build_outcome(
    r: Result<ConfigResolver, ConfigResolverBuildError>,
    b: ConfigResolverBuilder,
    dirs: ProjectPaths,
    default_categories: Categories,
    f: Option<ConfigFile>,
    path: Seq<char>,
) -> bool {
    let gh = b.github_flags->0;
    let enabled = resolved(Entry { default: false, file: file_github_enable(f), flag: gh.enable_github_notification });
    let pat = text_resolved(gh.github_pat, file_github_pat(f), Seq::<char>::empty());
    if enabled && pat.len() == 0 {
        r matches Err(ConfigResolverBuildError::ValidateConfigFile(m)) && m@ == missing_pat_message()
    } else {
        r matches Ok(c) && resolved_from(c, b, dirs, default_categories, f, path)
    }
}

impl ConfigResolverBuilder {
    /// A builder with no source set.
    pub open spec fn empty_spec() -> ConfigResolverBuilder {
        ConfigResolverBuilder {
            config_file: None,
            log_file_flag: None,
            cache_dir_flag: None,
            api_flags: None,
            feed_flags: None,
            github_flags: None,
            palette_flag: None,
        }
    }

    /// Sets the configuration file path.
    pub fn config_file(self, config_file: Option<String>) -> (b: Self)
        ensures
            b == (ConfigResolverBuilder { config_file, ..self }),
    {
        ConfigResolverBuilder { config_file, ..self }
    }

    /// Sets the log file flag.
    pub fn log_file(self, log_file_flag: Option<String>) -> (b: Self)
        ensures
            b == (ConfigResolverBuilder { log_file_flag, ..self }),
    {
        ConfigResolverBuilder { log_file_flag, ..self }
    }

    /// Sets the cache directory flag.
    pub fn cache_dir(self, cache_dir_flag: Option<String>) -> (b: Self)
        ensures
            b == (ConfigResolverBuilder { cache_dir_flag, ..self }),
    {
        ConfigResolverBuilder { cache_dir_flag, ..self }
    }

    /// Sets the API options.
    pub fn api_options(self, api_options: ApiOptions) -> (b: Self)
        ensures
            b == (ConfigResolverBuilder { api_flags: Some(api_options), ..self }),
    {
        ConfigResolverBuilder { api_flags: Some(api_options), ..self }
    }

    /// Sets the feed options.
    pub fn feed_options(self, feed_options: FeedOptions) -> (b: Self)
        ensures
            b == (ConfigResolverBuilder { feed_flags: Some(feed_options), ..self }),
    {
        ConfigResolverBuilder { feed_flags: Some(feed_options), ..self }
    }

    /// Sets the GitHub options.
    pub fn github_options(self, github_options: GithubOptions) -> (b: Self)
        ensures
            b == (ConfigResolverBuilder { github_flags: Some(github_options), ..self }),
    {
        ConfigResolverBuilder { github_flags: Some(github_options), ..self }
    }

    /// Sets the palette flag.
    pub fn palette(self, palette: Option<Palette>) -> (b: Self)
        ensures
            b == (ConfigResolverBuilder { palette_flag: palette, ..self }),
    {
        ConfigResolverBuilder { palette_flag: palette, ..self }
    }

    /// The path of the configuration file to read: the one set, else the default one.
    pub fn config_path_to_read(&self, dirs: &ProjectPaths) -> (p: String)
        ensures
            match self.config_file {
                Some(path) => p@ == path@,
                None => p@ == joined_path(dirs.config_dir@, "config.toml"@),
            },
    {
        match &self.config_file {
            Some(path) => path.clone(),
            None => config_path(dirs),
        }
    }

    /// Resolves the configuration, given what reading the file at `config_path_to_read`
    /// came to: a file that was set must be there, the default one may be missing; a
    /// file that cannot be opened or read is an error. The values are then resolved as
    /// `build_outcome` describes.
    pub fn try_build(self, dirs: &ProjectPaths, default_categories: Categories, load: ConfigLoad) -> (r: Result<
        ConfigResolver,
        ConfigResolverBuildError,
    >)
        requires
            self.api_flags is Some,
            self.feed_flags is Some,
            self.github_flags is Some,
        ensures
            ({
                let path = match self.config_file {
                    Some(p) => p@,
                    None => joined_path(dirs.config_dir@, "config.toml"@),
                };
                match load {
                    ConfigLoad::Invalid(e) => r == Err::<ConfigResolver, ConfigResolverBuildError>(
                        ConfigResolverBuildError::ConfigFileLoad(e),
                    ),
                    ConfigLoad::OpenFailed(m) => r matches Err(ConfigResolverBuildError::ConfigFileOpen { path: p, err })
                        && p@ == path && err == m,
                    ConfigLoad::NotFound(m) => if self.config_file is Some {
                        r matches Err(ConfigResolverBuildError::ConfigFileOpen { path: p, err }) && p@ == path && err == m
                    } else {
                        build_outcome(r, self, *dirs, default_categories, None, path)
                    },
                    ConfigLoad::Loaded(f) => build_outcome(r, self, *dirs, default_categories, Some(f), path),
                }
            }),
    {
        let explicit = self.config_file.is_some();
        let path = self.config_path_to_read(dirs);
        let file = match load {
            ConfigLoad::Loaded(f) => Some(f),
            ConfigLoad::NotFound(err) => {
                if explicit {
                    return Err(ConfigResolverBuildError::ConfigFileOpen { path, err });
                }
                None
            },
            ConfigLoad::OpenFailed(err) => {
                return Err(ConfigResolverBuildError::ConfigFileOpen { path, err });
            },
            ConfigLoad::Invalid(e) => {
                return Err(ConfigResolverBuildError::ConfigFileLoad(e));
            },
        };
        let ghost f = file;
        let ghost b = self;
        let mut categories = default_categories;
        let ConfigResolverBuilder {
            config_file: _,
            log_file_flag,
            cache_dir_flag,
            api_flags,
            feed_flags,
            github_flags,
            palette_flag,
        } = self;
        let api = match api_flags {
            Some(a) => a,
            None => ApiOptions { endpoint: None, client_timeout: None },
        };
        let feed = match feed_flags {
            Some(fo) => fo,
            None => FeedOptions { entries_limit: None, browser: None, browser_args: None },
        };
        let gh = match github_flags {
            Some(g) => g,
            None => GithubOptions { enable_github_notification: None, github_pat: None },
        };
        let mut log_file = None;
        let mut cache_file = None;
        let mut endpoint_file = None;
        let mut timeout_file = None;
        let mut limit_file = None;
        let mut browser_file = None;
        let mut browser_args_file = None;
        let mut enable_file = None;
        let mut pat_file = None;
        let mut palette_file = None;
        let mut user_categories = None;
        match file {
            Some(c) => {
                if let Some(l) = c.log {
                    log_file = l.path;
                }
                if let Some(e) = c.cache {
                    cache_file = e.directory;
                }
                if let Some(e) = c.api {
                    endpoint_file = e.endpoint;
                    timeout_file = e.timeout;
                }
                if let Some(e) = c.feed {
                    limit_file = e.entries_limit;
                    if let Some(br) = e.browser {
                        browser_file = br.command;
                        browser_args_file = br.args;
                    }
                }
                if let Some(e) = c.github {
                    enable_file = e.enable;
                    pat_file = e.pat;
                }
                if let Some(e) = c.theme {
                    palette_file = e.name;
                }
                user_categories = c.categories;
            },
            None => {},
        }
        let ghost cats_before = categories;
        if let Some(user) = user_categories {
            categories.merge(user);
        } else {
            proof {
                assert(file_categories(f) =~= Seq::<(String, CategoryConfig)>::empty());
            }
        }
        let resolver = ConfigResolver {
            config_file: path,
            log_file: Entry::with_default(log_path(dirs)).with_file(log_file).with_flag(log_file_flag),
            cache_dir: Entry::with_default(dirs.cache_dir.clone()).with_file(cache_file).with_flag(cache_dir_flag),
            api_endpoint: Entry::with_default(API_ENDPOINT.to_owned()).with_file(endpoint_file).with_flag(api.endpoint),
            api_timeout: Entry::with_default(DEFAULT_TIMEOUT_MILLIS).with_file(timeout_file).with_flag(api.client_timeout),
            feed_entries_limit: Entry::with_default(DEFAULT_ENTRIES_LIMIT).with_file(limit_file).with_flag(feed.entries_limit),
            feed_browser_command: Entry::with_default(default_browser_command()).with_file(browser_file).with_flag(feed.browser),
            feed_browser_args: Entry::with_default(Vec::new()).with_file(browser_args_file).with_flag(feed.browser_args),
            github_enable: Entry::with_default(false).with_file(enable_file).with_flag(gh.enable_github_notification),
            github_pat: Entry::with_default(String::new()).with_file(pat_file).with_flag(gh.github_pat),
            palette: Entry::with_default(DEFAULT_PALETTE).with_file(palette_file).with_flag(palette_flag),
            categories,
        };
        proof {
            if user_categories is None {
                assert forall|n: Seq<char>| #[trigger] resolver.categories_view().config(n) == match config_for(
                    file_categories(f),
                    n,
                ) {
                    Some(cfg) => Some(cfg),
                    None => default_categories.config(n),
                } by {}
            }
            assert(resolved_from(resolver, b, *dirs, default_categories, f, path@));
        }
        resolver.validate()
    }
}

} // verus!
