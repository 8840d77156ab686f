use synd_term::cli::{ApiOptions, FeedOptions, GithubOptions, Palette};
use synd_term::config::categories::{Categories, CategoryConfig, Icon, IconColor};
use synd_term::config::defaults::{default_browser_command, DEFAULT_ENTRIES_LIMIT, DEFAULT_TIMEOUT_MILLIS};
use synd_term::config::entry::Entry;
use synd_term::config::duration::parse_duration_millis;
use synd_term::config::file::{
    ApiEntry, CacheEntry, ConfigFile, ConfigFileError, FeedBrowserEntry, FeedEntry, GithubEntry, LogEntry, ThemeEntry,
};
use synd_term::config::paths::{cache_dir, config_path, log_path, ProjectPaths};
use synd_term::config::resolver::{ConfigLoad, ConfigResolver, ConfigResolverBuildError, ConfigResolverBuilder};
use synd_term::types::Category;

fn dirs() -> ProjectPaths {
    ProjectPaths {
        cache_dir: "/home/u/.cache/syndterm".to_owned(),
        config_dir: "/home/u/.config/syndterm".to_owned(),
        data_dir: "/home/u/.local/share/syndterm".to_owned(),
    }
}

fn icon(symbol: &str) -> CategoryConfig {
    CategoryConfig { icon: Icon { symbol: symbol.to_owned(), color: Some(IconColor { rgb: Some(0xF74C00), name: None }) }, aliases: vec![] }
}

fn builder() -> ConfigResolverBuilder {
    ConfigResolver::builder()
        .api_options(ApiOptions { endpoint: None, client_timeout: None })
        .feed_options(FeedOptions { entries_limit: None, browser: None, browser_args: None })
        .github_options(GithubOptions { enable_github_notification: None, github_pat: None })
}

fn full_file() -> ConfigFile {
    ConfigFile {
        cache: Some(CacheEntry { directory: Some("/tmp/synd/cache".to_owned()) }),
        log: Some(LogEntry { path: Some("/tmp/synd/synd.log".to_owned()) }),
        theme: Some(ThemeEntry { name: Some(Palette::Helix) }),
        api: Some(ApiEntry { endpoint: Some("https://api.syndicationd.ymgyt.io".to_owned()), timeout: Some(10_000) }),
        feed: Some(FeedEntry {
            entries_limit: Some(100),
            browser: Some(FeedBrowserEntry { command: Some("w3m".to_owned()), args: Some(vec!["--foo".to_owned(), "--bar".to_owned()]) }),
        }),
        github: Some(GithubEntry { enable: Some(true), pat: Some("ghp_xxxx".to_owned()) }),
        categories: Some(vec![("rust".to_owned(), icon("R"))]),
    }
}

#[test]
fn paths_are_placed_in_project_dirs() {
    let d = dirs();
    assert_eq!(cache_dir(&d), "/home/u/.cache/syndterm");
    assert_eq!(log_path(&d), "/home/u/.local/share/syndterm/syndterm.log");
    assert_eq!(config_path(&d), "/home/u/.config/syndterm/config.toml");
    assert_eq!(default_browser_command(), "");
}

#[test]
fn entry_prefers_flag_then_file_then_default() {
    let e = Entry::with_default(1u8);
    assert_eq!(e.resolve(), 1);
    let e = e.with_file(Some(2));
    assert_eq!(e.resolve(), 2);
    let e = e.with_flag(Some(3));
    assert_eq!(e.resolve(), 3);
    assert_eq!(Entry::with_default(1u8).with_flag(Some(3)).with_file(None).resolve(), 3);
}

#[test]
fn resolves_defaults_without_config_file() {
    let c = builder().try_build(&dirs(), Categories::new(vec![]), ConfigLoad::NotFound("missing".to_owned())).unwrap();
    assert_eq!(c.config_file(), "/home/u/.config/syndterm/config.toml");
    assert_eq!(c.log_file(), "/home/u/.local/share/syndterm/syndterm.log");
    assert_eq!(c.cache_dir(), "/home/u/.cache/syndterm");
    assert_eq!(c.api_endpoint(), "https://localhost:5959/graphql");
    assert_eq!(c.api_timeout(), DEFAULT_TIMEOUT_MILLIS);
    assert_eq!(c.feed_entries_limit(), DEFAULT_ENTRIES_LIMIT);
    assert_eq!(c.feed_browser_command(), "");
    assert!(c.feed_browser_args().is_empty());
    assert!(!c.is_github_enable());
    assert_eq!(c.github_pat(), "");
    assert_eq!(c.palette(), Palette::Ferra);
}

#[test]
fn file_values_override_defaults_and_flags_override_file() {
    let c = builder().try_build(&dirs(), Categories::new(vec![]), ConfigLoad::Loaded(full_file())).unwrap();
    assert_eq!(c.log_file(), "/tmp/synd/synd.log");
    assert_eq!(c.cache_dir(), "/tmp/synd/cache");
    assert_eq!(c.api_endpoint(), "https://api.syndicationd.ymgyt.io");
    assert_eq!(c.api_timeout(), 10_000);
    assert_eq!(c.feed_entries_limit(), 100);
    assert_eq!(c.feed_browser_command(), "w3m");
    assert_eq!(c.feed_browser_args(), vec!["--foo".to_owned(), "--bar".to_owned()]);
    assert!(c.is_github_enable());
    assert_eq!(c.github_pat(), "ghp_xxxx");
    assert_eq!(c.palette(), Palette::Helix);
    assert_eq!(c.categories().icon(&Category::new("rust")).unwrap().symbol(), "R");

    let c = builder()
        .config_file(Some("/etc/synd.toml".to_owned()))
        .log_file(Some("/flag.log".to_owned()))
        .cache_dir(Some("/flag/cache".to_owned()))
        .palette(Some(Palette::SolarizedDark))
        .feed_options(FeedOptions { entries_limit: Some(7), browser: Some("lynx".to_owned()), browser_args: Some(vec![]) })
        .try_build(&dirs(), Categories::new(vec![]), ConfigLoad::Loaded(full_file()))
        .unwrap();
    assert_eq!(c.config_file(), "/etc/synd.toml");
    assert_eq!(c.log_file(), "/flag.log");
    assert_eq!(c.cache_dir(), "/flag/cache");
    assert_eq!(c.palette(), Palette::SolarizedDark);
    assert_eq!(c.feed_entries_limit(), 7);
    assert_eq!(c.feed_browser_command(), "lynx");
    assert!(c.feed_browser_args().is_empty());
}

#[test]
fn explicit_config_file_must_exist() {
    let r = builder()
        .config_file(Some("/nope.toml".to_owned()))
        .try_build(&dirs(), Categories::new(vec![]), ConfigLoad::NotFound("No such file".to_owned()));
    assert!(matches!(r, Err(ConfigResolverBuildError::ConfigFileOpen { path, err }) if path == "/nope.toml" && err == "No such file"));
    let r = builder().try_build(&dirs(), Categories::new(vec![]), ConfigLoad::OpenFailed("denied".to_owned()));
    assert!(matches!(r, Err(ConfigResolverBuildError::ConfigFileOpen { err, .. }) if err == "denied"));
    let r = builder().try_build(&dirs(), Categories::new(vec![]), ConfigLoad::Invalid(ConfigFileError::Deserialize("bad".to_owned())));
    assert!(matches!(r, Err(ConfigResolverBuildError::ConfigFileLoad(ConfigFileError::Deserialize(m))) if m == "bad"));
}

#[test]
fn github_feature_requires_token() {
    let r = builder()
        .github_options(GithubOptions { enable_github_notification: Some(true), github_pat: None })
        .try_build(&dirs(), Categories::new(vec![]), ConfigLoad::NotFound(String::new()));
    assert!(matches!(r, Err(ConfigResolverBuildError::ValidateConfigFile(m)) if m == "github pat is required for github feature"));
    let r = builder()
        .github_options(GithubOptions { enable_github_notification: Some(true), github_pat: Some("ghp".to_owned()) })
        .try_build(&dirs(), Categories::new(vec![]), ConfigLoad::NotFound(String::new()));
    assert!(r.unwrap().is_github_enable());
}

#[test]
fn user_categories_override_defaults() {
    let mut c = Categories::new(vec![("rust".to_owned(), icon("R")), ("go".to_owned(), icon("G"))]);
    c.merge(vec![("rust".to_owned(), icon("X"))]);
    assert_eq!(c.icon(&Category::new("rust")).unwrap().symbol(), "X");
    assert_eq!(c.icon(&Category::new("go")).unwrap().symbol(), "G");
    assert!(c.icon(&Category::new("zig")).is_none());
}

#[test]
fn palette_names() {
    assert_eq!(Palette::parse("solarized-dark"), Some(Palette::SolarizedDark));
    assert_eq!(Palette::parse("Ferra"), None);
    assert_eq!(Palette::Helix.as_str(), "helix");
}

#[test]
fn parses_durations_in_each_unit() {
    assert_eq!(parse_duration_millis("30s"), Some(30_000));
    assert_eq!(parse_duration_millis("500ms"), Some(500));
    assert_eq!(parse_duration_millis("2m"), Some(120_000));
    assert_eq!(parse_duration_millis("1h"), Some(3_600_000));
    assert_eq!(parse_duration_millis("1d"), Some(86_400_000));
    assert_eq!(parse_duration_millis("0s"), Some(0));
}

#[test]
fn rejects_malformed_durations() {
    assert_eq!(parse_duration_millis(""), None);
    assert_eq!(parse_duration_millis("s"), None);
    assert_eq!(parse_duration_millis("30"), None);
    assert_eq!(parse_duration_millis("30x"), None);
    assert_eq!(parse_duration_millis("30 s"), None);
    assert_eq!(parse_duration_millis("3s0"), None);
    assert_eq!(parse_duration_millis("30sec"), None);
}

#[test]
fn rejects_durations_beyond_u64() {
    assert_eq!(parse_duration_millis("18446744073709551615ms"), Some(u64::MAX));
    assert_eq!(parse_duration_millis("18446744073709551616ms"), None);
    assert_eq!(parse_duration_millis("18446744073709552s"), None);
    assert_eq!(parse_duration_millis("99999999999999999999999s"), None);
}
