//! Command line options and subcommands, and the decisions they make.
use vstd::prelude::*;

use crate::keymap::key::{decimal, push_decimal_usize};
use crate::client::payload::ExportSubscriptionPayload;
use crate::strings::str_eq;
use crate::types::ExportedFeed;

verus! {

/// Color theme.
#[derive(Debug, Clone, Copy, PartialEq, Eq, Structural)]
pub enum Palette {
    Ferra,
    SolarizedDark,
    Helix,
}

/// The palette a theme name denotes, if any.
pub open spec fn palette_named(s: Seq<char>) -> Option<Palette> {
    if s == "ferra"@ {
        Some(Palette::Ferra)
    } else if s == "solarized-dark"@ {
        Some(Palette::SolarizedDark)
    } else if s == "helix"@ {
        Some(Palette::Helix)
    } else {
        None
    }
}

/// The name of a palette.
pub open spec fn palette_name(p: Palette) -> Seq<char> {
    match p {
        Palette::Ferra => "ferra"@,
        Palette::SolarizedDark => "solarized-dark"@,
        Palette::Helix => "helix"@,
    }
}

impl Palette {
    /// The palette a theme name, as written in configuration and on the command line, denotes.
    pub fn parse(value: &str) -> (r: Option<Palette>)
        ensures
            r == palette_named(value@),
    {
        if str_eq(value, "ferra") {
            Some(Palette::Ferra)
        } else if str_eq(value, "solarized-dark") {
            Some(Palette::SolarizedDark)
        } else if str_eq(value, "helix") {
            Some(Palette::Helix)
        } else {
            None
        }
    }

    /// The name of this palette.
    pub fn as_str(self) -> (s: &'static str)
        ensures
            s@ == palette_name(self),
    {
        match self {
            Palette::Ferra => "ferra",
            Palette::SolarizedDark => "solarized-dark",
            Palette::Helix => "helix",
        }
    }
}

/// Writing a palette's name and reading it gives the palette back.
pub proof fn lemma_palette_round_trip(p: Palette)
    ensures
        palette_named(palette_name(p)) == Some(p),
{
    reveal_strlit("ferra");
    reveal_strlit("solarized-dark");
    reveal_strlit("helix");
    assert("ferra"@.len() != "solarized-dark"@.len());
    assert("ferra"@[0] != "helix"@[0]);
    assert("solarized-dark"@.len() != "helix"@.len());
}

/// Options of the API client.
#[derive(Debug, Clone, PartialEq, Eq)]
pub struct ApiOptions {
    /// The API endpoint.
    pub endpoint: Option<String>,
    /// Client timeout, in milliseconds.
    pub client_timeout: Option<u64>,
}

/// Options of the feed views.
#[derive(Debug, Clone, PartialEq, Eq)]
pub struct FeedOptions {
    /// Feed entries limit to fetch.
    pub entries_limit: Option<usize>,
    /// Browser command to open feed entry.
    pub browser: Option<String>,
    /// Args for launching the browser command.
    pub browser_args: Option<Vec<String>>,
}

/// Options of the GitHub notification feature.
#[derive(Debug, Clone, PartialEq, Eq)]
pub struct GithubOptions {
    /// Enable GitHub notification feature.
    pub enable_github_notification: Option<bool>,
    /// GitHub personal access token to fetch notifications.
    pub github_pat: Option<String>,
}

/// Where the feed API runs: a remote server, or a local one the application starts.
#[derive(Debug, Clone, Copy, PartialEq, Eq, Structural)]
pub enum BackendMode {
    Remote,
    Local,
}

/// Output format of the check command.
#[derive(Debug, Clone, Copy, PartialEq, Eq, Structural)]
pub enum CheckFormat {
    Human,
    Json,
}

/// Check application conditions.
#[derive(Debug, Clone, Copy, PartialEq, Eq)]
pub struct CheckCommand {
    pub format: CheckFormat,
}

impl CheckCommand {
    /// The name under which a backend mode is reported.
    pub fn backend_mode_name(backend_mode: BackendMode) -> (s: &'static str)
        ensures
            s@ == match backend_mode {
                BackendMode::Remote => "remote"@,
                BackendMode::Local => "local"@,
            },
    {
        match backend_mode {
            BackendMode::Remote => "remote",
            BackendMode::Local => "local",
        }
    }
}

/// The health of the API as its health check reports it.
#[derive(Debug, Clone, PartialEq, Eq)]
pub struct Health {
    pub status: String,
    pub version: Option<String>,
}

/// What the check command reports.
#[derive(Debug, Clone, PartialEq, Eq)]
pub struct CheckOutput {
    pub health: Option<Health>,
    pub config_path: String,
    pub cache_dir: String,
    pub log_path: String,
    pub backend_mode: BackendMode,
    pub local_sqlite_db: Option<String>,
    pub endpoint: Option<String>,
}

/// A label, the value, and a line break.
pub open spec fn report_line(label: Seq<char>, value: Seq<char>) -> Seq<char> {
    label + value + seq!['\n']
}

/// The text of an optional value, or `unknown`.
pub open spec fn or_unknown(v: Option<String>) -> Seq<char> {
    match v {
        Some(s) => s@,
        None => "unknown"@,
    }
}

/// The name under which a backend mode is reported.
pub open spec fn backend_mode_text(m: BackendMode) -> Seq<char> {
    match m {
        BackendMode::Remote => "remote"@,
        BackendMode::Local => "local"@,
    }
}

/// The human-readable report of the check command.
pub open spec fn check_report(o: CheckOutput) -> Seq<char> {
    report_line(" Api Health: "@, or_unknown(match o.health { Some(h) => Some(h.status), None => None }))
        + report_line("Api Version: "@, or_unknown(match o.health { Some(h) => h.version, None => None }))
        + report_line("    Backend: "@, backend_mode_text(o.backend_mode))
        + (match o.local_sqlite_db { Some(db) => report_line("  SQLite DB: "@, db@), None => Seq::<char>::empty() })
        + (match o.endpoint { Some(e) => report_line("   Endpoint: "@, e@), None => Seq::<char>::empty() })
        + report_line("     Config: "@, o.config_path@)
        + report_line("      Cache: "@, o.cache_dir@)
        + report_line("        Log: "@, o.log_path@)
}

/// Appends a label, the value, and a line break.
fn push_line(out: &mut String, label: &str, value: &str)
    ensures
        final(out)@ == old(out)@ + report_line(label@, value@),
{
    out.append(label);
    out.append(value);
    out.append("\n");
    proof {
        reveal_strlit("\n");
        assert(final(out)@ =~= old(out)@ + report_line(label@, value@));
    }
}

impl CheckOutput {
    /// What the check reports for a backend: the database of a local one, the
    /// endpoint of a remote one.
    pub fn new(
        health: Option<Health>,
        config_path: String,
        cache_dir: String,
        log_path: String,
        backend_mode: BackendMode,
        sqlite_db: String,
        endpoint: String,
    ) -> (o: CheckOutput)
        ensures
            o.health == health,
            o.config_path == config_path,
            o.cache_dir == cache_dir,
            o.log_path == log_path,
            o.backend_mode == backend_mode,
            o.local_sqlite_db == if backend_mode is Local { Some(sqlite_db) } else { None::<String> },
            o.endpoint == if backend_mode is Remote { Some(endpoint) } else { None::<String> },
    {
        let (local_sqlite_db, endpoint) = match backend_mode {
            BackendMode::Local => (Some(sqlite_db), None),
            BackendMode::Remote => (None, Some(endpoint)),
        };
        CheckOutput { health, config_path, cache_dir, log_path, backend_mode, local_sqlite_db, endpoint }
    }
}

impl CheckCommand {
    /// The human-readable report of a check.
    pub fn print(output: &CheckOutput) -> (s: String)
        ensures
            s@ == check_report(*output),
    {
        let mut out = String::new();
        let status = match &output.health {
            Some(h) => h.status.as_str(),
            None => "unknown",
        };
        push_line(&mut out, " Api Health: ", status);
        let version = match &output.health {
            Some(h) => match &h.version {
                Some(v) => v.as_str(),
                None => "unknown",
            },
            None => "unknown",
        };
        push_line(&mut out, "Api Version: ", version);
        push_line(&mut out, "    Backend: ", Self::backend_mode_name(output.backend_mode));
        let ghost before_db = out@;
        if let Some(db) = &output.local_sqlite_db {
            push_line(&mut out, "  SQLite DB: ", db.as_str());
        }
        let ghost before_endpoint = out@;
        if let Some(endpoint) = &output.endpoint {
            push_line(&mut out, "   Endpoint: ", endpoint.as_str());
        }
        let ghost before_config = out@;
        push_line(&mut out, "     Config: ", output.config_path.as_str());
        push_line(&mut out, "      Cache: ", output.cache_dir.as_str());
        push_line(&mut out, "        Log: ", output.log_path.as_str());
        proof {
            reveal_strlit("unknown");
            assert(out@ =~= check_report(*output));
        }
        out
    }
}

/// What the check's report says of the API: its health, or that it is unknown.
#[derive(Debug, Clone, PartialEq, Eq)]
pub enum ApiReport {
    Health(Health),
    Unknown,
}

/// The fields of the check's machine-readable report.
#[derive(Debug, Clone, PartialEq, Eq)]
pub struct CheckReport {
    pub api: ApiReport,
    pub config: String,
    pub cache: String,
    pub log: String,
    pub backend: String,
    pub local_sqlite_db: Option<String>,
    pub endpoint: Option<String>,
}

impl CheckCommand {
    /// The machine-readable report of a check: the API's health, or unknown where the
    /// health check gave none; the files; the backend's name; the database of a local
    /// backend and the endpoint of a remote one.
    pub fn report(output: CheckOutput) -> (r: CheckReport)
        ensures
            r.api == match output.health {
                Some(h) => ApiReport::Health(h),
                None => ApiReport::Unknown,
            },
            r.config == output.config_path,
            r.cache == output.cache_dir,
            r.log == output.log_path,
            r.backend@ == backend_mode_text(output.backend_mode),
            r.local_sqlite_db == output.local_sqlite_db,
            r.endpoint == output.endpoint,
    {
        let backend = Self::backend_mode_name(output.backend_mode).to_owned();
        let CheckOutput { health, config_path, cache_dir, log_path, backend_mode: _, local_sqlite_db, endpoint } =
            output;
        let api = match health {
            Some(h) => ApiReport::Health(h),
            None => ApiReport::Unknown,
        };
        CheckReport { api, config: config_path, cache: cache_dir, log: log_path, backend, local_sqlite_db, endpoint }
    }
}

/// What removing a file or directory came to.
#[derive(Debug, Clone, Copy, PartialEq, Eq, Structural)]
pub enum Removal {
    Removed,
    NotFound,
    Failed,
}

/// Clean cache and logs.
#[derive(Debug, Clone, PartialEq, Eq)]
pub struct CleanCommand {
    /// Cache directory.
    pub cache_dir: String,
}

impl CleanCommand {
    /// The exit code of cleaning, from what cleaning the cache and removing the log
    /// file came to: the log file is removed only once the cache is cleaned, and a log
    /// file that is not there is no failure.
    pub fn run(self, cache: Removal, log: Option<Removal>) -> (code: i32)
        ensures
            code == if cache is Failed {
                1i32
            } else {
                match log {
                    Some(Removal::Failed) => 1i32,
                    _ => 0i32,
                }
            },
    {
        if let Removal::Failed = cache {
            return 1;
        }
        match log {
            Some(Removal::Failed) => 1,
            _ => 0,
        }
    }

    /// Whether the log file is to be removed once the cache was cleaned as `cache` says.
    pub fn removes_log(cache: Removal) -> (r: bool)
        ensures
            r == !(cache is Failed),
    {
        !matches!(cache, Removal::Failed)
    }
}

/// Clear cache and log.
#[derive(Debug, Clone, Copy, PartialEq, Eq)]
pub struct ClearCommand {}

impl ClearCommand {
    /// The exit code of clearing, from what removing the cache directory and the log
    /// file came to: the log file is removed only once the cache is removed, and what is
    /// not there is no failure.
    pub fn exit_code(cache: Removal, log: Option<Removal>) -> (code: i32)
        ensures
            code == if cache is Failed {
                1i32
            } else {
                match log {
                    Some(Removal::Failed) => 1i32,
                    _ => 0i32,
                }
            },
    {
        if let Removal::Failed = cache {
            return 1;
        }
        match log {
            Some(Removal::Failed) => 1,
            _ => 0,
        }
    }
}

/// Initialize the configuration file.
#[derive(Debug, Clone, Copy, PartialEq, Eq)]
pub struct ConfigInitCommand {}

/// Subcommands of the config command.
#[derive(Debug, Clone, Copy, PartialEq, Eq)]
pub enum ConfigSubcommand {
    Init(ConfigInitCommand),
}

/// Manage configurations.
#[derive(Debug, Clone, Copy, PartialEq, Eq)]
pub struct ConfigCommand {
    pub command: ConfigSubcommand,
}

/// Import subscribed feeds.
#[derive(Debug, Clone, PartialEq, Eq)]
pub struct ImportCommand {
    /// Print json schema for import data.
    pub print_schema: bool,
    /// Cache directory.
    pub cache_dir: String,
    /// Path to input file, '-' means stdin.
    pub input: String,
}

impl ImportCommand {
    /// Whether the input is read from standard input.
    pub fn reads_stdin(&self) -> (r: bool)
        ensures
            r == (self.input@ == "-"@),
    {
        str_eq(self.input.as_str(), "-")
    }
}

/// A text followed by spaces up to `width` characters.
pub open spec fn padded(s: Seq<char>, width: nat) -> Seq<char> {
    if s.len() >= width {
        s
    } else {
        s + Seq::new((width - s.len()) as nat, |i: int| ' ')
    }
}

/// Appends a text followed by spaces up to `width` characters.
fn push_padded(out: &mut String, s: &str, width: usize)
    ensures
        final(out)@ == old(out)@ + padded(s@, width as nat),
{
    out.append(s);
    let n = s.unicode_len();
    let mut k = n;
    let ghost base = old(out)@ + s@;
    while k < width
        invariant
            n == s@.len(),
            n <= k <= width || (n > width && k == n),
            out@ == base + Seq::new((k - n) as nat, |i: int| ' '),
        decreases width - k,
    {
        push_char_space(out);
        proof {
            assert(out@ =~= base + Seq::new((k + 1 - n) as nat, |i: int| ' '));
        }
        k += 1;
    }
    proof {
        if n >= width {
            assert(out@ =~= old(out)@ + s@);
        } else {
            assert(out@ =~= old(out)@ + padded(s@, width as nat));
        }
    }
}

/// Appends a space.
fn push_char_space(out: &mut String)
    ensures
        final(out)@ == old(out)@.push(' '),
{
    crate::strings::push_char(out, ' ');
}

/// The line reporting a subscribed feed: `OK`, its requirement and category padded
/// to their widths, and its URL.
pub open spec fn import_ok_line(requirement: Seq<char>, category: Seq<char>, width: nat, url: Seq<char>) -> Seq<char> {
    "OK    "@ + padded(requirement, 6) + seq![' '] + padded(category, width) + seq![' '] + url + seq!['\n']
}

/// The line reporting a feed that could not be subscribed.
pub open spec fn import_error_line(url: Seq<char>, message: Seq<char>) -> Seq<char> {
    "ERROR "@ + url + seq![' '] + message + seq!['\n']
}

/// The line summing up an import.
pub open spec fn import_summary_line(ok: nat, total: nat) -> Seq<char> {
    decimal(ok) + seq!['/'] + decimal(total) + " feeds successfully subscribed\n"@
}

/// The width of the category column: the longest category, in characters.
pub open spec fn category_width(categories: Seq<Option<Seq<char>>>) -> nat
    decreases categories.len(),
{
    if categories.len() == 0 {
        0
    } else {
        let w = category_width(categories.drop_last());
        let c = match categories.last() {
            Some(s) => s.len(),
            None => 0,
        };
        if c > w { c } else { w }
    }
}

impl ImportCommand {
    /// The width of the category column of the given categories.
    pub fn max_category_width(categories: &[Option<String>]) -> (w: usize)
        ensures
            w == category_width(categories@.map_values(|c: Option<String>| match c {
                Some(s) => Some(s@),
                None => None::<Seq<char>>,
            })),
    {
        let ghost cs = categories@.map_values(|c: Option<String>| match c {
            Some(s) => Some(s@),
            None => None::<Seq<char>>,
        });
        let mut w: usize = 0;
        let mut i: usize = 0;
        while i < categories.len()
            invariant
                i <= categories@.len(),
                cs == categories@.map_values(|c: Option<String>| match c {
                    Some(s) => Some(s@),
                    None => None::<Seq<char>>,
                }),
                w == category_width(cs.take(i as int)),
            decreases categories@.len() - i,
        {
            let c = match &categories[i] {
                Some(s) => s.as_str().unicode_len(),
                None => 0,
            };
            proof {
                assert(cs.take(i + 1).drop_last() =~= cs.take(i as int));
                assert(cs.take(i + 1).last() == cs[i as int]);
            }
            if c > w {
                w = c;
            }
            i += 1;
        }
        proof {
            assert(cs.take(categories@.len() as int) =~= cs);
        }
        w
    }

    /// The line reporting a subscribed feed.
    pub fn ok_line(requirement: &str, category: &str, width: usize, url: &str) -> (s: String)
        ensures
            s@ == import_ok_line(requirement@, category@, width as nat, url@),
    {
        let mut out = "OK    ".to_owned();
        push_padded(&mut out, requirement, 6);
        push_char_space(&mut out);
        push_padded(&mut out, category, width);
        push_char_space(&mut out);
        out.append(url);
        crate::strings::push_char(&mut out, '\n');
        proof {
            assert(out@ =~= import_ok_line(requirement@, category@, width as nat, url@));
        }
        out
    }

    /// The line reporting a feed that could not be subscribed.
    pub fn error_line(url: &str, message: &str) -> (s: String)
        ensures
            s@ == import_error_line(url@, message@),
    {
        let mut out = "ERROR ".to_owned();
        out.append(url);
        push_char_space(&mut out);
        out.append(message);
        crate::strings::push_char(&mut out, '\n');
        proof {
            assert(out@ =~= import_error_line(url@, message@));
        }
        out
    }

    /// The line summing up an import of `total` feeds of which `ok` were subscribed.
    pub fn summary_line(ok: usize, total: usize) -> (s: String)
        ensures
            s@ == import_summary_line(ok as nat, total as nat),
    {
        let mut out = String::new();
        push_decimal_usize(&mut out, ok);
        crate::strings::push_char(&mut out, '/');
        push_decimal_usize(&mut out, total);
        out.append(" feeds successfully subscribed\n");
        proof {
            assert(out@ =~= import_summary_line(ok as nat, total as nat));
        }
        out
    }
}

/// What subscribing one imported feed came to.
#[derive(Debug, Clone, PartialEq, Eq)]
pub enum ImportOutcome {
    /// The feed was subscribed, with this requirement and category.
    Subscribed { requirement: String, category: String, url: String },
    /// The API could not reach the feed.
    Unavailable { feed_url: String, message: String },
    /// The request failed for the reason given.
    Failed { url: String, message: String },
}

/// The line an import reports for one outcome, with the category column `width` wide.
pub open spec fn import_outcome_line(outcome: ImportOutcome, width: nat) -> Seq<char> {
    match outcome {
        ImportOutcome::Subscribed { requirement, category, url } => import_ok_line(
            requirement@,
            category@,
            width,
            url@,
        ),
        ImportOutcome::Unavailable { feed_url, message } => import_error_line(feed_url@, message@),
        ImportOutcome::Failed { url, message } => import_error_line(url@, message@),
    }
}

/// How far an import of feeds has come: how many of them were subscribed so far.
#[derive(Debug, Clone, PartialEq, Eq)]
pub struct ImportProgress {
    ok: usize,
    total: usize,
    width: usize,
}

impl ImportProgress {
    /// The number of feeds subscribed so far.
    pub closed spec fn ok_count(&self) -> nat {
        self.ok as nat
    }

    /// The number of feeds to import.
    pub closed spec fn total_count(&self) -> nat {
        self.total as nat
    }

    /// The width of the category column.
    pub closed spec fn column_width(&self) -> nat {
        self.width as nat
    }

    /// An import of feeds with the given categories, none subscribed yet.
    pub fn new(categories: &[Option<String>]) -> (p: ImportProgress)
        ensures
            p.ok_count() == 0,
            p.total_count() == categories@.len(),
            p.column_width() == category_width(categories@.map_values(|c: Option<String>| match c {
                Some(s) => Some(s@),
                None => None::<Seq<char>>,
            })),
    {
        ImportProgress { ok: 0, total: categories.len(), width: ImportCommand::max_category_width(categories) }
    }

    /// Records what subscribing one feed came to; returns the line to report.
    pub fn record(&mut self, outcome: ImportOutcome) -> (line: String)
        ensures
            line@ == import_outcome_line(outcome, old(self).column_width()),
            final(self).ok_count() == if outcome is Subscribed {
                if old(self).ok_count() < usize::MAX {
                    old(self).ok_count() + 1
                } else {
                    old(self).ok_count()
                }
            } else {
                old(self).ok_count()
            },
            final(self).total_count() == old(self).total_count(),
            final(self).column_width() == old(self).column_width(),
    {
        match outcome {
            ImportOutcome::Subscribed { requirement, category, url } => {
                self.ok = self.ok.saturating_add(1);
                ImportCommand::ok_line(requirement.as_str(), category.as_str(), self.width, url.as_str())
            },
            ImportOutcome::Unavailable { feed_url, message } => ImportCommand::error_line(
                feed_url.as_str(),
                message.as_str(),
            ),
            ImportOutcome::Failed { url, message } => ImportCommand::error_line(url.as_str(), message.as_str()),
        }
    }

    /// The line summing up the import so far.
    pub fn summary(&self) -> (s: String)
        ensures
            s@ == import_summary_line(self.ok_count(), self.total_count()),
    {
        ImportCommand::summary_line(self.ok, self.total)
    }
}

/// What the export does after a page of feeds.
#[derive(Debug, Clone, PartialEq, Eq)]
pub enum ExportStep {
    /// Fetch the page after this cursor.
    Fetch(Option<String>),
    /// All pages are fetched.
    Done,
}

/// Export subscribed feeds.
#[derive(Debug, Clone, PartialEq, Eq)]
pub struct ExportCommand {
    /// Print exported data json schema.
    pub print_schema: bool,
    /// Cache directory.
    pub cache_dir: String,
}

impl ExportCommand {
    /// Number of feeds fetched in one page.
    pub const PAGE_SIZE: i64 = 50;

    /// The step after a page: the next page when there is one, else done.
    pub fn next_step(has_next_page: bool, end_cursor: Option<String>) -> (s: ExportStep)
        ensures
            has_next_page ==> s == ExportStep::Fetch(end_cursor),
            !has_next_page ==> s == ExportStep::Done,
    {
        if has_next_page {
            ExportStep::Fetch(end_cursor)
        } else {
            ExportStep::Done
        }
    }
}

/// The message an export ends with when no credential could be restored.
pub const NOT_AUTHENTICATED_MESSAGE: &'static str = "You are not authenticated, try login in first";

/// A request for a page of subscribed feeds: those after the cursor, at most `first`.
#[derive(Debug, Clone, PartialEq, Eq)]
pub struct ExportRequest {
    pub after: Option<String>,
    pub first: i64,
}

/// An export in progress: the feeds of the pages fetched so far, in page order.
#[derive(Debug, Clone, PartialEq, Eq)]
pub struct ExportRun {
    feeds: Vec<ExportedFeed>,
}

impl ExportRun {
    /// The feeds gathered so far.
    pub closed spec fn feeds_view(&self) -> Seq<ExportedFeed> {
        self.feeds@
    }

    /// Starts an export once restoring the credential succeeded or failed: the first
    /// request asks for the first page, without a cursor; without a credential the
    /// export fails with `NOT_AUTHENTICATED_MESSAGE`.
    pub fn start(authenticated: bool) -> (r: Result<(ExportRun, ExportRequest), String>)
        ensures
            authenticated ==> (r matches Ok((run, req)) && run.feeds_view() == Seq::<ExportedFeed>::empty()
                && req.after is None && req.first == ExportCommand::PAGE_SIZE),
            !authenticated ==> (r matches Err(m) && m@ == NOT_AUTHENTICATED_MESSAGE@),
    {
        if !authenticated {
            return Err(NOT_AUTHENTICATED_MESSAGE.to_owned());
        }
        let run = ExportRun { feeds: Vec::new() };
        assert(run.feeds_view() =~= Seq::<ExportedFeed>::empty());
        Ok((run, ExportRequest { after: None, first: ExportCommand::PAGE_SIZE }))
    }

    /// Adds the feeds of a fetched page after those gathered; returns the request for
    /// the next page, after the page's end cursor, when there is one.
    pub fn record_page(&mut self, page: ExportSubscriptionPayload) -> (next: Option<ExportRequest>)
        ensures
            final(self).feeds_view() == old(self).feeds_view() + page.feeds@,
            page.page_info.has_next_page ==> next == Some(
                ExportRequest { after: page.page_info.end_cursor, first: ExportCommand::PAGE_SIZE },
            ),
            !page.page_info.has_next_page ==> next is None,
    {
        let ExportSubscriptionPayload { feeds, page_info } = page;
        let mut feeds = feeds;
        self.feeds.append(&mut feeds);
        match ExportCommand::next_step(page_info.has_next_page, page_info.end_cursor) {
            ExportStep::Fetch(after) => Some(ExportRequest { after, first: ExportCommand::PAGE_SIZE }),
            ExportStep::Done => None,
        }
    }

    /// The feeds gathered, in page order.
    pub fn into_feeds(self) -> (v: Vec<ExportedFeed>)
        ensures
            v@ == self.feeds_view(),
    {
        self.feeds
    }
}

} // verus!
