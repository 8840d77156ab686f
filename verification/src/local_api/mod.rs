//! Starting the feed API locally: its configuration, token, launch plan and readiness.
use vstd::prelude::*;

use rand::distr::SampleString;

verus! {

/// Whether a character is an ASCII letter or digit.
pub open spec fn is_ascii_alphanumeric(c: char) -> bool {
    ('a' <= c && c <= 'z') || ('A' <= c && c <= 'Z') || ('0' <= c && c <= '9')
}

/// A random text of `len` ASCII letters and digits.
///
/// Calls `rand::distr::Alphanumeric`'s `sample_string` with the thread's generator,
/// which appends `len` characters drawn from `a-z`, `A-Z` and `0-9`; which ones is
/// chance, so nothing more is stated.
#[verifier::external_body]
fn sample_alphanumeric(len: usize) -> (s: String)
    ensures
        s@.len() == len,
        forall|i: int| 0 <= i < len ==> is_ascii_alphanumeric(#[trigger] s@[i]),
{
    rand::distr::Alphanumeric.sample_string(&mut rand::rng(), len)
}

/// The parent directory of a path, as `std::path::Path::parent` gives it.
pub uninterp spec fn path_parent(path: Seq<char>) -> Option<Seq<char>>;

/// The parent directory of a path, if it has one.
///
/// Calls `std::path::Path::parent`; the result is named `path_parent` of the path.
#[verifier::external_body]
fn parent_of(path: &str) -> (p: Option<String>)
    ensures
        match path_parent(path@) {
            Some(q) => p matches Some(s) && s@ == q,
            None => p is None,
        },
{
    std::path::Path::new(path).parent().map(|p| p.to_string_lossy().into_owned())
}

/// Length of a local API token.
pub const TOKEN_LEN: usize = 64;

/// How long the local API may take to become ready, in milliseconds.
pub const STARTUP_TIMEOUT_MILLIS: u64 = 5000;

/// How long to wait for the local API to stop, in milliseconds.
pub const SHUTDOWN_TIMEOUT_MILLIS: u64 = 3000;

/// Where the local API keeps its data, and its client timeout.
#[derive(Debug, Clone, PartialEq, Eq)]
pub struct LocalApiConfig {
    pub sqlite_db: String,
    /// Client timeout, in milliseconds.
    pub timeout: u64,
}

/// The secret the local API and its client share.
#[derive(Debug, Clone, PartialEq, Eq)]
pub struct LocalApiToken(String);

impl LocalApiToken {
    /// The text of the token.
    pub closed spec fn text(&self) -> Seq<char> {
        self.0@
    }

    /// A new random token of 64 ASCII letters and digits.
    pub fn generate() -> (t: LocalApiToken)
        ensures
            t.text().len() == TOKEN_LEN,
            forall|i: int| 0 <= i < TOKEN_LEN ==> is_ascii_alphanumeric(#[trigger] t.text()[i]),
    {
        LocalApiToken(sample_alphanumeric(TOKEN_LEN))
    }

    /// The text of the token.
    pub fn as_str(&self) -> (s: &str)
        ensures
            s@ == self.text(),
    {
        self.0.as_str()
    }

    /// The text of the token.
    pub fn into_string(self) -> (s: String)
        ensures
            s@ == self.text(),
    {
        self.0
    }
}

/// What starting the local API needs: its database, timeout, token, and the
/// directories to create first.
#[derive(Debug, Clone, PartialEq, Eq)]
pub struct LocalApiLaunch {
    sqlite_db: String,
    timeout: u64,
    token: LocalApiToken,
    required_dirs: Vec<String>,
}

impl LocalApiLaunch {
    /// The database path.
    pub closed spec fn sqlite_db_view(&self) -> Seq<char> {
        self.sqlite_db@
    }

    /// The client timeout, in milliseconds.
    pub closed spec fn timeout_view(&self) -> u64 {
        self.timeout
    }

    /// The token.
    pub closed spec fn token_view(&self) -> LocalApiToken {
        self.token
    }

    /// The directories to create before starting.
    pub closed spec fn required_dirs_view(&self) -> Seq<Seq<char>> {
        self.required_dirs@.map_values(|d: String| d@)
    }

    /// The launch of a configuration: the directory of the database is required.
    pub fn from_config(config: LocalApiConfig, token: LocalApiToken) -> (l: LocalApiLaunch)
        ensures
            l.sqlite_db_view() == config.sqlite_db@,
            l.timeout_view() == config.timeout,
            l.token_view() == token,
            l.required_dirs_view() == match path_parent(config.sqlite_db@) {
                Some(p) => seq![p],
                None => Seq::<Seq<char>>::empty(),
            },
    {
        let mut required_dirs: Vec<String> = Vec::new();
        match parent_of(config.sqlite_db.as_str()) {
            Some(p) => required_dirs.push(p),
            None => {},
        }
        let l = LocalApiLaunch { sqlite_db: config.sqlite_db, timeout: config.timeout, token, required_dirs };
        assert(l.required_dirs_view() =~= match path_parent(config.sqlite_db@) {
            Some(p) => seq![p],
            None => Seq::<Seq<char>>::empty(),
        });
        l
    }

    /// The database path.
    pub fn sqlite_db(&self) -> (s: &str)
        ensures
            s@ == self.sqlite_db_view(),
    {
        self.sqlite_db.as_str()
    }

    /// The client timeout, in milliseconds.
    pub fn timeout(&self) -> (t: u64)
        ensures
            t == self.timeout_view(),
    {
        self.timeout
    }

    /// The directories to create before starting.
    pub fn required_dirs(&self) -> (v: &[String])
        ensures
            v@.map_values(|d: String| d@) == self.required_dirs_view(),
    {
        self.required_dirs.as_slice()
    }

    /// The token.
    pub fn into_token(self) -> (t: LocalApiToken)
        ensures
            t == self.token_view(),
    {
        self.token
    }
}

/// What waiting for the local API to become ready calls for next.
#[derive(Debug, Clone, Copy, PartialEq, Eq, Structural)]
pub enum ReadinessStep {
    /// The API answers its health check.
    Ready,
    /// The API stopped before it became ready.
    Exited,
    /// The API did not become ready in time.
    TimedOut,
    /// Wait a little and check again.
    Wait,
}

/// The next step of waiting for readiness: a stopped API fails first, then a healthy
/// one is ready, then a passed deadline fails; otherwise wait.
pub fn readiness_step(finished: bool, healthy: bool, past_deadline: bool) -> (r: ReadinessStep)
    ensures
        r == if finished {
            ReadinessStep::Exited
        } else if healthy {
            ReadinessStep::Ready
        } else if past_deadline {
            ReadinessStep::TimedOut
        } else {
            ReadinessStep::Wait
        },
{
    if finished {
        ReadinessStep::Exited
    } else if healthy {
        ReadinessStep::Ready
    } else if past_deadline {
        ReadinessStep::TimedOut
    } else {
        ReadinessStep::Wait
    }
}

} // verus!
