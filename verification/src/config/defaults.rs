//! Default values of the configuration.
use vstd::prelude::*;

verus! {

/// The API endpoint used when none is configured.
pub const API_ENDPOINT: &'static str = "https://localhost:5959/graphql";

/// The OAuth client id of the GitHub application.
pub const GITHUB_CLIENT_ID: &'static str = "6652e5931c88e528a851";

/// Number of entries to fetch first.
pub const INITIAL_ENTRY_TO_FETCH: i64 = 200;

/// Client timeout used when none is configured, in milliseconds.
pub const DEFAULT_TIMEOUT_MILLIS: u64 = 30000;

/// Number of feeds to fetch in one request.
pub const DEFAULT_FEEDS_PER_PAGINATION: i64 = 50;

/// Feed entries to fetch when no limit is configured.
pub const DEFAULT_ENTRIES_LIMIT: usize = 200;

/// Name of the credential cache file.
pub const CREDENTIAL_FILE: &'static str = "credential.json";

/// Name of the file that keeps the GitHub notification filter options.
pub const GH_NOTIFICATION_FILTER_OPTION_FILE: &'static str = "gh_notification_filter_options.json";

/// The text browser command used when none is configured: none.
pub fn default_browser_command() -> (s: String)
    ensures
        s@ == Seq::<char>::empty(),
{
    String::new()
}

} // verus!
