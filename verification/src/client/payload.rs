//! Payloads of the feed API: subscriptions, timeline, refresh status and events.
use vstd::prelude::*;

use crate::strings::str_eq;
use crate::types::{Category, EntryMeta, ExportedFeed, FeedType, Link, PageInfo, Requirement};

verus! {

/// A page of timeline entries.
#[derive(Debug, Clone, PartialEq, Eq)]
pub struct FetchEntriesPayload {
    pub entries: Vec<Entry>,
    pub page_info: PageInfo,
}

impl FetchEntriesPayload {
    /// The entries and page of an entries response.
    pub fn from_output(v: EntriesOutput) -> (p: FetchEntriesPayload)
        ensures
            p.entries == v.entries.nodes,
            p.page_info == v.entries.page_info,
    {
        FetchEntriesPayload { entries: v.entries.nodes, page_info: v.entries.page_info }
    }
}

/// What the API sends first about the feed registry: subscriptions and timeline, each
/// when available.
#[derive(Debug, Clone, PartialEq, Eq)]
pub struct InitialFeedRegistryPayload {
    pub subscriptions: InitialSubscriptionsPayload,
    pub timeline: InitialTimelinePayload,
}

/// The subscriptions of the initial payload, when available.
#[derive(Debug, Clone, PartialEq, Eq)]
pub enum InitialSubscriptionsPayload {
    Ready(FeedConnection),
    Unavailable,
}

impl InitialSubscriptionsPayload {
    /// The payload of a value that may be absent: absent means unavailable.
    pub fn from_option(v: Option<FeedConnection>) -> (p: InitialSubscriptionsPayload)
        ensures
            match v {
                Some(f) => p == InitialSubscriptionsPayload::Ready(f),
                None => p == InitialSubscriptionsPayload::Unavailable,
            },
    {
        match v {
            Some(f) => InitialSubscriptionsPayload::Ready(f),
            None => InitialSubscriptionsPayload::Unavailable,
        }
    }
}

impl Default for InitialSubscriptionsPayload {
    fn default() -> (p: Self)
        ensures
            p == InitialSubscriptionsPayload::Unavailable,
    {
        InitialSubscriptionsPayload::Unavailable
    }
}

/// The timeline of the initial payload, when available.
#[derive(Debug, Clone, PartialEq, Eq)]
pub enum InitialTimelinePayload {
    Ready(TimelinePayload),
    Unavailable,
}

impl InitialTimelinePayload {
    /// The payload of a value that may be absent: absent means unavailable.
    pub fn from_option(v: Option<TimelinePayload>) -> (p: InitialTimelinePayload)
        ensures
            match v {
                Some(t) => p == InitialTimelinePayload::Ready(t),
                None => p == InitialTimelinePayload::Unavailable,
            },
    {
        match v {
            Some(t) => InitialTimelinePayload::Ready(t),
            None => InitialTimelinePayload::Unavailable,
        }
    }
}

impl Default for InitialTimelinePayload {
    fn default() -> (p: Self)
        ensures
            p == InitialTimelinePayload::Unavailable,
    {
        InitialTimelinePayload::Unavailable
    }
}

impl InitialFeedRegistryPayload {
    /// The subscriptions and the first page of the timeline, each when available.
    pub fn into_parts(self) -> (r: (Option<SubscriptionPayload>, Option<FetchEntriesPayload>))
        ensures
            match self.subscriptions {
                InitialSubscriptionsPayload::Ready(feeds) => r.0 == Some(SubscriptionPayload { feeds }),
                InitialSubscriptionsPayload::Unavailable => r.0 is None,
            },
            match self.timeline {
                InitialTimelinePayload::Ready(t) => r.1 == Some(
                    FetchEntriesPayload { entries: t.entries.nodes, page_info: t.entries.page_info },
                ),
                InitialTimelinePayload::Unavailable => r.1 is None,
            },
    {
        let subscriptions = match self.subscriptions {
            InitialSubscriptionsPayload::Ready(feeds) => Some(SubscriptionPayload { feeds }),
            InitialSubscriptionsPayload::Unavailable => None,
        };
        let timeline = match self.timeline {
            InitialTimelinePayload::Ready(timeline) => Some(
                FetchEntriesPayload { entries: timeline.entries.nodes, page_info: timeline.entries.page_info },
            ),
            InitialTimelinePayload::Unavailable => None,
        };
        (subscriptions, timeline)
    }
}

/// The timeline of the initial payload.
#[derive(Debug, Clone, PartialEq, Eq)]
pub struct TimelinePayload {
    pub entries: EntryConnection,
}

/// The response to an entries query.
#[derive(Debug, Clone, PartialEq, Eq)]
pub struct EntriesResponseData {
    pub output: EntriesOutput,
}

/// The subscription part of an entries response.
#[derive(Debug, Clone, PartialEq, Eq)]
pub struct EntriesOutput {
    pub entries: EntryConnection,
}

/// A page of entries.
#[derive(Debug, Clone, PartialEq, Eq)]
pub struct EntryConnection {
    pub nodes: Vec<Entry>,
    pub page_info: PageInfo,
}

/// An entry of the timeline.
#[derive(Debug, Clone, PartialEq, Eq)]
pub struct Entry {
    pub title: Option<String>,
    pub published: Option<String>,
    pub updated: Option<String>,
    pub website_url: Option<String>,
    pub summary: Option<String>,
    pub feed: FeedMeta,
}

/// The feed an entry belongs to.
#[derive(Debug, Clone, PartialEq, Eq)]
pub struct FeedMeta {
    pub title: Option<String>,
    pub url: String,
    pub requirement: Option<Requirement>,
    pub category: Option<Category>,
}

/// The subscribed feeds.
#[derive(Debug, Clone, PartialEq, Eq)]
pub struct SubscriptionPayload {
    pub feeds: FeedConnection,
}

/// A page of subscribed feeds.
#[derive(Debug, Clone, PartialEq, Eq)]
pub struct FeedConnection {
    pub nodes: Vec<SubscribedFeed>,
    pub page_info: PageInfo,
}

/// A subscribed feed with its refresh policy and status, and its details once fetched.
#[derive(Debug, Clone, PartialEq, Eq)]
pub struct SubscribedFeed {
    pub url: String,
    pub requirement: Option<Requirement>,
    pub category: Option<Category>,
    pub refresh_policy: RefreshPolicy,
    pub refresh_status: RefreshStatus,
    pub feed: Option<FeedDetails>,
}

/// How a feed is refreshed.
#[derive(Debug, Clone, PartialEq, Eq)]
pub struct RefreshPolicy {
    pub kind: RefreshPolicyKind,
    pub interval_seconds: Option<i64>,
}

/// Whether a feed is refreshed on request or at an interval.
#[allow(non_camel_case_types)]
#[derive(Debug, Clone, PartialEq, Eq)]
pub enum RefreshPolicyKind {
    Manual,
    Interval,
    /// A value this client does not know, kept as sent.
    Other(String),
}

/// The value a known name denotes, if `s` is one.
pub open spec fn refresh_policy_kind_named(s: Seq<char>) -> Option<RefreshPolicyKind> {
    if s == "MANUAL"@ {
        Some(RefreshPolicyKind::Manual)
    }
    else if s == "INTERVAL"@ {
        Some(RefreshPolicyKind::Interval)
    }
    else {
        None
    }
}

/// The name of a value.
pub open spec fn refresh_policy_kind_name(v: RefreshPolicyKind) -> Seq<char> {
    match v {
        RefreshPolicyKind::Manual => "MANUAL"@,
        RefreshPolicyKind::Interval => "INTERVAL"@,
        RefreshPolicyKind::Other(s) => s@,
    }
}

impl RefreshPolicyKind {
    /// Reads a value from its name; a name that is not known is kept as `Other`.
    pub fn parse(value: &str) -> (r: RefreshPolicyKind)
        ensures
            match refresh_policy_kind_named(value@) {
                Some(v) => r == v,
                None => r matches RefreshPolicyKind::Other(s) && s@ == value@,
            },
    {
        if str_eq(value, "MANUAL") {
            RefreshPolicyKind::Manual
        }
        else if str_eq(value, "INTERVAL") {
            RefreshPolicyKind::Interval
        }
        else {
            RefreshPolicyKind::Other(value.to_owned())
        }
    }

    /// The name of this value.
    pub fn as_str(&self) -> (s: &str)
        ensures
            s@ == refresh_policy_kind_name(*self),
    {
        match self {
            RefreshPolicyKind::Manual => "MANUAL",
            RefreshPolicyKind::Interval => "INTERVAL",
            RefreshPolicyKind::Other(s) => s.as_str(),
        }
    }
}

/// Reading a name and writing the value gives the name back.
pub proof fn lemma_refresh_policy_kind_name_of_parsed(s: Seq<char>)
    ensures
        refresh_policy_kind_named(s) matches Some(v) ==> refresh_policy_kind_name(v) == s,
{
}

/// Writing a known value and reading the name gives the value back.
pub proof fn lemma_refresh_policy_kind_parse_of_name(v: RefreshPolicyKind)
    requires
        !(v is Other),
    ensures
        refresh_policy_kind_named(refresh_policy_kind_name(v)) == Some(v),
{
    reveal_strlit("MANUAL");
    reveal_strlit("INTERVAL");
    assert("MANUAL"@.len() != "INTERVAL"@.len());
}

/// Where the refresh of a feed stands.
#[derive(Debug, Clone, PartialEq, Eq)]
pub struct RefreshStatus {
    pub state: RefreshStatusState,
    pub request_id: Option<String>,
    pub last_attempt_at: Option<String>,
    pub last_success_at: Option<String>,
    pub last_failure_at: Option<String>,
    pub last_error_message: Option<String>,
}

/// The state of a feed refresh.
#[allow(non_camel_case_types)]
#[derive(Debug, Clone, PartialEq, Eq)]
pub enum RefreshStatusState {
    NeverRefreshed,
    Idle,
    Pending,
    Running,
    LastFailed,
    /// A value this client does not know, kept as sent.
    Other(String),
}

/// The value a known name denotes, if `s` is one.
pub open spec fn refresh_status_state_named(s: Seq<char>) -> Option<RefreshStatusState> {
    if s == "NEVER_REFRESHED"@ {
        Some(RefreshStatusState::NeverRefreshed)
    }
    else if s == "IDLE"@ {
        Some(RefreshStatusState::Idle)
    }
    else if s == "PENDING"@ {
        Some(RefreshStatusState::Pending)
    }
    else if s == "RUNNING"@ {
        Some(RefreshStatusState::Running)
    }
    else if s == "LAST_FAILED"@ {
        Some(RefreshStatusState::LastFailed)
    }
    else {
        None
    }
}

/// The name of a value.
pub open spec fn refresh_status_state_name(v: RefreshStatusState) -> Seq<char> {
    match v {
        RefreshStatusState::NeverRefreshed => "NEVER_REFRESHED"@,
        RefreshStatusState::Idle => "IDLE"@,
        RefreshStatusState::Pending => "PENDING"@,
        RefreshStatusState::Running => "RUNNING"@,
        RefreshStatusState::LastFailed => "LAST_FAILED"@,
        RefreshStatusState::Other(s) => s@,
    }
}

impl RefreshStatusState {
    /// Reads a value from its name; a name that is not known is kept as `Other`.
    pub fn parse(value: &str) -> (r: RefreshStatusState)
        ensures
            match refresh_status_state_named(value@) {
                Some(v) => r == v,
                None => r matches RefreshStatusState::Other(s) && s@ == value@,
            },
    {
        if str_eq(value, "NEVER_REFRESHED") {
            RefreshStatusState::NeverRefreshed
        }
        else if str_eq(value, "IDLE") {
            RefreshStatusState::Idle
        }
        else if str_eq(value, "PENDING") {
            RefreshStatusState::Pending
        }
        else if str_eq(value, "RUNNING") {
            RefreshStatusState::Running
        }
        else if str_eq(value, "LAST_FAILED") {
            RefreshStatusState::LastFailed
        }
        else {
            RefreshStatusState::Other(value.to_owned())
        }
    }

    /// The name of this value.
    pub fn as_str(&self) -> (s: &str)
        ensures
            s@ == refresh_status_state_name(*self),
    {
        match self {
            RefreshStatusState::NeverRefreshed => "NEVER_REFRESHED",
            RefreshStatusState::Idle => "IDLE",
            RefreshStatusState::Pending => "PENDING",
            RefreshStatusState::Running => "RUNNING",
            RefreshStatusState::LastFailed => "LAST_FAILED",
            RefreshStatusState::Other(s) => s.as_str(),
        }
    }
}

/// Reading a name and writing the value gives the name back.
pub proof fn lemma_refresh_status_state_name_of_parsed(s: Seq<char>)
    ensures
        refresh_status_state_named(s) matches Some(v) ==> refresh_status_state_name(v) == s,
{
}

/// Writing a known value and reading the name gives the value back.
pub proof fn lemma_refresh_status_state_parse_of_name(v: RefreshStatusState)
    requires
        !(v is Other),
    ensures
        refresh_status_state_named(refresh_status_state_name(v)) == Some(v),
{
    reveal_strlit("NEVER_REFRESHED");
    reveal_strlit("IDLE");
    reveal_strlit("PENDING");
    reveal_strlit("RUNNING");
    reveal_strlit("LAST_FAILED");
    assert("NEVER_REFRESHED"@.len() != "IDLE"@.len());
    assert("NEVER_REFRESHED"@.len() != "PENDING"@.len());
    assert("IDLE"@.len() != "PENDING"@.len());
    assert("NEVER_REFRESHED"@.len() != "RUNNING"@.len());
    assert("IDLE"@.len() != "RUNNING"@.len());
    assert("PENDING"@[0] != "RUNNING"@[0]);
    assert("NEVER_REFRESHED"@.len() != "LAST_FAILED"@.len());
    assert("IDLE"@.len() != "LAST_FAILED"@.len());
    assert("PENDING"@.len() != "LAST_FAILED"@.len());
    assert("RUNNING"@.len() != "LAST_FAILED"@.len());
}

impl RefreshStatusState {
    /// Whether a refresh is waiting or running.
    pub fn is_active(&self) -> (r: bool)
        ensures
            r == (*self is Pending || *self is Running),
    {
        match self {
            RefreshStatusState::Pending | RefreshStatusState::Running => true,
            _ => false,
        }
    }
}

/// The refresh status of a feed, as an API response holds it.
#[derive(Debug, Clone, PartialEq, Eq)]
pub struct FeedStatusOutput {
    pub feed_status: RefreshStatus,
}

/// The response to a feed status query.
#[derive(Debug, Clone, PartialEq, Eq)]
pub struct FeedStatusResponseData {
    pub output: FeedStatusOutput,
}

/// The timeline changed, for some feeds or for all.
#[derive(Debug, Clone, PartialEq, Eq)]
pub struct TimelineChangedEvent {
    pub changed_at: String,
    pub affected_feeds: Option<Vec<String>>,
}

/// An event of the feed registry.
#[derive(Debug, Clone, PartialEq, Eq)]
pub enum FeedRegistryEvent {
    TimelineChanged(TimelineChangedEvent),
}

/// The details of a fetched feed.
#[derive(Debug, Clone, PartialEq, Eq)]
pub struct FeedDetails {
    pub feed_type: GraphqlFeedType,
    pub title: Option<String>,
    pub updated: Option<String>,
    pub website_url: Option<String>,
    pub description: Option<String>,
    pub generator: Option<String>,
    pub entries: EntryMetaConnection,
    pub links: LinkConnection,
    pub authors: AuthorsConnection,
}

/// Feed format as the API names it.
#[allow(non_camel_case_types)]
#[derive(Debug, Clone, PartialEq, Eq)]
pub enum GraphqlFeedType {
    Atom,
    Json,
    Rss0,
    Rss1,
    Rss2,
    /// A value this client does not know, kept as sent.
    Other(String),
}

/// The value a known name denotes, if `s` is one.
pub open spec fn graphql_feed_type_named(s: Seq<char>) -> Option<GraphqlFeedType> {
    if s == "ATOM"@ {
        Some(GraphqlFeedType::Atom)
    }
    else if s == "JSON"@ {
        Some(GraphqlFeedType::Json)
    }
    else if s == "RSS0"@ {
        Some(GraphqlFeedType::Rss0)
    }
    else if s == "RSS1"@ {
        Some(GraphqlFeedType::Rss1)
    }
    else if s == "RSS2"@ {
        Some(GraphqlFeedType::Rss2)
    }
    else {
        None
    }
}

/// The name of a value.
pub open spec fn graphql_feed_type_name(v: GraphqlFeedType) -> Seq<char> {
    match v {
        GraphqlFeedType::Atom => "ATOM"@,
        GraphqlFeedType::Json => "JSON"@,
        GraphqlFeedType::Rss0 => "RSS0"@,
        GraphqlFeedType::Rss1 => "RSS1"@,
        GraphqlFeedType::Rss2 => "RSS2"@,
        GraphqlFeedType::Other(s) => s@,
    }
}

impl GraphqlFeedType {
    /// Reads a value from its name; a name that is not known is kept as `Other`.
    pub fn parse(value: &str) -> (r: GraphqlFeedType)
        ensures
            match graphql_feed_type_named(value@) {
                Some(v) => r == v,
                None => r matches GraphqlFeedType::Other(s) && s@ == value@,
            },
    {
        if str_eq(value, "ATOM") {
            GraphqlFeedType::Atom
        }
        else if str_eq(value, "JSON") {
            GraphqlFeedType::Json
        }
        else if str_eq(value, "RSS0") {
            GraphqlFeedType::Rss0
        }
        else if str_eq(value, "RSS1") {
            GraphqlFeedType::Rss1
        }
        else if str_eq(value, "RSS2") {
            GraphqlFeedType::Rss2
        }
        else {
            GraphqlFeedType::Other(value.to_owned())
        }
    }

    /// The name of this value.
    pub fn as_str(&self) -> (s: &str)
        ensures
            s@ == graphql_feed_type_name(*self),
    {
        match self {
            GraphqlFeedType::Atom => "ATOM",
            GraphqlFeedType::Json => "JSON",
            GraphqlFeedType::Rss0 => "RSS0",
            GraphqlFeedType::Rss1 => "RSS1",
            GraphqlFeedType::Rss2 => "RSS2",
            GraphqlFeedType::Other(s) => s.as_str(),
        }
    }
}

/// Reading a name and writing the value gives the name back.
pub proof fn lemma_graphql_feed_type_name_of_parsed(s: Seq<char>)
    ensures
        graphql_feed_type_named(s) matches Some(v) ==> graphql_feed_type_name(v) == s,
{
}

/// Writing a known value and reading the name gives the value back.
pub proof fn lemma_graphql_feed_type_parse_of_name(v: GraphqlFeedType)
    requires
        !(v is Other),
    ensures
        graphql_feed_type_named(graphql_feed_type_name(v)) == Some(v),
{
    reveal_strlit("ATOM");
    reveal_strlit("JSON");
    reveal_strlit("RSS0");
    reveal_strlit("RSS1");
    reveal_strlit("RSS2");
    assert("ATOM"@[0] != "JSON"@[0]);
    assert("ATOM"@[0] != "RSS0"@[0]);
    assert("JSON"@[0] != "RSS0"@[0]);
    assert("ATOM"@[0] != "RSS1"@[0]);
    assert("JSON"@[0] != "RSS1"@[0]);
    assert("RSS0"@[3] != "RSS1"@[3]);
    assert("ATOM"@[0] != "RSS2"@[0]);
    assert("JSON"@[0] != "RSS2"@[0]);
    assert("RSS0"@[3] != "RSS2"@[3]);
    assert("RSS1"@[3] != "RSS2"@[3]);
}

impl GraphqlFeedType {
    /// The feed format, unless the API named one this client does not know.
    pub fn into_feed_type(self) -> (r: Option<FeedType>)
        ensures
            r == match self {
                GraphqlFeedType::Atom => Some(FeedType::Atom),
                GraphqlFeedType::Json => Some(FeedType::JSON),
                GraphqlFeedType::Rss0 => Some(FeedType::RSS0),
                GraphqlFeedType::Rss1 => Some(FeedType::RSS1),
                GraphqlFeedType::Rss2 => Some(FeedType::RSS2),
                GraphqlFeedType::Other(_) => None,
            },
    {
        match self {
            GraphqlFeedType::Atom => Some(FeedType::Atom),
            GraphqlFeedType::Json => Some(FeedType::JSON),
            GraphqlFeedType::Rss0 => Some(FeedType::RSS0),
            GraphqlFeedType::Rss1 => Some(FeedType::RSS1),
            GraphqlFeedType::Rss2 => Some(FeedType::RSS2),
            GraphqlFeedType::Other(_) => None,
        }
    }
}

/// The latest entries of a feed.
#[derive(Debug, Clone, PartialEq, Eq)]
pub struct EntryMetaConnection {
    pub nodes: Vec<EntryMeta>,
}

/// The links of a feed.
#[derive(Debug, Clone, PartialEq, Eq)]
pub struct LinkConnection {
    pub nodes: Vec<Link>,
}

/// The authors of a feed.
#[derive(Debug, Clone, PartialEq, Eq)]
pub struct AuthorsConnection {
    pub nodes: Vec<String>,
}

/// What to subscribe to, and how to refresh it.
#[derive(Debug, Clone, PartialEq, Eq)]
pub struct SubscribeFeedInput {
    pub url: String,
    pub requirement: Option<Requirement>,
    pub category: Option<Category>,
    pub refresh_policy: Option<RefreshPolicyInput>,
    pub initial_refresh: Option<InitialRefreshModeInput>,
}

/// Whether subscribing waits for the first refresh to succeed.
#[allow(non_camel_case_types)]
#[derive(Debug, Clone, Copy, PartialEq, Eq, Hash, Structural)]
pub enum InitialRefreshModeInput {
    Async,
    RequireSuccess,
}

/// The value a known name denotes, if `s` is one.
pub open spec fn initial_refresh_mode_named(s: Seq<char>) -> Option<InitialRefreshModeInput> {
    if s == "ASYNC"@ {
        Some(InitialRefreshModeInput::Async)
    }
    else if s == "REQUIRE_SUCCESS"@ {
        Some(InitialRefreshModeInput::RequireSuccess)
    }
    else {
        None
    }
}

/// The name of a value.
pub open spec fn initial_refresh_mode_name(v: InitialRefreshModeInput) -> Seq<char> {
    match v {
        InitialRefreshModeInput::Async => "ASYNC"@,
        InitialRefreshModeInput::RequireSuccess => "REQUIRE_SUCCESS"@,
    }
}

impl InitialRefreshModeInput {
    /// Reads a value from its name.
    pub fn parse(value: &str) -> (r: Option<InitialRefreshModeInput>)
        ensures
            r == initial_refresh_mode_named(value@),
    {
        if str_eq(value, "ASYNC") {
            Some(InitialRefreshModeInput::Async)
        }
        else if str_eq(value, "REQUIRE_SUCCESS") {
            Some(InitialRefreshModeInput::RequireSuccess)
        }
        else {
            None
        }
    }

    /// The name of this value.
    pub fn as_str(&self) -> (s: &str)
        ensures
            s@ == initial_refresh_mode_name(*self),
    {
        match self {
            InitialRefreshModeInput::Async => "ASYNC",
            InitialRefreshModeInput::RequireSuccess => "REQUIRE_SUCCESS",
        }
    }
}

/// Reading a name and writing the value gives the name back.
pub proof fn lemma_initial_refresh_mode_name_of_parsed(s: Seq<char>)
    ensures
        initial_refresh_mode_named(s) matches Some(v) ==> initial_refresh_mode_name(v) == s,
{
}

/// Writing a known value and reading the name gives the value back.
pub proof fn lemma_initial_refresh_mode_parse_of_name(v: InitialRefreshModeInput)
    ensures
        initial_refresh_mode_named(initial_refresh_mode_name(v)) == Some(v),
{
    reveal_strlit("ASYNC");
    reveal_strlit("REQUIRE_SUCCESS");
    assert("ASYNC"@.len() != "REQUIRE_SUCCESS"@.len());
}

/// How a new subscription is to be refreshed.
#[derive(Debug, Clone, PartialEq, Eq)]
pub struct RefreshPolicyInput {
    pub kind: RefreshPolicyInputKind,
    pub interval_seconds: Option<i64>,
}

/// Whether a new subscription is refreshed on request or at an interval.
#[allow(non_camel_case_types)]
#[derive(Debug, Clone, Copy, PartialEq, Eq, Hash, Structural)]
pub enum RefreshPolicyInputKind {
    Manual,
    Interval,
}

/// The value a known name denotes, if `s` is one.
pub open spec fn refresh_policy_input_kind_named(s: Seq<char>) -> Option<RefreshPolicyInputKind> {
    if s == "MANUAL"@ {
        Some(RefreshPolicyInputKind::Manual)
    }
    else if s == "INTERVAL"@ {
        Some(RefreshPolicyInputKind::Interval)
    }
    else {
        None
    }
}

/// The name of a value.
pub open spec fn refresh_policy_input_kind_name(v: RefreshPolicyInputKind) -> Seq<char> {
    match v {
        RefreshPolicyInputKind::Manual => "MANUAL"@,
        RefreshPolicyInputKind::Interval => "INTERVAL"@,
    }
}

impl RefreshPolicyInputKind {
    /// Reads a value from its name.
    pub fn parse(value: &str) -> (r: Option<RefreshPolicyInputKind>)
        ensures
            r == refresh_policy_input_kind_named(value@),
    {
        if str_eq(value, "MANUAL") {
            Some(RefreshPolicyInputKind::Manual)
        }
        else if str_eq(value, "INTERVAL") {
            Some(RefreshPolicyInputKind::Interval)
        }
        else {
            None
        }
    }

    /// The name of this value.
    pub fn as_str(&self) -> (s: &str)
        ensures
            s@ == refresh_policy_input_kind_name(*self),
    {
        match self {
            RefreshPolicyInputKind::Manual => "MANUAL",
            RefreshPolicyInputKind::Interval => "INTERVAL",
        }
    }
}

/// Reading a name and writing the value gives the name back.
pub proof fn lemma_refresh_policy_input_kind_name_of_parsed(s: Seq<char>)
    ensures
        refresh_policy_input_kind_named(s) matches Some(v) ==> refresh_policy_input_kind_name(v) == s,
{
}

/// Writing a known value and reading the name gives the value back.
pub proof fn lemma_refresh_policy_input_kind_parse_of_name(v: RefreshPolicyInputKind)
    ensures
        refresh_policy_input_kind_named(refresh_policy_input_kind_name(v)) == Some(v),
{
    reveal_strlit("MANUAL");
    reveal_strlit("INTERVAL");
    assert("MANUAL"@.len() != "INTERVAL"@.len());
}

/// The response to a subscription.
#[derive(Debug, Clone, PartialEq, Eq)]
pub struct SubscribeFeedPayload {
    pub status: ResponseStatus,
    pub url: String,
    pub request_id: Option<String>,
    pub disposition: Option<RefreshDisposition>,
}

/// The response to a refresh request.
#[derive(Debug, Clone, PartialEq, Eq)]
pub struct RefreshFeedPayload {
    pub status: ResponseStatus,
    pub request_id: String,
    pub disposition: RefreshDisposition,
}

/// What became of a refresh request.
#[allow(non_camel_case_types)]
#[derive(Debug, Clone, PartialEq, Eq)]
pub enum RefreshDisposition {
    Created,
    Promoted,
    CoalescedPending,
    JoinedRunning,
    /// A value this client does not know, kept as sent.
    Other(String),
}

/// The value a known name denotes, if `s` is one.
pub open spec fn refresh_disposition_named(s: Seq<char>) -> Option<RefreshDisposition> {
    if s == "CREATED"@ {
        Some(RefreshDisposition::Created)
    }
    else if s == "PROMOTED"@ {
        Some(RefreshDisposition::Promoted)
    }
    else if s == "COALESCED_PENDING"@ {
        Some(RefreshDisposition::CoalescedPending)
    }
    else if s == "JOINED_RUNNING"@ {
        Some(RefreshDisposition::JoinedRunning)
    }
    else {
        None
    }
}

/// The name of a value.
pub open spec fn refresh_disposition_name(v: RefreshDisposition) -> Seq<char> {
    match v {
        RefreshDisposition::Created => "CREATED"@,
        RefreshDisposition::Promoted => "PROMOTED"@,
        RefreshDisposition::CoalescedPending => "COALESCED_PENDING"@,
        RefreshDisposition::JoinedRunning => "JOINED_RUNNING"@,
        RefreshDisposition::Other(s) => s@,
    }
}

impl RefreshDisposition {
    /// Reads a value from its name; a name that is not known is kept as `Other`.
    pub fn parse(value: &str) -> (r: RefreshDisposition)
        ensures
            match refresh_disposition_named(value@) {
                Some(v) => r == v,
                None => r matches RefreshDisposition::Other(s) && s@ == value@,
            },
    {
        if str_eq(value, "CREATED") {
            RefreshDisposition::Created
        }
        else if str_eq(value, "PROMOTED") {
            RefreshDisposition::Promoted
        }
        else if str_eq(value, "COALESCED_PENDING") {
            RefreshDisposition::CoalescedPending
        }
        else if str_eq(value, "JOINED_RUNNING") {
            RefreshDisposition::JoinedRunning
        }
        else {
            RefreshDisposition::Other(value.to_owned())
        }
    }

    /// The name of this value.
    pub fn as_str(&self) -> (s: &str)
        ensures
            s@ == refresh_disposition_name(*self),
    {
        match self {
            RefreshDisposition::Created => "CREATED",
            RefreshDisposition::Promoted => "PROMOTED",
            RefreshDisposition::CoalescedPending => "COALESCED_PENDING",
            RefreshDisposition::JoinedRunning => "JOINED_RUNNING",
            RefreshDisposition::Other(s) => s.as_str(),
        }
    }
}

/// Reading a name and writing the value gives the name back.
pub proof fn lemma_refresh_disposition_name_of_parsed(s: Seq<char>)
    ensures
        refresh_disposition_named(s) matches Some(v) ==> refresh_disposition_name(v) == s,
{
}

/// Writing a known value and reading the name gives the value back.
pub proof fn lemma_refresh_disposition_parse_of_name(v: RefreshDisposition)
    requires
        !(v is Other),
    ensures
        refresh_disposition_named(refresh_disposition_name(v)) == Some(v),
{
    reveal_strlit("CREATED");
    reveal_strlit("PROMOTED");
    reveal_strlit("COALESCED_PENDING");
    reveal_strlit("JOINED_RUNNING");
    assert("CREATED"@.len() != "PROMOTED"@.len());
    assert("CREATED"@.len() != "COALESCED_PENDING"@.len());
    assert("PROMOTED"@.len() != "COALESCED_PENDING"@.len());
    assert("CREATED"@.len() != "JOINED_RUNNING"@.len());
    assert("PROMOTED"@.len() != "JOINED_RUNNING"@.len());
    assert("COALESCED_PENDING"@.len() != "JOINED_RUNNING"@.len());
}

/// The status of a response.
#[derive(Debug, Clone, PartialEq, Eq)]
pub struct ResponseStatus {
    pub code: ResponseCode,
}

/// Status code of a response.
#[allow(non_camel_case_types)]
#[derive(Debug, Clone, PartialEq, Eq)]
pub enum ResponseCode {
    OK,
    Unauthorized,
    InvalidFeedUrl,
    FeedUnavailable,
    InternalError,
    /// A value this client does not know, kept as sent.
    Other(String),
}

/// The value a known name denotes, if `s` is one.
pub open spec fn response_code_named(s: Seq<char>) -> Option<ResponseCode> {
    if s == "OK"@ {
        Some(ResponseCode::OK)
    }
    else if s == "UNAUTHORIZED"@ {
        Some(ResponseCode::Unauthorized)
    }
    else if s == "INVALID_FEED_URL"@ {
        Some(ResponseCode::InvalidFeedUrl)
    }
    else if s == "FEED_UNAVAILABLE"@ {
        Some(ResponseCode::FeedUnavailable)
    }
    else if s == "INTERNAL_ERROR"@ {
        Some(ResponseCode::InternalError)
    }
    else {
        None
    }
}

/// The name of a value.
pub open spec fn response_code_name(v: ResponseCode) -> Seq<char> {
    match v {
        ResponseCode::OK => "OK"@,
        ResponseCode::Unauthorized => "UNAUTHORIZED"@,
        ResponseCode::InvalidFeedUrl => "INVALID_FEED_URL"@,
        ResponseCode::FeedUnavailable => "FEED_UNAVAILABLE"@,
        ResponseCode::InternalError => "INTERNAL_ERROR"@,
        ResponseCode::Other(s) => s@,
    }
}

impl ResponseCode {
    /// Reads a value from its name; a name that is not known is kept as `Other`.
    pub fn parse(value: &str) -> (r: ResponseCode)
        ensures
            match response_code_named(value@) {
                Some(v) => r == v,
                None => r matches ResponseCode::Other(s) && s@ == value@,
            },
    {
        if str_eq(value, "OK") {
            ResponseCode::OK
        }
        else if str_eq(value, "UNAUTHORIZED") {
            ResponseCode::Unauthorized
        }
        else if str_eq(value, "INVALID_FEED_URL") {
            ResponseCode::InvalidFeedUrl
        }
        else if str_eq(value, "FEED_UNAVAILABLE") {
            ResponseCode::FeedUnavailable
        }
        else if str_eq(value, "INTERNAL_ERROR") {
            ResponseCode::InternalError
        }
        else {
            ResponseCode::Other(value.to_owned())
        }
    }

    /// The name of this value.
    pub fn as_str(&self) -> (s: &str)
        ensures
            s@ == response_code_name(*self),
    {
        match self {
            ResponseCode::OK => "OK",
            ResponseCode::Unauthorized => "UNAUTHORIZED",
            ResponseCode::InvalidFeedUrl => "INVALID_FEED_URL",
            ResponseCode::FeedUnavailable => "FEED_UNAVAILABLE",
            ResponseCode::InternalError => "INTERNAL_ERROR",
            ResponseCode::Other(s) => s.as_str(),
        }
    }
}

/// Reading a name and writing the value gives the name back.
pub proof fn lemma_response_code_name_of_parsed(s: Seq<char>)
    ensures
        response_code_named(s) matches Some(v) ==> response_code_name(v) == s,
{
}

/// Writing a known value and reading the name gives the value back.
pub proof fn lemma_response_code_parse_of_name(v: ResponseCode)
    requires
        !(v is Other),
    ensures
        response_code_named(response_code_name(v)) == Some(v),
{
    reveal_strlit("OK");
    reveal_strlit("UNAUTHORIZED");
    reveal_strlit("INVALID_FEED_URL");
    reveal_strlit("FEED_UNAVAILABLE");
    reveal_strlit("INTERNAL_ERROR");
    assert("OK"@.len() != "UNAUTHORIZED"@.len());
    assert("OK"@.len() != "INVALID_FEED_URL"@.len());
    assert("UNAUTHORIZED"@.len() != "INVALID_FEED_URL"@.len());
    assert("OK"@.len() != "FEED_UNAVAILABLE"@.len());
    assert("UNAUTHORIZED"@.len() != "FEED_UNAVAILABLE"@.len());
    assert("INVALID_FEED_URL"@[0] != "FEED_UNAVAILABLE"@[0]);
    assert("OK"@.len() != "INTERNAL_ERROR"@.len());
    assert("UNAUTHORIZED"@.len() != "INTERNAL_ERROR"@.len());
    assert("INVALID_FEED_URL"@.len() != "INTERNAL_ERROR"@.len());
    assert("FEED_UNAVAILABLE"@.len() != "INTERNAL_ERROR"@.len());
}

/// A page of subscribed feeds to export.
#[derive(Debug, Clone, PartialEq, Eq)]
pub struct ExportSubscriptionPayload {
    pub feeds: Vec<ExportedFeed>,
    pub page_info: PageInfo,
}

/// A requirement name the API does not know.
#[derive(Debug, Clone, PartialEq, Eq)]
pub struct UnknownRequirement {
    pub value: String,
}

/// The requirement the API names `MUST`, `SHOULD` or `MAY`.
pub open spec fn requirement_named(s: Seq<char>) -> Option<Requirement> {
    if s == "MUST"@ {
        Some(Requirement::Must)
    } else if s == "SHOULD"@ {
        Some(Requirement::Should)
    } else if s == "MAY"@ {
        Some(Requirement::May)
    } else {
        None
    }
}

/// The name the API gives a requirement.
pub open spec fn requirement_text(r: Requirement) -> Seq<char> {
    match r {
        Requirement::Must => "MUST"@,
        Requirement::Should => "SHOULD"@,
        Requirement::May => "MAY"@,
    }
}

/// Reads an optional requirement as the API writes it; any other name is refused.
pub fn read_requirement(value: Option<&str>) -> (r: Result<Option<Requirement>, UnknownRequirement>)
    ensures
        match value {
            None => r == Ok::<Option<Requirement>, UnknownRequirement>(None),
            Some(v) => match requirement_named(v@) {
                Some(req) => r == Ok::<Option<Requirement>, UnknownRequirement>(Some(req)),
                None => r matches Err(e) && e.value@ == v@,
            },
        },
{
    match value {
        None => Ok(None),
        Some(v) => if str_eq(v, "MUST") {
            Ok(Some(Requirement::Must))
        } else if str_eq(v, "SHOULD") {
            Ok(Some(Requirement::Should))
        } else if str_eq(v, "MAY") {
            Ok(Some(Requirement::May))
        } else {
            Err(UnknownRequirement { value: v.to_owned() })
        },
    }
}

/// Writes an optional requirement as the API names it.
pub fn write_requirement(value: Option<Requirement>) -> (r: Option<&'static str>)
    ensures
        match value {
            None => r is None,
            Some(req) => r matches Some(s) && s@ == requirement_text(req),
        },
{
    match value {
        None => None,
        Some(Requirement::Must) => Some("MUST"),
        Some(Requirement::Should) => Some("SHOULD"),
        Some(Requirement::May) => Some("MAY"),
    }
}

/// Writing a requirement and reading it back gives the requirement.
pub proof fn lemma_requirement_round_trip(r: Requirement)
    ensures
        requirement_named(requirement_text(r)) == Some(r),
{
    reveal_strlit("MUST");
    reveal_strlit("SHOULD");
    reveal_strlit("MAY");
    assert("MUST"@.len() != "SHOULD"@.len());
    assert("MUST"@.len() != "MAY"@.len());
    assert("SHOULD"@.len() != "MAY"@.len());
}

} // verus!
