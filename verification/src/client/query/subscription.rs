//! Types of the `Subscription` operation.
use vstd::prelude::*;

pub use crate::client::graphql::{FeedType, Requirement};
use crate::types::Category;

verus! {

/// The name of the operation.
pub const OPERATION_NAME: &'static str = "Subscription";

/// The text of the GraphQL document the operation is taken from.
pub const QUERY: &'static str = "query Subscription($after: String, $first: Int) {\n  output: subscription {\n    feeds(after: $after, first: $first) {\n      nodes {\n        ...Feed\n      }\n      pageInfo {\n        ...PageInfo\n      }\n      errors {\n        url\n        errorMessage\n      }\n    }\n  }\n}\n\nfragment Feed on Feed {\n  id\n  type\n  title\n  url\n  updated\n  websiteUrl\n  description\n  generator\n  requirement\n  category\n  entries(first: 10) {\n    nodes {\n      ...EntryMeta\n    }\n  }\n  links {\n    nodes {\n      ...Link\n    }\n  }\n  authors {\n    nodes\n  }\n}\n\nfragment EntryMeta on Entry {\n    title\n    published\n    updated\n    summary\n}\n\nfragment Link on Link {\n  href\n  rel\n  mediaType\n  title  \n}\n\nquery Entries($after: String, $first: Int!) {\n  output: subscription {\n    entries(after: $after, first: $first) {\n      nodes {\n        ...Entry\n      }\n      pageInfo {\n        ...PageInfo\n      }\n    }\n  }\n}\n\nfragment Entry on Entry {\n  title\n  published\n  updated\n  summary\n  websiteUrl\n  feed {\n    ...FeedMeta\n  }\n}\n\nfragment FeedMeta on FeedMeta {\n  title\n  url\n  requirement\n  category\n}\n\nfragment PageInfo on PageInfo {\n  hasNextPage\n  endCursor\n}\n\nquery ExportSubscription($after: String, $first: Int!) {\n  output: subscription {\n    feeds(after: $after, first: $first) {\n      pageInfo {\n        hasNextPage\n        endCursor\n      }\n      nodes {\n        title\n        url\n      }\n    }\n  }\n}\n";

/// Variables of the operation.
#[derive(Debug, Clone, PartialEq, Eq)]
pub struct Variables {
    pub after: Option<String>,
    pub first: Option<i64>,
}

/// A subscribed feed as the API returns it.
#[derive(Debug, Clone, PartialEq, Eq)]
pub struct Feed {
    pub id: String,
    pub type_: FeedType,
    pub title: Option<String>,
    pub url: String,
    pub updated: Option<String>,
    pub website_url: Option<String>,
    pub description: Option<String>,
    pub generator: Option<String>,
    pub requirement: Option<Requirement>,
    pub category: Option<Category>,
    pub entries: FeedEntries,
    pub links: FeedLinks,
    pub authors: FeedAuthors,
}

/// The latest entries of a feed.
#[derive(Debug, Clone, PartialEq, Eq)]
pub struct FeedEntries {
    pub nodes: Vec<EntryMeta>,
}

/// The links of a feed.
#[derive(Debug, Clone, PartialEq, Eq)]
pub struct FeedLinks {
    pub nodes: Vec<Link>,
}

/// The authors of a feed.
#[derive(Debug, Clone, PartialEq, Eq)]
pub struct FeedAuthors {
    pub nodes: Vec<String>,
}

/// Metadata of one entry of a feed.
#[derive(Debug, Clone, PartialEq, Eq)]
pub struct EntryMeta {
    pub title: Option<String>,
    pub published: Option<String>,
    pub updated: Option<String>,
    pub summary: Option<String>,
}

/// A link of a feed.
#[derive(Debug, Clone, PartialEq, Eq)]
pub struct Link {
    pub href: String,
    pub rel: Option<String>,
    pub media_type: Option<String>,
    pub title: Option<String>,
}

/// Where a page of results ends.
#[derive(Debug, Clone, PartialEq, Eq)]
pub struct PageInfo {
    pub has_next_page: bool,
    pub end_cursor: Option<String>,
}

/// The response of the operation.
#[derive(Debug, Clone, PartialEq, Eq)]
pub struct ResponseData {
    pub output: SubscriptionOutput,
}

/// The subscription part of the response.
#[derive(Debug, Clone, PartialEq, Eq)]
pub struct SubscriptionOutput {
    pub feeds: SubscriptionOutputFeeds,
}

/// A page of subscribed feeds, with the feeds that could not be fetched.
#[derive(Debug, Clone, PartialEq, Eq)]
pub struct SubscriptionOutputFeeds {
    pub nodes: Vec<Feed>,
    pub page_info: PageInfo,
    pub errors: Vec<SubscriptionOutputFeedsErrors>,
}

/// A subscribed feed that could not be fetched.
#[derive(Debug, Clone, PartialEq, Eq)]
pub struct SubscriptionOutputFeedsErrors {
    pub url: String,
    pub error_message: String,
}

} // verus!
