//! Types of the `Entries` operation.
use vstd::prelude::*;

pub use crate::client::graphql::Requirement;
use crate::types::Category;

verus! {

/// The name of the operation.
pub const OPERATION_NAME: &'static str = "Entries";

/// The text of the GraphQL document the operation is taken from.
pub const QUERY: &'static str = "query Subscription($after: String, $first: Int) {\n  output: subscription {\n    feeds(after: $after, first: $first) {\n      nodes {\n        ...Feed\n      }\n      pageInfo {\n        ...PageInfo\n      }\n      errors {\n        url\n        errorMessage\n      }\n    }\n  }\n}\n\nfragment Feed on Feed {\n  id\n  type\n  title\n  url\n  updated\n  websiteUrl\n  description\n  generator\n  requirement\n  category\n  entries(first: 10) {\n    nodes {\n      ...EntryMeta\n    }\n  }\n  links {\n    nodes {\n      ...Link\n    }\n  }\n  authors {\n    nodes\n  }\n}\n\nfragment EntryMeta on Entry {\n    title\n    published\n    updated\n    summary\n}\n\nfragment Link on Link {\n  href\n  rel\n  mediaType\n  title  \n}\n\nquery Entries($after: String, $first: Int!) {\n  output: subscription {\n    entries(after: $after, first: $first) {\n      nodes {\n        ...Entry\n      }\n      pageInfo {\n        ...PageInfo\n      }\n    }\n  }\n}\n\nfragment Entry on Entry {\n  title\n  published\n  updated\n  summary\n  websiteUrl\n  feed {\n    ...FeedMeta\n  }\n}\n\nfragment FeedMeta on FeedMeta {\n  title\n  url\n  requirement\n  category\n}\n\nfragment PageInfo on PageInfo {\n  hasNextPage\n  endCursor\n}\n\nquery ExportSubscription($after: String, $first: Int!) {\n  output: subscription {\n    feeds(after: $after, first: $first) {\n      pageInfo {\n        hasNextPage\n        endCursor\n      }\n      nodes {\n        title\n        url\n      }\n    }\n  }\n}\n";

/// Variables of the operation.
#[derive(Debug, Clone, PartialEq, Eq)]
pub struct Variables {
    pub after: Option<String>,
    pub first: i64,
}

/// An entry of the timeline.
#[derive(Debug, Clone, PartialEq, Eq)]
pub struct Entry {
    pub title: Option<String>,
    pub published: Option<String>,
    pub updated: Option<String>,
    pub summary: Option<String>,
    pub website_url: Option<String>,
    pub feed: FeedMeta,
}

/// The feed an entry belongs to.
#[derive(Debug, Clone, PartialEq, Eq)]
pub struct FeedMeta {
    pub title: Option<String>,
    pub url: String,
    pub requirement: Option<Requirement>,
    pub category: Option<Category>,
}

/// Where a page of results ends.
#[derive(Debug, Clone, PartialEq, Eq)]
pub struct PageInfo {
    pub has_next_page: bool,
    pub end_cursor: Option<String>,
}

/// The response of the operation.
#[derive(Debug, Clone, PartialEq, Eq)]
pub struct ResponseData {
    pub output: EntriesOutput,
}

/// The subscription part of the response.
#[derive(Debug, Clone, PartialEq, Eq)]
pub struct EntriesOutput {
    pub entries: EntriesOutputEntries,
}

/// A page of entries.
#[derive(Debug, Clone, PartialEq, Eq)]
pub struct EntriesOutputEntries {
    pub nodes: Vec<Entry>,
    pub page_info: PageInfo,
}

} // verus!
