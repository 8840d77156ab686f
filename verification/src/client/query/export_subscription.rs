//! Types of the `ExportSubscription` operation.
use vstd::prelude::*;


verus! {

/// The name of the operation.
pub const OPERATION_NAME: &'static str = "ExportSubscription";

/// The text of the GraphQL document the operation is taken from.
pub const QUERY: &'static str = "query Subscription($after: String, $first: Int) {\n  output: subscription {\n    feeds(after: $after, first: $first) {\n      nodes {\n        ...Feed\n      }\n      pageInfo {\n        ...PageInfo\n      }\n      errors {\n        url\n        errorMessage\n      }\n    }\n  }\n}\n\nfragment Feed on Feed {\n  id\n  type\n  title\n  url\n  updated\n  websiteUrl\n  description\n  generator\n  requirement\n  category\n  entries(first: 10) {\n    nodes {\n      ...EntryMeta\n    }\n  }\n  links {\n    nodes {\n      ...Link\n    }\n  }\n  authors {\n    nodes\n  }\n}\n\nfragment EntryMeta on Entry {\n    title\n    published\n    updated\n    summary\n}\n\nfragment Link on Link {\n  href\n  rel\n  mediaType\n  title  \n}\n\nquery Entries($after: String, $first: Int!) {\n  output: subscription {\n    entries(after: $after, first: $first) {\n      nodes {\n        ...Entry\n      }\n      pageInfo {\n        ...PageInfo\n      }\n    }\n  }\n}\n\nfragment Entry on Entry {\n  title\n  published\n  updated\n  summary\n  websiteUrl\n  feed {\n    ...FeedMeta\n  }\n}\n\nfragment FeedMeta on FeedMeta {\n  title\n  url\n  requirement\n  category\n}\n\nfragment PageInfo on PageInfo {\n  hasNextPage\n  endCursor\n}\n\nquery ExportSubscription($after: String, $first: Int!) {\n  output: subscription {\n    feeds(after: $after, first: $first) {\n      pageInfo {\n        hasNextPage\n        endCursor\n      }\n      nodes {\n        title\n        url\n      }\n    }\n  }\n}\n";

/// Variables of the operation.
#[derive(Debug, Clone, PartialEq, Eq)]
pub struct Variables {
    pub after: Option<String>,
    pub first: i64,
}

/// The response of the operation.
#[derive(Debug, Clone, PartialEq, Eq)]
pub struct ResponseData {
    pub output: ExportSubscriptionOutput,
}

/// The subscription part of the response.
#[derive(Debug, Clone, PartialEq, Eq)]
pub struct ExportSubscriptionOutput {
    pub feeds: ExportSubscriptionOutputFeeds,
}

/// A page of subscribed feeds to export.
#[derive(Debug, Clone, PartialEq, Eq)]
pub struct ExportSubscriptionOutputFeeds {
    pub page_info: ExportSubscriptionOutputFeedsPageInfo,
    pub nodes: Vec<ExportSubscriptionOutputFeedsNodes>,
}

/// Where a page of feeds to export ends.
#[derive(Debug, Clone, PartialEq, Eq)]
pub struct ExportSubscriptionOutputFeedsPageInfo {
    pub has_next_page: bool,
    pub end_cursor: Option<String>,
}

/// A subscribed feed to export.
#[derive(Debug, Clone, PartialEq, Eq)]
pub struct ExportSubscriptionOutputFeedsNodes {
    pub title: Option<String>,
    pub url: String,
}

} // verus!
