//! Types of the `SubscribeFeed` operation.
use vstd::prelude::*;

pub use crate::client::graphql::{FeedType, Requirement, ResponseCode};
use crate::types::Category;

verus! {

/// The name of the operation.
pub const OPERATION_NAME: &'static str = "SubscribeFeed";

/// The text of the GraphQL document the operation is taken from.
pub const QUERY: &'static str = "mutation SubscribeFeed($subscribeInput: SubscribeFeedInput!) {\n  subscribeFeed(input: $subscribeInput) {\n    __typename\n    ... on SubscribeFeedSuccess {\n      feed {\n        ...Feed\n      }\n      status {\n        code\n      }\n    }\n    ... on SubscribeFeedError {\n      status {\n        code\n      }\n      message\n    }\n  }\n}\n\nmutation UnsubscribeFeed($unsubscribeInput: UnsubscribeFeedInput!) {\n  unsubscribeFeed(input: $unsubscribeInput) {\n    __typename\n    ... on UnsubscribeFeedSuccess {\n      status {\n        code\n      }\n    }\n    ... on UnsubscribeFeedError {\n      status {\n        code\n      }\n    }\n  }\n}\n\nfragment Feed on Feed {\n  id\n  type\n  title\n  url\n  updated\n  websiteUrl\n  description\n  generator\n  requirement\n  category\n  entries(first: 20) {\n    nodes {\n      ...EntryMeta\n    }\n  }\n  links {\n    nodes {\n      ...Link\n    }\n  }\n  authors {\n    nodes\n  }\n}\n\nfragment EntryMeta on Entry {\n    title,\n    published,\n    updated,\n    summary,\n}\n\nfragment Link on Link {\n  href\n  rel\n  mediaType\n  title  \n}\n";

/// What to subscribe to.
#[derive(Debug, Clone, PartialEq, Eq)]
pub struct SubscribeFeedInput {
    pub url: String,
    pub requirement: Option<Requirement>,
    pub category: Option<Category>,
}

/// Variables of the operation.
#[derive(Debug, Clone, PartialEq, Eq)]
pub struct Variables {
    pub subscribe_input: SubscribeFeedInput,
}

/// A subscribed feed as the API returns it.
#[derive(Debug, Clone, PartialEq, Eq)]
pub struct Feed {
    pub id: String,
    pub type_: FeedType,
    pub title: Option<String>,
    pub url: String,
    pub updated: Option<String>,
    pub website_url: Option<String>,
    pub description: Option<String>,
    pub generator: Option<String>,
    pub requirement: Option<Requirement>,
    pub category: Option<Category>,
    pub entries: FeedEntries,
    pub links: FeedLinks,
    pub authors: FeedAuthors,
}

/// The latest entries of a feed.
#[derive(Debug, Clone, PartialEq, Eq)]
pub struct FeedEntries {
    pub nodes: Vec<EntryMeta>,
}

/// The links of a feed.
#[derive(Debug, Clone, PartialEq, Eq)]
pub struct FeedLinks {
    pub nodes: Vec<Link>,
}

/// The authors of a feed.
#[derive(Debug, Clone, PartialEq, Eq)]
pub struct FeedAuthors {
    pub nodes: Vec<String>,
}

/// Metadata of one entry of a feed.
#[derive(Debug, Clone, PartialEq, Eq)]
pub struct EntryMeta {
    pub title: Option<String>,
    pub published: Option<String>,
    pub updated: Option<String>,
    pub summary: Option<String>,
}

/// A link of a feed.
#[derive(Debug, Clone, PartialEq, Eq)]
pub struct Link {
    pub href: String,
    pub rel: Option<String>,
    pub media_type: Option<String>,
    pub title: Option<String>,
}

/// The response of the operation.
#[derive(Debug, Clone, PartialEq, Eq)]
pub struct ResponseData {
    pub subscribe_feed: SubscribeFeedSubscribeFeed,
}

/// The outcome of a subscription, by the GraphQL type name of the response.
#[derive(Debug, Clone, PartialEq, Eq)]
pub enum SubscribeFeedSubscribeFeed {
    SubscribeFeedSuccess(SubscribeFeedSubscribeFeedOnSubscribeFeedSuccess),
    SubscribeFeedError(SubscribeFeedSubscribeFeedOnSubscribeFeedError),
}

/// A subscription that succeeded: the feed, and the status.
#[derive(Debug, Clone, PartialEq, Eq)]
pub struct SubscribeFeedSubscribeFeedOnSubscribeFeedSuccess {
    pub feed: Feed,
    pub status: SubscribeFeedSubscribeFeedOnSubscribeFeedSuccessStatus,
}

/// The status of a subscription that succeeded.
#[derive(Debug, Clone, PartialEq, Eq)]
pub struct SubscribeFeedSubscribeFeedOnSubscribeFeedSuccessStatus {
    pub code: ResponseCode,
}

/// A subscription that failed: the status, and a message.
#[derive(Debug, Clone, PartialEq, Eq)]
pub struct SubscribeFeedSubscribeFeedOnSubscribeFeedError {
    pub status: SubscribeFeedSubscribeFeedOnSubscribeFeedErrorStatus,
    pub message: String,
}

/// The status of a subscription that failed.
#[derive(Debug, Clone, PartialEq, Eq)]
pub struct SubscribeFeedSubscribeFeedOnSubscribeFeedErrorStatus {
    pub code: ResponseCode,
}

} // verus!
