//! Types of the `UnsubscribeFeed` operation.
use vstd::prelude::*;

pub use crate::client::graphql::ResponseCode;

verus! {

/// The name of the operation.
pub const OPERATION_NAME: &'static str = "UnsubscribeFeed";

/// The text of the GraphQL document the operation is taken from.
pub const QUERY: &'static str = "mutation SubscribeFeed($subscribeInput: SubscribeFeedInput!) {\n  subscribeFeed(input: $subscribeInput) {\n    __typename\n    ... on SubscribeFeedSuccess {\n      feed {\n        ...Feed\n      }\n      status {\n        code\n      }\n    }\n    ... on SubscribeFeedError {\n      status {\n        code\n      }\n      message\n    }\n  }\n}\n\nmutation UnsubscribeFeed($unsubscribeInput: UnsubscribeFeedInput!) {\n  unsubscribeFeed(input: $unsubscribeInput) {\n    __typename\n    ... on UnsubscribeFeedSuccess {\n      status {\n        code\n      }\n    }\n    ... on UnsubscribeFeedError {\n      status {\n        code\n      }\n    }\n  }\n}\n\nfragment Feed on Feed {\n  id\n  type\n  title\n  url\n  updated\n  websiteUrl\n  description\n  generator\n  requirement\n  category\n  entries(first: 20) {\n    nodes {\n      ...EntryMeta\n    }\n  }\n  links {\n    nodes {\n      ...Link\n    }\n  }\n  authors {\n    nodes\n  }\n}\n\nfragment EntryMeta on Entry {\n    title,\n    published,\n    updated,\n    summary,\n}\n\nfragment Link on Link {\n  href\n  rel\n  mediaType\n  title  \n}\n";

/// What to unsubscribe from.
#[derive(Debug, Clone, PartialEq, Eq)]
pub struct UnsubscribeFeedInput {
    pub url: String,
}

/// Variables of the operation.
#[derive(Debug, Clone, PartialEq, Eq)]
pub struct Variables {
    pub unsubscribe_input: UnsubscribeFeedInput,
}

/// The response of the operation.
#[derive(Debug, Clone, PartialEq, Eq)]
pub struct ResponseData {
    pub unsubscribe_feed: UnsubscribeFeedUnsubscribeFeed,
}

/// The outcome of an unsubscription, by the GraphQL type name of the response.
#[derive(Debug, Clone, PartialEq, Eq)]
pub enum UnsubscribeFeedUnsubscribeFeed {
    UnsubscribeFeedSuccess(UnsubscribeFeedUnsubscribeFeedOnUnsubscribeFeedSuccess),
    UnsubscribeFeedError(UnsubscribeFeedUnsubscribeFeedOnUnsubscribeFeedError),
}

/// An unsubscription that succeeded.
#[derive(Debug, Clone, PartialEq, Eq)]
pub struct UnsubscribeFeedUnsubscribeFeedOnUnsubscribeFeedSuccess {
    pub status: UnsubscribeFeedUnsubscribeFeedOnUnsubscribeFeedSuccessStatus,
}

/// The status of an unsubscription that succeeded.
#[derive(Debug, Clone, PartialEq, Eq)]
pub struct UnsubscribeFeedUnsubscribeFeedOnUnsubscribeFeedSuccessStatus {
    pub code: ResponseCode,
}

/// An unsubscription that failed.
#[derive(Debug, Clone, PartialEq, Eq)]
pub struct UnsubscribeFeedUnsubscribeFeedOnUnsubscribeFeedError {
    pub status: UnsubscribeFeedUnsubscribeFeedOnUnsubscribeFeedErrorStatus,
}

/// The status of an unsubscription that failed.
#[derive(Debug, Clone, PartialEq, Eq)]
pub struct UnsubscribeFeedUnsubscribeFeedOnUnsubscribeFeedErrorStatus {
    pub code: ResponseCode,
}

} // verus!
