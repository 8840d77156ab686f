//! Mutations of the feed API.
use vstd::prelude::*;

use crate::client::graphql::QueryBody;

pub mod subscribe_feed;
pub mod unsubscribe_feed;

verus! {

/// The `SubscribeFeed` operation.
#[derive(Debug, Clone, Copy, PartialEq, Eq)]
pub struct SubscribeFeed;

impl SubscribeFeed {
    /// The request that runs the operation with the given variables.
    pub fn build_query(variables: subscribe_feed::Variables) -> (q: QueryBody<subscribe_feed::Variables>)
        ensures
            q.variables == variables,
            q.query@ == subscribe_feed::QUERY@,
            q.operation_name@ == subscribe_feed::OPERATION_NAME@,
    {
        QueryBody { variables, query: subscribe_feed::QUERY, operation_name: subscribe_feed::OPERATION_NAME }
    }
}

/// The `UnsubscribeFeed` operation.
#[derive(Debug, Clone, Copy, PartialEq, Eq)]
pub struct UnsubscribeFeed;

impl UnsubscribeFeed {
    /// The request that runs the operation with the given variables.
    pub fn build_query(variables: unsubscribe_feed::Variables) -> (q: QueryBody<unsubscribe_feed::Variables>)
        ensures
            q.variables == variables,
            q.query@ == unsubscribe_feed::QUERY@,
            q.operation_name@ == unsubscribe_feed::OPERATION_NAME@,
    {
        QueryBody { variables, query: unsubscribe_feed::QUERY, operation_name: unsubscribe_feed::OPERATION_NAME }
    }
}

} // verus!
