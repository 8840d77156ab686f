//! Queries of the feed API.
use vstd::prelude::*;

use crate::client::graphql::QueryBody;

pub mod subscription;
pub mod entries;
pub mod export_subscription;

verus! {

/// The `Subscription` operation.
#[derive(Debug, Clone, Copy, PartialEq, Eq)]
pub struct Subscription;

impl Subscription {
    /// The request that runs the operation with the given variables.
    pub fn build_query(variables: subscription::Variables) -> (q: QueryBody<subscription::Variables>)
        ensures
            q.variables == variables,
            q.query@ == subscription::QUERY@,
            q.operation_name@ == subscription::OPERATION_NAME@,
    {
        QueryBody { variables, query: subscription::QUERY, operation_name: subscription::OPERATION_NAME }
    }
}

/// The `Entries` operation.
#[derive(Debug, Clone, Copy, PartialEq, Eq)]
pub struct Entries;

impl Entries {
    /// The request that runs the operation with the given variables.
    pub fn build_query(variables: entries::Variables) -> (q: QueryBody<entries::Variables>)
        ensures
            q.variables == variables,
            q.query@ == entries::QUERY@,
            q.operation_name@ == entries::OPERATION_NAME@,
    {
        QueryBody { variables, query: entries::QUERY, operation_name: entries::OPERATION_NAME }
    }
}

/// The `ExportSubscription` operation.
#[derive(Debug, Clone, Copy, PartialEq, Eq)]
pub struct ExportSubscription;

impl ExportSubscription {
    /// The request that runs the operation with the given variables.
    pub fn build_query(variables: export_subscription::Variables) -> (q: QueryBody<export_subscription::Variables>)
        ensures
            q.variables == variables,
            q.query@ == export_subscription::QUERY@,
            q.operation_name@ == export_subscription::OPERATION_NAME@,
    {
        QueryBody { variables, query: export_subscription::QUERY, operation_name: export_subscription::OPERATION_NAME }
    }
}

} // verus!
