//! Requests to and responses from the feed API and GitHub.
pub mod graphql;
pub mod query;
pub mod mutation;
pub mod payload;
pub mod decision;
pub mod endpoint;
