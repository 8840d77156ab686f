//! Where the GraphQL subscription socket of the API is: `/graphql/ws` at the API's
//! endpoint, over `ws`.
use vstd::prelude::*;

use crate::client::decision::{ws_scheme, WsSchemeError};

verus! {

/// The URL that `input` denotes with the URL `base` as its base, as
/// `url::Url::join` resolves it, written out; `None` where `base` is not a URL or
/// `input` cannot be resolved against it.
pub uninterp spec fn url_joined(base: Seq<char>, input: Seq<char>) -> Option<Seq<char>>;

/// The scheme of the URL `url`, as `url::Url::scheme` gives it; `None` where `url` is
/// not a URL.
pub uninterp spec fn url_scheme_of(url: Seq<char>) -> Option<Seq<char>>;

/// The URL `url` with its scheme set to `scheme`, as `url::Url::set_scheme` leaves it,
/// written out; `None` where `url` is not a URL or the scheme cannot be set.
pub uninterp spec fn url_scheme_set(url: Seq<char>, scheme: Seq<char>) -> Option<Seq<char>>;

/// Resolves `input` against the URL `base`.
///
/// Calls `url::Url::join` on `base` read as a URL; the result is named `url_joined`.
#[verifier::external_body]
fn join_url(base: &str, input: &str) -> (r: Option<String>)
    ensures
        match url_joined(base@, input@) {
            Some(u) => r matches Some(s) && s@ == u,
            None => r is None,
        },
{
    url::Url::parse(base).and_then(|u| u.join(input)).ok().map(String::from)
}

/// The scheme of a URL.
///
/// Calls `url::Url::scheme` on `url` read as a URL; the result is named `url_scheme_of`.
#[verifier::external_body]
fn scheme_of(url: &str) -> (r: Option<String>)
    ensures
        match url_scheme_of(url@) {
            Some(s) => r matches Some(t) && t@ == s,
            None => r is None,
        },
{
    url::Url::parse(url).ok().map(|u| u.scheme().to_owned())
}

/// A URL with another scheme.
///
/// Calls `url::Url::set_scheme` on `url` read as a URL; the result is named
/// `url_scheme_set`.
#[verifier::external_body]
fn with_scheme(url: &str, scheme: &str) -> (r: Option<String>)
    ensures
        match url_scheme_set(url@, scheme@) {
            Some(u) => r matches Some(s) && s@ == u,
            None => r is None,
        },
{
    let mut u = url::Url::parse(url).ok()?;
    u.set_scheme(scheme).ok()?;
    Some(String::from(u))
}

/// The path of the subscription socket.
pub const GRAPHQL_WS_PATH: &'static str = "/graphql/ws";

/// Why the socket URL of an endpoint cannot be formed.
#[derive(Debug, Clone, PartialEq, Eq)]
pub enum WsEndpointError {
    /// The socket path cannot be resolved against the endpoint.
    Join,
    /// The resolved URL is not a URL.
    InvalidUrl,
    /// The endpoint's scheme has no socket.
    Scheme(WsSchemeError),
    /// The socket scheme cannot be set on the resolved URL.
    SetScheme,
}

/// Whether `r` is the socket URL, or the error, for the URL `joined` whose scheme is
/// `scheme`: an `http` URL gets the `ws` scheme; `https` and other schemes are refused
/// as `ws_scheme` refuses them.
pub open spec fn ws_endpoint_for(joined: Seq<char>, scheme: Option<Seq<char>>, r: Result<String, WsEndpointError>) -> bool {
    match scheme {
        None => r == Err::<String, WsEndpointError>(WsEndpointError::InvalidUrl),
        Some(s) => if s == "http"@ {
            match url_scheme_set(joined, "ws"@) {
                Some(u) => r matches Ok(v) && v@ == u,
                None => r == Err::<String, WsEndpointError>(WsEndpointError::SetScheme),
            }
        } else if s == "https"@ {
            r == Err::<String, WsEndpointError>(WsEndpointError::Scheme(WsSchemeError::TlsNotImplemented))
        } else {
            r matches Err(WsEndpointError::Scheme(WsSchemeError::Unsupported(m))) && m@ == s
        },
    }
}

/// The socket URL for the URL `joined` with the given scheme, as `ws_endpoint_for` says.
pub fn ws_endpoint_for_scheme(joined: String, scheme: Option<String>) -> (r: Result<String, WsEndpointError>)
    ensures
        ws_endpoint_for(
            joined@,
            match scheme {
                Some(s) => Some(s@),
                None => None,
            },
            r,
        ),
{
    let scheme = match scheme {
        Some(s) => s,
        None => return Err(WsEndpointError::InvalidUrl),
    };
    match ws_scheme(scheme.as_str()) {
        Err(e) => Err(WsEndpointError::Scheme(e)),
        Ok(ws) => match with_scheme(joined.as_str(), ws) {
            Some(u) => Ok(u),
            None => Err(WsEndpointError::SetScheme),
        },
    }
}

/// The socket URL for what resolving the socket path against the endpoint gave.
pub fn ws_endpoint_from_joined(joined: Option<String>) -> (r: Result<String, WsEndpointError>)
    ensures
        match joined {
            None => r == Err::<String, WsEndpointError>(WsEndpointError::Join),
            Some(j) => ws_endpoint_for(j@, url_scheme_of(j@), r),
        },
{
    match joined {
        None => Err(WsEndpointError::Join),
        Some(j) => {
            let scheme = scheme_of(j.as_str());
            ws_endpoint_for_scheme(j, scheme)
        },
    }
}

/// The URL of the GraphQL subscription socket of the API at `endpoint`: `/graphql/ws`
/// resolved against the endpoint, with the `ws` scheme in place of `http`.
pub fn graphql_ws_endpoint(endpoint: &str) -> (r: Result<String, WsEndpointError>)
    ensures
        match url_joined(endpoint@, GRAPHQL_WS_PATH@) {
            None => r == Err::<String, WsEndpointError>(WsEndpointError::Join),
            Some(j) => ws_endpoint_for(j, url_scheme_of(j), r),
        },
{
    let joined = join_url(endpoint, GRAPHQL_WS_PATH);
    ws_endpoint_from_joined(joined)
}

} // verus!
