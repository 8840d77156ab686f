//! What the API client makes of responses, status codes, endpoints and the messages
//! of the GraphQL subscription socket.
use vstd::prelude::*;

use crate::client::mutation::subscribe_feed::{Feed, ResponseCode, SubscribeFeedSubscribeFeed};
use crate::client::mutation::unsubscribe_feed::{
    UnsubscribeFeedUnsubscribeFeed, UnsubscribeFeedUnsubscribeFeedOnUnsubscribeFeedError,
};
use crate::strings::str_eq;

verus! {

/// Why a GraphQL response gives no data.
#[derive(Debug, Clone, PartialEq, Eq)]
pub enum ResponseFailure<E> {
    /// The response lists errors.
    Graphql(Vec<E>),
    /// The response holds neither data nor errors.
    Missing,
}

/// The data of a response to a request: any error listed fails the request.
pub fn settle_response<D, E>(data: Option<D>, errors: Option<Vec<E>>) -> (r: Result<D, ResponseFailure<E>>)
    ensures
        (errors matches Some(es) && es@.len() > 0) ==> (r matches Err(ResponseFailure::Graphql(es2)) && es2@ == errors->0@),
        !(errors matches Some(es) && es@.len() > 0) ==> match data {
            Some(d) => r == Ok::<D, ResponseFailure<E>>(d),
            None => r == Err::<D, ResponseFailure<E>>(ResponseFailure::Missing),
        },
{
    match errors {
        Some(es) => if es.len() > 0 {
            return Err(ResponseFailure::Graphql(es));
        },
        None => {},
    }
    match data {
        Some(d) => Ok(d),
        None => Err(ResponseFailure::Missing),
    }
}

/// The data of a response that may be partial: data is kept even when errors are
/// listed; errors fail it only when there is no data.
pub fn settle_partial_response<D, E>(data: Option<D>, errors: Option<Vec<E>>) -> (r: Result<D, ResponseFailure<E>>)
    ensures
        data matches Some(d) ==> r == Ok::<D, ResponseFailure<E>>(d),
        data is None && (errors matches Some(es) && es@.len() > 0) ==> (r matches Err(ResponseFailure::Graphql(es2))
            && es2@ == errors->0@),
        data is None && !(errors matches Some(es) && es@.len() > 0) ==> r == Err::<D, ResponseFailure<E>>(
            ResponseFailure::Missing,
        ),
{
    match data {
        Some(d) => Ok(d),
        None => match errors {
            Some(es) => if es.len() > 0 {
                Err(ResponseFailure::Graphql(es))
            } else {
                Err(ResponseFailure::Missing)
            },
            None => Err(ResponseFailure::Missing),
        },
    }
}

/// Whether an HTTP status tells that the request was not authorized.
pub fn is_unauthorized(status: Option<u16>) -> (r: bool)
    ensures
        r == (status == Some(401u16)),
{
    match status {
        Some(s) => s == 401,
        None => false,
    }
}

/// Whether the API at an endpoint of this scheme sends feed registry events: only a
/// plain HTTP endpoint does.
pub fn supports_feed_registry_events(scheme: &str) -> (r: bool)
    ensures
        r == (scheme@ == "http"@),
{
    str_eq(scheme, "http")
}

/// Why the socket of an endpoint cannot be opened.
#[derive(Debug, Clone, PartialEq, Eq)]
pub enum WsSchemeError {
    /// The endpoint uses TLS, which the socket does not support yet.
    TlsNotImplemented,
    /// The endpoint uses a scheme the socket does not know.
    Unsupported(String),
}

/// The socket scheme for an endpoint scheme: `ws` for `http`; `https` and any other
/// scheme are refused.
pub fn ws_scheme(scheme: &str) -> (r: Result<&'static str, WsSchemeError>)
    ensures
        scheme@ == "http"@ ==> (r matches Ok(s) && s@ == "ws"@),
        scheme@ != "http"@ && scheme@ == "https"@ ==> r == Err::<&'static str, WsSchemeError>(
            WsSchemeError::TlsNotImplemented,
        ),
        scheme@ != "http"@ && scheme@ != "https"@ ==> (r matches Err(WsSchemeError::Unsupported(s)) && s@
            == scheme@),
{
    if str_eq(scheme, "http") {
        Ok("ws")
    } else if str_eq(scheme, "https") {
        Err(WsSchemeError::TlsNotImplemented)
    } else {
        Err(WsSchemeError::Unsupported(scheme.to_owned()))
    }
}

/// What a message waited on for the connection acknowledgement calls for.
#[derive(Debug, Clone, Copy, PartialEq, Eq, Structural)]
pub enum AckStep {
    Acknowledged,
    Failed,
    Skip,
}

/// The step a message of the given `type` calls for while waiting for the
/// connection acknowledgement.
pub fn ack_step(message_type: Option<&str>) -> (r: AckStep)
    ensures
        r == match message_type {
            Some(t) => if t@ == "connection_ack"@ {
                AckStep::Acknowledged
            } else if t@ == "connection_error"@ || t@ == "error"@ {
                AckStep::Failed
            } else {
                AckStep::Skip
            },
            None => AckStep::Skip,
        },
{
    match message_type {
        Some(t) => if str_eq(t, "connection_ack") {
            AckStep::Acknowledged
        } else if str_eq(t, "connection_error") || str_eq(t, "error") {
            AckStep::Failed
        } else {
            AckStep::Skip
        },
        None => AckStep::Skip,
    }
}

/// What a message waited on for a feed registry event calls for.
#[derive(Debug, Clone, Copy, PartialEq, Eq, Structural)]
pub enum EventStep {
    Next,
    Error,
    Complete,
    Skip,
}

/// The step a message of the given `type` calls for while waiting for an event.
pub fn event_step(message_type: Option<&str>) -> (r: EventStep)
    ensures
        r == match message_type {
            Some(t) => if t@ == "next"@ {
                EventStep::Next
            } else if t@ == "error"@ {
                EventStep::Error
            } else if t@ == "complete"@ {
                EventStep::Complete
            } else {
                EventStep::Skip
            },
            None => EventStep::Skip,
        },
{
    match message_type {
        Some(t) => if str_eq(t, "next") {
            EventStep::Next
        } else if str_eq(t, "error") {
            EventStep::Error
        } else if str_eq(t, "complete") {
            EventStep::Complete
        } else {
            EventStep::Skip
        },
        None => EventStep::Skip,
    }
}

/// The kind of a frame read from the socket.
#[derive(Debug, Clone, Copy, PartialEq, Eq, Structural)]
pub enum FrameKind {
    Text,
    Binary,
    Close,
    Ping,
    Pong,
    Raw,
}

/// What a frame read from the socket calls for.
#[derive(Debug, Clone, Copy, PartialEq, Eq, Structural)]
pub enum FrameStep {
    /// The frame holds a JSON message to read.
    Read,
    /// The socket was closed.
    Closed,
    /// The frame holds no message.
    Skip,
}

/// The step a frame calls for: text and binary frames hold messages, a close frame
/// ends the socket, any other frame is skipped.
pub fn frame_step(kind: FrameKind) -> (r: FrameStep)
    ensures
        r == match kind {
            FrameKind::Text | FrameKind::Binary => FrameStep::Read,
            FrameKind::Close => FrameStep::Closed,
            _ => FrameStep::Skip,
        },
{
    match kind {
        FrameKind::Text | FrameKind::Binary => FrameStep::Read,
        FrameKind::Close => FrameStep::Closed,
        _ => FrameStep::Skip,
    }
}

/// A credential that authorizes requests to the API.
#[derive(Debug, Clone, PartialEq, Eq)]
pub enum Credential {
    Github { access_token: String },
    Google { id_token: String },
}

/// The authorization header value of a credential: the provider, a space, the token.
pub fn authorization_value(credential: &Credential) -> (v: String)
    ensures
        v@ == match credential {
            Credential::Github { access_token } => "github "@ + access_token@,
            Credential::Google { id_token } => "google "@ + id_token@,
        },
{
    match credential {
        Credential::Github { access_token } => {
            let mut v = "github ".to_owned();
            v.append(access_token.as_str());
            v
        },
        Credential::Google { id_token } => {
            let mut v = "google ".to_owned();
            v.append(id_token.as_str());
            v
        },
    }
}

/// Why subscribing to a feed failed.
#[derive(Debug, Clone, PartialEq, Eq)]
pub enum SubscribeFeedError {
    /// The URL is not a feed's.
    InvalidFeedUrl { feed_url: String, message: String },
    /// The API answered with a code that does not explain the failure.
    UnexpectedCode(ResponseCode),
}

/// The subscribed feed, or why subscribing to `url` failed. An error response always
/// carries a code other than `OK`.
pub fn subscribe_outcome(url: String, response: SubscribeFeedSubscribeFeed) -> (r: Result<Feed, SubscribeFeedError>)
    requires
        !(response matches SubscribeFeedSubscribeFeed::SubscribeFeedError(e) && e.status.code is OK),
    ensures
        match response {
            SubscribeFeedSubscribeFeed::SubscribeFeedSuccess(s) => r == Ok::<Feed, SubscribeFeedError>(s.feed),
            SubscribeFeedSubscribeFeed::SubscribeFeedError(e) => if e.status.code is INVALID_FEED_URL {
                r == Err::<Feed, SubscribeFeedError>(
                    SubscribeFeedError::InvalidFeedUrl { feed_url: url, message: e.message },
                )
            } else {
                r == Err::<Feed, SubscribeFeedError>(SubscribeFeedError::UnexpectedCode(e.status.code))
            },
        },
{
    match response {
        SubscribeFeedSubscribeFeed::SubscribeFeedSuccess(success) => Ok(success.feed),
        SubscribeFeedSubscribeFeed::SubscribeFeedError(err) => match err.status.code {
            ResponseCode::INVALID_FEED_URL => Err(
                SubscribeFeedError::InvalidFeedUrl { feed_url: url, message: err.message },
            ),
            code => Err(SubscribeFeedError::UnexpectedCode(code)),
        },
    }
}

/// Whether unsubscribing succeeded, or the error the API answered.
pub fn unsubscribe_outcome(response: UnsubscribeFeedUnsubscribeFeed) -> (r: Result<
    (),
    UnsubscribeFeedUnsubscribeFeedOnUnsubscribeFeedError,
>)
    ensures
        match response {
            UnsubscribeFeedUnsubscribeFeed::UnsubscribeFeedSuccess(_) => r is Ok,
            UnsubscribeFeedUnsubscribeFeed::UnsubscribeFeedError(e) => r == Err::<
                (),
                UnsubscribeFeedUnsubscribeFeedOnUnsubscribeFeedError,
            >(e),
        },
{
    match response {
        UnsubscribeFeedUnsubscribeFeed::UnsubscribeFeedSuccess(_) => Ok(()),
        UnsubscribeFeedUnsubscribeFeed::UnsubscribeFeedError(e) => Err(e),
    }
}

} // verus!
