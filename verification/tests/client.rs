use synd_term::client::endpoint::{graphql_ws_endpoint, ws_endpoint_for_scheme, ws_endpoint_from_joined, WsEndpointError};
use synd_term::client::decision::{
    ack_step, authorization_value, event_step, frame_step, is_unauthorized, settle_partial_response,
    settle_response, subscribe_outcome, supports_feed_registry_events, unsubscribe_outcome, ws_scheme, AckStep,
    Credential, EventStep, FrameKind, FrameStep, ResponseFailure, SubscribeFeedError, WsSchemeError,
};
use synd_term::client::graphql::{FeedType, Requirement, ResponseCode};
use synd_term::client::mutation::subscribe_feed::{
    self, SubscribeFeedSubscribeFeed, SubscribeFeedSubscribeFeedOnSubscribeFeedError,
    SubscribeFeedSubscribeFeedOnSubscribeFeedErrorStatus, SubscribeFeedSubscribeFeedOnSubscribeFeedSuccess,
    SubscribeFeedSubscribeFeedOnSubscribeFeedSuccessStatus,
};
use synd_term::client::mutation::unsubscribe_feed::{
    UnsubscribeFeedUnsubscribeFeed, UnsubscribeFeedUnsubscribeFeedOnUnsubscribeFeedError,
    UnsubscribeFeedUnsubscribeFeedOnUnsubscribeFeedErrorStatus, UnsubscribeFeedUnsubscribeFeedOnUnsubscribeFeedSuccess,
    UnsubscribeFeedUnsubscribeFeedOnUnsubscribeFeedSuccessStatus,
};
use synd_term::client::mutation::SubscribeFeed;
use synd_term::client::payload::{
    read_requirement, write_requirement, EntriesOutput, EntryConnection, FeedConnection, GraphqlFeedType,
    InitialFeedRegistryPayload, InitialRefreshModeInput, InitialSubscriptionsPayload, InitialTimelinePayload,
    RefreshDisposition, RefreshPolicyInputKind, RefreshPolicyKind, RefreshStatusState, TimelinePayload,
    FetchEntriesPayload,
};
use synd_term::client::payload::ResponseCode as PayloadResponseCode;
use synd_term::client::query::{subscription, Subscription};
use synd_term::types::{FeedType as Format, PageInfo, Requirement as Req};

#[test]
fn graphql_enums_read_and_write_names() {
    assert_eq!(FeedType::parse("ATOM"), FeedType::ATOM);
    assert_eq!(FeedType::parse("RSS2"), FeedType::RSS2);
    assert_eq!(FeedType::parse("yaml"), FeedType::Other("yaml".to_owned()));
    assert_eq!(FeedType::Other("yaml".to_owned()).as_str(), "yaml");
    assert_eq!(FeedType::JSON.as_str(), "JSON");
    assert_eq!(Requirement::parse("SHOULD"), Requirement::SHOULD);
    assert_eq!(Requirement::parse("should"), Requirement::Other("should".to_owned()));
    assert_eq!(ResponseCode::parse("INVALID_FEED_URL"), ResponseCode::INVALID_FEED_URL);
    assert_eq!(ResponseCode::INTERNAL_ERROR.as_str(), "INTERNAL_ERROR");
}

#[test]
fn payload_enums_read_names() {
    assert_eq!(RefreshPolicyKind::parse("INTERVAL"), RefreshPolicyKind::Interval);
    assert_eq!(RefreshStatusState::parse("NEVER_REFRESHED"), RefreshStatusState::NeverRefreshed);
    assert_eq!(RefreshStatusState::parse("LAST_FAILED").as_str(), "LAST_FAILED");
    assert_eq!(RefreshDisposition::parse("COALESCED_PENDING"), RefreshDisposition::CoalescedPending);
    assert_eq!(PayloadResponseCode::parse("FEED_UNAVAILABLE"), PayloadResponseCode::FeedUnavailable);
    assert_eq!(PayloadResponseCode::parse("OK"), PayloadResponseCode::OK);
    assert_eq!(InitialRefreshModeInput::RequireSuccess.as_str(), "REQUIRE_SUCCESS");
    assert_eq!(InitialRefreshModeInput::parse("ASYNC"), Some(InitialRefreshModeInput::Async));
    assert_eq!(RefreshPolicyInputKind::Manual.as_str(), "MANUAL");
    assert_eq!(RefreshPolicyInputKind::parse("nope"), None);
}

#[test]
fn refresh_status_is_active_only_while_pending_or_running() {
    assert!(RefreshStatusState::Pending.is_active());
    assert!(RefreshStatusState::Running.is_active());
    assert!(!RefreshStatusState::Idle.is_active());
    assert!(!RefreshStatusState::LastFailed.is_active());
    assert!(!RefreshStatusState::Other("PENDING".to_owned()).is_active());
}

#[test]
fn graphql_feed_type_into_feed_type() {
    assert_eq!(GraphqlFeedType::parse("ATOM").into_feed_type(), Some(Format::Atom));
    assert_eq!(GraphqlFeedType::parse("JSON").into_feed_type(), Some(Format::JSON));
    assert_eq!(GraphqlFeedType::parse("RSS1").into_feed_type(), Some(Format::RSS1));
    assert_eq!(GraphqlFeedType::parse("other").into_feed_type(), None);
}

#[test]
fn requirement_reads_known_names_only() {
    assert_eq!(read_requirement(None).unwrap(), None);
    assert_eq!(read_requirement(Some("MAY")).unwrap(), Some(Req::May));
    assert_eq!(read_requirement(Some("must")).unwrap_err().value, "must");
    assert_eq!(write_requirement(Some(Req::Should)), Some("SHOULD"));
    assert_eq!(write_requirement(None), None);
}

fn page() -> PageInfo {
    PageInfo { has_next_page: false, end_cursor: None }
}

#[test]
fn initial_payload_into_parts() {
    let payload = InitialFeedRegistryPayload {
        subscriptions: InitialSubscriptionsPayload::from_option(Some(FeedConnection { nodes: vec![], page_info: page() })),
        timeline: InitialTimelinePayload::default(),
    };
    let (subscriptions, timeline) = payload.into_parts();
    assert_eq!(subscriptions.unwrap().feeds.nodes.len(), 0);
    assert!(timeline.is_none());

    let payload = InitialFeedRegistryPayload {
        subscriptions: InitialSubscriptionsPayload::from_option(None),
        timeline: InitialTimelinePayload::from_option(Some(TimelinePayload {
            entries: EntryConnection { nodes: vec![], page_info: PageInfo { has_next_page: true, end_cursor: Some("c".to_owned()) } },
        })),
    };
    let (subscriptions, timeline) = payload.into_parts();
    assert!(subscriptions.is_none());
    assert_eq!(timeline.unwrap().page_info.end_cursor.as_deref(), Some("c"));

    let fetched = FetchEntriesPayload::from_output(EntriesOutput { entries: EntryConnection { nodes: vec![], page_info: page() } });
    assert!(!fetched.page_info.has_next_page);
}

#[test]
fn build_query_carries_operation() {
    let q = Subscription::build_query(subscription::Variables { after: None, first: Some(50) });
    assert_eq!(q.operation_name, "Subscription");
    assert_eq!(q.variables.first, Some(50));
    assert!(q.query.starts_with("query Subscription"));
    let m = SubscribeFeed::build_query(subscribe_feed::Variables {
        subscribe_input: subscribe_feed::SubscribeFeedInput { url: "https://a/feed".to_owned(), requirement: None, category: None },
    });
    assert_eq!(m.operation_name, "SubscribeFeed");
}

#[test]
fn responses_with_errors_fail() {
    assert_eq!(settle_response::<u8, u8>(Some(1), None), Ok(1));
    assert_eq!(settle_response::<u8, u8>(Some(1), Some(vec![])), Ok(1));
    assert_eq!(settle_response::<u8, u8>(Some(1), Some(vec![7])), Err(ResponseFailure::Graphql(vec![7])));
    assert_eq!(settle_response::<u8, u8>(None, None), Err(ResponseFailure::Missing));
    assert_eq!(settle_partial_response::<u8, u8>(Some(1), Some(vec![7])), Ok(1));
    assert_eq!(settle_partial_response::<u8, u8>(None, Some(vec![7])), Err(ResponseFailure::Graphql(vec![7])));
    assert_eq!(settle_partial_response::<u8, u8>(None, Some(vec![])), Err(ResponseFailure::Missing));
}

#[test]
fn status_and_scheme_decisions() {
    assert!(is_unauthorized(Some(401)));
    assert!(!is_unauthorized(Some(403)));
    assert!(!is_unauthorized(None));
    assert!(supports_feed_registry_events("http"));
    assert!(!supports_feed_registry_events("https"));
    assert_eq!(ws_scheme("http"), Ok("ws"));
    assert_eq!(ws_scheme("https"), Err(WsSchemeError::TlsNotImplemented));
    assert_eq!(ws_scheme("ftp"), Err(WsSchemeError::Unsupported("ftp".to_owned())));
}

#[test]
fn socket_message_steps() {
    assert_eq!(ack_step(Some("connection_ack")), AckStep::Acknowledged);
    assert_eq!(ack_step(Some("connection_error")), AckStep::Failed);
    assert_eq!(ack_step(Some("error")), AckStep::Failed);
    assert_eq!(ack_step(Some("ka")), AckStep::Skip);
    assert_eq!(ack_step(None), AckStep::Skip);
    assert_eq!(event_step(Some("next")), EventStep::Next);
    assert_eq!(event_step(Some("error")), EventStep::Error);
    assert_eq!(event_step(Some("complete")), EventStep::Complete);
    assert_eq!(event_step(Some("ping")), EventStep::Skip);
    assert_eq!(frame_step(FrameKind::Text), FrameStep::Read);
    assert_eq!(frame_step(FrameKind::Binary), FrameStep::Read);
    assert_eq!(frame_step(FrameKind::Close), FrameStep::Closed);
    assert_eq!(frame_step(FrameKind::Ping), FrameStep::Skip);
}

#[test]
fn authorization_header_names_provider() {
    assert_eq!(authorization_value(&Credential::Github { access_token: "t1".to_owned() }), "github t1");
    assert_eq!(authorization_value(&Credential::Google { id_token: "t2".to_owned() }), "google t2");
}

fn feed() -> subscribe_feed::Feed {
    subscribe_feed::Feed {
        id: "1".to_owned(),
        type_: FeedType::ATOM,
        title: None,
        url: "https://a/feed".to_owned(),
        updated: None,
        website_url: None,
        description: None,
        generator: None,
        requirement: Some(Requirement::MUST),
        category: None,
        entries: subscribe_feed::FeedEntries { nodes: vec![] },
        links: subscribe_feed::FeedLinks { nodes: vec![] },
        authors: subscribe_feed::FeedAuthors { nodes: vec![] },
    }
}

#[test]
fn subscribe_and_unsubscribe_outcomes() {
    let ok = SubscribeFeedSubscribeFeed::SubscribeFeedSuccess(SubscribeFeedSubscribeFeedOnSubscribeFeedSuccess {
        feed: feed(),
        status: SubscribeFeedSubscribeFeedOnSubscribeFeedSuccessStatus { code: ResponseCode::OK },
    });
    assert_eq!(subscribe_outcome("u".to_owned(), ok).unwrap().id, "1");
    let invalid = SubscribeFeedSubscribeFeed::SubscribeFeedError(SubscribeFeedSubscribeFeedOnSubscribeFeedError {
        status: SubscribeFeedSubscribeFeedOnSubscribeFeedErrorStatus { code: ResponseCode::INVALID_FEED_URL },
        message: "bad".to_owned(),
    });
    assert_eq!(
        subscribe_outcome("u".to_owned(), invalid),
        Err(SubscribeFeedError::InvalidFeedUrl { feed_url: "u".to_owned(), message: "bad".to_owned() })
    );
    let internal = SubscribeFeedSubscribeFeed::SubscribeFeedError(SubscribeFeedSubscribeFeedOnSubscribeFeedError {
        status: SubscribeFeedSubscribeFeedOnSubscribeFeedErrorStatus { code: ResponseCode::INTERNAL_ERROR },
        message: "x".to_owned(),
    });
    assert_eq!(
        subscribe_outcome("u".to_owned(), internal),
        Err(SubscribeFeedError::UnexpectedCode(ResponseCode::INTERNAL_ERROR))
    );
    let ok = UnsubscribeFeedUnsubscribeFeed::UnsubscribeFeedSuccess(UnsubscribeFeedUnsubscribeFeedOnUnsubscribeFeedSuccess {
        status: UnsubscribeFeedUnsubscribeFeedOnUnsubscribeFeedSuccessStatus { code: ResponseCode::OK },
    });
    assert!(unsubscribe_outcome(ok).is_ok());
    let err = UnsubscribeFeedUnsubscribeFeedOnUnsubscribeFeedError {
        status: UnsubscribeFeedUnsubscribeFeedOnUnsubscribeFeedErrorStatus { code: ResponseCode::UNAUTHORIZED },
    };
    assert_eq!(unsubscribe_outcome(UnsubscribeFeedUnsubscribeFeed::UnsubscribeFeedError(err.clone())), Err(err));
}

#[test]
fn graphql_socket_endpoint() {
    assert_eq!(
        graphql_ws_endpoint("http://localhost:5959/graphql"),
        Ok("ws://localhost:5959/graphql/ws".to_owned())
    );
    assert_eq!(
        graphql_ws_endpoint("https://api.example.com/graphql"),
        Err(WsEndpointError::Scheme(WsSchemeError::TlsNotImplemented))
    );
    assert_eq!(graphql_ws_endpoint("not a url"), Err(WsEndpointError::Join));
    assert_eq!(ws_endpoint_from_joined(None), Err(WsEndpointError::Join));
    assert_eq!(
        ws_endpoint_for_scheme("ftp://h/graphql/ws".to_owned(), Some("ftp".to_owned())),
        Err(WsEndpointError::Scheme(WsSchemeError::Unsupported("ftp".to_owned())))
    );
    assert_eq!(ws_endpoint_for_scheme("x".to_owned(), None), Err(WsEndpointError::InvalidUrl));
}
