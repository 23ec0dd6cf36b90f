use std::cell::Cell;
use std::rc::Rc;

use http::header::{HeaderMap, HeaderValue, AUTHORIZATION};
use spark_connect_proxy::application::{DbError, Model, State, StatusCode, Timestamp};
use spark_connect_proxy::error::Error as ProxyError;
use spark_connect_proxy::grpc::{percent_encode_grpc_message, proxy_error_response};
use spark_connect_proxy::proxy::{
    extract_bearer_token, given_up, is_connect_path, mark_application_failed, received,
    resolve_query, resolve_upstream_address, responded, session_message, token_prefix,
    upstream_uri, upstream_uri_text, ConnectAttempts, ConnectStep, Opened, Resolution,
    SessionAction, SessionStage, UpstreamConnectionCache, UpstreamSession,
};

fn headers(value: &str) -> HeaderMap {
    let mut headers = HeaderMap::new();
    headers.insert(AUTHORIZATION, value.parse().unwrap());
    headers
}

#[test]
fn test_extract_bearer_token() {
    let mut headers = HeaderMap::new();
    headers.insert(AUTHORIZATION, "Bearer test-token".parse().unwrap());

    assert_eq!(extract_bearer_token(&headers).unwrap(), "test-token");
}

#[test]
fn test_extract_bearer_token_rejects_invalid_headers() {
    assert!(matches!(
        extract_bearer_token(&HeaderMap::new()),
        Err(ProxyError::MissingAuthorizationHeader)
    ));

    let mut wrong_scheme = HeaderMap::new();
    wrong_scheme.insert(AUTHORIZATION, "Basic abc123".parse().unwrap());
    assert!(matches!(
        extract_bearer_token(&wrong_scheme),
        Err(ProxyError::InvalidAuthorizationScheme)
    ));
}

#[test]
fn malformed_authorizations_are_told_apart() {
    assert_eq!(
        extract_bearer_token(&headers("Bearer ")).unwrap_err().message(),
        "invalid authorization header: missing bearer token"
    );
    assert_eq!(
        extract_bearer_token(&headers("Bearer")).unwrap_err().message(),
        "invalid authorization header: expected `Bearer <token>`"
    );
    let mut unreadable = HeaderMap::new();
    unreadable.insert(AUTHORIZATION, HeaderValue::from_bytes(b"Bearer \xff").unwrap());
    assert_eq!(
        extract_bearer_token(&unreadable).unwrap_err().message(),
        "invalid authorization header: failed to convert header to a str"
    );
    assert!(matches!(
        extract_bearer_token(&headers("bearer x")),
        Err(ProxyError::InvalidAuthorizationScheme)
    ));
}

#[test]
fn the_first_of_several_authorizations_counts() {
    let mut headers = HeaderMap::new();
    headers.append(AUTHORIZATION, "Bearer first".parse().unwrap());
    headers.append(AUTHORIZATION, "Bearer second".parse().unwrap());
    assert_eq!(extract_bearer_token(&headers).unwrap(), "first");
}

#[test]
fn tokens_are_read_back_as_they_were_sent() {
    for token in ["a", "a b", " ", "3f2a-91", "~!"] {
        assert_eq!(extract_bearer_token(&headers(&format!("Bearer {token}"))).unwrap(), token);
    }
}

#[test]
fn test_proxy_error_response_maps_status() {
    let not_found = proxy_error_response(ProxyError::ApplicationNotFound);
    assert_eq!(not_found.status.as_u16(), 200);
    assert_eq!(not_found.content_type, "application/grpc");
    assert_eq!(not_found.grpc_status, "5");
    assert_eq!(not_found.grpc_message, "application not found for provided token");

    let launching = proxy_error_response(ProxyError::InvalidApplicationState(State::LAUNCHING));
    assert_eq!(launching.status, StatusCode::Success);
    assert_eq!(launching.grpc_status, "14");

    let missing_address = proxy_error_response(ProxyError::MissingApplicationAddress);
    assert_eq!(missing_address.status, StatusCode::Success);
    assert_eq!(missing_address.grpc_status, "14");

    let auth = proxy_error_response(ProxyError::Authorization("missing subject".into()));
    assert_eq!(auth.grpc_status, "16");
    assert_eq!(auth.grpc_message, "authorization error: missing subject");
}

#[test]
fn every_error_has_a_status_and_a_message() {
    let reason = || "reason".to_string();
    let cases = [
        (ProxyError::MissingAuthorizationHeader, "16", "missing authorization header"),
        (ProxyError::InvalidAuthorizationHeader(reason()), "16", "invalid authorization header: reason"),
        (ProxyError::InvalidAuthorizationScheme, "16", "unsupported authorization scheme"),
        (ProxyError::InvalidAuthorizationToken, "16", "invalid authorization token"),
        (ProxyError::InvalidApplicationState(State::FINISHED), "9", "application is not ready for proxying: FINISHED"),
        (ProxyError::InvalidApplicationState(State::FAILED), "9", "application is not ready for proxying: FAILED"),
        (ProxyError::InvalidApplicationState(State::RUNNING), "9", "application is not ready for proxying: RUNNING"),
        (ProxyError::MissingApplicationAddress, "14", "application has no upstream address"),
        (ProxyError::Database(reason()), "13", "database error: reason"),
        (ProxyError::UpstreamConnect(reason()), "14", "failed to connect to upstream: reason"),
        (ProxyError::UpstreamHandshake(reason()), "14", "failed to establish upstream HTTP/2 session: reason"),
        (ProxyError::InvalidUpstreamUri(reason()), "13", "invalid upstream URI: reason"),
        (ProxyError::UpstreamRequest(reason()), "14", "upstream request failed: reason"),
        (ProxyError::Internal(reason()), "13", "internal error: reason"),
    ];
    for (error, status, message) in cases {
        let reply = proxy_error_response(error);
        assert_eq!(reply.grpc_status, status);
        assert_eq!(reply.grpc_message, message);
    }
}

#[test]
fn a_message_with_any_bytes_can_be_sent() {
    let reply = proxy_error_response(ProxyError::Internal("naïve\r\n100%\u{7f}".to_string()));
    assert_eq!(reply.grpc_message, "internal error: na%C3%AFve%0D%0A100%25%7F");
}

#[test]
fn test_percent_encode_grpc_message() {
    assert_eq!(
        percent_encode_grpc_message("upstream failed: bad\nstate % value"),
        "upstream failed: bad%0Astate %25 value"
    );
}

#[test]
fn percent_encoding_keeps_printable_characters_only() {
    assert_eq!(percent_encode_grpc_message(""), "");
    assert_eq!(percent_encode_grpc_message(" ~"), " ~");
    assert_eq!(percent_encode_grpc_message("\u{0}\u{1f}\u{7f}"), "%00%1F%7F");
    assert_eq!(percent_encode_grpc_message("€"), "%E2%82%AC");
}

fn percent_decode(text: &str) -> Vec<u8> {
    let bytes = text.as_bytes();
    let mut out = Vec::new();
    let mut i = 0;
    while i < bytes.len() {
        if bytes[i] == b'%' {
            out.push(u8::from_str_radix(&text[i + 1..i + 3], 16).unwrap());
            i += 3;
        } else {
            out.push(bytes[i]);
            i += 1;
        }
    }
    out
}

#[test]
fn percent_encoded_messages_are_read_back() {
    let mut all = String::new();
    for code in 0..0x250u32 {
        all.extend(char::from_u32(code));
    }
    for message in ["", "100% sure", "%25", "line\nbreak", &all] {
        let encoded = percent_encode_grpc_message(message);
        assert!(encoded.bytes().all(|b| (b' '..=b'~').contains(&b)));
        assert_eq!(percent_decode(&encoded), message.as_bytes());
    }
}

#[test]
fn token_prefixes_are_cut_between_characters() {
    assert_eq!(token_prefix("0123456789"), "01234567");
    assert_eq!(token_prefix("01234567"), "01234567");
    assert_eq!(token_prefix("0123456"), "0123456");
    assert_eq!(token_prefix(""), "");
    assert_eq!(token_prefix("0123456é9"), "0123456é9");
    assert_eq!(token_prefix("012345é9"), "012345é");
}

/// A sender that can be told from others, and closed.
#[derive(Clone)]
struct TestSender {
    closed: Rc<Cell<bool>>,
}

impl TestSender {
    fn new() -> Self {
        TestSender { closed: Rc::new(Cell::new(false)) }
    }

    fn same_channel(&self, other: &TestSender) -> bool {
        Rc::ptr_eq(&self.closed, &other.closed)
    }
}

fn is_closed(sender: &TestSender) -> bool {
    sender.closed.get()
}

fn sender_for(
    cache: &mut UpstreamConnectionCache<TestSender>,
    known: &[&str],
    token: &str,
) -> Result<TestSender, ProxyError> {
    if let Some(sender) = cache.live(token, &is_closed) {
        return Ok(sender);
    }
    match cache.open(token, Ok(known.contains(&token)), &is_closed, TestSender::new())? {
        Opened::Shared(sender) => Ok(sender),
        Opened::Fresh(sender) => Ok(sender),
    }
}

#[test]
fn test_upstream_connections_are_cached_by_token() {
    let mut cache = UpstreamConnectionCache::new();
    let known = ["first-token", "second-token"];

    let first = sender_for(&mut cache, &known, "first-token").unwrap();
    let first_again = sender_for(&mut cache, &known, "first-token").unwrap();
    let second = sender_for(&mut cache, &known, "second-token").unwrap();

    assert!(first.same_channel(&first_again));
    assert!(!first.same_channel(&second));
}

#[test]
fn test_unknown_tokens_are_not_cached() {
    let mut cache: UpstreamConnectionCache<TestSender> = UpstreamConnectionCache::new();

    let result = sender_for(&mut cache, &[], "unknown-token");

    assert!(matches!(result, Err(ProxyError::ApplicationNotFound)));
    assert!(cache.connections.len() == 0);
}

#[test]
fn test_upstream_connection_can_be_invalidated() {
    let mut cache = UpstreamConnectionCache::new();
    let token = "test-token";
    let sender = sender_for(&mut cache, &[token], token).unwrap();
    let weak_sender = Rc::downgrade(&sender.closed);

    cache.invalidate(token);
    drop(sender);

    assert!(!cache.connections.contains_key(token));
    assert!(weak_sender.upgrade().is_none());
}

#[test]
fn closed_connections_are_replaced() {
    let mut cache = UpstreamConnectionCache::new();
    let first = sender_for(&mut cache, &["t"], "t").unwrap();
    first.closed.set(true);
    let second = sender_for(&mut cache, &["t"], "t").unwrap();
    assert!(!first.same_channel(&second));
    assert_eq!(cache.connections.len(), 1);

    cache.remove_closed("t", &is_closed);
    assert!(cache.connections.contains_key("t"));
    second.closed.set(true);
    cache.remove_closed("t", &is_closed);
    assert!(!cache.connections.contains_key("t"));
    assert!(!cache.invalidate("t"));
}

#[test]
fn a_failing_store_opens_no_connection() {
    let mut cache = UpstreamConnectionCache::new();
    let result = cache.open("t", Err(DbError("down".to_string())), &is_closed, TestSender::new());
    match result {
        Err(error) => assert_eq!(error.message(), "database error: down"),
        Ok(_) => panic!("the store failed"),
    }
    assert_eq!(cache.connections.len(), 0);
}

#[test]
fn a_connection_opened_meanwhile_is_shared() {
    let mut cache = UpstreamConnectionCache::new();
    let first = sender_for(&mut cache, &["t"], "t").unwrap();
    match cache.open("t", Ok(true), &is_closed, TestSender::new()).unwrap() {
        Opened::Shared(sender) => assert!(sender.same_channel(&first)),
        Opened::Fresh(_) => panic!("there is a connection"),
    }
}

#[test]
fn a_request_that_is_not_taken_fails() {
    let mut cache = UpstreamConnectionCache::new();
    let sender = sender_for(&mut cache, &["t"], "t").unwrap();
    assert!(cache.sent("t", true, &is_closed).is_ok());
    sender.closed.set(true);
    let error = cache.sent("t", false, &is_closed).unwrap_err();
    assert_eq!(error.message(), "internal error: Upstream unexpectedly closed");
    assert_eq!(cache.connections.len(), 0);

    let error = received::<u8>(None).unwrap_err();
    assert_eq!(
        error.message(),
        "internal error: Upstream response channel unexpectedly closed"
    );
    assert_eq!(received(Some(Ok(5u8))).unwrap(), 5);
}

fn app(state: State, address: Option<&str>) -> Model {
    Model {
        id: 1,
        created_at: Timestamp { secs: 0, nanos: 0 },
        username: "test-user".to_string(),
        state,
        token: "token".to_string(),
        address: address.map(str::to_string),
        application_id: None,
    }
}

#[test]
fn addresses_are_resolved_by_the_state_of_the_application() {
    let filter = resolve_query(false, "token").unwrap();
    assert!(filter.matches(&app(State::RUNNING, None)));
    assert!(matches!(resolve_query(true, "token"), Err(ProxyError::ApplicationNotFound)));

    match resolve_upstream_address(Ok(Some(app(State::RUNNING, Some("h:1"))))) {
        Ok(Resolution::Address(address)) => assert_eq!(address, "h:1"),
        _ => panic!("the application runs"),
    }
    assert!(matches!(
        resolve_upstream_address(Ok(Some(app(State::LAUNCHING, None)))),
        Ok(Resolution::Wait)
    ));
    assert!(matches!(
        resolve_upstream_address(Ok(Some(app(State::RUNNING, None)))),
        Err(ProxyError::MissingApplicationAddress)
    ));
    assert!(matches!(
        resolve_upstream_address(Ok(Some(app(State::FAILED, None)))),
        Err(ProxyError::InvalidApplicationState(State::FAILED))
    ));
    assert!(matches!(
        resolve_upstream_address(Ok(Some(app(State::FINISHED, Some("h:1"))))),
        Err(ProxyError::InvalidApplicationState(State::FINISHED))
    ));
    assert!(matches!(
        resolve_upstream_address(Ok(None)),
        Err(ProxyError::ApplicationNotFound)
    ));
    assert!(matches!(
        resolve_upstream_address(Err(DbError("down".to_string()))),
        Err(ProxyError::Database(reason)) if reason == "down"
    ));
}

#[test]
fn test_resolve_upstream_connection_marks_application_failed_after_retries() {
    let row = app(State::RUNNING, Some("127.0.0.1:9"));
    let address = match resolve_upstream_address(Ok(Some(app(State::RUNNING, Some("127.0.0.1:9"))))) {
        Ok(Resolution::Address(address)) => address,
        _ => panic!("the application runs"),
    };

    let mut attempts = ConnectAttempts::start(address);
    let mut tried = 0;
    let (update, error) = loop {
        tried += 1;
        let failure = ProxyError::UpstreamConnect(format!("attempt {tried}"));
        match attempts.attempted("token", Err(failure)) {
            ConnectStep::Retry(next) => attempts = next,
            ConnectStep::GiveUp { update, error } => break (update, error),
            _ => panic!("every attempt fails"),
        }
    };
    assert_eq!(tried, 4);
    assert!(matches!(&error, ProxyError::UpstreamConnect(reason) if reason == "attempt 4"));

    assert!(update.filter.matches(&row));
    let app = update.changes.apply(row);
    assert_eq!(app.state, State::FAILED);
    assert_eq!(app.address, None);

    assert!(matches!(given_up(error, Ok(())), ProxyError::UpstreamConnect(_)));
    assert!(matches!(
        given_up(ProxyError::ApplicationNotFound, Err(DbError("down".to_string()))),
        ProxyError::Database(_)
    ));
}

#[test]
fn attempts_to_connect_end_with_success_or_another_error() {
    let attempts = ConnectAttempts::start("h:1".to_string());
    let attempts = match attempts.attempted("t", Err(ProxyError::UpstreamHandshake("x".to_string()))) {
        ConnectStep::Retry(next) => next,
        _ => panic!("a handshake may pass later"),
    };
    match attempts.attempted("t", Ok(())) {
        ConnectStep::Connected(address) => assert_eq!(address, "h:1"),
        _ => panic!("there is a connection"),
    }
    let attempts = ConnectAttempts::start("h:1".to_string());
    assert!(matches!(
        attempts.attempted("t", Err(ProxyError::ApplicationNotFound)),
        ConnectStep::Failed(ProxyError::ApplicationNotFound)
    ));
    let update = mark_application_failed("other");
    assert!(!update.filter.matches(&app(State::RUNNING, None)));
}

fn check_ready(action: SessionAction) -> String {
    match action {
        SessionAction::CheckReady(uri) => uri.to_string(),
        _ => panic!("the connection is to be asked"),
    }
}

#[test]
fn requests_go_on_with_the_token_of_their_session_only() {
    let mut session = UpstreamSession::new("mine".to_string());
    assert!(matches!(
        session.request(&headers("Bearer other"), None),
        SessionAction::Reply(ProxyError::InvalidAuthorizationToken)
    ));
    assert!(matches!(
        session.request(&HeaderMap::new(), None),
        SessionAction::Reply(ProxyError::MissingAuthorizationHeader)
    ));
    assert!(matches!(session.stage, SessionStage::Idle));
    assert!(session.address.is_none());
}

#[test]
fn a_session_opens_its_connection_once() {
    let mut session = UpstreamSession::new("mine".to_string());
    let mine = headers("Bearer mine");

    assert!(matches!(session.request(&mine, Some("/a")), SessionAction::Connect));
    assert!(matches!(
        session.connected(Err(ProxyError::ApplicationNotFound)),
        SessionAction::Reply(ProxyError::ApplicationNotFound)
    ));

    assert!(matches!(session.request(&mine, Some("/b?c")), SessionAction::Connect));
    assert_eq!(check_ready(session.connected(Ok("h:1".to_string()))), "http://h:1/b?c");
    assert!(matches!(session.ready(Ok(())), SessionAction::Send));

    assert_eq!(check_ready(session.request(&mine, None)), "http://h:1/");
    match session.ready(Err("broken".to_string())) {
        SessionAction::Reply(error) => {
            assert_eq!(error.message(), "upstream request failed: broken")
        }
        _ => panic!("the connection broke"),
    }

    assert!(matches!(session.request(&mine, None), SessionAction::Connect));
    assert_eq!(check_ready(session.connected(Ok("h:2".to_string()))), "http://h:2/");
}

#[test]
fn a_request_without_a_proper_address_is_answered() {
    let mut session = UpstreamSession::new("mine".to_string());
    let mine = headers("Bearer mine");
    assert!(matches!(session.request(&mine, None), SessionAction::Connect));
    assert!(matches!(
        session.connected(Ok("not an address".to_string())),
        SessionAction::Reply(ProxyError::InvalidUpstreamUri(_))
    ));
    assert!(matches!(
        session.request(&mine, None),
        SessionAction::Reply(ProxyError::InvalidUpstreamUri(_))
    ));
}

#[test]
fn requests_are_sent_to_the_address_of_the_application() {
    assert_eq!(upstream_uri_text("h:1", None), "http://h:1/");
    let uri = upstream_uri("h:1", Some("/spark.connect.SparkConnectService/Config?a=b")).unwrap();
    assert_eq!(uri.host(), Some("h"));
    assert_eq!(uri.port_u16(), Some(1));
    assert_eq!(uri.path(), "/spark.connect.SparkConnectService/Config");
    assert_eq!(uri.query(), Some("a=b"));

    let error = upstream_uri("not an address", None).unwrap_err();
    let reason = "http://not an address/".parse::<http::Uri>().unwrap_err();
    assert_eq!(error.message(), format!("invalid upstream URI: {reason}"));
}

#[test]
fn responses_are_handed_on() {
    assert_eq!(responded(Ok(3u8)).unwrap(), 3);
    let error = responded::<u8>(Err("reset".to_string())).unwrap_err();
    assert_eq!(error.message(), "upstream request failed: reset");
}

#[test]
fn connect_requests_are_told_by_their_path() {
    assert!(is_connect_path("/spark.connect.SparkConnectService/ExecutePlan"));
    assert!(is_connect_path("/spark.connect.SparkConnectService"));
    assert!(!is_connect_path("/apps"));
    assert!(!is_connect_path("/x/spark.connect.SparkConnectService"));
}

#[test]
fn session_messages_look_like_calls() {
    let message = session_message("h:1", "token", "stop");
    assert_eq!(message.url, "http://h:1/spark.connect.SparkConnectService/Config");
    assert_eq!(message.token, "token");
    assert!(message.no_proxy);
    assert_eq!(
        message.headers,
        vec![
            ("X-Spark-Plug".to_string(), "stop".to_string()),
            ("Content-Type".to_string(), "application/grpc".to_string()),
            ("TE".to_string(), "trailers".to_string()),
        ]
    );
}
