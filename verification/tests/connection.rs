use http::header::{HeaderMap, HeaderValue, AUTHORIZATION};
use spark_connect_proxy::application::{DbError, Model, State, StatusCode, Timestamp};
use spark_connect_proxy::connection::{
    address_query, answered, delivered, find_address, session_message, AddressStep,
    ConnectionDispatch, DispatchStep,
};

fn headers(value: &[u8]) -> HeaderMap {
    let mut headers = HeaderMap::new();
    headers.insert(AUTHORIZATION, HeaderValue::from_bytes(value).unwrap());
    headers
}

#[test]
fn the_first_request_opens_the_way() {
    let mut connection = ConnectionDispatch::new();
    assert!(matches!(
        connection.dispatch(&HeaderMap::new()),
        DispatchStep::Reply(StatusCode::BadRequest)
    ));
    assert!(matches!(
        connection.dispatch(&headers(b"Basic abc")),
        DispatchStep::Reply(StatusCode::BadRequest)
    ));
    assert!(matches!(
        connection.dispatch(&headers(b"Bearer")),
        DispatchStep::Reply(StatusCode::BadRequest)
    ));
    assert!(matches!(connection.dispatch(&headers(b"\xff")), DispatchStep::Unreadable));
    match connection.dispatch(&headers(b"Bearer the token")) {
        DispatchStep::Open(token) => assert_eq!(token, "the token"),
        _ => panic!("the token is there"),
    }
    assert!(matches!(connection.dispatch(&HeaderMap::new()), DispatchStep::Send));
    assert!(matches!(connection.dispatch(&headers(b"Bearer other")), DispatchStep::Send));
}

#[test]
fn an_empty_token_opens_the_way_too() {
    let mut connection = ConnectionDispatch::new();
    match connection.dispatch(&headers(b"Bearer ")) {
        DispatchStep::Open(token) => assert_eq!(token, ""),
        _ => panic!("the scheme is right"),
    }
}

#[test]
fn requests_without_an_application_are_not_found() {
    assert_eq!(delivered(true), None);
    assert_eq!(delivered(false), Some(StatusCode::NotFound));
    assert!(matches!(answered(Some(1u8)), Ok(1)));
    assert!(matches!(answered::<u8>(None), Err(StatusCode::NotFound)));
}

fn app(state: State, address: Option<&str>) -> Model {
    Model {
        id: 1,
        created_at: Timestamp { secs: 0, nanos: 0 },
        username: "user".to_string(),
        state,
        token: "token".to_string(),
        address: address.map(str::to_string),
        application_id: None,
    }
}

#[test]
fn the_way_leads_to_running_applications() {
    match find_address(Ok(Some(app(State::RUNNING, Some("h:1"))))) {
        AddressStep::Connect(address) => assert_eq!(address, "h:1"),
        _ => panic!("the application runs"),
    }
    assert!(matches!(find_address(Ok(Some(app(State::LAUNCHING, None)))), AddressStep::Wait));
    assert!(matches!(find_address(Ok(Some(app(State::FAILED, None)))), AddressStep::Stop));
    assert!(matches!(find_address(Ok(Some(app(State::FINISHED, None)))), AddressStep::Stop));
    assert!(matches!(find_address(Ok(None)), AddressStep::Stop));
    assert!(matches!(find_address(Err(DbError("down".to_string()))), AddressStep::Stop));
}

#[test]
fn connections_send_messages_under_their_own_header() {
    let message = session_message("h:1", "token", "health");
    assert_eq!(message.url, "http://h:1/spark.connect.SparkConnectService/Config");
    assert_eq!(message.token, "token");
    assert!(!message.no_proxy);
    assert_eq!(message.headers[0], ("X-Connect-Proxy".to_string(), "health".to_string()));
    assert_eq!(message.headers.len(), 3);
}

#[test]
fn the_store_is_asked_only_while_somebody_waits() {
    let filter = address_query(false, "abcd").unwrap();
    assert_eq!(filter.token, Some("abcd".to_string()));
    assert!(filter.id.is_none() && filter.username.is_none() && filter.states.is_none());
    assert!(address_query(true, "abcd").is_none());
}
