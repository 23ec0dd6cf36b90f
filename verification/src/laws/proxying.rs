//! Laws of proxying requests.
use crate::application::{DbError, Filter, Model, ModelView, State, StatusCode, Update};
use crate::connection::{
    address_query, answered, delivered, find_address, AddressStep, ConnectionDispatch,
    DispatchStep,
};
use crate::error::Error;
use crate::headers::{header_read, HeaderRead, HeaderReadView};
use crate::laws::text::{law_cut_is_unique, law_cut_once};
use crate::proxy::{
    bearer_token, extract_bearer_token, given_up, header_views, is_connect_path,
    mark_application_failed, parse_authorization, received, resolve_query,
    resolve_upstream_address, responded, session_message, token_prefix, upstream_uri,
    upstream_uri_text, ConnectAttempts, ConnectStep, Opened, Resolution, SessionAction,
    SessionMessage, SessionStage, UpstreamConnectionCache, UpstreamSession,
};
use crate::text::{cut_once, opt_view, str_view};
use crate::trusted::web::read_uri;
use http::header::HeaderMap;
use vstd::prelude::*;
use vstd::utf8::{encode_utf8, is_char_boundary};

verus! {

/// Requests for applications are those whose path begins with the service's.
pub proof fn law_connect_paths(path: &str, res: bool)
    requires
        call_ensures(is_connect_path, (path,), res),
    ensures
        res <==> "/spark.connect.SparkConnectService"@.is_prefix_of(path@),
{
}

/// Whether the authorization offers the token: it is `Bearer`, a space and the token.
pub open spec fn offers(header: HeaderReadView, token: Seq<char>) -> bool {
    &&& header matches HeaderReadView::Text(text)
    &&& text == "Bearer"@ + seq![' '] + token
}

/// An authorization gives a token exactly where it is `Bearer`, a space and a token that is not
/// empty. Otherwise the error says what is missing.
pub proof fn law_bearer_tokens(header: HeaderRead, res: Result<String, Error>)
    requires
        call_ensures(parse_authorization, (header,), res),
    ensures
        match res {
            Ok(token) => token@.len() > 0 && offers(header@, token@),
            Err(Error::MissingAuthorizationHeader) => header@ is Absent,
            Err(Error::InvalidAuthorizationHeader(reason)) => match header@ {
                HeaderReadView::Absent => false,
                HeaderReadView::Unreadable(words) => reason@ == words,
                HeaderReadView::Text(text) => if text.contains(' ') {
                    text == "Bearer"@ + seq![' '] && reason@ == "missing bearer token"@
                } else {
                    reason@ == "expected `Bearer <token>`"@
                },
            },
            Err(Error::InvalidAuthorizationScheme) => {
                &&& header@ matches HeaderReadView::Text(text)
                &&& text.contains(' ')
                &&& !("Bearer"@ + seq![' ']).is_prefix_of(text)
            },
            Err(_) => false,
        },
        forall|token: Seq<char>| #[trigger]
            offers(header@, token) && token.len() > 0 ==> (res matches Ok(read) && read@ == token),
{
    reveal_strlit("Bearer");
    assert(!"Bearer"@.contains(' '));
    if let HeaderReadView::Text(text) = header@ {
        law_cut_once(text, ' ');
        if let Some((scheme, token)) = cut_once(text, ' ') {
            assert(text[scheme.len() as int] == ' ');
            if scheme == "Bearer"@ && token.len() == 0 {
                assert(text =~= "Bearer"@ + seq![' ']);
            }
            let start = "Bearer"@ + seq![' '];
            if start.is_prefix_of(text) {
                assert(text =~= "Bearer"@ + seq![' '] + text.skip(7));
                law_cut_is_unique("Bearer"@, ' ', text.skip(7));
            }
        }
        assert forall|token: Seq<char>| #[trigger]
            offers(header@, token) && token.len() > 0 implies (res matches Ok(read)
            && read@ == token) by {
            law_cut_is_unique("Bearer"@, ' ', token);
        }
    }
}

/// The token of a request is read from its first authorization header, whatever the case of the
/// header's name.
pub proof fn law_request_token(
    headers: &HeaderMap,
    res: Result<String, Error>,
    header: HeaderRead,
    parsed: Result<String, Error>,
)
    requires
        call_ensures(extract_bearer_token, (headers,), res),
        call_ensures(crate::headers::read_header, (headers, "authorization"), header),
        call_ensures(parse_authorization, (header,), parsed),
    ensures
        match (res, parsed) {
            (Ok(token), Ok(same)) => token@ == same@,
            (Err(e), Err(same)) => e@ == same@,
            _ => false,
        },
{
}

/// Whether a request carries the token.
pub open spec fn carries(headers: HeaderMap, token: Seq<char>) -> bool {
    &&& offers(header_read(headers, "authorization"@), token)
    &&& token.len() > 0
}

proof fn lemma_carried(headers: HeaderMap, token: Seq<char>)
    ensures
        carries(headers, token) <==> bearer_token(header_read(headers, "authorization"@)) == Ok::<
            Seq<char>,
            crate::error::ErrorView,
        >(token),
{
    reveal_strlit("Bearer");
    assert(!"Bearer"@.contains(' '));
    let header = header_read(headers, "authorization"@);
    if let HeaderReadView::Text(text) = header {
        law_cut_once(text, ' ');
        if carries(headers, token) {
            law_cut_is_unique("Bearer"@, ' ', token);
        }
    }
}

/// Where a request is sent: at the address, under its own path and query, and at the root where it
/// has none.
pub open spec fn target(address: Seq<char>, path: Option<&str>) -> Seq<char> {
    match path {
        Some(p) => "http://"@ + address + p@,
        None => "http://"@ + address + "/"@,
    }
}

/// Whether the action is to send a request to the target, or to say why the target is no address.
pub open spec fn goes_to(action: SessionAction, stage: SessionStage, text: Seq<char>) -> bool {
    match read_uri(text) {
        Ok(uri) => action matches SessionAction::CheckReady(sent) && sent == uri && stage
            is Readying,
        Err(reason) => {
            &&& action matches SessionAction::Reply(Error::InvalidUpstreamUri(words))
            &&& words@ == reason
            &&& stage is Idle
        },
    }
}

/// A request's address is made of the application's address and the request's own path.
pub proof fn law_request_addresses(
    address: &str,
    path: Option<&str>,
    text: String,
    res: Result<http::Uri, Error>,
)
    requires
        call_ensures(upstream_uri_text, (address, path), text),
        call_ensures(upstream_uri, (address, path), res),
    ensures
        text@ == target(address@, path),
        match read_uri(target(address@, path)) {
            Ok(uri) => res == Ok::<http::Uri, Error>(uri),
            Err(reason) => res matches Err(Error::InvalidUpstreamUri(words)) && words@ == reason,
        },
{
}

/// Over a connection that is open, every request with the session's token goes to the
/// application's address under its own path.
pub proof fn law_request_over_an_open_connection(
    session: &mut UpstreamSession,
    headers: &HeaderMap,
    path: Option<&str>,
    action: SessionAction,
)
    requires
        call_ensures(UpstreamSession::request, (session, headers, path), action),
        old(session).stage is Idle,
        old(session).address is Some,
        carries(*headers, old(session).token@),
    ensures
        goes_to(action, final(session).stage, target(old(session).address->0@, path)),
        opt_view(final(session).address) == opt_view(old(session).address),
        final(session).token@ == old(session).token@,
{
    lemma_carried(*headers, old(session).token@);
}

/// Where no connection is open, one is opened for the request.
pub proof fn law_request_opens_a_connection(
    session: &mut UpstreamSession,
    headers: &HeaderMap,
    path: Option<&str>,
    action: SessionAction,
)
    requires
        call_ensures(UpstreamSession::request, (session, headers, path), action),
        old(session).stage is Idle,
        old(session).address is None,
        carries(*headers, old(session).token@),
    ensures
        action is Connect,
        final(session).stage is Connecting,
        final(session).address is None,
        final(session).token@ == old(session).token@,
{
    lemma_carried(*headers, old(session).token@);
}

/// A request for which a connection is opened goes to the same address, under its own path, as
/// one that finds the connection open. The connection then stays open.
pub proof fn law_request_over_a_new_connection(
    first: &mut UpstreamSession,
    headers: &HeaderMap,
    path: Option<&str>,
    opening: SessionAction,
    second: &mut UpstreamSession,
    address: String,
    action: SessionAction,
)
    requires
        call_ensures(UpstreamSession::request, (first, headers, path), opening),
        old(first).stage is Idle,
        old(first).address is None,
        carries(*headers, old(first).token@),
        *old(second) == *final(first),
        call_ensures(UpstreamSession::connected, (second, Ok(address)), action),
    ensures
        goes_to(action, final(second).stage, target(address@, path)),
        opt_view(final(second).address) == Some(address@),
        final(second).token@ == old(first).token@,
{
    lemma_carried(*headers, old(first).token@);
}

/// A request without the session's token is answered at once: it does not reach the application,
/// opens no connection and changes nothing. One with another token is told that its token is
/// wrong.
pub proof fn law_other_tokens_are_refused(
    session: &mut UpstreamSession,
    headers: &HeaderMap,
    path: Option<&str>,
    action: SessionAction,
)
    requires
        call_ensures(UpstreamSession::request, (session, headers, path), action),
        old(session).stage is Idle,
        !carries(*headers, old(session).token@),
    ensures
        final(session)@ == old(session)@,
        action matches SessionAction::Reply(e) && {
            ||| {
                &&& e is InvalidAuthorizationToken
                &&& exists|token: Seq<char>|
                    #[trigger] carries(*headers, token) && token != old(session).token@
            }
            ||| {
                &&& bearer_token(header_read(*headers, "authorization"@)) is Err
                &&& e@ == bearer_token(header_read(*headers, "authorization"@))->Err_0
            }
        },
{
    lemma_carried(*headers, old(session).token@);
    if let Ok(token) = bearer_token(header_read(*headers, "authorization"@)) {
        lemma_carried(*headers, token);
    }
}

/// Where a connection could not be opened, the request is answered with the error, and the next
/// one tries anew.
pub proof fn law_failed_connection_is_answered(
    session: &mut UpstreamSession,
    error: Error,
    action: SessionAction,
)
    requires
        call_ensures(UpstreamSession::connected, (session, Err(error)), action),
        old(session).stage is Connecting,
    ensures
        action matches SessionAction::Reply(e) && e@ == error@,
        final(session).stage is Idle,
        opt_view(final(session).address) == opt_view(old(session).address),
        final(session).token@ == old(session).token@,
{
}

/// A request is sent once the connection takes it. A connection that does not is dropped, and the
/// request is answered with the reason.
pub proof fn law_connection_takes_the_request(
    session: &mut UpstreamSession,
    result: Result<(), String>,
    action: SessionAction,
)
    requires
        call_ensures(UpstreamSession::ready, (session, result), action),
        old(session).stage is Readying,
    ensures
        final(session).stage is Idle,
        final(session).token@ == old(session).token@,
        result is Ok ==> action is Send && opt_view(final(session).address) == opt_view(
            old(session).address,
        ),
        result matches Err(reason) ==> {
            &&& action matches SessionAction::Reply(Error::UpstreamRequest(words))
            &&& words@ == reason@
            &&& final(session).address is None
        },
{
}

/// A new session has no connection and no request.
pub proof fn law_new_session(token: String, session: UpstreamSession)
    requires
        call_ensures(UpstreamSession::new, (token,), session),
    ensures
        session.token@ == token@,
        session.address is None,
        session.stage is Idle,
{
}

/// A running application is connected to at its address, one that is starting is waited for, and
/// any other cannot be reached; nor can one that does not exist or without an address.
pub proof fn law_address_of_an_application(
    found: Result<Option<Model>, DbError>,
    res: Result<Resolution, Error>,
)
    requires
        call_ensures(resolve_upstream_address, (found,), res),
    ensures
        match found {
            Err(reason) => res matches Err(Error::Database(words)) && words@ == reason.0@,
            Ok(None) => res matches Err(Error::ApplicationNotFound),
            Ok(Some(app)) => match app.state {
                State::RUNNING => match app.address {
                    Some(address) => res matches Ok(Resolution::Address(found)) && found@
                        == address@,
                    None => res matches Err(Error::MissingApplicationAddress),
                },
                State::LAUNCHING => res matches Ok(Resolution::Wait),
                State::FINISHED => res matches Err(Error::InvalidApplicationState(State::FINISHED)),
                State::FAILED => res matches Err(Error::InvalidApplicationState(State::FAILED)),
            },
        },
{
}

/// The application is looked for by its token alone, while somebody waits for it.
pub proof fn law_application_is_looked_for(
    closed: bool,
    token: &str,
    res: Result<Filter, Error>,
    query: Option<Filter>,
    row: ModelView,
)
    requires
        call_ensures(resolve_query, (closed, token), res),
        call_ensures(address_query, (closed, token), query),
    ensures
        res is Ok <==> !closed,
        query is Some <==> !closed,
        res matches Ok(filter) ==> (filter@.selects(row) <==> row.token == token@),
        query matches Some(filter) ==> (filter@.selects(row) <==> row.token == token@),
        res matches Err(e) ==> e is ApplicationNotFound,
{
}

/// An application that is marked as failed has no address; no other is touched.
pub proof fn law_application_is_marked_as_failed(token: &str, update: Update, row: ModelView)
    requires
        call_ensures(mark_application_failed, (token,), update),
    ensures
        update.filter@.selects(row) <==> row.token == token@,
        update.changes@.applied(row) == (ModelView { state: State::FAILED, address: None, ..row }),
{
}

/// A connection is tried four times in all, to the same address, while it fails in a way that may
/// pass; then the application is marked as failed, and the last error is the answer.
pub proof fn law_connection_attempts(
    attempts: ConnectAttempts,
    token: &str,
    result: Result<(), Error>,
    step: ConnectStep,
    row: ModelView,
)
    requires
        call_ensures(ConnectAttempts::attempted, (attempts, token, result), step),
        attempts.attempt <= 3,
    ensures
        result is Ok ==> (step matches ConnectStep::Connected(address) && address@
            == attempts.address@),
        result matches Err(e) ==> if e is UpstreamConnect || e is UpstreamHandshake {
            if attempts.attempt < 3 {
                &&& step matches ConnectStep::Retry(next)
                &&& next.address@ == attempts.address@
                &&& next.attempt == attempts.attempt + 1
            } else {
                &&& step matches ConnectStep::GiveUp { update, error }
                &&& error == e
                &&& update.filter@.selects(row) <==> row.token == token@
                &&& update.changes@.applied(row) == (ModelView {
                    state: State::FAILED,
                    address: None,
                    ..row
                })
            }
        } else {
            step matches ConnectStep::Failed(error) && error == e
        },
{
}

/// The first attempt is made at the address that was found.
pub proof fn law_first_attempt(address: String, attempts: ConnectAttempts)
    requires
        call_ensures(ConnectAttempts::start, (address,), attempts),
    ensures
        attempts.address@ == address@,
        attempts.attempt == 0,
{
}

/// An application that is starting is asked for every second, and a connection that failed is tried
/// again after one.
pub proof fn law_waiting_times()
    ensures
        crate::proxy::RESOLVE_DELAY_SECONDS == 1,
        crate::proxy::UPSTREAM_CONNECT_RETRY_DELAY_SECONDS == 1,
        crate::client::ATTEMPT_DELAY_SECONDS == 1,
{
}

/// A connection that was given up is answered with its last error, or with that of the store where
/// the store could not be told.
pub proof fn law_given_up(error: Error, marked: Result<(), DbError>, res: Error)
    requires
        call_ensures(given_up, (error, marked), res),
    ensures
        marked is Ok ==> res == error,
        marked matches Err(reason) ==> res matches Error::Database(words) && words@ == reason.0@,
{
}

/// What the application replies is what the caller gets; where it fails, the caller is told why.
pub proof fn law_replies_are_passed_on<R>(
    response: Result<R, String>,
    answer: Result<R, Error>,
    reply: Option<Result<R, Error>>,
    got: Result<R, Error>,
)
    requires
        call_ensures(responded::<R>, (response,), answer),
        call_ensures(received::<R>, (reply,), got),
    ensures
        response matches Ok(r) ==> answer == Ok::<R, Error>(r),
        response matches Err(reason) ==> answer matches Err(Error::UpstreamRequest(words)) && words@
            == reason@,
        reply matches Some(r) ==> got == r,
        reply is None ==> (got matches Err(Error::Internal(words)) && words@
            == "Upstream response channel unexpectedly closed"@),
{
}

/// Messages to sessions are calls at the session's address, with its token and under the header
/// that it listens to.
pub proof fn law_session_messages(
    address: &str,
    token: &str,
    text: &str,
    message: SessionMessage,
    other: SessionMessage,
)
    requires
        call_ensures(session_message, (address, token, text), message),
        call_ensures(crate::connection::session_message, (address, token, text), other),
    ensures
        message.url@ == "http://"@ + address@ + "/spark.connect.SparkConnectService/Config"@,
        message.token@ == token@,
        header_views(message.headers@) == seq![
            ("X-Spark-Plug"@, text@),
            ("Content-Type"@, "application/grpc"@),
            ("TE"@, "trailers"@),
        ],
        message.no_proxy,
        other.url@ == message.url@,
        other.token@ == token@,
        header_views(other.headers@) == seq![
            ("X-Connect-Proxy"@, text@),
            ("Content-Type"@, "application/grpc"@),
            ("TE"@, "trailers"@),
        ],
        !other.no_proxy,
{
}

/// A log shows at most the first eight bytes of a token, where it can be cut there.
pub proof fn law_token_prefix(token: &str, res: &str)
    requires
        call_ensures(token_prefix, (token,), res),
    ensures
        is_char_boundary(encode_utf8(token@), 8) && encode_utf8(token@).len() >= 8 ==> encode_utf8(
            res@,
        ) == encode_utf8(token@).subrange(0, 8),
        !is_char_boundary(encode_utf8(token@), 8) ==> res@ == token@,
{
    if encode_utf8(token@).len() >= 8 {
        assert(encode_utf8(token@).subrange(0, 8) =~= encode_utf8(token@).take(8));
    }
}

/// The first request of a connection decides where all of its requests go: to the application of
/// the token in it. Later requests are sent on as they are.
pub proof fn law_first_request_opens_the_way(
    dispatch: &mut ConnectionDispatch,
    headers: &HeaderMap,
    step: DispatchStep,
)
    requires
        call_ensures(ConnectionDispatch::dispatch, (dispatch, headers), step),
    ensures
        old(dispatch).opened ==> step is Send && final(dispatch).opened,
        !old(dispatch).opened ==> match step {
            DispatchStep::Open(token) => {
                &&& final(dispatch).opened
                &&& offers(header_read(*headers, "authorization"@), token@)
            },
            DispatchStep::Unreadable => {
                &&& !final(dispatch).opened
                &&& header_read(*headers, "authorization"@) is Unreadable
            },
            DispatchStep::Reply(status) => {
                &&& !final(dispatch).opened
                &&& status == StatusCode::BadRequest
                &&& header_read(*headers, "authorization"@) !is Unreadable
                &&& forall|token: Seq<char>|
                    !#[trigger] offers(header_read(*headers, "authorization"@), token)
            },
            DispatchStep::Send => false,
        },
{
    reveal_strlit("Bearer");
    assert(!"Bearer"@.contains(' '));
    let header = header_read(*headers, "authorization"@);
    if let HeaderReadView::Text(text) = header {
        law_cut_once(text, ' ');
        if step is Reply && !old(dispatch).opened {
            assert forall|token: Seq<char>| !#[trigger] offers(header, token) by {
                if offers(header, token) {
                    law_cut_is_unique("Bearer"@, ' ', token);
                }
            }
        }
    }
}

/// A connection has no way to an application before its first request.
pub proof fn law_new_connection(dispatch: ConnectionDispatch)
    requires
        call_ensures(ConnectionDispatch::new, (), dispatch),
    ensures
        !dispatch.opened,
{
}

/// Where the way to an application has ended, the caller is told that there is none.
pub proof fn law_ended_way<R>(
    taken: bool,
    status: Option<StatusCode>,
    reply: Option<R>,
    answer: Result<R, StatusCode>,
)
    requires
        call_ensures(delivered, (taken,), status),
        call_ensures(answered::<R>, (reply,), answer),
    ensures
        status == (if taken {
            None::<StatusCode>
        } else {
            Some(StatusCode::NotFound)
        }),
        reply matches Some(r) ==> answer == Ok::<R, StatusCode>(r),
        reply is None ==> answer == Err::<R, StatusCode>(StatusCode::NotFound),
{
}

/// The way to a running application leads to its address. One that is starting is waited for, and
/// there is no way to any other.
pub proof fn law_way_to_an_application(found: Result<Option<Model>, DbError>, step: AddressStep)
    requires
        call_ensures(find_address, (found,), step),
    ensures
        match found {
            Ok(Some(app)) => match app.state {
                State::RUNNING => step matches AddressStep::Connect(address) && Some(address@)
                    == opt_view(app.address),
                State::LAUNCHING => step is Wait,
                State::FINISHED => step is Stop,
                State::FAILED => step is Stop,
            },
            Ok(None) => step is Stop,
            Err(_) => step is Stop,
        },
{
}

/// Whether a connection is found open.
pub open spec fn is_open<S, F: Fn(&S) -> bool>(is_closed: F, sender: S) -> bool {
    forall|closed: bool| #[trigger] call_ensures(is_closed, (&sender,), closed) ==> !closed
}

/// Whether a connection is found closed.
pub open spec fn is_shut<S, F: Fn(&S) -> bool>(is_closed: F, sender: S) -> bool {
    forall|closed: bool| #[trigger] call_ensures(is_closed, (&sender,), closed) ==> closed
}

/// A new cache holds no connection.
pub proof fn law_new_cache<S: Clone>(cache: UpstreamConnectionCache<S>, token: Seq<char>)
    requires
        call_ensures(UpstreamConnectionCache::<S>::new, (), cache),
    ensures
        !cache.connections@.contains_key(token),
{
}

/// The connection of a token is shared while it is open: a look for it gives the one that is held,
/// and none where none is held or the one that is held is closed.
pub proof fn law_open_connection_is_found<S: Clone, F: Fn(&S) -> bool>(
    cache: UpstreamConnectionCache<S>,
    token: &str,
    is_closed: F,
    res: Option<S>,
)
    requires
        call_ensures(UpstreamConnectionCache::<S>::live::<F>, (&cache, token, &is_closed), res),
    ensures
        ({
            let held = cache.connections@;
            &&& !held.contains_key(token@) ==> res is None
            &&& held.contains_key(token@) && is_open(is_closed, held[token@]) ==> (res matches Some(
                sender,
            ) && cloned(held[token@], sender))
            &&& held.contains_key(token@) && is_shut(is_closed, held[token@]) ==> res is None
        }),
{
}

/// A connection is opened only for a token that an application has, and only where none is open.
/// It is then the connection of the token, and the connections of other tokens stay.
pub proof fn law_connections_are_opened_once<S: Clone, F: Fn(&S) -> bool>(
    cache: &mut UpstreamConnectionCache<S>,
    token: &str,
    exists: Result<bool, DbError>,
    is_closed: F,
    fresh: S,
    res: Result<Opened<S>, Error>,
    other: Seq<char>,
)
    requires
        call_ensures(
            UpstreamConnectionCache::<S>::open::<F>,
            (cache, token, exists, &is_closed, fresh),
            res,
        ),
        other != token@,
    ensures
        ({
            let before = old(cache).connections@;
            let after = final(cache).connections@;
            &&& after.contains_key(other) <==> before.contains_key(other)
            &&& before.contains_key(other) ==> after[other] == before[other]
            &&& exists matches Err(reason) ==> after == before && (res matches Err(
                Error::Database(words),
            ) && words@ == reason.0@)
            &&& exists == Ok::<bool, DbError>(false) ==> after == before && (res matches Err(
                Error::ApplicationNotFound,
            ))
            &&& exists == Ok::<bool, DbError>(true) ==> {
                &&& before.contains_key(token@) && is_open(is_closed, before[token@]) ==> {
                    &&& res matches Ok(Opened::Shared(sender)) && cloned(before[token@], sender)
                    &&& after == before
                }
                &&& !before.contains_key(token@) || is_shut(is_closed, before[token@]) ==> {
                    &&& res matches Ok(Opened::Fresh(sender)) && sender == fresh
                    &&& after.contains_key(token@) && cloned(fresh, after[token@])
                }
            }
        }),
{
    let before = old(cache).connections@;
    let after = final(cache).connections@;
    if after.remove(token@) == before.remove(token@) {
        assert(after.remove(token@).contains_key(other) == after.contains_key(other));
        assert(before.remove(token@).contains_key(other) == before.contains_key(other));
        if before.contains_key(other) {
            assert(after.remove(token@)[other] == after[other]);
            assert(before.remove(token@)[other] == before[other]);
        }
    }
}

/// A connection that is closed is dropped, one that is open stays, and so do those of all other
/// tokens.
pub proof fn law_closed_connections_are_dropped<S: Clone, F: Fn(&S) -> bool>(
    cache: &mut UpstreamConnectionCache<S>,
    token: &str,
    is_closed: F,
)
    requires
        call_ensures(
            UpstreamConnectionCache::<S>::remove_closed::<F>,
            (cache, token, &is_closed),
            (),
        ),
    ensures
        ({
            let before = old(cache).connections@;
            let after = final(cache).connections@;
            &&& before.contains_key(token@) && is_open(is_closed, before[token@]) ==> after == before
            &&& before.contains_key(token@) && is_shut(is_closed, before[token@]) ==> after
                == before.remove(token@)
            &&& !before.contains_key(token@) ==> after == before
        }),
{
}

/// A connection that is invalidated is dropped, open or not, and no other is.
pub proof fn law_invalidated_connections_are_dropped<S: Clone>(
    cache: &mut UpstreamConnectionCache<S>,
    token: &str,
    res: bool,
)
    requires
        call_ensures(UpstreamConnectionCache::<S>::invalidate, (cache, token), res),
    ensures
        final(cache).connections@ == old(cache).connections@.remove(token@),
        res <==> old(cache).connections@.contains_key(token@),
{
}

/// A request that its connection did not take fails, and a closed connection is dropped then.
pub proof fn law_request_that_was_not_taken<S: Clone, F: Fn(&S) -> bool>(
    cache: &mut UpstreamConnectionCache<S>,
    token: &str,
    taken: bool,
    is_closed: F,
    res: Result<(), Error>,
)
    requires
        call_ensures(
            UpstreamConnectionCache::<S>::sent::<F>,
            (cache, token, taken, &is_closed),
            res,
        ),
    ensures
        ({
            let before = old(cache).connections@;
            let after = final(cache).connections@;
            &&& taken ==> res is Ok && after == before
            &&& !taken ==> {
                &&& res matches Err(Error::Internal(words)) && words@
                    == "Upstream unexpectedly closed"@
                &&& before.contains_key(token@) && is_shut(is_closed, before[token@]) ==> after
                    == before.remove(token@)
                &&& before.contains_key(token@) && is_open(is_closed, before[token@]) ==> after
                    == before
            }
        }),
{
}

} // verus!
