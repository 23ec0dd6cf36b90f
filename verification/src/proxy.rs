//! Proxying requests to the applications that their tokens identify: which connection a
//! request goes to, how a connection is opened, and what a caller is told where it fails.
use crate::application::{
    any_row, ended, found_view, Changes, DbError, Filter, FilterView, Model, ModelView, State,
    Update,
};
use crate::error::{Error, ErrorView};
use crate::headers::{header_read, read_header, HeaderRead, HeaderReadView, AUTHORIZATION};
use crate::text::{
    concat3, cut_once, equals, lemma_cut_at, opt_view, split_once, starts_with, str_view,
};
use crate::text_map::TextMap;
use crate::trusted::web::{parse_uri, read_uri};
use http::header::HeaderMap;
use vstd::prelude::*;
use vstd::utf8::{encode_utf8, is_char_boundary};

verus! {

/// Where requests for applications begin.
pub const CONNECT_PATH: &'static str = "/spark.connect.SparkConnectService";

/// Whether a request for the given path is for an application.
pub fn is_connect_path(path: &str) -> (res: bool)
    ensures
        res == CONNECT_PATH@.is_prefix_of(path@),
{
    starts_with(path, CONNECT_PATH)
}

/// The token in an authorization header of the scheme `Bearer`.
pub open spec fn bearer_token(header: HeaderReadView) -> Result<Seq<char>, ErrorView> {
    match header {
        HeaderReadView::Absent => Err(ErrorView::MissingAuthorizationHeader),
        HeaderReadView::Unreadable(reason) => Err(ErrorView::InvalidAuthorizationHeader(reason)),
        HeaderReadView::Text(text) => match cut_once(text, ' ') {
            None => Err(ErrorView::InvalidAuthorizationHeader("expected `Bearer <token>`"@)),
            Some((scheme, token)) => if scheme != "Bearer"@ {
                Err(ErrorView::InvalidAuthorizationScheme)
            } else if token.len() == 0 {
                Err(ErrorView::InvalidAuthorizationHeader("missing bearer token"@))
            } else {
                Ok(token)
            },
        },
    }
}

/// The token in an authorization header that was read.
pub fn parse_authorization(header: HeaderRead) -> (res: Result<String, Error>)
    ensures
        match res {
            Ok(token) => bearer_token(header@) == Ok::<Seq<char>, ErrorView>(token@),
            Err(e) => bearer_token(header@) == Err::<Seq<char>, ErrorView>(e@),
        },
{
    match header {
        HeaderRead::Absent => Err(Error::MissingAuthorizationHeader),
        HeaderRead::Unreadable(reason) => Err(Error::InvalidAuthorizationHeader(reason)),
        HeaderRead::Text(text) => match split_once(text, ' ') {
            None => Err(
                Error::InvalidAuthorizationHeader("expected `Bearer <token>`".to_owned()),
            ),
            Some((scheme, token)) => {
                if !equals(scheme.as_str(), "Bearer") {
                    Err(Error::InvalidAuthorizationScheme)
                } else if token.as_str().is_empty() {
                    Err(Error::InvalidAuthorizationHeader("missing bearer token".to_owned()))
                } else {
                    Ok(token)
                }
            },
        },
    }
}

/// The bearer token of a request.
pub fn extract_bearer_token(headers: &HeaderMap) -> (res: Result<String, Error>)
    ensures
        match res {
            Ok(token) => bearer_token(header_read(*headers, AUTHORIZATION@)) == Ok::<
                Seq<char>,
                ErrorView,
            >(token@),
            Err(e) => bearer_token(header_read(*headers, AUTHORIZATION@)) == Err::<
                Seq<char>,
                ErrorView,
            >(e@),
        },
{
    parse_authorization(read_header(headers, AUTHORIZATION))
}

/// A token in an authorization header of the scheme `Bearer` is read back, whatever it holds,
/// unless it is empty.
pub proof fn law_bearer_token_reads_back(token: Seq<char>)
    ensures
        bearer_token(HeaderReadView::Text("Bearer"@ + seq![' '] + token)) == (if token.len() == 0 {
            Err(ErrorView::InvalidAuthorizationHeader("missing bearer token"@))
        } else {
            Ok(token)
        }),
{
    reveal_strlit("Bearer");
    assert(!"Bearer"@.contains(' '));
    lemma_cut_at("Bearer"@, ' ', token);
}

/// The first eight bytes of a token, or all of it where it cannot be cut there: enough to tell
/// tokens apart in a log without giving them away.
pub fn token_prefix(token: &str) -> (res: &str)
    ensures
        is_char_boundary(encode_utf8(token@), 8) ==> encode_utf8(res@) == encode_utf8(
            token@,
        ).take(8),
        !is_char_boundary(encode_utf8(token@), 8) ==> res@ == token@,
{
    if token.is_char_boundary(8) {
        let (prefix, _) = token.split_at(8);
        assert(encode_utf8(token@).subrange(0, 8) =~= encode_utf8(token@).take(8));
        prefix
    } else {
        token
    }
}

/// Connections to applications by token. Each is opened once and shared by all requests with
/// its token.
///
/// `S` is what sends requests to a connection. Whether one is closed is for the caller to
/// tell, by the function `is_closed`.
pub struct UpstreamConnectionCache<S> {
    pub connections: TextMap<S>,
}

/// What a request is sent with.
pub enum Opened<S> {
    /// A connection that was open already.
    Shared(S),
    /// The new connection, which is in the cache now and has to be served.
    Fresh(S),
}

/// Whether `after` holds `fresh` for the token, and otherwise what `before` holds.
pub open spec fn holds_fresh<S: Clone>(
    before: Map<Seq<char>, S>,
    after: Map<Seq<char>, S>,
    token: Seq<char>,
    fresh: S,
) -> bool {
    &&& after.contains_key(token)
    &&& cloned(fresh, after[token])
    &&& after.remove(token) == before.remove(token)
}

/// Whether `after` is `before` without the token's connection, if it is closed, and `before`
/// itself otherwise.
pub open spec fn dropped_if_closed<S, F: Fn(&S) -> bool>(
    before: Map<Seq<char>, S>,
    after: Map<Seq<char>, S>,
    token: Seq<char>,
    is_closed: F,
) -> bool {
    ||| {
        &&& before.contains_key(token)
        &&& call_ensures(is_closed, (&before[token],), true)
        &&& after == before.remove(token)
    }
    ||| {
        &&& before.contains_key(token) ==> call_ensures(is_closed, (&before[token],), false)
        &&& after == before
    }
}

/// Tokens do not share connections: opening one for a token changes nothing for other tokens,
/// and dropping it again leaves what was held for them.
pub proof fn law_tokens_have_their_own_connections<S: Clone>(
    before: Map<Seq<char>, S>,
    after: Map<Seq<char>, S>,
    token: Seq<char>,
    fresh: S,
    other: Seq<char>,
)
    requires
        holds_fresh(before, after, token, fresh),
        other != token,
    ensures
        after.contains_key(other) == before.contains_key(other),
        before.contains_key(other) ==> after[other] == before[other],
        !before.contains_key(token) ==> after.remove(token) == before,
{
    assert(after.remove(token).contains_key(other) == after.contains_key(other));
    assert(before.remove(token).contains_key(other) == before.contains_key(other));
    if before.contains_key(other) {
        assert(after.remove(token)[other] == after[other]);
        assert(before.remove(token)[other] == before[other]);
    }
    if !before.contains_key(token) {
        assert(before.remove(token) =~= before);
    }
}

impl<S: Clone> UpstreamConnectionCache<S> {
    /// A cache without connections.
    pub fn new() -> (res: UpstreamConnectionCache<S>)
        ensures
            res.connections@ == Map::<Seq<char>, S>::empty(),
    {
        UpstreamConnectionCache { connections: TextMap::new() }
    }

    /// The open connection for the token, if there is one.
    pub fn live<F: Fn(&S) -> bool>(&self, token: &str, is_closed: &F) -> (res: Option<S>)
        requires
            forall|sender: &S| #[trigger] call_requires(*is_closed, (sender,)),
        ensures
            match res {
                Some(sender) => {
                    &&& self.connections@.contains_key(token@)
                    &&& cloned(self.connections@[token@], sender)
                    &&& call_ensures(*is_closed, (&self.connections@[token@],), false)
                },
                None => {
                    ||| !self.connections@.contains_key(token@)
                    ||| call_ensures(*is_closed, (&self.connections@[token@],), true)
                },
            },
    {
        match self.connections.get(token) {
            Some(sender) => if is_closed(sender) {
                None
            } else {
                Some(sender.clone())
            },
            None => None,
        }
    }

    /// The connection for the token, once the store has been asked whether an application has
    /// it: the open one, or `fresh`, which is then the token's connection. Only tokens of
    /// applications are held, so that arbitrary tokens do not make the cache grow.
    pub fn open<F: Fn(&S) -> bool>(
        &mut self,
        token: &str,
        exists: Result<bool, DbError>,
        is_closed: &F,
        fresh: S,
    ) -> (res: Result<Opened<S>, Error>)
        requires
            forall|sender: &S| #[trigger] call_requires(*is_closed, (sender,)),
        ensures
            match res {
                Err(e) => {
                    &&& final(self).connections@ == old(self).connections@
                    &&& match exists {
                        Err(reason) => e@ == ErrorView::Database(reason.0@),
                        Ok(found) => !found && e@ == ErrorView::ApplicationNotFound,
                    }
                },
                Ok(Opened::Shared(sender)) => {
                    &&& exists == Ok::<bool, DbError>(true)
                    &&& final(self).connections@ == old(self).connections@
                    &&& old(self).connections@.contains_key(token@)
                    &&& cloned(old(self).connections@[token@], sender)
                    &&& call_ensures(*is_closed, (&old(self).connections@[token@],), false)
                },
                Ok(Opened::Fresh(sender)) => {
                    &&& exists == Ok::<bool, DbError>(true)
                    &&& sender == fresh
                    &&& old(self).connections@.contains_key(token@) ==> call_ensures(
                        *is_closed,
                        (&old(self).connections@[token@],),
                        true,
                    )
                    &&& holds_fresh(
                        old(self).connections@,
                        final(self).connections@,
                        token@,
                        fresh,
                    )
                },
            },
    {
        match exists {
            Err(reason) => Err(Error::Database(reason.0)),
            Ok(found) => {
                if !found {
                    return Err(Error::ApplicationNotFound);
                }
                if let Some(sender) = self.live(token, is_closed) {
                    return Ok(Opened::Shared(sender));
                }
                let held = fresh.clone();
                self.connections.insert(token.to_owned(), held);
                assert(self.connections@.remove(token@) =~= old(self).connections@.remove(token@));
                Ok(Opened::Fresh(fresh))
            },
        }
    }

    /// Drops the token's connection if it is closed.
    pub fn remove_closed<F: Fn(&S) -> bool>(&mut self, token: &str, is_closed: &F)
        requires
            forall|sender: &S| #[trigger] call_requires(*is_closed, (sender,)),
        ensures
            dropped_if_closed(
                old(self).connections@,
                final(self).connections@,
                token@,
                *is_closed,
            ),
    {
        let closed: bool = match self.connections.get(token) {
            Some(sender) => is_closed(sender),
            None => false,
        };
        if closed {
            let _ = self.connections.remove(token);
        }
    }

    /// Drops the token's connection, and says whether there was one.
    pub fn invalidate(&mut self, token: &str) -> (res: bool)
        ensures
            res == old(self).connections@.contains_key(token@),
            final(self).connections@ == old(self).connections@.remove(token@),
    {
        self.connections.remove(token).is_some()
    }

    /// Goes on after a request was handed to the token's connection: where the connection did
    /// not take it, the connection is dropped if it is closed, and the request fails.
    pub fn sent<F: Fn(&S) -> bool>(&mut self, token: &str, taken: bool, is_closed: &F) -> (res:
        Result<(), Error>)
        requires
            forall|sender: &S| #[trigger] call_requires(*is_closed, (sender,)),
        ensures
            match res {
                Ok(()) => taken && final(self).connections@ == old(self).connections@,
                Err(e) => {
                    &&& !taken
                    &&& e@ == ErrorView::Internal("Upstream unexpectedly closed"@)
                    &&& dropped_if_closed(
                        old(self).connections@,
                        final(self).connections@,
                        token@,
                        *is_closed,
                    )
                },
            },
    {
        if taken {
            return Ok(());
        }
        self.remove_closed(token, is_closed);
        Err(Error::Internal("Upstream unexpectedly closed".to_owned()))
    }
}

/// What the caller of a request gets: what came back on the request's own channel, or an error
/// where the channel was closed without a reply.
pub fn received<R>(reply: Option<Result<R, Error>>) -> (res: Result<R, Error>)
    ensures
        match reply {
            Some(result) => res == result,
            None => res matches Err(e) && e@ == ErrorView::Internal(
                "Upstream response channel unexpectedly closed"@,
            ),
        },
{
    match reply {
        Some(result) => result,
        None => Err(
            Error::Internal("Upstream response channel unexpectedly closed".to_owned()),
        ),
    }
}

/// What is known of the address of an application.
pub enum Resolution {
    Address(String),
    /// The application is starting: ask again after `RESOLVE_DELAY_SECONDS`.
    Wait,
}

/// How long to wait for an application that is starting.
pub const RESOLVE_DELAY_SECONDS: u64 = 1;

/// The address of the application that was found, `None` while it is starting.
pub open spec fn resolution(found: Result<Option<ModelView>, Seq<char>>) -> Result<
    Option<Seq<char>>,
    ErrorView,
> {
    match found {
        Err(reason) => Err(ErrorView::Database(reason)),
        Ok(None) => Err(ErrorView::ApplicationNotFound),
        Ok(Some(app)) => match app.state {
            State::RUNNING => match app.address {
                Some(address) => Ok(Some(address)),
                None => Err(ErrorView::MissingApplicationAddress),
            },
            State::LAUNCHING => Ok(None),
            state => Err(ErrorView::InvalidApplicationState(state)),
        },
    }
}

/// What to ask the store for the address of the token's application, unless nobody is waiting
/// for the answer any more.
pub fn resolve_query(receiver_closed: bool, token: &str) -> (res: Result<Filter, Error>)
    ensures
        match res {
            Ok(filter) => !receiver_closed && filter@ == (FilterView {
                token: Some(token@),
                ..any_row()
            }),
            Err(e) => receiver_closed && e@ == ErrorView::ApplicationNotFound,
        },
{
    if receiver_closed {
        Err(Error::ApplicationNotFound)
    } else {
        Ok(Filter::by_token(token.to_owned()))
    }
}

/// What follows from the store's answer.
pub fn resolve_upstream_address(found: Result<Option<Model>, DbError>) -> (res: Result<
    Resolution,
    Error,
>)
    ensures
        match res {
            Ok(Resolution::Address(address)) => resolution(found_view(found)) == Ok::<
                Option<Seq<char>>,
                ErrorView,
            >(Some(address@)),
            Ok(Resolution::Wait) => resolution(found_view(found)) == Ok::<
                Option<Seq<char>>,
                ErrorView,
            >(None),
            Err(e) => resolution(found_view(found)) == Err::<Option<Seq<char>>, ErrorView>(e@),
        },
{
    match found {
        Err(reason) => Err(Error::Database(reason.0)),
        Ok(None) => Err(Error::ApplicationNotFound),
        Ok(Some(app)) => match app.state {
            State::RUNNING => match app.address {
                Some(address) => Ok(Resolution::Address(address)),
                None => Err(Error::MissingApplicationAddress),
            },
            State::LAUNCHING => Ok(Resolution::Wait),
            state => Err(Error::InvalidApplicationState(state)),
        },
    }
}

/// How often a connection is tried again.
pub const MAX_UPSTREAM_CONNECT_RETRIES: usize = 3;

/// How long to wait before a connection is tried again.
pub const UPSTREAM_CONNECT_RETRY_DELAY_SECONDS: u64 = 1;

/// Attempts to connect to an application.
pub struct ConnectAttempts {
    pub address: String,
    /// How many attempts have failed.
    pub attempt: usize,
}

/// What follows from an attempt to connect.
pub enum ConnectStep {
    /// There is a connection to this address.
    Connected(String),
    /// Try again after `UPSTREAM_CONNECT_RETRY_DELAY_SECONDS`.
    Retry(ConnectAttempts),
    /// No attempt is left: make the update, and fail with the error.
    GiveUp { update: Update, error: Error },
    Failed(Error),
}

/// Whether an attempt that failed so may succeed later.
pub open spec fn may_pass(error: ErrorView) -> bool {
    error is UpstreamConnect || error is UpstreamHandshake
}

/// The update that marks the token's application as failed.
pub fn mark_application_failed(token: &str) -> (res: Update)
    ensures
        res.filter@ == (FilterView { token: Some(token@), ..any_row() }),
        res.changes@ == ended(State::FAILED),
{
    Update { filter: Filter::by_token(token.to_owned()), changes: Changes::end(State::FAILED) }
}

impl ConnectAttempts {
    /// How many attempts are left, the current one among them.
    pub open spec fn left(self) -> int {
        MAX_UPSTREAM_CONNECT_RETRIES + 1 - self.attempt
    }

    /// The attempts to connect to the address.
    pub fn start(address: String) -> (res: ConnectAttempts)
        ensures
            res.address == address,
            res.attempt == 0,
            res.left() == 4,
    {
        ConnectAttempts { address, attempt: 0 }
    }

    /// Goes on after an attempt to connect for the given token.
    pub fn attempted(self, token: &str, result: Result<(), Error>) -> (res: ConnectStep)
        requires
            self.left() > 0,
        ensures
            match (result, res) {
                (Ok(_), ConnectStep::Connected(address)) => address == self.address,
                (Err(e), ConnectStep::Retry(next)) => {
                    &&& may_pass(e@)
                    &&& next.address == self.address
                    &&& next.left() == self.left() - 1
                    &&& next.left() > 0
                },
                (Err(e), ConnectStep::GiveUp { update, error }) => {
                    &&& may_pass(e@)
                    &&& self.left() == 1
                    &&& error == e
                    &&& update.filter@ == (FilterView { token: Some(token@), ..any_row() })
                    &&& update.changes@ == ended(State::FAILED)
                },
                (Err(e), ConnectStep::Failed(error)) => !may_pass(e@) && error == e,
                _ => false,
            },
    {
        let error = match result {
            Ok(_) => {
                return ConnectStep::Connected(self.address);
            },
            Err(error) => error,
        };
        match error {
            Error::UpstreamConnect(_) => (),
            Error::UpstreamHandshake(_) => (),
            _ => {
                return ConnectStep::Failed(error);
            },
        }
        if self.attempt < MAX_UPSTREAM_CONNECT_RETRIES {
            ConnectStep::Retry(
                ConnectAttempts { address: self.address, attempt: self.attempt + 1 },
            )
        } else {
            ConnectStep::GiveUp { update: mark_application_failed(token), error }
        }
    }
}

/// The error of a connection that was given up, once the store has been told.
pub fn given_up(error: Error, marked: Result<(), DbError>) -> (res: Error)
    ensures
        match marked {
            Ok(_) => res == error,
            Err(reason) => res@ == ErrorView::Database(reason.0@),
        },
{
    match marked {
        Ok(_) => error,
        Err(reason) => Error::Database(reason.0),
    }
}

/// The address that a request is sent to: its path and query at the application.
pub open spec fn upstream_url(address: Seq<char>, path_and_query: Option<Seq<char>>) -> Seq<char> {
    "http://"@ + address + (match path_and_query {
        Some(path) => path,
        None => "/"@,
    })
}

/// The address that a request is sent to, in text.
pub fn upstream_uri_text(address: &str, path_and_query: Option<&str>) -> (res: String)
    ensures
        res@ == upstream_url(address@, str_view(path_and_query)),
{
    concat3(
        "http://",
        address,
        match path_and_query {
            Some(path) => path,
            None => "/",
        },
    )
}

/// The address that a request is sent to.
pub fn upstream_uri(address: &str, path_and_query: Option<&str>) -> (res: Result<
    http::Uri,
    Error,
>)
    ensures
        match (read_uri(upstream_url(address@, str_view(path_and_query))), res) {
            (Ok(uri), Ok(read)) => read == uri,
            (Err(reason), Err(e)) => e@ == ErrorView::InvalidUpstreamUri(reason),
            _ => false,
        },
{
    match parse_uri(upstream_uri_text(address, path_and_query).as_str()) {
        Ok(uri) => Ok(uri),
        Err(reason) => Err(Error::InvalidUpstreamUri(reason)),
    }
}

/// How far the current request of a session has come.
pub enum SessionStage {
    /// There is none.
    Idle,
    /// A connection is being opened for the request with this path and query.
    Connecting(Option<String>),
    /// The connection is being asked whether it takes the request.
    Readying,
}

/// The connection of one token: it is opened for the first request, and opened again after it
/// broke. Requests are taken one after the other.
pub struct UpstreamSession {
    pub token: String,
    /// Where the connection leads, while there is one.
    pub address: Option<String>,
    pub stage: SessionStage,
}

/// What to do for the current request.
pub enum SessionAction {
    /// Answer it with the error.
    Reply(Error),
    /// Open a connection, and go on with `UpstreamSession::connected`.
    Connect,
    /// Ask the connection whether it takes the request, under this address, and go on with
    /// `UpstreamSession::ready`.
    CheckReady(http::Uri),
    /// Send it on.
    Send,
}

/// What a `SessionStage` says.
pub enum SessionStageView {
    Idle,
    Connecting(Option<Seq<char>>),
    Readying,
}

/// What an `UpstreamSession` holds.
pub struct SessionView {
    pub token: Seq<char>,
    pub address: Option<Seq<char>>,
    pub stage: SessionStageView,
}

/// What a `SessionAction` says.
pub enum SessionActionView {
    Reply(ErrorView),
    Connect,
    CheckReady(http::Uri),
    Send,
}

impl View for SessionStage {
    type V = SessionStageView;

    open spec fn view(&self) -> SessionStageView {
        match self {
            SessionStage::Idle => SessionStageView::Idle,
            SessionStage::Connecting(path) => SessionStageView::Connecting(opt_view(*path)),
            SessionStage::Readying => SessionStageView::Readying,
        }
    }
}

impl View for UpstreamSession {
    type V = SessionView;

    open spec fn view(&self) -> SessionView {
        SessionView {
            token: self.token@,
            address: opt_view(self.address),
            stage: self.stage@,
        }
    }
}

impl View for SessionAction {
    type V = SessionActionView;

    open spec fn view(&self) -> SessionActionView {
        match self {
            SessionAction::Reply(e) => SessionActionView::Reply(e@),
            SessionAction::Connect => SessionActionView::Connect,
            SessionAction::CheckReady(uri) => SessionActionView::CheckReady(*uri),
            SessionAction::Send => SessionActionView::Send,
        }
    }
}

/// What happens to a session.
pub enum SessionEvent {
    /// A request with this authorization, path and query comes in.
    Request(HeaderReadView, Option<Seq<char>>),
    /// A connection to this address was opened, or could not be.
    Connected(Result<Seq<char>, ErrorView>),
    /// The connection takes the request, or why it does not, in words.
    Ready(Result<(), Seq<char>>),
}

/// Whether an action ends the work on a request: it is answered, or sent on.
pub open spec fn ends_request(action: SessionActionView) -> bool {
    action is Reply || action is Send
}

impl SessionView {
    /// The same session, at another stage.
    pub open spec fn at(self, stage: SessionStageView) -> SessionView {
        SessionView { stage, ..self }
    }

    /// The session and the action for a request that goes to the address.
    pub open spec fn forward(self, address: Seq<char>, path: Option<Seq<char>>) -> (
        SessionView,
        SessionActionView,
    ) {
        match read_uri(upstream_url(address, path)) {
            Ok(uri) => (
                self.at(SessionStageView::Readying),
                SessionActionView::CheckReady(uri),
            ),
            Err(reason) => (
                self.at(SessionStageView::Idle),
                SessionActionView::Reply(ErrorView::InvalidUpstreamUri(reason)),
            ),
        }
    }

    /// Whether the session expects the event.
    pub open spec fn expects(self, event: SessionEvent) -> bool {
        match event {
            SessionEvent::Request(_, _) => self.stage is Idle,
            SessionEvent::Connected(_) => self.stage is Connecting,
            SessionEvent::Ready(_) => self.stage is Readying,
        }
    }

    /// The session and the action after an event that it expects.
    pub open spec fn after(self, event: SessionEvent) -> (SessionView, SessionActionView) {
        match event {
            SessionEvent::Request(header, path) => match bearer_token(header) {
                Err(e) => (self, SessionActionView::Reply(e)),
                Ok(token) => if token != self.token {
                    (self, SessionActionView::Reply(ErrorView::InvalidAuthorizationToken))
                } else {
                    match self.address {
                        Some(address) => self.forward(address, path),
                        None => (
                            self.at(SessionStageView::Connecting(path)),
                            SessionActionView::Connect,
                        ),
                    }
                },
            },
            SessionEvent::Connected(result) => match result {
                Ok(address) => SessionView { address: Some(address), ..self }.forward(
                    address,
                    self.stage->Connecting_0,
                ),
                Err(e) => (self.at(SessionStageView::Idle), SessionActionView::Reply(e)),
            },
            SessionEvent::Ready(result) => match result {
                Ok(_) => (self.at(SessionStageView::Idle), SessionActionView::Send),
                Err(reason) => (
                    SessionView { address: None, ..self.at(SessionStageView::Idle) },
                    SessionActionView::Reply(ErrorView::UpstreamRequest(reason)),
                ),
            },
        }
    }
}

/// Every request is answered or sent on exactly once: the session is idle again after the one
/// action that does so, and after no other.
pub proof fn law_requests_end_once(session: SessionView, event: SessionEvent)
    requires
        session.expects(event),
    ensures
        ({
            let (next, action) = session.after(event);
            ends_request(action) <==> next.stage is Idle
        }),
{
}

/// A request reaches the application of a token only if it carries that token: any other is
/// answered at once, and leaves the session as it was.
pub proof fn law_only_own_token_is_forwarded(
    session: SessionView,
    header: HeaderReadView,
    path: Option<Seq<char>>,
)
    requires
        session.stage is Idle,
        bearer_token(header) != Ok::<Seq<char>, ErrorView>(session.token),
    ensures
        ({
            let (next, action) = session.after(SessionEvent::Request(header, path));
            action is Reply && next == session
        }),
{
}

/// A connection that broke is opened again for the next request with the session's token.
pub proof fn law_broken_connection_is_opened_again(
    session: SessionView,
    reason: Seq<char>,
    header: HeaderReadView,
    path: Option<Seq<char>>,
)
    requires
        session.stage is Readying,
        bearer_token(header) == Ok::<Seq<char>, ErrorView>(session.token),
    ensures
        ({
            let broken = session.after(SessionEvent::Ready(Err(reason))).0;
            broken.after(SessionEvent::Request(header, path)).1 is Connect
        }),
{
}

/// A session keeps its token, and a connection that is open stays open until it breaks.
pub proof fn law_open_connection_is_kept(session: SessionView, event: SessionEvent)
    requires
        session.expects(event),
    ensures
        ({
            let next = session.after(event).0;
            &&& next.token == session.token
            &&& session.address is Some && event !is Connected && !(event matches
                SessionEvent::Ready(Err(_))) ==> next.address == session.address
        }),
{
}

impl UpstreamSession {
    /// A session without a connection yet.
    pub fn new(token: String) -> (res: UpstreamSession)
        ensures
            res@ == (SessionView {
                token: token@,
                address: None,
                stage: SessionStageView::Idle,
            }),
    {
        UpstreamSession { token, address: None, stage: SessionStage::Idle }
    }

    /// Takes a request.
    pub fn request(&mut self, headers: &HeaderMap, path_and_query: Option<&str>) -> (res:
        SessionAction)
        requires
            old(self)@.stage is Idle,
        ensures
            (final(self)@, res@) == old(self)@.after(
                SessionEvent::Request(
                    header_read(*headers, AUTHORIZATION@),
                    str_view(path_and_query),
                ),
            ),
    {
        let token = match extract_bearer_token(headers) {
            Err(error) => {
                return SessionAction::Reply(error);
            },
            Ok(token) => token,
        };
        if !equals(token.as_str(), self.token.as_str()) {
            return SessionAction::Reply(Error::InvalidAuthorizationToken);
        }
        match &self.address {
            None => {
                self.stage = SessionStage::Connecting(
                    match path_and_query {
                        Some(path) => Some(path.to_owned()),
                        None => None,
                    },
                );
                SessionAction::Connect
            },
            Some(address) => {
                let uri = upstream_uri(address.as_str(), path_and_query);
                self.checked(uri)
            },
        }
    }

    /// Goes on after a connection was opened, or could not be.
    pub fn connected(&mut self, result: Result<String, Error>) -> (res: SessionAction)
        requires
            old(self)@.stage is Connecting,
        ensures
            (final(self)@, res@) == old(self)@.after(
                SessionEvent::Connected(
                    match result {
                        Ok(address) => Ok(address@),
                        Err(e) => Err(e@),
                    },
                ),
            ),
    {
        let address = match result {
            Ok(address) => address,
            Err(error) => {
                self.stage = SessionStage::Idle;
                return SessionAction::Reply(error);
            },
        };
        let uri = match &self.stage {
            SessionStage::Connecting(Some(path)) => upstream_uri(
                address.as_str(),
                Some(path.as_str()),
            ),
            _ => upstream_uri(address.as_str(), None),
        };
        self.address = Some(address);
        self.checked(uri)
    }

    /// Goes on once the connection has said whether it takes the request. One that does not is
    /// dropped.
    pub fn ready(&mut self, result: Result<(), String>) -> (res: SessionAction)
        requires
            old(self)@.stage is Readying,
        ensures
            (final(self)@, res@) == old(self)@.after(
                SessionEvent::Ready(
                    match result {
                        Ok(done) => Ok(done),
                        Err(reason) => Err(reason@),
                    },
                ),
            ),
    {
        self.stage = SessionStage::Idle;
        match result {
            Ok(_) => SessionAction::Send,
            Err(reason) => {
                self.address = None;
                SessionAction::Reply(Error::UpstreamRequest(reason))
            },
        }
    }

    /// Goes on once the request has an address, or could not be given one.
    fn checked(&mut self, uri: Result<http::Uri, Error>) -> (res: SessionAction)
        ensures
            match uri {
                Ok(uri) => {
                    &&& final(self)@ == old(self)@.at(SessionStageView::Readying)
                    &&& res@ == SessionActionView::CheckReady(uri)
                },
                Err(e) => {
                    &&& final(self)@ == old(self)@.at(SessionStageView::Idle)
                    &&& res@ == SessionActionView::Reply(e@)
                },
            },
    {
        match uri {
            Ok(uri) => {
                self.stage = SessionStage::Readying;
                SessionAction::CheckReady(uri)
            },
            Err(error) => {
                self.stage = SessionStage::Idle;
                SessionAction::Reply(error)
            },
        }
    }
}

/// What the caller is answered once the application has replied, or has not.
pub fn responded<R>(response: Result<R, String>) -> (res: Result<R, Error>)
    ensures
        match response {
            Ok(reply) => res == Ok::<R, Error>(reply),
            Err(reason) => res matches Err(e) && e@ == ErrorView::UpstreamRequest(reason@),
        },
{
    match response {
        Ok(reply) => Ok(reply),
        Err(reason) => Err(Error::UpstreamRequest(reason)),
    }
}

/// A message to a session: a call that the session's own interceptor answers.
pub struct SessionMessage {
    pub url: String,
    pub token: String,
    /// Headers besides the authorization.
    pub headers: Vec<(String, String)>,
    /// Whether proxies that the environment names are passed by.
    pub no_proxy: bool,
}

/// Where messages to the session at an address go.
pub open spec fn session_url(address: Seq<char>) -> Seq<char> {
    "http://"@ + address + "/spark.connect.SparkConnectService/Config"@
}

/// The views of headers.
pub open spec fn header_views(headers: Seq<(String, String)>) -> Seq<(Seq<char>, Seq<char>)> {
    headers.map_values(|h: (String, String)| (h.0@, h.1@))
}

/// The message to the session at the address, under the header that sessions listen to.
pub fn session_message(address: &str, token: &str, message: &str) -> (res: SessionMessage)
    ensures
        res.url@ == session_url(address@),
        res.token@ == token@,
        header_views(res.headers@) == seq![
            ("X-Spark-Plug"@, message@),
            ("Content-Type"@, "application/grpc"@),
            ("TE"@, "trailers"@),
        ],
        res.no_proxy,
{
    SessionMessage {
        url: concat3("http://", address, "/spark.connect.SparkConnectService/Config"),
        token: token.to_owned(),
        headers: message_headers("X-Spark-Plug", message),
        no_proxy: true,
    }
}

/// The headers of a message under the given name.
pub fn message_headers(name: &str, message: &str) -> (res: Vec<(String, String)>)
    ensures
        header_views(res@) == seq![
            (name@, message@),
            ("Content-Type"@, "application/grpc"@),
            ("TE"@, "trailers"@),
        ],
{
    let mut headers: Vec<(String, String)> = Vec::new();
    headers.push((name.to_owned(), message.to_owned()));
    headers.push(("Content-Type".to_owned(), "application/grpc".to_owned()));
    headers.push(("TE".to_owned(), "trailers".to_owned()));
    assert(header_views(headers@) =~= seq![
        (name@, message@),
        ("Content-Type"@, "application/grpc"@),
        ("TE"@, "trailers"@),
    ]);
    headers
}

} // verus!
