//! Proxying by connection: the first request for an application decides where all requests of
//! its connection go.
use crate::application::{
    any_row, found_view, DbError, Filter, FilterView, Model, ModelView, State, StatusCode,
};
use crate::headers::{header_read, read_header, HeaderRead, HeaderReadView, AUTHORIZATION};
use crate::proxy::{header_views, message_headers, session_url, SessionMessage};
use crate::text::{concat3, cut_once, equals, split_once};
use http::header::HeaderMap;
use vstd::prelude::*;

verus! {

/// The token after the scheme `Bearer`, which may be empty.
pub open spec fn scheme_token(text: Seq<char>) -> Option<Seq<char>> {
    match cut_once(text, ' ') {
        Some((scheme, token)) => if scheme == "Bearer"@ {
            Some(token)
        } else {
            None
        },
        None => None,
    }
}

/// The token after the scheme `Bearer`.
pub fn token_of_scheme(text: &str) -> (res: Option<String>)
    ensures
        match res {
            Some(token) => scheme_token(text@) == Some(token@),
            None => scheme_token(text@) is None,
        },
{
    match split_once(text, ' ') {
        Some((scheme, token)) => if equals(scheme.as_str(), "Bearer") {
            Some(token)
        } else {
            None
        },
        None => None,
    }
}

/// The requests of one connection.
pub struct ConnectionDispatch {
    /// Whether the way to an application has been opened.
    pub opened: bool,
}

/// What to do with a request.
pub enum DispatchStep {
    /// Answer it with the status and no body.
    Reply(StatusCode),
    /// The authorization cannot be read as text.
    Unreadable,
    /// Open the way to the application of this token, and send the request on.
    Open(String),
    /// Send the request on.
    Send,
}

/// What to do with a request that has the given authorization.
pub open spec fn dispatched(opened: bool, header: HeaderReadView, step: DispatchStep) -> bool {
    if opened {
        step == DispatchStep::Send
    } else {
        match header {
            HeaderReadView::Absent => step == DispatchStep::Reply(StatusCode::BadRequest),
            HeaderReadView::Unreadable(_) => step == DispatchStep::Unreadable,
            HeaderReadView::Text(text) => match scheme_token(text) {
                Some(token) => step matches DispatchStep::Open(t) && t@ == token,
                None => step == DispatchStep::Reply(StatusCode::BadRequest),
            },
        }
    }
}

impl ConnectionDispatch {
    /// A connection without requests yet.
    pub fn new() -> (res: ConnectionDispatch)
        ensures
            !res.opened,
    {
        ConnectionDispatch { opened: false }
    }

    /// What to do with a request, by its authorization.
    pub fn dispatch_read(&mut self, header: HeaderRead) -> (res: DispatchStep)
        ensures
            dispatched(old(self).opened, header@, res),
            final(self).opened == (old(self).opened || res is Open),
    {
        if self.opened {
            return DispatchStep::Send;
        }
        match header {
            HeaderRead::Absent => DispatchStep::Reply(StatusCode::BadRequest),
            HeaderRead::Unreadable(_) => DispatchStep::Unreadable,
            HeaderRead::Text(text) => match token_of_scheme(text) {
                Some(token) => {
                    self.opened = true;
                    DispatchStep::Open(token)
                },
                None => DispatchStep::Reply(StatusCode::BadRequest),
            },
        }
    }

    /// What to do with a request with the given headers.
    pub fn dispatch(&mut self, headers: &HeaderMap) -> (res: DispatchStep)
        ensures
            dispatched(old(self).opened, header_read(*headers, AUTHORIZATION@), res),
            final(self).opened == (old(self).opened || res is Open),
    {
        self.dispatch_read(read_header(headers, AUTHORIZATION))
    }
}

/// What is replied where the way to the application did not take a request.
pub fn delivered(taken: bool) -> (res: Option<StatusCode>)
    ensures
        res == (if taken {
            None::<StatusCode>
        } else {
            Some(StatusCode::NotFound)
        }),
{
    if taken {
        None
    } else {
        Some(StatusCode::NotFound)
    }
}

/// What the caller is answered: the reply of the application, or that there is none where the
/// way to it ended.
pub fn answered<R>(reply: Option<R>) -> (res: Result<R, StatusCode>)
    ensures
        match reply {
            Some(r) => res == Ok::<R, StatusCode>(r),
            None => res == Err::<R, StatusCode>(StatusCode::NotFound),
        },
{
    match reply {
        Some(r) => Ok(r),
        None => Err(StatusCode::NotFound),
    }
}

/// What to do for the way to an application.
pub enum AddressStep {
    /// Connect to this address.
    Connect(String),
    /// The application is starting: ask again.
    Wait,
    /// There is no way to the application.
    Stop,
}

/// What to ask the store for the application of the token, unless nobody waits for the way to it
/// any more.
pub fn address_query(receiver_closed: bool, token: &str) -> (res: Option<Filter>)
    ensures
        match res {
            Some(filter) => !receiver_closed && filter@ == (FilterView {
                token: Some(token@),
                ..any_row()
            }),
            None => receiver_closed,
        },
{
    if receiver_closed {
        None
    } else {
        Some(Filter::by_token(token.to_owned()))
    }
}

/// What to do once the store has been asked for the application of the token.
pub open spec fn address_step(
    found: Result<Option<ModelView>, Seq<char>>,
    step: AddressStep,
) -> bool {
    match found {
        Ok(Some(app)) => match app.state {
            State::RUNNING => step matches AddressStep::Connect(address) && Some(address@)
                == app.address,
            State::LAUNCHING => step == AddressStep::Wait,
            _ => step == AddressStep::Stop,
        },
        _ => step == AddressStep::Stop,
    }
}

/// What to do once the store has been asked for the application of the token. A running
/// application must have an address.
pub fn find_address(found: Result<Option<Model>, DbError>) -> (res: AddressStep)
    requires
        found matches Ok(Some(app)) ==> app.state == State::RUNNING ==> app.address is Some,
    ensures
        address_step(found_view(found), res),
{
    match found {
        Ok(Some(app)) => match app.state {
            State::RUNNING => match app.address {
                Some(address) => AddressStep::Connect(address),
                None => AddressStep::Stop,
            },
            State::LAUNCHING => AddressStep::Wait,
            _ => AddressStep::Stop,
        },
        _ => AddressStep::Stop,
    }
}

/// Whether the message tells the session of the token, at the address, the given text under the
/// header that connections use.
pub open spec fn tells(
    message: SessionMessage,
    address: Seq<char>,
    token: Seq<char>,
    text: Seq<char>,
) -> bool {
    &&& message.url@ == session_url(address)
    &&& message.token@ == token
    &&& header_views(message.headers@) == seq![
        ("X-Connect-Proxy"@, text),
        ("Content-Type"@, "application/grpc"@),
        ("TE"@, "trailers"@),
    ]
    &&& !message.no_proxy
}

/// The message to the session at the address, under the header that connections use.
pub fn session_message(address: &str, token: &str, message: &str) -> (res: SessionMessage)
    ensures
        tells(res, address@, token@, message@),
{
    SessionMessage {
        url: concat3("http://", address, "/spark.connect.SparkConnectService/Config"),
        token: token.to_owned(),
        headers: message_headers("X-Connect-Proxy", message),
        no_proxy: false,
    }
}

} // verus!
