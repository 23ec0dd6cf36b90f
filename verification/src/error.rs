//! What can go wrong while a request is proxied.
use crate::application::State;
use crate::text::concat2;
use vstd::prelude::*;

verus! {

/// Why a request is not answered by its application.
#[derive(Debug)]
pub enum Error {
    Authorization(String),
    MissingAuthorizationHeader,
    InvalidAuthorizationHeader(String),
    InvalidAuthorizationScheme,
    /// The request's token is not the one of its connection.
    InvalidAuthorizationToken,
    ApplicationNotFound,
    MissingApplicationAddress,
    InvalidApplicationState(State),
    Database(String),
    UpstreamConnect(String),
    UpstreamHandshake(String),
    InvalidUpstreamUri(String),
    UpstreamRequest(String),
    Internal(String),
}

/// What an `Error` says.
pub enum ErrorView {
    Authorization(Seq<char>),
    MissingAuthorizationHeader,
    InvalidAuthorizationHeader(Seq<char>),
    InvalidAuthorizationScheme,
    InvalidAuthorizationToken,
    ApplicationNotFound,
    MissingApplicationAddress,
    InvalidApplicationState(State),
    Database(Seq<char>),
    UpstreamConnect(Seq<char>),
    UpstreamHandshake(Seq<char>),
    InvalidUpstreamUri(Seq<char>),
    UpstreamRequest(Seq<char>),
    Internal(Seq<char>),
}

impl View for Error {
    type V = ErrorView;

    open spec fn view(&self) -> ErrorView {
        match self {
            Error::Authorization(reason) => ErrorView::Authorization(reason@),
            Error::MissingAuthorizationHeader => ErrorView::MissingAuthorizationHeader,
            Error::InvalidAuthorizationHeader(reason) => ErrorView::InvalidAuthorizationHeader(
                reason@,
            ),
            Error::InvalidAuthorizationScheme => ErrorView::InvalidAuthorizationScheme,
            Error::InvalidAuthorizationToken => ErrorView::InvalidAuthorizationToken,
            Error::ApplicationNotFound => ErrorView::ApplicationNotFound,
            Error::MissingApplicationAddress => ErrorView::MissingApplicationAddress,
            Error::InvalidApplicationState(state) => ErrorView::InvalidApplicationState(*state),
            Error::Database(reason) => ErrorView::Database(reason@),
            Error::UpstreamConnect(reason) => ErrorView::UpstreamConnect(reason@),
            Error::UpstreamHandshake(reason) => ErrorView::UpstreamHandshake(reason@),
            Error::InvalidUpstreamUri(reason) => ErrorView::InvalidUpstreamUri(reason@),
            Error::UpstreamRequest(reason) => ErrorView::UpstreamRequest(reason@),
            Error::Internal(reason) => ErrorView::Internal(reason@),
        }
    }
}

impl ErrorView {
    /// The error in words.
    pub open spec fn message(self) -> Seq<char> {
        match self {
            ErrorView::Authorization(reason) => "authorization error: "@ + reason,
            ErrorView::MissingAuthorizationHeader => "missing authorization header"@,
            ErrorView::InvalidAuthorizationHeader(reason) => "invalid authorization header: "@
                + reason,
            ErrorView::InvalidAuthorizationScheme => "unsupported authorization scheme"@,
            ErrorView::InvalidAuthorizationToken => "invalid authorization token"@,
            ErrorView::ApplicationNotFound => "application not found for provided token"@,
            ErrorView::MissingApplicationAddress => "application has no upstream address"@,
            ErrorView::InvalidApplicationState(state) =>
                "application is not ready for proxying: "@ + state.name(),
            ErrorView::Database(reason) => "database error: "@ + reason,
            ErrorView::UpstreamConnect(reason) => "failed to connect to upstream: "@ + reason,
            ErrorView::UpstreamHandshake(reason) =>
                "failed to establish upstream HTTP/2 session: "@ + reason,
            ErrorView::InvalidUpstreamUri(reason) => "invalid upstream URI: "@ + reason,
            ErrorView::UpstreamRequest(reason) => "upstream request failed: "@ + reason,
            ErrorView::Internal(reason) => "internal error: "@ + reason,
        }
    }
}

impl Error {
    /// The error in words.
    pub fn message(&self) -> (res: String)
        ensures
            res@ == self@.message(),
    {
        match self {
            Error::Authorization(reason) => concat2("authorization error: ", reason.as_str()),
            Error::MissingAuthorizationHeader => "missing authorization header".to_owned(),
            Error::InvalidAuthorizationHeader(reason) => concat2(
                "invalid authorization header: ",
                reason.as_str(),
            ),
            Error::InvalidAuthorizationScheme => "unsupported authorization scheme".to_owned(),
            Error::InvalidAuthorizationToken => "invalid authorization token".to_owned(),
            Error::ApplicationNotFound => "application not found for provided token".to_owned(),
            Error::MissingApplicationAddress => "application has no upstream address".to_owned(),
            Error::InvalidApplicationState(state) => concat2(
                "application is not ready for proxying: ",
                state.to_value(),
            ),
            Error::Database(reason) => concat2("database error: ", reason.as_str()),
            Error::UpstreamConnect(reason) => concat2(
                "failed to connect to upstream: ",
                reason.as_str(),
            ),
            Error::UpstreamHandshake(reason) => concat2(
                "failed to establish upstream HTTP/2 session: ",
                reason.as_str(),
            ),
            Error::InvalidUpstreamUri(reason) => concat2(
                "invalid upstream URI: ",
                reason.as_str(),
            ),
            Error::UpstreamRequest(reason) => concat2(
                "upstream request failed: ",
                reason.as_str(),
            ),
            Error::Internal(reason) => concat2("internal error: ", reason.as_str()),
        }
    }
}

} // verus!
