//! The three kinds of failure, and the values that carry them.

use vstd::prelude::*;

verus! {

/// The kinds of failure that processing an account can end in.
#[derive(Debug, Clone, Copy, PartialEq, Eq, Structural)]
pub enum ErrorKind {
    /// The settings are incomplete for a connection attempt.
    Configuration,
    /// The mail session failed: while dialling, logging in, selecting,
    /// fetching or logging out.
    Protocol,
    /// Bytes were no UTF-8. Part of the taxonomy; rendering never raises it.
    Encoding,
}

/// What a failure of the mail session holds.
pub enum ImapFailureView {
    No(Seq<char>),
    Other(Seq<char>),
}

/// A failure of the mail session.
#[derive(Debug, Clone, PartialEq, Eq)]
pub enum ImapFailure {
    /// The server rejected a command outright: its negative response, with
    /// the server's words.
    No(String),
    /// Any other failure of the session, with its description.
    Other(String),
}

impl View for ImapFailure {
    type V = ImapFailureView;

    open spec fn view(&self) -> ImapFailureView {
        match self {
            ImapFailure::No(words) => ImapFailureView::No(words@),
            ImapFailure::Other(description) => ImapFailureView::Other(description@),
        }
    }
}

/// What a failure of an account holds.
pub enum ConnectionErrorView {
    ConfigError(Seq<char>),
    ImapError(ImapFailureView),
    EncodingError(Seq<char>),
}

impl ConnectionErrorView {
    /// The kind of the failure.
    pub open spec fn kind(self) -> ErrorKind {
        match self {
            ConnectionErrorView::ConfigError(_) => ErrorKind::Configuration,
            ConnectionErrorView::ImapError(_) => ErrorKind::Protocol,
            ConnectionErrorView::EncodingError(_) => ErrorKind::Encoding,
        }
    }

    /// Whether the failure is a negative response of the server, the one
    /// failure of an account that ends the whole run.
    pub open spec fn is_negative_response(self) -> bool {
        self matches ConnectionErrorView::ImapError(ImapFailureView::No(_))
    }
}

/// Why an account could not be processed.
#[derive(Debug, Clone, PartialEq, Eq)]
pub enum ConnectionError {
    /// Error in the configuration, with a message that names the account.
    ConfigError(String),
    /// Error from the mail session.
    ImapError(ImapFailure),
    /// UTF-8 encoding error, with its description.
    EncodingError(String),
}

impl View for ConnectionError {
    type V = ConnectionErrorView;

    open spec fn view(&self) -> ConnectionErrorView {
        match self {
            ConnectionError::ConfigError(message) => ConnectionErrorView::ConfigError(message@),
            ConnectionError::ImapError(failure) => ConnectionErrorView::ImapError(failure@),
            ConnectionError::EncodingError(description) => ConnectionErrorView::EncodingError(
                description@,
            ),
        }
    }
}

impl From<ImapFailure> for ConnectionError {
    /// A failure of the mail session as the failure of an account.
    fn from(failure: ImapFailure) -> (error: ConnectionError) {
        ConnectionError::ImapError(failure)
    }
}

impl vstd::std_specs::convert::FromSpecImpl<ImapFailure> for ConnectionError {
    open spec fn obeys_from_spec() -> bool {
        true
    }

    open spec fn from_spec(failure: ImapFailure) -> ConnectionError {
        ConnectionError::ImapError(failure)
    }
}

impl ConnectionError {
    /// The kind of the failure.
    pub fn kind(&self) -> (kind: ErrorKind)
        ensures
            kind == self@.kind(),
    {
        match self {
            ConnectionError::ConfigError(_) => ErrorKind::Configuration,
            ConnectionError::ImapError(_) => ErrorKind::Protocol,
            ConnectionError::EncodingError(_) => ErrorKind::Encoding,
        }
    }

    /// Whether the failure is a negative response of the server.
    pub fn is_negative_response(&self) -> (negative: bool)
        ensures
            negative == self@.is_negative_response(),
            negative ==> self@.kind() == ErrorKind::Protocol,
    {
        match self {
            ConnectionError::ImapError(ImapFailure::No(_)) => true,
            _ => false,
        }
    }
}

} // verus!
