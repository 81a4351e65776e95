//! The failures that the client reports.

use vstd::prelude::*;

verus! {

/// Every failure of the client is one of these kinds.
#[derive(Debug, Clone)]
pub enum Error {
    /// Authentication failed: the login was rejected, or the answer to it
    /// carried no session token.
    LoginError(String),
    /// The API rejected a call for a reason that has no kind of its own.
    ApiError(String),
    /// The answer was a well-formed envelope, but not of the shape that the
    /// endpoint answers with.
    UnexpectedApiResponse,
    /// The answer was not JSON. Holds the text received and the parser's
    /// message, in this order.
    InvalidResponse(String, String),
    /// A device type for which no record shape is known. Callers skip the
    /// device and go on.
    UnknownDeviceType(u64),
    /// The API, or the HTTP layer, reported too many requests.
    RateExceeded(String),
    /// The connection failed before any HTTP response was obtained.
    TransportError(String),
    /// Rendered output was not valid text.
    FormatError,
    /// The client could not be set up; no remote cause.
    InternalError,
}

/// The mathematical content of an [`Error`].
pub enum ErrorView {
    LoginError(Seq<char>),
    ApiError(Seq<char>),
    UnexpectedApiResponse,
    InvalidResponse(Seq<char>, Seq<char>),
    UnknownDeviceType(u64),
    RateExceeded(Seq<char>),
    TransportError(Seq<char>),
    FormatError,
    InternalError,
}

impl View for Error {
    type V = ErrorView;

    open spec fn view(&self) -> ErrorView {
        match *self {
            Error::LoginError(detail) => ErrorView::LoginError(detail@),
            Error::ApiError(detail) => ErrorView::ApiError(detail@),
            Error::UnexpectedApiResponse => ErrorView::UnexpectedApiResponse,
            Error::InvalidResponse(text, message) => ErrorView::InvalidResponse(text@, message@),
            Error::UnknownDeviceType(code) => ErrorView::UnknownDeviceType(code),
            Error::RateExceeded(detail) => ErrorView::RateExceeded(detail@),
            Error::TransportError(detail) => ErrorView::TransportError(detail@),
            Error::FormatError => ErrorView::FormatError,
            Error::InternalError => ErrorView::InternalError,
        }
    }
}

impl ErrorView {
    /// Failures of the call pipeline end a collection cycle; an unknown
    /// device type only ends the work on that device.
    pub open spec fn skippable(self) -> bool {
        self is UnknownDeviceType
    }
}

impl Error {
    /// The HTTP status under which the failure is passed on to a caller of
    /// the exporter: 429 for too many requests, 403 for a failed
    /// authentication, 500 for everything else.
    pub open spec fn spec_status(&self) -> u16 {
        match *self {
            Error::RateExceeded(_) => 429,
            Error::LoginError(_) => 403,
            _ => 500,
        }
    }

    #[verifier::when_used_as_spec(spec_status)]
    pub fn status(&self) -> (r: u16)
        ensures
            r == self.spec_status(),
    {
        match self {
            Error::RateExceeded(_) => 429,
            Error::LoginError(_) => 403,
            _ => 500,
        }
    }

    /// Whether a walk goes on after this failure.
    pub fn skippable(&self) -> (r: bool)
        ensures
            r == self@.skippable(),
    {
        match self {
            Error::UnknownDeviceType(_) => true,
            _ => false,
        }
    }
}

} // verus!
