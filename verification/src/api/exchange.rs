//! What goes over the wire, as plain values: the requests that the client
//! asks its transport to send, and what the transport hands back.

use vstd::prelude::*;

verus! {

/// A named text: a request header, a member of a request body, a cookie.
#[derive(Debug, Clone)]
pub struct Field {
    pub name: String,
    pub value: String,
}

impl View for Field {
    type V = (Seq<char>, Seq<char>);

    open spec fn view(&self) -> (Seq<char>, Seq<char>) {
        (self.name@, self.value@)
    }
}

/// The contents of some fields, in order.
pub open spec fn fields_view(fields: Seq<Field>) -> Seq<(Seq<char>, Seq<char>)> {
    Seq::new(fields.len(), |i: int| fields[i]@)
}

/// A POST request. The body, where there is one, is sent as a JSON object
/// with one string member per field.
#[derive(Debug, Clone)]
pub struct Request {
    pub url: String,
    pub headers: Vec<Field>,
    pub body: Option<Vec<Field>>,
}

/// The mathematical content of a [`Request`].
pub struct RequestView {
    pub url: Seq<char>,
    pub headers: Seq<(Seq<char>, Seq<char>)>,
    pub body: Option<Seq<(Seq<char>, Seq<char>)>>,
}

impl View for Request {
    type V = RequestView;

    open spec fn view(&self) -> RequestView {
        RequestView {
            url: self.url@,
            headers: fields_view(self.headers@),
            body: match self.body {
                Some(fields) => Some(fields_view(fields@)),
                None => None,
            },
        }
    }
}

/// A call that got no usable response: none at all, or one whose HTTP status
/// is not a success.
#[derive(Debug, Clone)]
pub struct TransportFailure {
    /// The HTTP status of the response, if there was a response.
    pub status: Option<u16>,
    /// The transport's description of the failure.
    pub detail: String,
}

/// The mathematical content of a [`TransportFailure`].
pub struct TransportFailureView {
    pub status: Option<u16>,
    pub detail: Seq<char>,
}

impl View for TransportFailure {
    type V = TransportFailureView;

    open spec fn view(&self) -> TransportFailureView {
        TransportFailureView { status: self.status, detail: self.detail@ }
    }
}

/// What the transport hands back for a request.
#[derive(Debug, Clone)]
pub enum Reply {
    /// A response with a success status arrived; this is its body.
    Text(String),
    /// The request could not be sent, no response arrived, or the status of
    /// the response is not a success.
    SendFailed(TransportFailure),
    /// A response arrived, but its body could not be read. Holds the
    /// transport's description of the failure.
    ReadFailed(String),
}

/// The mathematical content of a [`Reply`].
pub enum ReplyView {
    Text(Seq<char>),
    SendFailed(TransportFailureView),
    ReadFailed(Seq<char>),
}

impl View for Reply {
    type V = ReplyView;

    open spec fn view(&self) -> ReplyView {
        match *self {
            Reply::Text(text) => ReplyView::Text(text@),
            Reply::SendFailed(failure) => ReplyView::SendFailed(failure@),
            Reply::ReadFailed(detail) => ReplyView::ReadFailed(detail@),
        }
    }
}

/// What the transport hands back for a login request.
#[derive(Debug, Clone)]
pub enum LoginReply {
    /// No HTTP client could be set up.
    NoClient,
    /// The request could not be sent, no response arrived, or the status of
    /// the response is not a success.
    SendFailed(TransportFailure),
    /// A response with a success status arrived: its status line and its
    /// cookies, in the order of the response's headers.
    Answered { status: String, cookies: Vec<Field> },
}

/// The mathematical content of a [`LoginReply`].
pub enum LoginReplyView {
    NoClient,
    SendFailed(TransportFailureView),
    Answered { status: Seq<char>, cookies: Seq<(Seq<char>, Seq<char>)> },
}

impl View for LoginReply {
    type V = LoginReplyView;

    open spec fn view(&self) -> LoginReplyView {
        match *self {
            LoginReply::NoClient => LoginReplyView::NoClient,
            LoginReply::SendFailed(failure) => LoginReplyView::SendFailed(failure@),
            LoginReply::Answered { status, cookies } => LoginReplyView::Answered {
                status: status@,
                cookies: fields_view(cookies@),
            },
        }
    }
}

} // verus!
