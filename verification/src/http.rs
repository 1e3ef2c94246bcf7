//! What is asked of a remote service and what comes back, as plain values.
//! The caller sends the request and reports the reply.

use vstd::prelude::*;

verus! {

/// One header line of a request.
#[derive(Debug, PartialEq, Eq)]
pub struct Header {
    pub name: String,
    pub value: String,
}

/// The mathematical value of a [`Header`].
pub struct HeaderView {
    pub name: Seq<char>,
    pub value: Seq<char>,
}

impl View for Header {
    type V = HeaderView;

    open spec fn view(&self) -> HeaderView {
        HeaderView { name: self.name@, value: self.value@ }
    }
}

impl DeepView for Header {
    type V = HeaderView;

    open spec fn deep_view(&self) -> HeaderView {
        self@
    }
}

/// A GET request.
#[derive(Debug, PartialEq, Eq)]
pub struct Request {
    pub url: String,
    pub headers: Vec<Header>,
    /// Whether the server's certificate may go unchecked for this request.
    pub relaxed_tls: bool,
}

/// The mathematical value of a [`Request`].
pub struct RequestView {
    pub url: Seq<char>,
    pub headers: Seq<HeaderView>,
    pub relaxed_tls: bool,
}

impl View for Request {
    type V = RequestView;

    open spec fn view(&self) -> RequestView {
        RequestView {
            url: self.url@,
            headers: self.headers.deep_view(),
            relaxed_tls: self.relaxed_tls,
        }
    }
}

/// How a request for a text ended.
#[derive(Debug, PartialEq, Eq)]
pub enum Reply {
    /// No answer came: the request could not be sent, or the answer could
    /// not be read.
    Failed,
    /// The server answered with this status and body.
    Answered { status: u16, body: String },
}

/// The mathematical value of a [`Reply`].
pub enum ReplyView {
    Failed,
    Answered { status: u16, body: Seq<char> },
}

impl View for Reply {
    type V = ReplyView;

    open spec fn view(&self) -> ReplyView {
        match self {
            Reply::Failed => ReplyView::Failed,
            Reply::Answered { status, body } => ReplyView::Answered { status: *status, body: body@ },
        }
    }
}

/// Whether a status tells of success: the range 200 to 299.
pub open spec fn is_success(status: u16) -> bool {
    200 <= status <= 299
}

impl Header {
    /// The header `name: value`.
    pub fn new(name: &str, value: &str) -> (header: Header)
        ensures
            header@ == (HeaderView { name: name@, value: value@ }),
    {
        Header { name: String::from_str(name), value: String::from_str(value) }
    }
}

} // verus!
