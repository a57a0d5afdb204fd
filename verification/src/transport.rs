//! What passes between the bridge and the host's transport: the request that
//! the host is to send, and the host's report of how the round trip went.

use vstd::prelude::*;

verus! {

/// The method of every request that the bridge describes.
pub const METHOD: &'static str = "POST";

/// The `Content-Type` of every request that the bridge describes.
pub const CONTENT_TYPE: &'static str = "application/json";

/// One HTTP request, described in plain values for the host to send.
#[derive(Clone, Debug, PartialEq, Eq)]
pub struct HttpRequest {
    /// The request method.
    pub method: String,
    /// The URL of the endpoint.
    pub url: String,
    /// The value of the `Content-Type` header.
    pub content_type: String,
    /// The request body.
    pub body: String,
}

/// The mathematical model of an [`HttpRequest`].
pub struct HttpRequestView {
    pub method: Seq<char>,
    pub url: Seq<char>,
    pub content_type: Seq<char>,
    pub body: Seq<char>,
}

impl View for HttpRequest {
    type V = HttpRequestView;

    open spec fn view(&self) -> HttpRequestView {
        HttpRequestView {
            method: self.method@,
            url: self.url@,
            content_type: self.content_type@,
            body: self.body@,
        }
    }
}

/// The host's report of one round trip.
#[derive(Clone, Debug, PartialEq, Eq)]
pub enum Reply {
    /// The transport failed: the endpoint could not be reached, the connection
    /// broke, or the transport's own timeout ran out.
    Unreachable {
        /// The transport's description of the failure.
        description: String,
    },
    /// The caller cancelled the call and the request was abandoned.
    Cancelled,
    /// The endpoint answered.
    Response {
        /// The status code.
        status: u16,
        /// The status text; empty where the response had none.
        status_text: String,
        /// The whole body as text, or `None` where it could not be read as
        /// text.
        body: Option<String>,
    },
}

/// The mathematical model of a [`Reply`].
pub enum ReplyView {
    Unreachable { description: Seq<char> },
    Cancelled,
    Response { status: u16, status_text: Seq<char>, body: Option<Seq<char>> },
}

impl View for Reply {
    type V = ReplyView;

    open spec fn view(&self) -> ReplyView {
        match self {
            Reply::Unreachable { description } => ReplyView::Unreachable {
                description: description@,
            },
            Reply::Cancelled => ReplyView::Cancelled,
            Reply::Response { status, status_text, body } => ReplyView::Response {
                status: *status,
                status_text: status_text@,
                body: match body {
                    Some(text) => Some(text@),
                    None => None,
                },
            },
        }
    }
}

} // verus!
