//! The bridge itself: from the caller's text to a request, and from the
//! transport's reply to an outcome.

use crate::envelope::{envelope_text, serialized, Envelope};
use crate::outcome::{FailureKind, Outcome, OutcomeView, CANCELLED, SERIALIZATION_ERROR, UNREADABLE_BODY};
use crate::status::{is_success, is_success_status, status_line, status_reason};
use crate::transport::{HttpRequest, HttpRequestView, Reply, ReplyView, CONTENT_TYPE, METHOD};
use vstd::prelude::*;

verus! {

/// The endpoint of [`make_post_request`].
pub const ENDPOINT_URL: &'static str = "https://jsonplaceholder.typicode.com/posts";

/// The request that posts `document` to the endpoint at `url`.
pub open spec fn request_around(url: Seq<char>, document: Seq<char>) -> HttpRequestView {
    HttpRequestView { method: METHOD@, url, content_type: CONTENT_TYPE@, body: document }
}

/// The request that carries `text` to the endpoint at `url`: the POST of the
/// document that serializing the envelope around `text` gives, or `None`
/// where serializing gives none.
pub open spec fn request_for(url: Seq<char>, text: Seq<char>) -> Option<HttpRequestView> {
    match serialized(text) {
        Some(document) => Some(request_around(url, document)),
        None => None,
    }
}

/// The outcome when the envelope cannot be serialized.
pub open spec fn serialization_failure() -> OutcomeView {
    OutcomeView::Failure { kind: FailureKind::Decode, reason: SERIALIZATION_ERROR@ }
}

/// The outcome that a reply amounts to.
///
/// A response with a success status and a readable body is the only reply
/// that gives a success, and its body is the payload, unchanged. Every other
/// reply gives a failure whose kind names the cause.
pub open spec fn outcome_of(reply: ReplyView) -> OutcomeView {
    match reply {
        ReplyView::Unreachable { description } => OutcomeView::Failure {
            kind: FailureKind::Transport,
            reason: description,
        },
        ReplyView::Cancelled => OutcomeView::Failure {
            kind: FailureKind::Cancelled,
            reason: CANCELLED@,
        },
        ReplyView::Response { status, status_text, body } => if is_success_status(status) {
            match body {
                Some(text) => OutcomeView::Success(text),
                None => OutcomeView::Failure {
                    kind: FailureKind::Decode,
                    reason: UNREADABLE_BODY@,
                },
            }
        } else {
            OutcomeView::Failure {
                kind: FailureKind::Status,
                reason: status_reason(status, status_text),
            }
        },
    }
}

/// What the host should write to its log for a reply: the body of a response
/// that was turned down for its status. Such a body never reaches the caller
/// as a payload, but it is kept for diagnosis.
pub open spec fn diagnostic_of(reply: ReplyView) -> Option<Seq<char>> {
    match reply {
        ReplyView::Response { status, body, .. } => if is_success_status(status) {
            None
        } else {
            body
        },
        _ => None,
    }
}

/// What a call of `send` may return for `text`, through a bridge to `url`.
/// Where there is no request for `text`, it is the serialization failure.
/// Where there is one, it is what a reply amounts to that `transport` gave to
/// that request.
pub open spec fn sent_through<T: FnOnce(HttpRequest) -> Reply>(
    url: Seq<char>,
    text: Seq<char>,
    transport: T,
    outcome: OutcomeView,
) -> bool {
    match request_for(url, text) {
        None => outcome == serialization_failure(),
        Some(sent) => exists|request: HttpRequest, reply: Reply|
            {
                &&& request@ == sent
                &&& envelope_text(sent.body) == Some(text)
                &&& #[trigger] call_ensures(transport, (request,), reply)
                &&& outcome == outcome_of(reply@)
            },
    }
}

/// A bridge to one endpoint.
#[derive(Clone, Debug, PartialEq, Eq)]
pub struct RequestBridge {
    endpoint_url: String,
}

impl View for RequestBridge {
    type V = Seq<char>;

    /// A bridge is modelled by the URL of its endpoint.
    closed spec fn view(&self) -> Seq<char> {
        self.endpoint_url@
    }
}

impl RequestBridge {
    /// A bridge to the endpoint at `endpoint_url`.
    pub fn new(endpoint_url: &str) -> (bridge: RequestBridge)
        ensures
            bridge@ == endpoint_url@,
    {
        RequestBridge { endpoint_url: String::from_str(endpoint_url) }
    }

    /// The URL of the endpoint.
    pub fn endpoint_url(&self) -> (url: &str)
        ensures
            url@ == self@,
    {
        self.endpoint_url.as_str()
    }

    /// The request that carries a serialized envelope, or the failure where
    /// there is none to carry.
    pub fn request(&self, document: Option<String>) -> (prepared: Result<HttpRequest, Outcome>)
        ensures
            match document {
                Some(d) => prepared matches Ok(request) && request@ == request_around(self@, d@),
                None => prepared matches Err(outcome) && outcome@ == serialization_failure(),
            },
    {
        match document {
            Some(body) => Ok(
                HttpRequest {
                    method: String::from_str(METHOD),
                    url: self.endpoint_url.clone(),
                    content_type: String::from_str(CONTENT_TYPE),
                    body,
                },
            ),
            None => Err(Outcome::failure(FailureKind::Decode, SERIALIZATION_ERROR)),
        }
    }

    /// Prepares the request for `text`: wraps it in an envelope, serializes
    /// the envelope and describes the POST that carries it.
    ///
    /// A request is returned exactly when there is one for `text`, and it
    /// carries a document that wraps exactly `text`. The only error is the
    /// serialization failure.
    pub fn prepare(&self, text: &str) -> (prepared: Result<HttpRequest, Outcome>)
        ensures
            match prepared {
                Ok(request) => {
                    &&& request_for(self@, text@) == Some(request@)
                    &&& envelope_text(request@.body) == Some(text@)
                },
                Err(outcome) => {
                    &&& request_for(self@, text@) is None
                    &&& outcome@ == serialization_failure()
                },
            },
    {
        let envelope = Envelope::new(text);
        self.request(envelope.to_json())
    }

    /// Decides what a reply means for the caller.
    pub fn resolve(reply: Reply) -> (outcome: Outcome)
        ensures
            outcome@ == outcome_of(reply@),
    {
        match reply {
            Reply::Unreachable { description } => Outcome::Failure {
                kind: FailureKind::Transport,
                reason: description,
            },
            Reply::Cancelled => Outcome::failure(FailureKind::Cancelled, CANCELLED),
            Reply::Response { status, status_text, body } => {
                if is_success(status) {
                    match body {
                        Some(text) => Outcome::Success(text),
                        None => Outcome::failure(FailureKind::Decode, UNREADABLE_BODY),
                    }
                } else {
                    Outcome::Failure {
                        kind: FailureKind::Status,
                        reason: status_line(status, status_text.as_str()),
                    }
                }
            },
        }
    }

    /// What the host should log for a reply, if anything.
    pub fn diagnostic(reply: &Reply) -> (line: Option<String>)
        ensures
            match line {
                Some(text) => diagnostic_of(reply@) == Some(text@),
                None => diagnostic_of(reply@) is None,
            },
    {
        match reply {
            Reply::Response { status, body, .. } => {
                if is_success(*status) {
                    None
                } else {
                    match body {
                        Some(text) => Some(text.clone()),
                        None => None,
                    }
                }
            },
            _ => None,
        }
    }

    /// Sends `text` through `transport` and returns the outcome.
    ///
    /// `transport` performs the round trip for the request it is given. It is
    /// called once, unless the envelope cannot be serialized: then nothing is
    /// sent. It has to take every request to this bridge's endpoint that
    /// wraps `text`.
    pub fn send<T: FnOnce(HttpRequest) -> Reply>(&self, text: &str, transport: T) -> (outcome:
        Outcome)
        requires
            forall|request: HttpRequest|
                request@.url == self@ && envelope_text(request@.body) == Some(text@)
                    ==> call_requires(transport, (request,)),
        ensures
            sent_through(self@, text@, transport, outcome@),
    {
        match self.prepare(text) {
            Ok(request) => {
                let ghost sent = request;
                let reply = transport(request);
                let ghost got = reply;
                let outcome = Self::resolve(reply);
                assert(call_ensures(transport, (sent,), got));
                outcome
            },
            Err(outcome) => outcome,
        }
    }
}

/// Prepares the POST of `post_data` to [`ENDPOINT_URL`].
pub fn make_post_request(post_data: &str) -> (prepared: Result<HttpRequest, Outcome>)
    ensures
        match prepared {
            Ok(request) => {
                &&& request_for(ENDPOINT_URL@, post_data@) == Some(request@)
                &&& envelope_text(request@.body) == Some(post_data@)
            },
            Err(outcome) => {
                &&& request_for(ENDPOINT_URL@, post_data@) is None
                &&& outcome@ == serialization_failure()
            },
        },
{
    RequestBridge::new(ENDPOINT_URL).prepare(post_data)
}

} // verus!
