//! What holds of the bridge as a whole, proved from the definitions that the
//! contracts are stated in.
//!
//! Where a law needs an endpoint, the endpoint is a function from the request
//! to the reply: one that answers the same request the same way every time.

use crate::bridge::{outcome_of, request_for, sent_through, serialization_failure};
use crate::envelope::{envelope_text, reads_as};
use crate::literal::{lemma_quoted_reads_back, quoted};
use crate::outcome::{FailureKind, OutcomeView};
use crate::status::{is_success_status, status_reason};
use crate::transport::{HttpRequest, HttpRequestView, Reply, ReplyView};
use vstd::prelude::*;
use vstd::utf8::encode_utf8;

verus! {

/// Whether `transport` answers as `endpoint` does: whatever it returns for a
/// request is what `endpoint` gives for that request.
pub open spec fn answers_as<T: FnOnce(HttpRequest) -> Reply>(
    transport: T,
    endpoint: spec_fn(HttpRequestView) -> ReplyView,
) -> bool {
    forall|request: HttpRequest, reply: Reply| #[trigger]
        call_ensures(transport, (request,), reply) ==> reply@ == endpoint(request@)
}

/// Whether `transport` echoes: whatever it returns for a request is a
/// response with status 200 and the request's own body.
pub open spec fn echoes<T: FnOnce(HttpRequest) -> Reply>(transport: T) -> bool {
    forall|request: HttpRequest, reply: Reply| #[trigger]
        call_ensures(transport, (request,), reply) ==> (reply@ matches ReplyView::Response {
            status,
            body,
            ..
        } && status == 200 && body == Some(request@.body))
}

/// Round trip. Through a transport that echoes, a call that got past
/// serialization succeeds; its payload is the request body, an envelope
/// document that wraps exactly the caller's text.
pub proof fn lemma_echo_round_trip<T: FnOnce(HttpRequest) -> Reply>(
    url: Seq<char>,
    text: Seq<char>,
    transport: T,
    outcome: OutcomeView,
)
    requires
        sent_through(url, text, transport, outcome),
        echoes(transport),
        outcome != serialization_failure(),
    ensures
        request_for(url, text) matches Some(sent) && outcome == OutcomeView::Success(sent.body)
            && envelope_text(sent.body) == Some(text),
{
}

/// No text is turned down for its characters. Whatever the text, the literal
/// that a JSON writer writes for it (the text's bytes, escaped and quoted)
/// reads back as the text, so the bridge accepts it.
pub proof fn lemma_written_literal_is_accepted(literal: Seq<char>, text: Seq<char>)
    requires
        encode_utf8(literal) == quoted(encode_utf8(text)),
    ensures
        reads_as(literal, text),
{
    lemma_quoted_reads_back(encode_utf8(text));
}

/// A response outside the success range is a failure, whatever its body and
/// whatever was sent: the outcome is never a success, its kind is `Status`,
/// and its reason carries the status code.
pub proof fn lemma_error_status_fails(
    status: u16,
    status_text: Seq<char>,
    body: Option<Seq<char>>,
)
    requires
        !is_success_status(status),
    ensures
        !(outcome_of(ReplyView::Response { status, status_text, body }) is Success),
        outcome_of(ReplyView::Response { status, status_text, body }) == (OutcomeView::Failure {
            kind: FailureKind::Status,
            reason: status_reason(status, status_text),
        }),
{
}

/// Whether `transport` answers every request with a response of status
/// `status`.
pub open spec fn answers_with_status<T: FnOnce(HttpRequest) -> Reply>(
    transport: T,
    status: u16,
) -> bool {
    forall|request: HttpRequest, reply: Reply| #[trigger]
        call_ensures(transport, (request,), reply) ==> (reply@ matches ReplyView::Response {
            status: answered,
            ..
        } && answered == status)
}

/// Through a transport that answers with a status outside the success range,
/// every call fails, whatever the text: with kind `Status`, unless nothing
/// was sent because the envelope could not be serialized.
pub proof fn lemma_send_fails_on_error_status<T: FnOnce(HttpRequest) -> Reply>(
    url: Seq<char>,
    text: Seq<char>,
    transport: T,
    status: u16,
    outcome: OutcomeView,
)
    requires
        sent_through(url, text, transport, outcome),
        answers_with_status(transport, status),
        !is_success_status(status),
    ensures
        outcome is Failure,
        outcome != serialization_failure() ==> (outcome matches OutcomeView::Failure { kind, .. }
            && kind == FailureKind::Status),
{
}

/// A success is owed to a response with a success status and a readable
/// body, and to nothing else; the payload is that body.
pub proof fn lemma_success_is_a_success_response(reply: ReplyView, payload: Seq<char>)
    ensures
        outcome_of(reply) == OutcomeView::Success(payload) <==> (reply matches ReplyView::Response {
            status,
            body,
            ..
        } && is_success_status(status) && body == Some(payload)),
{
}

/// The kind of a failure names its cause, and each cause has its kind: a
/// caller can tell a transport failure from an error status, from an
/// unreadable body and from a cancellation by the kind alone.
pub proof fn lemma_kind_names_cause(reply: ReplyView)
    ensures
        reply is Unreachable <==> (outcome_of(reply) matches OutcomeView::Failure { kind, .. }
            && kind == FailureKind::Transport),
        reply is Cancelled <==> (outcome_of(reply) matches OutcomeView::Failure { kind, .. }
            && kind == FailureKind::Cancelled),
        (reply matches ReplyView::Response { status, .. } && !is_success_status(status)) <==> (
        outcome_of(reply) matches OutcomeView::Failure { kind, .. } && kind == FailureKind::Status),
        (reply matches ReplyView::Response { status, body, .. } && is_success_status(status)
            && body is None) <==> (outcome_of(reply) matches OutcomeView::Failure { kind, .. }
            && kind == FailureKind::Decode),
{
}

/// What the transport says of a failure reaches the caller unchanged, and a
/// cancelled call fails as cancelled.
pub proof fn lemma_transport_failures_are_passed_on(description: Seq<char>)
    ensures
        outcome_of(ReplyView::Unreachable { description }) == (OutcomeView::Failure {
            kind: FailureKind::Transport,
            reason: description,
        }),
        outcome_of(ReplyView::Cancelled) matches OutcomeView::Failure { kind, .. } && kind
            == FailureKind::Cancelled,
{
}

/// Calls are independent. Two calls with the same text, through bridges to
/// the same endpoint and transports that answer alike, that both succeed,
/// return the same payload: nothing that one call did can change what the
/// other returns.
pub proof fn lemma_repeated_call_returns_same<T: FnOnce(HttpRequest) -> Reply, U: FnOnce(
    HttpRequest,
) -> Reply>(
    url: Seq<char>,
    text: Seq<char>,
    endpoint: spec_fn(HttpRequestView) -> ReplyView,
    first_transport: T,
    second_transport: U,
    first: OutcomeView,
    second: OutcomeView,
)
    requires
        sent_through(url, text, first_transport, first),
        sent_through(url, text, second_transport, second),
        answers_as(first_transport, endpoint),
        answers_as(second_transport, endpoint),
        first is Success,
        second is Success,
    ensures
        first == second,
{
}

} // verus!
