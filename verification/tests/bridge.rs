use request_bridge::bridge::{make_post_request, RequestBridge, ENDPOINT_URL};
use request_bridge::outcome::{FailureKind, Outcome};
use request_bridge::transport::{HttpRequest, Reply};

fn wrapped_text(document: &str) -> String {
    let value: serde_json::Value = serde_json::from_str(document).expect("a JSON document");
    let object = value.as_object().expect("a JSON object");
    assert_eq!(object.len(), 1);
    object.get("text").expect("the text field").as_str().expect("a string").to_string()
}

fn echo(request: HttpRequest) -> Reply {
    Reply::Response { status: 200, status_text: "OK".to_string(), body: Some(request.body) }
}

fn send_to_echo(text: &str) {
    let bridge = RequestBridge::new("http://mock.test/echo");
    match bridge.send(text, echo) {
        Outcome::Success(body) => assert_eq!(wrapped_text(&body), text),
        Outcome::Failure { kind, reason } => panic!("failed: {:?} {}", kind, reason),
    }
}

#[test]
fn echo_round_trip_plain_text() {
    send_to_echo("hello");
}

#[test]
fn echo_round_trip_empty_text() {
    send_to_echo("");
}

#[test]
fn echo_round_trip_quotes_and_backslashes() {
    send_to_echo("say \"hi\" \\ and / go");
}

#[test]
fn echo_round_trip_control_characters() {
    send_to_echo("a\u{0}b\u{1}c\u{8}d\te\nf\u{b}g\u{c}h\ri\u{1f}j\u{7f}");
}

#[test]
fn echo_round_trip_beyond_ascii() {
    send_to_echo("caf\u{e9} \u{4f60}\u{597d} \u{1f600} \u{80}\u{7ff}\u{800}\u{ffff}\u{10000}\u{10ffff}");
}

#[test]
fn echo_round_trip_every_ascii_character() {
    let mut text = String::new();
    let mut code: u8 = 0;
    while code < 128 {
        text.push(code as char);
        code += 1;
    }
    send_to_echo(&text);
}

#[test]
fn echo_round_trip_text_that_looks_like_json() {
    send_to_echo("{\"text\":\"nested\"}");
    send_to_echo("\\u0041\\n");
}

#[test]
fn prepared_request_for_plain_text() {
    let bridge = RequestBridge::new("http://mock.test/echo");
    let request = bridge.prepare("hi").expect("a request");
    assert_eq!(request.method, "POST");
    assert_eq!(request.url, "http://mock.test/echo");
    assert_eq!(request.content_type, "application/json");
    assert_eq!(request.body, "{\"text\":\"hi\"}");
}

#[test]
fn prepared_body_escapes_as_the_serializer_does() {
    let bridge = RequestBridge::new("http://mock.test/echo");
    let request = bridge.prepare("a\"b\\c\nd\te\u{1}f\u{e9}").expect("a request");
    assert_eq!(request.body, "{\"text\":\"a\\\"b\\\\c\\nd\\te\\u0001f\u{e9}\"}");
}

#[test]
fn prepared_body_for_empty_text() {
    let bridge = RequestBridge::new("http://mock.test/echo");
    let request = bridge.prepare("").expect("a request");
    assert_eq!(request.body, "{\"text\":\"\"}");
}

#[test]
fn make_post_request_goes_to_the_fixed_endpoint() {
    let request = make_post_request("hi").expect("a request");
    assert_eq!(ENDPOINT_URL, "https://jsonplaceholder.typicode.com/posts");
    assert_eq!(
        request,
        HttpRequest {
            method: "POST".to_string(),
            url: "https://jsonplaceholder.typicode.com/posts".to_string(),
            content_type: "application/json".to_string(),
            body: "{\"text\":\"hi\"}".to_string(),
        }
    );
}

#[test]
fn endpoint_url_is_the_one_given() {
    let bridge = RequestBridge::new("http://mock.test/echo");
    assert_eq!(bridge.endpoint_url(), "http://mock.test/echo");
}

#[test]
fn request_without_a_document_is_the_serialization_failure() {
    let bridge = RequestBridge::new("http://mock.test/echo");
    assert_eq!(
        bridge.request(None),
        Err(Outcome::Failure {
            kind: FailureKind::Decode,
            reason: "serialization error".to_string(),
        })
    );
}

#[test]
fn request_carries_the_document_unchanged() {
    let bridge = RequestBridge::new("http://mock.test/echo");
    let request = bridge.request(Some("{\"text\":\"x\"}".to_string())).expect("a request");
    assert_eq!(request.body, "{\"text\":\"x\"}");
    assert_eq!(request.method, "POST");
    assert_eq!(request.content_type, "application/json");
    assert_eq!(request.url, "http://mock.test/echo");
}

#[test]
fn status_500_is_a_failure_for_any_text() {
    let bridge = RequestBridge::new("http://mock.test/echo");
    for text in ["", "hello", "\"quoted\"", "\u{1f600}"] {
        let outcome = bridge.send(text, |request: HttpRequest| Reply::Response {
            status: 500,
            status_text: "Internal Server Error".to_string(),
            body: Some(request.body),
        });
        assert!(!outcome.is_success());
        assert_eq!(
            outcome,
            Outcome::Failure {
                kind: FailureKind::Status,
                reason: "HTTP 500 Internal Server Error".to_string(),
            }
        );
    }
}

#[test]
fn cancelled_call_is_a_cancellation_failure() {
    let bridge = RequestBridge::new("http://mock.test/hang");
    let outcome = bridge.send("hello", |_request: HttpRequest| Reply::Cancelled);
    assert_eq!(
        outcome,
        Outcome::Failure { kind: FailureKind::Cancelled, reason: "request cancelled".to_string() }
    );
}

#[test]
fn refused_connection_is_a_transport_failure() {
    let bridge = RequestBridge::new("http://127.0.0.1:1/");
    let outcome = bridge.send("hello", |_request: HttpRequest| Reply::Unreachable {
        description: "connection refused".to_string(),
    });
    match outcome {
        Outcome::Failure { kind, reason } => {
            assert_eq!(kind, FailureKind::Transport);
            assert_ne!(kind, FailureKind::Status);
            assert_eq!(reason, "connection refused");
        },
        Outcome::Success(body) => panic!("succeeded with {}", body),
    }
}

#[test]
fn two_calls_return_the_same_payload() {
    let bridge = RequestBridge::new("http://mock.test/echo");
    let first = bridge.send("x", echo);
    let second = bridge.send("x", echo);
    assert_eq!(first, Outcome::Success("{\"text\":\"x\"}".to_string()));
    assert_eq!(second, Outcome::Success("{\"text\":\"x\"}".to_string()));
    assert_eq!(first, second);
}

#[test]
fn calls_do_not_leak_into_each_other() {
    let bridge = RequestBridge::new("http://mock.test/echo");
    let first = bridge.send("x", echo);
    let other = bridge.send("y", echo);
    let again = bridge.send("x", echo);
    assert_eq!(other, Outcome::Success("{\"text\":\"y\"}".to_string()));
    assert_eq!(first, again);
}

#[test]
fn uppercasing_endpoint_scenario() {
    let bridge = RequestBridge::new("http://mock.test/echo");
    let outcome = bridge.send("hi", |request: HttpRequest| {
        assert_eq!(request.method, "POST");
        assert_eq!(request.url, "http://mock.test/echo");
        assert_eq!(request.content_type, "application/json");
        let upper = wrapped_text(&request.body).to_uppercase();
        let mut answer = serde_json::Map::new();
        answer.insert("translated".to_string(), serde_json::Value::String(upper));
        Reply::Response {
            status: 200,
            status_text: "OK".to_string(),
            body: Some(serde_json::Value::Object(answer).to_string()),
        }
    });
    assert_eq!(outcome, Outcome::Success("{\"translated\":\"HI\"}".to_string()));
}

#[test]
fn resolve_success_returns_the_body_as_it_came() {
    let reply = Reply::Response {
        status: 201,
        status_text: "Created".to_string(),
        body: Some("  not json at all \n".to_string()),
    };
    assert_eq!(RequestBridge::resolve(reply), Outcome::Success("  not json at all \n".to_string()));
}

#[test]
fn resolve_success_with_empty_body() {
    let reply = Reply::Response { status: 204, status_text: String::new(), body: Some(String::new()) };
    assert_eq!(RequestBridge::resolve(reply), Outcome::Success(String::new()));
}

#[test]
fn resolve_edges_of_the_success_range() {
    let at = |status: u16| {
        RequestBridge::resolve(Reply::Response {
            status,
            status_text: String::new(),
            body: Some("b".to_string()),
        })
    };
    assert_eq!(
        at(199),
        Outcome::Failure { kind: FailureKind::Status, reason: "HTTP 199".to_string() }
    );
    assert_eq!(at(200), Outcome::Success("b".to_string()));
    assert_eq!(at(299), Outcome::Success("b".to_string()));
    assert_eq!(
        at(300),
        Outcome::Failure { kind: FailureKind::Status, reason: "HTTP 300".to_string() }
    );
}

#[test]
fn resolve_unreadable_body_is_a_decode_failure() {
    let reply = Reply::Response { status: 200, status_text: "OK".to_string(), body: None };
    assert_eq!(
        RequestBridge::resolve(reply),
        Outcome::Failure {
            kind: FailureKind::Decode,
            reason: "response body is not text".to_string(),
        }
    );
}

#[test]
fn resolve_error_status_with_unreadable_body_is_a_status_failure() {
    let reply = Reply::Response { status: 404, status_text: "Not Found".to_string(), body: None };
    assert_eq!(
        RequestBridge::resolve(reply),
        Outcome::Failure { kind: FailureKind::Status, reason: "HTTP 404 Not Found".to_string() }
    );
}

#[test]
fn resolve_transport_failure_keeps_the_description() {
    let reply = Reply::Unreachable { description: "dns lookup failed".to_string() };
    assert_eq!(
        RequestBridge::resolve(reply),
        Outcome::Failure { kind: FailureKind::Transport, reason: "dns lookup failed".to_string() }
    );
}

#[test]
fn diagnostic_is_the_body_of_a_rejected_response() {
    let rejected = Reply::Response {
        status: 500,
        status_text: "Internal Server Error".to_string(),
        body: Some("stack trace".to_string()),
    };
    assert_eq!(RequestBridge::diagnostic(&rejected), Some("stack trace".to_string()));
    let unreadable = Reply::Response { status: 500, status_text: String::new(), body: None };
    assert_eq!(RequestBridge::diagnostic(&unreadable), None);
}

#[test]
fn diagnostic_is_nothing_otherwise() {
    let accepted =
        Reply::Response { status: 200, status_text: "OK".to_string(), body: Some("b".to_string()) };
    assert_eq!(RequestBridge::diagnostic(&accepted), None);
    assert_eq!(RequestBridge::diagnostic(&Reply::Cancelled), None);
    let refused = Reply::Unreachable { description: "connection refused".to_string() };
    assert_eq!(RequestBridge::diagnostic(&refused), None);
}

#[test]
fn outcome_failure_builds_a_failure() {
    assert_eq!(
        Outcome::failure(FailureKind::Transport, "down"),
        Outcome::Failure { kind: FailureKind::Transport, reason: "down".to_string() }
    );
    assert!(!Outcome::failure(FailureKind::Transport, "down").is_success());
    assert!(Outcome::Success(String::new()).is_success());
}
