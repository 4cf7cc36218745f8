use winterjs::error::WorkerError;
use winterjs::fetch_event::{PromiseSnapshot, ResponseSnapshot};
use winterjs::response::{build_response, build_response_from_pending, error_response};

fn snapshot(status: u16, headers: Vec<(String, String)>, body: Vec<u8>) -> ResponseSnapshot {
    ResponseSnapshot { is_response_instance: true, status, headers, body: Ok(body) }
}

#[test]
fn echo_response_carries_status_and_body_through() {
    let snap = snapshot(200, vec![], b"hi".to_vec());
    let r = build_response(snap).expect("a plain response must build");
    assert_eq!(r.status, 200);
    assert_eq!(r.body, b"hi".to_vec());
    assert!(r.headers.is_empty());
}

#[test]
fn zero_length_body_round_trips_as_an_empty_response() {
    let snap = snapshot(204, vec![(String::from("x-empty"), String::from("yes"))], Vec::new());
    let r = build_response(snap).expect("an empty body must build");
    assert_eq!(r.status, 204);
    assert_eq!(r.body, Vec::<u8>::new());
    assert_eq!(r.headers.len(), 1);
}

#[test]
fn valid_headers_pass_and_are_kept_in_order() {
    let headers = vec![
        (String::from("content-type"), String::from("text/plain")),
        (String::from("x-b3-traceid"), String::from("80f198ee56343ba8")),
    ];
    let r = build_response(snapshot(200, headers.clone(), Vec::new())).unwrap();
    assert_eq!(r.headers, headers);
}

#[test]
fn invalid_header_name_is_refused() {
    // A space never parses as a header name; if the name validator
    // blindly accepted its input this would build.
    let headers = vec![(String::from("bad name"), String::from("v"))];
    let e = build_response(snapshot(200, headers, Vec::new())).unwrap_err();
    match &e {
        WorkerError::InvalidHeaderName(n) => assert_eq!(n, "bad name"),
        other => panic!("expected an invalid-header-name error, got {}", other.message()),
    }
    assert_eq!(e.message(), "invalid HTTP header name");
}

#[test]
fn empty_header_name_is_refused() {
    let headers = vec![(String::new(), String::from("v"))];
    let e = build_response(snapshot(200, headers, Vec::new())).unwrap_err();
    assert!(matches!(e, WorkerError::InvalidHeaderName(_)));
}

#[test]
fn invalid_header_value_is_refused() {
    // A newline never parses as a header value.
    let headers = vec![(String::from("x-note"), String::from("a\nb"))];
    let e = build_response(snapshot(200, headers, Vec::new())).unwrap_err();
    match &e {
        WorkerError::InvalidHeaderValue(v) => assert_eq!(v, "a\nb"),
        other => panic!("expected an invalid-header-value error, got {}", other.message()),
    }
    assert_eq!(e.message(), "failed to parse header value");
}

#[test]
fn first_bad_header_decides_the_error() {
    let headers = vec![
        (String::from("ok"), String::from("\u{7f}")),
        (String::from("also bad"), String::from("fine")),
    ];
    let e = build_response(snapshot(200, headers, Vec::new())).unwrap_err();
    assert!(matches!(e, WorkerError::InvalidHeaderValue(_)));
}

#[test]
fn header_name_grammar_matches_the_http_crate() {
    // Uppercase letters and the odd quote character are in the
    // accepted table; a header made only of them must build.
    let headers = vec![
        (String::from("X-Custom-Header"), String::from("v")),
        (String::from("\""), String::from("v")),
        (String::from("!#$%&'*+-.^_`|~09az"), String::from("v")),
    ];
    let r = build_response(snapshot(200, headers, Vec::new()));
    assert!(r.is_ok());
}

#[test]
fn header_name_length_bound_matches_the_http_crate() {
    let longest = "a".repeat(65535);
    let r = build_response(snapshot(200, vec![(longest, String::from("v"))], Vec::new()));
    assert!(r.is_ok());
    let too_long = "a".repeat(65536);
    let e = build_response(snapshot(200, vec![(too_long, String::from("v"))], Vec::new()));
    assert!(matches!(e.unwrap_err(), WorkerError::InvalidHeaderName(_)));
}

#[test]
fn header_value_grammar_matches_the_http_crate() {
    // Tab and non-ASCII text are acceptable values; a control byte is not.
    let ok = vec![
        (String::from("x-a"), String::from("with\ttab")),
        (String::from("x-b"), String::from("caf\u{e9} … naïve")),
        (String::from("x-c"), String::new()),
    ];
    assert!(build_response(snapshot(200, ok, Vec::new())).is_ok());
    let bad = vec![(String::from("x-d"), String::from("\u{1f}"))];
    let e = build_response(snapshot(200, bad, Vec::new())).unwrap_err();
    assert!(matches!(e, WorkerError::InvalidHeaderValue(_)));
}

#[test]
fn status_outside_the_http_range_is_refused() {
    let e = build_response(snapshot(99, vec![], Vec::new())).unwrap_err();
    assert!(matches!(e, WorkerError::InvalidStatus(99)));
    assert_eq!(e.message(), "invalid status code");
    let e = build_response(snapshot(1000, vec![], Vec::new())).unwrap_err();
    assert!(matches!(e, WorkerError::InvalidStatus(1000)));
    let r = build_response(snapshot(999, vec![], Vec::new()));
    assert!(r.is_ok());
}

#[test]
fn non_response_object_is_refused() {
    let snap = ResponseSnapshot {
        is_response_instance: false,
        status: 200,
        headers: vec![],
        body: Ok(Vec::new()),
    };
    let e = build_response(snap).unwrap_err();
    assert!(matches!(e, WorkerError::NotResponseInstance));
    assert_eq!(e.message(), "If an object is returned, it must be an instance of Response");
}

#[test]
fn failed_body_read_is_reported() {
    let snap = ResponseSnapshot {
        is_response_instance: true,
        status: 200,
        headers: vec![],
        body: Err(String::from("stream reset")),
    };
    let e = build_response(snap).unwrap_err();
    assert_eq!(e.message(), "Failed to read response body: stream reset");
}

#[test]
fn fulfilled_promise_builds_like_an_immediate_response() {
    let p = PromiseSnapshot::FulfilledObject(snapshot(200, vec![], b"ok".to_vec()));
    let r = build_response_from_pending(p).unwrap();
    assert_eq!(r.status, 200);
    assert_eq!(r.body, b"ok".to_vec());
}

#[test]
fn rejection_with_a_message_is_reported_verbatim() {
    let p = PromiseSnapshot::Rejected(Some(String::from("boom")));
    let e = build_response_from_pending(p).unwrap_err();
    assert_eq!(e.message(), "Script execution failed: boom");
}

#[test]
fn rejection_with_a_non_object_value_has_the_placeholder_message() {
    let p = PromiseSnapshot::Rejected(None);
    let e = build_response_from_pending(p).unwrap_err();
    assert_eq!(e.message(), "Script execution failed: <No error message>");
}

#[test]
fn fulfilled_non_object_is_refused() {
    let e = build_response_from_pending(PromiseSnapshot::FulfilledNonObject).unwrap_err();
    assert_eq!(e.message(), "Script error: value provided to respondWith was not an object");
}

#[test]
fn unsettled_promise_is_an_internal_error() {
    let e = build_response_from_pending(PromiseSnapshot::Pending).unwrap_err();
    assert!(matches!(e, WorkerError::PromiseNotSettled));
    assert_eq!(e.message(), "Internal error: promise is not fulfilled yet");
}

#[test]
fn errors_become_a_500_whose_body_is_the_message() {
    let (status, body) = error_response(&WorkerError::RespondWithNotCalled);
    assert_eq!(status, 500);
    assert!(body.contains("respondWith"));
    assert_eq!(
        body,
        "Script error: FetchEvent.respondWith must be called with a Response object before returning"
    );
}
