use winterjs::error::{engine_error, WorkerError};
use winterjs::fetch_event::{
    FetchEventState, InvokeOutcome, PromiseSnapshot, RespondValue, ResponseSnapshot,
};
use winterjs::worker::{
    should_exit, start_request, ControlMessage, RequestData, RequestHead, StartOutcome,
    WorkerState,
};

fn responded_event(value: RespondValue) -> FetchEventState {
    let mut ev = FetchEventState::new();
    ev.respond_with(value).unwrap();
    ev
}

fn ok_snapshot(body: &[u8]) -> ResponseSnapshot {
    ResponseSnapshot {
        is_response_instance: true,
        status: 200,
        headers: vec![],
        body: Ok(body.to_vec()),
    }
}

fn undefined() -> InvokeOutcome {
    InvokeOutcome::Returned { is_undefined: true }
}

#[test]
fn inbox_closure_and_shutdown_end_the_loop_but_requests_do_not() {
    assert!(should_exit(&None));
    assert!(should_exit(&Some(ControlMessage::Shutdown)));
    let head = RequestHead { method: String::from("GET"), uri: String::from("/"), headers: vec![] };
    let msg = ControlMessage::HandleRequest(RequestData { head, body: None }, 1);
    assert!(!should_exit(&Some(msg)));
}

#[test]
fn echo_request_is_answered_immediately() {
    let mut w = WorkerState::new(Ok(()));
    let action = w
        .on_request(11, undefined(), responded_event(RespondValue::Response(ok_snapshot(b"hi"))))
        .expect("an immediate response must be answered at once");
    assert_eq!(action.responder, 11);
    let resp = action.response.0.unwrap();
    assert_eq!(resp.status, 200);
    assert_eq!(resp.body, b"hi".to_vec());
    assert!(w.pending.is_empty());
}

#[test]
fn handler_returning_a_value_is_an_error() {
    let mut w = WorkerState::new(Ok(()));
    let action = w
        .on_request(3, InvokeOutcome::Returned { is_undefined: false }, FetchEventState::new())
        .unwrap();
    let e = action.response.0.unwrap_err();
    assert_eq!(e.message(), "Script error: the fetch event handler should not return a value");
}

#[test]
fn missing_respond_with_is_an_error() {
    let r = start_request(undefined(), FetchEventState::new());
    let e = r.unwrap_err();
    assert!(matches!(e, WorkerError::RespondWithNotCalled));
    assert!(e.message().contains("respondWith"));
}

#[test]
fn unregistered_listener_is_an_error() {
    let r = start_request(InvokeOutcome::NoListener, FetchEventState::new());
    assert_eq!(r.unwrap_err().message(), "Script execution failed");
}

#[test]
fn throwing_handler_reports_the_exception() {
    let r = start_request(
        InvokeOutcome::Threw(String::from("Error: nope")),
        FetchEventState::new(),
    );
    assert_eq!(r.unwrap_err().message(), "Runtime error: Error: nope");
}

#[test]
fn promise_goes_pending_and_a_sweep_answers_it_when_settled() {
    let mut w = WorkerState::new(Ok(()));
    let none = w.on_request(5, undefined(), responded_event(RespondValue::Promise(900)));
    assert!(none.is_none());
    assert_eq!(w.pending.len(), 1);
    assert_eq!(w.pending[0].promise, 900);
    assert_eq!(w.pending[0].responder, 5);

    // First poll: still pending, nothing goes out.
    let actions = w.sweep(vec![PromiseSnapshot::Pending]);
    assert!(actions.is_empty());
    assert_eq!(w.pending.len(), 1);

    // Later poll: the promise fulfilled, the response goes out.
    let actions = w.sweep(vec![PromiseSnapshot::FulfilledObject(ok_snapshot(b"ok"))]);
    assert_eq!(actions.len(), 1);
    assert_eq!(actions[0].responder, 5);
    let resp = actions[0].response.0.as_ref().unwrap();
    assert_eq!(resp.status, 200);
    assert_eq!(resp.body, b"ok".to_vec());
    assert!(w.pending.is_empty());
}

#[test]
fn sweep_answers_settled_entries_in_order_and_keeps_the_rest() {
    let mut w = WorkerState::new(Ok(()));
    assert!(w.on_request(1, undefined(), responded_event(RespondValue::Promise(10))).is_none());
    assert!(w.on_request(2, undefined(), responded_event(RespondValue::Promise(20))).is_none());
    assert!(w.on_request(3, undefined(), responded_event(RespondValue::Promise(30))).is_none());
    let actions = w.sweep(vec![
        PromiseSnapshot::Rejected(Some(String::from("first"))),
        PromiseSnapshot::Pending,
        PromiseSnapshot::FulfilledObject(ok_snapshot(b"third")),
    ]);
    assert_eq!(actions.len(), 2);
    assert_eq!(actions[0].responder, 1);
    assert_eq!(actions[1].responder, 3);
    assert_eq!(w.pending.len(), 1);
    assert_eq!(w.pending[0].responder, 2);
}

#[test]
fn shutdown_drain_answers_every_outstanding_request() {
    let mut w = WorkerState::new(Ok(()));
    assert!(w.on_request(7, undefined(), responded_event(RespondValue::Promise(70))).is_none());
    assert!(w.on_request(8, undefined(), responded_event(RespondValue::Promise(80))).is_none());
    let actions = w.drain(vec![
        PromiseSnapshot::FulfilledObject(ok_snapshot(b"done")),
        PromiseSnapshot::Pending,
    ]);
    assert_eq!(actions.len(), 2);
    assert_eq!(actions[0].responder, 7);
    assert!(actions[0].response.0.is_ok());
    assert_eq!(actions[1].responder, 8);
    let abandoned = actions[1].response.0.as_ref().unwrap_err();
    assert_eq!(abandoned.message(), "Internal error: promise is not fulfilled yet");
    assert!(w.pending.is_empty());
}

#[test]
fn degraded_worker_answers_every_request_with_the_stored_error() {
    let init = Err(WorkerError::ScriptException(String::from("SyntaxError: unexpected token")));
    let mut w = WorkerState::new(init);
    for id in [21u64, 22u64] {
        let action = w.on_request(id, undefined(), FetchEventState::new()).unwrap();
        assert_eq!(action.responder, id);
        let e = action.response.0.unwrap_err();
        assert_eq!(e.message(), "Runtime error: SyntaxError: unexpected token");
    }
}

#[test]
fn engine_fatal_aborts_pending_work_and_degrades_the_worker() {
    let mut w = WorkerState::new(Ok(()));
    assert!(w.on_request(31, undefined(), responded_event(RespondValue::Promise(1))).is_none());
    let actions = w.on_engine_fatal(engine_error(None));
    assert_eq!(actions.len(), 1);
    assert_eq!(actions[0].responder, 31);
    let e = actions[0].response.0.as_ref().unwrap_err();
    assert_eq!(e.message(), "Unknown runtime error");
    // Every later request gets the stored error.
    let action = w.on_request(32, undefined(), FetchEventState::new()).unwrap();
    assert_eq!(action.response.0.unwrap_err().message(), "Unknown runtime error");
}

#[test]
fn start_request_propagates_a_bad_immediate_response() {
    let snap = ResponseSnapshot {
        is_response_instance: false,
        status: 200,
        headers: vec![],
        body: Ok(Vec::new()),
    };
    let r = start_request(undefined(), responded_event(RespondValue::Response(snap)));
    assert!(matches!(r.unwrap_err(), WorkerError::NotResponseInstance));
}

#[test]
fn start_request_hands_back_the_promise_handle() {
    let r = start_request(undefined(), responded_event(RespondValue::Promise(123)));
    assert!(matches!(r.unwrap(), StartOutcome::Pending(123)));
}
