//! Errors surfaced by the worker-pool core.
//!
//! Script-visible errors are thrown back into the running script;
//! worker errors travel to the dispatcher on a request's response
//! channel and become an HTTP 500 whose body is the error's message.

use vstd::prelude::*;

verus! {

/// An error thrown into the script as an exception.
#[derive(Debug, Clone, Copy, PartialEq, Eq, Structural)]
pub enum ScriptError {
    /// `addEventListener` was called with an event name other than `fetch`.
    UnsupportedEvent,
    /// A second `fetch` listener registration was attempted.
    DuplicateFetchListener,
    /// `FetchEvent.respondWith` was called a second time.
    RespondWithAlreadyCalled,
}

impl ScriptError {
    /// The exception text the script observes.
    pub open spec fn message_spec(self) -> Seq<char> {
        match self {
            ScriptError::UnsupportedEvent => "Only the `fetch` event is supported"@,
            ScriptError::DuplicateFetchListener => "`fetch` event listener can only be registered once"@,
            ScriptError::RespondWithAlreadyCalled => "FetchEvent.respondWith has already been called"@,
        }
    }

    pub fn message(&self) -> (r: String)
        ensures
            r@ == self.message_spec(),
    {
        match self {
            ScriptError::UnsupportedEvent => "Only the `fetch` event is supported".to_string(),
            ScriptError::DuplicateFetchListener => "`fetch` event listener can only be registered once".to_string(),
            ScriptError::RespondWithAlreadyCalled => "FetchEvent.respondWith has already been called".to_string(),
        }
    }
}

/// An error a worker reports for one request, or as its fatal state.
#[derive(Debug)]
pub enum WorkerError {
    /// The listener invocation failed without an engine error report.
    NoListener,
    /// Script execution raised an exception; the payload is the engine's
    /// formatted exception text.
    ScriptException(String),
    /// The engine reported a failure without an error report.
    UnknownRuntime,
    /// The fetch handler returned a value other than `undefined`.
    HandlerReturnedValue,
    /// The handler returned without calling `respondWith`.
    RespondWithNotCalled,
    /// A promise handed to `respondWith` rejected; the payload is the
    /// rejection value's `message` string, when it had one.
    RejectedPromise(Option<String>),
    /// A promise handed to `respondWith` fulfilled with a non-object.
    FulfilledNotObject,
    /// The object handed to `respondWith` is not a `Response` instance.
    NotResponseInstance,
    /// A response header name fails the HTTP header-name grammar.
    InvalidHeaderName(String),
    /// A response header value fails the HTTP header-value grammar.
    InvalidHeaderValue(String),
    /// The response status code is outside 100..=999.
    InvalidStatus(u16),
    /// Reading the response body to bytes failed; the payload is the
    /// host's description of the failure.
    BodyReadFailed(String),
    /// A pending response was finalised while its promise was still
    /// unsettled (the shutdown drain does this for abandoned promises).
    PromiseNotSettled,
}

impl WorkerError {
    /// The message a client sees in the body of the HTTP 500 response.
    pub open spec fn message_spec(self) -> Seq<char> {
        match self {
            WorkerError::NoListener => "Script execution failed"@,
            WorkerError::ScriptException(m) => "Runtime error: "@ + m@,
            WorkerError::UnknownRuntime => "Unknown runtime error"@,
            WorkerError::HandlerReturnedValue => "Script error: the fetch event handler should not return a value"@,
            WorkerError::RespondWithNotCalled => "Script error: FetchEvent.respondWith must be called with a Response object before returning"@,
            WorkerError::RejectedPromise(m) => match m {
                Some(msg) => "Script execution failed: "@ + msg@,
                None => "Script execution failed: <No error message>"@,
            },
            WorkerError::FulfilledNotObject => "Script error: value provided to respondWith was not an object"@,
            WorkerError::NotResponseInstance => "If an object is returned, it must be an instance of Response"@,
            WorkerError::InvalidHeaderName(_) => "invalid HTTP header name"@,
            WorkerError::InvalidHeaderValue(_) => "failed to parse header value"@,
            WorkerError::InvalidStatus(_) => "invalid status code"@,
            WorkerError::BodyReadFailed(m) => "Failed to read response body: "@ + m@,
            WorkerError::PromiseNotSettled => "Internal error: promise is not fulfilled yet"@,
        }
    }

    pub fn message(&self) -> (r: String)
        ensures
            r@ == self.message_spec(),
    {
        match self {
            WorkerError::NoListener => "Script execution failed".to_string(),
            WorkerError::ScriptException(m) => "Runtime error: ".to_string().concat(m.as_str()),
            WorkerError::UnknownRuntime => "Unknown runtime error".to_string(),
            WorkerError::HandlerReturnedValue => "Script error: the fetch event handler should not return a value".to_string(),
            WorkerError::RespondWithNotCalled => "Script error: FetchEvent.respondWith must be called with a Response object before returning".to_string(),
            WorkerError::RejectedPromise(m) => match m {
                Some(msg) => "Script execution failed: ".to_string().concat(msg.as_str()),
                None => "Script execution failed: <No error message>".to_string(),
            },
            WorkerError::FulfilledNotObject => "Script error: value provided to respondWith was not an object".to_string(),
            WorkerError::NotResponseInstance => "If an object is returned, it must be an instance of Response".to_string(),
            WorkerError::InvalidHeaderName(_) => "invalid HTTP header name".to_string(),
            WorkerError::InvalidHeaderValue(_) => "failed to parse header value".to_string(),
            WorkerError::InvalidStatus(_) => "invalid status code".to_string(),
            WorkerError::BodyReadFailed(m) => "Failed to read response body: ".to_string().concat(m.as_str()),
            WorkerError::PromiseNotSettled => "Internal error: promise is not fulfilled yet".to_string(),
        }
    }
}

/// Maps what the engine reported for a failed run — a formatted
/// exception, or nothing — to the worker error it becomes.
pub fn engine_error(report: Option<String>) -> (r: WorkerError)
    ensures
        report matches Some(m) ==> r == WorkerError::ScriptException(m),
        report is None ==> r == WorkerError::UnknownRuntime,
{
    match report {
        Some(m) => WorkerError::ScriptException(m),
        None => WorkerError::UnknownRuntime,
    }
}

impl Clone for WorkerError {
    fn clone(&self) -> (r: Self)
        ensures
            r == *self,
    {
        match self {
            WorkerError::NoListener => WorkerError::NoListener,
            WorkerError::ScriptException(m) => WorkerError::ScriptException(m.clone()),
            WorkerError::UnknownRuntime => WorkerError::UnknownRuntime,
            WorkerError::HandlerReturnedValue => WorkerError::HandlerReturnedValue,
            WorkerError::RespondWithNotCalled => WorkerError::RespondWithNotCalled,
            WorkerError::RejectedPromise(m) => WorkerError::RejectedPromise(
                match m {
                    Some(msg) => Some(msg.clone()),
                    None => None,
                },
            ),
            WorkerError::FulfilledNotObject => WorkerError::FulfilledNotObject,
            WorkerError::NotResponseInstance => WorkerError::NotResponseInstance,
            WorkerError::InvalidHeaderName(n) => WorkerError::InvalidHeaderName(n.clone()),
            WorkerError::InvalidHeaderValue(v) => WorkerError::InvalidHeaderValue(v.clone()),
            WorkerError::InvalidStatus(s) => WorkerError::InvalidStatus(*s),
            WorkerError::BodyReadFailed(m) => WorkerError::BodyReadFailed(m.clone()),
            WorkerError::PromiseNotSettled => WorkerError::PromiseNotSettled,
        }
    }
}

} // verus!
