//! Per-request event state, and plain-value images of the script values
//! the worker reads back from the engine.
//!
//! The engine's own objects never cross into this crate; the embedding
//! reads them on the worker thread and reports what it saw — whether a
//! value is a `Response` instance, a promise's state and settled value,
//! how a listener invocation ended — as the types below.

use vstd::prelude::*;

use crate::error::ScriptError;

verus! {

/// What the embedding read out of a script `Response` object: its
/// status, its header pairs in iteration order, and the outcome of
/// reading its body to bytes.
#[derive(Debug)]
pub struct ResponseSnapshot {
    /// Whether the object is an instance of the `Response` class.
    pub is_response_instance: bool,
    pub status: u16,
    pub headers: Vec<(String, String)>,
    /// The body bytes, or the host's description of the read failure.
    pub body: Result<Vec<u8>, String>,
}

/// A value the script handed to `respondWith`: either a (claimed)
/// response object, read out at once, or a promise the worker must
/// poll, identified by the handle the embedding rooted for it.
#[derive(Debug)]
pub enum RespondValue {
    Response(ResponseSnapshot),
    Promise(u64),
}

/// A promise's state at one inspection, together with everything the
/// response build needs from its settled value.
#[derive(Debug)]
pub enum PromiseSnapshot {
    Pending,
    /// Fulfilled with an object; the snapshot tells whether it was a
    /// `Response` instance and what it held.
    FulfilledObject(ResponseSnapshot),
    /// Fulfilled with a non-object value.
    FulfilledNonObject,
    /// Rejected; the payload is the rejection value's `message`
    /// property when that property was a string.
    Rejected(Option<String>),
}

/// How invoking the `fetch` listener ended.
#[derive(Debug)]
pub enum InvokeOutcome {
    /// No listener was ever registered.
    NoListener,
    /// The handler threw; the payload is the engine's formatted
    /// exception text.
    Threw(String),
    /// The handler returned; the flag tells whether the returned value
    /// was `undefined`.
    Returned { is_undefined: bool },
}

/// The private state of one `FetchEvent` host object.
///
/// `respond_called` flips to true the moment `respondWith` stores its
/// value; the two fields always move together, so the script can never
/// observe one without the other.
#[derive(Debug)]
pub struct FetchEventState {
    pub response_slot: Option<RespondValue>,
    pub respond_called: bool,
}

impl FetchEventState {
    /// The slot holds a value exactly when `respondWith` has been called.
    pub open spec fn wf(self) -> bool {
        self.respond_called <==> self.response_slot is Some
    }

    /// A fresh event: no response captured yet.
    pub fn new() -> (r: FetchEventState)
        ensures
            r.response_slot is None,
            !r.respond_called,
            r.wf(),
    {
        FetchEventState { response_slot: None, respond_called: false }
    }

    /// The decision behind the script-visible `respondWith`.
    ///
    /// The first call stores the value and marks the event responded in
    /// one step; a second call fails and leaves both the slot and the
    /// flag exactly as they were.
    pub fn respond_with(&mut self, value: RespondValue) -> (r: Result<(), ScriptError>)
        requires
            old(self).wf(),
        ensures
            final(self).wf(),
            old(self).respond_called ==> r == Err::<(), ScriptError>(
                ScriptError::RespondWithAlreadyCalled,
            ) && *final(self) == *old(self),
            !old(self).respond_called ==> r == Ok::<(), ScriptError>(())
                && final(self).response_slot == Some(value) && final(self).respond_called,
    {
        if self.respond_called {
            Err(ScriptError::RespondWithAlreadyCalled)
        } else {
            self.response_slot = Some(value);
            self.respond_called = true;
            Ok(())
        }
    }
}

} // verus!
