//! The single-registration slot for the script's `fetch` listener.
//!
//! Each worker holds exactly one such slot for its whole lifetime. The
//! script registers a handler through `addEventListener`; only the
//! `fetch` event is accepted, and only one registration ever succeeds.
//! The callback itself lives in the engine; the slot records it by the
//! opaque handle the embedding assigned to it.

use vstd::prelude::*;

use crate::error::ScriptError;

verus! {

/// A set-once cell holding the handle of the registered `fetch` callback.
#[derive(Debug, Clone, Copy, PartialEq, Eq, Structural)]
pub struct EventListenerSlot {
    pub callback: Option<u64>,
}

impl EventListenerSlot {
    /// A fresh worker has no listener registered.
    pub fn new() -> (r: EventListenerSlot)
        ensures
            r.callback is None,
    {
        EventListenerSlot { callback: None }
    }

    /// The decision behind the script-visible `addEventListener`.
    ///
    /// Any event name other than `fetch` is refused, and a second
    /// registration is refused; in both cases the slot is untouched, so
    /// at most one listener is ever held across the worker's lifetime.
    pub fn add_event_listener(&mut self, event: &String, callback: u64) -> (r: Result<
        (),
        ScriptError,
    >)
        ensures
            event@ != "fetch"@ ==> r == Err::<(), ScriptError>(ScriptError::UnsupportedEvent)
                && *final(self) == *old(self),
            event@ == "fetch"@ && old(self).callback is Some ==> r == Err::<(), ScriptError>(
                ScriptError::DuplicateFetchListener,
            ) && *final(self) == *old(self),
            event@ == "fetch"@ && old(self).callback is None ==> r == Ok::<(), ScriptError>(())
                && final(self).callback == Some(callback),
    {
        let fetch: String = "fetch".to_string();
        if !event.eq(&fetch) {
            return Err(ScriptError::UnsupportedEvent);
        }
        match self.callback {
            Some(_) => Err(ScriptError::DuplicateFetchListener),
            None => {
                self.callback = Some(callback);
                Ok(())
            },
        }
    }

    /// The callback the worker must hand to the engine for a request,
    /// or `None` when the script never registered one — in which case
    /// the invocation is reported as failed without an error report.
    pub fn invoke_fetch_event_callback(&self) -> (r: Option<u64>)
        ensures
            r == self.callback,
    {
        self.callback
    }
}

} // verus!
