//! Worker-pool and request-dispatch core of a JavaScript edge server.
//!
//! The server owns a pool of single-threaded script workers, routes each
//! HTTP request to one of them, drives the worker's event loop while
//! requests are in flight, and assembles HTTP responses from the values
//! the script hands back. This crate holds the decision logic of that
//! core — listener registration, `respondWith` capture, the worker loop's
//! state machine, load balancing, response building and shutdown — over
//! plain values; the embedding (threads, channels, the script engine
//! itself) lives outside and consults these functions.

use vstd::prelude::*;

pub mod dispatcher;
pub mod error;
pub mod event_listener;
pub mod fetch_event;
pub mod response;
pub mod shutdown;
pub mod worker;

verus! {

/// The script-visible event API variant a server runs with.
#[derive(Debug, Clone, Copy, PartialEq, Eq, Structural)]
pub enum HandlerName {
    WinterCG,
    Cloudflare,
}

/// Discards a send result: when the receiving end of a response channel
/// is gone, there is nobody left to tell.
pub fn ignore_error<E>(_r: Result<(), E>) {
}

} // verus!
