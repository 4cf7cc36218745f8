//! Graceful shutdown of the worker pool.
//!
//! On the external shutdown signal the embedding stops accepting
//! connections, sends `Shutdown` to every worker inbox, and waits up
//! to a bounded time for the worker threads to join; workers past the
//! deadline are abandoned. The coordinator here decides what that one
//! signal must do — and that a repeated signal must do nothing.

use vstd::prelude::*;

verus! {

/// The orders one shutdown signal issues to the embedding: stop
/// accepting, send `Shutdown` to each of the `shutdown_sends` worker
/// inboxes, then join each thread, waiting at most `join_timeout`
/// seconds — unbounded when `None`.
#[derive(Debug, Clone, Copy, PartialEq, Eq, Structural)]
pub struct ShutdownPlan {
    pub shutdown_sends: usize,
    pub join_timeout: Option<u64>,
}

/// Remembers whether the pool has already been told to shut down.
#[derive(Debug, Clone, Copy, PartialEq, Eq, Structural)]
pub struct ShutdownCoordinator {
    pub signaled: bool,
}

/// What one signal does to the coordinator: the first signal marks it
/// and issues the full plan, every later one changes nothing and
/// issues nothing.
pub open spec fn signal_spec(s: ShutdownCoordinator, worker_count: usize, timeout: Option<u64>) -> (
    ShutdownCoordinator,
    Option<ShutdownPlan>,
) {
    if s.signaled {
        (s, None)
    } else {
        (
            ShutdownCoordinator { signaled: true },
            Some(ShutdownPlan { shutdown_sends: worker_count, join_timeout: timeout }),
        )
    }
}

impl ShutdownCoordinator {
    /// A coordinator that has not been signalled yet.
    pub fn new() -> (r: ShutdownCoordinator)
        ensures
            !r.signaled,
    {
        ShutdownCoordinator { signaled: false }
    }

    /// Takes one external shutdown signal: exactly `signal_spec`.
    pub fn signal(&mut self, worker_count: usize, timeout: Option<u64>) -> (r: Option<
        ShutdownPlan,
    >)
        ensures
            (*final(self), r) == signal_spec(*old(self), worker_count, timeout),
    {
        if self.signaled {
            None
        } else {
            self.signaled = true;
            Some(ShutdownPlan { shutdown_sends: worker_count, join_timeout: timeout })
        }
    }
}

/// Law: shutdown is idempotent — after one signal has issued its
/// plan, a second signal leaves the coordinator exactly as it was and
/// issues no further orders, so two invocations have the same effect
/// as one.
pub proof fn lemma_shutdown_idempotent(
    s: ShutdownCoordinator,
    worker_count: usize,
    timeout: Option<u64>,
)
    ensures
        ({
            let (s1, _p1) = signal_spec(s, worker_count, timeout);
            let (s2, p2) = signal_spec(s1, worker_count, timeout);
            s2 == s1 && p2 is None
        }),
{
}

/// The clean-shutdown deadline the boundary was configured with: zero
/// seconds means no deadline at all.
pub fn effective_timeout(seconds: u64) -> (r: Option<u64>)
    ensures
        seconds == 0 ==> r is None,
        seconds > 0 ==> r == Some(seconds),
{
    if seconds == 0 {
        None
    } else {
        Some(seconds)
    }
}

} // verus!
