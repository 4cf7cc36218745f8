//! The worker loop's state machine.
//!
//! A worker thread multiplexes three event sources — its inbox, the
//! engine's event loop, and a periodic poll tick — and keeps a vector
//! of requests whose handlers returned a still-pending promise. The
//! loop itself (channels, the selector, the engine) runs outside this
//! crate; every decision it takes goes through the functions here, and
//! the ghost `received` / `responded` ledgers prove that each accepted
//! request is answered exactly once by the time the pending vector is
//! empty.

use vstd::multiset::Multiset;
use vstd::prelude::*;

use crate::error::WorkerError;
use crate::fetch_event::{FetchEventState, InvokeOutcome, PromiseSnapshot, RespondValue};
use crate::response::{
    build_response, build_response_from_pending, build_response_spec, settle_response_spec,
    HttpResponse,
};

verus! {

/// The period of the worker selector's poll tick, in milliseconds: a
/// ceiling on how long a settled promise waits before a sweep notices
/// it.
pub const POLL_INTERVAL_MS: u64 = 1;

/// The head of one HTTP request, fully materialised as plain values.
#[derive(Debug)]
pub struct RequestHead {
    pub method: String,
    pub uri: String,
    pub headers: Vec<(String, String)>,
}

/// One request as it crosses the thread boundary into a worker: head
/// plus fully buffered body.
#[derive(Debug)]
pub struct RequestData {
    pub head: RequestHead,
    pub body: Option<Vec<u8>>,
}

/// What a worker sends back for one request.
#[derive(Debug)]
pub struct ResponseData(pub Result<HttpResponse, WorkerError>);

/// A message on a worker's inbox: a request paired with the handle of
/// its one-shot response channel, or the order to exit.
#[derive(Debug)]
pub enum ControlMessage {
    HandleRequest(RequestData, u64),
    Shutdown,
}

/// A request whose handler returned a promise that has not settled:
/// the promise's handle and the response channel it still owes.
#[derive(Debug, Clone, Copy, PartialEq, Eq, Structural)]
pub struct PendingResponse {
    pub promise: u64,
    pub responder: u64,
}

/// One response the embedding must now send: which channel, and what.
#[derive(Debug)]
pub struct ResponseAction {
    pub responder: u64,
    pub response: ResponseData,
}

/// Whether one inbox reception ends the steady-state loop: it does on
/// a `Shutdown` order and on a closed channel.
pub fn should_exit(msg: &Option<ControlMessage>) -> (r: bool)
    ensures
        r == (msg is None || msg matches Some(ControlMessage::Shutdown)),
{
    match msg {
        None => true,
        Some(ControlMessage::Shutdown) => true,
        Some(ControlMessage::HandleRequest(_, _)) => false,
    }
}

/// How `start_request` ends when it does not fail: a response built on
/// the spot, or a promise the worker must keep polling.
#[derive(Debug)]
pub enum StartOutcome {
    Immediate(HttpResponse),
    Pending(u64),
}

/// What starting one request yields, given how the listener invocation
/// ended and the event state the handler left behind: invocation
/// failures first, then the returned-a-value check, then the demand
/// that `respondWith` was called, and only then the captured value.
pub open spec fn start_request_spec(invoke: InvokeOutcome, event: FetchEventState) -> Result<
    StartOutcome,
    WorkerError,
> {
    match invoke {
        InvokeOutcome::NoListener => Err(WorkerError::NoListener),
        InvokeOutcome::Threw(m) => Err(WorkerError::ScriptException(m)),
        InvokeOutcome::Returned { is_undefined } => if !is_undefined {
            Err(WorkerError::HandlerReturnedValue)
        } else {
            match event.response_slot {
                None => Err(WorkerError::RespondWithNotCalled),
                Some(RespondValue::Promise(p)) => Ok(StartOutcome::Pending(p)),
                Some(RespondValue::Response(snap)) => match build_response_spec(snap) {
                    Ok(resp) => Ok(StartOutcome::Immediate(resp)),
                    Err(e) => Err(e),
                },
            }
        },
    }
}

/// Classifies one freshly arrived request: the exact outcome is
/// `start_request_spec`.
pub fn start_request(invoke: InvokeOutcome, event: FetchEventState) -> (r: Result<
    StartOutcome,
    WorkerError,
>)
    ensures
        r == start_request_spec(invoke, event),
{
    match invoke {
        InvokeOutcome::NoListener => Err(WorkerError::NoListener),
        InvokeOutcome::Threw(m) => Err(WorkerError::ScriptException(m)),
        InvokeOutcome::Returned { is_undefined } => {
            if !is_undefined {
                return Err(WorkerError::HandlerReturnedValue);
            }
            match event.response_slot {
                None => Err(WorkerError::RespondWithNotCalled),
                Some(RespondValue::Promise(p)) => Ok(StartOutcome::Pending(p)),
                Some(RespondValue::Response(snap)) => match build_response(snap) {
                    Ok(resp) => Ok(StartOutcome::Immediate(resp)),
                    Err(e) => Err(e),
                },
            }
        },
    }
}

/// The response channels a pending vector still owes, as a multiset.
pub open spec fn pending_ids(s: Seq<PendingResponse>) -> Multiset<u64>
    decreases s.len(),
{
    if s.len() == 0 {
        Multiset::empty()
    } else {
        pending_ids(s.drop_first()).insert(s[0].responder)
    }
}

/// The response channels a batch of actions answers, as a multiset.
pub open spec fn action_ids(s: Seq<ResponseAction>) -> Multiset<u64>
    decreases s.len(),
{
    if s.len() == 0 {
        Multiset::empty()
    } else {
        action_ids(s.drop_first()).insert(s[0].responder)
    }
}

/// A worker runs normally until a fatal engine or script-init error
/// degrades it; a degraded worker answers every further request with
/// the stored error until it is shut down.
#[derive(Debug)]
pub enum WorkerPhase {
    Running,
    Degraded(WorkerError),
}

/// The decision state of one worker between selector rounds.
pub struct WorkerState {
    pub phase: WorkerPhase,
    pub pending: Vec<PendingResponse>,
    /// Every response channel ever accepted with a `HandleRequest`.
    pub received: Ghost<Multiset<u64>>,
    /// Every response channel already answered.
    pub responded: Ghost<Multiset<u64>>,
}

impl WorkerState {
    /// The ledger balances: what came in is what went out plus what is
    /// still pending — and a degraded worker holds no pending work.
    pub open spec fn wf(self) -> bool {
        &&& self.received@ == self.responded@.add(pending_ids(self.pending@))
        &&& self.phase is Degraded ==> self.pending@.len() == 0
    }

    /// A worker right after initial evaluation of the user code: if
    /// that failed, the worker starts degraded with the failure stored.
    pub fn new(init: Result<(), WorkerError>) -> (r: WorkerState)
        ensures
            r.wf(),
            r.pending@.len() == 0,
            r.received@ == Multiset::<u64>::empty(),
            r.responded@ == Multiset::<u64>::empty(),
            init is Ok ==> r.phase is Running,
            forall|e: WorkerError| init == Err::<(), WorkerError>(e) ==> r.phase
                == WorkerPhase::Degraded(e),
    {
        let phase = match init {
            Ok(()) => WorkerPhase::Running,
            Err(e) => WorkerPhase::Degraded(e),
        };
        let r = WorkerState {
            phase,
            pending: Vec::new(),
            received: Ghost(Multiset::empty()),
            responded: Ghost(Multiset::empty()),
        };
        proof {
            assert(r.received@ =~= r.responded@.add(pending_ids(r.pending@)));
        }
        r
    }

    /// Takes one `HandleRequest` from the inbox.
    ///
    /// A running worker classifies it: an immediate response or an
    /// error is answered on the spot, a pending promise joins the
    /// pending vector. A degraded worker answers with its stored
    /// error. Either way the request is accounted for exactly once.
    pub fn on_request(
        &mut self,
        responder: u64,
        invoke: InvokeOutcome,
        event: FetchEventState,
    ) -> (r: Option<ResponseAction>)
        requires
            old(self).wf(),
        ensures
            final(self).wf(),
            final(self).phase == old(self).phase,
            final(self).received@ == old(self).received@.insert(responder),
            match old(self).phase {
                WorkerPhase::Degraded(e) => r matches Some(a) && a.responder == responder
                    && a.response.0 == Err::<HttpResponse, WorkerError>(e) && final(self).pending@
                    == old(self).pending@ && final(self).responded@ == old(
                    self,
                ).responded@.insert(responder),
                WorkerPhase::Running => match start_request_spec(invoke, event) {
                    Ok(StartOutcome::Pending(p)) => r is None && final(self).pending@ == old(
                        self,
                    ).pending@.push((PendingResponse { promise: p, responder: responder }))
                        && final(self).responded@ == old(self).responded@,
                    Ok(StartOutcome::Immediate(resp)) => r matches Some(a) && a.responder
                        == responder && a.response.0 == Ok::<HttpResponse, WorkerError>(resp)
                        && final(self).pending@ == old(self).pending@ && final(self).responded@
                        == old(self).responded@.insert(responder),
                    Err(e) => r matches Some(a) && a.responder == responder && a.response.0
                        == Err::<HttpResponse, WorkerError>(e) && final(self).pending@ == old(
                        self,
                    ).pending@ && final(self).responded@ == old(self).responded@.insert(responder),
                },
            },
    {
        self.received = Ghost(self.received@.insert(responder));
        let stored: Option<WorkerError> = match &self.phase {
            WorkerPhase::Degraded(e) => Some(e.clone()),
            WorkerPhase::Running => None,
        };
        match stored {
            Some(e) => {
                self.responded = Ghost(self.responded@.insert(responder));
                proof {
                    assert(self.received@ =~= self.responded@.add(pending_ids(self.pending@)));
                }
                Some(ResponseAction { responder, response: ResponseData(Err(e)) })
            },
            None => match start_request(invoke, event) {
                Ok(StartOutcome::Pending(p)) => {
                    self.pending.push(PendingResponse { promise: p, responder });
                    proof {
                        lemma_pending_ids_push(
                            old(self).pending@,
                            PendingResponse { promise: p, responder },
                        );
                        assert(self.received@ =~= self.responded@.add(pending_ids(self.pending@)));
                    }
                    None
                },
                Ok(StartOutcome::Immediate(resp)) => {
                    self.responded = Ghost(self.responded@.insert(responder));
                    proof {
                        assert(self.received@ =~= self.responded@.add(pending_ids(self.pending@)));
                    }
                    Some(ResponseAction { responder, response: ResponseData(Ok(resp)) })
                },
                Err(e) => {
                    self.responded = Ghost(self.responded@.insert(responder));
                    proof {
                        assert(self.received@ =~= self.responded@.add(pending_ids(self.pending@)));
                    }
                    Some(ResponseAction { responder, response: ResponseData(Err(e)) })
                },
            },
        }
    }
}

/// The entries a sweep keeps: those whose promise is still pending,
/// in their original order.
pub open spec fn sweep_remaining(
    pending: Seq<PendingResponse>,
    states: Seq<PromiseSnapshot>,
) -> Seq<PendingResponse>
    decreases pending.len(),
{
    if pending.len() == 0 {
        Seq::empty()
    } else {
        let rest = sweep_remaining(pending.drop_first(), states.drop_first());
        if states[0] is Pending {
            seq![pending[0]] + rest
        } else {
            rest
        }
    }
}

/// The responses a sweep sends: one per settled entry, in vector
/// order, each built from the promise's settled state.
pub open spec fn sweep_actions(
    pending: Seq<PendingResponse>,
    states: Seq<PromiseSnapshot>,
) -> Seq<ResponseAction>
    decreases pending.len(),
{
    if pending.len() == 0 {
        Seq::empty()
    } else {
        let rest = sweep_actions(pending.drop_first(), states.drop_first());
        if states[0] is Pending {
            rest
        } else {
            seq![
                (ResponseAction {
                    responder: pending[0].responder,
                    response: ResponseData(settle_response_spec(states[0])),
                }),
            ] + rest
        }
    }
}

/// The responses the shutdown drain sends: one per entry, in vector
/// order, finalising each promise as it stands — a still-pending one
/// earns the internal not-fulfilled error.
pub open spec fn drain_actions(
    pending: Seq<PendingResponse>,
    states: Seq<PromiseSnapshot>,
) -> Seq<ResponseAction>
    decreases pending.len(),
{
    if pending.len() == 0 {
        Seq::empty()
    } else {
        seq![
            (ResponseAction {
                responder: pending[0].responder,
                response: ResponseData(settle_response_spec(states[0])),
            }),
        ] + drain_actions(pending.drop_first(), states.drop_first())
    }
}

/// The responses a fatal engine error forces: every pending request is
/// answered with that error, in vector order.
pub open spec fn abort_actions(pending: Seq<PendingResponse>, e: WorkerError) -> Seq<ResponseAction>
    decreases pending.len(),
{
    if pending.len() == 0 {
        Seq::empty()
    } else {
        seq![
            (ResponseAction {
                responder: pending[0].responder,
                response: ResponseData(Err(e)),
            }),
        ] + abort_actions(pending.drop_first(), e)
    }
}

impl WorkerState {
    /// One pass over the pending vector after a selector round.
    ///
    /// `states` reports, index for index, where each pending promise
    /// stands now. Entries whose promise settled are answered and
    /// removed; the rest stay, in order.
    pub fn sweep(&mut self, states: Vec<PromiseSnapshot>) -> (r: Vec<ResponseAction>)
        requires
            old(self).wf(),
            states@.len() == old(self).pending@.len(),
        ensures
            final(self).wf(),
            final(self).phase == old(self).phase,
            final(self).received@ == old(self).received@,
            final(self).pending@ == sweep_remaining(old(self).pending@, states@),
            r@ == sweep_actions(old(self).pending@, states@),
            final(self).responded@ == old(self).responded@.add(action_ids(r@)),
    {
        let ghost pending0 = self.pending@;
        let ghost states0 = states@;
        let mut rest = states;
        let mut remaining: Vec<PendingResponse> = Vec::new();
        let mut actions: Vec<ResponseAction> = Vec::new();
        let n = self.pending.len();
        let mut i: usize = 0;
        proof {
            assert(pending0.skip(0) =~= pending0);
            assert(states0.skip(0) =~= states0);
        }
        while i < n
            invariant
                0 <= i <= n,
                self.pending@ == pending0,
                n == pending0.len(),
                states0.len() == n,
                rest@ == states0.skip(i as int),
                sweep_remaining(pending0, states0) == remaining@ + sweep_remaining(
                    pending0.skip(i as int),
                    states0.skip(i as int),
                ),
                sweep_actions(pending0, states0) == actions@ + sweep_actions(
                    pending0.skip(i as int),
                    states0.skip(i as int),
                ),
            decreases n - i,
        {
            let entry = self.pending[i];
            let st = rest.remove(0);
            proof {
                assert(pending0.skip(i as int)[0] == pending0[i as int]);
                assert(states0.skip(i as int)[0] == states0[i as int]);
                assert(pending0.skip(i as int).drop_first() =~= pending0.skip(i as int + 1));
                assert(states0.skip(i as int).drop_first() =~= states0.skip(i as int + 1));
            }
            let ghost remaining_before = remaining@;
            let ghost actions_before = actions@;
            match st {
                PromiseSnapshot::Pending => {
                    remaining.push(entry);
                    proof {
                        assert(remaining@ =~= remaining_before + seq![pending0[i as int]]);
                        assert(sweep_remaining(pending0, states0) =~= remaining@
                            + sweep_remaining(
                            pending0.skip(i as int + 1),
                            states0.skip(i as int + 1),
                        ));
                    }
                },
                settled => {
                    let response = ResponseData(build_response_from_pending(settled));
                    actions.push(ResponseAction { responder: entry.responder, response });
                    proof {
                        assert(actions@ =~= actions_before + seq![
                            (ResponseAction {
                                responder: pending0[i as int].responder,
                                response: ResponseData(settle_response_spec(states0[i as int])),
                            }),
                        ]);
                        assert(sweep_actions(pending0, states0) =~= actions@ + sweep_actions(
                            pending0.skip(i as int + 1),
                            states0.skip(i as int + 1),
                        ));
                    }
                },
            }
            i = i + 1;
        }
        proof {
            assert(pending0.skip(n as int) =~= Seq::<PendingResponse>::empty());
            assert(states0.skip(n as int) =~= Seq::<PromiseSnapshot>::empty());
            assert(sweep_remaining(pending0, states0) =~= remaining@);
            assert(sweep_actions(pending0, states0) =~= actions@);
        }
        self.pending = remaining;
        self.responded = Ghost(self.responded@.add(action_ids(actions@)));
        proof {
            lemma_sweep_partition(pending0, states0);
            assert(self.received@ =~= self.responded@.add(pending_ids(self.pending@)));
        }
        actions
    }

    /// The shutdown drain: after the final event-loop run, every
    /// outstanding entry is answered — from its settled state, or with
    /// the internal error when its promise never settled — so that no
    /// response channel is dropped silently.
    pub fn drain(&mut self, states: Vec<PromiseSnapshot>) -> (r: Vec<ResponseAction>)
        requires
            old(self).wf(),
            states@.len() == old(self).pending@.len(),
        ensures
            final(self).wf(),
            final(self).phase == old(self).phase,
            final(self).received@ == old(self).received@,
            final(self).pending@.len() == 0,
            r@ == drain_actions(old(self).pending@, states@),
            final(self).responded@ == old(self).responded@.add(action_ids(r@)),
            final(self).responded@ == final(self).received@,
    {
        let ghost pending0 = self.pending@;
        let ghost states0 = states@;
        let mut rest = states;
        let mut actions: Vec<ResponseAction> = Vec::new();
        let n = self.pending.len();
        let mut i: usize = 0;
        proof {
            assert(pending0.skip(0) =~= pending0);
            assert(states0.skip(0) =~= states0);
        }
        while i < n
            invariant
                0 <= i <= n,
                self.pending@ == pending0,
                n == pending0.len(),
                states0.len() == n,
                rest@ == states0.skip(i as int),
                drain_actions(pending0, states0) == actions@ + drain_actions(
                    pending0.skip(i as int),
                    states0.skip(i as int),
                ),
            decreases n - i,
        {
            let entry = self.pending[i];
            let st = rest.remove(0);
            proof {
                assert(pending0.skip(i as int)[0] == pending0[i as int]);
                assert(states0.skip(i as int)[0] == states0[i as int]);
                assert(pending0.skip(i as int).drop_first() =~= pending0.skip(i as int + 1));
                assert(states0.skip(i as int).drop_first() =~= states0.skip(i as int + 1));
            }
            let ghost actions_before = actions@;
            let response = ResponseData(build_response_from_pending(st));
            actions.push(ResponseAction { responder: entry.responder, response });
            proof {
                assert(actions@ =~= actions_before + seq![
                    (ResponseAction {
                        responder: pending0[i as int].responder,
                        response: ResponseData(settle_response_spec(states0[i as int])),
                    }),
                ]);
                assert(drain_actions(pending0, states0) =~= actions@ + drain_actions(
                    pending0.skip(i as int + 1),
                    states0.skip(i as int + 1),
                ));
            }
            i = i + 1;
        }
        proof {
            assert(pending0.skip(n as int) =~= Seq::<PendingResponse>::empty());
            assert(states0.skip(n as int) =~= Seq::<PromiseSnapshot>::empty());
            assert(drain_actions(pending0, states0) =~= actions@);
        }
        self.pending = Vec::new();
        self.responded = Ghost(self.responded@.add(action_ids(actions@)));
        proof {
            lemma_drain_partition(pending0, states0);
            assert(pending_ids(self.pending@) == Multiset::<u64>::empty());
            assert(self.received@ =~= self.responded@.add(pending_ids(self.pending@)));
            assert(self.responded@ =~= self.received@);
        }
        actions
    }

    /// A fatal engine event-loop error: the worker degrades, stores
    /// the error, and answers every pending request with it, so that
    /// nothing it accepted is left hanging.
    pub fn on_engine_fatal(&mut self, err: WorkerError) -> (r: Vec<ResponseAction>)
        requires
            old(self).wf(),
        ensures
            final(self).wf(),
            final(self).phase == WorkerPhase::Degraded(err),
            final(self).received@ == old(self).received@,
            final(self).pending@.len() == 0,
            r@ == abort_actions(old(self).pending@, err),
            final(self).responded@ == old(self).responded@.add(action_ids(r@)),
    {
        let ghost pending0 = self.pending@;
        let mut actions: Vec<ResponseAction> = Vec::new();
        let n = self.pending.len();
        let mut i: usize = 0;
        proof {
            assert(pending0.skip(0) =~= pending0);
        }
        while i < n
            invariant
                0 <= i <= n,
                self.pending@ == pending0,
                n == pending0.len(),
                abort_actions(pending0, err) == actions@ + abort_actions(
                    pending0.skip(i as int),
                    err,
                ),
            decreases n - i,
        {
            let entry = self.pending[i];
            proof {
                assert(pending0.skip(i as int)[0] == pending0[i as int]);
                assert(pending0.skip(i as int).drop_first() =~= pending0.skip(i as int + 1));
            }
            let ghost actions_before = actions@;
            actions.push(
                ResponseAction { responder: entry.responder, response: ResponseData(Err(err.clone())) },
            );
            proof {
                assert(actions@ =~= actions_before + seq![
                    (ResponseAction {
                        responder: pending0[i as int].responder,
                        response: ResponseData(Err(err)),
                    }),
                ]);
                assert(abort_actions(pending0, err) =~= actions@ + abort_actions(
                    pending0.skip(i as int + 1),
                    err,
                ));
            }
            i = i + 1;
        }
        proof {
            assert(pending0.skip(n as int) =~= Seq::<PendingResponse>::empty());
            assert(abort_actions(pending0, err) =~= actions@);
        }
        self.pending = Vec::new();
        self.phase = WorkerPhase::Degraded(err);
        self.responded = Ghost(self.responded@.add(action_ids(actions@)));
        proof {
            lemma_abort_partition(pending0, err);
            assert(pending_ids(self.pending@) == Multiset::<u64>::empty());
            assert(self.received@ =~= self.responded@.add(pending_ids(self.pending@)));
        }
        actions
    }
}

proof fn lemma_pending_ids_cons(e: PendingResponse, s: Seq<PendingResponse>)
    ensures
        pending_ids(seq![e] + s) == pending_ids(s).insert(e.responder),
{
    assert((seq![e] + s).drop_first() =~= s);
    assert((seq![e] + s)[0] == e);
}

proof fn lemma_action_ids_cons(a: ResponseAction, s: Seq<ResponseAction>)
    ensures
        action_ids(seq![a] + s) == action_ids(s).insert(a.responder),
{
    assert((seq![a] + s).drop_first() =~= s);
    assert((seq![a] + s)[0] == a);
}

/// A sweep neither invents nor loses a response channel: the owed
/// channels split exactly into those kept pending and those answered.
proof fn lemma_sweep_partition(pending: Seq<PendingResponse>, states: Seq<PromiseSnapshot>)
    requires
        pending.len() == states.len(),
    ensures
        pending_ids(pending) == pending_ids(sweep_remaining(pending, states)).add(
            action_ids(sweep_actions(pending, states)),
        ),
    decreases pending.len(),
{
    if pending.len() == 0 {
        assert(pending_ids(pending) =~= pending_ids(sweep_remaining(pending, states)).add(
            action_ids(sweep_actions(pending, states)),
        ));
    } else {
        lemma_sweep_partition(pending.drop_first(), states.drop_first());
        let rem_rest = sweep_remaining(pending.drop_first(), states.drop_first());
        let act_rest = sweep_actions(pending.drop_first(), states.drop_first());
        if states[0] is Pending {
            lemma_pending_ids_cons(pending[0], rem_rest);
            assert(pending_ids(pending) =~= pending_ids(sweep_remaining(pending, states)).add(
                action_ids(sweep_actions(pending, states)),
            ));
        } else {
            lemma_action_ids_cons(
                ResponseAction {
                    responder: pending[0].responder,
                    response: ResponseData(settle_response_spec(states[0])),
                },
                act_rest,
            );
            assert(pending_ids(pending) =~= pending_ids(sweep_remaining(pending, states)).add(
                action_ids(sweep_actions(pending, states)),
            ));
        }
    }
}

/// The drain answers exactly the owed channels.
proof fn lemma_drain_partition(pending: Seq<PendingResponse>, states: Seq<PromiseSnapshot>)
    requires
        pending.len() == states.len(),
    ensures
        pending_ids(pending) == action_ids(drain_actions(pending, states)),
    decreases pending.len(),
{
    if pending.len() == 0 {
        assert(pending_ids(pending) =~= action_ids(drain_actions(pending, states)));
    } else {
        lemma_drain_partition(pending.drop_first(), states.drop_first());
        lemma_action_ids_cons(
            ResponseAction {
                responder: pending[0].responder,
                response: ResponseData(settle_response_spec(states[0])),
            },
            drain_actions(pending.drop_first(), states.drop_first()),
        );
        assert(pending_ids(pending) =~= action_ids(drain_actions(pending, states)));
    }
}

/// The abort answers exactly the owed channels.
proof fn lemma_abort_partition(pending: Seq<PendingResponse>, e: WorkerError)
    ensures
        pending_ids(pending) == action_ids(abort_actions(pending, e)),
    decreases pending.len(),
{
    if pending.len() == 0 {
        assert(pending_ids(pending) =~= action_ids(abort_actions(pending, e)));
    } else {
        lemma_abort_partition(pending.drop_first(), e);
        lemma_action_ids_cons(
            ResponseAction { responder: pending[0].responder, response: ResponseData(Err(e)) },
            abort_actions(pending.drop_first(), e),
        );
        assert(pending_ids(pending) =~= action_ids(abort_actions(pending, e)));
    }
}

proof fn lemma_pending_ids_push(s: Seq<PendingResponse>, e: PendingResponse)
    ensures
        pending_ids(s.push(e)) == pending_ids(s).insert(e.responder),
    decreases s.len(),
{
    if s.len() == 0 {
        assert(s.push(e).drop_first() =~= Seq::<PendingResponse>::empty());
        assert(s.push(e)[0] == e);
        assert(pending_ids(Seq::<PendingResponse>::empty()) == Multiset::<u64>::empty());
        assert(pending_ids(s.push(e)) =~= pending_ids(s).insert(e.responder));
    } else {
        assert(s.push(e).drop_first() =~= s.drop_first().push(e));
        assert(s.push(e)[0] == s[0]);
        lemma_pending_ids_push(s.drop_first(), e);
        assert(pending_ids(s.push(e)) == pending_ids(s.drop_first().push(e)).insert(s[0].responder));
        assert(pending_ids(s.push(e)) =~= pending_ids(s).insert(e.responder));
    }
}

/// Law: a worker whose pending vector is empty has answered every
/// request it ever accepted, exactly once: the multiset of channels
/// answered is the multiset of channels received.
pub proof fn lemma_every_request_answered(s: WorkerState)
    requires
        s.wf(),
        s.pending@.len() == 0,
    ensures
        s.responded@ == s.received@,
{
    assert(s.received@ =~= s.responded@);
}

} // verus!
