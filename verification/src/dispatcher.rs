//! The cross-thread worker pool: which worker serves the next request.
//!
//! The dispatcher keeps one record per spawned worker with its
//! in-flight gauge, and picks a worker for each request by a fixed,
//! deterministic policy: the first idle worker, else a fresh spawn
//! while below capacity, else the least-loaded worker with ties broken
//! towards the earliest-spawned. The threads, channels and the mutex
//! around this structure belong to the embedding; it consults
//! `find_or_spawn_thread` under its lock and mirrors the spawn
//! decision with a real thread.

use vstd::prelude::*;

verus! {

/// The dispatcher's record of one worker: how many requests are
/// currently routed to it and not yet answered. The join handle and
/// the inbox sender live beside it in the embedding, at the same
/// index.
#[derive(Debug, Clone, Copy, PartialEq, Eq, Structural)]
pub struct WorkerThreadInfo {
    pub in_flight_requests: i32,
}

/// What the selection policy decides for one request.
pub enum WorkerChoice {
    UseIdle(int),
    SpawnNew,
    UseLeastLoaded(int),
}

/// The position of the first idle worker — the first gauge at or
/// below zero — if any.
pub open spec fn first_idle(counts: Seq<i32>) -> Option<int>
    decreases counts.len(),
{
    if counts.len() == 0 {
        None
    } else if counts[0] <= 0 {
        Some(0int)
    } else {
        match first_idle(counts.drop_first()) {
            None => None,
            Some(i) => Some(i + 1),
        }
    }
}

/// The position of the smallest gauge, ties broken towards the
/// earliest position.
pub open spec fn min_loaded(counts: Seq<i32>) -> int
    decreases counts.len(),
{
    if counts.len() <= 1 {
        0
    } else {
        let m = min_loaded(counts.drop_last());
        if counts[counts.len() - 1] < counts[m] {
            counts.len() - 1
        } else {
            m
        }
    }
}

/// The selection policy, in order: idle reuse, spawn below capacity,
/// least-loaded. Being a function of the gauges alone, the choice is
/// deterministic: equal pool states always select the same worker.
pub open spec fn select_worker(counts: Seq<i32>, max: nat) -> WorkerChoice {
    match first_idle(counts) {
        Some(i) => WorkerChoice::UseIdle(i),
        None => if counts.len() < max {
            WorkerChoice::SpawnNew
        } else {
            WorkerChoice::UseLeastLoaded(min_loaded(counts))
        },
    }
}

proof fn lemma_first_idle_characterisation(counts: Seq<i32>)
    ensures
        match first_idle(counts) {
            Some(i) => 0 <= i < counts.len() && counts[i] <= 0 && (forall|j: int|
                0 <= j < i ==> counts[j] > 0),
            None => forall|j: int| 0 <= j < counts.len() ==> counts[j] > 0,
        },
    decreases counts.len(),
{
    if counts.len() == 0 {
    } else if counts[0] <= 0 {
    } else {
        let rest = counts.drop_first();
        lemma_first_idle_characterisation(rest);
        if first_idle(rest) is None {
            assert forall|j: int| 0 <= j < counts.len() implies counts[j] > 0 by {
                if j > 0 {
                    assert(rest[j - 1] == counts[j]);
                    assert(rest[j - 1] > 0);
                }
            }
        } else {
            let i = first_idle(rest)->Some_0;
            assert(first_idle(counts) == Some(i + 1));
            assert(rest[i] == counts[i + 1]);
            assert forall|j: int| 0 <= j < i + 1 implies counts[j] > 0 by {
                if j > 0 {
                    assert(rest[j - 1] == counts[j]);
                    assert(rest[j - 1] > 0);
                }
            }
        }
    }
}

proof fn lemma_min_loaded_characterisation(counts: Seq<i32>)
    requires
        counts.len() > 0,
    ensures
        0 <= min_loaded(counts) < counts.len(),
        forall|j: int| 0 <= j < counts.len() ==> counts[min_loaded(counts)] <= #[trigger] counts[j],
        forall|j: int| 0 <= j < min_loaded(counts) ==> #[trigger] counts[j] > counts[min_loaded(counts)],
    decreases counts.len(),
{
    if counts.len() == 1 {
    } else {
        let prefix = counts.drop_last();
        lemma_min_loaded_characterisation(prefix);
        let m = min_loaded(prefix);
        assert(prefix[m] == counts[m]);
        assert forall|j: int| 0 <= j < counts.len() implies counts[min_loaded(counts)]
            <= #[trigger] counts[j] by {
            if j < counts.len() - 1 {
                assert(prefix[j] == counts[j]);
                assert(prefix[m] <= prefix[j]);
            }
        }
        assert forall|j: int| 0 <= j < min_loaded(counts) implies #[trigger] counts[j]
            > counts[min_loaded(counts)] by {
            assert(prefix[j] == counts[j]);
            if j < m {
                assert(prefix[j] > prefix[m]);
            }
        }
    }
}

/// The worker pool and the request-routing state behind it.
pub struct IonRunner {
    pub threads: Vec<WorkerThreadInfo>,
    pub max_threads: usize,
    pub user_code: String,
}

impl IonRunner {
    /// The pool's invariant: capacity is at least one, never exceeded,
    /// and no gauge is ever negative.
    pub open spec fn wf(self) -> bool {
        &&& self.max_threads >= 1
        &&& self.threads@.len() <= self.max_threads
        &&& forall|i: int|
            0 <= i < self.threads@.len() ==> self.threads@[i].in_flight_requests >= 0
    }

    /// The gauges alone, in worker order.
    pub open spec fn counts(self) -> Seq<i32> {
        self.threads@.map_values(|t: WorkerThreadInfo| t.in_flight_requests)
    }

    /// A pool with no worker spawned yet. A zero capacity is rejected
    /// at construction; use `try_new` for inputs that are not known to
    /// be positive.
    pub fn new(max_threads: usize, user_code: String) -> (r: IonRunner)
        requires
            max_threads >= 1,
        ensures
            r.wf(),
            r.threads@.len() == 0,
            r.max_threads == max_threads,
            r.user_code == user_code,
    {
        IonRunner { threads: Vec::new(), max_threads, user_code }
    }

    /// Construction from an untrusted capacity: zero workers is
    /// meaningless, so it is rejected.
    pub fn try_new(max_threads: usize, user_code: String) -> (r: Option<IonRunner>)
        ensures
            max_threads == 0 <==> r is None,
            max_threads >= 1 ==> (r matches Some(run) && run.wf() && run.threads@.len() == 0
                && run.max_threads == max_threads && run.user_code == user_code),
    {
        if max_threads == 0 {
            None
        } else {
            Some(IonRunner::new(max_threads, user_code))
        }
    }

    /// Picks the worker for the next request and records a spawn when
    /// the policy calls for one: the result is the chosen index and
    /// whether the embedding must start a new worker thread there.
    /// The choice is exactly `select_worker` over the current gauges.
    pub fn find_or_spawn_thread(&mut self) -> (r: (usize, bool))
        requires
            old(self).wf(),
        ensures
            final(self).wf(),
            final(self).max_threads == old(self).max_threads,
            final(self).user_code == old(self).user_code,
            r.0 < final(self).threads@.len(),
            match select_worker(old(self).counts(), old(self).max_threads as nat) {
                WorkerChoice::UseIdle(i) => r.0 == i && !r.1 && final(self).threads@ == old(self).threads@,
                WorkerChoice::SpawnNew => r.0 == old(self).threads@.len() && r.1
                    && final(self).threads@ == old(self).threads@.push(
                    (WorkerThreadInfo { in_flight_requests: 0 }),
                ),
                WorkerChoice::UseLeastLoaded(i) => r.0 == i && !r.1 && final(self).threads@ == old(self).threads@,
            },
    {
        let ghost c = self.counts();
        proof {
            lemma_first_idle_characterisation(c);
        }
        let n = self.threads.len();
        let mut i: usize = 0;
        while i < n
            invariant
                0 <= i <= n,
                n == self.threads@.len(),
                *self == *old(self),
                old(self).wf(),
                c == self.counts(),
                forall|j: int| 0 <= j < i ==> c[j] > 0,
            decreases n - i,
        {
            if self.threads[i].in_flight_requests <= 0 {
                proof {
                    lemma_first_idle_characterisation(c);
                    assert(c[i as int] == self.threads@[i as int].in_flight_requests);
                    assert(first_idle(c) == Some(i as int));
                }
                return (i, false);
            }
            proof {
                assert(c[i as int] == self.threads@[i as int].in_flight_requests);
            }
            i = i + 1;
        }
        proof {
            lemma_first_idle_characterisation(c);
            assert(first_idle(c) is None);
        }
        if n < self.max_threads {
            self.threads.push(WorkerThreadInfo { in_flight_requests: 0 });
            return (n, true);
        }
        proof {
            lemma_min_loaded_characterisation(c);
        }
        let mut min_idx: usize = 0;
        let mut min_val: i32 = self.threads[0].in_flight_requests;
        let mut j: usize = 1;
        proof {
            assert(c[0] == self.threads@[0].in_flight_requests);
        }
        while j < n
            invariant
                n == self.threads@.len(),
                n >= 1,
                *self == *old(self),
                old(self).wf(),
                c == self.counts(),
                first_idle(c) is None,
                n == old(self).max_threads,
                0 <= min_idx < j <= n,
                min_val == c[min_idx as int],
                forall|k: int| 0 <= k < j ==> c[k] >= min_val,
                forall|k: int| 0 <= k < min_idx ==> c[k] > min_val,
            decreases n - j,
        {
            proof {
                assert(c[j as int] == self.threads@[j as int].in_flight_requests);
            }
            if self.threads[j].in_flight_requests < min_val {
                min_idx = j;
                min_val = self.threads[j].in_flight_requests;
            }
            j = j + 1;
        }
        proof {
            lemma_min_loaded_characterisation(c);
            let m = min_loaded(c);
            assert(c[min_idx as int] <= c[m]);
            assert(c[m] <= c[min_idx as int]);
            if m < min_idx {
                assert(c[m] > min_val);
                assert(false);
            }
            if min_idx < m {
                assert(c[min_idx as int] > c[m]);
                assert(false);
            }
        }
        (min_idx, false)
    }

    /// Routes one request to the worker at `idx`: its gauge goes up by
    /// one before the message is sent, and by exactly one.
    pub fn begin_request(&mut self, idx: usize)
        requires
            old(self).wf(),
            idx < old(self).threads@.len(),
            old(self).threads@[idx as int].in_flight_requests < i32::MAX,
        ensures
            final(self).wf(),
            final(self).max_threads == old(self).max_threads,
            final(self).user_code == old(self).user_code,
            final(self).threads@ == old(self).threads@.update(
                idx as int,
                (WorkerThreadInfo {
                    in_flight_requests: (old(self).threads@[idx as int].in_flight_requests + 1) as i32,
                }),
            ),
    {
        let cur = self.threads[idx].in_flight_requests;
        self.threads[idx] = WorkerThreadInfo { in_flight_requests: cur + 1 };
    }

    /// Settles one request routed to the worker at `idx`: its gauge
    /// goes back down by exactly one, and never below zero.
    pub fn end_request(&mut self, idx: usize)
        requires
            old(self).wf(),
            idx < old(self).threads@.len(),
            old(self).threads@[idx as int].in_flight_requests > 0,
        ensures
            final(self).wf(),
            final(self).max_threads == old(self).max_threads,
            final(self).user_code == old(self).user_code,
            final(self).threads@ == old(self).threads@.update(
                idx as int,
                (WorkerThreadInfo {
                    in_flight_requests: (old(self).threads@[idx as int].in_flight_requests - 1) as i32,
                }),
            ),
    {
        let cur = self.threads[idx].in_flight_requests;
        self.threads[idx] = WorkerThreadInfo { in_flight_requests: cur - 1 };
    }
}

/// The dispatcher-side scope guard for one routed request: creating it
/// raises the chosen worker's gauge, releasing it lowers the same
/// gauge. The embedding releases it on every exit path of its request
/// handler, successful or not.
pub struct IncrementGuard {
    pub idx: usize,
}

impl IncrementGuard {
    /// Raises the gauge of the worker at `idx` and remembers the index.
    pub fn new(runner: &mut IonRunner, idx: usize) -> (g: IncrementGuard)
        requires
            old(runner).wf(),
            idx < old(runner).threads@.len(),
            old(runner).threads@[idx as int].in_flight_requests < i32::MAX,
        ensures
            final(runner).wf(),
            g.idx == idx,
            final(runner).max_threads == old(runner).max_threads,
            final(runner).user_code == old(runner).user_code,
            final(runner).threads@ == old(runner).threads@.update(
                idx as int,
                (WorkerThreadInfo {
                    in_flight_requests: (old(runner).threads@[idx as int].in_flight_requests + 1) as i32,
                }),
            ),
    {
        runner.begin_request(idx);
        IncrementGuard { idx }
    }

    /// Lowers the gauge the guard was created for; consuming the guard
    /// makes a double release impossible.
    pub fn release(self, runner: &mut IonRunner)
        requires
            old(runner).wf(),
            self.idx < old(runner).threads@.len(),
            old(runner).threads@[self.idx as int].in_flight_requests > 0,
        ensures
            final(runner).wf(),
            final(runner).max_threads == old(runner).max_threads,
            final(runner).user_code == old(runner).user_code,
            final(runner).threads@ == old(runner).threads@.update(
                self.idx as int,
                (WorkerThreadInfo {
                    in_flight_requests: (old(runner).threads@[self.idx as int].in_flight_requests - 1) as i32,
                }),
            ),
    {
        runner.end_request(self.idx);
    }
}

/// Law: the in-flight gauge of every worker of a well-formed pool is
/// nonnegative, at all times — every operation above preserves `wf`.
pub proof fn lemma_in_flight_nonnegative(r: IonRunner, i: int)
    requires
        r.wf(),
        0 <= i < r.threads@.len(),
    ensures
        r.threads@[i].in_flight_requests >= 0,
{
}

/// Law: selection is idle-first — whenever the earliest worker is
/// idle, it is the one chosen, so a pool serving strictly sequential
/// requests keeps choosing worker zero.
pub proof fn lemma_select_idle_first(counts: Seq<i32>, max: nat)
    requires
        counts.len() > 0,
        counts[0] <= 0,
    ensures
        select_worker(counts, max) == WorkerChoice::UseIdle(0),
{
}

/// Law: a fresh pool spawns — the first request of a new dispatcher
/// always starts worker zero.
pub proof fn lemma_select_fresh_spawns(max: nat)
    requires
        max >= 1,
    ensures
        select_worker(Seq::empty(), max) == WorkerChoice::SpawnNew,
{
}

/// Law: while every worker is busy and the pool is below capacity,
/// the policy spawns, so concurrent load fills indexes 0, 1, 2, … in
/// order.
pub proof fn lemma_select_spawn_when_busy(counts: Seq<i32>, max: nat)
    requires
        forall|j: int| 0 <= j < counts.len() ==> counts[j] > 0,
        counts.len() < max,
    ensures
        select_worker(counts, max) == WorkerChoice::SpawnNew,
{
    lemma_first_idle_characterisation(counts);
    if first_idle(counts) is Some {
        assert(false);
    }
}

/// Law: at capacity with every worker busy, the least-loaded worker
/// is chosen, ties broken towards the earliest-spawned one.
pub proof fn lemma_select_least_loaded(counts: Seq<i32>, max: nat)
    requires
        counts.len() == max,
        max >= 1,
        forall|j: int| 0 <= j < counts.len() ==> counts[j] > 0,
    ensures
        select_worker(counts, max) matches WorkerChoice::UseLeastLoaded(m) && 0 <= m < counts.len()
            && (forall|j: int| 0 <= j < counts.len() ==> counts[m] <= counts[j]) && (forall|j: int|
            0 <= j < m ==> counts[j] > counts[m]),
{
    lemma_first_idle_characterisation(counts);
    if first_idle(counts) is Some {
        assert(false);
    }
    lemma_min_loaded_characterisation(counts);
}

} // verus!
