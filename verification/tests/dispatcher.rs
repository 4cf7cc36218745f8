use winterjs::dispatcher::{IncrementGuard, IonRunner};

fn runner(max: usize) -> IonRunner {
    IonRunner::new(max, String::from("addEventListener(\"fetch\", () => {})"))
}

#[test]
fn zero_capacity_is_rejected_at_construction() {
    let r = IonRunner::try_new(0, String::new());
    assert!(r.is_none());
}

#[test]
fn positive_capacity_is_accepted() {
    let r = IonRunner::try_new(3, String::from("code"));
    let r = r.expect("a positive capacity must be accepted");
    assert_eq!(r.max_threads, 3);
    assert_eq!(r.threads.len(), 0);
    assert_eq!(r.user_code, "code");
}

#[test]
fn fresh_dispatcher_spawns_worker_zero() {
    let mut r = runner(4);
    let (idx, spawned) = r.find_or_spawn_thread();
    assert_eq!(idx, 0);
    assert!(spawned);
    assert_eq!(r.threads.len(), 1);
    assert_eq!(r.threads[0].in_flight_requests, 0);
}

#[test]
fn sequential_requests_keep_choosing_worker_zero() {
    let mut r = runner(4);
    let (first, _) = r.find_or_spawn_thread();
    assert_eq!(first, 0);
    // Each request completes before the next arrives: the gauge is
    // back to zero, so worker 0 is idle and is chosen again.
    for _ in 0..3 {
        let (idx, spawned) = r.find_or_spawn_thread();
        assert_eq!(idx, 0);
        assert!(!spawned);
        r.begin_request(idx);
        r.end_request(idx);
    }
    assert_eq!(r.threads.len(), 1);
}

#[test]
fn busy_worker_forces_a_spawn() {
    let mut r = runner(4);
    let (idx0, _) = r.find_or_spawn_thread();
    r.begin_request(idx0);
    // Worker 0 still holds its request: the pool is below capacity,
    // so the next request starts worker 1.
    let (idx1, spawned) = r.find_or_spawn_thread();
    assert_eq!(idx1, 1);
    assert!(spawned);
}

#[test]
fn at_capacity_least_loaded_wins_with_earliest_tie_break() {
    let mut r = runner(2);
    let (idx0, _) = r.find_or_spawn_thread();
    r.begin_request(idx0);
    let (idx1, _) = r.find_or_spawn_thread();
    r.begin_request(idx1);
    r.begin_request(idx1);
    // Gauges are [1, 2]: worker 0 is the least loaded.
    let (idx, spawned) = r.find_or_spawn_thread();
    assert_eq!(idx, 0);
    assert!(!spawned);
    // Level the gauges to [2, 2]: the tie breaks to worker 0.
    r.begin_request(0);
    let (tie, _) = r.find_or_spawn_thread();
    assert_eq!(tie, 0);
}

#[test]
fn gauge_counts_up_and_down_and_never_below_zero() {
    let mut r = runner(1);
    let (idx, _) = r.find_or_spawn_thread();
    assert_eq!(r.threads[idx].in_flight_requests, 0);
    r.begin_request(idx);
    assert_eq!(r.threads[idx].in_flight_requests, 1);
    r.begin_request(idx);
    assert_eq!(r.threads[idx].in_flight_requests, 2);
    r.end_request(idx);
    r.end_request(idx);
    assert_eq!(r.threads[idx].in_flight_requests, 0);
}

#[test]
fn increment_guard_raises_and_release_lowers_the_same_gauge() {
    let mut r = runner(2);
    let (idx, _) = r.find_or_spawn_thread();
    let guard = IncrementGuard::new(&mut r, idx);
    assert_eq!(r.threads[idx].in_flight_requests, 1);
    guard.release(&mut r);
    assert_eq!(r.threads[idx].in_flight_requests, 0);
}
