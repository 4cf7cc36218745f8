use winterjs::shutdown::{effective_timeout, ShutdownCoordinator, ShutdownPlan};

#[test]
fn first_signal_issues_the_full_plan() {
    let mut c = ShutdownCoordinator::new();
    let plan = c.signal(3, Some(60)).expect("the first signal must issue a plan");
    assert_eq!(plan, ShutdownPlan { shutdown_sends: 3, join_timeout: Some(60) });
    assert!(c.signaled);
}

#[test]
fn second_signal_changes_nothing_and_orders_nothing() {
    let mut c = ShutdownCoordinator::new();
    c.signal(2, Some(60)).unwrap();
    let after_one = c;
    let again = c.signal(2, Some(60));
    assert!(again.is_none());
    assert_eq!(c, after_one);
}

#[test]
fn zero_timeout_means_unbounded_waiting() {
    assert_eq!(effective_timeout(0), None);
    assert_eq!(effective_timeout(60), Some(60));
    assert_eq!(effective_timeout(1), Some(1));
}
