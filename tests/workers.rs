use kroeg::workers::extra_workers;

#[test]
fn workers_beside_a_listener() {
    assert_eq!(extra_workers(3, true), 3);
    assert_eq!(extra_workers(0, true), 0);
}

#[test]
fn one_worker_runs_in_the_foreground() {
    assert_eq!(extra_workers(3, false), 2);
    assert_eq!(extra_workers(1, false), 0);
    assert_eq!(extra_workers(0, false), 0);
}
