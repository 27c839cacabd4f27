use thread_pool::lifecycle::PoolState;

#[test]
fn model_runs_every_task_exactly_counted() {
    let mut s = PoolState::new(2);
    s.submit();
    s.submit();
    s.submit();
    assert_eq!(s.submitted, 3);
    s.start_task();
    s.start_task();
    s.finish_task();
    s.start_task();
    s.finish_task();
    s.finish_task();
    s.begin_shutdown();
    s.worker_exit();
    s.worker_exit();
    assert_eq!(s.finished, 3);
    assert_eq!(s.finished, s.submitted);
    assert_eq!(s.pending, 0);
    assert_eq!(s.exited, 2);
    assert_eq!(s.idle, 0);
    assert_eq!(s.running, 0);
}

#[test]
fn model_concurrency_never_exceeds_workers() {
    let mut s = PoolState::new(2);
    s.submit();
    s.submit();
    s.submit();
    assert!(s.running <= s.workers);
    s.start_task();
    assert!(s.running <= s.workers);
    s.start_task();
    // both workers busy: no idle worker is left to begin the third task
    assert_eq!(s.running, 2);
    assert_eq!(s.idle, 0);
    assert!(s.running <= s.workers);
    s.finish_task();
    s.start_task();
    assert!(s.running <= s.workers);
    s.finish_task();
    s.finish_task();
    assert!(s.running <= s.workers);
}

#[test]
fn model_teardown_without_tasks() {
    let mut s = PoolState::new(5);
    s.begin_shutdown();
    for _ in 0..5 {
        s.worker_exit();
    }
    assert_eq!(s.exited, 5);
    assert_eq!(s.idle, 0);
    assert_eq!(s.running, 0);
    assert_eq!(s.finished, 0);
}
