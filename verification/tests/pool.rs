use thread_pool::{next_action, worker_step, PoolCore, PoolError, WorkerAction};

#[test]
fn zero_workers_rejected() {
    match PoolCore::<i32>::new(0) {
        Err(e) => assert_eq!(e, PoolError::ZeroWorkers),
        Ok(_) => panic!("a pool with zero workers must be rejected"),
    }
}

#[test]
fn one_receiver_per_worker() {
    let (core, receivers) = PoolCore::<i32>::new(5).expect("five workers are enough");
    assert_eq!(core.worker_count(), 5);
    assert_eq!(receivers.len(), 5);
}

#[test]
fn worker_runs_received_task() {
    assert_eq!(worker_step(Some(7)), WorkerAction::Run(7));
}

#[test]
fn worker_exits_on_closure() {
    assert_eq!(worker_step(None::<i32>), WorkerAction::Exit);
}

#[test]
fn submitted_task_reaches_a_worker() {
    let (core, receivers) = PoolCore::<i32>::new(1).expect("one worker is enough");
    assert!(core.submit(42).is_ok());
    assert_eq!(next_action(&receivers[0]), WorkerAction::Run(42));
}

#[test]
fn submit_after_workers_gone_returns_task() {
    let (core, receivers) = PoolCore::<i32>::new(1).expect("one worker is enough");
    drop(receivers);
    assert_eq!(core.submit(7), Err(7));
}

#[test]
fn teardown_drains_submitted_tasks() {
    let (core, receivers) = PoolCore::<i32>::new(2).expect("two workers are enough");
    for i in 0..4 {
        assert!(core.submit(i).is_ok());
    }
    drop(core);
    let mut got: Vec<i32> = Vec::new();
    loop {
        match next_action(&receivers[0]) {
            WorkerAction::Run(task) => got.push(task),
            WorkerAction::Exit => break,
        }
    }
    assert_eq!(got, vec![0, 1, 2, 3]);
    assert_eq!(next_action(&receivers[1]), WorkerAction::Exit);
}

#[test]
fn tags_all_executed_once() {
    let (core, receivers) = PoolCore::<&'static str>::new(5).expect("five workers are enough");
    assert!(core.submit("Task1").is_ok());
    assert!(core.submit("Task2").is_ok());
    assert!(core.submit("Task3").is_ok());
    drop(core);
    let mut done: Vec<&'static str> = Vec::new();
    loop {
        match next_action(&receivers[0]) {
            WorkerAction::Run(tag) => done.push(tag),
            WorkerAction::Exit => break,
        }
    }
    for r in &receivers[1..] {
        assert_eq!(next_action(r), WorkerAction::Exit);
    }
    assert_eq!(done.len(), 3);
    for tag in ["Task1", "Task2", "Task3"] {
        assert_eq!(done.iter().filter(|t| **t == tag).count(), 1);
    }
}

#[test]
fn single_worker_serializes_tasks() {
    let (core, receivers) = PoolCore::<i32>::new(1).expect("one worker is enough");
    assert!(core.submit(1).is_ok());
    assert!(core.submit(2).is_ok());
    let first = next_action(&receivers[0]);
    let second = next_action(&receivers[0]);
    assert_eq!(first, WorkerAction::Run(1));
    assert_eq!(second, WorkerAction::Run(2));
}

#[test]
fn immediate_teardown_with_no_tasks() {
    let (core, receivers) = PoolCore::<i32>::new(5).expect("five workers are enough");
    drop(core);
    for r in &receivers {
        assert_eq!(next_action(r), WorkerAction::Exit);
    }
}
