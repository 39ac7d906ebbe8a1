use mt_server::pool::ConstructionError;
use mt_server::pool::Message;
use mt_server::pool::ShutdownError;
use mt_server::pool::SubmissionError;
use mt_server::pool::ThreadPool;
use mt_server::pool::WorkerState;
use mt_server::pool::worker_step;
use mt_server::pool::worker_task_done;

#[test]
fn zero_size_pool_is_rejected() {
    let r = ThreadPool::<u32>::new(0);
    assert_eq!(r.err(), Some(ConstructionError::ZeroSize));
}

#[test]
fn new_pool_starts_idle_and_empty() {
    let pool = ThreadPool::<u32>::new(3).unwrap();
    assert_eq!(pool.size(), 3);
    assert_eq!(pool.queued_len(), 0);
    for w in 0..3 {
        assert_eq!(pool.worker_state(w), WorkerState::Idle);
    }
}

#[test]
fn full_pool_runs_exactly_size_tasks_at_once() {
    // Pool of 4; five tasks that would all block: the first four occupy
    // all workers, the fifth cannot start until one of them finishes.
    let mut pool = ThreadPool::<u32>::new(4).unwrap();
    for t in 1..=5u32 {
        pool.execute(t).unwrap();
    }
    for w in 0..4 {
        match pool.receive(w) {
            Some(Message::NewJob(t)) => assert_eq!(t, (w + 1) as u32),
            _ => panic!("worker {} expected a job", w),
        }
        assert_eq!(pool.worker_state(w), WorkerState::Executing);
    }
    // All four workers are busy; the fifth task is still queued.
    assert_eq!(pool.queued_len(), 1);
    // One task finishes; only now can the fifth start.
    pool.finish(0);
    assert_eq!(pool.worker_state(0), WorkerState::Idle);
    match pool.receive(0) {
        Some(Message::NewJob(t)) => assert_eq!(t, 5),
        _ => panic!("expected the fifth task"),
    }
    assert_eq!(pool.queued_len(), 0);
}

#[test]
fn submit_after_shutdown_is_rejected_and_never_runs() {
    let mut pool = ThreadPool::<u32>::new(2).unwrap();
    pool.shutdown().unwrap();
    assert_eq!(pool.execute(9), Err(SubmissionError::Closed));
    // Drain: both workers get exactly their stop signal, never task 9.
    for w in 0..2 {
        match pool.receive(w) {
            Some(Message::Terminate) => {}
            _ => panic!("worker {} expected its stop message", w),
        }
        assert_eq!(pool.worker_state(w), WorkerState::Terminated);
    }
    assert_eq!(pool.queued_len(), 0);
}

#[test]
fn second_shutdown_is_an_explicit_error() {
    let mut pool = ThreadPool::<u32>::new(1).unwrap();
    assert!(pool.shutdown().is_ok());
    assert_eq!(pool.shutdown(), Err(ShutdownError::AlreadyShutdown));
}

#[test]
fn single_worker_pool_runs_tasks_in_submission_order() {
    // With pool size 1, tasks run in exactly the order submitted.
    let mut pool = ThreadPool::<u32>::new(1).unwrap();
    for t in [11u32, 22, 33, 44, 55] {
        pool.execute(t).unwrap();
    }
    let mut order = Vec::new();
    while pool.queued_len() > 0 {
        match pool.receive(0) {
            Some(Message::NewJob(t)) => {
                order.push(t);
                pool.finish(0);
            }
            _ => panic!("expected a job"),
        }
    }
    assert_eq!(order, vec![11, 22, 33, 44, 55]);
}

#[test]
fn each_task_runs_exactly_once() {
    // Seven tasks over three workers: every task is delivered exactly
    // once, counted per task.
    let m = 7usize;
    let mut pool = ThreadPool::<usize>::new(3).unwrap();
    for t in 0..m {
        pool.execute(t).unwrap();
    }
    let mut runs = vec![0usize; m];
    let mut w = 0usize;
    while pool.queued_len() > 0 {
        match pool.receive(w) {
            Some(Message::NewJob(t)) => {
                runs[t] += 1;
                pool.finish(w);
            }
            Some(Message::Terminate) => panic!("no stop was sent"),
            None => {}
        }
        w = (w + 1) % 3;
    }
    assert!(runs.iter().all(|&c| c == 1));
    assert_eq!(runs.iter().sum::<usize>(), m);
}

#[test]
fn shutdown_lets_queued_tasks_finish_first() {
    // Pool of two, three counting tasks, shutdown immediately after the
    // submissions: every task still runs (the counter reaches three)
    // before any worker sees its stop message, and afterwards no worker
    // is left running.
    let mut pool = ThreadPool::<u32>::new(2).unwrap();
    pool.execute(1).unwrap();
    pool.execute(2).unwrap();
    pool.execute(3).unwrap();
    pool.shutdown().unwrap();
    let mut counter = 0usize;
    let mut w = 0usize;
    while pool.queued_len() > 0 {
        match pool.receive(w) {
            Some(Message::NewJob(_)) => {
                counter += 1;
                pool.finish(w);
            }
            Some(Message::Terminate) => {
                assert_eq!(counter, 3, "a worker stopped before all tasks ran");
                w = (w + 1) % 2;
                continue;
            }
            None => {}
        }
        w = (w + 1) % 2;
    }
    assert_eq!(counter, 3);
    for id in 0..2 {
        assert_eq!(pool.worker_state(id), WorkerState::Terminated);
    }
}

#[test]
fn worker_state_machine_transitions() {
    let (state, action) = worker_step(WorkerState::Idle, Message::NewJob(7u32));
    assert_eq!(state, WorkerState::Executing);
    assert_eq!(action, Some(7));
    let (state, action) = worker_step::<u32>(WorkerState::Idle, Message::Terminate);
    assert_eq!(state, WorkerState::Terminated);
    assert_eq!(action, None);
    assert_eq!(worker_task_done(WorkerState::Executing), WorkerState::Idle);
}
