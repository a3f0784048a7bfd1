use web_server::pool::Message;
use web_server::pool::PoolCore;
use web_server::pool::WorkerState;

fn job_id(m: Option<Message<u32>>) -> Option<u32> {
    match m {
        Some(Message::NewJob(id)) => Some(id),
        _ => None,
    }
}

fn busy_count(core: &PoolCore<u32>) -> usize {
    (0..core.worker_count())
        .filter(|&id| core.worker_state(id) == WorkerState::Busy)
        .count()
}

#[test]
fn new_pool_has_one_idle_worker_per_slot() {
    for size in 1..6usize {
        let core: PoolCore<u32> = PoolCore::new(size);
        assert_eq!(core.worker_count(), size);
        for id in 0..size {
            assert_eq!(core.worker_state(id), WorkerState::Idle);
        }
        assert_eq!(core.pending_len(), 0);
        assert!(!core.is_closing());
    }
}

#[test]
fn jobs_leave_the_queue_in_submission_order_once_each() {
    let mut core: PoolCore<u32> = PoolCore::new(2);
    core.execute(10);
    core.execute(11);
    core.execute(12);
    assert_eq!(core.pending_len(), 3);
    assert_eq!(job_id(core.recv(1)), Some(10));
    assert_eq!(job_id(core.recv(0)), Some(11));
    assert_eq!(core.pending_len(), 1);
    core.finish(1);
    assert_eq!(job_id(core.recv(1)), Some(12));
    assert_eq!(core.pending_len(), 0);
    core.finish(0);
    assert!(core.recv(0).is_none());
    assert_eq!(core.worker_state(0), WorkerState::Idle);
}

#[test]
fn empty_queue_leaves_worker_waiting() {
    let mut core: PoolCore<u32> = PoolCore::new(3);
    assert!(core.recv(2).is_none());
    assert_eq!(core.worker_state(2), WorkerState::Idle);
    assert_eq!(core.pending_len(), 0);
}

#[test]
fn in_flight_jobs_reach_pool_size() {
    let mut core: PoolCore<u32> = PoolCore::new(3);
    for j in 0..3 {
        core.execute(j);
    }
    for id in 0..3 {
        assert!(job_id(core.recv(id)).is_some());
    }
    assert_eq!(busy_count(&core), 3);
}

#[test]
fn in_flight_jobs_never_exceed_pool_size() {
    let mut core: PoolCore<u32> = PoolCore::new(2);
    for j in 0..5 {
        core.execute(j);
    }
    assert!(job_id(core.recv(0)).is_some());
    assert!(job_id(core.recv(1)).is_some());
    assert_eq!(busy_count(&core), 2);
    assert_eq!(core.pending_len(), 3);
}

#[test]
fn two_workers_run_four_jobs_in_two_waves() {
    let mut core: PoolCore<u32> = PoolCore::new(2);
    for j in 1..=4 {
        core.execute(j);
    }
    let mut log = Vec::new();
    let mut waves = 0;
    while core.pending_len() > 0 {
        let mut running = Vec::new();
        for id in 0..2 {
            if let Some(j) = job_id(core.recv(id)) {
                running.push((id, j));
            }
        }
        assert!(running.len() <= 2);
        for (id, j) in running {
            log.push(j);
            core.finish(id);
        }
        waves += 1;
    }
    assert_eq!(log, vec![1, 2, 3, 4]);
    assert_eq!(waves, 2);
}

#[test]
fn teardown_of_idle_pool_stops_every_worker() {
    let mut core: PoolCore<u32> = PoolCore::new(4);
    core.broadcast_terminate();
    assert!(core.is_closing());
    assert_eq!(core.pending_len(), 4);
    for id in 0..4 {
        assert!(matches!(core.recv(id), Some(Message::Terminate)));
        assert_eq!(core.worker_state(id), WorkerState::Terminated);
    }
    assert_eq!(core.pending_len(), 0);
}

#[test]
fn teardown_runs_jobs_queued_before_it() {
    let mut core: PoolCore<u32> = PoolCore::new(2);
    core.execute(1);
    core.execute(2);
    core.execute(3);
    assert_eq!(job_id(core.recv(0)), Some(1));
    core.broadcast_terminate();
    assert_eq!(core.pending_len(), 4);
    // Worker 1 takes the remaining jobs before any terminate message.
    assert_eq!(job_id(core.recv(1)), Some(2));
    core.finish(1);
    assert_eq!(job_id(core.recv(1)), Some(3));
    core.finish(1);
    assert!(matches!(core.recv(1), Some(Message::Terminate)));
    // Worker 0 finishes its job, then finds the terminate left for it.
    core.finish(0);
    assert!(matches!(core.recv(0), Some(Message::Terminate)));
    assert_eq!(core.worker_state(0), WorkerState::Terminated);
    assert_eq!(core.worker_state(1), WorkerState::Terminated);
    assert_eq!(core.pending_len(), 0);
}

#[test]
fn terminate_goes_to_whichever_worker_asks_first() {
    let mut core: PoolCore<u32> = PoolCore::new(2);
    core.broadcast_terminate();
    assert!(matches!(core.recv(1), Some(Message::Terminate)));
    assert_eq!(core.worker_state(1), WorkerState::Terminated);
    assert_eq!(core.worker_state(0), WorkerState::Idle);
    assert_eq!(core.pending_len(), 1);
    assert!(matches!(core.recv(0), Some(Message::Terminate)));
    assert_eq!(core.pending_len(), 0);
}
