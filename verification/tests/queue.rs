use std::sync::atomic::{AtomicU32, Ordering};
use std::sync::{Arc, Mutex};
use workgroup::workgroup::job::{Job, SingleJob};
use workgroup::workgroup::job_queue::{JobQueue, WorkEvent};

struct RecordingJob {
    id: u32,
    log: Arc<Mutex<Vec<u32>>>,
}

impl Job for RecordingJob {
    fn run(&self) {
        self.log.lock().unwrap().push(self.id);
    }
}

#[test]
fn single_producer_fifo_order() {
    let log = Arc::new(Mutex::new(Vec::new()));
    let queue = JobQueue::new();
    for id in 0..5 {
        queue.push_job(RecordingJob { id, log: log.clone() });
    }
    for _ in 0..5 {
        match queue.wait_event() {
            Some(WorkEvent::Available(job)) => job.run(),
            _ => panic!("expected pending work"),
        }
    }
    assert_eq!(*log.lock().unwrap(), vec![0, 1, 2, 3, 4]);
}

#[test]
fn push_then_wait_is_not_lost() {
    let log = Arc::new(Mutex::new(Vec::new()));
    let queue = JobQueue::new();
    queue.push_job(RecordingJob { id: 9, log: log.clone() });
    match queue.wait_event() {
        Some(WorkEvent::Available(job)) => job.run(),
        _ => panic!("a pushed job must be handed out, not slept through"),
    }
    assert_eq!(*log.lock().unwrap(), vec![9]);
}

#[test]
fn exit_wins_over_pending_work_and_latches() {
    let log = Arc::new(Mutex::new(Vec::new()));
    let queue = JobQueue::new();
    queue.push_job(RecordingJob { id: 1, log: log.clone() });
    queue.flag_exit();
    assert!(matches!(queue.wait_event(), Some(WorkEvent::Exit)));
    assert!(matches!(queue.wait_event(), Some(WorkEvent::Exit)));
    assert!(log.lock().unwrap().is_empty());
}

#[test]
fn work_flag_clears_once_drained() {
    let log = Arc::new(Mutex::new(Vec::new()));
    let queue = JobQueue::new();
    assert!(queue.wait_work_consumed());
    queue.push_job(RecordingJob { id: 2, log: log.clone() });
    queue.push_job(RecordingJob { id: 3, log: log.clone() });
    for _ in 0..2 {
        match queue.wait_event() {
            Some(WorkEvent::Available(job)) => job.run(),
            _ => panic!("expected pending work"),
        }
    }
    assert!(queue.wait_work_consumed());
    assert_eq!(*log.lock().unwrap(), vec![2, 3]);
}

#[test]
fn queue_of_closure_jobs_counts_every_run() {
    let counter = Arc::new(AtomicU32::new(0));
    let queue = JobQueue::new();
    for _ in 0..100 {
        let counter = counter.clone();
        queue.push_job(SingleJob::new(move || {
            counter.fetch_add(1, Ordering::Relaxed);
        }));
    }
    for _ in 0..100 {
        match queue.wait_event() {
            Some(WorkEvent::Available(job)) => job.run(),
            _ => panic!("expected pending work"),
        }
    }
    assert_eq!(counter.load(Ordering::Relaxed), 100);
}
