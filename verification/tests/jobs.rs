use std::sync::atomic::{AtomicU32, Ordering};
use std::sync::Arc;
use workgroup::workgroup::job::{Job, ProducingJob, SingleJob};

#[test]
fn single_job_runs_its_callable() {
    let counter = Arc::new(AtomicU32::new(0));
    let inner = counter.clone();
    let job = SingleJob::new(move || {
        inner.fetch_add(1, Ordering::Relaxed);
    });
    job.run();
    assert_eq!(counter.load(Ordering::Relaxed), 1);
}

#[test]
fn producing_job_runs_and_drops_its_result() {
    let counter = Arc::new(AtomicU32::new(0));
    let inner = counter.clone();
    let job = ProducingJob::new(move || -> u32 {
        inner.fetch_add(1, Ordering::Relaxed);
        42
    });
    job.run();
    assert_eq!(counter.load(Ordering::Relaxed), 1);
}
