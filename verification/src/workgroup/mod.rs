//! The work group layer: jobs and the queue the workers drain.
//!
//! Worker threads themselves are plain OS threads and are spawned by the
//! embedding program; each one simply loops on [`JobQueue::wait_event`],
//! runs what it is handed, and returns when told to exit.

pub mod job;
pub mod job_queue;

pub use job::Job;
pub use job::ProducingJob;
pub use job::SingleJob;
pub use job_queue::JobQueue;
pub use job_queue::WorkEvent;
