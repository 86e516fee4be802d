//! The job queue: a FIFO of jobs behind a spin lock, plus a waitable state
//! byte carrying the `work-available` and `exit` flags.

use core::sync::atomic::Ordering;
use vstd::prelude::*;

use super::job::Job;
use crate::atomic::lock::spinlock::SpinLock;
use crate::atomic::lock::YIELD_BUDGET;
use crate::atomic::waitable::WAIT_ROUNDS;
use crate::atomic::WaitableAtomicU8;

verus! {

/// Bit flag on the state byte: the FIFO holds (or very recently held) work.
pub const FLAG_WORK_AVAILABLE: u8 = 0b0001;

/// Bit flag on the state byte: the queue is shutting down. Once set, it is
/// never cleared.
pub const FLAG_EXIT: u8 = 0b0010;

/// What a worker's wait ended with.
pub enum WorkEvent<TJob> {
    /// A job dequeued from the front of the FIFO.
    Available(TJob),
    /// The exit flag is set; the worker should return.
    Exit,
}

/// A FIFO of owned jobs behind a spin lock, plus a waitable state byte.
///
/// Workers block in [`JobQueue::wait_event`]; producers hand work in through
/// [`JobQueue::push_job`] and shut the queue down with
/// [`JobQueue::flag_exit`]. The queue must keep a stable address while any
/// worker waits on it, so a shared owner pins it behind reference-counted
/// ownership.
#[verifier::reject_recursive_types(TJob)]
pub struct JobQueue<TJob: Job> {
    job_queue: SpinLock<Vec<TJob>>,
    state: WaitableAtomicU8,
}

impl<TJob: Job> JobQueue<TJob> {
    /// The FIFO lock carries no payload restriction; established at
    /// construction, relied on wherever the lock is released.
    #[verifier::type_invariant]
    spec fn lock_unrestricted(self) -> bool {
        forall|jobs: Vec<TJob>| self.job_queue.inv(jobs)
    }

    pub fn new() -> Self {
        JobQueue { job_queue: SpinLock::new(Vec::new()), state: WaitableAtomicU8::new(0) }
    }

    /// Set the exit flag and wake every parked worker. The flag is never
    /// cleared again; waking all is what lets every worker observe it.
    pub fn flag_exit(&self) {
        let _ = self.state.fetch_or(FLAG_EXIT, Ordering::Release);
        self.state.wake_all();
    }

    /// Queue `job` at the back of the FIFO, publish the work flag, and wake
    /// one parked worker.
    ///
    /// The FIFO mutation happens under the lock and before the flag's
    /// release-ordered publication, so a worker that observes the flag and
    /// then takes the lock is guaranteed to see this entry or a newer state;
    /// everything the producer wrote before calling is visible to whichever
    /// worker dequeues the job.
    pub fn push_job(&self, job: TJob) {
        proof {
            use_type_invariant(self);
        }
        let (mut jobs, guard) = self.job_queue.lock();
        jobs.push(job);
        guard.unlock(jobs);
        let _ = self.state.fetch_or(FLAG_WORK_AVAILABLE, Ordering::Release);
        self.state.wake_one();
    }

    /// Park until a flag is set, then report it: the exit flag wins over
    /// pending work, pending work is popped from the front of the FIFO, and
    /// a worker that raced in after another worker took the last job goes
    /// back to parking.
    ///
    /// The work flag is cleared only here, under the FIFO lock, right after
    /// the pop that emptied the FIFO — a producer publishing a new job after
    /// that will set it again and wake someone, so no wake-up is lost.
    ///
    /// `None` is returned only in the pathological case that the budget of
    /// [`WAIT_ROUNDS`] park rounds elapsed with no flag set; callers simply
    /// call again.
    pub fn wait_event(&self) -> (event: Option<WorkEvent<TJob>>) {
        proof {
            use_type_invariant(self);
        }
        let mut rounds: u32 = 0;
        loop
            invariant
                rounds <= WAIT_ROUNDS,
                forall|jobs: Vec<TJob>| self.job_queue.inv(jobs),
            decreases WAIT_ROUNDS - rounds,
        {
            let state = self.state.wait_not(0, 0);
            if state & FLAG_EXIT != 0 {
                return Some(WorkEvent::Exit);
            }
            if state & FLAG_WORK_AVAILABLE != 0 {
                let (mut jobs, guard) = self.job_queue.lock();
                if jobs.len() > 0 {
                    let job = jobs.remove(0);
                    if jobs.len() == 0 {
                        let _ = self.state.fetch_and(!FLAG_WORK_AVAILABLE, Ordering::Release);
                    }
                    guard.unlock(jobs);
                    return Some(WorkEvent::Available(job));
                }
                guard.unlock(jobs);
            }
            if rounds == WAIT_ROUNDS {
                return None;
            }
            rounds = rounds + 1;
        }
    }

    /// Block until the work flag is observed clear. Advisory: the flag says
    /// nothing about jobs already dequeued and still running, so callers
    /// that need completion coordinate through their own counters. Returns
    /// whether a clear flag was observed within the wait budget.
    pub fn wait_work_consumed(&self) -> (observed_clear: bool) {
        let observed = self.state.wait_until(
            |state: u8| -> bool { state & FLAG_WORK_AVAILABLE == 0 },
            YIELD_BUDGET,
        );
        observed.is_some()
    }
}

/// The events of the queue protocol, each named after the operation whose
/// linearization point it is. Jobs are told apart by ghost identities.
pub enum QueueStep {
    /// `push_job`: the job joins the back of the FIFO and the work flag goes
    /// up. (In the running code the append happens under the FIFO lock just
    /// before the flag's publication; no reader touches the FIFO without
    /// having seen the flag first, so the two act as one step.)
    Push(int),
    /// `wait_event` finding work: the front job leaves the FIFO, and if that
    /// empties it, the work flag goes down. This is the only event that ever
    /// clears the work flag, and it fires under the FIFO lock having just
    /// observed the FIFO's contents.
    Pop,
    /// `flag_exit`: the exit flag goes up.
    FlagExit,
}

/// The abstract state of the job queue: the FIFO contents, the state byte,
/// and the history of what was pushed and popped.
pub struct QueueState {
    pub fifo: Seq<int>,
    pub flags: u8,
    pub pushed: Seq<int>,
    pub popped: Seq<int>,
}

/// The state of a freshly built queue.
pub open spec fn queue_init() -> QueueState {
    QueueState { fifo: Seq::empty(), flags: 0, pushed: Seq::empty(), popped: Seq::empty() }
}

/// Whether `step` can fire in state `s`: a pop happens only when a worker
/// that observed the work flag finds the FIFO non-empty under the lock.
pub open spec fn queue_enabled(s: QueueState, step: QueueStep) -> bool {
    match step {
        QueueStep::Push(_) => true,
        QueueStep::Pop => s.fifo.len() > 0 && s.flags & FLAG_WORK_AVAILABLE != 0,
        QueueStep::FlagExit => true,
    }
}

/// The state after `step` fires in state `s`.
pub open spec fn queue_next(s: QueueState, step: QueueStep) -> QueueState {
    match step {
        QueueStep::Push(job) => QueueState {
            fifo: s.fifo.push(job),
            flags: s.flags | FLAG_WORK_AVAILABLE,
            pushed: s.pushed.push(job),
            popped: s.popped,
        },
        QueueStep::Pop => QueueState {
            fifo: s.fifo.drop_first(),
            flags: if s.fifo.len() == 1 {
                s.flags & !FLAG_WORK_AVAILABLE
            } else {
                s.flags
            },
            pushed: s.pushed,
            popped: s.popped.push(s.fifo.first()),
        },
        QueueStep::FlagExit => QueueState {
            fifo: s.fifo,
            flags: s.flags | FLAG_EXIT,
            pushed: s.pushed,
            popped: s.popped,
        },
    }
}

/// The state after a run of steps, applied first to last, from the freshly
/// built queue.
pub open spec fn queue_run(steps: Seq<QueueStep>) -> QueueState
    decreases steps.len(),
{
    if steps.len() == 0 {
        queue_init()
    } else {
        queue_next(queue_run(steps.drop_last()), steps.last())
    }
}

/// Whether every step of the run was enabled at the moment it fired.
pub open spec fn queue_valid(steps: Seq<QueueStep>) -> bool
    decreases steps.len(),
{
    steps.len() == 0 || (queue_valid(steps.drop_last()) && queue_enabled(
        queue_run(steps.drop_last()),
        steps.last(),
    ))
}

/// The inductive invariant of the protocol: pending work keeps the work
/// flag up, and the pop history followed by the pending jobs is exactly the
/// push history.
pub open spec fn queue_inv(s: QueueState) -> bool {
    &&& (s.fifo.len() > 0 ==> s.flags & FLAG_WORK_AVAILABLE != 0)
    &&& s.pushed == s.popped + s.fifo
}

proof fn lemma_queue_flag_bits(f: u8)
    ensures
        (f | FLAG_WORK_AVAILABLE) & FLAG_WORK_AVAILABLE != 0,
        (f | FLAG_EXIT) & FLAG_WORK_AVAILABLE == f & FLAG_WORK_AVAILABLE,
        (f | FLAG_EXIT) & FLAG_EXIT != 0,
        (f | FLAG_WORK_AVAILABLE) & FLAG_EXIT == f & FLAG_EXIT,
        (f & !FLAG_WORK_AVAILABLE) & FLAG_EXIT == f & FLAG_EXIT,
{
    assert((f | 0x01u8) & 0x01u8 != 0) by (bit_vector);
    assert((f | 0x02u8) & 0x01u8 == f & 0x01u8) by (bit_vector);
    assert((f | 0x02u8) & 0x02u8 != 0) by (bit_vector);
    assert((f | 0x01u8) & 0x02u8 == f & 0x02u8) by (bit_vector);
    assert((f & !0x01u8) & 0x02u8 == f & 0x02u8) by (bit_vector);
}

pub proof fn lemma_queue_invariant(steps: Seq<QueueStep>)
    requires
        queue_valid(steps),
    ensures
        queue_inv(queue_run(steps)),
    decreases steps.len(),
{
    if steps.len() > 0 {
        lemma_queue_invariant(steps.drop_last());
        let prev = queue_run(steps.drop_last());
        lemma_queue_flag_bits(prev.flags);
        match steps.last() {
            QueueStep::Push(job) => {
                assert(prev.pushed.push(job) =~= prev.popped + prev.fifo.push(job));
            },
            QueueStep::Pop => {
                assert(prev.pushed =~= prev.popped.push(prev.fifo.first())
                    + prev.fifo.drop_first());
            },
            QueueStep::FlagExit => {},
        }
    }
}

/// Flag consistency: in every reachable state, a non-empty FIFO has the work
/// flag up.
pub proof fn lemma_flag_consistency(steps: Seq<QueueStep>)
    requires
        queue_valid(steps),
    ensures
        queue_run(steps).fifo.len() > 0 ==> queue_run(steps).flags & FLAG_WORK_AVAILABLE != 0,
{
    lemma_queue_invariant(steps);
}

/// The safety half of "no lost wake-up": pending work keeps the state byte
/// non-zero, so a worker parked on `wait_not(0, ·)` has its wake condition
/// already true and returns rather than sleeping. (That some worker is then
/// also scheduled in finite time is a liveness property of the host OS, not
/// provable here.)
pub proof fn lemma_pending_work_unparks(steps: Seq<QueueStep>)
    requires
        queue_valid(steps),
        queue_run(steps).fifo.len() > 0,
    ensures
        queue_run(steps).flags != 0,
{
    lemma_queue_invariant(steps);
    let flags = queue_run(steps).flags;
    assert(flags & 0x01u8 != 0 ==> flags != 0) by (bit_vector);
}

/// FIFO order: in every reachable state, the jobs popped so far are exactly
/// the front of the jobs pushed so far, in the same order. With a single
/// producer this is the submission order; concurrent producers interleave
/// at their push steps.
pub proof fn lemma_fifo_order(steps: Seq<QueueStep>)
    requires
        queue_valid(steps),
    ensures
        queue_run(steps).popped =~= queue_run(steps).pushed.take(
            queue_run(steps).popped.len() as int,
        ),
{
    lemma_queue_invariant(steps);
}

/// One step cannot take the exit flag down.
pub proof fn lemma_exit_latches_step(s: QueueState, step: QueueStep)
    requires
        s.flags & FLAG_EXIT != 0,
    ensures
        queue_next(s, step).flags & FLAG_EXIT != 0,
{
    lemma_queue_flag_bits(s.flags);
}

/// Shutdown latching: once the exit flag is up after some prefix of the
/// run, it is still up at the end — workers told to exit are never told
/// otherwise, and jobs pushed after shutdown stay unexecuted until the
/// queue is dropped.
pub proof fn lemma_exit_latches(steps: Seq<QueueStep>, prefix: int)
    requires
        0 <= prefix <= steps.len(),
        queue_run(steps.take(prefix)).flags & FLAG_EXIT != 0,
    ensures
        queue_run(steps).flags & FLAG_EXIT != 0,
    decreases steps.len() - prefix,
{
    if prefix == steps.len() {
        assert(steps.take(prefix) =~= steps);
    } else {
        let next = steps.take(prefix + 1);
        assert(next.drop_last() =~= steps.take(prefix));
        lemma_exit_latches_step(queue_run(steps.take(prefix)), next.last());
        lemma_exit_latches(steps, prefix + 1);
    }
}

} // verus!
