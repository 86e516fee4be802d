//! Many-readers-or-one-writer over a payload cell, using a waitable 32-bit
//! control word: the low 31 bits count active readers, the high bit is the
//! writer flag.

use core::sync::atomic::Ordering;
use vstd::prelude::*;
use vstd::rwlock::{ReadHandle, RwLock, WriteHandle};

use super::super::waitable::WAIT_ROUNDS;
use super::super::WaitableAtomicU32;
use super::YIELD_BUDGET;

verus! {

/// The writer flag: bit 31 of the control word.
pub const MASK_WRITE: u32 = 0x8000_0000;

/// The cap on the reader count. A reader that would push the count to
/// `MASK_WRITE` is refused and parks instead, so the count and the writer
/// flag can never be confused.
pub const READER_LIMIT: u32 = 0x7FFF_FFFF;

/// Shared access to the payload of a [`SpinRWLock`], handed out by
/// [`SpinRWLock::lock_read`] and released by [`ReadLockGuard::unlock`].
#[verifier::reject_recursive_types(TObject)]
pub struct ReadLockGuard<'a, TObject> {
    handle: ReadHandle<'a, TObject, spec_fn(TObject) -> bool>,
    control: &'a WaitableAtomicU32,
    counted: bool,
}

impl<'a, TObject> ReadLockGuard<'a, TObject> {
    /// The payload value this guard shares.
    pub closed spec fn value(&self) -> TObject {
        self.handle.view()
    }

    /// Shared access to the payload.
    pub fn borrow(&self) -> (object: &TObject)
        ensures
            *object == self.value(),
    {
        self.handle.borrow()
    }

    /// Release the read lock: the reader count is decremented with release
    /// ordering, then one parked waiter — a would-be writer is a legitimate
    /// target — is woken.
    pub fn unlock(self) {
        let ReadLockGuard { handle, control, counted } = self;
        handle.release_read();
        if counted {
            let _ = control.fetch_sub(1, Ordering::Release);
            control.wake_one();
        }
    }
}

/// Exclusive access to the payload of a [`SpinRWLock`], handed out by
/// [`SpinRWLock::lock_write`] together with the payload value and released by
/// [`WriteLockGuard::unlock`].
#[verifier::reject_recursive_types(TObject)]
pub struct WriteLockGuard<'a, TObject> {
    handle: WriteHandle<'a, TObject, spec_fn(TObject) -> bool>,
    control: &'a WaitableAtomicU32,
    held_control: bool,
}

impl<'a, TObject> WriteLockGuard<'a, TObject> {
    /// The payload invariant of the lock this guard came from.
    pub closed spec fn inv(&self, object: TObject) -> bool {
        self.handle.rwlock().inv(object)
    }

    /// Store `object` back and release the write lock: the control word is
    /// cleared with release ordering, then every parked waiter is woken —
    /// both a queued writer and any readers must be given a chance.
    pub fn unlock(self, object: TObject)
        requires
            self.inv(object),
    {
        let WriteLockGuard { handle, control, held_control } = self;
        handle.release_write(object);
        if held_control {
            control.store(0, Ordering::Release);
            control.wake_all();
        }
    }
}

/// A reader/writer spin lock: a payload created inside the lock and owned by
/// it, guarded by a waitable control word.
///
/// Writers may starve under continuous reader traffic; the lock promises
/// exclusion, not fairness.
#[verifier::reject_recursive_types(TObject)]
pub struct SpinRWLock<TObject> {
    object: RwLock<TObject, spec_fn(TObject) -> bool>,
    control: WaitableAtomicU32,
}

impl<TObject> SpinRWLock<TObject> {
    /// The invariant every payload value stored in this lock satisfies.
    pub closed spec fn inv(&self, object: TObject) -> bool {
        self.object.inv(object)
    }

    /// A lock with a trivial payload invariant.
    pub fn new(object: TObject) -> (s: Self)
        ensures
            forall|t: TObject| s.inv(t),
    {
        SpinRWLock {
            object: RwLock::new(object, Ghost(|t: TObject| true)),
            control: WaitableAtomicU32::new(0),
        }
    }

    /// A lock whose payload is pinned to the invariant `inv`.
    pub fn with_invariant(
        object: TObject,
        Ghost(inv): Ghost<spec_fn(TObject) -> bool>,
    ) -> (s: Self)
        requires
            inv(object),
        ensures
            forall|t: TObject| s.inv(t) == inv(t),
    {
        SpinRWLock { object: RwLock::new(object, Ghost(inv)), control: WaitableAtomicU32::new(0) }
    }

    /// Acquire a read lock: wait for a control value without the writer flag
    /// and below the reader cap, then try to raise the reader count by one;
    /// on a lost race, park and retry.
    ///
    /// Should the practically unreachable retry budget ever elapse, the
    /// acquisition falls through to the payload cell itself, without
    /// registering in the reader count; exclusion against writers still
    /// holds, only the parking courtesy is skipped.
    pub fn lock_read(&self) -> (guard: ReadLockGuard<TObject>)
        ensures
            self.inv(guard.value()),
    {
        let mut rounds: u32 = 0;
        loop
            invariant
                rounds <= WAIT_ROUNDS,
            decreases WAIT_ROUNDS - rounds,
        {
            let observed = self.control.load(Ordering::Relaxed);
            if observed & MASK_WRITE == 0 && observed < READER_LIMIT {
                match self.control.compare_exchange(
                    observed,
                    observed + 1,
                    Ordering::Acquire,
                    Ordering::Relaxed,
                ) {
                    Ok(_) => {
                        let handle = self.object.acquire_read();
                        return ReadLockGuard { handle, control: &self.control, counted: true };
                    },
                    Err(_) => {},
                }
            } else {
                let _ = self.control.wait_not(observed, YIELD_BUDGET);
            }
            if rounds == WAIT_ROUNDS {
                break;
            }
            rounds = rounds + 1;
        }
        let handle = self.object.acquire_read();
        ReadLockGuard { handle, control: &self.control, counted: false }
    }

    /// Acquire the write lock: exchange a control word of `0` — no readers,
    /// no writer — for the writer flag, spinning then parking in between
    /// attempts. The payload value moves out to the caller, and the guard
    /// takes it back on release.
    ///
    /// As with [`SpinRWLock::lock_read`], an elapsed retry budget falls
    /// through to the payload cell, which still excludes writers from
    /// readers and from one another.
    pub fn lock_write(&self) -> (r: (TObject, WriteLockGuard<TObject>))
        ensures
            self.inv(r.0),
            forall|t: TObject| #[trigger] r.1.inv(t) == self.inv(t),
    {
        let held_control = self.control.wait_exchange(
            0,
            MASK_WRITE,
            YIELD_BUDGET,
            Ordering::Acquire,
            Ordering::Relaxed,
        );
        let (object, handle) = self.object.acquire_write();
        (object, WriteLockGuard { handle, control: &self.control, held_control })
    }
}

/// The four events of the reader/writer protocol, named after the operations
/// that perform them: `ReadAcquire` is the successful count increment in
/// [`SpinRWLock::lock_read`], `ReadRelease` the decrement in
/// [`ReadLockGuard::unlock`], `WriteAcquire` the successful exchange of `0`
/// for the writer flag in [`SpinRWLock::lock_write`], and `WriteRelease` the
/// clearing store in [`WriteLockGuard::unlock`].
///
/// The model describes the protocol's ordinary regime. The budget-exhaustion
/// fallbacks bypass the control word entirely — an unregistered guard fires
/// no steps, takes no share of the count, and leans on the payload cell's
/// own exclusion.
pub enum RwStep {
    ReadAcquire,
    ReadRelease,
    WriteAcquire,
    WriteRelease,
}

/// The abstract state of a reader/writer lock: the control word together
/// with the numbers of outstanding read and write guards.
pub struct RwState {
    pub control: u32,
    pub readers: nat,
    pub writers: nat,
}

/// The state of a freshly built lock.
pub open spec fn rw_init() -> RwState {
    RwState { control: 0, readers: 0, writers: 0 }
}

/// Whether `step` can fire in state `s`: exactly the conditions the
/// executable paths check before their compare-exchange, and the fact that
/// only guard holders release.
pub open spec fn rw_enabled(s: RwState, step: RwStep) -> bool {
    match step {
        RwStep::ReadAcquire => s.control & MASK_WRITE == 0 && s.control < READER_LIMIT,
        RwStep::ReadRelease => s.readers >= 1,
        RwStep::WriteAcquire => s.control == 0,
        RwStep::WriteRelease => s.writers >= 1,
    }
}

/// The state after `step` fires in state `s`.
pub open spec fn rw_next(s: RwState, step: RwStep) -> RwState {
    match step {
        RwStep::ReadAcquire => RwState {
            control: (s.control + 1) as u32,
            readers: s.readers + 1,
            writers: s.writers,
        },
        RwStep::ReadRelease => RwState {
            control: (s.control - 1) as u32,
            readers: (s.readers - 1) as nat,
            writers: s.writers,
        },
        RwStep::WriteAcquire => RwState {
            control: MASK_WRITE,
            readers: s.readers,
            writers: s.writers + 1,
        },
        RwStep::WriteRelease => RwState {
            control: 0,
            readers: s.readers,
            writers: (s.writers - 1) as nat,
        },
    }
}

/// The state after a run of steps, applied first to last, from the freshly
/// built lock.
pub open spec fn rw_run(steps: Seq<RwStep>) -> RwState
    decreases steps.len(),
{
    if steps.len() == 0 {
        rw_init()
    } else {
        rw_next(rw_run(steps.drop_last()), steps.last())
    }
}

/// Whether every step of the run was enabled at the moment it fired.
pub open spec fn rw_valid(steps: Seq<RwStep>) -> bool
    decreases steps.len(),
{
    steps.len() == 0 || (rw_valid(steps.drop_last()) && rw_enabled(
        rw_run(steps.drop_last()),
        steps.last(),
    ))
}

/// The inductive invariant of the protocol: either the writer flag is up and
/// there is exactly one write guard and no read guard, or it is down and the
/// control word counts the read guards, capped below the flag.
pub open spec fn rw_inv(s: RwState) -> bool {
    &&& s.writers <= 1
    &&& (s.writers == 1 ==> s.control == MASK_WRITE && s.readers == 0)
    &&& (s.writers == 0 ==> s.control as nat == s.readers && s.control < MASK_WRITE)
}

proof fn lemma_write_bit_is_high(x: u32)
    ensures
        (x & 0x8000_0000u32 == 0) <==> x < 0x8000_0000u32,
{
    assert((x & 0x8000_0000u32 == 0) <==> x < 0x8000_0000u32) by (bit_vector);
}

pub proof fn lemma_rw_invariant(steps: Seq<RwStep>)
    requires
        rw_valid(steps),
    ensures
        rw_inv(rw_run(steps)),
    decreases steps.len(),
{
    if steps.len() > 0 {
        lemma_rw_invariant(steps.drop_last());
        let prev = rw_run(steps.drop_last());
        lemma_write_bit_is_high(prev.control);
    }
}

/// Reader/writer exclusion: however the four events interleave, read guards
/// and write guards never coexist, and write guards never coexist with one
/// another.
pub proof fn lemma_rw_exclusion(steps: Seq<RwStep>)
    requires
        rw_valid(steps),
    ensures
        rw_run(steps).readers > 0 ==> rw_run(steps).writers == 0,
        rw_run(steps).writers == 1 ==> rw_run(steps).readers == 0,
        rw_run(steps).writers <= 1,
{
    lemma_rw_invariant(steps);
}

} // verus!
