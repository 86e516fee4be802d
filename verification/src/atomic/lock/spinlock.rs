//! Mutual exclusion over a payload cell, using a waitable byte.

use core::sync::atomic::Ordering;
use vstd::prelude::*;
use vstd::rwlock::{RwLock, WriteHandle};

use super::super::WaitableAtomicU8;
use super::YIELD_BUDGET;

verus! {

/// Exclusive access to the payload of a [`SpinLock`], handed out by
/// [`SpinLock::lock`] together with the payload value.
///
/// The lock is released by [`SpinLockGuard::unlock`], which stores the
/// payload back; it is not released by merely dropping the guard.
#[verifier::reject_recursive_types(TObject)]
pub struct SpinLockGuard<'a, TObject> {
    handle: WriteHandle<'a, TObject, spec_fn(TObject) -> bool>,
    control: &'a WaitableAtomicU8,
    held_control: bool,
}

impl<'a, TObject> SpinLockGuard<'a, TObject> {
    /// The payload invariant of the lock this guard came from.
    pub closed spec fn inv(&self, object: TObject) -> bool {
        self.handle.rwlock().inv(object)
    }

    /// Store `object` back into the lock and release it: the control byte is
    /// cleared with release ordering, then one parked waiter is woken.
    pub fn unlock(self, object: TObject)
        requires
            self.inv(object),
    {
        let SpinLockGuard { handle, control, held_control } = self;
        handle.release_write(object);
        if held_control {
            control.store(0, Ordering::Release);
            control.wake_one();
        }
    }
}

/// A spin lock: a payload created inside the lock and owned by it, guarded by
/// a waitable byte holding `0` for free and `1` for held.
///
/// Acquisition spins briefly, then parks on the byte's address; release wakes
/// one waiter. Fairness is not promised — the lock is meant to guard short
/// critical sections such as a queue push or pop.
#[verifier::reject_recursive_types(TObject)]
pub struct SpinLock<TObject> {
    object: RwLock<TObject, spec_fn(TObject) -> bool>,
    control: WaitableAtomicU8,
}

impl<TObject> SpinLock<TObject> {
    /// The invariant every payload value stored in this lock satisfies.
    pub closed spec fn inv(&self, object: TObject) -> bool {
        self.object.inv(object)
    }

    /// A lock with a trivial payload invariant.
    pub fn new(object: TObject) -> (s: Self)
        ensures
            forall|t: TObject| s.inv(t),
    {
        SpinLock {
            object: RwLock::new(object, Ghost(|t: TObject| true)),
            control: WaitableAtomicU8::new(0),
        }
    }

    /// A lock whose payload is pinned to the invariant `inv`: every value
    /// handed out by [`SpinLock::lock`] satisfies it, and every value stored
    /// back through [`SpinLockGuard::unlock`] must.
    pub fn with_invariant(
        object: TObject,
        Ghost(inv): Ghost<spec_fn(TObject) -> bool>,
    ) -> (s: Self)
        requires
            inv(object),
        ensures
            forall|t: TObject| s.inv(t) == inv(t),
    {
        SpinLock { object: RwLock::new(object, Ghost(inv)), control: WaitableAtomicU8::new(0) }
    }

    /// Acquire the lock: the payload value moves out to the caller, and the
    /// guard takes it back on release.
    ///
    /// The control byte is won by exchanging `0` for `1` with acquire
    /// ordering, spinning then parking in between attempts. Should the
    /// practically unreachable retry budget ever elapse, the acquisition
    /// falls through to the payload cell itself, which still excludes
    /// holders from one another; only the parking courtesy is skipped.
    pub fn lock(&self) -> (r: (TObject, SpinLockGuard<TObject>))
        ensures
            self.inv(r.0),
            forall|t: TObject| #[trigger] r.1.inv(t) == self.inv(t),
    {
        let held_control = self.control.wait_exchange(
            0,
            1,
            YIELD_BUDGET,
            Ordering::Acquire,
            Ordering::Relaxed,
        );
        let (object, handle) = self.object.acquire_write();
        (object, SpinLockGuard { handle, control: &self.control, held_control })
    }
}

/// The two events of the spin-lock protocol: `Acquire` is the successful
/// exchange of `0` for `1` in [`SpinLock::lock`], `Release` the store of `0`
/// in [`SpinLockGuard::unlock`]. Failed exchange attempts, spinning and
/// parking do not change the control byte and so are not steps.
///
/// The model describes the protocol's ordinary regime. The budget-exhaustion
/// fallback in [`SpinLock::lock`] bypasses the byte entirely and leans on the
/// payload cell's own exclusion, so it neither fires steps nor disturbs the
/// invariant below.
pub enum SpinStep {
    Acquire,
    Release,
}

/// The abstract state of a spin lock: the control byte together with the
/// number of outstanding guards.
pub struct SpinState {
    pub control: u8,
    pub holders: nat,
}

/// The state of a freshly built lock: byte clear, no guards.
pub open spec fn spin_init() -> SpinState {
    SpinState { control: 0, holders: 0 }
}

/// Whether `step` can fire in state `s`: a guard is handed out only by the
/// exchange that observes the byte clear, and only a thread holding a guard
/// releases.
pub open spec fn spin_enabled(s: SpinState, step: SpinStep) -> bool {
    match step {
        SpinStep::Acquire => s.control == 0,
        SpinStep::Release => s.holders >= 1,
    }
}

/// The state after `step` fires in state `s`.
pub open spec fn spin_next(s: SpinState, step: SpinStep) -> SpinState {
    match step {
        SpinStep::Acquire => SpinState { control: 1, holders: s.holders + 1 },
        SpinStep::Release => SpinState { control: 0, holders: (s.holders - 1) as nat },
    }
}

/// The state after a run of steps, applied first to last, from the freshly
/// built lock.
pub open spec fn spin_run(steps: Seq<SpinStep>) -> SpinState
    decreases steps.len(),
{
    if steps.len() == 0 {
        spin_init()
    } else {
        spin_next(spin_run(steps.drop_last()), steps.last())
    }
}

/// Whether every step of the run was enabled at the moment it fired.
pub open spec fn spin_valid(steps: Seq<SpinStep>) -> bool
    decreases steps.len(),
{
    steps.len() == 0 || (spin_valid(steps.drop_last()) && spin_enabled(
        spin_run(steps.drop_last()),
        steps.last(),
    ))
}

/// The inductive invariant of the protocol: the control byte counts the
/// outstanding guards.
pub open spec fn spin_inv(s: SpinState) -> bool {
    s.holders == s.control as nat && s.control <= 1
}

pub proof fn lemma_spin_invariant(steps: Seq<SpinStep>)
    requires
        spin_valid(steps),
    ensures
        spin_inv(spin_run(steps)),
    decreases steps.len(),
{
    if steps.len() > 0 {
        lemma_spin_invariant(steps.drop_last());
    }
}

/// Mutual exclusion: however acquisitions and releases interleave, at most
/// one guard exists at a time.
pub proof fn lemma_spin_mutual_exclusion(steps: Seq<SpinStep>)
    requires
        spin_valid(steps),
    ensures
        spin_run(steps).holders <= 1,
{
    lemma_spin_invariant(steps);
}

} // verus!
