//! A spin-then-park primitive layered on an atomic wrapper.

use core::sync::atomic::Ordering;
use vstd::prelude::*;

use super::platform;
use super::wrapper::AtomicWrapper;
use super::AtomicU32;

verus! {

/// The cap on park rounds for the waiting combinators.
///
/// Each round ends in an address-keyed park, so the cap is reached only after
/// that many wake-ups that all found the awaited condition still false. It is
/// a totality bound, not a timeout that practice can hit; callers are told
/// through the return value when it has elapsed.
pub const WAIT_ROUNDS: u32 = 0xFFFF_FFFF;

/// An atomic integer whose value changes can block and unblock threads, the
/// address of the cell serving as the park key.
///
/// The cell must keep a stable address for as long as any thread may park on
/// it: owners shared across threads pin it behind shared ownership (the job
/// queue, for instance, lives behind a reference-counted allocation in the
/// embedding program).
pub struct WaitableAtomic<TValueType: Copy, TAtomicWrapperType: AtomicWrapper<TValueType>> {
    atomic: TAtomicWrapperType,
    value_type: core::marker::PhantomData<TValueType>,
}

impl<TValueType: Copy, TAtomicWrapperType: AtomicWrapper<TValueType>> WaitableAtomic<
    TValueType,
    TAtomicWrapperType,
> {
    pub fn new(initial_value: TValueType) -> Self {
        WaitableAtomic {
            atomic: TAtomicWrapperType::new(initial_value),
            value_type: core::marker::PhantomData,
        }
    }

    /// Wake at most one thread parked on this cell.
    pub fn wake_one(&self) {
        self.atomic.unpark_one();
    }

    /// Wake every thread parked on this cell.
    pub fn wake_all(&self) {
        self.atomic.unpark_all();
    }

    /// Atomically read the current value.
    pub fn load(&self, order: Ordering) -> TValueType {
        self.atomic.load(order)
    }

    /// Atomically overwrite the value.
    pub fn store(&self, value: TValueType, order: Ordering) {
        self.atomic.store(value, order);
    }

    /// Atomically replace `value_current` by `value_new` if the cell holds
    /// `value_current`; a success reports the replaced value, a failure the
    /// differing value observed at the attempt.
    pub fn compare_exchange(
        &self,
        value_current: TValueType,
        value_new: TValueType,
        order_success: Ordering,
        order_failure: Ordering,
    ) -> (r: Result<TValueType, TValueType>)
        ensures
            r matches Ok(previous) ==> previous == value_current,
    {
        self.atomic.compare_exchange(value_current, value_new, order_success, order_failure)
    }

    /// Atomically OR `value` into the cell, returning the previous value.
    pub fn fetch_or(&self, value: TValueType, order: Ordering) -> TValueType {
        self.atomic.fetch_or(value, order)
    }

    /// Atomically AND `value` into the cell, returning the previous value.
    pub fn fetch_and(&self, value: TValueType, order: Ordering) -> TValueType {
        self.atomic.fetch_and(value, order)
    }

    /// Return a value the cell was observed to hold, parking once if it kept
    /// holding `expected_not` through `yield_count` spin rounds.
    ///
    /// Because the park may end spuriously, the returned value can still equal
    /// `expected_not`; callers re-check and call again. Short contention is
    /// thus resolved without a syscall, while sustained contention pays for
    /// one park.
    pub fn wait_not(&self, expected_not: TValueType, yield_count: u32) -> TValueType {
        let mut loop_count: u32 = 0;
        loop
            invariant
                loop_count <= yield_count,
            decreases yield_count - loop_count,
        {
            let value = self.atomic.load(Ordering::Relaxed);
            if !TAtomicWrapperType::value_eq(value, expected_not) {
                return value;
            }
            if loop_count < yield_count {
                platform::spin_pause();
                loop_count = loop_count + 1;
            } else {
                self.atomic.park(expected_not);
                return self.atomic.load(Ordering::Relaxed);
            }
        }
    }

    /// Wait until a value satisfying `check_functor` is observed and return
    /// it; `None` only in the pathological case that [`WAIT_ROUNDS`] park
    /// rounds all ended without one.
    ///
    /// The predicate is applied to a snapshot of the value, so it must not
    /// expect the cell to still hold what it was shown.
    pub fn wait_until<TCheckFuncType: Fn(TValueType) -> bool>(
        &self,
        check_functor: TCheckFuncType,
        yield_count: u32,
    ) -> (found: Option<TValueType>)
        requires
            forall|v: TValueType| #[trigger] check_functor.requires((v,)),
        ensures
            found matches Some(value) ==> check_functor.ensures((value,), true),
    {
        let mut rounds: u32 = 0;
        let mut curr = self.atomic.load(Ordering::Relaxed);
        loop
            invariant
                rounds <= WAIT_ROUNDS,
                forall|v: TValueType| #[trigger] check_functor.requires((v,)),
            decreases WAIT_ROUNDS - rounds,
        {
            if check_functor(curr) {
                return Some(curr);
            }
            if rounds == WAIT_ROUNDS {
                return None;
            }
            curr = self.wait_not(curr, yield_count);
            rounds = rounds + 1;
        }
    }

    /// Try to exchange `value_current` for `value_new`, parking between
    /// attempts while the cell holds something else. Returns whether the
    /// exchange won within the retry budget; `false` only in the pathological
    /// case that [`WAIT_ROUNDS`] waited-out attempts all lost the race.
    pub fn wait_exchange(
        &self,
        value_current: TValueType,
        value_new: TValueType,
        yield_count: u32,
        order_success: Ordering,
        order_failure: Ordering,
    ) -> (exchanged: bool) {
        let mut rounds: u32 = 0;
        loop
            invariant
                rounds <= WAIT_ROUNDS,
            decreases WAIT_ROUNDS - rounds,
        {
            match self.atomic.compare_exchange(
                value_current,
                value_new,
                order_success,
                order_failure,
            ) {
                Ok(_) => {
                    return true;
                },
                Err(_) => {},
            }
            if rounds == WAIT_ROUNDS {
                return false;
            }
            let _ = self.wait_until(
                move |value: TValueType| -> bool
                    {
                        TAtomicWrapperType::value_eq(value, value_current)
                    },
                yield_count,
            );
            rounds = rounds + 1;
        }
    }
}

impl WaitableAtomic<u32, AtomicU32> {
    /// Atomically add `value` (wrapping), returning the previous value.
    pub fn fetch_add(&self, value: u32, order: Ordering) -> u32 {
        self.atomic.fetch_add(value, order)
    }

    /// Atomically subtract `value` (wrapping), returning the previous value.
    pub fn fetch_sub(&self, value: u32, order: Ordering) -> u32 {
        self.atomic.fetch_sub(value, order)
    }
}

/// One operation on an atomic register.
///
/// The executable atomics above are shared between threads through `&self`,
/// so their signatures cannot pin the stored value: between any two calls
/// another thread may have moved it. What each operation does *at its own
/// linearization point* is stated here instead, as a function of the value
/// the cell holds at that instant.
pub enum RegisterOp {
    /// Overwrite the value.
    Store(u32),
    /// Replace the first value by the second if the cell holds the first.
    CompareExchange(u32, u32),
}

/// The value held immediately after applying `op` to a cell holding `value`.
pub open spec fn register_next(value: u32, op: RegisterOp) -> u32 {
    match op {
        RegisterOp::Store(new) => new,
        RegisterOp::CompareExchange(current, new) => if value == current {
            new
        } else {
            value
        },
    }
}

/// What the operation reports back: a store echoes the stored value; a
/// compare-exchange reports `Ok` with the replaced value when it won and
/// `Err` with the observed value when it did not.
pub open spec fn register_report(value: u32, op: RegisterOp) -> Result<u32, u32> {
    match op {
        RegisterOp::Store(new) => Ok(new),
        RegisterOp::CompareExchange(current, _new) => if value == current {
            Ok(value)
        } else {
            Err(value)
        },
    }
}

/// The value held after a whole run of operations, applied first to last.
pub open spec fn register_run(initial: u32, ops: Seq<RegisterOp>) -> u32
    decreases ops.len(),
{
    if ops.len() == 0 {
        initial
    } else {
        register_next(register_run(initial, ops.drop_last()), ops.last())
    }
}

/// Round trip: whatever ran before, a load right after `store(v)` observes
/// `v`.
pub proof fn lemma_register_store_load(initial: u32, ops: Seq<RegisterOp>, v: u32)
    ensures
        register_run(initial, ops.push(RegisterOp::Store(v))) == v,
{
    assert(ops.push(RegisterOp::Store(v)).drop_last() =~= ops);
}

/// A compare-exchange succeeds exactly when the value at its linearization
/// point equals the expected one, and only then does it write.
pub proof fn lemma_register_exchange(value: u32, current: u32, new: u32)
    ensures
        register_report(value, RegisterOp::CompareExchange(current, new)) is Ok <==> value
            == current,
        register_next(value, RegisterOp::CompareExchange(current, new)) == if value == current {
            new
        } else {
            value
        },
{
}

} // verus!
