//! A uniform contract over fixed-width atomic integers.

use core::sync::atomic::Ordering;
use vstd::prelude::*;

verus! {

/// The operations a fixed-width atomic cell offers, together with the
/// park/unpark pair that keys on the cell's address.
///
/// Because the cell is shared between threads through `&self`, no contract
/// here pins the stored value: between any two calls another thread may have
/// changed it. The protocols built on top are therefore specified and proved
/// against explicit state models (see the `lock` and `workgroup` modules)
/// rather than through these signatures.
pub trait AtomicWrapper<TValueType: Copy>: Sized {
    /// A fresh cell holding `value`.
    fn new(value: TValueType) -> Self;

    /// Atomically read the current value.
    fn load(&self, order: Ordering) -> TValueType;

    /// Atomically overwrite the value.
    fn store(&self, value: TValueType, order: Ordering);

    /// Atomically replace `value_current` by `value_new` if the cell holds
    /// `value_current`. On success the replaced value — by definition
    /// `value_current` — comes back in `Ok`; on failure the differing value
    /// observed at the attempt comes back in `Err`, though by the time the
    /// caller looks the cell may hold anything again.
    fn compare_exchange(
        &self,
        value_current: TValueType,
        value_new: TValueType,
        order_success: Ordering,
        order_failure: Ordering,
    ) -> (r: Result<TValueType, TValueType>)
        ensures
            r matches Ok(previous) ==> previous == value_current,
    ;

    /// Atomically OR `value` into the cell, returning the previous value.
    fn fetch_or(&self, value: TValueType, order: Ordering) -> TValueType;

    /// Atomically AND `value` into the cell, returning the previous value.
    fn fetch_and(&self, value: TValueType, order: Ordering) -> TValueType;

    /// Value equality, decidable at runtime.
    fn value_eq(a: TValueType, b: TValueType) -> (r: bool)
        ensures
            r <==> a == b,
    ;

    /// Park the calling thread while the cell is observed to hold
    /// `expected_not`; may return spuriously at any time.
    fn park(&self, expected_not: TValueType);

    /// Wake at most one thread parked on this cell.
    fn unpark_one(&self);

    /// Wake every thread parked on this cell.
    fn unpark_all(&self);
}

} // verus!
