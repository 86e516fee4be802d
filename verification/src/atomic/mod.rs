//! Atomic wrappers and the waitable atomics built from them.

use core::sync::atomic::Ordering;
use vstd::prelude::*;

pub mod lock;
pub mod platform;
pub mod waitable;
pub mod wrapper;

use self::waitable::WaitableAtomic;
use self::wrapper::AtomicWrapper;

verus! {

proof fn lemma_low_byte_bounded(x: u32)
    ensures
        x & 0xFF < 256,
{
    assert(x & 0xFF < 256) by (bit_vector);
}

/// An 8-bit atomic value.
///
/// The value is held zero-extended in a 32-bit cell, because the host's
/// parking facility keys on 32-bit words; every operation keeps the upper
/// 24 bits zero.
pub struct AtomicU8 {
    cell: core::sync::atomic::AtomicU32,
}

impl AtomicWrapper<u8> for AtomicU8 {
    fn new(value: u8) -> Self {
        AtomicU8 { cell: core::sync::atomic::AtomicU32::new(value as u32) }
    }

    fn load(&self, order: Ordering) -> u8 {
        let wide = self.cell.load(order);
        proof {
            lemma_low_byte_bounded(wide);
        }
        (wide & 0xFF) as u8
    }

    fn store(&self, value: u8, order: Ordering) {
        self.cell.store(value as u32, order);
    }

    fn compare_exchange(
        &self,
        value_current: u8,
        value_new: u8,
        order_success: Ordering,
        order_failure: Ordering,
    ) -> Result<u8, u8> {
        match self.cell.compare_exchange(
            value_current as u32,
            value_new as u32,
            order_success,
            order_failure,
        ) {
            Ok(_) => Ok(value_current),
            Err(observed) => {
                proof {
                    lemma_low_byte_bounded(observed);
                }
                Err((observed & 0xFF) as u8)
            },
        }
    }

    fn fetch_or(&self, value: u8, order: Ordering) -> u8 {
        let previous = self.cell.fetch_or(value as u32, order);
        proof {
            lemma_low_byte_bounded(previous);
        }
        (previous & 0xFF) as u8
    }

    fn fetch_and(&self, value: u8, order: Ordering) -> u8 {
        let previous = self.cell.fetch_and(value as u32, order);
        proof {
            lemma_low_byte_bounded(previous);
        }
        (previous & 0xFF) as u8
    }

    fn value_eq(a: u8, b: u8) -> (r: bool) {
        a == b
    }

    fn park(&self, expected_not: u8) {
        platform::futex_wait(&self.cell, expected_not as u32);
    }

    fn unpark_one(&self) {
        platform::futex_wake_one(&self.cell);
    }

    fn unpark_all(&self) {
        platform::futex_wake_all(&self.cell);
    }
}

/// A waitable 8-bit atomic.
pub type WaitableAtomicU8 = WaitableAtomic<u8, AtomicU8>;

/// A 32-bit atomic value.
pub struct AtomicU32 {
    cell: core::sync::atomic::AtomicU32,
}

impl AtomicWrapper<u32> for AtomicU32 {
    fn new(value: u32) -> Self {
        AtomicU32 { cell: core::sync::atomic::AtomicU32::new(value) }
    }

    fn load(&self, order: Ordering) -> u32 {
        self.cell.load(order)
    }

    fn store(&self, value: u32, order: Ordering) {
        self.cell.store(value, order);
    }

    fn compare_exchange(
        &self,
        value_current: u32,
        value_new: u32,
        order_success: Ordering,
        order_failure: Ordering,
    ) -> Result<u32, u32> {
        match self.cell.compare_exchange(value_current, value_new, order_success, order_failure) {
            Ok(_) => Ok(value_current),
            Err(observed) => Err(observed),
        }
    }

    fn fetch_or(&self, value: u32, order: Ordering) -> u32 {
        self.cell.fetch_or(value, order)
    }

    fn fetch_and(&self, value: u32, order: Ordering) -> u32 {
        self.cell.fetch_and(value, order)
    }

    fn value_eq(a: u32, b: u32) -> (r: bool) {
        a == b
    }

    fn park(&self, expected_not: u32) {
        platform::futex_wait(&self.cell, expected_not);
    }

    fn unpark_one(&self) {
        platform::futex_wake_one(&self.cell);
    }

    fn unpark_all(&self) {
        platform::futex_wake_all(&self.cell);
    }
}

impl AtomicU32 {
    /// Atomically add `value` (wrapping), returning the previous value.
    pub fn fetch_add(&self, value: u32, order: Ordering) -> u32 {
        self.cell.fetch_add(value, order)
    }

    /// Atomically subtract `value` (wrapping), returning the previous value.
    pub fn fetch_sub(&self, value: u32, order: Ordering) -> u32 {
        self.cell.fetch_sub(value, order)
    }
}

/// A waitable 32-bit atomic.
pub type WaitableAtomicU32 = WaitableAtomic<u32, AtomicU32>;

} // verus!
