//! The platform shim: address-based parking and a spin pause.
//!
//! These four functions are the only trusted boundary of the crate. Each one
//! forwards a single call; nothing about the protocol logic is decided here.

use vstd::prelude::*;

verus! {

/// Relies on `atomic_wait::wait` (the host's address-based parking facility:
/// a futex wait on this target): blocks the calling thread while the value at
/// `cell` equals `expected`, and returns once it is observed to differ — or
/// spuriously, at any time, for any reason. Callers must re-check. No claim is
/// made about the cell's value on return.
#[verifier::external_body]
pub(crate) fn futex_wait(cell: &core::sync::atomic::AtomicU32, expected: u32) {
    atomic_wait::wait(cell, expected);
}

/// Relies on `atomic_wait::wake_one`: wakes at most one thread currently
/// parked on the address of `cell`. Returns nothing and makes no other claim.
#[verifier::external_body]
pub(crate) fn futex_wake_one(cell: &core::sync::atomic::AtomicU32) {
    atomic_wait::wake_one(cell);
}

/// Relies on `atomic_wait::wake_all`: wakes every thread currently parked on
/// the address of `cell`. Returns nothing and makes no other claim.
#[verifier::external_body]
pub(crate) fn futex_wake_all(cell: &core::sync::atomic::AtomicU32) {
    atomic_wait::wake_all(cell);
}

/// Relies on `core::hint::spin_loop`: a busy-wait pause hint to the processor.
/// It has no observable effect on program state.
#[verifier::external_body]
pub(crate) fn spin_pause() {
    core::hint::spin_loop();
}

} // verus!
