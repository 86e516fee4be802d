//! Locks built from waitable atomics.

use vstd::prelude::*;

pub mod rwlock;
pub mod spinlock;

verus! {

/// How many cooperative spin rounds an acquisition attempt makes before it
/// parks on the control word.
pub const YIELD_BUDGET: u32 = 1000;

} // verus!
