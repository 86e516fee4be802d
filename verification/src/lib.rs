//! A small concurrency toolkit for CPU-bound parallel work on one machine.
//!
//! Three layers, bottom up:
//!
//! * waitable atomics: fixed-width atomic integers whose address doubles as a
//!   park/unpark key, so a thread can sleep until the value changes;
//! * spin/read-write locks built from those atomics, with a bounded
//!   spin-then-park acquisition discipline;
//! * a job queue with a `work-available` / `exit` flag protocol, meant to be
//!   drained by a fixed set of worker threads.
//!
//! Thread creation itself is left to the embedding program; everything the
//! workers run through — the queue, the locks, the flag protocol — lives here.

pub mod atomic;

pub mod workgroup;
