//! A safe object layer for embedding native code in a garbage-collected,
//! single-threaded host runtime.
//!
//! The heart of the library is an explicit model of the host's object world:
//! an `Engine` owns a heap of tagged values, a stack-disciplined protection
//! register that shields values from the collector, a single-thread access
//! guard, a call-dispatch table and a console.  Native code never touches a
//! value directly; it holds a `Handle` — an owned or borrowed reference into
//! the heap — and moves data in and out through conversion functions that
//! understand the per-type "not available" sentinels.  The trampoline phases
//! marshal call arguments and results and contain failures so that nothing
//! unwinds into the host's own call frames.

pub mod bits;
pub mod convert;
pub mod dispatch;
pub mod engine;
pub mod error;
pub mod value;
