//! A mutual-exclusion cell built from a single flag, modeled as a sequential
//! state machine.
//!
//! Two independent primitives share the pattern: [`Mutex`], which offers a
//! busy-spin, a yielding, an exponentially backed-off, and a non-blocking
//! acquisition, and [`TryMutex`], a reduced variant exposing only the
//! non-blocking probe. [`Backoff`] holds the doubling wait schedule used
//! between failed attempts of the backed-off strategy.

pub mod backoff;
pub mod mutex;
pub mod try_mutex;

pub use backoff::Backoff;
pub use mutex::Mutex;
pub use mutex::MutexGuard;
pub use try_mutex::TryMutex;
pub use try_mutex::TryMutexGuard;
