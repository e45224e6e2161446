//! A counting semaphore: a counter of free permits behind one lock, with blocking,
//! non-blocking and time-bounded acquisition, and a guard that gives its permit back
//! when it goes out of scope.
//!
//! `permits` holds the counter's transitions and the laws that follow from them,
//! `sync` the standard library's lock and condition variable as this crate uses them,
//! and `semaphore` the semaphore itself.

pub mod permits;
pub mod semaphore;
pub mod sync;

pub use semaphore::{Semaphore, SemaphoreGuard};
