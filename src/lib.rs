//! Coroutines that share a piece of data with their caller.
//!
//! A coroutine body is a sequence of operations, stepped by its caller one
//! segment at a time. The body reaches the shared data only through a lock
//! that it must not hold while it is suspended; the caller reads and writes
//! the same data freely between steps.

pub mod waker;
pub mod yield_future;
pub mod guard;
pub mod script;
pub mod container;
pub mod laws;

pub use container::FutureContainer;
pub use guard::{CoroutineError, PointerGuard, PointerWrapper};
pub use script::{Op, ScriptFuture};
pub use waker::NullWaker;
pub use yield_future::{fyield, Poll, YieldFuture};
