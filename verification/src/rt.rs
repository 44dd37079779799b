//! A runtime in its static form: semaphores that can be tried, channels that
//! never make the sender wait.
use crate::error::AqResult;
use std::future::Future;
use vstd::prelude::*;

verus! {

/// Guard indicating we have a semaphore permit
pub trait SemaphoreGuard {

}

/// Async semaphore abstraction
pub trait Semaphore {
    /// The guard type for this semaphore
    type GuardTy: SemaphoreGuard;

    /// The aquire future result type
    type AcquireFut: Future<Output = Self::GuardTy>;

    /// Acquire a semaphore permit guard
    fn acquire(&self) -> Self::AcquireFut;

    /// Attempt to acquire an avaliable semaphore permit guard without blocking
    fn try_acquire(&self) -> Option<Self::GuardTy>;
}

/// Sender half of a channel that never makes the sender wait
pub trait MultiSend<T> {
    /// Put a value into the channel
    fn send(&self, t: T) -> AqResult<()>;
}

} // verus!
