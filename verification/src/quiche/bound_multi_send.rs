//! A channel with a limit on what is on its way.
use crate::error::AqResult;
use crate::rt::MultiSend;
use crate::rt::Semaphore;
use std::sync::Arc;
use vstd::prelude::*;

verus! {

/// Sends values together with the guard that lets them be on their way; once
/// the receiver drops the guard, there is room for another.
#[verifier::reject_recursive_types(T)]
#[verifier::reject_recursive_types(L)]
pub struct BoundMultiSend<T, L: Semaphore, S: MultiSend<(T, L::GuardTy)>> {
    /// how much may be on its way
    pub limit: Arc<L>,
    /// the channel
    pub send: Arc<S>,
    /// what is sent
    pub marker: std::marker::PhantomData<T>,
}

impl<T, L: Semaphore, S: MultiSend<(T, L::GuardTy)>> Clone for BoundMultiSend<T, L, S> {
    /// Another sender for the same channel, under the same limit
    fn clone(&self) -> (r: Self)
        ensures
            r.limit == self.limit,
            r.send == self.send,
    {
        BoundMultiSend {
            limit: self.limit.clone(),
            send: self.send.clone(),
            marker: std::marker::PhantomData,
        }
    }
}

impl<T, L: Semaphore, S: MultiSend<(T, L::GuardTy)>> BoundMultiSend<T, L, S> {
    /// Construct a sender from a limit and a channel.
    pub fn new(limit: L, send: S) -> (r: Self)
        ensures
            *r.limit == limit,
            *r.send == send,
    {
        BoundMultiSend {
            limit: Arc::new(limit),
            send: Arc::new(send),
            marker: std::marker::PhantomData,
        }
    }

    /// A guard, if there is room now
    pub fn try_acquire(&self) -> (r: Option<L::GuardTy>)
        ensures
            call_ensures(L::try_acquire, (&*self.limit,), r),
    {
        self.limit.try_acquire()
    }

    /// Completes with a guard once there is room
    pub fn acquire(&self) -> (r: L::AcquireFut)
        ensures
            call_ensures(L::acquire, (&*self.limit,), r),
    {
        self.limit.acquire()
    }

    /// Send a value together with its guard
    pub fn send(&self, t: T, g: L::GuardTy) -> (r: AqResult<()>)
        ensures
            call_ensures(S::send, (&*self.send, (t, g)), r),
    {
        self.send.send((t, g))
    }
}

} // verus!
