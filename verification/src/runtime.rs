//! What the library asks of an async runtime: tasks, channels, slots and
//! semaphores.
use crate::error::AqErr;
use crate::error::AqResult;
use crate::task;
use crate::task::poll_kept;
use std::future::Future;
use std::marker::PhantomData;
use std::sync::Arc;
use std::task::Context;
use std::task::Poll;
use vstd::prelude::*;

verus! {

/// The other side of a channel is gone.
#[derive(Debug, Clone, Copy)]
pub struct ChannelClosed;

impl ChannelClosed {
    /// The error that a closed channel is reported as.
    pub fn into_err(self) -> (r: AqErr)
        ensures
            r == AqErr::ChannelClosed,
    {
        AqErr::ChannelClosed
    }
}

/// Channel result
pub type ChanResult<T> = Result<T, ChannelClosed>;

/// A completion handle to a spawned task.
/// The task will continue even if this handle is dropped.
#[verifier::reject_recursive_types(R)]
pub struct SpawnHnd<R, F: Future<Output = AqResult<R>>> {
    /// completes with the task; none once it has
    pub fut: Option<F>,
    /// what the handle is about
    pub marker: PhantomData<R>,
}

impl<R, F: Future<Output = AqResult<R>>> SpawnHnd<R, F> {
    /// Construct a new SpawnHnd from a generic future
    pub fn new(f: F) -> (r: Self)
        ensures
            r.fut == Some(f),
    {
        SpawnHnd { fut: Some(f), marker: PhantomData }
    }
}

impl<R, F: Future<Output = AqResult<R>> + Unpin> SpawnHnd<R, F> {
    /// Whether the task is done, and with what: as its future says. A handle
    /// that gave its answer is not polled again.
    pub fn poll(&mut self, cx: &mut Context<'_>) -> (r: Poll<AqResult<R>>)
        requires
            old(self).fut is Some,
        ensures
            task::advanced(old(self).fut->0, final(self).fut, r),
    {
        poll_kept(&mut self.fut, cx)
    }
}

/// Abstract async semaphore guard implementation
pub trait SemaphoreGuard {

}

/// Abstract async semaphore implementation
pub trait Semaphore {
    /// The guard type for this semaphore
    type GuardTy: SemaphoreGuard;

    /// Completes once a guard is to be had
    type AcquireFut: Future<Output = Self::GuardTy>;

    /// Acquire a semaphore guard
    fn acquire(&self) -> Self::AcquireFut;
}

/// Sender half of a slot for a single value.
pub trait OnceSend<T>: Sized {
    /// Put the value into the slot.
    fn send(self, t: T);
}

/// Sender type for a one_shot slot
#[verifier::reject_recursive_types(T)]
pub struct OnceSender<T, F: FnOnce(T)> {
    /// takes the value
    pub f: F,
    /// what the handle is about
    pub marker: PhantomData<T>,
}

impl<T, F: FnOnce(T)> OnceSender<T, F> {
    /// Construct the sender side of a one_shot slot
    pub fn new(s: F) -> (r: Self)
        ensures
            r.f == s,
    {
        OnceSender { f: s, marker: PhantomData }
    }

    /// Send data to the receive side of this one_shot slot
    pub fn send(self, t: T) -> (r: ())
        requires
            call_requires(self.f, (t,)),
        ensures
            call_ensures(self.f, (t,), r),
    {
        (self.f)(t)
    }
}

/// Sender type for a bound mpsc channel
pub trait MultiSend<T> {
    /// The right to send one value
    type Permit: OnceSend<T>;

    /// Completes once a permit is to be had
    type AcquireFut: Future<Output = ChanResult<Self::Permit>> + Unpin;

    /// Attempt to acquire a permit to send data into the channel.
    /// The returned future is cancel safe in the sense that the queue
    /// position awaiting a send permit will be released
    fn acquire(&self) -> Self::AcquireFut;
}

/// Sender type for a bound mpsc channel
#[verifier::reject_recursive_types(T)]
#[verifier::reject_recursive_types(S)]
pub struct MultiSender<T, S: MultiSend<T>> {
    /// the channel's own sender
    pub send: Arc<S>,
    /// what the handle is about
    pub marker: PhantomData<T>,
}

impl<T, S: MultiSend<T>> MultiSender<T, S> {
    /// Construct a new multi sender instance
    pub fn new(s: S) -> (r: Self)
        ensures
            *r.send == s,
    {
        MultiSender { send: Arc::new(s), marker: PhantomData }
    }

    /// Attempt to acquire a permit to send data into the channel.
    /// The returned future is cancel safe in the sense that the queue
    /// position awaiting a send permit will be released
    pub fn acquire(&self) -> (r: S::AcquireFut)
        ensures
            call_ensures(S::acquire, (&*self.send,), r),
    {
        self.send.acquire()
    }
}

impl<T, S: MultiSend<T>> Clone for MultiSender<T, S> {
    /// Another sender for the same channel
    fn clone(&self) -> (r: Self)
        ensures
            r.send == self.send,
    {
        MultiSender { send: self.send.clone(), marker: PhantomData }
    }
}

/// Wrapper sender type for a bound mpsc channel that allows polling
#[verifier::reject_recursive_types(T)]
#[verifier::reject_recursive_types(S)]
pub struct MultiSenderPoll<T, S: MultiSend<T>> {
    /// the sender
    pub send: MultiSender<T, S>,
    /// a permit that was asked for and did not come yet
    pub fut: Option<S::AcquireFut>,
}

impl<T, S: MultiSend<T>> MultiSenderPoll<T, S> {
    /// Construct a new multi sender poll instance
    pub fn new(sender: MultiSender<T, S>) -> (r: Self)
        ensures
            r.send == sender,
            r.fut is None,
    {
        MultiSenderPoll { send: sender, fut: None }
    }

    /// Get a reference to the inner sender
    pub fn as_inner(&self) -> (r: &MultiSender<T, S>)
        ensures
            *r == self.send,
    {
        &self.send
    }

    /// Extract the inner sender
    pub fn into_inner(self) -> (r: MultiSender<T, S>)
        ensures
            r == self.send,
    {
        self.send
    }

    /// Whether `asked` is the request that is polled next: the one that is
    /// waiting, or else a new one.
    pub open spec fn asks(self, asked: S::AcquireFut) -> bool {
        match self.fut {
            Some(fut) => asked == fut,
            None => call_ensures(S::acquire, (&*self.send.send,), asked),
        }
    }

    /// Whether a poll for a permit gave `r` and left `after`: one request was
    /// polled, once, and it is kept as long as it was not answered.
    pub open spec fn acquires(self, after: Self, r: Poll<ChanResult<S::Permit>>) -> bool {
        &&& after.send == self.send
        &&& exists|asked: S::AcquireFut| #[trigger]
            self.asks(asked) && task::advanced(asked, after.fut, r)
    }

    /// Attempt to acquire a permit to send data into the channel. There is one
    /// request at most: the next one is made once the last was answered.
    pub fn poll_acquire(&mut self, cx: &mut Context<'_>) -> (r: Poll<ChanResult<S::Permit>>)
        ensures
            old(self).acquires(*final(self), r),
    {
        let fut = match self.fut.take() {
            Some(fut) => fut,
            None => self.send.acquire(),
        };
        assert(old(self).asks(fut));
        self.fut = Some(fut);
        poll_kept(&mut self.fut, cx)
    }

    /// Attempt to acquire a permit to send data into the channel.
    /// The returned future is cancel safe in the sense that the queue
    /// position awaiting a send permit will be released
    pub fn acquire(&self) -> (r: S::AcquireFut)
        ensures
            call_ensures(S::acquire, (&*self.send.send,), r),
    {
        self.send.acquire()
    }
}

/// The law of requests for a permit: as long as the answer is that none is to
/// be had, the same request waits, and the next poll is of what is left of it;
/// once it was answered, the next poll is of a new one.
pub proof fn law_one_request<T, S: MultiSend<T>>(
    before: MultiSenderPoll<T, S>,
    between: MultiSenderPoll<T, S>,
    first: Poll<ChanResult<S::Permit>>,
    after: MultiSenderPoll<T, S>,
    second: Poll<ChanResult<S::Permit>>,
)
    requires
        before.acquires(between, first),
        between.acquires(after, second),
    ensures
        after.send == before.send,
        first is Pending ==> {
            &&& between.fut matches Some(waiting)
            &&& task::advanced(waiting, after.fut, second)
        },
        first is Ready ==> exists|asked: S::AcquireFut|
            #![trigger task::advanced(asked, after.fut, second)]
            {
                &&& call_ensures(S::acquire, (&*before.send.send,), asked)
                &&& task::advanced(asked, after.fut, second)
            },
{
    let asked = choose|asked: S::AcquireFut| #[trigger]
        between.asks(asked) && task::advanced(asked, after.fut, second);
    assert(task::advanced(asked, after.fut, second));
}

/// The law of one poll for a permit: a request that waits is what is polled, and
/// a new one is made only where none does; it waits on exactly where it was not
/// answered. The sender stays.
pub proof fn law_acquires<T, S: MultiSend<T>>(
    before: MultiSenderPoll<T, S>,
    after: MultiSenderPoll<T, S>,
    r: Poll<ChanResult<S::Permit>>,
)
    requires
        before.acquires(after, r),
    ensures
        after.send == before.send,
        r is Pending <==> after.fut is Some,
        before.fut matches Some(waiting) ==> task::advanced(waiting, after.fut, r),
        before.fut is None ==> exists|asked: S::AcquireFut|
            #![trigger task::advanced(asked, after.fut, r)]
            {
                &&& call_ensures(S::acquire, (&*before.send.send,), asked)
                &&& task::advanced(asked, after.fut, r)
            },
{
    let asked = choose|asked: S::AcquireFut| #[trigger]
        before.asks(asked) && task::advanced(asked, after.fut, r);
    assert(task::advanced(asked, after.fut, r));
}

} // verus!
