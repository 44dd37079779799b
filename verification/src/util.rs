//! One-shot channels whose receiver can be handed on, and receivers.
use crate::error::AqErr;
use crate::error::AqResult;
use crate::task;
use crate::task::poll_kept;
use std::future::Future;
use std::marker::PhantomData;
use std::task::Context;
use std::task::Poll;
use vstd::prelude::*;

verus! {

/// One Shot Future Output Type
pub enum OneShotKind<T, F> {
    /// A value was sent from the send side
    Value(T),
    /// A new future to poll was sent from the send side
    Forward(F),
}

/// Sender side of a one-shot channel
#[verifier::reject_recursive_types(T)]
#[verifier::reject_recursive_types(F)]
pub struct OneShotSender<T, F, S: FnOnce(AqResult<OneShotKind<T, F>>)> {
    /// takes what is sent
    pub send: S,
    /// what is sent
    pub marker: PhantomData<(T, F)>,
}

/// What the receiver side is handed for a result.
pub open spec fn as_kind<T, F>(r: AqResult<T>) -> AqResult<OneShotKind<T, F>> {
    match r {
        Ok(t) => Ok(OneShotKind::Value(t)),
        Err(e) => Err(e),
    }
}

impl<T, F, S: FnOnce(AqResult<OneShotKind<T, F>>)> OneShotSender<T, F, S> {
    /// Construct a new one shot sender from a generic closure
    pub fn new(f: S) -> (r: Self)
        ensures
            r.send == f,
    {
        OneShotSender { send: f, marker: PhantomData }
    }

    /// Send the item to the receiver side of this channel
    pub fn send(self, r: AqResult<T>) -> (done: ())
        requires
            call_requires(self.send, (as_kind::<T, F>(r),)),
        ensures
            call_ensures(self.send, (as_kind::<T, F>(r),), done),
    {
        match r {
            Ok(t) => (self.send)(Ok(OneShotKind::Value(t))),
            Err(e) => (self.send)(Err(e)),
        }
    }

    /// Forward a different one shot receiver's result to
    /// the receiver attached to *this* one shot sender
    pub fn forward(self, oth: F) -> (done: ())
        requires
            call_requires(self.send, (Ok(OneShotKind::Forward(oth)),)),
        ensures
            call_ensures(self.send, (Ok(OneShotKind::Forward(oth)),), done),
    {
        (self.send)(Ok(OneShotKind::Forward(oth)))
    }

    /// The sender goes away without having sent anything: the receiver learns
    /// that the channel is closed
    pub fn close(self) -> (done: ())
        requires
            call_requires(self.send, (Err(AqErr::ChannelClosed),)),
        ensures
            call_ensures(self.send, (Err(AqErr::ChannelClosed),), done),
    {
        (self.send)(Err(AqErr::ChannelClosed))
    }
}

/// Where a poll of a one-shot receiver got to.
pub enum OneShotPoll<T> {
    /// nothing is there yet
    Pending,
    /// the result
    Ready(AqResult<T>),
    /// the send side handed over another future: poll again
    Again,
}

/// Receiver side of a one-shot channel
pub struct OneShotReceiver<F> {
    /// completes with what the send side sent; none once it has
    pub recv: Option<F>,
}

impl<F> OneShotReceiver<F> {
    /// Construct a new one shot receiver from a generic future
    pub fn new(f: F) -> (r: Self)
        ensures
            r.recv == Some(f),
    {
        OneShotReceiver { recv: Some(f) }
    }

    /// Extract the inner boxed future, useful for forwarding. There is one as
    /// long as the result did not come.
    pub fn into_inner(self) -> (r: F)
        requires
            self.recv is Some,
        ensures
            self.recv == Some(r),
    {
        self.recv.unwrap()
    }

    /// Forward the result of this receiver to a different one shot sender
    pub fn forward<T, S: FnOnce(AqResult<OneShotKind<T, F>>)>(self, oth: OneShotSender<T, F, S>) -> (
    done: ())
        requires
            self.recv is Some,
            call_requires(oth.send, (Ok(OneShotKind::Forward(self.recv->0)),)),
        ensures
            call_ensures(oth.send, (Ok(OneShotKind::Forward(self.recv->0)),), done),
    {
        oth.forward(self.into_inner())
    }

    /// What taking up what the future gave means, and what it leaves.
    pub open spec fn took_up<T>(
        self,
        got: Poll<AqResult<OneShotKind<T, F>>>,
        after: Self,
        r: OneShotPoll<T>,
    ) -> bool {
        match got {
            Poll::Pending => r is Pending && after == self,
            Poll::Ready(Err(e)) => r == OneShotPoll::<T>::Ready(Err(e)) && after == self,
            Poll::Ready(Ok(OneShotKind::Value(t))) => r == OneShotPoll::<T>::Ready(Ok(t)) && after
                == self,
            Poll::Ready(Ok(OneShotKind::Forward(fut))) => r is Again && after.recv == Some(fut),
        }
    }

    /// Take up what the future gave: a value or an error is the result, a
    /// future takes the place of the one that was polled.
    pub fn take_up<T>(&mut self, got: Poll<AqResult<OneShotKind<T, F>>>) -> (r: OneShotPoll<T>)
        ensures
            old(self).took_up(got, *final(self), r),
    {
        match got {
            Poll::Pending => OneShotPoll::Pending,
            Poll::Ready(Err(e)) => OneShotPoll::Ready(Err(e)),
            Poll::Ready(Ok(OneShotKind::Value(t))) => OneShotPoll::Ready(Ok(t)),
            Poll::Ready(Ok(OneShotKind::Forward(fut))) => {
                self.recv = Some(fut);
                OneShotPoll::Again
            },
        }
    }

    /// Future-aware poll receive function. As long as the answer is `Again`,
    /// the caller polls on: how often the send side hands over another future
    /// is up to it. A receiver that gave its result is not polled again.
    pub fn poll_recv<T>(&mut self, cx: &mut Context<'_>) -> (r: OneShotPoll<T>) where
        F: Future<Output = AqResult<OneShotKind<T, F>>> + Unpin,

        requires
            old(self).recv is Some,
        ensures
            exists|link: OneShotLink<T, F>|
                {
                    &&& #[trigger] link.made()
                    &&& link.before == *old(self)
                    &&& link.after == *final(self)
                    &&& link.r == r
                },
    {
        let got = poll_kept(&mut self.recv, cx);
        let ghost polled = *self;
        let r = self.take_up(got);
        proof {
            let link = OneShotLink { before: *old(self), polled, got, after: *self, r };
            assert(link.made());
        }
        r
    }
}

/// What a poll of a one-shot receiver means: it gives its result as soon as
/// the future it waits for gives one, and then waits for nothing any more;
/// until then it waits, for what is left of that future or for the one that
/// was handed over in its place.
pub proof fn law_one_shot<T, F: Future<Output = AqResult<OneShotKind<T, F>>> + Unpin>(
    link: OneShotLink<T, F>,
)
    requires
        link.made(),
    ensures
        link.r is Ready <==> link.after.recv is None,
        link.r matches OneShotPoll::Ready(res) ==> task::polled(link.fut(), Ok(as_kind(res))),
        link.r is Pending ==> task::polled(link.fut(), Err(link.after.recv->0)),
        link.r is Again ==> task::polled(
            link.fut(),
            Ok(Ok(OneShotKind::Forward(link.after.recv->0))),
        ),
{
}

/// One poll of a one-shot receiver.
pub struct OneShotLink<T, F> {
    /// the receiver before it
    pub before: OneShotReceiver<F>,
    /// what the poll of its future left
    pub polled: OneShotReceiver<F>,
    /// what the future gave
    pub got: Poll<AqResult<OneShotKind<T, F>>>,
    /// the receiver after it
    pub after: OneShotReceiver<F>,
    /// what the poll said
    pub r: OneShotPoll<T>,
}

impl<T, F: Future<Output = AqResult<OneShotKind<T, F>>> + Unpin> OneShotLink<T, F> {
    /// Whether it is a poll as `poll_recv` makes it.
    pub open spec fn made(self) -> bool {
        &&& self.before.recv is Some
        &&& task::advanced(self.before.recv->0, self.polled.recv, self.got)
        &&& self.polled.took_up(self.got, self.after, self.r)
    }

    /// The future that was polled.
    pub open spec fn fut(self) -> F {
        self.before.recv->0
    }

    /// Whether the polls follow upon one another: each but the first is of what
    /// the one before it left, and that one said to poll again.
    pub open spec fn chain(links: Seq<Self>) -> bool
        decreases links.len(),
    {
        &&& links.len() > 0
        &&& links.last().made()
        &&& links.len() > 1 ==> {
            let front = links.drop_last();
            &&& Self::chain(front)
            &&& front.last().r is Again
            &&& links.last().before == front.last().after
        }
    }
}

/// The law of futures that are handed on: every future but the last completed
/// with the next one, and was not kept to be polled again. What comes of polling
/// on is what comes of the last future: its result where it completed with one,
/// and nothing yet only where that future itself has not completed, which then
/// is what the receiver waits for.
pub proof fn law_one_shot_chain<T, F: Future<Output = AqResult<OneShotKind<T, F>>> + Unpin>(
    links: Seq<OneShotLink<T, F>>,
)
    requires
        OneShotLink::chain(links),
        !(links.last().r is Again),
    ensures
        forall|i: int, j: int|
            #![trigger links[i], links[j]]
            0 <= i && j == i + 1 && j < links.len() ==> {
                &&& task::polled(links[i].fut(), Ok(Ok(OneShotKind::Forward(links[j].fut()))))
                &&& links[i].polled.recv is None
                &&& links[i].r is Again
            },
        match links.last().r {
            OneShotPoll::Ready(res) => {
                &&& task::polled(links.last().fut(), Ok(as_kind(res)))
                &&& links.last().after.recv is None
            },
            OneShotPoll::Pending => {
                &&& links.last().after.recv matches Some(rest)
                &&& task::polled(links.last().fut(), Err(rest))
            },
            OneShotPoll::Again => false,
        },
{
    lemma_forwards(links);
}

proof fn lemma_forwards<T, F: Future<Output = AqResult<OneShotKind<T, F>>> + Unpin>(
    links: Seq<OneShotLink<T, F>>,
)
    requires
        OneShotLink::chain(links),
    ensures
        forall|i: int, j: int|
            #![trigger links[i], links[j]]
            0 <= i && j == i + 1 && j < links.len() ==> {
                &&& task::polled(links[i].fut(), Ok(Ok(OneShotKind::Forward(links[j].fut()))))
                &&& links[i].polled.recv is None
                &&& links[i].r is Again
            },
    decreases links.len(),
{
    if links.len() > 1 {
        let front = links.drop_last();
        lemma_forwards(front);
        assert forall|i: int, j: int|
            #![trigger links[i], links[j]]
            0 <= i && j == i + 1 && j < links.len() implies {
            &&& task::polled(links[i].fut(), Ok(Ok(OneShotKind::Forward(links[j].fut()))))
            &&& links[i].polled.recv is None
            &&& links[i].r is Again
        } by {
            assert(front[i] == links[i]);
            if j < front.len() {
                assert(front[j] == links[j]);
            } else {
                assert(front.last() == links[i]);
                assert(OneShotLink::chain(front));
                assert(front.last().made());
            }
        }
    }
}

/// Absquic receive / stream type
pub trait Receive<T> {
    /// The next value, `None` once there will be no more.
    fn poll_next(&mut self, cx: &mut Context<'_>) -> Poll<Option<T>>;
}

/// Absquic receive / stream type
#[verifier::reject_recursive_types(T)]
pub struct Receiver<T, R: Receive<T>> {
    /// where the values come from
    pub recv: R,
    /// what is received
    pub marker: PhantomData<T>,
}

impl<T, R: Receive<T>> Receiver<T, R> {
    /// Construct a new receiver instance
    pub fn new(r: R) -> (s: Self)
        ensures
            s.recv == r,
    {
        Receiver { recv: r, marker: PhantomData }
    }

    /// Receive data from this channel
    pub fn poll_recv(&mut self, cx: &mut Context<'_>) -> (r: Poll<Option<T>>)
        ensures
            exists|a: &mut R, ctx: &mut Context<'_>|
                {
                    &&& *a == old(self).recv
                    &&& *final(a) == final(self).recv
                    &&& #[trigger] call_ensures(R::poll_next, (a, ctx), r)
                },
    {
        self.recv.poll_next(cx)
    }
}

/// The law of taking up what a future gave: a value or an error is the result as
/// it is, another future is polled in its place, and nothing yet is nothing yet.
pub proof fn law_take_up<T, F>(
    before: OneShotReceiver<F>,
    got: Poll<AqResult<OneShotKind<T, F>>>,
    after: OneShotReceiver<F>,
    r: OneShotPoll<T>,
)
    requires
        before.took_up(got, after, r),
    ensures
        r is Pending <==> got is Pending,
        r matches OneShotPoll::Ready(Ok(value)) ==> got == Poll::Ready(
            Ok::<OneShotKind<T, F>, AqErr>(OneShotKind::Value(value)),
        ),
        r matches OneShotPoll::Ready(Err(err)) ==> got == Poll::Ready(
            Err::<OneShotKind<T, F>, AqErr>(err),
        ),
        r is Again ==> {
            &&& after.recv matches Some(fut)
            &&& got == Poll::Ready(Ok::<OneShotKind<T, F>, AqErr>(OneShotKind::Forward(fut)))
        },
        !(r is Again) ==> after == before,
{
}

/// The law of a slot: what was sent is what comes out, be it a value or an
/// error.
pub proof fn law_sent_comes_out<T, F>(
    sent: AqResult<T>,
    before: OneShotReceiver<F>,
    after: OneShotReceiver<F>,
    r: OneShotPoll<T>,
)
    requires
        before.took_up(Poll::Ready(as_kind::<T, F>(sent)), after, r),
    ensures
        r == OneShotPoll::Ready(sent),
        after == before,
{
}

} // verus!
