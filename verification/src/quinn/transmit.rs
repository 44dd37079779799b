//! Sending the packets of one connection.
use super::calls;
use super::calls::ConCall;
use super::out;
use super::out::out_packet;
use super::out::OutPacket;
use super::Wish;
use super::ROUNDS;
use crate::runtime::ChanResult;
use crate::runtime::MultiSend;
use crate::runtime::MultiSender;
use crate::runtime::MultiSenderPoll;
use crate::runtime::OnceSend;
use quinn_proto::Connection;
use quinn_proto::Transmit;
use std::task::Context;
use std::task::Poll;
use std::time::Instant;
use vstd::prelude::*;

verus! {

/// One turn at sending packets.
pub struct TransmitTurn {
    /// nobody takes packets any more
    pub closed: bool,
    /// how many packets may still go out in this turn
    pub left: u8,
}

/// What came of the last action of a turn.
pub enum TransmitEvt<P, T> {
    /// the turn begins, or the packet was sent
    Next,
    /// the answer to the request for a permit
    Permit(Poll<ChanResult<P>>),
    /// the next packet of the connection, if it has one, and the permit for it
    Packet(P, Option<T>),
}

/// What to do next in a turn.
pub enum TransmitAct<P, T> {
    /// ask for a permit to send a packet
    Acquire,
    /// ask the connection for a packet
    Poll(P),
    /// send the packet
    Send(P, T),
    /// the turn is over
    Done(Wish),
}

impl TransmitTurn {
    /// A turn of a sender that is closed or not.
    pub open spec fn spec_new(closed: bool) -> TransmitTurn {
        TransmitTurn { closed, left: ROUNDS }
    }

    /// What a turn does next, and the turn after that.
    pub open spec fn next<P, T>(self, evt: TransmitEvt<P, T>) -> (TransmitTurn, TransmitAct<P, T>) {
        match evt {
            TransmitEvt::Next => if self.closed {
                (self, TransmitAct::Done(Wish { more_work: false, want_close: true }))
            } else if self.left == 0 {
                (self, TransmitAct::Done(Wish { more_work: true, want_close: false }))
            } else {
                (self, TransmitAct::Acquire)
            },
            TransmitEvt::Permit(Poll::Pending) => (
                self,
                TransmitAct::Done(Wish { more_work: false, want_close: false }),
            ),
            TransmitEvt::Permit(Poll::Ready(Err(_))) => (
                TransmitTurn { closed: true, ..self },
                TransmitAct::Done(Wish { more_work: false, want_close: true }),
            ),
            TransmitEvt::Permit(Poll::Ready(Ok(permit))) => (self, TransmitAct::Poll(permit)),
            TransmitEvt::Packet(_, None) => (
                self,
                TransmitAct::Done(Wish { more_work: false, want_close: false }),
            ),
            TransmitEvt::Packet(permit, Some(packet)) => (
                TransmitTurn { left: (self.left - 1) as u8, ..self },
                TransmitAct::Send(permit, packet),
            ),
        }
    }

    /// Begin a turn.
    pub fn new(closed: bool) -> (r: Self)
        ensures
            r == TransmitTurn::spec_new(closed),
    {
        TransmitTurn { closed, left: ROUNDS }
    }

    /// Go one step on in the turn.
    pub fn step<P, T>(&mut self, evt: TransmitEvt<P, T>) -> (r: TransmitAct<P, T>)
        requires
            evt is Packet ==> old(self).left > 0,
        ensures
            (*final(self), r) == old(self).next(evt),
    {
        match evt {
            TransmitEvt::Next => {
                if self.closed {
                    TransmitAct::Done(Wish { more_work: false, want_close: true })
                } else if self.left == 0 {
                    TransmitAct::Done(Wish { more_work: true, want_close: false })
                } else {
                    TransmitAct::Acquire
                }
            },
            TransmitEvt::Permit(Poll::Pending) => TransmitAct::Done(
                Wish { more_work: false, want_close: false },
            ),
            TransmitEvt::Permit(Poll::Ready(Err(_))) => {
                self.closed = true;
                TransmitAct::Done(Wish { more_work: false, want_close: true })
            },
            TransmitEvt::Permit(Poll::Ready(Ok(permit))) => TransmitAct::Poll(permit),
            TransmitEvt::Packet(_, None) => TransmitAct::Done(
                Wish { more_work: false, want_close: false },
            ),
            TransmitEvt::Packet(permit, Some(packet)) => {
                self.left = self.left - 1;
                TransmitAct::Send(permit, packet)
            },
        }
    }
}

/// The law of a turn at sending: a packet goes out only with a permit for it,
/// and no more than the rounds allow; more work is announced exactly when the
/// rounds are used up, and the wish to close when nobody takes packets.
pub proof fn law_transmit_turn<P, T>(turn: TransmitTurn, evt: TransmitEvt<P, T>)
    requires
        evt is Packet ==> turn.left > 0,
        !(evt is Next) ==> !turn.closed,
    ensures
        ({
            let (after, act) = turn.next(evt);
            &&& turn.closed ==> after.closed
            &&& act matches TransmitAct::Send(p, t) ==> {
                &&& evt == TransmitEvt::Packet(p, Some(t))
                &&& after.left + 1 == turn.left
            }
            &&& !(act is Send) ==> after.left == turn.left
            &&& act matches TransmitAct::Done(wish) ==> {
                &&& wish.want_close == after.closed
                &&& wish.more_work ==> after.left == 0
                &&& wish.more_work ==> !wish.want_close
            }
            &&& act is Acquire ==> after.left > 0
        }),
{
}

/// A step of a turn: what came of its last action, the call `K` of the source of
/// packets that it took, if any, and what it left of the sender and the source.
#[verifier::reject_recursive_types(S)]
pub struct TransmitStep<S: MultiSend<OutPacket>, C, K> {
    /// what came of it
    pub evt: TransmitEvt<S::Permit, Transmit>,
    /// the call that it took
    pub call: Option<K>,
    /// the sender after it
    pub send: MultiSenderPoll<OutPacket, S>,
    /// the source after it
    pub source: C,
}

impl<S: MultiSend<OutPacket>, C, K> TransmitStep<S, C, K> {
    /// The step that a turn begins with.
    pub open spec fn first(send: MultiSenderPoll<OutPacket, S>, source: C) -> Self {
        TransmitStep { evt: TransmitEvt::Next, call: None, send, source }
    }

    /// Whether an action was done after the step `prev`, and `step` is what came
    /// of it: `asks` says which calls ask the source for a packet, and where no
    /// call was made the source is what it was.
    pub open spec fn did(
        asks: spec_fn(K, Option<Transmit>) -> bool,
        prev: Self,
        act: TransmitAct<S::Permit, Transmit>,
        step: Self,
    ) -> bool {
        &&& step.call is None ==> step.source == prev.source
        &&& match act {
            TransmitAct::Acquire => {
                &&& step.evt matches TransmitEvt::Permit(r)
                &&& step.call is None
                &&& prev.send.acquires(step.send, r)
            },
            TransmitAct::Poll(permit) => {
                &&& step.evt matches TransmitEvt::Packet(p, packet)
                &&& p == permit
                &&& step.call matches Some(call)
                &&& asks(call, packet)
                &&& step.send == prev.send
            },
            TransmitAct::Send(permit, packet) => {
                &&& step.evt is Next
                &&& step.call is None
                &&& step.send == prev.send
                &&& call_ensures(S::Permit::send, (permit, out::as_out(packet)), ())
            },
            TransmitAct::Done(_) => false,
        }
    }

    /// The turn of a sender that is closed or not after these steps, and what it
    /// does then.
    pub open spec fn run(closed: bool, steps: Seq<Self>) -> (
        TransmitTurn,
        TransmitAct<S::Permit, Transmit>,
    )
        decreases steps.len(),
    {
        if steps.len() == 0 {
            (TransmitTurn::spec_new(closed), TransmitAct::Acquire)
        } else {
            Self::run(closed, steps.drop_last()).0.next(steps.last().evt)
        }
    }

    /// Whether the steps begin a turn, and each is what came of what the turn
    /// did last.
    pub open spec fn trace(
        asks: spec_fn(K, Option<Transmit>) -> bool,
        closed: bool,
        first: Self,
        steps: Seq<Self>,
    ) -> bool
        decreases steps.len(),
    {
        &&& steps.len() > 0
        &&& steps.len() == 1 ==> steps[0] == first
        &&& steps.len() > 1 ==> {
            let before = steps.drop_last();
            &&& Self::trace(asks, closed, first, before)
            &&& Self::did(asks, before.last(), Self::run(closed, before).1, steps.last())
        }
    }

    /// Whether a turn with these steps was made: it ends with this wish, and
    /// leaves the sender closed or not.
    pub open spec fn made(
        asks: spec_fn(K, Option<Transmit>) -> bool,
        closed: bool,
        first: Self,
        steps: Seq<Self>,
        closed_after: bool,
        wish: Wish,
    ) -> bool {
        let (end, act) = Self::run(closed, steps);
        &&& Self::trace(asks, closed, first, steps)
        &&& act == TransmitAct::<S::Permit, Transmit>::Done(wish)
        &&& closed_after == end.closed
    }

    pub(super) proof fn lemma_push(
        asks: spec_fn(K, Option<Transmit>) -> bool,
        closed: bool,
        first: Self,
        steps: Seq<Self>,
        step: Self,
    )
        requires
            steps.len() == 0 ==> step == first,
            steps.len() > 0 ==> Self::trace(asks, closed, first, steps) && Self::did(
                asks,
                steps.last(),
                Self::run(closed, steps).1,
                step,
            ),
        ensures
            Self::trace(asks, closed, first, steps.push(step)),
            Self::run(closed, steps.push(step)) == Self::run(closed, steps).0.next(step.evt),
    {
        assert(steps.push(step).drop_last() =~= steps);
    }
}

/// How far an action is from the end of a turn, as long as no packet is sent.
pub open spec fn transmit_distance<P, T>(act: TransmitAct<P, T>) -> int {
    match act {
        TransmitAct::Send(..) => 3,
        TransmitAct::Acquire => 2,
        TransmitAct::Poll(_) => 1,
        TransmitAct::Done(_) => 0,
    }
}

/// Sends the packets of one connection.
#[verifier::reject_recursive_types(S)]
pub struct ConTransmitDriver<S: MultiSend<OutPacket>, F: Fn() -> usize> {
    /// says how many datagrams a packet may hold
    pub max_gso_provider: F,
    /// where the packets go
    pub udp_packet_send: MultiSenderPoll<OutPacket, S>,
    /// nobody takes packets any more
    pub udp_packet_send_closed: bool,
}

impl<S: MultiSend<OutPacket>, F: Fn() -> usize> ConTransmitDriver<S, F> {
    /// The driver of a new connection.
    pub fn new(max_gso_provider: F, udp_packet_send: MultiSender<OutPacket, S>) -> (r: Self)
        ensures
            r.max_gso_provider == max_gso_provider,
            r.udp_packet_send.send == udp_packet_send,
            !r.udp_packet_send_closed,
    {
        ConTransmitDriver {
            max_gso_provider,
            udp_packet_send: MultiSenderPoll::new(udp_packet_send),
            udp_packet_send_closed: false,
        }
    }

    /// Whether the provider always allows a datagram at least.
    pub open spec fn provides(self) -> bool {
        &&& call_requires(self.max_gso_provider, ())
        &&& forall|n: usize| call_ensures(self.max_gso_provider, (), n) ==> n > 0
    }

    /// Whether a call asks a connection for a packet, of no more datagrams than
    /// the provider allows.
    pub open spec fn asks(self, now: Instant) -> spec_fn(ConCall, Option<Transmit>) -> bool {
        |call: ConCall, packet: Option<Transmit>|
            {
                &&& call matches ConCall::PollTransmit(t, n, got)
                &&& t == now
                &&& call_ensures(self.max_gso_provider, (), n)
                &&& got == packet
            }
    }

    /// Send packets for one turn, as `TransmitTurn` says.
    pub fn poll(
        &mut self,
        cx: &mut Context<'_>,
        now: Instant,
        connection: &mut Connection,
    ) -> (r: Wish)
        requires
            old(self).provides(),
        ensures
            exists|steps: Seq<TransmitStep<S, Connection, ConCall>>|
                {
                    &&& #[trigger] TransmitStep::made(
                        old(self).asks(now),
                        old(self).udp_packet_send_closed,
                        TransmitStep::first(old(self).udp_packet_send, *old(connection)),
                        steps,
                        final(self).udp_packet_send_closed,
                        r,
                    )
                    &&& steps.last().send == final(self).udp_packet_send
                    &&& steps.last().source == *final(connection)
                    &&& forall|i: int|
                        0 < i < steps.len() ==> ((#[trigger] steps[i].call) matches Some(call)
                            ==> exists|a: &mut Connection|
                            {
                                &&& *a == steps[i - 1].source
                                &&& *final(a) == steps[i].source
                                &&& #[trigger] calls::made(a, call)
                            })
                },
            final(self).max_gso_provider == old(self).max_gso_provider,
            final(self).udp_packet_send.send == old(self).udp_packet_send.send,
            r.want_close == final(self).udp_packet_send_closed,
            old(self).udp_packet_send_closed ==> {
                &&& *final(self) == *old(self)
                &&& *final(connection) == *old(connection)
                &&& r.want_close
            },
            r.more_work ==> !r.want_close,
    {
        let mut turn = TransmitTurn::new(self.udp_packet_send_closed);
        let ghost was = *self;
        let ghost con = *connection;
        let ghost asks = self.asks(now);
        let ghost closed = self.udp_packet_send_closed;
        let ghost first = TransmitStep::<S, Connection, ConCall>::first(self.udp_packet_send, con);
        let ghost mut trace = Seq::<TransmitStep<S, Connection, ConCall>>::empty();
        proof {
            TransmitStep::lemma_push(asks, closed, first, trace, first);
            trace = trace.push(first);
        }
        let mut act: TransmitAct<S::Permit, Transmit> = turn.step(TransmitEvt::Next);
        loop
            invariant
                was == *old(self),
                con == *old(connection),
                trace.len() > 0,
                asks == was.asks(now),
                closed == was.udp_packet_send_closed,
                first == TransmitStep::<S, Connection, ConCall>::first(was.udp_packet_send, con),
                TransmitStep::trace(asks, closed, first, trace),
                TransmitStep::run(closed, trace) == (turn, act),
                trace.last().send == self.udp_packet_send,
                trace.last().source == *connection,
                forall|i: int|
                    0 < i < trace.len() ==> ((#[trigger] trace[i].call) matches Some(call)
                        ==> exists|a: &mut Connection|
                        {
                            &&& *a == trace[i - 1].source
                            &&& *final(a) == trace[i].source
                            &&& #[trigger] calls::made(a, call)
                        }),
                self.udp_packet_send_closed == was.udp_packet_send_closed,
                self.provides(),
                self.max_gso_provider == old(self).max_gso_provider,
                self.udp_packet_send.send == old(self).udp_packet_send.send,
                turn.closed ==> act is Done,
                was.udp_packet_send_closed ==> turn.closed && act is Done && *self == was && *connection == con,
                act matches TransmitAct::Done(wish) ==> wish.want_close == turn.closed && (
                wish.more_work ==> !wish.want_close),
                act is Acquire || act is Poll ==> turn.left > 0,
            decreases turn.left, transmit_distance(act),
        {
            let evt: TransmitEvt<S::Permit, Transmit>;
            let ghost mut call: Option<ConCall> = None;
            match act {
                TransmitAct::Done(wish) => {
                    self.udp_packet_send_closed = turn.closed;
                    assert(TransmitStep::made(
                        old(self).asks(now),
                        old(self).udp_packet_send_closed,
                        TransmitStep::first(old(self).udp_packet_send, *old(connection)),
                        trace,
                        self.udp_packet_send_closed,
                        wish,
                    ));
                    return wish;
                },
                TransmitAct::Acquire => {
                    evt = TransmitEvt::Permit(self.udp_packet_send.poll_acquire(cx));
                },
                TransmitAct::Poll(permit) => {
                    let gso: usize = (self.max_gso_provider)();
                    let packet = calls::poll_transmit(connection, now, gso);
                    proof {
                        call = Some(ConCall::PollTransmit(now, gso, packet));
                    }
                    evt = TransmitEvt::Packet(permit, packet);
                },
                TransmitAct::Send(permit, packet) => {
                    permit.send(out_packet(packet));
                    evt = TransmitEvt::Next;
                },
            }
            proof {
                let step = TransmitStep {
                    evt,
                    call,
                    send: self.udp_packet_send,
                    source: *connection,
                };
                TransmitStep::lemma_push(asks, closed, first, trace, step);
                trace = trace.push(step);
            }
            act = turn.step(evt);
        }
    }
}

/// The law of the course of a turn: a packet is asked for only with a permit,
/// and one that is there is sent, as it is, with just that permit; then the next
/// permit is asked for, and so on, thirty-two times at most. The turn ends where
/// there is no packet, no permit or nobody who takes packets, or the rounds are
/// used up, and wishes for another exactly in this last case.
pub proof fn law_transmit_course<P, T>(turn: TransmitTurn, evt: TransmitEvt<P, T>)
    requires
        evt is Packet ==> turn.left > 0,
        turn.closed ==> evt is Next,
    ensures
        ({
            let (after, then) = turn.next(evt);
            &&& after.closed <==> turn.closed || (evt matches TransmitEvt::Permit(
                Poll::Ready(Err(_)),
            ))
            &&& evt matches TransmitEvt::Packet(permit, Some(packet)) ==> {
                &&& then == TransmitAct::Send(permit, packet)
                &&& after.left == turn.left - 1
                &&& after.left > 0 ==> after.next::<P, T>(TransmitEvt::Next).1 is Acquire
            }
            &&& evt matches TransmitEvt::Permit(Poll::Ready(Ok(permit))) ==> then == TransmitAct::<P, T>::Poll(
                permit,
            )
            &&& evt is Next ==> (then is Acquire <==> !turn.closed && turn.left > 0)
            &&& then is Acquire ==> evt is Next
            &&& then is Poll ==> evt is Permit
            &&& then is Send ==> evt is Packet
            &&& then is Done <==> {
                ||| after.closed
                ||| evt is Next && turn.left == 0
                ||| evt == TransmitEvt::<P, T>::Permit(Poll::Pending)
                ||| (evt matches TransmitEvt::Packet(_, None))
            }
            &&& then matches TransmitAct::Done(wish) ==> {
                &&& wish.want_close == after.closed
                &&& wish.more_work <==> !after.closed && evt is Next
            }
        }),
{
}

/// The law of the beginning of a turn: a sender that is closed ends it at once,
/// any other has all its rounds ahead.
pub proof fn law_transmit_begins<P, T>(closed: bool)
    ensures
        ({
            let (after, then) = TransmitTurn::spec_new(closed).next::<P, T>(TransmitEvt::Next);
            &&& after.closed == closed
            &&& after.left == 32
            &&& closed ==> then == TransmitAct::<P, T>::Done(Wish { more_work: false, want_close: true })
            &&& !closed ==> then is Acquire
        }),
{
}

impl<S: MultiSend<OutPacket>, C, K> TransmitStep<S, C, K> {
    /// Each step of a turn but the first came of what the turn did before.
    proof fn lemma_at(
        asks: spec_fn(K, Option<Transmit>) -> bool,
        closed: bool,
        first: Self,
        steps: Seq<Self>,
        i: int,
    )
        requires
            Self::trace(asks, closed, first, steps),
            0 < i < steps.len(),
        ensures
            Self::did(asks, steps[i - 1], Self::run(closed, steps.take(i)).1, steps[i]),
            Self::run(closed, steps.take(i + 1)) == Self::run(closed, steps.take(i)).0.next(
                steps[i].evt,
            ),
        decreases steps.len(),
    {
        if i + 1 == steps.len() {
            assert(steps.take(i) =~= steps.drop_last());
            assert(steps.take(i + 1) =~= steps);
        } else {
            Self::lemma_at(asks, closed, first, steps.drop_last(), i);
            assert(steps.drop_last().take(i) =~= steps.take(i));
            assert(steps.drop_last().take(i + 1) =~= steps.take(i + 1));
        }
    }

    /// The law of packets, over a turn: every packet that the source gave was
    /// sent, in the form for the socket and with the permit for it; the source
    /// is asked by a call of the kind that asks for packets, and touched by
    /// nothing else. Nothing is done once the turn is over.
    pub proof fn law_packets_sent(
        asks: spec_fn(K, Option<Transmit>) -> bool,
        closed: bool,
        first: Self,
        steps: Seq<Self>,
        i: int,
    )
        requires
            Self::trace(asks, closed, first, steps),
            0 < i < steps.len(),
        ensures
            i + 1 < steps.len() ==> (steps[i].evt matches TransmitEvt::Packet(permit, Some(packet))
                ==> call_ensures(S::Permit::send, (permit, out::as_out(packet)), ())),
            steps[i].evt matches TransmitEvt::Packet(_, packet) ==> {
                &&& steps[i].call matches Some(call)
                &&& asks(call, packet)
            },
            !(steps[i].evt is Packet) ==> steps[i].source == steps[i - 1].source,
            !(Self::run(closed, steps.take(i)).1 is Done),
            steps[i].evt matches TransmitEvt::Permit(r) ==> steps[i - 1].send.acquires(
                steps[i].send,
                r,
            ),
    {
        Self::lemma_at(asks, closed, first, steps, i);
        if i + 1 < steps.len() {
            Self::lemma_at(asks, closed, first, steps, i + 1);
        }
    }
}

/// The law of the question for packets: what a connection is asked for is its
/// next packet, at the time that it is and of no more datagrams than the provider
/// allows, and what it gave is what is dealt with.
pub proof fn law_asks<S: MultiSend<OutPacket>, F: Fn() -> usize>(
    driver: ConTransmitDriver<S, F>,
    now: Instant,
    call: ConCall,
    packet: Option<Transmit>,
)
    ensures
        driver.asks(now)(call, packet) <==> (call matches ConCall::PollTransmit(at, count, given)
            && at == now && given == packet && call_ensures(driver.max_gso_provider, (), count)),
{
}

impl<S: MultiSend<OutPacket>, C, K> TransmitStep<S, C, K> {
    /// What a turn knows of the sender after its steps, by what came in them.
    proof fn lemma_knows(closed: bool, steps: Seq<Self>)
        ensures
            Self::run(closed, steps).0.closed <==> closed || exists|i: int|
                0 <= i < steps.len() && ((#[trigger] steps[i].evt) matches TransmitEvt::Permit(
                    Poll::Ready(Err(_)),
                )),
        decreases steps.len(),
    {
        if steps.len() > 0 {
            let before = steps.drop_last();
            Self::lemma_knows(closed, before);
            assert(forall|i: int| 0 <= i < before.len() ==> before[i].evt == steps[i].evt);
            assert(steps[steps.len() - 1].evt == steps.last().evt);
            if exists|i: int|
                0 <= i < before.len() && ((#[trigger] before[i].evt) matches TransmitEvt::Permit(
                    Poll::Ready(Err(_)),
                )) {
                let i = choose|i: int|
                    0 <= i < before.len() && ((#[trigger] before[i].evt) matches TransmitEvt::Permit(
                        Poll::Ready(Err(_)),
                    ));
                assert(steps[i].evt matches TransmitEvt::Permit(Poll::Ready(Err(_))));
            }
            if exists|i: int|
                0 <= i < steps.len() && ((#[trigger] steps[i].evt) matches TransmitEvt::Permit(
                    Poll::Ready(Err(_)),
                )) {
                let i = choose|i: int|
                    0 <= i < steps.len() && ((#[trigger] steps[i].evt) matches TransmitEvt::Permit(
                        Poll::Ready(Err(_)),
                    ));
                if i < before.len() {
                    assert(before[i].evt matches TransmitEvt::Permit(Poll::Ready(Err(_))));
                }
            }
        }
    }

    /// The law of what a turn leaves behind: the sender is closed exactly where
    /// it was before or a permit was refused in the turn, and then the turn
    /// wishes to close.
    pub proof fn law_turn_leaves(
        asks: spec_fn(K, Option<Transmit>) -> bool,
        closed: bool,
        first: Self,
        steps: Seq<Self>,
        closed_after: bool,
        wish: Wish,
    )
        requires
            Self::made(asks, closed, first, steps, closed_after, wish),
            first.evt is Next,
        ensures
            closed_after <==> closed || exists|i: int|
                0 <= i < steps.len() && ((#[trigger] steps[i].evt) matches TransmitEvt::Permit(
                    Poll::Ready(Err(_)),
                )),
            wish.more_work ==> !closed_after,
            wish.want_close ==> closed_after,
    {
        Self::lemma_knows(closed, steps);
    }
}

} // verus!
