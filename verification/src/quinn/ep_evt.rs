//! Telling the endpoint what a connection has to tell it.
use super::calls;
use super::calls::ConCall;
use super::Wish;
use super::ROUNDS;
use crate::runtime::ChanResult;
use crate::runtime::MultiSend;
use crate::runtime::MultiSender;
use crate::runtime::MultiSenderPoll;
use crate::runtime::OnceSend;
use quinn_proto::Connection;
use quinn_proto::ConnectionEvent;
use quinn_proto::EndpointEvent;
use std::task::Context;
use std::task::Poll;
use vstd::prelude::*;

verus! {

/// An event of the connection `hnd` for its endpoint, with the permit `C` to
/// send the connection an event in return.
pub struct EpEvt<C> {
    /// the connection
    pub hnd: usize,
    /// its event
    pub evt: EndpointEvent,
    /// for the answer
    pub rsp: C,
}

/// Give the endpoint's answer to an event back to the connection, if there is
/// one. Without an answer the permit is not used.
pub fn answer<C: OnceSend<ConnectionEvent>>(rsp: C, res: Option<ConnectionEvent>) -> (unused: Option<C>)
    ensures
        res is None ==> unused == Some(rsp),
        res matches Some(evt) ==> unused is None && call_ensures(C::send, (rsp, evt), ()),
{
    match res {
        Some(evt) => {
            rsp.send(evt);
            None
        },
        None => Some(rsp),
    }
}

/// One turn at telling the endpoint. `C` is the permit to send the connection
/// an answer.
pub struct EpEvtTurn<C> {
    /// the connection takes no answers any more
    pub con_closed: bool,
    /// the endpoint takes no events any more
    pub ep_closed: bool,
    /// for the answer to the next event
    pub cmd_send: Option<C>,
    /// how many events may still be taken up in this turn
    pub left: u8,
}

/// What came of the last action of a turn. `P` is the permit to tell the
/// endpoint, `E` an event.
pub enum EpEvtEvt<C, P, E> {
    /// the turn begins, or the last event is dealt with
    Next,
    /// the answer to the request for a permit for the answer
    ConPermit(Poll<ChanResult<C>>),
    /// the answer to the request for a permit to tell the endpoint
    EpPermit(Poll<ChanResult<P>>),
    /// the next event of the connection, if it has one
    Event(P, Option<E>),
}

/// What to do next in a turn.
pub enum EpEvtAct<C, P, E> {
    /// ask for a permit for the answer
    AcquireCon,
    /// ask for a permit to tell the endpoint
    AcquireEp,
    /// ask the connection for an event
    Poll(P),
    /// tell the endpoint
    Send(P, E, C),
    /// let the event go: nobody would take the answer
    Discard(E),
    /// the turn is over
    Done(Wish),
}

impl<C> EpEvtTurn<C> {
    /// What a turn does next, and the turn after that.
    pub open spec fn next<P, E>(self, evt: EpEvtEvt<C, P, E>) -> (
        EpEvtTurn<C>,
        EpEvtAct<C, P, E>,
    ) {
        match evt {
            EpEvtEvt::Next => if self.ep_closed {
                (self, EpEvtAct::Done(Wish { more_work: false, want_close: true }))
            } else if self.left == 0 {
                (self, EpEvtAct::Done(Wish { more_work: true, want_close: false }))
            } else if self.cmd_send is None && !self.con_closed {
                (self, EpEvtAct::AcquireCon)
            } else {
                (self, EpEvtAct::AcquireEp)
            },
            EpEvtEvt::ConPermit(Poll::Pending) => (
                self,
                EpEvtAct::Done(Wish { more_work: true, want_close: false }),
            ),
            EpEvtEvt::ConPermit(Poll::Ready(Err(_))) => (
                EpEvtTurn { con_closed: true, ..self },
                EpEvtAct::AcquireEp,
            ),
            EpEvtEvt::ConPermit(Poll::Ready(Ok(permit))) => (
                EpEvtTurn { cmd_send: Some(permit), ..self },
                EpEvtAct::AcquireEp,
            ),
            EpEvtEvt::EpPermit(Poll::Pending) | EpEvtEvt::Event(_, None) => (
                self,
                EpEvtAct::Done(Wish { more_work: false, want_close: false }),
            ),
            EpEvtEvt::EpPermit(Poll::Ready(Err(_))) => (
                EpEvtTurn { ep_closed: true, ..self },
                EpEvtAct::Done(Wish { more_work: false, want_close: true }),
            ),
            EpEvtEvt::EpPermit(Poll::Ready(Ok(permit))) => (self, EpEvtAct::Poll(permit)),
            EpEvtEvt::Event(permit, Some(e)) => (
                EpEvtTurn { cmd_send: None, left: (self.left - 1) as u8, ..self },
                match self.cmd_send {
                    Some(c) => EpEvtAct::Send(permit, e, c),
                    None => EpEvtAct::Discard(e),
                },
            ),
        }
    }

    /// A turn at its beginning.
    pub open spec fn spec_new(con_closed: bool, ep_closed: bool) -> EpEvtTurn<C> {
        EpEvtTurn { con_closed, ep_closed, cmd_send: None, left: ROUNDS }
    }

    /// Begin a turn.
    pub fn new(con_closed: bool, ep_closed: bool) -> (r: Self)
        ensures
            r == Self::spec_new(con_closed, ep_closed),
    {
        EpEvtTurn { con_closed, ep_closed, cmd_send: None, left: ROUNDS }
    }

    /// Go one step on in the turn.
    pub fn step<P, E>(&mut self, evt: EpEvtEvt<C, P, E>) -> (r: EpEvtAct<C, P, E>)
        requires
            evt is Event ==> old(self).left > 0,
        ensures
            (*final(self), r) == old(self).next(evt),
    {
        match evt {
            EpEvtEvt::Next => {
                if self.ep_closed {
                    EpEvtAct::Done(Wish { more_work: false, want_close: true })
                } else if self.left == 0 {
                    EpEvtAct::Done(Wish { more_work: true, want_close: false })
                } else if self.cmd_send.is_none() && !self.con_closed {
                    EpEvtAct::AcquireCon
                } else {
                    EpEvtAct::AcquireEp
                }
            },
            EpEvtEvt::ConPermit(Poll::Pending) => EpEvtAct::Done(
                Wish { more_work: true, want_close: false },
            ),
            EpEvtEvt::ConPermit(Poll::Ready(Err(_))) => {
                self.con_closed = true;
                EpEvtAct::AcquireEp
            },
            EpEvtEvt::ConPermit(Poll::Ready(Ok(permit))) => {
                self.cmd_send = Some(permit);
                EpEvtAct::AcquireEp
            },
            EpEvtEvt::EpPermit(Poll::Pending) => EpEvtAct::Done(
                Wish { more_work: false, want_close: false },
            ),
            EpEvtEvt::EpPermit(Poll::Ready(Err(_))) => {
                self.ep_closed = true;
                EpEvtAct::Done(Wish { more_work: false, want_close: true })
            },
            EpEvtEvt::EpPermit(Poll::Ready(Ok(permit))) => EpEvtAct::Poll(permit),
            EpEvtEvt::Event(_, None) => EpEvtAct::Done(
                Wish { more_work: false, want_close: false },
            ),
            EpEvtEvt::Event(permit, Some(e)) => {
                self.left = self.left - 1;
                match self.cmd_send.take() {
                    Some(c) => EpEvtAct::Send(permit, e, c),
                    None => EpEvtAct::Discard(e),
                }
            },
        }
    }
}

/// The law of a turn at telling the endpoint: an event is passed on together
/// with the permit for its answer, and let go only where there can be none;
/// no more events are taken up than the rounds allow.
pub proof fn law_ep_evt_turn<C, P, E>(turn: EpEvtTurn<C>, evt: EpEvtEvt<C, P, E>)
    requires
        evt is Event ==> turn.left > 0,
        evt is EpPermit || evt is Event ==> turn.cmd_send is Some || turn.con_closed,
    ensures
        ({
            let (after, act) = turn.next(evt);
            &&& turn.ep_closed ==> after.ep_closed
            &&& turn.con_closed ==> after.con_closed
            &&& act matches EpEvtAct::Send(p, e, c) ==> {
                &&& evt == EpEvtEvt::<C, P, E>::Event(p, Some(e))
                &&& turn.cmd_send == Some(c)
                &&& after.left + 1 == turn.left
            }
            &&& act matches EpEvtAct::Discard(e) ==> turn.con_closed && after.left + 1 == turn.left
            &&& act is AcquireEp ==> after.cmd_send is Some || after.con_closed
        }),
{
}

/// A step of a turn: what came of its last action, and what it left of the two
/// senders and the connection.
#[verifier::reject_recursive_types(SC)]
#[verifier::reject_recursive_types(SE)]
pub struct EpEvtStep<SC: MultiSend<ConnectionEvent>, SE: MultiSend<EpEvt<SC::Permit>>> {
    /// what came of it
    pub evt: EpEvtEvt<SC::Permit, SE::Permit, EndpointEvent>,
    /// the sender for answers after it
    pub con_send: MultiSenderPoll<ConnectionEvent, SC>,
    /// the sender for events after it
    pub ep_send: MultiSenderPoll<EpEvt<SC::Permit>, SE>,
    /// the connection after it
    pub con: Connection,
}

/// Tells the endpoint what a connection has to tell it.
#[verifier::reject_recursive_types(SC)]
#[verifier::reject_recursive_types(SE)]
pub struct EpEvtDriver<SC: MultiSend<ConnectionEvent>, SE: MultiSend<EpEvt<SC::Permit>>> {
    /// the connection
    pub hnd: usize,
    /// for answers of the endpoint
    pub con_cmd_send: MultiSenderPoll<ConnectionEvent, SC>,
    /// the connection takes no answers any more
    pub con_cmd_send_closed: bool,
    /// for events to the endpoint
    pub ep_cmd_send: MultiSenderPoll<EpEvt<SC::Permit>, SE>,
    /// the endpoint takes no events any more
    pub ep_cmd_send_closed: bool,
}

impl<SC: MultiSend<ConnectionEvent>, SE: MultiSend<EpEvt<SC::Permit>>> EpEvtDriver<SC, SE> {
    /// The driver of a new connection.
    pub fn new(
        hnd: usize,
        con_cmd_send: MultiSender<ConnectionEvent, SC>,
        ep_cmd_send: MultiSender<EpEvt<SC::Permit>, SE>,
    ) -> (r: Self)
        ensures
            r.hnd == hnd,
            r.con_cmd_send.send == con_cmd_send,
            r.ep_cmd_send.send == ep_cmd_send,
            !r.con_cmd_send_closed,
            !r.ep_cmd_send_closed,
    {
        EpEvtDriver {
            hnd,
            con_cmd_send: MultiSenderPoll::new(con_cmd_send),
            con_cmd_send_closed: false,
            ep_cmd_send: MultiSenderPoll::new(ep_cmd_send),
            ep_cmd_send_closed: false,
        }
    }

    /// Whether an action was done after the step `prev`, and `step` is what came
    /// of it: where no event was asked for the connection is what it was.
    pub open spec fn did(
        self,
        prev: EpEvtStep<SC, SE>,
        act: EpEvtAct<SC::Permit, SE::Permit, EndpointEvent>,
        step: EpEvtStep<SC, SE>,
    ) -> bool {
        &&& !(act is AcquireCon) ==> step.con_send == prev.con_send
        &&& !(act is AcquireEp) ==> step.ep_send == prev.ep_send
        &&& !(act is Poll) ==> step.con == prev.con
        &&& match act {
            EpEvtAct::AcquireCon => {
                &&& step.evt matches EpEvtEvt::ConPermit(r)
                &&& prev.con_send.acquires(step.con_send, r)
            },
            EpEvtAct::AcquireEp => {
                &&& step.evt matches EpEvtEvt::EpPermit(r)
                &&& prev.ep_send.acquires(step.ep_send, r)
            },
            EpEvtAct::Poll(permit) => step.evt matches EpEvtEvt::Event(p, _) && p == permit,
            EpEvtAct::Send(permit, e, rsp) => {
                &&& step.evt is Next
                &&& call_ensures(
                    SE::Permit::send,
                    (permit, (EpEvt { hnd: self.hnd, evt: e, rsp })),
                    (),
                )
            },
            EpEvtAct::Discard(_) => step.evt is Next,
            EpEvtAct::Done(_) => false,
        }
    }

    /// The step that a turn begins with.
    pub open spec fn first(self, con: Connection) -> EpEvtStep<SC, SE> {
        EpEvtStep {
            evt: EpEvtEvt::Next,
            con_send: self.con_cmd_send,
            ep_send: self.ep_cmd_send,
            con,
        }
    }

    /// The driver's turn after these steps, and what it does then.
    pub open spec fn run(self, steps: Seq<EpEvtStep<SC, SE>>) -> (
        EpEvtTurn<SC::Permit>,
        EpEvtAct<SC::Permit, SE::Permit, EndpointEvent>,
    )
        decreases steps.len(),
    {
        if steps.len() == 0 {
            (
                EpEvtTurn::spec_new(self.con_cmd_send_closed, self.ep_cmd_send_closed),
                EpEvtAct::AcquireCon,
            )
        } else {
            self.run(steps.drop_last()).0.next(steps.last().evt)
        }
    }

    /// Whether the steps begin a turn, and each is what came of what the turn
    /// did last.
    pub open spec fn trace(self, con: Connection, steps: Seq<EpEvtStep<SC, SE>>) -> bool
        decreases steps.len(),
    {
        &&& steps.len() > 0
        &&& steps.len() == 1 ==> steps[0] == self.first(con)
        &&& steps.len() > 1 ==> {
            let before = steps.drop_last();
            &&& self.trace(con, before)
            &&& self.did(before.last(), self.run(before).1, steps.last())
        }
    }

    /// Whether a turn with these steps was made: it ends with this wish, and
    /// leaves the driver and the connection like this.
    pub open spec fn made(
        self,
        con: Connection,
        steps: Seq<EpEvtStep<SC, SE>>,
        after: Self,
        after_con: Connection,
        wish: Wish,
    ) -> bool {
        let (end, act) = self.run(steps);
        &&& self.trace(con, steps)
        &&& act == EpEvtAct::<SC::Permit, SE::Permit, EndpointEvent>::Done(wish)
        &&& after == (EpEvtDriver {
            hnd: self.hnd,
            con_cmd_send: steps.last().con_send,
            con_cmd_send_closed: end.con_closed,
            ep_cmd_send: steps.last().ep_send,
            ep_cmd_send_closed: end.ep_closed,
        })
        &&& after_con == steps.last().con
    }

    proof fn lemma_push(
        self,
        con: Connection,
        steps: Seq<EpEvtStep<SC, SE>>,
        step: EpEvtStep<SC, SE>,
    )
        requires
            steps.len() == 0 ==> step == self.first(con),
            steps.len() > 0 ==> self.trace(con, steps) && self.did(
                steps.last(),
                self.run(steps).1,
                step,
            ),
        ensures
            self.trace(con, steps.push(step)),
            self.run(steps.push(step)) == self.run(steps).0.next(step.evt),
    {
        assert(steps.push(step).drop_last() =~= steps);
    }

    /// Tell the endpoint for one turn, as `EpEvtTurn` says.
    pub fn poll(&mut self, cx: &mut Context<'_>, connection: &mut Connection) -> (r:
        Wish)
        ensures
            exists|steps: Seq<EpEvtStep<SC, SE>>|
                {
                    &&& #[trigger] old(self).made(
                        *old(connection),
                        steps,
                        *final(self),
                        *final(connection),
                        r,
                    )
                    &&& forall|i: int|
                        0 < i < steps.len() ==> ((#[trigger] steps[i].evt) matches EpEvtEvt::Event(
                            _,
                            e,
                        ) ==> exists|a: &mut Connection|
                            {
                                &&& *a == steps[i - 1].con
                                &&& *final(a) == steps[i].con
                                &&& #[trigger] calls::made(a, ConCall::PollEpEvent(e))
                            })
                },
            final(self).hnd == old(self).hnd,
            final(self).con_cmd_send.send == old(self).con_cmd_send.send,
            final(self).ep_cmd_send.send == old(self).ep_cmd_send.send,
            r.want_close == final(self).ep_cmd_send_closed,
            r.more_work ==> !r.want_close,
            old(self).con_cmd_send_closed ==> final(self).con_cmd_send_closed,
            old(self).ep_cmd_send_closed ==> {
                &&& *final(self) == *old(self)
                &&& *final(connection) == *old(connection)
                &&& r.want_close
            },
    {
        let mut turn: EpEvtTurn<SC::Permit> = EpEvtTurn::new(
            self.con_cmd_send_closed,
            self.ep_cmd_send_closed,
        );
        let ghost was = *self;
        let ghost con = *connection;
        let ghost mut trace = Seq::<EpEvtStep<SC, SE>>::empty();
        proof {
            was.lemma_push(con, trace, was.first(con));
            trace = trace.push(was.first(con));
        }
        let mut act: EpEvtAct<SC::Permit, SE::Permit, EndpointEvent> = turn.step(EpEvtEvt::Next);
        loop
            invariant
                was == *old(self),
                con == *old(connection),
                trace.len() > 0,
                was.trace(con, trace),
                was.run(trace) == (turn, act),
                trace.last().con_send == self.con_cmd_send,
                trace.last().ep_send == self.ep_cmd_send,
                trace.last().con == *connection,
                forall|i: int|
                    0 < i < trace.len() ==> ((#[trigger] trace[i].evt) matches EpEvtEvt::Event(
                        _,
                        e,
                    ) ==> exists|a: &mut Connection|
                        {
                            &&& *a == trace[i - 1].con
                            &&& *final(a) == trace[i].con
                            &&& #[trigger] calls::made(a, ConCall::PollEpEvent(e))
                        }),
                self.hnd == was.hnd,
                self.con_cmd_send.send == was.con_cmd_send.send,
                self.ep_cmd_send.send == was.ep_cmd_send.send,
                turn.ep_closed ==> act is Done,
                was.con_cmd_send_closed ==> turn.con_closed,
                was.ep_cmd_send_closed ==> turn.ep_closed && act is Done && *self == was
                    && *connection == con
                    && turn.con_closed == was.con_cmd_send_closed,
                act matches EpEvtAct::Done(wish) ==> wish.want_close == turn.ep_closed && (
                wish.more_work ==> !wish.want_close),
                act is AcquireCon || act is AcquireEp || act is Poll ==> turn.left > 0,
            decreases
                    turn.left,
                    (match act {
                        EpEvtAct::Send(..) => 4int,
                        EpEvtAct::Discard(_) => 4int,
                        EpEvtAct::AcquireCon => 3int,
                        EpEvtAct::AcquireEp => 2int,
                        EpEvtAct::Poll(_) => 1int,
                        EpEvtAct::Done(_) => 0int,
                    }),
        {
            let evt: EpEvtEvt<SC::Permit, SE::Permit, EndpointEvent>;
            match act {
                EpEvtAct::Done(wish) => {
                    self.con_cmd_send_closed = turn.con_closed;
                    self.ep_cmd_send_closed = turn.ep_closed;
                    assert(was.made(con, trace, *self, *connection, wish));
                    return wish;
                },
                EpEvtAct::AcquireCon => {
                    evt = EpEvtEvt::ConPermit(self.con_cmd_send.poll_acquire(cx));
                },
                EpEvtAct::AcquireEp => {
                    evt = EpEvtEvt::EpPermit(self.ep_cmd_send.poll_acquire(cx));
                },
                EpEvtAct::Poll(permit) => {
                    evt = EpEvtEvt::Event(permit, calls::poll_ep_event(connection));
                },
                EpEvtAct::Send(permit, e, rsp) => {
                    permit.send(EpEvt { hnd: self.hnd, evt: e, rsp });
                    evt = EpEvtEvt::Next;
                },
                EpEvtAct::Discard(_) => {
                    evt = EpEvtEvt::Next;
                },
            }
            proof {
                let step = EpEvtStep {
                    evt,
                    con_send: self.con_cmd_send,
                    ep_send: self.ep_cmd_send,
                    con: *connection,
                };
                was.lemma_push(con, trace, step);
                trace = trace.push(step);
            }
            act = turn.step(evt);
        }
    }
}

/// The law of the course of a turn: before the connection is asked for an event
/// there is a permit for its answer, unless the connection takes none any more,
/// and one to tell the endpoint. An event is told to the endpoint, as it is,
/// with both; at most thirty-two are. The turn ends where there is none, a
/// permit has to be waited for, the endpoint takes none or the rounds are used
/// up; it wishes for another where the rounds or the connection's permit ended
/// it, and to close where the endpoint is gone.
pub proof fn law_ep_evt_course<C, P, E>(turn: EpEvtTurn<C>, evt: EpEvtEvt<C, P, E>)
    requires
        evt is Event ==> turn.left > 0,
        turn.ep_closed ==> evt is Next,
    ensures
        ({
            let (after, then) = turn.next(evt);
            let busy = evt == EpEvtEvt::<C, P, E>::ConPermit(Poll::Pending);
            let took = evt matches EpEvtEvt::Event(_, Some(_));
            &&& after.ep_closed <==> turn.ep_closed || (evt matches EpEvtEvt::EpPermit(
                Poll::Ready(Err(_)),
            ))
            &&& after.con_closed <==> turn.con_closed || (evt matches EpEvtEvt::ConPermit(
                Poll::Ready(Err(_)),
            ))
            &&& after.left == if took {
                turn.left - 1
            } else {
                turn.left as int
            }
            &&& after.cmd_send == match evt {
                EpEvtEvt::ConPermit(Poll::Ready(Ok(permit))) => Some(permit),
                EpEvtEvt::Event(_, Some(_)) => None,
                _ => turn.cmd_send,
            }
            &&& evt matches EpEvtEvt::Event(permit, Some(e)) ==> match turn.cmd_send {
                Some(rsp) => then == EpEvtAct::<C, P, E>::Send(permit, e, rsp),
                None => then == EpEvtAct::<C, P, E>::Discard(e),
            }
            &&& then is Send || then is Discard ==> took
            &&& evt matches EpEvtEvt::EpPermit(Poll::Ready(Ok(permit))) ==> then == EpEvtAct::<C, P, E>::Poll(
                permit,
            )
            &&& then is Poll ==> evt is EpPermit
            &&& then is Done <==> {
                ||| after.ep_closed
                ||| busy
                ||| evt is Next && turn.left == 0
                ||| evt == EpEvtEvt::<C, P, E>::EpPermit(Poll::Pending)
                ||| (evt matches EpEvtEvt::Event(_, None))
            }
            &&& then matches EpEvtAct::Done(wish) ==> {
                &&& wish.want_close == after.ep_closed
                &&& wish.more_work <==> !after.ep_closed && (busy || evt is Next)
            }
            &&& evt is Next && !(then is Done) ==> if turn.cmd_send is Some || turn.con_closed {
                then is AcquireEp
            } else {
                then is AcquireCon
            }
            &&& then is AcquireCon ==> evt is Next
            &&& evt is ConPermit && !(then is Done) ==> then is AcquireEp
            &&& then is AcquireEp ==> evt is Next || evt is ConPermit
        }),
{
}

/// The law of the beginning of a turn: it knows who is gone, has no permit yet,
/// and all its rounds ahead.
pub proof fn law_ep_evt_begins<C, P, E>(con_closed: bool, ep_closed: bool)
    ensures
        ({
            let (after, then) = EpEvtTurn::<C>::spec_new(con_closed, ep_closed).next::<P, E>(
                EpEvtEvt::Next,
            );
            &&& after.con_closed == con_closed
            &&& after.ep_closed == ep_closed
            &&& after.left == 32
            &&& ep_closed ==> then is Done
            &&& !ep_closed && con_closed ==> then is AcquireEp
            &&& !ep_closed && !con_closed ==> then is AcquireCon
        }),
{
}

impl<SC: MultiSend<ConnectionEvent>, SE: MultiSend<EpEvt<SC::Permit>>> EpEvtDriver<SC, SE> {
    /// Each step of a turn but the first came of what the turn did before.
    proof fn lemma_at(self, con: Connection, steps: Seq<EpEvtStep<SC, SE>>, i: int)
        requires
            self.trace(con, steps),
            0 < i < steps.len(),
        ensures
            self.did(steps[i - 1], self.run(steps.take(i)).1, steps[i]),
            self.run(steps.take(i + 1)) == self.run(steps.take(i)).0.next(steps[i].evt),
        decreases steps.len(),
    {
        if i + 1 == steps.len() {
            assert(steps.take(i) =~= steps.drop_last());
            assert(steps.take(i + 1) =~= steps);
        } else {
            self.lemma_at(con, steps.drop_last(), i);
            assert(steps.drop_last().take(i) =~= steps.take(i));
            assert(steps.drop_last().take(i + 1) =~= steps.take(i + 1));
        }
    }

    /// The law of events for the endpoint, over a turn: every event that the
    /// connection gave was sent to the endpoint under the connection's handle,
    /// with the permit for it and that for its answer, where there is one; the
    /// connection is touched by nothing but the question for events. Nothing is
    /// done once the turn is over.
    pub proof fn law_endpoint_told(self, con: Connection, steps: Seq<EpEvtStep<SC, SE>>, i: int)
        requires
            self.trace(con, steps),
            0 < i < steps.len(),
        ensures
            i + 1 < steps.len() ==> (steps[i].evt matches EpEvtEvt::Event(permit, Some(evt)) ==> (
            self.run(steps.take(i)).0.cmd_send matches Some(rsp) ==> call_ensures(
                SE::Permit::send,
                (permit, (EpEvt { hnd: self.hnd, evt, rsp })),
                (),
            ))),
            !(steps[i].evt is Event) ==> steps[i].con == steps[i - 1].con,
            steps[i].evt matches EpEvtEvt::ConPermit(r) ==> steps[i - 1].con_send.acquires(
                steps[i].con_send,
                r,
            ),
            steps[i].evt matches EpEvtEvt::EpPermit(r) ==> steps[i - 1].ep_send.acquires(
                steps[i].ep_send,
                r,
            ),
            !(steps[i].evt is ConPermit) ==> steps[i].con_send == steps[i - 1].con_send,
            !(steps[i].evt is EpPermit) ==> steps[i].ep_send == steps[i - 1].ep_send,
            !(self.run(steps.take(i)).1 is Done),
    {
        self.lemma_at(con, steps, i);
        if i + 1 < steps.len() {
            self.lemma_at(con, steps, i + 1);
        }
    }
}

impl<SC: MultiSend<ConnectionEvent>, SE: MultiSend<EpEvt<SC::Permit>>> EpEvtDriver<SC, SE> {
    /// What a turn knows after its steps, by what came in them.
    proof fn lemma_knows(self, steps: Seq<EpEvtStep<SC, SE>>)
        ensures
            self.run(steps).0.ep_closed <==> self.ep_cmd_send_closed || exists|i: int|
                0 <= i < steps.len() && ((#[trigger] steps[i].evt) matches EpEvtEvt::EpPermit(
                    Poll::Ready(Err(_)),
                )),
            self.run(steps).0.con_closed <==> self.con_cmd_send_closed || exists|i: int|
                0 <= i < steps.len() && ((#[trigger] steps[i].evt) matches EpEvtEvt::ConPermit(
                    Poll::Ready(Err(_)),
                )),
        decreases steps.len(),
    {
        if steps.len() > 0 {
            let before = steps.drop_last();
            let last = steps.len() - 1;
            self.lemma_knows(before);
            assert(forall|i: int|
                0 <= i < before.len() ==> (#[trigger] before[i].evt) == steps[i].evt);
            assert(forall|i: int|
                0 <= i < steps.len() && i != last ==> (#[trigger] steps[i].evt) == before[i].evt);
            assert(steps[last].evt == steps.last().evt);
        }
    }

    /// The law of what a turn leaves behind: the endpoint is gone exactly where it
    /// was before or its permit was refused in the turn, and the connection takes
    /// no answers exactly where it took none before or its permit was refused;
    /// the handle stays.
    pub proof fn law_turn_leaves(
        self,
        con: Connection,
        steps: Seq<EpEvtStep<SC, SE>>,
        after: Self,
        after_con: Connection,
        wish: Wish,
    )
        requires
            self.made(con, steps, after, after_con, wish),
        ensures
            after.ep_cmd_send_closed <==> self.ep_cmd_send_closed || exists|i: int|
                0 <= i < steps.len() && ((#[trigger] steps[i].evt) matches EpEvtEvt::EpPermit(
                    Poll::Ready(Err(_)),
                )),
            after.con_cmd_send_closed <==> self.con_cmd_send_closed || exists|i: int|
                0 <= i < steps.len() && ((#[trigger] steps[i].evt) matches EpEvtEvt::ConPermit(
                    Poll::Ready(Err(_)),
                )),
            after.hnd == self.hnd,
            after.ep_cmd_send == steps.last().ep_send,
            after.con_cmd_send == steps.last().con_send,
            after_con == steps.last().con,
    {
        self.lemma_knows(steps);
    }
}

/// The law of answers: what the endpoint answers goes back with the permit for
/// it, and a permit for which there is no answer comes back unused.
pub proof fn law_answer<C: OnceSend<ConnectionEvent>>(
    rsp: C,
    res: Option<ConnectionEvent>,
    unused: Option<C>,
)
    requires
        call_ensures(answer::<C>, (rsp, res), unused),
    ensures
        unused is Some <==> res is None,
        unused matches Some(permit) ==> permit == rsp,
        res matches Some(evt) ==> call_ensures(C::send, (rsp, evt), ()),
{
}

} // verus!
