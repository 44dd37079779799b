//! A connection's turn among all connections of its endpoint: the calls.
use super::calls;
use super::calls::ConCall;
use super::calls::Step;
use super::connections;
use super::connections::ConInfo;
use super::connections::ConsAct;
use super::connections::ConsEvt;
use super::connections::ConsPhase;
use super::connections::QuinnDriver;
use super::ep;
use super::ep::EpCall;
use super::ep::QuinnEndpoint;
use super::out;
use super::out::out_packet;
use super::out::OutPacket;
use super::proto;
use super::proto::con_remote_address;
use super::proto::ConEvent;
use super::proto::ConStreamEvent;
use super::proto::StreamDir;
use super::stream::ReadEnd;
use super::stream::StreamInfo;
use super::streams;
use super::streams::register_bi;
use super::streams::register_uni_in;
use super::streams::register_uni_out;
use super::streams::StreamMap;
use super::streams::StreamPairs;
use super::BYTES_CAP;
use crate::connection::ConnectionCmd;
use crate::connection::ConnectionEvt;
use crate::error::AqResult;
use crate::runtime::MultiSend;
use crate::runtime::MultiSenderPoll;
use crate::runtime::OnceSend;
use crate::util::Receive;
use quinn_proto::Connection;
use quinn_proto::ConnectionEvent;
use quinn_proto::Endpoint;
use quinn_proto::EndpointEvent;
use std::marker::PhantomData;
use std::task::Context;
use std::time::Instant;
use vstd::prelude::*;

verus! {

/// A connection, with its streams and the channels to its user. `RB` and `WB`
/// are the backends of streams, `R` and `W` the user's ends of them.
#[verifier::reject_recursive_types(A)]
#[verifier::reject_recursive_types(U)]
#[verifier::reject_recursive_types(B)]
#[verifier::reject_recursive_types(RB)]
#[verifier::reject_recursive_types(WB)]
#[verifier::reject_recursive_types(R)]
#[verifier::reject_recursive_types(W)]
#[verifier::reject_recursive_types(C)]
#[verifier::reject_recursive_types(S)]
pub struct Con<
    A,
    U,
    B,
    RB,
    WB,
    R,
    W,
    C: Receive<ConnectionCmd<A, U, B>>,
    S: MultiSend<ConnectionEvt<R, W>>,
> {
    /// the connection
    pub connection: Connection,
    /// its streams
    pub streams: StreamMap<RB, WB>,
    /// what the user asks
    pub cmd_recv: C,
    /// what the user is told
    pub evt_send: MultiSenderPoll<ConnectionEvt<R, W>, S>,
    /// what waits
    pub info: ConInfo<R, W, U, B>,
    /// how remote addresses are asked for
    pub marker: PhantomData<A>,
}

impl<
    A: OnceSend<AqResult<core::net::SocketAddr>>,
    U: OnceSend<AqResult<W>>,
    B: OnceSend<AqResult<(W, R)>>,
    RB: ReadEnd,
    WB,
    R,
    W,
    C: Receive<ConnectionCmd<A, U, B>>,
    S: MultiSend<ConnectionEvt<R, W>>,
> Con<A, U, B, RB, WB, R, W, C, S> {
    /// Whether an incoming stream was asked for, and taken up where there was
    /// one: `id` is what the connection gave, `after` what the streams are
    /// then, and `evt` hands on the user's ends.
    pub open spec fn took_up<
        M: StreamPairs<ReadBack = RB, ReadFront = R, WriteBack = WB, WriteFront = W>,
    >(
        self,
        pairs: M,
        dir: StreamDir,
        id: Option<u64>,
        evt: ConsEvt<OutPacket, A, U, B, EndpointEvent, S::Permit, R, W>,
        after: Map<u64, StreamInfo<RB, WB>>,
    ) -> bool {
        match (id, dir) {
            (None, StreamDir::Uni) => evt->InUni_0 is None && after == self.streams@,
            (None, StreamDir::Bi) => evt->InBi_0 is None && after == self.streams@,
            (Some(id), StreamDir::Uni) => {
                &&& evt->InUni_0 matches Some(rf)
                &&& streams::took_uni_in(pairs, self.streams@, after, id, rf)
            },
            (Some(id), StreamDir::Bi) => {
                &&& evt->InBi_0 matches Some(fronts)
                &&& streams::took_bi(pairs, self.streams@, after, id, fronts)
            },
        }
    }

    /// Whether an action is done by `call`, where it takes one of the
    /// connection, `evt` is what came of it, and it made `after` of the
    /// streams. What it leaves of the connection and of the user's commands is
    /// not said here.
    pub open spec fn did<
        M: StreamPairs<ReadBack = RB, ReadFront = R, WriteBack = WB, WriteFront = W>,
        F: Fn() -> usize,
    >(
        self,
        pairs: M,
        now: Instant,
        max_gso: F,
        act: ConsAct<A, U, B, EndpointEvent, S::Permit, R, W>,
        call: Option<ConCall>,
        evt: ConsEvt<OutPacket, A, U, B, EndpointEvent, S::Permit, R, W>,
        after: Map<u64, StreamInfo<RB, WB>>,
        after_send: MultiSenderPoll<ConnectionEvt<R, W>, S>,
    ) -> bool {
        &&& connections::cons_answers(act, evt)
        &&& !(act is IntakeUni || act is IntakeBi || act is Accept) ==> after == self.streams@
        &&& !(act is Acquire) ==> after_send == self.evt_send
        &&& match act {
            ConsAct::HandleTimeout => call == Some(ConCall::HandleTimeout(now)),
            ConsAct::RecvCmd => call is None,
            ConsAct::RemoteAddress(rsp) => call is None && call_ensures(
                A::send,
                (rsp, Ok(proto::con_remote(self.connection))),
                (),
            ),
            ConsAct::OpenUni(_) => call == Some(ConCall::Open(StreamDir::Uni, evt->OpenedUni_1)),
            ConsAct::OpenBi(_) => call == Some(ConCall::Open(StreamDir::Bi, evt->OpenedBi_1)),
            ConsAct::IntakeUni(req, id) => {
                &&& call is None
                &&& exists|wf: W| #[trigger]
                    call_ensures(U::send, (req, Ok(wf)), ()) && streams::took_uni_out(
                        pairs,
                        self.streams@,
                        after,
                        id,
                        wf,
                    )
            },
            ConsAct::IntakeBi(req, id) => {
                &&& call is None
                &&& exists|ends: (W, R)| #[trigger]
                    call_ensures(B::send, (req, Ok(ends)), ()) && streams::took_bi(
                        pairs,
                        self.streams@,
                        after,
                        id,
                        ends,
                    )
            },
            ConsAct::RefuseUni(req, err) => call is None && call_ensures(
                U::send,
                (req, Err(err)),
                (),
            ),
            ConsAct::RefuseBi(req, err) => call is None && call_ensures(
                B::send,
                (req, Err(err)),
                (),
            ),
            ConsAct::PollTransmit => {
                &&& call matches Some(ConCall::PollTransmit(t, n, packet))
                &&& t == now
                &&& call_ensures(max_gso, (), n)
                &&& evt->Packet_0 == out::maybe_out(packet)
            },
            ConsAct::PollEpEvent => call == Some(ConCall::PollEpEvent(evt->EpEvent_0)),
            ConsAct::Acquire => call is None && self.evt_send.acquires(after_send, evt->Permit_0),
            ConsAct::Send(permit, e) => call is None && call_ensures(
                S::Permit::send,
                (permit, e),
                (),
            ),
            ConsAct::PollEvent => call == Some(ConCall::PollEvent(evt->Event_0)),
            ConsAct::RecvDatagram => call == Some(ConCall::RecvDatagram(evt->Datagram_0)),
            ConsAct::Accept(dir) => {
                &&& call matches Some(ConCall::Accept(d, id))
                &&& d == dir
                &&& self.took_up(pairs, dir, id, evt, after)
            },
            ConsAct::CheckClosed => call is None && calls::said_closed(
                self.connection,
                evt->Closed_0,
            ),
            ConsAct::Close => call == Some(ConCall::Close(now)),
            _ => false,
        }
    }
}

/// Whether an action is for the caller of a turn to do: it needs the endpoint
/// or the clock, or moves data on the streams.
pub open spec fn is_outside<A, U, B, E, P, R, W>(act: ConsAct<A, U, B, E, P, R, W>) -> bool {
    ||| act is Remove
    ||| act is PollTimeout
    ||| act is HandleEpEvent
    ||| act is Streams
    ||| act is Done
}

impl<
    A: OnceSend<AqResult<core::net::SocketAddr>>,
    U: OnceSend<AqResult<W>>,
    B: OnceSend<AqResult<(W, R)>>,
    RB: ReadEnd,
    WB,
    R,
    W,
    C: Receive<ConnectionCmd<A, U, B>>,
    S: MultiSend<ConnectionEvt<R, W>>,
> Con<A, U, B, RB, WB, R, W, C, S> {
    /// Begin the turn of the connection.
    pub fn begin(&mut self, driver: &mut QuinnDriver<OutPacket>) -> (r: ConsAct<
        A,
        U,
        B,
        EndpointEvent,
        S::Permit,
        R,
        W,
    >)
        requires
            old(driver)@.udp_send_buf.len() <= old(driver).buf_cap,
            old(self).info@.waiting() <= old(driver).buf_cap,
        ensures
            exists|drained: bool|
                {
                    &&& #[trigger] calls::said_drained(old(self).connection, drained)
                    &&& (final(driver)@, final(self).info@, r) == connections::cons_next(
                        old(driver)@.at(ConsPhase::Begin),
                        old(self).info@,
                        ConsEvt::<OutPacket, A, U, B, EndpointEvent, S::Permit, R, W>::Begin(drained),
                    )
                },
            final(driver)@.wf(),
            final(self).info@.waiting() <= final(driver).buf_cap,
            connections::cons_asks(final(driver)@, final(self).info@, r),
            final(self).connection == old(self).connection,
            final(self).streams == old(self).streams,
            final(self).cmd_recv == old(self).cmd_recv,
            final(self).evt_send == old(self).evt_send,
    {
        driver.next_connection();
        let drained = calls::is_drained(&self.connection);
        let evt: ConsEvt<OutPacket, A, U, B, EndpointEvent, S::Permit, R, W> = ConsEvt::Begin(
            drained,
        );
        proof {
            connections::law_cons_asks(driver@, self.info@, ConsAct::Done, evt);
        }
        driver.poll_connections(&mut self.info, evt)
    }

    /// Do what is next in the turn of the connection, unless it is for the
    /// caller to do. An event that cannot be dealt with ends the turn.
    pub fn perform<
        M: StreamPairs<ReadBack = RB, ReadFront = R, WriteBack = WB, WriteFront = W>,
        F: Fn() -> usize,
    >(
        &mut self,
        driver: &mut QuinnDriver<OutPacket>,
        pairs: &M,
        cx: &mut Context<'_>,
        now: Instant,
        max_gso: &F,
        act: ConsAct<A, U, B, EndpointEvent, S::Permit, R, W>,
    ) -> (r: Step<ConsAct<A, U, B, EndpointEvent, S::Permit, R, W>>)
        requires
            old(driver)@.wf(),
            old(self).info@.waiting() <= old(driver).buf_cap,
            connections::cons_asks(old(driver)@, old(self).info@, act),
            call_requires(*max_gso, ()),
            forall|n: usize| call_ensures(*max_gso, (), n) ==> n > 0,
        ensures
            final(driver)@.wf(),
            final(self).info@.waiting() <= final(driver).buf_cap,
            is_outside(act) <==> r is Outside,
            match r {
                Step::Outside(a) => a == act && *final(driver) == *old(driver) && *final(self)
                    == *old(self),
                Step::Unhandled(evt) => {
                    &&& act is PollEvent
                    &&& evt matches ConEvent::Stream(ConStreamEvent::Stopped(..))
                    &&& exists|a: &mut Connection|
                        {
                            &&& *a == old(self).connection
                            &&& *final(a) == final(self).connection
                            &&& #[trigger] calls::made(a, ConCall::PollEvent(Some(evt)))
                        }
                    &&& final(driver)@ == old(driver)@
                    &&& final(self).info@ == old(self).info@
                    &&& final(self).streams@ == old(self).streams@
                    &&& final(self).cmd_recv == old(self).cmd_recv
                    &&& final(self).evt_send == old(self).evt_send
                },
                Step::Next(then) => {
                    &&& connections::cons_asks(final(driver)@, final(self).info@, then)
                    &&& exists|
                        evt: ConsEvt<OutPacket, A, U, B, EndpointEvent, S::Permit, R, W>,
                        call: Option<ConCall>,
                    |
                        {
                            &&& #[trigger] old(self).did(
                                *pairs,
                                now,
                                *max_gso,
                                act,
                                call,
                                evt,
                                final(self).streams@,
                                final(self).evt_send,
                            )
                            &&& match call {
                                None => final(self).connection == old(self).connection,
                                Some(call) => exists|a: &mut Connection|
                                    {
                                        &&& *a == old(self).connection
                                        &&& *final(a) == final(self).connection
                                        &&& #[trigger] calls::made(a, call)
                                    },
                            }
                            &&& if act is RecvCmd {
                                exists|a: &mut C, ctx: &mut Context<'_>|
                                    {
                                        &&& *a == old(self).cmd_recv
                                        &&& *final(a) == final(self).cmd_recv
                                        &&& #[trigger] call_ensures(
                                            C::poll_next,
                                            (a, ctx),
                                            evt->Cmd_0,
                                        )
                                    }
                            } else {
                                final(self).cmd_recv == old(self).cmd_recv
                            }
                            &&& (final(driver)@, final(self).info@, then)
                                == connections::cons_next(old(driver)@, old(self).info@, evt)
                        }
                },
            },
    {
        let ghost was = *self;
        let ghost wanted = act;
        let ghost mut call: Option<ConCall> = None;
        let evt: ConsEvt<OutPacket, A, U, B, EndpointEvent, S::Permit, R, W>;
        match act {
            ConsAct::HandleTimeout => {
                calls::handle_timeout(&mut self.connection, now);
                proof {
                    call = Some(ConCall::HandleTimeout(now));
                }
                evt = ConsEvt::Handled;
            },
            ConsAct::RecvCmd => {
                evt = ConsEvt::Cmd(self.cmd_recv.poll_next(cx));
            },
            ConsAct::RemoteAddress(rsp) => {
                rsp.send(Ok(con_remote_address(&self.connection)));
                evt = ConsEvt::Handled;
            },
            ConsAct::OpenUni(req) => {
                let id = calls::open(&mut self.connection, StreamDir::Uni);
                proof {
                    call = Some(ConCall::Open(StreamDir::Uni, id));
                }
                evt = ConsEvt::OpenedUni(req, id);
            },
            ConsAct::OpenBi(req) => {
                let id = calls::open(&mut self.connection, StreamDir::Bi);
                proof {
                    call = Some(ConCall::Open(StreamDir::Bi, id));
                }
                evt = ConsEvt::OpenedBi(req, id);
            },
            ConsAct::IntakeUni(req, id) => {
                let wf = register_uni_out(pairs, &mut self.streams, id);
                req.send(Ok(wf));
                evt = ConsEvt::Handled;
            },
            ConsAct::IntakeBi(req, id) => {
                let ends = register_bi(pairs, &mut self.streams, id);
                req.send(Ok(ends));
                evt = ConsEvt::Handled;
            },
            ConsAct::RefuseUni(req, err) => {
                req.send(Err(err));
                evt = ConsEvt::Handled;
            },
            ConsAct::RefuseBi(req, err) => {
                req.send(Err(err));
                evt = ConsEvt::Handled;
            },
            ConsAct::PollTransmit => {
                let n: usize = max_gso();
                let packet = calls::poll_transmit(&mut self.connection, now, n);
                proof {
                    call = Some(ConCall::PollTransmit(now, n, packet));
                }
                evt = ConsEvt::Packet(
                    match packet {
                        Some(packet) => Some(out_packet(packet)),
                        None => None,
                    },
                );
            },
            ConsAct::PollEpEvent => {
                let e = calls::poll_ep_event(&mut self.connection);
                proof {
                    call = Some(ConCall::PollEpEvent(e));
                }
                evt = ConsEvt::EpEvent(e);
            },
            ConsAct::Acquire => {
                evt = ConsEvt::Permit(self.evt_send.poll_acquire(cx));
            },
            ConsAct::Send(permit, e) => {
                permit.send(e);
                evt = ConsEvt::Handled;
            },
            ConsAct::PollEvent => {
                match calls::poll_event(&mut self.connection) {
                    Some(ConEvent::Stream(ConStreamEvent::Stopped(id, code))) => {
                        return Step::Unhandled(
                            ConEvent::Stream(ConStreamEvent::Stopped(id, code)),
                        );
                    },
                    e => {
                        proof {
                            call = Some(ConCall::PollEvent(e));
                        }
                        evt = ConsEvt::Event(e);
                    },
                }
            },
            ConsAct::RecvDatagram => {
                let got = calls::recv_datagram(&mut self.connection);
                proof {
                    call = Some(ConCall::RecvDatagram(got));
                }
                evt = ConsEvt::Datagram(got);
            },
            ConsAct::Accept(StreamDir::Uni) => {
                let id = calls::accept(&mut self.connection, StreamDir::Uni);
                proof {
                    call = Some(ConCall::Accept(StreamDir::Uni, id));
                }
                match id {
                    Some(id) => {
                        let rf = register_uni_in(pairs, &mut self.streams, id);
                        evt = ConsEvt::InUni(Some(rf));
                    },
                    None => {
                        evt = ConsEvt::InUni(None);
                    },
                }
            },
            ConsAct::Accept(StreamDir::Bi) => {
                let id = calls::accept(&mut self.connection, StreamDir::Bi);
                proof {
                    call = Some(ConCall::Accept(StreamDir::Bi, id));
                }
                match id {
                    Some(id) => {
                        let ends = register_bi(pairs, &mut self.streams, id);
                        evt = ConsEvt::InBi(Some(ends));
                    },
                    None => {
                        evt = ConsEvt::InBi(None);
                    },
                }
            },
            ConsAct::CheckClosed => {
                evt = ConsEvt::Closed(calls::is_closed(&self.connection));
            },
            ConsAct::Close => {
                calls::close(&mut self.connection, now);
                proof {
                    call = Some(ConCall::Close(now));
                }
                evt = ConsEvt::Handled;
            },
            act => {
                return Step::Outside(act);
            },
        }
        proof {
            connections::law_cons_asks(driver@, self.info@, wanted, evt);
        }
        let then = driver.poll_connections(&mut self.info, evt);
        assert(was.did(
            *pairs,
            now,
            *max_gso,
            wanted,
            call,
            evt,
            self.streams@,
            self.evt_send,
        ));
        Step::Next(then)
    }

    /// Let the connection take up an event of the endpoint.
    pub fn handle_event(&mut self, evt: ConnectionEvent)
        ensures
            final(self).streams == old(self).streams,
            final(self).cmd_recv == old(self).cmd_recv,
            final(self).evt_send == old(self).evt_send,
            final(self).info == old(self).info,
            exists|c: &mut Connection|
                {
                    &&& *c == old(self).connection
                    &&& *final(c) == final(self).connection
                    &&& #[trigger] calls::made(c, ConCall::HandleEvent(evt))
                },
    {
        calls::take_event(&mut self.connection, evt);
    }

    /// Ask the connection when it has to be told of the time next, counted from
    /// `base`.
    pub fn poll_timeout(&mut self, driver: &mut QuinnDriver<OutPacket>, base: &Instant) -> (r: ConsAct<
        A,
        U,
        B,
        EndpointEvent,
        S::Permit,
        R,
        W,
    >)
        requires
            old(driver)@.wf(),
            old(self).info@.waiting() <= old(driver).buf_cap,
            connections::cons_asks::<OutPacket, A, U, B, EndpointEvent, S::Permit, R, W>(
                old(driver)@,
                old(self).info@,
                ConsAct::PollTimeout,
            ),
        ensures
            final(driver)@.wf(),
            final(self).info@.waiting() <= final(driver).buf_cap,
            connections::cons_asks(final(driver)@, final(self).info@, r),
            final(self).streams == old(self).streams,
            final(self).cmd_recv == old(self).cmd_recv,
            final(self).evt_send == old(self).evt_send,
            exists|at: Option<Instant>, a: &mut Connection|
                {
                    &&& *a == old(self).connection
                    &&& *final(a) == final(self).connection
                    &&& #[trigger] calls::made(a, ConCall::PollTimeout(at))
                    &&& (final(driver)@, final(self).info@, r) == connections::cons_next(
                        old(driver)@,
                        old(self).info@,
                        ConsEvt::<OutPacket, A, U, B, EndpointEvent, S::Permit, R, W>::Timeout(
                            calls::time_after(*base, at),
                        ),
                    )
                },
    {
        let ghost wanted = ConsAct::<A, U, B, EndpointEvent, S::Permit, R, W>::PollTimeout;
        let time: Option<u64> = calls::poll_time(&mut self.connection, base);
        let evt: ConsEvt<OutPacket, A, U, B, EndpointEvent, S::Permit, R, W> = ConsEvt::Timeout(
            time,
        );
        proof {
            connections::law_cons_asks(driver@, self.info@, wanted, evt);
        }
        driver.poll_connections(&mut self.info, evt)
    }

    /// Let the endpoint take up an event of the connection, which it knows under
    /// the handle `hnd`, and the connection what the endpoint answers.
    pub fn handle_ep_event(
        &mut self,
        driver: &mut QuinnDriver<OutPacket>,
        endpoint: &mut QuinnEndpoint,
        hnd: usize,
        evt: EndpointEvent,
    ) -> (r: ConsAct<A, U, B, EndpointEvent, S::Permit, R, W>)
        requires
            old(endpoint).wf(),
            old(endpoint).handles@.contains(hnd),
            old(driver)@.wf(),
            old(self).info@.waiting() <= old(driver).buf_cap,
            connections::cons_asks::<OutPacket, A, U, B, EndpointEvent, S::Permit, R, W>(
                old(driver)@,
                old(self).info@,
                ConsAct::HandleEpEvent(evt),
            ),
        ensures
            final(endpoint).wf(),
            final(driver)@.wf(),
            final(self).info@.waiting() <= final(driver).buf_cap,
            connections::cons_asks(final(driver)@, final(self).info@, r),
            final(self).streams == old(self).streams,
            final(self).cmd_recv == old(self).cmd_recv,
            final(self).evt_send == old(self).evt_send,
            exists|answer: Option<ConnectionEvent>, a: &mut Endpoint|
                {
                    &&& *a == old(endpoint).endpoint
                    &&& *final(a) == final(endpoint).endpoint
                    &&& #[trigger] ep::made(a, EpCall::HandleEvent(hnd, evt, answer))
                    &&& match answer {
                        None => final(self).connection == old(self).connection,
                        Some(e) => exists|c: &mut Connection|
                            {
                                &&& *c == old(self).connection
                                &&& *final(c) == final(self).connection
                                &&& #[trigger] calls::made(c, ConCall::HandleEvent(e))
                            },
                    }
                },
            (final(driver)@, final(self).info@, r) == connections::cons_next(
                old(driver)@,
                old(self).info@,
                ConsEvt::<OutPacket, A, U, B, EndpointEvent, S::Permit, R, W>::Handled,
            ),
    {
        let ghost wanted = ConsAct::<A, U, B, EndpointEvent, S::Permit, R, W>::HandleEpEvent(evt);
        if let Some(e) = endpoint.handle_event(hnd, evt) {
            calls::take_event(&mut self.connection, e);
        }
        let evt: ConsEvt<OutPacket, A, U, B, EndpointEvent, S::Permit, R, W> = ConsEvt::Handled;
        proof {
            connections::law_cons_asks(driver@, self.info@, wanted, evt);
        }
        driver.poll_connections(&mut self.info, evt)
    }

    /// The connection is done with for good: it is closed, unless it is
    /// already.
    pub fn remove(&mut self, now: Instant)
        ensures
            exists|is_closed: bool|
                {
                    &&& #[trigger] calls::said_closed(old(self).connection, is_closed)
                    &&& is_closed ==> final(self).connection == old(self).connection
                    &&& !is_closed ==> exists|a: &mut Connection|
                        {
                            &&& *a == old(self).connection
                            &&& *final(a) == final(self).connection
                            &&& #[trigger] calls::made(a, ConCall::Close(now))
                        }
                },
            final(self).streams == old(self).streams,
            final(self).info == old(self).info,
            final(self).cmd_recv == old(self).cmd_recv,
            final(self).evt_send == old(self).evt_send,
    {
        let is_closed = calls::is_closed(&self.connection);
        assert(calls::said_closed(self.connection, is_closed));
        if !is_closed {
            calls::close(&mut self.connection, now);
        }
    }
}

impl<
    A: OnceSend<AqResult<core::net::SocketAddr>>,
    U: OnceSend<AqResult<W>>,
    B: OnceSend<AqResult<(W, R)>>,
    RB: ReadEnd,
    WB,
    R,
    W,
    C: Receive<ConnectionCmd<A, U, B>>,
    S: MultiSend<ConnectionEvt<R, W>>,
> Con<A, U, B, RB, WB, R, W, C, S> {
    /// The law of what is done: everyone who asked is sent the answer that was
    /// decided on; the user is sent the event, with the permit; what the
    /// connection gave is what is dealt with next, a packet in the form for the
    /// socket. Nothing but a stream that is taken up changes the streams.
    pub proof fn law_done<
        M: StreamPairs<ReadBack = RB, ReadFront = R, WriteBack = WB, WriteFront = W>,
        F: Fn() -> usize,
    >(
        self,
        pairs: M,
        now: Instant,
        max_gso: F,
        act: ConsAct<A, U, B, EndpointEvent, S::Permit, R, W>,
        call: Option<ConCall>,
        evt: ConsEvt<OutPacket, A, U, B, EndpointEvent, S::Permit, R, W>,
        after: Map<u64, StreamInfo<RB, WB>>,
        after_send: MultiSenderPoll<ConnectionEvt<R, W>, S>,
    )
        requires
            self.did(pairs, now, max_gso, act, call, evt, after, after_send),
        ensures
            act matches ConsAct::RemoteAddress(rsp) ==> call_ensures(
                A::send,
                (rsp, Ok(proto::con_remote(self.connection))),
                (),
            ),
            act matches ConsAct::RefuseUni(req, err) ==> call_ensures(U::send, (req, Err(err)), ()),
            act matches ConsAct::RefuseBi(req, err) ==> call_ensures(B::send, (req, Err(err)), ()),
            act matches ConsAct::Send(permit, e) ==> call_ensures(S::Permit::send, (permit, e), ()),
            act is HandleTimeout ==> call == Some(ConCall::HandleTimeout(now)),
            act is Close ==> call == Some(ConCall::Close(now)),
            evt matches ConsEvt::Packet(packet) ==> {
                &&& call matches Some(ConCall::PollTransmit(at, count, given))
                &&& at == now
                &&& call_ensures(max_gso, (), count)
                &&& given is None ==> packet is None
                &&& given matches Some(it) ==> packet == Some(out::as_out(it))
            },
            evt matches ConsEvt::Event(e) ==> call == Some(ConCall::PollEvent(e)),
            evt matches ConsEvt::Datagram(data) ==> call == Some(ConCall::RecvDatagram(data)),
            evt matches ConsEvt::EpEvent(e) ==> call == Some(ConCall::PollEpEvent(e)),
            evt matches ConsEvt::OpenedUni(_, id) ==> call == Some(
                ConCall::Open(StreamDir::Uni, id),
            ),
            evt matches ConsEvt::OpenedBi(_, id) ==> call == Some(ConCall::Open(StreamDir::Bi, id)),
            evt matches ConsEvt::Permit(got) ==> self.evt_send.acquires(after_send, got),
            evt matches ConsEvt::Closed(closed) ==> calls::said_closed(self.connection, closed),
            !(act is IntakeUni || act is IntakeBi || act is Accept) ==> after == self.streams@,
    {
    }

    /// The law of streams that are taken up: one that was asked for is there with
    /// its number and the halves of its kind, and its request was sent the fronts
    /// of just these; one that came in is there likewise, and its fronts are what
    /// the user will be told of. All other streams stay.
    pub proof fn law_stream_taken_up<
        M: StreamPairs<ReadBack = RB, ReadFront = R, WriteBack = WB, WriteFront = W>,
        F: Fn() -> usize,
    >(
        self,
        pairs: M,
        now: Instant,
        max_gso: F,
        act: ConsAct<A, U, B, EndpointEvent, S::Permit, R, W>,
        call: Option<ConCall>,
        evt: ConsEvt<OutPacket, A, U, B, EndpointEvent, S::Permit, R, W>,
        after: Map<u64, StreamInfo<RB, WB>>,
        after_send: MultiSenderPoll<ConnectionEvt<R, W>, S>,
    )
        requires
            self.did(pairs, now, max_gso, act, call, evt, after, after_send),
        ensures
            act matches ConsAct::IntakeUni(req, id) ==> {
                &&& after.contains_key(id)
                &&& after.remove(id) == self.streams@.remove(id)
                &&& after[id].stream_id == id
                &&& after[id].read is None
                &&& after[id].write matches Some(wb)
                &&& exists|wf: W| #[trigger]
                    call_ensures(U::send, (req, Ok(wf)), ()) && call_ensures(
                        M::write_pair,
                        (&pairs, BYTES_CAP),
                        (wb, wf),
                    )
            },
            act matches ConsAct::IntakeBi(req, id) ==> {
                &&& after.contains_key(id)
                &&& after.remove(id) == self.streams@.remove(id)
                &&& after[id].stream_id == id
                &&& after[id].read matches Some(rb)
                &&& after[id].write matches Some(wb)
                &&& exists|ends: (W, R)| #[trigger]
                    call_ensures(B::send, (req, Ok(ends)), ()) && call_ensures(
                        M::write_pair,
                        (&pairs, BYTES_CAP),
                        (wb, ends.0),
                    ) && call_ensures(M::read_pair, (&pairs, BYTES_CAP), (rb, ends.1))
            },
            call matches Some(ConCall::Accept(StreamDir::Uni, Some(id))) ==> {
                &&& evt matches ConsEvt::InUni(Some(rf))
                &&& after.contains_key(id)
                &&& after.remove(id) == self.streams@.remove(id)
                &&& after[id].stream_id == id
                &&& after[id].write is None
                &&& after[id].read matches Some(rb)
                &&& call_ensures(M::read_pair, (&pairs, BYTES_CAP), (rb, rf))
            },
            call matches Some(ConCall::Accept(StreamDir::Bi, Some(id))) ==> {
                &&& evt matches ConsEvt::InBi(Some((wf, rf)))
                &&& after.contains_key(id)
                &&& after.remove(id) == self.streams@.remove(id)
                &&& after[id].stream_id == id
                &&& after[id].read matches Some(rb)
                &&& after[id].write matches Some(wb)
                &&& call_ensures(M::write_pair, (&pairs, BYTES_CAP), (wb, wf))
                &&& call_ensures(M::read_pair, (&pairs, BYTES_CAP), (rb, rf))
            },
            call matches Some(ConCall::Accept(dir, None)) ==> {
                &&& after == self.streams@
                &&& evt matches ConsEvt::InUni(got) ==> got is None
                &&& evt matches ConsEvt::InBi(got) ==> got is None
            },
            evt is InUni ==> (call matches Some(ConCall::Accept(StreamDir::Uni, _))),
            evt is InBi ==> (call matches Some(ConCall::Accept(StreamDir::Bi, _))),
    {
        let was = self.streams@;
        let id = match (act, call) {
            (ConsAct::IntakeUni(_, id), _) => id,
            (ConsAct::IntakeBi(_, id), _) => id,
            (_, Some(ConCall::Accept(_, Some(id)))) => id,
            _ => 0,
        };
        streams::law_took(pairs, was, after, id);
        assert(was.dom().insert(id).contains(id));
        match act {
            ConsAct::IntakeUni(req, id) => {
                let wf = choose|wf: W| #[trigger]
                    call_ensures(U::send, (req, Ok(wf)), ()) && streams::took_uni_out(
                        pairs,
                        was,
                        after,
                        id,
                        wf,
                    );
                assert(streams::took_uni_out(pairs, was, after, id, wf));
                assert(call_ensures(U::send, (req, Ok(wf)), ()));
            },
            ConsAct::IntakeBi(req, id) => {
                let ends = choose|ends: (W, R)| #[trigger]
                    call_ensures(B::send, (req, Ok(ends)), ()) && streams::took_bi(
                        pairs,
                        was,
                        after,
                        id,
                        ends,
                    );
                assert(streams::took_bi(pairs, was, after, id, ends));
                assert(call_ensures(B::send, (req, Ok(ends)), ()));
            },
            _ => {
                if let ConsEvt::InUni(Some(rf)) = evt {
                    assert(call is Some && call->0->Accept_1 is Some ==> streams::took_uni_in(
                        pairs,
                        was,
                        after,
                        id,
                        rf,
                    ));
                }
                if let ConsEvt::InBi(Some(fronts)) = evt {
                    assert(call is Some && call->0->Accept_1 is Some ==> streams::took_bi(
                        pairs,
                        was,
                        after,
                        id,
                        fronts,
                    ));
                }
            },
        }
    }
}

} // verus!
