//! The calls that the driver of an endpoint makes of the connection at hand,
//! and of the endpoint.
use super::ConnectionEvt;
use super::DriverAct;
use super::DriverDo;
use super::DriverEvt;
use super::DriverInner;
use crate::driver;
use crate::quinn::calls;
use crate::quinn::calls::ConCall;
use crate::quinn::calls::Step;
use crate::quinn::ep;
use crate::quinn::ep::EpCall;
use crate::quinn::ep::InPacket;
use crate::quinn::ep::QuinnEndpoint;
use crate::quinn::proto::ConEvent;
use crate::quinn::udp_in::PacketMeans;
use quinn_proto::Connection;
use quinn_proto::ConnectionEvent;
use quinn_proto::Endpoint;
use quinn_proto::EndpointEvent;
use quinn_proto::Transmit;
use std::time::Instant;
use vstd::prelude::*;

verus! {

/// Whether an action is done by a call of the connection at hand.
pub open spec fn is_con_call<K, Q>(
    act: DriverAct<K, Connection, EndpointEvent, ConnectionEvent, Q>,
) -> bool {
    ||| act is HandleTimeout
    ||| act is PollTransmit
    ||| act is PollTimeout
    ||| act is PollEpEvt
    ||| act is HandleConEvt
    ||| act is PollEvent
    ||| act is DropDatagram
}

/// Whether an action is done by `call`, where it takes one, and `evt` is what
/// came of it: a packet is of no more datagrams than `max_gso` allows.
pub open spec fn did<K, F: Fn() -> usize>(
    now: Instant,
    max_gso: F,
    act: DriverAct<K, Connection, EndpointEvent, ConnectionEvent, Seq<ConnectionEvt>>,
    call: ConCall,
    evt: DriverEvt<Transmit, Connection, EndpointEvent, ConnectionEvent>,
) -> bool {
    &&& driver::driver_answers(act, evt)
    &&& match act {
        DriverAct::HandleTimeout => call == ConCall::HandleTimeout(now),
        DriverAct::PollTransmit => {
            &&& call matches ConCall::PollTransmit(t, n, packet)
            &&& t == now
            &&& call_ensures(max_gso, (), n)
            &&& packet == evt->Packet_0
        },
        DriverAct::PollTimeout => call == ConCall::PollTimeout(evt->Timeout_0),
        DriverAct::PollEpEvt => call == ConCall::PollEpEvent(evt->EpEvt_0),
        DriverAct::HandleConEvt(e) => call == ConCall::HandleEvent(e),
        DriverAct::PollEvent => call == ConCall::PollEvent(evt->Event_0),
        DriverAct::DropDatagram => call matches ConCall::RecvDatagram(got) && evt->Datagram_0 == (
        got is Some),
        _ => false,
    }
}

impl<K> DriverInner<K, Transmit> {
    /// Do what is next by a call of the connection at hand, unless it is for
    /// the caller to do. An event of a stream, or of a datagram, cannot be
    /// dealt with.
    pub fn perform<F: Fn() -> usize>(
        &mut self,
        con: &mut Connection,
        now: Instant,
        max_gso: &F,
        act: DriverDo<K, Connection, EndpointEvent, ConnectionEvent>,
    ) -> (r: Step<DriverDo<K, Connection, EndpointEvent, ConnectionEvent>>)
        requires
            old(self)@.wf(),
            driver::driver_asks(old(self)@, act@),
            call_requires(*max_gso, ()),
            forall|n: usize| call_ensures(*max_gso, (), n) ==> n > 0,
        ensures
            final(self)@.wf(),
            !is_con_call(act) <==> r is Outside,
            match r {
                Step::Outside(a) => a == act && *final(self) == *old(self) && *final(con) == *old(
                    con,
                ),
                Step::Unhandled(evt) => {
                    &&& act is PollEvent
                    &&& evt is Stream || evt is DatagramReceived
                    &&& exists|a: &mut Connection|
                        {
                            &&& *a == *old(con)
                            &&& *final(a) == *final(con)
                            &&& #[trigger] calls::made(a, ConCall::PollEvent(Some(evt)))
                        }
                    &&& final(self)@ == old(self)@
                },
                Step::Next(then) => {
                    &&& driver::driver_asks(final(self)@, then@)
                    &&& exists|evt: DriverEvt<
                        Transmit,
                        Connection,
                        EndpointEvent,
                        ConnectionEvent,
                    >, a: &mut Connection, call: ConCall|
                        {
                            &&& #[trigger] did(now, *max_gso, act@, call, evt)
                            &&& *a == *old(con)
                            &&& *final(a) == *final(con)
                            &&& #[trigger] calls::made(a, call)
                            &&& (final(self)@, then@) == old(self)@.next(evt)
                        }
                },
            },
    {
        let ghost wanted = act@;
        let evt: DriverEvt<Transmit, Connection, EndpointEvent, ConnectionEvent>;
        let ghost call: ConCall;
        match act {
            DriverAct::HandleTimeout => {
                calls::handle_timeout(con, now);
                proof {
                    call = ConCall::HandleTimeout(now);
                }
                evt = DriverEvt::Handled;
            },
            DriverAct::PollTransmit => {
                let n: usize = max_gso();
                let packet = calls::poll_transmit(con, now, n);
                proof {
                    call = ConCall::PollTransmit(now, n, packet);
                }
                evt = DriverEvt::Packet(packet);
            },
            DriverAct::PollTimeout => {
                let timeout = calls::poll_timeout(con);
                proof {
                    call = ConCall::PollTimeout(timeout);
                }
                evt = DriverEvt::Timeout(timeout);
            },
            DriverAct::PollEpEvt => {
                let e = calls::poll_ep_event(con);
                proof {
                    call = ConCall::PollEpEvent(e);
                }
                evt = DriverEvt::EpEvt(e);
            },
            DriverAct::HandleConEvt(e) => {
                calls::take_event(con, e);
                proof {
                    call = ConCall::HandleEvent(e);
                }
                evt = DriverEvt::Handled;
            },
            DriverAct::PollEvent => {
                match calls::poll_event(con) {
                    Some(ConEvent::Stream(e)) => {
                        return Step::Unhandled(ConEvent::Stream(e));
                    },
                    Some(ConEvent::DatagramReceived) => {
                        return Step::Unhandled(ConEvent::DatagramReceived);
                    },
                    e => {
                        proof {
                            call = ConCall::PollEvent(e);
                        }
                        evt = DriverEvt::Event(e);
                    },
                }
            },
            DriverAct::DropDatagram => {
                let got = calls::recv_datagram(con);
                proof {
                    call = ConCall::RecvDatagram(got);
                }
                evt = DriverEvt::Datagram(got.is_some());
            },
            act => {
                return Step::Outside(act);
            },
        }
        assert(did(now, *max_gso, wanted, call, evt));
        proof {
            driver::law_driver_asks(self@, wanted, evt);
            driver::law_driver(self@, evt);
        }
        Step::Next(self.poll(evt))
    }
}

impl<K> DriverInner<K, Transmit> {
    /// Ask the endpoint for a packet.
    pub fn ep_transmit(&mut self, endpoint: &mut QuinnEndpoint) -> (r: DriverDo<
        K,
        Connection,
        EndpointEvent,
        ConnectionEvent,
    >)
        requires
            old(endpoint).wf(),
            old(self)@.wf(),
            driver::driver_asks(
                old(self)@,
                DriverAct::<K, Connection, EndpointEvent, ConnectionEvent, Seq<ConnectionEvt>>::EpPollTransmit,
            ),
        ensures
            final(endpoint).wf(),
            final(endpoint).handles@ == old(endpoint).handles@,
            final(self)@.wf(),
            driver::driver_asks(final(self)@, r@),
            exists|packet: Option<Transmit>, a: &mut Endpoint|
                {
                    &&& *a == old(endpoint).endpoint
                    &&& *final(a) == final(endpoint).endpoint
                    &&& #[trigger] ep::made(a, EpCall::PollTransmit(packet))
                    &&& (final(self)@, r@) == old(self)@.next(
                        DriverEvt::<
                            Transmit,
                            Connection,
                            EndpointEvent,
                            ConnectionEvent,
                        >::Packet(packet),
                    )
                },
    {
        let packet = endpoint.poll_transmit();
        let evt: DriverEvt<Transmit, Connection, EndpointEvent, ConnectionEvent> =
            DriverEvt::Packet(packet);
        proof {
            driver::law_driver_asks(
                self@,
                DriverAct::<K, Connection, EndpointEvent, ConnectionEvent, Seq<ConnectionEvt>>::EpPollTransmit,
                evt,
            );
            driver::law_driver(self@, evt);
        }
        self.poll(evt)
    }

    /// Pass an event on to the connection that a packet was for.
    pub fn pass_on(&mut self, con: &mut Connection, hnd: usize, evt: ConnectionEvent) -> (r: DriverDo<
        K,
        Connection,
        EndpointEvent,
        ConnectionEvent,
    >)
        requires
            old(self)@.wf(),
            driver::driver_asks(
                old(self)@,
                DriverAct::<K, Connection, EndpointEvent, ConnectionEvent, Seq<ConnectionEvt>>::PassOn(
                    hnd,
                    evt,
                ),
            ),
        ensures
            final(self)@.wf(),
            driver::driver_asks(final(self)@, r@),
            exists|a: &mut Connection|
                {
                    &&& *a == *old(con)
                    &&& *final(a) == *final(con)
                    &&& #[trigger] calls::made(a, ConCall::HandleEvent(evt))
                },
            (final(self)@, r@) == old(self)@.next(
                DriverEvt::<Transmit, Connection, EndpointEvent, ConnectionEvent>::Handled,
            ),
    {
        let ghost wanted = DriverAct::<
            K,
            Connection,
            EndpointEvent,
            ConnectionEvent,
            Seq<ConnectionEvt>,
        >::PassOn(hnd, evt);
        calls::take_event(con, evt);
        let evt: DriverEvt<Transmit, Connection, EndpointEvent, ConnectionEvent> =
            DriverEvt::Handled;
        proof {
            driver::law_driver_asks(self@, wanted, evt);
            driver::law_driver(self@, evt);
        }
        self.poll(evt)
    }

    /// Let the endpoint take up an event of the connection at hand, which it
    /// knows.
    pub fn ep_handle_event(
        &mut self,
        endpoint: &mut QuinnEndpoint,
        hnd: usize,
        evt: EndpointEvent,
    ) -> (r: DriverDo<K, Connection, EndpointEvent, ConnectionEvent>)
        requires
            old(endpoint).wf(),
            old(endpoint).handles@.contains(hnd),
            old(self)@.wf(),
            driver::driver_asks(
                old(self)@,
                DriverAct::<K, Connection, EndpointEvent, ConnectionEvent, Seq<ConnectionEvt>>::HandleEpEvt(evt),
            ),
        ensures
            final(endpoint).wf(),
            final(self)@.wf(),
            driver::driver_asks(final(self)@, r@),
            exists|answer: Option<ConnectionEvent>, a: &mut Endpoint|
                {
                    &&& *a == old(endpoint).endpoint
                    &&& *final(a) == final(endpoint).endpoint
                    &&& #[trigger] ep::made(a, EpCall::HandleEvent(hnd, evt, answer))
                    &&& (final(self)@, r@) == old(self)@.next(
                        DriverEvt::<
                            Transmit,
                            Connection,
                            EndpointEvent,
                            ConnectionEvent,
                        >::EpAnswer(answer),
                    )
                },
    {
        let ghost wanted = DriverAct::<
            K,
            Connection,
            EndpointEvent,
            ConnectionEvent,
            Seq<ConnectionEvt>,
        >::HandleEpEvt(evt);
        let answer = endpoint.handle_event(hnd, evt);
        let evt: DriverEvt<Transmit, Connection, EndpointEvent, ConnectionEvent> =
            DriverEvt::EpAnswer(answer);
        proof {
            driver::law_driver_asks(self@, wanted, evt);
            driver::law_driver(self@, evt);
        }
        self.poll(evt)
    }
}

impl DriverInner<InPacket, Transmit> {
    /// Let the endpoint handle a packet.
    pub fn handle_packet(
        &mut self,
        endpoint: &mut QuinnEndpoint,
        now: Instant,
        packet: InPacket,
    ) -> (r: DriverDo<InPacket, Connection, EndpointEvent, ConnectionEvent>)
        requires
            old(endpoint).wf(),
            old(self)@.wf(),
            driver::driver_asks(
                old(self)@,
                DriverAct::<InPacket, Connection, EndpointEvent, ConnectionEvent, Seq<ConnectionEvt>>::HandlePacket(packet),
            ),
        ensures
            final(endpoint).wf(),
            final(self)@.wf(),
            driver::driver_asks(final(self)@, r@),
            exists|means: Option<PacketMeans<Connection, ConnectionEvent>>, a: &mut Endpoint|
                {
                    &&& *a == old(endpoint).endpoint
                    &&& *final(a) == final(endpoint).endpoint
                    &&& #[trigger] ep::made(a, EpCall::Handle(now, packet, means))
                    &&& (final(self)@, r@) == old(self)@.next(
                        DriverEvt::<
                            Transmit,
                            Connection,
                            EndpointEvent,
                            ConnectionEvent,
                        >::Means(means),
                    )
                },
    {
        let ghost wanted = DriverAct::<
            InPacket,
            Connection,
            EndpointEvent,
            ConnectionEvent,
            Seq<ConnectionEvt>,
        >::HandlePacket(packet);
        let means = endpoint.handle(now, packet);
        let evt: DriverEvt<Transmit, Connection, EndpointEvent, ConnectionEvent> =
            DriverEvt::Means(means);
        proof {
            driver::law_driver_asks(self@, wanted, evt);
            driver::law_driver(self@, evt);
        }
        self.poll(evt)
    }
}

/// The law of calls: each action is done by the call that it names, with what it
/// carries and the time, and what the connection gave is what is dealt with
/// next.
pub proof fn law_con_calls<K, F: Fn() -> usize>(
    now: Instant,
    max_gso: F,
    act: DriverAct<K, Connection, EndpointEvent, ConnectionEvent, Seq<ConnectionEvt>>,
    call: ConCall,
    evt: DriverEvt<Transmit, Connection, EndpointEvent, ConnectionEvent>,
)
    requires
        did(now, max_gso, act, call, evt),
    ensures
        act is HandleTimeout ==> call == ConCall::HandleTimeout(now) && evt is Handled,
        act matches DriverAct::HandleConEvt(e) ==> call == ConCall::HandleEvent(e) && evt
            is Handled,
        evt matches DriverEvt::Packet(packet) ==> {
            &&& act is PollTransmit
            &&& call matches ConCall::PollTransmit(at, count, given)
            &&& at == now
            &&& call_ensures(max_gso, (), count)
            &&& given == packet
        },
        evt matches DriverEvt::Timeout(at) ==> act is PollTimeout && call == ConCall::PollTimeout(
            at,
        ),
        evt matches DriverEvt::EpEvt(e) ==> act is PollEpEvt && call == ConCall::PollEpEvent(e),
        evt matches DriverEvt::Event(e) ==> act is PollEvent && call == ConCall::PollEvent(e),
        evt matches DriverEvt::Datagram(some) ==> {
            &&& act is DropDatagram
            &&& call matches ConCall::RecvDatagram(got)
            &&& some <==> got is Some
        },
{
}

} // verus!
