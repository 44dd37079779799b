//! Taking packets from the socket, a whole turn at a time.
use super::ep;
use super::ep::EpCall;
use super::ep::QuinnEndpoint;
use super::udp_in;
use super::udp_in::PacketMeans;
use super::udp_in::UdpInAct;
use super::udp_in::UdpInDriver;
use super::udp_in::UdpInEvt;
use super::udp_in::UdpInPhase;
use super::udp_in::UdpInState;
use super::Wish;
use crate::backend::UdpBackendEvt;
use crate::endpoint::EndpointEvt;
use crate::runtime::ChanResult;
use crate::runtime::MultiSend;
use crate::runtime::MultiSender;
use crate::runtime::MultiSenderPoll;
use crate::runtime::OnceSend;
use crate::util::Receive;
use bytes::BytesMut;
use quinn_proto::Connection;
use quinn_proto::ConnectionEvent;
use quinn_proto::Endpoint;
use std::collections::HashMap;
use std::task::Context;
use std::task::Poll;
use std::time::Instant;
use vstd::prelude::*;

verus! {

broadcast use vstd::std_specs::hash::group_hash_axioms;

/// What the socket tells: a packet came.
pub type PacketEvt = UdpBackendEvt<core::net::SocketAddr, core::net::IpAddr, BytesMut>;

/// The connections of an endpoint by their handles: where their events go.
pub type Connections<SC> = HashMap<usize, MultiSenderPoll<ConnectionEvent, SC>>;

/// The connections of an endpoint as mathematics.
pub type ConSenders<SC> = Map<usize, MultiSenderPoll<ConnectionEvent, SC>>;

/// What to do next in a turn at taking packets.
pub type PacketAct<PE, PC> = UdpInAct<Connection, ConnectionEvent, PE, PC, PacketEvt>;

/// Runs the driver of a new connection. `X` is the user's handle, `V` receives
/// what the user is told, `SC` takes events for the connection.
pub trait ConSpawn<X, V, SC: MultiSend<ConnectionEvent>> {
    /// Run the driver of the connection with this handle.
    fn spawn(&self, hnd: usize, con: Connection) -> (X, MultiSender<ConnectionEvent, SC>, V);
}

/// Whether a connection was asked for a permit to pass an event on to it, and
/// answered `r`; none where there is no such connection.
pub open spec fn asked_con<SC: MultiSend<ConnectionEvent>>(
    before: ConSenders<SC>,
    hnd: usize,
    after: ConSenders<SC>,
    r: Option<Poll<ChanResult<SC::Permit>>>,
) -> bool {
    match r {
        None => !before.dom().contains(hnd) && after == before,
        Some(got) => {
            &&& before.dom().contains(hnd)
            &&& after == before.insert(hnd, after[hnd])
            &&& before[hnd].acquires(after[hnd], got)
        },
    }
}

/// Ask a connection for a permit to pass an event on to it, where there is one.
pub fn acquire_con<SC: MultiSend<ConnectionEvent>>(
    cons: &mut Connections<SC>,
    cx: &mut Context<'_>,
    hnd: usize,
) -> (r: Option<Poll<ChanResult<SC::Permit>>>)
    ensures
        asked_con(old(cons)@, hnd, final(cons)@, r),
{
    match cons.remove(&hnd) {
        None => {
            assert(cons@ =~= old(cons)@);
            None
        },
        Some(mut send) => {
            let got = send.poll_acquire(cx);
            cons.insert(hnd, send);
            assert(cons@ =~= old(cons)@.insert(hnd, cons@[hnd]));
            Some(got)
        },
    }
}

/// Whether a new connection was taken up: its driver runs, and `front` is what
/// the user has of it.
pub open spec fn took_con<X, V, SC: MultiSend<ConnectionEvent>, M: ConSpawn<X, V, SC>>(
    spawn: M,
    before: ConSenders<SC>,
    after: ConSenders<SC>,
    hnd: usize,
    con: Connection,
    front: (X, V),
) -> bool {
    &&& after.dom().contains(hnd)
    &&& after[hnd].fut is None
    &&& after == before.insert(hnd, after[hnd])
    &&& call_ensures(M::spawn, (&spawn, hnd, con), (front.0, after[hnd].send, front.1))
}

/// Take up a new connection, and run its driver.
pub fn register_con<X, V, SC: MultiSend<ConnectionEvent>, M: ConSpawn<X, V, SC>>(
    spawn: &M,
    cons: &mut Connections<SC>,
    hnd: usize,
    con: Connection,
) -> (r: (X, V))
    ensures
        took_con(*spawn, old(cons)@, final(cons)@, hnd, con, r),
{
    let (front, send, events) = spawn.spawn(hnd, con);
    cons.insert(hnd, MultiSenderPoll::new(send));
    (front, events)
}

/// A step of a turn: what came of its last action, which call of the endpoint
/// was made for it, and what it left behind.
#[verifier::reject_recursive_types(X)]
#[verifier::reject_recursive_types(V)]
#[verifier::reject_recursive_types(SE)]
#[verifier::reject_recursive_types(SC)]
pub struct PacketStep<
    X,
    V,
    SE: MultiSend<EndpointEvt<X, V>>,
    R: Receive<PacketEvt>,
    SC: MultiSend<ConnectionEvent>,
> {
    /// what came of it
    pub evt: UdpInEvt<Connection, ConnectionEvent, SE::Permit, SC::Permit, PacketEvt>,
    /// the call of the endpoint
    pub call: Option<EpCall>,
    /// the way to the user after it
    pub send: MultiSenderPoll<EndpointEvt<X, V>, SE>,
    /// where packets come from after it
    pub recv: R,
    /// the connections after it
    pub cons: ConSenders<SC>,
    /// the endpoint after it
    pub endpoint: Endpoint,
}

/// Takes packets from the socket for an endpoint.
#[verifier::reject_recursive_types(X)]
#[verifier::reject_recursive_types(V)]
#[verifier::reject_recursive_types(SE)]
pub struct PacketDriver<X, V, SE: MultiSend<EndpointEvt<X, V>>, R: Receive<PacketEvt>> {
    /// the way to the user
    pub evt_send: MultiSenderPoll<EndpointEvt<X, V>, SE>,
    /// where packets come from
    pub udp_packet_recv: R,
    /// what is kept from turn to turn
    pub udp_in: UdpInDriver<Connection, ConnectionEvent>,
}

impl<X, V, SE: MultiSend<EndpointEvt<X, V>>, R: Receive<PacketEvt>> PacketDriver<X, V, SE, R> {
    /// The driver of a new endpoint.
    pub fn new(evt_send: MultiSender<EndpointEvt<X, V>, SE>, udp_packet_recv: R) -> (r: Self)
        ensures
            r.evt_send.send == evt_send,
            r.evt_send.fut is None,
            r.udp_packet_recv == udp_packet_recv,
            r.udp_in@.wf(),
            r.udp_in@.total() == 0,
            !r.udp_in.evt_send_closed,
            !r.udp_in.udp_packet_recv_closed,
    {
        PacketDriver {
            evt_send: MultiSenderPoll::new(evt_send),
            udp_packet_recv,
            udp_in: UdpInDriver::new(),
        }
    }

    /// Whether a new connection was taken up, and the user was told of it.
    pub open spec fn told<SC: MultiSend<ConnectionEvent>, M: ConSpawn<X, V, SC>>(
        spawn: M,
        before: ConSenders<SC>,
        after: ConSenders<SC>,
        hnd: usize,
        con: Connection,
        permit: SE::Permit,
    ) -> bool {
        exists|front: (X, V)|
            {
                &&& #[trigger] took_con(spawn, before, after, hnd, con, front)
                &&& call_ensures(
                    SE::Permit::send,
                    (permit, EndpointEvt::InConnection(front.0, front.1)),
                    (),
                )
            }
    }

    /// Whether an action was done after the step `prev`, and `step` is what came
    /// of it. Where the endpoint was not called it is what it was, and so is
    /// whatever else the action does not speak of.
    pub open spec fn did<SC: MultiSend<ConnectionEvent>, M: ConSpawn<X, V, SC>>(
        spawn: M,
        time: Instant,
        prev: PacketStep<X, V, SE, R, SC>,
        act: PacketAct<SE::Permit, SC::Permit>,
        step: PacketStep<X, V, SE, R, SC>,
    ) -> bool {
        &&& udp_in::udp_in_answers(act, step.evt)
        &&& !(act is AcquireNewCon || act is AcquireCon) ==> step.send == prev.send
        &&& !(act is Recv) ==> step.recv == prev.recv
        &&& !(act is AcquireConEvt || act is AcquireEvt || act is Register || act is RemoveCon)
            ==> step.cons == prev.cons
        &&& step.call is None ==> step.endpoint == prev.endpoint
        &&& step.call == (match act {
            UdpInAct::Handle(UdpBackendEvt::InUdpPacket(packet)) => Some(
                EpCall::Handle(time, packet, step.evt->Handled_0),
            ),
            _ => None,
        })
        &&& match act {
            UdpInAct::AcquireNewCon => prev.send.acquires(step.send, step.evt->NewConPermit_0),
            UdpInAct::AcquireCon(..) => prev.send.acquires(step.send, step.evt->ConPermit_2),
            UdpInAct::AcquireConEvt(hnd) => asked_con(
                prev.cons,
                hnd,
                step.cons,
                step.evt->ConEvtPermit_0,
            ),
            UdpInAct::AcquireEvt(hnd, _) => asked_con(
                prev.cons,
                hnd,
                step.cons,
                step.evt->EvtPermit_2,
            ),
            UdpInAct::SendEvt(permit, _, e) => call_ensures(SC::Permit::send, (permit, e), ()),
            UdpInAct::Register(permit, hnd, con) => Self::told(
                spawn,
                prev.cons,
                step.cons,
                hnd,
                con,
                permit,
            ),
            UdpInAct::RemoveCon(hnd) => step.cons == prev.cons.remove(hnd),
            UdpInAct::Done(_) => false,
            _ => true,
        }
    }

    /// The step that a turn begins with.
    pub open spec fn first<SC: MultiSend<ConnectionEvent>>(
        self,
        cons: ConSenders<SC>,
        endpoint: Endpoint,
    ) -> PacketStep<X, V, SE, R, SC> {
        PacketStep {
            evt: UdpInEvt::Next,
            call: None,
            send: self.evt_send,
            recv: self.udp_packet_recv,
            cons,
            endpoint,
        }
    }

    /// The turn after these steps, and what it does then.
    pub open spec fn run<SC: MultiSend<ConnectionEvent>>(
        turn: UdpInState<Connection, ConnectionEvent>,
        steps: Seq<PacketStep<X, V, SE, R, SC>>,
    ) -> (UdpInState<Connection, ConnectionEvent>, PacketAct<SE::Permit, SC::Permit>)
        decreases steps.len(),
    {
        if steps.len() == 0 {
            (turn, UdpInAct::Skip)
        } else {
            Self::run(turn, steps.drop_last()).0.next(steps.last().evt)
        }
    }

    /// Whether the steps begin a turn, and each is what came of what the turn
    /// did last.
    pub open spec fn trace<SC: MultiSend<ConnectionEvent>, M: ConSpawn<X, V, SC>>(
        turn: UdpInState<Connection, ConnectionEvent>,
        spawn: M,
        time: Instant,
        first: PacketStep<X, V, SE, R, SC>,
        steps: Seq<PacketStep<X, V, SE, R, SC>>,
    ) -> bool
        decreases steps.len(),
    {
        &&& steps.len() > 0
        &&& steps.len() == 1 ==> steps[0] == first
        &&& steps.len() > 1 ==> {
            let before = steps.drop_last();
            &&& Self::trace(turn, spawn, time, first, before)
            &&& Self::did(spawn, time, before.last(), Self::run(turn, before).1, steps.last())
        }
    }

    /// Whether a turn with these steps was made: it ends with this wish, and
    /// leaves the turn like this.
    pub open spec fn made<SC: MultiSend<ConnectionEvent>, M: ConSpawn<X, V, SC>>(
        turn: UdpInState<Connection, ConnectionEvent>,
        spawn: M,
        time: Instant,
        first: PacketStep<X, V, SE, R, SC>,
        steps: Seq<PacketStep<X, V, SE, R, SC>>,
        end: UdpInState<Connection, ConnectionEvent>,
        wish: Wish,
    ) -> bool {
        &&& Self::trace(turn, spawn, time, first, steps)
        &&& Self::run(turn, steps) == (
            end,
            PacketAct::<SE::Permit, SC::Permit>::Done(wish),
        )
    }

    proof fn lemma_push<SC: MultiSend<ConnectionEvent>, M: ConSpawn<X, V, SC>>(
        turn: UdpInState<Connection, ConnectionEvent>,
        spawn: M,
        time: Instant,
        first: PacketStep<X, V, SE, R, SC>,
        steps: Seq<PacketStep<X, V, SE, R, SC>>,
        step: PacketStep<X, V, SE, R, SC>,
    )
        requires
            steps.len() == 0 ==> step == first,
            steps.len() > 0 ==> Self::trace(turn, spawn, time, first, steps) && Self::did(
                spawn,
                time,
                steps.last(),
                Self::run(turn, steps).1,
                step,
            ),
        ensures
            Self::trace(turn, spawn, time, first, steps.push(step)),
            Self::run(turn, steps.push(step)) == Self::run(turn, steps).0.next(step.evt),
    {
        assert(steps.push(step).drop_last() =~= steps);
    }

    /// Take packets for one turn, as `UdpInDriver` says.
    pub fn poll<SC: MultiSend<ConnectionEvent>, M: ConSpawn<X, V, SC>>(
        &mut self,
        cx: &mut Context<'_>,
        spawn: &M,
        endpoint: &mut QuinnEndpoint,
        cons: &mut Connections<SC>,
    ) -> (r: Wish)
        requires
            old(self).udp_in@.wf(),
            old(endpoint).wf(),
        ensures
            final(self).udp_in@.wf(),
            final(endpoint).wf(),
            exists|time: Instant, steps: Seq<PacketStep<X, V, SE, R, SC>>|
                {
                    &&& #[trigger] Self::made(
                        old(self).udp_in@.restarted(),
                        *spawn,
                        time,
                        old(self).first(old(cons)@, old(endpoint).endpoint),
                        steps,
                        final(self).udp_in@,
                        r,
                    )
                    &&& steps.last().send == final(self).evt_send
                    &&& steps.last().recv == final(self).udp_packet_recv
                    &&& steps.last().cons == final(cons)@
                    &&& steps.last().endpoint == final(endpoint).endpoint
                    &&& ep::clock(time)
                    &&& forall|i: int|
                        0 < i < steps.len() ==> ((#[trigger] steps[i].call) matches Some(call)
                            ==> exists|a: &mut Endpoint|
                            {
                                &&& *a == steps[i - 1].endpoint
                                &&& *final(a) == steps[i].endpoint
                                &&& #[trigger] ep::made(a, call)
                            })
                    &&& forall|i: int|
                        0 < i < steps.len() ==> ((#[trigger] steps[i].evt) matches UdpInEvt::Packet(
                            got,
                        ) ==> exists|a: &mut R, ctx: &mut Context<'_>|
                            {
                                &&& *a == steps[i - 1].recv
                                &&& *final(a) == steps[i].recv
                                &&& #[trigger] call_ensures(R::poll_next, (a, ctx), got)
                            })
                },
            final(self).evt_send.send == old(self).evt_send.send,
            r.want_close == (final(self).udp_in.evt_send_closed
                && final(self).udp_in.udp_packet_recv_closed),
            old(self).udp_in.evt_send_closed ==> final(self).udp_in.evt_send_closed,
            old(self).udp_in.udp_packet_recv_closed ==> {
                &&& final(self).udp_in.udp_packet_recv_closed
                &&& final(self).udp_packet_recv == old(self).udp_packet_recv
                &&& final(endpoint).endpoint == old(endpoint).endpoint
                &&& !r.more_work
            },
    {
        let time = ep::clock_now();
        self.udp_in.restart();
        let ghost turn = self.udp_in@;
        let ghost first = self.first(cons@, endpoint.endpoint);
        let ghost mut trace = Seq::<PacketStep<X, V, SE, R, SC>>::empty();
        proof {
            Self::lemma_push(turn, *spawn, time, first, trace, first);
            trace = trace.push(first);
            assert(udp_in::udp_in_ok(turn, PacketAct::<SE::Permit, SC::Permit>::Skip));
            udp_in::law_udp_in_turn(
                turn,
                PacketAct::<SE::Permit, SC::Permit>::Skip,
                first.evt,
            );
        }
        let mut act: PacketAct<SE::Permit, SC::Permit> = self.udp_in.poll(UdpInEvt::Next);
        loop
            invariant
                turn == old(self).udp_in@.restarted(),
                first == old(self).first(old(cons)@, old(endpoint).endpoint),
                ep::clock(time),
                endpoint.wf(),
                trace.len() > 0,
                Self::trace(turn, *spawn, time, first, trace),
                Self::run(turn, trace) == (self.udp_in@, act),
                trace.last().send == self.evt_send,
                trace.last().recv == self.udp_packet_recv,
                trace.last().cons == cons@,
                trace.last().endpoint == endpoint.endpoint,
                forall|i: int|
                    0 < i < trace.len() ==> ((#[trigger] trace[i].call) matches Some(call)
                        ==> exists|a: &mut Endpoint|
                        {
                            &&& *a == trace[i - 1].endpoint
                            &&& *final(a) == trace[i].endpoint
                            &&& #[trigger] ep::made(a, call)
                        }),
                forall|i: int|
                    0 < i < trace.len() ==> ((#[trigger] trace[i].evt) matches UdpInEvt::Packet(
                        got,
                    ) ==> exists|a: &mut R, ctx: &mut Context<'_>|
                        {
                            &&& *a == trace[i - 1].recv
                            &&& *final(a) == trace[i].recv
                            &&& #[trigger] call_ensures(R::poll_next, (a, ctx), got)
                        }),
                self.udp_in@.wf(),
                udp_in::udp_in_ok(self.udp_in@, act),
                self.evt_send.send == old(self).evt_send.send,
                old(self).udp_in.evt_send_closed ==> self.udp_in.evt_send_closed,
                old(self).udp_in.udp_packet_recv_closed ==> {
                    &&& self.udp_in.udp_packet_recv_closed
                    &&& self.udp_packet_recv == old(self).udp_packet_recv
                    &&& endpoint.endpoint == old(endpoint).endpoint
                    &&& !self.udp_in.more_work
                    &&& !(self.udp_in.phase is Packets)
                },
            decreases
                    udp_in::udp_in_phases(self.udp_in@),
                    udp_in::udp_in_todo(self.udp_in@),
                    udp_in::udp_in_distance(act),
        {
            let ghost before = self.udp_in@;
            let ghost asked = act;
            let evt: UdpInEvt<Connection, ConnectionEvent, SE::Permit, SC::Permit, PacketEvt>;
            let ghost mut call: Option<EpCall> = None;
            match act {
                UdpInAct::Done(wish) => {
                    assert(Self::made(turn, *spawn, time, first, trace, self.udp_in@, wish));
                    return wish;
                },
                UdpInAct::AcquireNewCon => {
                    evt = UdpInEvt::NewConPermit(self.evt_send.poll_acquire(cx));
                },
                UdpInAct::AcquireConEvt(hnd) => {
                    evt = UdpInEvt::ConEvtPermit(acquire_con(cons, cx, hnd));
                },
                UdpInAct::Recv => {
                    evt = UdpInEvt::Packet(self.udp_packet_recv.poll_next(cx));
                },
                UdpInAct::Handle(UdpBackendEvt::InUdpPacket(packet)) => {
                    let means = endpoint.handle(time, packet);
                    proof {
                        call = Some(EpCall::Handle(time, packet, means));
                    }
                    evt = UdpInEvt::Handled(means);
                },
                UdpInAct::AcquireEvt(hnd, e) => {
                    evt = UdpInEvt::EvtPermit(hnd, e, acquire_con(cons, cx, hnd));
                },
                UdpInAct::AcquireCon(hnd, con) => {
                    evt = UdpInEvt::ConPermit(hnd, con, self.evt_send.poll_acquire(cx));
                },
                UdpInAct::SendEvt(permit, _, e) => {
                    permit.send(e);
                    evt = UdpInEvt::Next;
                },
                UdpInAct::Register(permit, hnd, con) => {
                    let (front, events) = register_con(spawn, cons, hnd, con);
                    permit.send(EndpointEvt::InConnection(front, events));
                    assert(Self::told(*spawn, trace.last().cons, cons@, hnd, con, permit));
                    evt = UdpInEvt::Next;
                },
                UdpInAct::RemoveCon(hnd) => {
                    cons.remove(&hnd);
                    evt = UdpInEvt::Next;
                },
                UdpInAct::Skip => {
                    evt = UdpInEvt::Next;
                },
            }
            proof {
                udp_in::law_udp_in_turn(before, asked, evt);
                udp_in::law_udp_in(before, evt);
                let step = PacketStep {
                    evt,
                    call,
                    send: self.evt_send,
                    recv: self.udp_packet_recv,
                    cons: cons@,
                    endpoint: endpoint.endpoint,
                };
                Self::lemma_push(turn, *spawn, time, first, trace, step);
                trace = trace.push(step);
            }
            act = self.udp_in.poll(evt);
        }
    }
}

impl<X, V, SE: MultiSend<EndpointEvt<X, V>>, R: Receive<PacketEvt>> PacketDriver<X, V, SE, R> {
    /// Each step of a turn but the first came of what the turn did before.
    proof fn lemma_at<SC: MultiSend<ConnectionEvent>, M: ConSpawn<X, V, SC>>(
        turn: UdpInState<Connection, ConnectionEvent>,
        spawn: M,
        time: Instant,
        first: PacketStep<X, V, SE, R, SC>,
        steps: Seq<PacketStep<X, V, SE, R, SC>>,
        i: int,
    )
        requires
            Self::trace(turn, spawn, time, first, steps),
            0 < i < steps.len(),
        ensures
            Self::did(spawn, time, steps[i - 1], Self::run(turn, steps.take(i)).1, steps[i]),
            Self::run(turn, steps.take(i + 1)) == Self::run(turn, steps.take(i)).0.next(
                steps[i].evt,
            ),
        decreases steps.len(),
    {
        if i + 1 == steps.len() {
            assert(steps.take(i) =~= steps.drop_last());
            assert(steps.take(i + 1) =~= steps);
        } else {
            Self::lemma_at(turn, spawn, time, first, steps.drop_last(), i);
            assert(steps.drop_last().take(i) =~= steps.take(i));
            assert(steps.drop_last().take(i + 1) =~= steps.take(i + 1));
        }
    }

    /// The law of packets, over a turn: every packet that came was handed to the
    /// endpoint, with the time, and what the endpoint made of it is what is dealt
    /// with next. An event was sent to its connection, with the permit that this
    /// connection gave; a connection that takes none any more is gone, and no
    /// other is. The permit for a new connection is the user's. Nothing is done
    /// once the turn is over.
    pub proof fn law_packets_handled<SC: MultiSend<ConnectionEvent>, M: ConSpawn<X, V, SC>>(
        turn: UdpInState<Connection, ConnectionEvent>,
        spawn: M,
        time: Instant,
        first: PacketStep<X, V, SE, R, SC>,
        steps: Seq<PacketStep<X, V, SE, R, SC>>,
        i: int,
    )
        requires
            Self::trace(turn, spawn, time, first, steps),
            0 < i < steps.len() - 1,
        ensures
            ({
                let (was, now) = (steps[i], steps[i + 1]);
                &&& was.evt matches UdpInEvt::Packet(
                    Poll::Ready(Some(UdpBackendEvt::InUdpPacket(packet))),
                ) ==> {
                    &&& now.evt matches UdpInEvt::Handled(means)
                    &&& now.call == Some(EpCall::Handle(time, packet, means))
                    &&& now.cons == was.cons
                }
                &&& was.evt matches UdpInEvt::EvtPermit(hnd, e, Some(Poll::Ready(Ok(permit)))) ==> {
                    &&& call_ensures(SC::Permit::send, (permit, e), ())
                    &&& now.cons == was.cons
                }
                &&& was.evt matches UdpInEvt::EvtPermit(hnd, _, Some(Poll::Ready(Err(_)))) ==> {
                    &&& now.cons == was.cons.remove(hnd)
                    &&& now.endpoint == was.endpoint
                }
                &&& was.evt matches UdpInEvt::Handled(Some(PacketMeans::ConEvt(hnd, e))) ==> {
                    &&& now.evt matches UdpInEvt::EvtPermit(to, same, got)
                    &&& to == hnd && same == e
                    &&& got is None <==> !was.cons.contains_key(hnd)
                    &&& got is None ==> now.cons == was.cons
                    &&& got matches Some(permit) ==> {
                        &&& was.cons[hnd].acquires(now.cons[hnd], permit)
                        &&& now.cons.contains_key(hnd)
                        &&& now.cons.remove(hnd) == was.cons.remove(hnd)
                    }
                }
                &&& was.evt matches UdpInEvt::Handled(Some(PacketMeans::NewCon(hnd, con))) ==> {
                    &&& now.evt matches UdpInEvt::ConPermit(to, same, got)
                    &&& to == hnd && same == con
                    &&& was.send.acquires(now.send, got)
                    &&& now.cons == was.cons
                }
                &&& was.evt == UdpInEvt::<
                    Connection,
                    ConnectionEvent,
                    SE::Permit,
                    SC::Permit,
                    PacketEvt,
                >::Handled(None) ==> {
                    &&& now.cons == was.cons
                    &&& now.endpoint == was.endpoint
                    &&& now.evt is Next
                }
                &&& !(was.evt is Packet) ==> now.endpoint == was.endpoint
            }),
            !(Self::run(turn, steps.take(i)).1 is Done),
    {
        Self::lemma_at(turn, spawn, time, first, steps, i);
        Self::lemma_at(turn, spawn, time, first, steps, i + 1);
        let (was, now) = (steps[i], steps[i + 1]);
        if let UdpInEvt::Handled(Some(PacketMeans::ConEvt(hnd, e))) = was.evt {
            if was.cons.contains_key(hnd) {
                assert(now.cons.remove(hnd) =~= was.cons.remove(hnd));
            }
        }
    }

    /// The law of new connections, over a turn: one for which there is a permit
    /// has its driver running, is there under its handle with the sender that
    /// the driver came with, and the user was sent what the user has of it, with
    /// that permit; all other connections stay.
    pub proof fn law_con_taken_up<SC: MultiSend<ConnectionEvent>, M: ConSpawn<X, V, SC>>(
        turn: UdpInState<Connection, ConnectionEvent>,
        spawn: M,
        time: Instant,
        first: PacketStep<X, V, SE, R, SC>,
        steps: Seq<PacketStep<X, V, SE, R, SC>>,
        i: int,
        hnd: usize,
        con: Connection,
        permit: SE::Permit,
    )
        requires
            Self::trace(turn, spawn, time, first, steps),
            0 < i < steps.len() - 1,
            ({
                let waiting = Self::run(turn, steps.take(i)).0.new_con_buf;
                ||| steps[i].evt == UdpInEvt::<
                    Connection,
                    ConnectionEvent,
                    SE::Permit,
                    SC::Permit,
                    PacketEvt,
                >::ConPermit(hnd, con, Poll::Ready(Ok(permit)))
                ||| waiting.len() > 0 && waiting[0] == (hnd, con) && steps[i].evt == UdpInEvt::<
                    Connection,
                    ConnectionEvent,
                    SE::Permit,
                    SC::Permit,
                    PacketEvt,
                >::NewConPermit(Poll::Ready(Ok(permit)))
            }),
        ensures
            steps[i + 1].cons.contains_key(hnd),
            steps[i + 1].cons.remove(hnd) == steps[i].cons.remove(hnd),
            steps[i + 1].cons[hnd].fut is None,
            exists|front: X, events: V|
                {
                    &&& #[trigger] call_ensures(
                        M::spawn,
                        (&spawn, hnd, con),
                        (front, steps[i + 1].cons[hnd].send, events),
                    )
                    &&& call_ensures(
                        SE::Permit::send,
                        (permit, EndpointEvt::InConnection(front, events)),
                        (),
                    )
                },
    {
        Self::lemma_at(turn, spawn, time, first, steps, i);
        Self::lemma_at(turn, spawn, time, first, steps, i + 1);
        let (was, now) = (steps[i].cons, steps[i + 1].cons);
        let front = choose|front: (X, V)|
            {
                &&& #[trigger] took_con(spawn, was, now, hnd, con, front)
                &&& call_ensures(
                    SE::Permit::send,
                    (permit, EndpointEvt::InConnection(front.0, front.1)),
                    (),
                )
            };
        assert(took_con(spawn, was, now, hnd, con, front));
        assert(now.remove(hnd) =~= was.remove(hnd));
        assert(call_ensures(M::spawn, (&spawn, hnd, con), (front.0, now[hnd].send, front.1)));
    }

    /// The law of events that waited, over a turn: the first event that waits
    /// for the connection whose turn it is was sent to it, with the permit that
    /// this connection gave; where it takes none any more, it is gone.
    pub proof fn law_waiting_sent<SC: MultiSend<ConnectionEvent>, M: ConSpawn<X, V, SC>>(
        turn: UdpInState<Connection, ConnectionEvent>,
        spawn: M,
        time: Instant,
        first: PacketStep<X, V, SE, R, SC>,
        steps: Seq<PacketStep<X, V, SE, R, SC>>,
        i: int,
    )
        requires
            Self::trace(turn, spawn, time, first, steps),
            0 < i < steps.len() - 1,
        ensures
            ({
                let at = Self::run(turn, steps.take(i)).0;
                let (was, now) = (steps[i], steps[i + 1]);
                at.phase matches UdpInPhase::ConEvts(k) ==> {
                    let (hnd, events) = at.con_evt_buf[k as int];
                    &&& was.evt matches UdpInEvt::ConEvtPermit(Some(Poll::Ready(Ok(permit)))) ==> {
                        &&& call_ensures(SC::Permit::send, (permit, events[0]), ())
                        &&& now.cons == was.cons
                    }
                    &&& was.evt matches UdpInEvt::ConEvtPermit(Some(Poll::Ready(Err(_)))) ==> now.cons
                        == was.cons.remove(hnd)
                }
            }),
    {
        Self::lemma_at(turn, spawn, time, first, steps, i);
        Self::lemma_at(turn, spawn, time, first, steps, i + 1);
    }
}

} // verus!
