//! The driver of an endpoint that does everything in one task: receive, serve
//! the connections, transmit.
use crate::error::AqErr;
use crate::error::AqResult;
use crate::quinn::proto;
use crate::quinn::proto::con_remote_address;
use crate::quinn::proto::ConEvent;
use crate::quinn::udp_in::PacketMeans;
use quinn_proto::Connection;
use std::collections::VecDeque;
use std::task::Poll;
use std::time::Instant;
use vstd::prelude::*;

pub mod con_io;

verus! {

/// Trait representing logic that can be scheduled to execute in the future
pub trait AsScheduled {
    /// reset the schedule for this instance
    /// even if the logic has previously been executed,
    /// if the passed instance is in the future, the same logic
    /// should be scheduled to execute again at the specified instant
    /// also, don't invoke the logic within this reset_schedule invocation.
    fn reset_schedule(&mut self, at: Instant);
}

/// Factory for generating a scheduled instance of logic `L`
pub trait AsScheduledFactory<L> {
    /// the instances
    type Scheduled: AsScheduled;

    /// get a new instance of scheduled logic that will be executed later
    fn schedule_logic(&self, at: Instant, logic: L) -> Self::Scheduled;
}

/// How many batches of packets may wait.
pub const BATCH_FACT: usize = 8;

/// How many rounds the driver makes before it lets others have their turn.
pub const LOOP_COUNT: usize = 100;

/// Events associated with a specific connection
pub enum ConnectionEvt {
    /// handshake data available to read
    HandshakeDataReady,
    /// connection established
    Connected,
    /// connection closed
    ConnectionLost(AqErr),
}

/// What the next event, or the end of events, says to somebody who waits until
/// the connection is connected.
pub enum Awaited {
    /// wait on
    Wait,
    /// it is connected
    Connected,
    /// another event came
    Unexpected(ConnectionEvt),
    /// no event will come any more
    End(AqErr),
}

/// Wait until this connection is connected: what its next event, or the end of
/// its events, says.
pub fn connected(evt: Option<ConnectionEvt>) -> (r: Awaited)
    ensures
        match evt {
            None => r == Awaited::End(AqErr::AwaitingConnectedEnd),
            Some(ConnectionEvt::HandshakeDataReady) => r is Wait,
            Some(ConnectionEvt::Connected) => r is Connected,
            Some(oth) => r == Awaited::Unexpected(oth),
        },
{
    match evt {
        None => Awaited::End(AqErr::AwaitingConnectedEnd),
        Some(ConnectionEvt::HandshakeDataReady) => Awaited::Wait,
        Some(ConnectionEvt::Connected) => Awaited::Connected,
        Some(oth) => Awaited::Unexpected(oth),
    }
}

/// The remote address of a connection, where one is registered under the
/// handle.
pub fn con_remote_addr(registered: Option<&Connection>) -> (r: AqResult<core::net::SocketAddr>)
    ensures
        registered matches Some(con) ==> r == Ok::<core::net::SocketAddr, AqErr>(
            proto::con_remote(*con),
        ),
        registered is None ==> r == Err::<core::net::SocketAddr, AqErr>(
            AqErr::InvalidConnectionHandle,
        ),
{
    match registered {
        Some(con) => Ok(con_remote_address(con)),
        None => Err(AqErr::InvalidConnectionHandle),
    }
}

/// Where the driver is in its round.
#[derive(Clone, Copy)]
pub enum DriverPhase {
    /// not begun
    Idle,
    /// packets are received
    Receive,
    /// a packet is handled
    Packets,
    /// waits for the next connection
    NextCon,
    /// the connection at hand handles its timeout
    ConTimeout,
    /// packets are taken from it
    ConTransmit,
    /// waits to hear of its next timeout
    ConNextTimeout,
    /// its timeout is scheduled
    ConSchedule,
    /// the endpoint is told
    ConEpEvts,
    /// its events are taken
    ConEvents,
    /// its datagrams are dropped
    ConDatagrams,
    /// its events are delivered
    ConDeliver,
    /// packets are taken from the endpoint
    Transmit,
    /// packets are sent
    Send,
}

/// What the connection at hand has to do with time.
#[derive(Clone, Copy)]
pub struct ConTimer {
    /// its timeout is over
    pub timeout: bool,
    /// a timeout was scheduled before
    pub scheduled: bool,
}

/// Drives an endpoint and its connections. `K` is a packet that came, `T` one
/// that is to be sent.
pub struct DriverInner<K, T> {
    /// how many packets may wait
    pub capacity: usize,
    /// packets to be sent
    pub pending_send: VecDeque<T>,
    /// packets that came
    pub pending_recv: VecDeque<K>,
    /// whether whoever can go on will wake the driver
    pub pend_safe: bool,
    /// where the driver is
    pub phase: DriverPhase,
    /// the connection at hand
    pub timer: ConTimer,
    /// the connection at hand has to be served again
    pub loop_again: bool,
    /// events of the connection at hand
    pub con_evt_out: VecDeque<ConnectionEvt>,
    /// how many more rounds may be made
    pub rounds: usize,
}

/// A `DriverInner` as mathematics.
#[verifier::ext_equal]
pub struct DriverState<K, T> {
    /// how many packets may wait
    pub capacity: int,
    /// packets to be sent
    pub pending_send: Seq<T>,
    /// packets that came
    pub pending_recv: Seq<K>,
    /// whether whoever can go on will wake the driver
    pub pend_safe: bool,
    /// where the driver is
    pub phase: DriverPhase,
    /// the connection at hand
    pub timer: ConTimer,
    /// the connection at hand has to be served again
    pub loop_again: bool,
    /// events of the connection at hand
    pub con_evt_out: Seq<ConnectionEvt>,
    /// how many more rounds may be made
    pub rounds: int,
}

impl<K, T> View for DriverInner<K, T> {
    type V = DriverState<K, T>;

    open spec fn view(&self) -> DriverState<K, T> {
        DriverState {
            capacity: self.capacity as int,
            pending_send: self.pending_send@,
            pending_recv: self.pending_recv@,
            pend_safe: self.pend_safe,
            phase: self.phase,
            timer: self.timer,
            loop_again: self.loop_again,
            con_evt_out: self.con_evt_out@,
            rounds: self.rounds as int,
        }
    }
}

/// What came of the last action. `C` is a new connection, `E` an event for the
/// endpoint, `V` one for a connection.
pub enum DriverEvt<T, C, E, V> {
    /// begin
    Begin,
    /// the last action is done
    Handled,
    /// how many packets came, into the queue
    Received(Poll<AqResult<usize>>),
    /// what the endpoint made of the packet, if anything
    Means(Option<PacketMeans<C, V>>),
    /// the next connection, if there is one
    Con(Option<ConTimer>),
    /// the next packet of the connection, or of the endpoint, if there is one
    Packet(Option<T>),
    /// the next timeout of the connection, if it has one
    Timeout(Option<Instant>),
    /// the next event for the endpoint, if there is one
    EpEvt(Option<E>),
    /// what the endpoint answers, if anything
    EpAnswer(Option<V>),
    /// the next event of the connection, if it has one
    Event(Option<ConEvent>),
    /// whether there was a datagram
    Datagram(bool),
    /// packets were sent, from the front of the queue, as many as could
    Sent(Poll<()>),
}

/// What to do next. `Q` is a queue of events for the user of a connection.
pub enum DriverAct<K, C, E, V, Q> {
    /// receive packets into the queue, up to so many in all
    PollRecv(usize),
    /// let the endpoint handle the packet
    HandlePacket(K),
    /// take up the connection with this handle, and tell the user of it
    Register(usize, C),
    /// pass the event on to the connection with this handle, if there is one
    PassOn(usize, V),
    /// go to the next connection
    NextCon,
    /// let the connection handle its timeout
    HandleTimeout,
    /// ask the connection for a packet
    PollTransmit,
    /// ask the connection for its next timeout
    PollTimeout,
    /// schedule its timeout
    Schedule(Instant),
    /// schedule its timeout anew
    Reschedule(Instant),
    /// ask the connection for an event for the endpoint
    PollEpEvt,
    /// let the endpoint handle the event
    HandleEpEvt(E),
    /// let the connection handle the answer
    HandleConEvt(V),
    /// ask the connection for an event
    PollEvent,
    /// take a datagram and drop it
    DropDatagram,
    /// keep these events for the user of the connection
    Deliver(Q),
    /// ask the endpoint for a packet
    EpPollTransmit,
    /// send packets from the front of the queue
    PollSend,
    /// rest; whether to be woken by whoever can go on
    Pend(bool),
    /// receiving failed
    Fail(AqErr),
}

impl<K, C, E, V> View for DriverAct<K, C, E, V, VecDeque<ConnectionEvt>> {
    type V = DriverAct<K, C, E, V, Seq<ConnectionEvt>>;

    open spec fn view(&self) -> DriverAct<K, C, E, V, Seq<ConnectionEvt>> {
        match *self {
            DriverAct::PollRecv(limit) => DriverAct::PollRecv(limit),
            DriverAct::HandlePacket(packet) => DriverAct::HandlePacket(packet),
            DriverAct::Register(hnd, con) => DriverAct::Register(hnd, con),
            DriverAct::PassOn(hnd, evt) => DriverAct::PassOn(hnd, evt),
            DriverAct::NextCon => DriverAct::NextCon,
            DriverAct::HandleTimeout => DriverAct::HandleTimeout,
            DriverAct::PollTransmit => DriverAct::PollTransmit,
            DriverAct::PollTimeout => DriverAct::PollTimeout,
            DriverAct::Schedule(at) => DriverAct::Schedule(at),
            DriverAct::Reschedule(at) => DriverAct::Reschedule(at),
            DriverAct::PollEpEvt => DriverAct::PollEpEvt,
            DriverAct::HandleEpEvt(evt) => DriverAct::HandleEpEvt(evt),
            DriverAct::HandleConEvt(evt) => DriverAct::HandleConEvt(evt),
            DriverAct::PollEvent => DriverAct::PollEvent,
            DriverAct::DropDatagram => DriverAct::DropDatagram,
            DriverAct::Deliver(evts) => DriverAct::Deliver(evts@),
            DriverAct::EpPollTransmit => DriverAct::EpPollTransmit,
            DriverAct::PollSend => DriverAct::PollSend,
            DriverAct::Pend(register) => DriverAct::Pend(register),
            DriverAct::Fail(err) => DriverAct::Fail(err),
        }
    }
}

/// The driver, and what to do next.
pub type DriverNext<K, T, C, E, V> = (
    DriverState<K, T>,
    DriverAct<K, C, E, V, Seq<ConnectionEvt>>,
);

/// What to do next, with the events that are delivered.
pub type DriverDo<K, C, E, V> = DriverAct<K, C, E, V, VecDeque<ConnectionEvt>>;

impl<K, T> DriverState<K, T> {
    /// No more packets wait to be sent than may.
    pub open spec fn wf(self) -> bool {
        &&& self.pending_send.len() <= self.capacity
        &&& 0 <= self.rounds <= LOOP_COUNT
    }

    /// The driver in another phase, and what to do there.
    pub open spec fn go<C, E, V>(
        self,
        phase: DriverPhase,
        act: DriverAct<K, C, E, V, Seq<ConnectionEvt>>,
    ) -> DriverNext<K, T, C, E, V> {
        (DriverState { phase, ..self }, act)
    }

    /// To receiving, unless as many packets wait as may.
    pub open spec fn to_receive<C, E, V>(self) -> DriverNext<K, T, C, E, V> {
        if self.pending_recv.len() < self.capacity {
            self.go(DriverPhase::Receive, DriverAct::PollRecv(self.capacity as usize))
        } else {
            DriverState { pend_safe: false, ..self }.to_packets()
        }
    }

    /// To the packets that came.
    pub open spec fn to_packets<C, E, V>(self) -> DriverNext<K, T, C, E, V> {
        if self.pending_recv.len() > 0 {
            DriverState { pending_recv: self.pending_recv.skip(1), ..self }.go(
                DriverPhase::Packets,
                DriverAct::HandlePacket(self.pending_recv[0]),
            )
        } else {
            self.go(DriverPhase::NextCon, DriverAct::NextCon)
        }
    }

    /// To serving the connection at hand.
    pub open spec fn to_con<C, E, V>(self) -> DriverNext<K, T, C, E, V> {
        let again = DriverState { loop_again: false, ..self };
        if self.timer.timeout {
            DriverState { timer: ConTimer { timeout: false, ..self.timer }, ..again }.go(
                DriverPhase::ConTimeout,
                DriverAct::HandleTimeout,
            )
        } else {
            again.to_con_transmit()
        }
    }

    /// To the packets of the connection at hand, unless as many wait as may.
    pub open spec fn to_con_transmit<C, E, V>(self) -> DriverNext<K, T, C, E, V> {
        if self.pending_send.len() < self.capacity {
            self.go(DriverPhase::ConTransmit, DriverAct::PollTransmit)
        } else {
            DriverState { pend_safe: false, ..self }.go(
                DriverPhase::ConNextTimeout,
                DriverAct::PollTimeout,
            )
        }
    }

    /// The end of the connection at hand, or serving it again.
    pub open spec fn end_con<C, E, V>(self) -> DriverNext<K, T, C, E, V> {
        if self.loop_again {
            self.to_con()
        } else if self.con_evt_out.len() > 0 {
            (
                DriverState { phase: DriverPhase::ConDeliver, con_evt_out: Seq::empty(), ..self },
                DriverAct::Deliver(self.con_evt_out),
            )
        } else {
            self.go(DriverPhase::NextCon, DriverAct::NextCon)
        }
    }

    /// To the packets of the endpoint, unless as many wait as may.
    pub open spec fn to_transmit<C, E, V>(self) -> DriverNext<K, T, C, E, V> {
        if self.pending_send.len() < self.capacity {
            self.go(DriverPhase::Transmit, DriverAct::EpPollTransmit)
        } else {
            self.to_send()
        }
    }

    /// To sending, as long as packets wait; then to the end of the round.
    pub open spec fn to_send<C, E, V>(self) -> DriverNext<K, T, C, E, V> {
        if self.pending_send.len() > 0 {
            self.go(DriverPhase::Send, DriverAct::PollSend)
        } else {
            self.end_round()
        }
    }

    /// The end of a round: the driver rests where that is safe or its rounds
    /// are used up, and is woken later only in the first case.
    pub open spec fn end_round<C, E, V>(self) -> DriverNext<K, T, C, E, V> {
        if self.pend_safe {
            self.go(DriverPhase::Idle, DriverAct::Pend(true))
        } else if self.rounds == 0 {
            self.go(DriverPhase::Idle, DriverAct::Pend(false))
        } else {
            DriverState { pend_safe: true, rounds: self.rounds - 1, ..self }.to_receive()
        }
    }

    /// What an event of the connection is to its user.
    pub open spec fn on_event(evt: ConEvent) -> ConnectionEvt {
        match evt {
            ConEvent::HandshakeDataReady => ConnectionEvt::HandshakeDataReady,
            ConEvent::ConnectionLost(reason) => ConnectionEvt::ConnectionLost(
                AqErr::Other(reason),
            ),
            _ => ConnectionEvt::Connected,
        }
    }

    /// What the driver does next, and the driver after that.
    pub open spec fn next<C, E, V>(self, evt: DriverEvt<T, C, E, V>) -> DriverNext<K, T, C, E, V> {
        match evt {
            DriverEvt::Begin => DriverState {
                pend_safe: true,
                rounds: LOOP_COUNT - 1,
                ..self
            }.to_receive(),
            DriverEvt::Received(Poll::Pending) => self.to_packets(),
            DriverEvt::Received(Poll::Ready(Ok(count))) => if count == 0 {
                DriverState { pend_safe: false, ..self }.to_packets()
            } else {
                self.to_receive()
            },
            DriverEvt::Received(Poll::Ready(Err(err))) => self.go(
                DriverPhase::Idle,
                DriverAct::Fail(err),
            ),
            DriverEvt::Means(None) => self.to_packets(),
            DriverEvt::Means(Some(PacketMeans::NewCon(hnd, con))) => self.go(
                DriverPhase::Packets,
                DriverAct::Register(hnd, con),
            ),
            DriverEvt::Means(Some(PacketMeans::ConEvt(hnd, e))) => self.go(
                DriverPhase::Packets,
                DriverAct::PassOn(hnd, e),
            ),
            DriverEvt::Con(None) => self.to_transmit(),
            DriverEvt::Con(Some(timer)) => DriverState {
                timer,
                con_evt_out: Seq::empty(),
                ..self
            }.to_con(),
            DriverEvt::Packet(None) => if self.phase is ConTransmit {
                self.go(DriverPhase::ConNextTimeout, DriverAct::PollTimeout)
            } else {
                self.to_send()
            },
            DriverEvt::Packet(Some(packet)) => {
                let more = DriverState { pending_send: self.pending_send.push(packet), ..self };
                if self.phase is ConTransmit {
                    more.to_con_transmit()
                } else {
                    more.to_transmit()
                }
            },
            DriverEvt::Timeout(None) => self.go(DriverPhase::ConEpEvts, DriverAct::PollEpEvt),
            DriverEvt::Timeout(Some(at)) => if self.timer.scheduled {
                self.go(DriverPhase::ConSchedule, DriverAct::Reschedule(at))
            } else {
                DriverState { timer: ConTimer { scheduled: true, ..self.timer }, ..self }.go(
                    DriverPhase::ConSchedule,
                    DriverAct::Schedule(at),
                )
            },
            DriverEvt::EpEvt(Some(e)) => self.go(
                DriverPhase::ConEpEvts,
                DriverAct::HandleEpEvt(e),
            ),
            DriverEvt::EpEvt(None) => self.go(DriverPhase::ConEvents, DriverAct::PollEvent),
            DriverEvt::EpAnswer(Some(v)) => DriverState { loop_again: true, ..self }.go(
                DriverPhase::ConEpEvts,
                DriverAct::HandleConEvt(v),
            ),
            DriverEvt::EpAnswer(None) => self.go(DriverPhase::ConEpEvts, DriverAct::PollEpEvt),
            DriverEvt::Event(None) => self.go(DriverPhase::ConDatagrams, DriverAct::DropDatagram),
            DriverEvt::Event(Some(e)) => DriverState {
                con_evt_out: self.con_evt_out.push(Self::on_event(e)),
                ..self
            }.go(DriverPhase::ConEvents, DriverAct::PollEvent),
            DriverEvt::Datagram(true) => self.go(
                DriverPhase::ConDatagrams,
                DriverAct::DropDatagram,
            ),
            DriverEvt::Datagram(false) => self.end_con(),
            DriverEvt::Sent(Poll::Ready(())) => self.to_send(),
            DriverEvt::Sent(Poll::Pending) => self.end_round(),
            DriverEvt::Handled => match self.phase {
                DriverPhase::Packets => self.to_packets(),
                DriverPhase::ConTimeout => self.to_con_transmit(),
                DriverPhase::ConSchedule => self.go(DriverPhase::ConEpEvts, DriverAct::PollEpEvt),
                DriverPhase::ConEpEvts => self.go(DriverPhase::ConEpEvts, DriverAct::PollEpEvt),
                _ => self.go(DriverPhase::NextCon, DriverAct::NextCon),
            },
        }
    }

    /// Whether the driver waits for this event. Streams and datagrams are none
    /// that it can deal with.
    pub open spec fn expects<C, E, V>(self, evt: DriverEvt<T, C, E, V>) -> bool {
        match evt {
            DriverEvt::Begin => self.phase is Idle,
            DriverEvt::Handled => {
                ||| self.phase is Packets
                ||| self.phase is ConTimeout
                ||| self.phase is ConSchedule
                ||| self.phase is ConEpEvts
                ||| self.phase is ConDeliver
            },
            DriverEvt::Received(_) => self.phase is Receive,
            DriverEvt::Means(_) => self.phase is Packets,
            DriverEvt::Con(_) => self.phase is NextCon,
            DriverEvt::Packet(_) => (self.phase is ConTransmit || self.phase is Transmit)
                && self.pending_send.len() < self.capacity,
            DriverEvt::Timeout(_) => self.phase is ConNextTimeout,
            DriverEvt::EpEvt(_) | DriverEvt::EpAnswer(_) => self.phase is ConEpEvts,
            DriverEvt::Event(e) => self.phase is ConEvents && !(e matches Some(
                ConEvent::Stream(_),
            )) && !(e matches Some(ConEvent::DatagramReceived)),
            DriverEvt::Datagram(_) => self.phase is ConDatagrams,
            DriverEvt::Sent(_) => self.phase is Send,
        }
    }
}

/// Whether the driver is where it hands out this action.
pub open spec fn driver_asks<K, T, C, E, V>(
    d: DriverState<K, T>,
    act: DriverAct<K, C, E, V, Seq<ConnectionEvt>>,
) -> bool {
    match act {
        DriverAct::PollRecv(_) => d.phase is Receive,
        DriverAct::HandlePacket(_) | DriverAct::Register(..) | DriverAct::PassOn(..) => d.phase
            is Packets,
        DriverAct::NextCon => d.phase is NextCon,
        DriverAct::HandleTimeout => d.phase is ConTimeout,
        DriverAct::PollTransmit => d.phase is ConTransmit && d.pending_send.len() < d.capacity,
        DriverAct::PollTimeout => d.phase is ConNextTimeout,
        DriverAct::Schedule(_) | DriverAct::Reschedule(_) => d.phase is ConSchedule,
        DriverAct::PollEpEvt | DriverAct::HandleEpEvt(_) | DriverAct::HandleConEvt(_) => d.phase
            is ConEpEvts,
        DriverAct::PollEvent => d.phase is ConEvents,
        DriverAct::DropDatagram => d.phase is ConDatagrams,
        DriverAct::Deliver(_) => d.phase is ConDeliver,
        DriverAct::EpPollTransmit => d.phase is Transmit && d.pending_send.len() < d.capacity,
        DriverAct::PollSend => d.phase is Send,
        DriverAct::Pend(_) | DriverAct::Fail(_) => d.phase is Idle,
    }
}

/// Whether an event is of the kind that answers the action.
pub open spec fn driver_answers<K, T, C, E, V>(
    act: DriverAct<K, C, E, V, Seq<ConnectionEvt>>,
    evt: DriverEvt<T, C, E, V>,
) -> bool {
    match act {
        DriverAct::PollRecv(_) => evt is Received,
        DriverAct::HandlePacket(_) => evt is Means,
        DriverAct::Register(..)
        | DriverAct::PassOn(..)
        | DriverAct::HandleTimeout
        | DriverAct::Schedule(_)
        | DriverAct::Reschedule(_)
        | DriverAct::HandleConEvt(_)
        | DriverAct::Deliver(_) => evt is Handled,
        DriverAct::NextCon => evt is Con,
        DriverAct::PollTransmit | DriverAct::EpPollTransmit => evt is Packet,
        DriverAct::PollTimeout => evt is Timeout,
        DriverAct::PollEpEvt => evt is EpEvt,
        DriverAct::HandleEpEvt(_) => evt is EpAnswer,
        DriverAct::PollEvent => evt is Event && !(evt matches DriverEvt::Event(
            Some(ConEvent::Stream(_)),
        )) && !(evt matches DriverEvt::Event(Some(ConEvent::DatagramReceived))),
        DriverAct::DropDatagram => evt is Datagram,
        DriverAct::PollSend => evt is Sent,
        DriverAct::Pend(_) | DriverAct::Fail(_) => false,
    }
}

/// The law of the driver's actions: what answers an action is what the driver
/// waits for, and it hands out the next action where that belongs.
pub proof fn law_driver_asks<K, T, C, E, V>(
    d: DriverState<K, T>,
    act: DriverAct<K, C, E, V, Seq<ConnectionEvt>>,
    evt: DriverEvt<T, C, E, V>,
)
    requires
        driver_asks(d, act) && driver_answers(act, evt) || d.phase is Idle && evt is Begin,
    ensures
        d.expects(evt),
        ({
            let (after, next) = d.next(evt);
            driver_asks(after, next)
        }),
{
}

/// The law of the driver: never more packets wait to be sent than may,
/// whatever comes; it rests only at the end of a round, and asks to be woken
/// exactly where resting is safe.
pub proof fn law_driver<K, T, C, E, V>(d: DriverState<K, T>, evt: DriverEvt<T, C, E, V>)
    requires
        d.wf(),
        d.expects(evt),
    ensures
        ({
            let (after, act) = d.next(evt);
            &&& after.wf()
            &&& act matches DriverAct::Pend(register) ==> {
                &&& register == after.pend_safe
                &&& !register ==> after.rounds == 0
            }
            &&& act is PollTransmit || act is EpPollTransmit ==> after.pending_send.len()
                < after.capacity
            &&& act matches DriverAct::PollRecv(limit) ==> limit == after.capacity as usize
                && after.pending_recv.len() < after.capacity
        }),
{
}

/// The law of a connection's events: they are delivered in the order in which
/// they came, all of them, before the next connection has its turn.
pub proof fn law_driver_events<K, T, C, E, V>(d: DriverState<K, T>, evt: DriverEvt<T, C, E, V>)
    requires
        d.expects(evt),
    ensures
        ({
            let (after, act) = d.next(evt);
            &&& act matches DriverAct::Deliver(evts) ==> evts == d.con_evt_out
                && after.con_evt_out.len() == 0
            &&& evt is Event ==> d.con_evt_out.is_prefix_of(after.con_evt_out)
            &&& evt is Datagram && !(act is Deliver) ==> after.con_evt_out == d.con_evt_out
            &&& evt is Datagram && act is NextCon ==> d.con_evt_out.len() == 0
        }),
{
}

impl<K, T> DriverInner<K, T> {
    /// The driver of a new endpoint over a socket that takes and gives packets
    /// in batches of this size.
    pub fn new(batch_size: usize) -> (r: Self)
        requires
            batch_size * BATCH_FACT <= usize::MAX,
        ensures
            r@ == (DriverState {
                capacity: batch_size * BATCH_FACT,
                pending_send: Seq::<T>::empty(),
                pending_recv: Seq::<K>::empty(),
                pend_safe: true,
                phase: DriverPhase::Idle,
                timer: ConTimer { timeout: false, scheduled: false },
                loop_again: false,
                con_evt_out: Seq::<ConnectionEvt>::empty(),
                rounds: 0,
            }),
            r@.wf(),
    {
        let capacity: usize = batch_size * BATCH_FACT;
        DriverInner {
            capacity,
            pending_send: VecDeque::with_capacity(capacity),
            pending_recv: VecDeque::with_capacity(capacity),
            pend_safe: true,
            phase: DriverPhase::Idle,
            timer: ConTimer { timeout: false, scheduled: false },
            loop_again: false,
            con_evt_out: VecDeque::new(),
            rounds: 0,
        }
    }

    fn receive<C, E, V>(&mut self) -> (r: DriverDo<K, C, E, V>)
        ensures
            (final(self)@, r@) == old(self)@.to_receive::<C, E, V>(),
    {
        if self.pending_recv.len() < self.capacity {
            self.phase = DriverPhase::Receive;
            DriverAct::PollRecv(self.capacity)
        } else {
            self.pend_safe = false;
            self.packets()
        }
    }

    fn packets<C, E, V>(&mut self) -> (r: DriverDo<K, C, E, V>)
        ensures
            (final(self)@, r@) == old(self)@.to_packets::<C, E, V>(),
    {
        match self.pending_recv.pop_front() {
            Some(packet) => {
                assert(self.pending_recv@ =~= old(self)@.pending_recv.skip(1));
                self.phase = DriverPhase::Packets;
                DriverAct::HandlePacket(packet)
            },
            None => {
                self.phase = DriverPhase::NextCon;
                DriverAct::NextCon
            },
        }
    }

    fn con<C, E, V>(&mut self) -> (r: DriverDo<K, C, E, V>)
        ensures
            (final(self)@, r@) == old(self)@.to_con::<C, E, V>(),
    {
        self.loop_again = false;
        if self.timer.timeout {
            self.timer.timeout = false;
            self.phase = DriverPhase::ConTimeout;
            DriverAct::HandleTimeout
        } else {
            self.con_transmit()
        }
    }

    fn con_transmit<C, E, V>(&mut self) -> (r: DriverDo<K, C, E, V>)
        ensures
            (final(self)@, r@) == old(self)@.to_con_transmit::<C, E, V>(),
    {
        if self.pending_send.len() < self.capacity {
            self.phase = DriverPhase::ConTransmit;
            DriverAct::PollTransmit
        } else {
            self.pend_safe = false;
            self.phase = DriverPhase::ConNextTimeout;
            DriverAct::PollTimeout
        }
    }

    fn con_end<C, E, V>(&mut self) -> (r: DriverDo<K, C, E, V>)
        ensures
            (final(self)@, r@) == old(self)@.end_con::<C, E, V>(),
    {
        if self.loop_again {
            self.con()
        } else if self.con_evt_out.len() > 0 {
            self.phase = DriverPhase::ConDeliver;
            let mut evts = VecDeque::new();
            evts.append(&mut self.con_evt_out);
            assert(evts@ =~= old(self)@.con_evt_out);
            DriverAct::Deliver(evts)
        } else {
            self.phase = DriverPhase::NextCon;
            DriverAct::NextCon
        }
    }

    fn transmit<C, E, V>(&mut self) -> (r: DriverDo<K, C, E, V>)
        requires
            old(self)@.wf(),
        ensures
            (final(self)@, r@) == old(self)@.to_transmit::<C, E, V>(),
    {
        if self.pending_send.len() < self.capacity {
            self.phase = DriverPhase::Transmit;
            DriverAct::EpPollTransmit
        } else {
            self.send()
        }
    }

    fn send<C, E, V>(&mut self) -> (r: DriverDo<K, C, E, V>)
        requires
            old(self)@.wf(),
        ensures
            (final(self)@, r@) == old(self)@.to_send::<C, E, V>(),
    {
        if self.pending_send.len() > 0 {
            self.phase = DriverPhase::Send;
            DriverAct::PollSend
        } else {
            self.round_end()
        }
    }

    fn round_end<C, E, V>(&mut self) -> (r: DriverDo<K, C, E, V>)
        requires
            old(self)@.wf(),
        ensures
            (final(self)@, r@) == old(self)@.end_round::<C, E, V>(),
    {
        if self.pend_safe {
            self.phase = DriverPhase::Idle;
            DriverAct::Pend(true)
        } else if self.rounds == 0 {
            self.phase = DriverPhase::Idle;
            DriverAct::Pend(false)
        } else {
            self.pend_safe = true;
            self.rounds = self.rounds - 1;
            self.receive()
        }
    }

    fn at<C, E, V>(&mut self, phase: DriverPhase, act: DriverDo<K, C, E, V>) -> (r: DriverDo<
        K,
        C,
        E,
        V,
    >)
        ensures
            (final(self)@, r@) == old(self)@.go::<C, E, V>(phase, act@),
    {
        self.phase = phase;
        act
    }

    fn event_out(evt: ConEvent) -> (r: ConnectionEvt)
        ensures
            r == DriverState::<K, T>::on_event(evt),
    {
        match evt {
            ConEvent::HandshakeDataReady => ConnectionEvt::HandshakeDataReady,
            ConEvent::ConnectionLost(reason) => ConnectionEvt::ConnectionLost(
                AqErr::Other(reason),
            ),
            _ => ConnectionEvt::Connected,
        }
    }

    /// Go one step on with the endpoint.
    pub fn poll<C, E, V>(&mut self, evt: DriverEvt<T, C, E, V>) -> (r: DriverDo<K, C, E, V>)
        requires
            old(self)@.wf(),
            old(self)@.expects(evt),
        ensures
            (final(self)@, r@) == old(self)@.next(evt),
            final(self)@.wf(),
    {
        proof {
            law_driver::<K, T, C, E, V>(self@, evt);
        }
        match evt {
            DriverEvt::Begin => {
                self.pend_safe = true;
                self.rounds = LOOP_COUNT - 1;
                self.receive()
            },
            DriverEvt::Received(Poll::Pending) => self.packets(),
            DriverEvt::Received(Poll::Ready(Ok(count))) => {
                if count == 0 {
                    self.pend_safe = false;
                    self.packets()
                } else {
                    self.receive()
                }
            },
            DriverEvt::Received(Poll::Ready(Err(err))) => self.at(
                DriverPhase::Idle,
                DriverAct::Fail(err),
            ),
            DriverEvt::Means(None) => self.packets(),
            DriverEvt::Means(Some(PacketMeans::NewCon(hnd, con))) => self.at(
                DriverPhase::Packets,
                DriverAct::Register(hnd, con),
            ),
            DriverEvt::Means(Some(PacketMeans::ConEvt(hnd, e))) => self.at(
                DriverPhase::Packets,
                DriverAct::PassOn(hnd, e),
            ),
            DriverEvt::Con(None) => self.transmit(),
            DriverEvt::Con(Some(timer)) => {
                self.timer = timer;
                self.con_evt_out.clear();
                self.con()
            },
            DriverEvt::Packet(None) => {
                if matches!(self.phase, DriverPhase::ConTransmit) {
                    self.at(DriverPhase::ConNextTimeout, DriverAct::PollTimeout)
                } else {
                    self.send()
                }
            },
            DriverEvt::Packet(Some(packet)) => {
                self.pending_send.push_back(packet);
                if matches!(self.phase, DriverPhase::ConTransmit) {
                    self.con_transmit()
                } else {
                    self.transmit()
                }
            },
            DriverEvt::Timeout(None) => self.at(DriverPhase::ConEpEvts, DriverAct::PollEpEvt),
            DriverEvt::Timeout(Some(at)) => {
                if self.timer.scheduled {
                    self.at(DriverPhase::ConSchedule, DriverAct::Reschedule(at))
                } else {
                    self.timer.scheduled = true;
                    self.at(DriverPhase::ConSchedule, DriverAct::Schedule(at))
                }
            },
            DriverEvt::EpEvt(Some(e)) => self.at(
                DriverPhase::ConEpEvts,
                DriverAct::HandleEpEvt(e),
            ),
            DriverEvt::EpEvt(None) => self.at(DriverPhase::ConEvents, DriverAct::PollEvent),
            DriverEvt::EpAnswer(Some(v)) => {
                self.loop_again = true;
                self.at(DriverPhase::ConEpEvts, DriverAct::HandleConEvt(v))
            },
            DriverEvt::EpAnswer(None) => self.at(DriverPhase::ConEpEvts, DriverAct::PollEpEvt),
            DriverEvt::Event(None) => self.at(
                DriverPhase::ConDatagrams,
                DriverAct::DropDatagram,
            ),
            DriverEvt::Event(Some(e)) => {
                self.con_evt_out.push_back(Self::event_out(e));
                self.at(DriverPhase::ConEvents, DriverAct::PollEvent)
            },
            DriverEvt::Datagram(true) => self.at(
                DriverPhase::ConDatagrams,
                DriverAct::DropDatagram,
            ),
            DriverEvt::Datagram(false) => self.con_end(),
            DriverEvt::Sent(Poll::Ready(())) => self.send(),
            DriverEvt::Sent(Poll::Pending) => self.round_end(),
            DriverEvt::Handled => {
                match self.phase {
                    DriverPhase::Packets => self.packets(),
                    DriverPhase::ConTimeout => self.con_transmit(),
                    DriverPhase::ConSchedule | DriverPhase::ConEpEvts => self.at(
                        DriverPhase::ConEpEvts,
                        DriverAct::PollEpEvt,
                    ),
                    _ => self.at(DriverPhase::NextCon, DriverAct::NextCon),
                }
            },
        }
    }
}

/// The law of resting: the driver rests only where no packet waits to be sent,
/// or the socket has just said that it cannot take more; while packets wait and
/// the socket takes them, sending goes on. The same holds of the end of every
/// round. It is to be woken exactly where whoever can go on will do that, and
/// rests otherwise only once its rounds are used up.
pub proof fn law_driver_rests<K, T, C, E, V>(d: DriverState<K, T>, evt: DriverEvt<T, C, E, V>)
    requires
        d.wf(),
        d.expects(evt),
    ensures
        ({
            let (after, act) = d.next(evt);
            let sending = d.phase is NextCon || d.phase is Transmit || d.phase is Send;
            &&& act matches DriverAct::Pend(_) ==> after.pending_send.len() == 0 || evt
                == DriverEvt::<T, C, E, V>::Sent(Poll::Pending)
            &&& sending && (act is PollRecv || act is HandlePacket || act is NextCon)
                ==> after.pending_send.len() == 0 || evt == DriverEvt::<T, C, E, V>::Sent(
                Poll::Pending,
            )
            &&& evt matches DriverEvt::Sent(Poll::Ready(_)) ==> (act is PollSend
                <==> d.pending_send.len() > 0)
            &&& act is PollSend ==> after.pending_send.len() > 0
            &&& act matches DriverAct::Pend(wake) ==> {
                &&& sending
                &&& wake == d.pend_safe
                &&& wake || d.rounds == 0
            }
            &&& sending && act is PollRecv ==> !d.pend_safe && d.rounds > 0
        }),
{
}

/// The law of being woken: whoever can go on will wake the driver where, since
/// its round began, the socket said that nothing more is there to be received,
/// and every connection was asked for packets until it had none. A queue that
/// is full before that, or a socket that gave nothing and did not say that it
/// has nothing, makes that false.
pub proof fn law_driver_woken<K, T, C, E, V>(d: DriverState<K, T>, evt: DriverEvt<T, C, E, V>)
    requires
        d.wf(),
        d.expects(evt),
    ensures
        ({
            let (after, act) = d.next(evt);
            let starts = evt is Begin || (d.phase is NextCon || d.phase is Transmit
                || d.phase is Send) && (act is PollRecv || act is HandlePacket || act is NextCon);
            let received = evt matches DriverEvt::Received(Poll::Ready(Ok(_)));
            let emptied = evt matches DriverEvt::Packet(None);
            &&& after.pend_safe <==> {
                &&& d.pend_safe || starts
                &&& starts || received ==> act is PollRecv
                &&& act is PollTimeout ==> emptied
            }
            &&& evt == DriverEvt::<T, C, E, V>::Received(Poll::Pending) ==> !(act is PollRecv)
            &&& evt == DriverEvt::<T, C, E, V>::Received(Poll::Ready(Ok(0))) ==> !(act is PollRecv)
            &&& act matches DriverAct::PollRecv(limit) ==> {
                &&& limit == d.capacity as usize
                &&& after.pending_recv.len() < d.capacity
            }
            &&& (starts || (evt matches DriverEvt::Received(Poll::Ready(Ok(n))) && n > 0))
                && d.pending_recv.len() < d.capacity ==> act is PollRecv
            &&& after.rounds == if evt is Begin {
                99
            } else if starts {
                d.rounds - 1
            } else {
                d.rounds
            }
            &&& after.capacity == d.capacity
        }),
{
}

/// The law of the queues: no packet is lost, doubled or passed by another. A
/// packet to be sent goes to the end of the queue as it is; a packet that came
/// leaves the front of its queue only to be handled. Connections are served
/// only once no packet waits to be handled. What a packet means goes to the
/// connection that the endpoint named. Only a socket that fails makes the
/// driver fail, with just that error.
pub proof fn law_driver_queues<K, T, C, E, V>(
    d: DriverState<K, T>,
    evt: DriverEvt<T, C, E, V>,
    hnd: usize,
    con: C,
    e: V,
    err: AqErr,
)
    requires
        d.wf(),
        d.expects(evt),
    ensures
        ({
            let (after, act) = d.next(evt);
            &&& match evt {
                DriverEvt::Packet(Some(packet)) => {
                    &&& after.pending_send.len() == d.pending_send.len() + 1
                    &&& after.pending_send.drop_last() == d.pending_send
                    &&& after.pending_send.last() == packet
                },
                _ => after.pending_send == d.pending_send,
            }
            &&& match act {
                DriverAct::HandlePacket(packet) => d.pending_recv == seq![packet]
                    + after.pending_recv,
                _ => after.pending_recv == d.pending_recv,
            }
            &&& act is NextCon && !(d.phase is ConDatagrams || d.phase is ConDeliver)
                ==> after.pending_recv.len() == 0
            &&& d.phase is Packets ==> act is HandlePacket || act is Register || act is PassOn
                || act is NextCon
            &&& act == DriverAct::<K, C, E, V, Seq<ConnectionEvt>>::Register(hnd, con) <==> evt
                == DriverEvt::<T, C, E, V>::Means(Some(PacketMeans::NewCon(hnd, con)))
            &&& act == DriverAct::<K, C, E, V, Seq<ConnectionEvt>>::PassOn(hnd, e) <==> evt
                == DriverEvt::<T, C, E, V>::Means(Some(PacketMeans::ConEvt(hnd, e)))
            &&& act == DriverAct::<K, C, E, V, Seq<ConnectionEvt>>::Fail(err) <==> evt
                == DriverEvt::<T, C, E, V>::Received(Poll::Ready(Err(err)))
        }),
{
    let (after, act) = d.next(evt);
    if let DriverEvt::Packet(Some(packet)) = evt {
        assert(after.pending_send.drop_last() =~= d.pending_send);
    }
    if let DriverAct::HandlePacket(packet) = act {
        assert(d.pending_recv =~= seq![packet] + after.pending_recv);
    }
}

/// The law of serving a connection: first it handles its timeout, exactly where
/// that is over; then packets are taken from it, as long as there is room and it
/// has some; then its next timeout is scheduled for the time that it said, anew
/// where there is a schedule; then the endpoint hears all that the connection
/// has for it and the connection all that the endpoint answers; then its events
/// are taken, and its datagrams dropped. Where the endpoint answered anything
/// the connection is served again before the next one.
pub proof fn law_driver_serves<K, T, C, E, V>(
    d: DriverState<K, T>,
    evt: DriverEvt<T, C, E, V>,
    at: Instant,
    e: E,
    v: V,
)
    requires
        d.wf(),
        d.expects(evt),
    ensures
        ({
            let (after, act) = d.next(evt);
            let again = evt == DriverEvt::<T, C, E, V>::Datagram(false) && d.loop_again;
            let serves = again || (evt matches DriverEvt::Con(Some(_)));
            let timer = match evt {
                DriverEvt::Con(Some(timer)) => timer,
                _ => d.timer,
            };
            let timeouts = serves && timer.timeout;
            let takes = serves && !timer.timeout || d.phase is ConTimeout || d.phase is ConTransmit
                && !(evt matches DriverEvt::Packet(None));
            &&& act is HandleTimeout <==> timeouts
            &&& after.timer.timeout <==> timer.timeout && !serves
            &&& act is PollTransmit <==> takes && after.pending_send.len() < d.capacity
            &&& act is PollTimeout <==> takes && after.pending_send.len() >= d.capacity
                || d.phase is ConTransmit && (evt matches DriverEvt::Packet(None))
            &&& act == DriverAct::<K, C, E, V, Seq<ConnectionEvt>>::Schedule(at)
                <==> !d.timer.scheduled && evt == DriverEvt::<T, C, E, V>::Timeout(Some(at))
            &&& act == DriverAct::<K, C, E, V, Seq<ConnectionEvt>>::Reschedule(at)
                <==> d.timer.scheduled && evt == DriverEvt::<T, C, E, V>::Timeout(Some(at))
            &&& after.timer.scheduled <==> timer.scheduled || (evt matches DriverEvt::Timeout(
                Some(_),
            ))
            &&& act is PollEpEvt <==> {
                ||| (evt matches DriverEvt::Timeout(None))
                ||| (evt matches DriverEvt::EpAnswer(None))
                ||| evt is Handled && (d.phase is ConSchedule || d.phase is ConEpEvts)
            }
            &&& act == DriverAct::<K, C, E, V, Seq<ConnectionEvt>>::HandleEpEvt(e) <==> evt
                == DriverEvt::<T, C, E, V>::EpEvt(Some(e))
            &&& act == DriverAct::<K, C, E, V, Seq<ConnectionEvt>>::HandleConEvt(v) <==> evt
                == DriverEvt::<T, C, E, V>::EpAnswer(Some(v))
            &&& act is PollEvent <==> (evt matches DriverEvt::EpEvt(None)) || (
            evt matches DriverEvt::Event(Some(_)))
            &&& act is DropDatagram <==> (evt matches DriverEvt::Event(None)) || evt
                == DriverEvt::<T, C, E, V>::Datagram(true)
            &&& after.loop_again <==> !serves && (d.loop_again || (
            evt matches DriverEvt::EpAnswer(Some(_))))
        }),
{
}

/// The law of events for the user of a connection: each is kept behind those
/// before it, as what it is; they are kept until the connection has been
/// served, and then all delivered at once, in their order.
pub proof fn law_driver_delivers<K, T, C, E, V>(d: DriverState<K, T>, evt: DriverEvt<T, C, E, V>)
    requires
        d.wf(),
        d.expects(evt),
    ensures
        ({
            let (after, act) = d.next(evt);
            let done = evt == DriverEvt::<T, C, E, V>::Datagram(false) && !d.loop_again;
            &&& match evt {
                DriverEvt::Event(Some(event)) => {
                    &&& after.con_evt_out.len() == d.con_evt_out.len() + 1
                    &&& after.con_evt_out.drop_last() == d.con_evt_out
                    &&& event is HandshakeDataReady ==> after.con_evt_out.last()
                        is HandshakeDataReady
                    &&& event is Connected ==> after.con_evt_out.last() is Connected
                    &&& event matches ConEvent::ConnectionLost(reason) ==> after.con_evt_out.last()
                        == ConnectionEvt::ConnectionLost(AqErr::Other(reason))
                },
                DriverEvt::Con(Some(_)) => after.con_evt_out.len() == 0,
                _ => after.con_evt_out == if act is Deliver {
                    Seq::empty()
                } else {
                    d.con_evt_out
                },
            }
            &&& act matches DriverAct::Deliver(evts) ==> {
                &&& done
                &&& evts == d.con_evt_out
            }
            &&& done && d.con_evt_out.len() > 0 ==> act is Deliver
            &&& done && d.con_evt_out.len() == 0 ==> act is NextCon
            &&& d.phase is ConDeliver ==> act is NextCon
        }),
{
    if let DriverEvt::Event(Some(event)) = evt {
        let after = d.next(evt).0;
        assert(after.con_evt_out.drop_last() =~= d.con_evt_out);
    }
}

/// The law of the end of a round: once no connection is left the endpoint is
/// asked for packets, as long as there is room and it has some, and then all
/// packets that wait are sent, as far as the socket takes them.
pub proof fn law_driver_sends<K, T, C, E, V>(d: DriverState<K, T>, evt: DriverEvt<T, C, E, V>)
    requires
        d.wf(),
        d.expects(evt),
    ensures
        ({
            let (after, act) = d.next(evt);
            let asks = (evt matches DriverEvt::Con(None)) || d.phase is Transmit && (
            evt matches DriverEvt::Packet(Some(_)));
            let over = d.phase is Transmit && (evt matches DriverEvt::Packet(None));
            &&& act is EpPollTransmit <==> asks && after.pending_send.len() < d.capacity
            &&& over || asks && after.pending_send.len() >= d.capacity ==> (act is PollSend
                <==> after.pending_send.len() > 0)
            &&& act is PollSend ==> asks || over || (evt matches DriverEvt::Sent(Poll::Ready(_)))
        }),
{
}

/// The law of waiting for a connection: the wait goes on exactly while handshake
/// data comes, and succeeds exactly with `Connected`; any other event comes back
/// as it is.
pub proof fn law_connected(evt: Option<ConnectionEvt>, r: Awaited)
    requires
        call_ensures(connected, (evt,), r),
    ensures
        r is Wait <==> (evt matches Some(ConnectionEvt::HandshakeDataReady)),
        r is Connected <==> (evt matches Some(ConnectionEvt::Connected)),
        r matches Awaited::Unexpected(it) ==> evt == Some(it),
        evt is None <==> r is End,
        r matches Awaited::End(err) ==> err == AqErr::AwaitingConnectedEnd,
{
}

/// The law of a new driver: nothing waits, and eight batches of packets may, each
/// way.
pub proof fn law_driver_new<K, T>(batch: usize, driver: DriverInner<K, T>)
    requires
        call_ensures(DriverInner::<K, T>::new, (batch,), driver),
    ensures
        driver@.capacity == 8 * batch,
        driver@.pending_send.len() == 0,
        driver@.pending_recv.len() == 0,
        driver@.con_evt_out.len() == 0,
        driver@.phase is Idle,
{
}

/// The law of remote addresses: who asks is told the address that the connection
/// has, and that there is no such connection exactly where there is none.
pub proof fn law_remote_addr(
    registered: Option<&Connection>,
    r: AqResult<core::net::SocketAddr>,
)
    requires
        call_ensures(con_remote_addr, (registered,), r),
    ensures
        r is Ok <==> registered is Some,
        r matches Ok(addr) ==> addr == proto::con_remote(*registered->0),
        r matches Err(err) ==> err == AqErr::InvalidConnectionHandle,
{
}

} // verus!
