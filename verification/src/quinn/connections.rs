//! All connections of an endpoint, one after the other: their commands, their
//! packets, their events and their end.
use super::proto::ConEvent;
use super::proto::ConStreamEvent;
use super::proto::StreamDir;
use crate::connection::ConnectionCmd;
use crate::connection::ConnectionEvt;
use crate::error::AqErr;
use crate::runtime::ChanResult;
use bytes::Bytes;
use std::collections::VecDeque;
use std::task::Poll;
use vstd::prelude::*;

verus! {

/// What is known of one connection. `R` and `W` are the user's ends of
/// streams, `U` and `B` requests for streams.
pub struct ConInfo<R, W, U, B> {
    /// the connection is to be closed once it has no streams
    pub want_close: bool,
    /// events that the user has to be told of
    pub evt_send_buf: VecDeque<ConnectionEvt<R, W>>,
    /// the request for a uni-directional stream that waits
    pub uni_out_buf: Option<U>,
    /// the request for a bi-directional stream that waits
    pub bi_buf: Option<B>,
}

/// A `ConInfo` as mathematics.
#[verifier::ext_equal]
pub struct ConInfoState<R, W, U, B> {
    /// the connection is to be closed once it has no streams
    pub want_close: bool,
    /// events that the user has to be told of
    pub evt_send_buf: Seq<ConnectionEvt<R, W>>,
    /// the request for a uni-directional stream that waits
    pub uni_out_buf: Option<U>,
    /// the request for a bi-directional stream that waits
    pub bi_buf: Option<B>,
}

impl<R, W, U, B> View for ConInfo<R, W, U, B> {
    type V = ConInfoState<R, W, U, B>;

    open spec fn view(&self) -> ConInfoState<R, W, U, B> {
        ConInfoState {
            want_close: self.want_close,
            evt_send_buf: self.evt_send_buf@,
            uni_out_buf: self.uni_out_buf,
            bi_buf: self.bi_buf,
        }
    }
}

/// Where the driver is with the connection at hand.
#[derive(Clone, Copy)]
pub enum ConsPhase {
    /// not begun
    Begin,
    /// the connection handles its timeout
    Timeout,
    /// commands are taken
    Cmds,
    /// packets are taken from the connection, so many more at most
    Transmit(usize),
    /// waits to hear of the next timeout
    NextTimeout,
    /// the endpoint is told
    EpEvts,
    /// the user is told of what waits
    Flush,
    /// events of the connection are taken
    Poll,
    /// incoming uni-directional streams are taken up
    Uni,
    /// incoming bi-directional streams are taken up
    Bi,
    /// streams are read and written
    Streams,
    /// the connection may have to be closed
    Close,
    /// done with the connection
    Over,
}

/// Drives all connections of an endpoint. `T` is a packet.
pub struct QuinnDriver<T> {
    /// how many packets, or events of one connection, may wait
    pub buf_cap: usize,
    /// packets that wait to be sent
    pub udp_send_buf: VecDeque<T>,
    /// the time for which waking up is scheduled
    pub next_timeout: u64,
    /// how many connections there are
    pub con_count: usize,
    /// something was done
    pub did_work: bool,
    /// the earliest timeout of the connections so far
    pub earliest: Option<u64>,
    /// where the driver is with the connection at hand
    pub phase: ConsPhase,
    /// the connection at hand had something to tell in this round
    pub did_poll: bool,
}

/// A `QuinnDriver` as mathematics.
#[verifier::ext_equal]
pub struct QuinnState<T> {
    /// how many packets, or events of one connection, may wait
    pub buf_cap: int,
    /// packets that wait to be sent
    pub udp_send_buf: Seq<T>,
    /// the time for which waking up is scheduled
    pub next_timeout: u64,
    /// how many connections there are
    pub con_count: int,
    /// something was done
    pub did_work: bool,
    /// the earliest timeout of the connections so far
    pub earliest: Option<u64>,
    /// where the driver is with the connection at hand
    pub phase: ConsPhase,
    /// the connection at hand had something to tell in this round
    pub did_poll: bool,
}

impl<T> View for QuinnDriver<T> {
    type V = QuinnState<T>;

    open spec fn view(&self) -> QuinnState<T> {
        QuinnState {
            buf_cap: self.buf_cap as int,
            udp_send_buf: self.udp_send_buf@,
            next_timeout: self.next_timeout,
            con_count: self.con_count as int,
            did_work: self.did_work,
            earliest: self.earliest,
            phase: self.phase,
            did_poll: self.did_poll,
        }
    }
}

/// What came of the last action. `A` asks for the remote address, `E` is an
/// event for the endpoint, `P` the permit to tell the user.
pub enum ConsEvt<T, A, U, B, E, P, R, W> {
    /// the connection's turn begins; whether it is drained
    Begin(bool),
    /// the last action is done
    Handled,
    /// the next command, if there is one
    Cmd(Poll<Option<ConnectionCmd<A, U, B>>>),
    /// whether a uni-directional stream could be opened for the request
    OpenedUni(U, Option<u64>),
    /// whether a bi-directional stream could be opened for the request
    OpenedBi(B, Option<u64>),
    /// the next packet of the connection, if it has one
    Packet(Option<T>),
    /// the next timeout of the connection, if it has one
    Timeout(Option<u64>),
    /// the next event for the endpoint, if there is one
    EpEvent(Option<E>),
    /// the answer to the request for a permit to tell the user
    Permit(Poll<ChanResult<P>>),
    /// the next event of the connection, if it has one
    Event(Option<ConEvent>),
    /// the next datagram, if there is one
    Datagram(Option<Bytes>),
    /// the next incoming uni-directional stream, taken up, if there is one
    InUni(Option<R>),
    /// the next incoming bi-directional stream, taken up, if there is one
    InBi(Option<(W, R)>),
    /// the streams are read and written: whether that did anything, and
    /// whether no stream is left
    StreamsDone(bool, bool),
    /// whether the connection is closed
    Closed(bool),
}

/// What to do next.
pub enum ConsAct<A, U, B, E, P, R, W> {
    /// the connection is done with for good
    Remove,
    /// let the connection handle its timeout
    HandleTimeout,
    /// see whether there is a command
    RecvCmd,
    /// answer with the remote address
    RemoteAddress(A),
    /// open a uni-directional stream for the request
    OpenUni(U),
    /// open a bi-directional stream for the request
    OpenBi(B),
    /// take up the new stream and answer the request
    IntakeUni(U, u64),
    /// take up the new stream and answer the request
    IntakeBi(B, u64),
    /// answer the request with an error
    RefuseUni(U, AqErr),
    /// answer the request with an error
    RefuseBi(B, AqErr),
    /// ask the connection for a packet
    PollTransmit,
    /// ask the connection for its next timeout
    PollTimeout,
    /// ask the connection for an event for the endpoint
    PollEpEvent,
    /// let the endpoint handle the event, and the connection the answer
    HandleEpEvent(E),
    /// ask for a permit to tell the user
    Acquire,
    /// tell the user
    Send(P, ConnectionEvt<R, W>),
    /// ask the connection for an event
    PollEvent,
    /// ask the connection for a datagram
    RecvDatagram,
    /// take up the next incoming stream, if there is one
    Accept(StreamDir),
    /// read and write the streams
    Streams,
    /// see whether the connection is closed
    CheckClosed,
    /// close the connection
    Close,
    /// done with the connection for now
    Done,
}

/// How many packets one connection may send before the next has its turn,
/// where `len < cap` packets wait already.
pub open spec fn loop_count(cap: int, len: int, con_count: int) -> int {
    let share = (cap - len) / (if con_count < 1 {
        1
    } else {
        con_count
    });
    if share < 1 {
        1
    } else {
        share
    }
}

/// The earlier of a time and one that may not be known.
pub open spec fn earlier(a: Option<u64>, b: Option<u64>) -> Option<u64> {
    match (a, b) {
        (Some(x), Some(y)) => if y < x {
            Some(y)
        } else {
            Some(x)
        },
        (None, _) => b,
        (_, None) => a,
    }
}

impl<T> QuinnState<T> {
    /// No more packets wait than may.
    pub open spec fn wf(self) -> bool {
        &&& self.udp_send_buf.len() <= self.buf_cap
        &&& self.phase matches ConsPhase::Transmit(left) ==> 0 < left && self.udp_send_buf.len()
            + left <= self.buf_cap
    }

    /// The driver in another phase.
    pub open spec fn at(self, phase: ConsPhase) -> QuinnState<T> {
        QuinnState { phase, ..self }
    }

    /// The driver after something was done.
    pub open spec fn worked(self) -> QuinnState<T> {
        QuinnState { did_work: true, ..self }
    }

    /// The driver after the connection at hand had something to tell.
    pub open spec fn polled(self) -> QuinnState<T> {
        QuinnState { did_work: true, did_poll: true, ..self }
    }

    /// The driver about to take packets from the connection.
    pub open spec fn to_transmit(self) -> QuinnState<T> {
        if self.udp_send_buf.len() < self.buf_cap {
            self.at(
                ConsPhase::Transmit(
                    loop_count(
                        self.buf_cap,
                        self.udp_send_buf.len() as int,
                        self.con_count,
                    ) as usize,
                ),
            )
        } else {
            self.at(ConsPhase::NextTimeout)
        }
    }

    /// The driver at the beginning of a round of events, where so many wait.
    pub open spec fn enter_flush(self, waiting: int) -> QuinnState<T> {
        let phase = if waiting > 0 {
            ConsPhase::Flush
        } else if waiting < self.buf_cap {
            ConsPhase::Poll
        } else {
            ConsPhase::Streams
        };
        QuinnState { phase, did_poll: false, ..self }
    }

    /// The driver at the end of a round of events: another follows where the
    /// connection had something to tell in this one.
    pub open spec fn end_round(self, waiting: int) -> QuinnState<T> {
        if self.did_poll {
            self.enter_flush(waiting)
        } else {
            self.at(ConsPhase::Streams)
        }
    }

    /// The driver in a phase that takes up what the user is to be told, unless
    /// too much waits already.
    pub open spec fn enter(self, phase: ConsPhase, waiting: int) -> QuinnState<T> {
        if waiting < self.buf_cap {
            self.at(phase)
        } else {
            self.end_round(waiting)
        }
    }

    /// What the driver does at the beginning of a phase.
    pub open spec fn begin<A, U, B, E, P, R, W>(self) -> ConsAct<A, U, B, E, P, R, W> {
        match self.phase {
            ConsPhase::Begin | ConsPhase::Timeout => ConsAct::HandleTimeout,
            ConsPhase::Cmds => ConsAct::RecvCmd,
            ConsPhase::Transmit(_) => ConsAct::PollTransmit,
            ConsPhase::NextTimeout => ConsAct::PollTimeout,
            ConsPhase::EpEvts => ConsAct::PollEpEvent,
            ConsPhase::Flush => ConsAct::Acquire,
            ConsPhase::Poll => ConsAct::PollEvent,
            ConsPhase::Uni => ConsAct::Accept(StreamDir::Uni),
            ConsPhase::Bi => ConsAct::Accept(StreamDir::Bi),
            ConsPhase::Streams => ConsAct::Streams,
            ConsPhase::Close => ConsAct::CheckClosed,
            ConsPhase::Over => ConsAct::Done,
        }
    }
}

impl<R, W, U, B> ConInfoState<R, W, U, B> {
    /// How many events wait.
    pub open spec fn waiting(self) -> int {
        self.evt_send_buf.len() as int
    }

    /// With one more event that the user has to be told of.
    pub open spec fn tell(self, evt: ConnectionEvt<R, W>) -> ConInfoState<R, W, U, B> {
        ConInfoState { evt_send_buf: self.evt_send_buf.push(evt), ..self }
    }
}

/// The driver, the connection at hand, and what to do next.
pub type ConsNext<T, A, U, B, E, P, R, W> = (
    QuinnState<T>,
    ConInfoState<R, W, U, B>,
    ConsAct<A, U, B, E, P, R, W>,
);

/// Both as they are, and the beginning of the phase.
pub open spec fn go<T, A, U, B, E, P, R, W>(
    d: QuinnState<T>,
    info: ConInfoState<R, W, U, B>,
) -> ConsNext<T, A, U, B, E, P, R, W> {
    (d, info, d.begin())
}

/// What a command means.
pub open spec fn on_cons_cmd<T, A, U, B, E, P, R, W>(
    d: QuinnState<T>,
    info: ConInfoState<R, W, U, B>,
    cmd: ConnectionCmd<A, U, B>,
) -> ConsNext<T, A, U, B, E, P, R, W> {
    match cmd {
        ConnectionCmd::GetRemoteAddress(rsp) => (d, info, ConsAct::RemoteAddress(rsp)),
        ConnectionCmd::OpenUniStream(req) => if info.want_close {
            (d, info, ConsAct::RefuseUni(req, AqErr::ConnectionClosing))
        } else {
            (d, info, ConsAct::OpenUni(req))
        },
        ConnectionCmd::OpenBiStream(req) => if info.want_close {
            (d, info, ConsAct::RefuseBi(req, AqErr::ConnectionClosing))
        } else {
            (d, info, ConsAct::OpenBi(req))
        },
    }
}

/// What an event of the connection means.
pub open spec fn on_cons_event<T, A, U, B, E, P, R, W>(
    d: QuinnState<T>,
    info: ConInfoState<R, W, U, B>,
    evt: ConEvent,
) -> ConsNext<T, A, U, B, E, P, R, W> {
    let more = d.enter(ConsPhase::Poll, info.waiting() + 1);
    match evt {
        ConEvent::HandshakeDataReady => go(more, info.tell(ConnectionEvt::HandshakeDataReady)),
        ConEvent::Connected => go(more, info.tell(ConnectionEvt::Connected)),
        ConEvent::ConnectionLost(reason) => go(
            more,
            ConInfoState { want_close: true, ..info }.tell(
                ConnectionEvt::Error(AqErr::Other(reason)),
            ),
        ),
        ConEvent::Stream(ConStreamEvent::Available(StreamDir::Uni)) => match info.uni_out_buf {
            Some(req) => (d, ConInfoState { uni_out_buf: None, ..info }, ConsAct::OpenUni(req)),
            None => go(d, info),
        },
        ConEvent::Stream(ConStreamEvent::Available(StreamDir::Bi)) => match info.bi_buf {
            Some(req) => (d, ConInfoState { bi_buf: None, ..info }, ConsAct::OpenBi(req)),
            None => go(d, info),
        },
        ConEvent::Stream(_) => go(d, info),
        ConEvent::DatagramReceived => (d, info, ConsAct::RecvDatagram),
    }
}

/// What the driver does next with the connection at hand, and both after that.
pub open spec fn cons_next<T, A, U, B, E, P, R, W>(
    d: QuinnState<T>,
    info: ConInfoState<R, W, U, B>,
    evt: ConsEvt<T, A, U, B, E, P, R, W>,
) -> ConsNext<T, A, U, B, E, P, R, W> {
    let waiting = info.waiting();
    match evt {
        ConsEvt::Begin(drained) => if drained && waiting == 0 {
            (d.worked().at(ConsPhase::Over), info, ConsAct::Remove)
        } else {
            go(d.at(ConsPhase::Timeout), info)
        },
        ConsEvt::Handled => match d.phase {
            ConsPhase::Timeout => go(d.at(ConsPhase::Cmds), info),
            ConsPhase::Flush => if waiting > 0 {
                go(d, info)
            } else {
                go(d.enter(ConsPhase::Poll, waiting), info)
            },
            ConsPhase::Close => go(d.at(ConsPhase::Over), info),
            _ => go(d, info),
        },
        ConsEvt::Cmd(Poll::Pending) => go(d.to_transmit(), info),
        ConsEvt::Cmd(Poll::Ready(None)) => go(
            d.to_transmit(),
            ConInfoState { want_close: true, ..info },
        ),
        ConsEvt::Cmd(Poll::Ready(Some(cmd))) => on_cons_cmd(d.worked(), info, cmd),
        ConsEvt::OpenedUni(req, Some(id)) => (d, info, ConsAct::IntakeUni(req, id)),
        ConsEvt::OpenedUni(req, None) => if d.phase is Poll {
            (d, info, ConsAct::RefuseUni(req, AqErr::UniStreamFailed))
        } else if info.uni_out_buf is Some {
            (d, info, ConsAct::RefuseUni(req, AqErr::UniStreamPending))
        } else {
            go(d, ConInfoState { uni_out_buf: Some(req), ..info })
        },
        ConsEvt::OpenedBi(req, Some(id)) => (d, info, ConsAct::IntakeBi(req, id)),
        ConsEvt::OpenedBi(req, None) => if d.phase is Poll {
            (d, info, ConsAct::RefuseBi(req, AqErr::BiStreamFailed))
        } else if info.bi_buf is Some {
            (d, info, ConsAct::RefuseBi(req, AqErr::BiStreamPending))
        } else {
            go(d, ConInfoState { bi_buf: Some(req), ..info })
        },
        ConsEvt::Packet(None) => go(d.at(ConsPhase::NextTimeout), info),
        ConsEvt::Packet(Some(packet)) => {
            let left = d.phase->Transmit_0;
            let sent = QuinnState { udp_send_buf: d.udp_send_buf.push(packet), ..d.worked() };
            if left > 1 {
                go(sent.at(ConsPhase::Transmit((left - 1) as usize)), info)
            } else {
                go(sent.at(ConsPhase::NextTimeout), info)
            }
        },
        ConsEvt::Timeout(time) => go(
            QuinnState { earliest: earlier(d.earliest, time), ..d }.at(ConsPhase::EpEvts),
            info,
        ),
        ConsEvt::EpEvent(Some(e)) => (d.worked(), info, ConsAct::HandleEpEvent(e)),
        ConsEvt::EpEvent(None) => go(d.enter_flush(waiting), info),
        ConsEvt::Permit(Poll::Pending) => go(d.enter(ConsPhase::Poll, waiting), info),
        ConsEvt::Permit(Poll::Ready(Err(_))) => go(
            d.enter(ConsPhase::Poll, waiting),
            ConInfoState { want_close: true, ..info },
        ),
        ConsEvt::Permit(Poll::Ready(Ok(permit))) => (
            d.polled(),
            ConInfoState { evt_send_buf: info.evt_send_buf.skip(1), ..info },
            ConsAct::Send(permit, info.evt_send_buf[0]),
        ),
        ConsEvt::Event(None) => go(d.enter(ConsPhase::Uni, waiting), info),
        ConsEvt::Event(Some(e)) => on_cons_event(d.polled(), info, e),
        ConsEvt::Datagram(None) => go(d, info),
        ConsEvt::Datagram(Some(data)) => go(
            d.enter(ConsPhase::Poll, waiting + 1),
            info.tell(ConnectionEvt::InDatagram(data)),
        ),
        ConsEvt::InUni(None) => go(d.enter(ConsPhase::Bi, waiting), info),
        ConsEvt::InUni(Some(rf)) => go(
            d.polled().enter(ConsPhase::Uni, waiting + 1),
            info.tell(ConnectionEvt::InUniStream(rf)),
        ),
        ConsEvt::InBi(None) => go(d.end_round(waiting), info),
        ConsEvt::InBi(Some((wf, rf))) => go(
            d.polled().enter(ConsPhase::Bi, waiting + 1),
            info.tell(ConnectionEvt::InBiStream(wf, rf)),
        ),
        ConsEvt::StreamsDone(did_work, empty) => {
            let after = QuinnState { did_work: d.did_work || did_work, ..d };
            if info.want_close && empty {
                go(after.at(ConsPhase::Close), info)
            } else {
                go(after.at(ConsPhase::Over), info)
            }
        },
        ConsEvt::Closed(true) => go(d.at(ConsPhase::Over), info),
        ConsEvt::Closed(false) => (d, info, ConsAct::Close),
    }
}

/// Whether the driver waits for this event. The other side stopping a stream
/// is none that it can deal with.
pub open spec fn cons_expects<T, A, U, B, E, P, R, W>(
    d: QuinnState<T>,
    info: ConInfoState<R, W, U, B>,
    evt: ConsEvt<T, A, U, B, E, P, R, W>,
) -> bool {
    match evt {
        ConsEvt::Begin(_) => d.phase is Begin,
        ConsEvt::Handled => {
            ||| d.phase is Timeout
            ||| d.phase is Cmds
            ||| d.phase is EpEvts
            ||| d.phase is Flush
            ||| d.phase is Poll
            ||| d.phase is Close
        },
        ConsEvt::Cmd(_) => d.phase is Cmds,
        ConsEvt::OpenedUni(..) | ConsEvt::OpenedBi(..) => d.phase is Cmds || d.phase is Poll,
        ConsEvt::Packet(_) => d.phase is Transmit,
        ConsEvt::Timeout(_) => d.phase is NextTimeout,
        ConsEvt::EpEvent(_) => d.phase is EpEvts,
        ConsEvt::Permit(_) => d.phase is Flush && info.waiting() > 0,
        ConsEvt::Event(e) => d.phase is Poll && info.waiting() < d.buf_cap && !(e matches Some(
            ConEvent::Stream(ConStreamEvent::Stopped(..)),
        )),
        ConsEvt::Datagram(_) => d.phase is Poll && info.waiting() < d.buf_cap,
        ConsEvt::InUni(_) => d.phase is Uni && info.waiting() < d.buf_cap,
        ConsEvt::InBi(_) => d.phase is Bi && info.waiting() < d.buf_cap,
        ConsEvt::StreamsDone(..) => d.phase is Streams,
        ConsEvt::Closed(_) => d.phase is Close,
    }
}

/// Whether the driver is where it hands out this action.
pub open spec fn cons_asks<T, A, U, B, E, P, R, W>(
    d: QuinnState<T>,
    info: ConInfoState<R, W, U, B>,
    act: ConsAct<A, U, B, E, P, R, W>,
) -> bool {
    &&& d.phase is Poll || d.phase is Uni || d.phase is Bi ==> info.waiting() < d.buf_cap
    &&& match act {
        ConsAct::HandleTimeout => d.phase is Timeout,
        ConsAct::RecvCmd | ConsAct::RemoteAddress(_) => d.phase is Cmds,
        ConsAct::OpenUni(_)
        | ConsAct::OpenBi(_)
        | ConsAct::IntakeUni(..)
        | ConsAct::IntakeBi(..)
        | ConsAct::RefuseUni(..)
        | ConsAct::RefuseBi(..) => d.phase is Cmds || d.phase is Poll,
        ConsAct::PollTransmit => d.phase is Transmit,
        ConsAct::PollTimeout => d.phase is NextTimeout,
        ConsAct::PollEpEvent | ConsAct::HandleEpEvent(_) => d.phase is EpEvts,
        ConsAct::Acquire => d.phase is Flush && info.waiting() > 0,
        ConsAct::Send(..) => d.phase is Flush,
        ConsAct::PollEvent | ConsAct::RecvDatagram => d.phase is Poll,
        ConsAct::Accept(StreamDir::Uni) => d.phase is Uni,
        ConsAct::Accept(StreamDir::Bi) => d.phase is Bi,
        ConsAct::Streams => d.phase is Streams,
        ConsAct::CheckClosed | ConsAct::Close => d.phase is Close,
        ConsAct::Remove | ConsAct::Done => d.phase is Over,
    }
}

/// Whether an event is of the kind that answers the action.
pub open spec fn cons_answers<T, A, U, B, E, P, R, W>(
    act: ConsAct<A, U, B, E, P, R, W>,
    evt: ConsEvt<T, A, U, B, E, P, R, W>,
) -> bool {
    match act {
        ConsAct::HandleTimeout
        | ConsAct::RemoteAddress(_)
        | ConsAct::IntakeUni(..)
        | ConsAct::IntakeBi(..)
        | ConsAct::RefuseUni(..)
        | ConsAct::RefuseBi(..)
        | ConsAct::HandleEpEvent(_)
        | ConsAct::Send(..)
        | ConsAct::Close => evt is Handled,
        ConsAct::RecvCmd => evt is Cmd,
        ConsAct::OpenUni(req) => evt matches ConsEvt::OpenedUni(q, _) && q == req,
        ConsAct::OpenBi(req) => evt matches ConsEvt::OpenedBi(q, _) && q == req,
        ConsAct::PollTransmit => evt is Packet,
        ConsAct::PollTimeout => evt is Timeout,
        ConsAct::PollEpEvent => evt is EpEvent,
        ConsAct::Acquire => evt is Permit,
        ConsAct::PollEvent => evt is Event && !(evt matches ConsEvt::Event(
            Some(ConEvent::Stream(ConStreamEvent::Stopped(..))),
        )),
        ConsAct::RecvDatagram => evt is Datagram,
        ConsAct::Accept(StreamDir::Uni) => evt is InUni,
        ConsAct::Accept(StreamDir::Bi) => evt is InBi,
        ConsAct::Streams => evt is StreamsDone,
        ConsAct::CheckClosed => evt is Closed,
        ConsAct::Remove | ConsAct::Done => false,
    }
}

/// The law of a connection's turn: what answers an action is what the driver
/// waits for, and it hands out the next action where that belongs; the turn
/// begins with the question whether the connection is drained.
pub proof fn law_cons_asks<T, A, U, B, E, P, R, W>(
    d: QuinnState<T>,
    info: ConInfoState<R, W, U, B>,
    act: ConsAct<A, U, B, E, P, R, W>,
    evt: ConsEvt<T, A, U, B, E, P, R, W>,
)
    requires
        cons_asks(d, info, act) && cons_answers(act, evt) || d.phase is Begin && evt is Begin,
    ensures
        cons_expects(d, info, evt),
        ({
            let (after, then, next) = cons_next(d, info, evt);
            cons_asks(after, then, next)
        }),
{
}

/// A connection's share of the packets fits what may still wait.
proof fn lemma_loop_count(cap: int, len: int, con_count: int)
    requires
        0 <= len < cap,
        con_count >= 0,
    ensures
        1 <= loop_count(cap, len, con_count) <= cap - len,
{
    let n = if con_count < 1 {
        1
    } else {
        con_count
    };
    let room = cap - len;
    assert(0 <= room / n <= room) by (nonlinear_arith)
        requires
            room >= 0,
            n >= 1,
    ;
}

/// The law of the connections' packets and events: never more packets wait to
/// be sent, and never more events of a connection wait for the user, than may;
/// and of each kind of stream at most one request waits, which is answered
/// when its stream is opened or turns out not to be to be had.
pub proof fn law_cons_bounds<T, A, U, B, E, P, R, W>(
    d: QuinnState<T>,
    info: ConInfoState<R, W, U, B>,
    evt: ConsEvt<T, A, U, B, E, P, R, W>,
)
    requires
        d.wf(),
        0 <= d.buf_cap <= usize::MAX,
        0 <= d.con_count,
        info.waiting() <= d.buf_cap,
        cons_expects(d, info, evt),
    ensures
        ({
            let (after, then, act) = cons_next(d, info, evt);
            &&& after.wf()
            &&& after.buf_cap == d.buf_cap
            &&& then.waiting() <= after.buf_cap
            &&& info.uni_out_buf is Some && then.uni_out_buf != info.uni_out_buf ==> act
                == ConsAct::<A, U, B, E, P, R, W>::OpenUni(info.uni_out_buf->0)
            &&& info.bi_buf is Some && then.bi_buf != info.bi_buf ==> act == ConsAct::<
                A,
                U,
                B,
                E,
                P,
                R,
                W,
            >::OpenBi(info.bi_buf->0)
        }),
{
    if d.udp_send_buf.len() < d.buf_cap {
        lemma_loop_count(d.buf_cap, d.udp_send_buf.len() as int, d.con_count);
    }
}

/// The law of a connection's end: it is removed only once it is drained and
/// the user was told everything, and closed only where it is to be closed, has
/// no streams left and is not closed yet. The wish to close is never taken
/// back, and events reach the user in the order in which they came.
pub proof fn law_cons_end<T, A, U, B, E, P, R, W>(
    d: QuinnState<T>,
    info: ConInfoState<R, W, U, B>,
    evt: ConsEvt<T, A, U, B, E, P, R, W>,
)
    requires
        cons_expects(d, info, evt),
    ensures
        ({
            let (after, then, act) = cons_next(d, info, evt);
            &&& act is Remove <==> evt == ConsEvt::<T, A, U, B, E, P, R, W>::Begin(true)
                && info.waiting() == 0
            &&& act is Close <==> evt == ConsEvt::<T, A, U, B, E, P, R, W>::Closed(false)
            &&& act is CheckClosed <==> info.want_close && (evt matches ConsEvt::StreamsDone(
                _,
                true,
            ))
            &&& info.want_close ==> then.want_close
            &&& d.did_work ==> after.did_work
            &&& act matches ConsAct::Send(_, e) ==> info.evt_send_buf == seq![e]
                + then.evt_send_buf
            &&& !(act is Send) ==> info.evt_send_buf.is_prefix_of(then.evt_send_buf)
        }),
{
    let (after, then, act) = cons_next(d, info, evt);
    if act is Send {
        assert(info.evt_send_buf =~= seq![info.evt_send_buf[0]] + info.evt_send_buf.skip(1));
    }
}

/// What is to be done once all connections had their turn.
#[derive(Debug, Clone, Copy, PartialEq, Eq, Structural)]
pub enum Disposition {
    /// something was done, so there may be more to do
    MoreWork,
    /// nothing was done
    PendOk,
}

impl<R, W, U, B> ConInfo<R, W, U, B> {
    /// A new connection.
    pub fn new() -> (r: Self)
        ensures
            r@ == (ConInfoState {
                want_close: false,
                evt_send_buf: Seq::<ConnectionEvt<R, W>>::empty(),
                uni_out_buf: None::<U>,
                bi_buf: None::<B>,
            }),
    {
        ConInfo {
            want_close: false,
            evt_send_buf: VecDeque::new(),
            uni_out_buf: None,
            bi_buf: None,
        }
    }
}

impl<T> QuinnDriver<T> {
    /// The driver of a new endpoint. `buf_cap` packets, and as many events of
    /// each connection, may wait.
    pub fn new(buf_cap: usize, now: u64) -> (r: Self)
        ensures
            r@.wf(),
            r.buf_cap == buf_cap,
            r.udp_send_buf@ == Seq::<T>::empty(),
            r.next_timeout == now,
            !r.did_work,
    {
        QuinnDriver {
            buf_cap,
            udp_send_buf: VecDeque::new(),
            next_timeout: now,
            con_count: 0,
            did_work: false,
            earliest: None,
            phase: ConsPhase::Begin,
            did_poll: false,
        }
    }

    /// Begin a turn of all connections.
    pub fn start(&mut self, con_count: usize)
        requires
            old(self)@.udp_send_buf.len() <= old(self).buf_cap,
        ensures
            final(self)@ == (QuinnState {
                con_count: con_count as int,
                did_work: false,
                earliest: None,
                phase: ConsPhase::Begin,
                ..old(self)@
            }),
            final(self)@.wf(),
    {
        self.con_count = con_count;
        self.did_work = false;
        self.earliest = None;
        self.phase = ConsPhase::Begin;
    }

    /// Begin the turn of the next connection.
    pub fn next_connection(&mut self)
        requires
            old(self)@.udp_send_buf.len() <= old(self).buf_cap,
        ensures
            final(self)@ == old(self)@.at(ConsPhase::Begin),
            final(self)@.wf(),
    {
        self.phase = ConsPhase::Begin;
    }

    /// All connections had their turn: the time to schedule waking up for, if
    /// it has to be scheduled anew, and whether there may be more to do.
    /// Waking up is scheduled for the earliest timeout, where that is still to
    /// come and nothing earlier is scheduled.
    pub fn finish(&mut self, now: u64) -> (r: (Option<u64>, Disposition))
        ensures
            r.1 == (if old(self).did_work {
                Disposition::MoreWork
            } else {
                Disposition::PendOk
            }),
            ({
                let due = old(self).earliest matches Some(time) && time > now && (
                old(self).next_timeout <= now || time < old(self).next_timeout);
                &&& due ==> r.0 == old(self).earliest && final(self)@ == (QuinnState {
                    next_timeout: old(self).earliest->0,
                    ..old(self)@
                })
                &&& !due ==> r.0 is None && final(self)@ == old(self)@
            }),
    {
        let disposition = if self.did_work {
            Disposition::MoreWork
        } else {
            Disposition::PendOk
        };
        if let Some(time) = self.earliest {
            if time > now && (self.next_timeout <= now || time < self.next_timeout) {
                self.next_timeout = time;
                return (Some(time), disposition);
            }
        }
        (None, disposition)
    }

    fn begin_act<A, U, B, E, P, R, W>(&self) -> (r: ConsAct<A, U, B, E, P, R, W>)
        ensures
            r == self@.begin::<A, U, B, E, P, R, W>(),
    {
        match self.phase {
            ConsPhase::Begin | ConsPhase::Timeout => ConsAct::HandleTimeout,
            ConsPhase::Cmds => ConsAct::RecvCmd,
            ConsPhase::Transmit(_) => ConsAct::PollTransmit,
            ConsPhase::NextTimeout => ConsAct::PollTimeout,
            ConsPhase::EpEvts => ConsAct::PollEpEvent,
            ConsPhase::Flush => ConsAct::Acquire,
            ConsPhase::Poll => ConsAct::PollEvent,
            ConsPhase::Uni => ConsAct::Accept(StreamDir::Uni),
            ConsPhase::Bi => ConsAct::Accept(StreamDir::Bi),
            ConsPhase::Streams => ConsAct::Streams,
            ConsPhase::Close => ConsAct::CheckClosed,
            ConsPhase::Over => ConsAct::Done,
        }
    }

    fn go_transmit(&mut self)
        requires
            old(self)@.udp_send_buf.len() <= old(self).buf_cap,
        ensures
            final(self)@ == old(self)@.to_transmit(),
    {
        let len: usize = self.udp_send_buf.len();
        if len < self.buf_cap {
            proof {
                lemma_loop_count(self.buf_cap as int, len as int, self.con_count as int);
            }
            let n: usize = if self.con_count < 1 {
                1
            } else {
                self.con_count
            };
            let share: usize = (self.buf_cap - len) / n;
            let left: usize = if share < 1 {
                1
            } else {
                share
            };
            self.phase = ConsPhase::Transmit(left);
        } else {
            self.phase = ConsPhase::NextTimeout;
        }
    }

    fn go_flush(&mut self, waiting: usize)
        ensures
            final(self)@ == old(self)@.enter_flush(waiting as int),
    {
        self.did_poll = false;
        if waiting > 0 {
            self.phase = ConsPhase::Flush;
        } else if waiting < self.buf_cap {
            self.phase = ConsPhase::Poll;
        } else {
            self.phase = ConsPhase::Streams;
        }
    }

    fn go_end_round(&mut self, waiting: usize)
        ensures
            final(self)@ == old(self)@.end_round(waiting as int),
    {
        if self.did_poll {
            self.go_flush(waiting);
        } else {
            self.phase = ConsPhase::Streams;
        }
    }

    fn go_enter(&mut self, phase: ConsPhase, waiting: usize)
        ensures
            final(self)@ == old(self)@.enter(phase, waiting as int),
    {
        if waiting < self.buf_cap {
            self.phase = phase;
        } else {
            self.go_end_round(waiting);
        }
    }

    fn take_cmd<A, U, B, E, P, R, W>(
        &self,
        info: &ConInfo<R, W, U, B>,
        cmd: ConnectionCmd<A, U, B>,
    ) -> (r: ConsAct<A, U, B, E, P, R, W>)
        ensures
            (self@, info@, r) == on_cons_cmd::<T, A, U, B, E, P, R, W>(self@, info@, cmd),
    {
        match cmd {
            ConnectionCmd::GetRemoteAddress(rsp) => ConsAct::RemoteAddress(rsp),
            ConnectionCmd::OpenUniStream(req) => {
                if info.want_close {
                    ConsAct::RefuseUni(req, AqErr::ConnectionClosing)
                } else {
                    ConsAct::OpenUni(req)
                }
            },
            ConnectionCmd::OpenBiStream(req) => {
                if info.want_close {
                    ConsAct::RefuseBi(req, AqErr::ConnectionClosing)
                } else {
                    ConsAct::OpenBi(req)
                }
            },
        }
    }

    fn tell<A, U, B, E, P, R, W>(
        &mut self,
        info: &mut ConInfo<R, W, U, B>,
        evt: ConnectionEvt<R, W>,
        phase: ConsPhase,
    ) -> (r: ConsAct<A, U, B, E, P, R, W>)
        ensures
            (final(self)@, final(info)@, r) == go::<T, A, U, B, E, P, R, W>(
                old(self)@.enter(phase, old(info)@.waiting() + 1),
                old(info)@.tell(evt),
            ),
    {
        info.evt_send_buf.push_back(evt);
        self.go_enter(phase, info.evt_send_buf.len());
        self.begin_act()
    }

    fn take_event<A, U, B, E, P, R, W>(
        &mut self,
        info: &mut ConInfo<R, W, U, B>,
        evt: ConEvent,
    ) -> (r: ConsAct<A, U, B, E, P, R, W>)
        ensures
            (final(self)@, final(info)@, r) == on_cons_event::<T, A, U, B, E, P, R, W>(
                old(self)@,
                old(info)@,
                evt,
            ),
    {
        match evt {
            ConEvent::HandshakeDataReady => self.tell(
                info,
                ConnectionEvt::HandshakeDataReady,
                ConsPhase::Poll,
            ),
            ConEvent::Connected => self.tell(info, ConnectionEvt::Connected, ConsPhase::Poll),
            ConEvent::ConnectionLost(reason) => {
                info.want_close = true;
                self.tell(info, ConnectionEvt::Error(AqErr::Other(reason)), ConsPhase::Poll)
            },
            ConEvent::Stream(ConStreamEvent::Available(StreamDir::Uni)) => {
                match info.uni_out_buf.take() {
                    Some(req) => ConsAct::OpenUni(req),
                    None => self.begin_act(),
                }
            },
            ConEvent::Stream(ConStreamEvent::Available(StreamDir::Bi)) => {
                match info.bi_buf.take() {
                    Some(req) => ConsAct::OpenBi(req),
                    None => self.begin_act(),
                }
            },
            ConEvent::Stream(_) => self.begin_act(),
            ConEvent::DatagramReceived => ConsAct::RecvDatagram,
        }
    }

    /// Go one step on with the connection at hand.
    pub fn poll_connections<A, U, B, E, P, R, W>(
        &mut self,
        info: &mut ConInfo<R, W, U, B>,
        evt: ConsEvt<T, A, U, B, E, P, R, W>,
    ) -> (r: ConsAct<A, U, B, E, P, R, W>)
        requires
            old(self)@.wf(),
            old(info)@.waiting() <= old(self).buf_cap,
            cons_expects(old(self)@, old(info)@, evt),
        ensures
            (final(self)@, final(info)@, r) == cons_next(old(self)@, old(info)@, evt),
            final(self)@.wf(),
            final(info)@.waiting() <= final(self).buf_cap,
    {
        proof {
            law_cons_bounds(self@, info@, evt);
        }
        let waiting: usize = info.evt_send_buf.len();
        match evt {
            ConsEvt::Begin(drained) => {
                if drained && waiting == 0 {
                    self.did_work = true;
                    self.phase = ConsPhase::Over;
                    return ConsAct::Remove;
                }
                self.phase = ConsPhase::Timeout;
            },
            ConsEvt::Handled => {
                match self.phase {
                    ConsPhase::Timeout => self.phase = ConsPhase::Cmds,
                    ConsPhase::Flush => {
                        if waiting == 0 {
                            self.go_enter(ConsPhase::Poll, waiting);
                        }
                    },
                    ConsPhase::Close => self.phase = ConsPhase::Over,
                    _ => {},
                }
            },
            ConsEvt::Cmd(Poll::Pending) => self.go_transmit(),
            ConsEvt::Cmd(Poll::Ready(None)) => {
                info.want_close = true;
                self.go_transmit();
            },
            ConsEvt::Cmd(Poll::Ready(Some(cmd))) => {
                self.did_work = true;
                return self.take_cmd(info, cmd);
            },
            ConsEvt::OpenedUni(req, Some(id)) => return ConsAct::IntakeUni(req, id),
            ConsEvt::OpenedUni(req, None) => {
                if matches!(self.phase, ConsPhase::Poll) {
                    return ConsAct::RefuseUni(req, AqErr::UniStreamFailed);
                } else if info.uni_out_buf.is_some() {
                    return ConsAct::RefuseUni(req, AqErr::UniStreamPending);
                }
                info.uni_out_buf = Some(req);
            },
            ConsEvt::OpenedBi(req, Some(id)) => return ConsAct::IntakeBi(req, id),
            ConsEvt::OpenedBi(req, None) => {
                if matches!(self.phase, ConsPhase::Poll) {
                    return ConsAct::RefuseBi(req, AqErr::BiStreamFailed);
                } else if info.bi_buf.is_some() {
                    return ConsAct::RefuseBi(req, AqErr::BiStreamPending);
                }
                info.bi_buf = Some(req);
            },
            ConsEvt::Packet(None) => self.phase = ConsPhase::NextTimeout,
            ConsEvt::Packet(Some(packet)) => {
                self.did_work = true;
                self.udp_send_buf.push_back(packet);
                self.phase =
                match self.phase {
                    ConsPhase::Transmit(left) if left > 1 => ConsPhase::Transmit(left - 1),
                    _ => ConsPhase::NextTimeout,
                };
            },
            ConsEvt::Timeout(time) => {
                if let Some(time) = time {
                    match self.earliest {
                        Some(cur) => {
                            if time < cur {
                                self.earliest = Some(time);
                            }
                        },
                        None => self.earliest = Some(time),
                    }
                }
                self.phase = ConsPhase::EpEvts;
            },
            ConsEvt::EpEvent(Some(e)) => {
                self.did_work = true;
                return ConsAct::HandleEpEvent(e);
            },
            ConsEvt::EpEvent(None) => self.go_flush(waiting),
            ConsEvt::Permit(Poll::Pending) => self.go_enter(ConsPhase::Poll, waiting),
            ConsEvt::Permit(Poll::Ready(Err(_))) => {
                info.want_close = true;
                self.go_enter(ConsPhase::Poll, waiting);
            },
            ConsEvt::Permit(Poll::Ready(Ok(permit))) => {
                self.did_work = true;
                self.did_poll = true;
                let e = info.evt_send_buf.pop_front().unwrap();
                assert(info.evt_send_buf@ =~= old(info)@.evt_send_buf.skip(1));
                return ConsAct::Send(permit, e);
            },
            ConsEvt::Event(None) => self.go_enter(ConsPhase::Uni, waiting),
            ConsEvt::Event(Some(e)) => {
                self.did_work = true;
                self.did_poll = true;
                return self.take_event(info, e);
            },
            ConsEvt::Datagram(None) => {},
            ConsEvt::Datagram(Some(data)) => {
                return self.tell(info, ConnectionEvt::InDatagram(data), ConsPhase::Poll);
            },
            ConsEvt::InUni(None) => self.go_enter(ConsPhase::Bi, waiting),
            ConsEvt::InUni(Some(rf)) => {
                self.did_work = true;
                self.did_poll = true;
                return self.tell(info, ConnectionEvt::InUniStream(rf), ConsPhase::Uni);
            },
            ConsEvt::InBi(None) => self.go_end_round(waiting),
            ConsEvt::InBi(Some((wf, rf))) => {
                self.did_work = true;
                self.did_poll = true;
                return self.tell(info, ConnectionEvt::InBiStream(wf, rf), ConsPhase::Bi);
            },
            ConsEvt::StreamsDone(did_work, empty) => {
                self.did_work = self.did_work || did_work;
                if info.want_close && empty {
                    self.phase = ConsPhase::Close;
                } else {
                    self.phase = ConsPhase::Over;
                }
            },
            ConsEvt::Closed(true) => self.phase = ConsPhase::Over,
            ConsEvt::Closed(false) => return ConsAct::Close,
        }
        self.begin_act()
    }
}

/// The law of requests for uni-directional streams: each is answered, or
/// waits, and never both. One that comes is refused where the connection is
/// closing; else a stream is opened for it. Where there is one, it is taken up
/// for that very request; where there is none, the request waits if none waits
/// already, and is refused if one does, or if it waited before. One that waits
/// stays until the connection says that a stream may be had, and a stream is
/// opened for it then.
pub proof fn law_cons_uni<T, A, U, B, E, P, R, W>(
    d: QuinnState<T>,
    info: ConInfoState<R, W, U, B>,
    evt: ConsEvt<T, A, U, B, E, P, R, W>,
    req: U,
    id: u64,
)
    requires
        cons_expects(d, info, evt),
    ensures
        ({
            let (after, then, act) = cons_next(d, info, evt);
            let came = evt == ConsEvt::<T, A, U, B, E, P, R, W>::Cmd(
                Poll::Ready(Some(ConnectionCmd::OpenUniStream(req))),
            );
            let available = evt == ConsEvt::<T, A, U, B, E, P, R, W>::Event(
                Some(ConEvent::Stream(ConStreamEvent::Available(StreamDir::Uni))),
            );
            let none = evt == ConsEvt::<T, A, U, B, E, P, R, W>::OpenedUni(req, None);
            &&& act == ConsAct::<A, U, B, E, P, R, W>::OpenUni(req) <==> {
                ||| came && !info.want_close
                ||| available && info.uni_out_buf == Some(req)
            }
            &&& act == ConsAct::<A, U, B, E, P, R, W>::IntakeUni(req, id) <==> evt == ConsEvt::<T, A, U, B, E, P, R, W>::OpenedUni(
                req,
                Some(id),
            )
            &&& came && info.want_close ==> act == ConsAct::<A, U, B, E, P, R, W>::RefuseUni(
                req,
                AqErr::ConnectionClosing,
            )
            &&& none ==> {
                ||| d.phase is Poll && act == ConsAct::<A, U, B, E, P, R, W>::RefuseUni(req, AqErr::UniStreamFailed)
                ||| d.phase is Cmds && info.uni_out_buf is Some && act == ConsAct::<A, U, B, E, P, R, W>::RefuseUni(
                    req,
                    AqErr::UniStreamPending,
                )
                ||| d.phase is Cmds && info.uni_out_buf is None && then.uni_out_buf == Some(req)
                    && act is RecvCmd
            }
            &&& act matches ConsAct::RefuseUni(refused, _) ==> {
                ||| info.want_close && evt == ConsEvt::<T, A, U, B, E, P, R, W>::Cmd(
                    Poll::Ready(Some(ConnectionCmd::OpenUniStream(refused))),
                )
                ||| evt == ConsEvt::<T, A, U, B, E, P, R, W>::OpenedUni(refused, None)
            }
            &&& then.uni_out_buf == match info.uni_out_buf {
                Some(waits) => if available {
                    None
                } else {
                    Some(waits)
                },
                None => match evt {
                    ConsEvt::OpenedUni(asked, None) => if d.phase is Poll {
                        None
                    } else {
                        Some(asked)
                    },
                    _ => None,
                },
            }
        }),
{
}

/// The law of requests for bi-directional streams: each is answered, or
/// waits, and never both. One that comes is refused where the connection is
/// closing; else a stream is opened for it. Where there is one, it is taken up
/// for that very request; where there is none, the request waits if none waits
/// already, and is refused if one does, or if it waited before. One that waits
/// stays until the connection says that a stream may be had, and a stream is
/// opened for it then.
pub proof fn law_cons_bi<T, A, U, B, E, P, R, W>(
    d: QuinnState<T>,
    info: ConInfoState<R, W, U, B>,
    evt: ConsEvt<T, A, U, B, E, P, R, W>,
    req: B,
    id: u64,
)
    requires
        cons_expects(d, info, evt),
    ensures
        ({
            let (after, then, act) = cons_next(d, info, evt);
            let came = evt == ConsEvt::<T, A, U, B, E, P, R, W>::Cmd(
                Poll::Ready(Some(ConnectionCmd::OpenBiStream(req))),
            );
            let available = evt == ConsEvt::<T, A, U, B, E, P, R, W>::Event(
                Some(ConEvent::Stream(ConStreamEvent::Available(StreamDir::Bi))),
            );
            let none = evt == ConsEvt::<T, A, U, B, E, P, R, W>::OpenedBi(req, None);
            &&& act == ConsAct::<A, U, B, E, P, R, W>::OpenBi(req) <==> {
                ||| came && !info.want_close
                ||| available && info.bi_buf == Some(req)
            }
            &&& act == ConsAct::<A, U, B, E, P, R, W>::IntakeBi(req, id) <==> evt == ConsEvt::<T, A, U, B, E, P, R, W>::OpenedBi(
                req,
                Some(id),
            )
            &&& came && info.want_close ==> act == ConsAct::<A, U, B, E, P, R, W>::RefuseBi(
                req,
                AqErr::ConnectionClosing,
            )
            &&& none ==> {
                ||| d.phase is Poll && act == ConsAct::<A, U, B, E, P, R, W>::RefuseBi(req, AqErr::BiStreamFailed)
                ||| d.phase is Cmds && info.bi_buf is Some && act == ConsAct::<A, U, B, E, P, R, W>::RefuseBi(
                    req,
                    AqErr::BiStreamPending,
                )
                ||| d.phase is Cmds && info.bi_buf is None && then.bi_buf == Some(req)
                    && act is RecvCmd
            }
            &&& act matches ConsAct::RefuseBi(refused, _) ==> {
                ||| info.want_close && evt == ConsEvt::<T, A, U, B, E, P, R, W>::Cmd(
                    Poll::Ready(Some(ConnectionCmd::OpenBiStream(refused))),
                )
                ||| evt == ConsEvt::<T, A, U, B, E, P, R, W>::OpenedBi(refused, None)
            }
            &&& then.bi_buf == match info.bi_buf {
                Some(waits) => if available {
                    None
                } else {
                    Some(waits)
                },
                None => match evt {
                    ConsEvt::OpenedBi(asked, None) => if d.phase is Poll {
                        None
                    } else {
                        Some(asked)
                    },
                    _ => None,
                },
            }
        }),
{
}

/// The law of telling the user: what the connection gave goes behind all that
/// waits, as what it is; only the first that waits leaves, and it is what the
/// user is sent, with the permit that was given. Nothing is lost, doubled or
/// passed by another.
pub proof fn law_cons_told<T, A, U, B, E, P, R, W>(
    d: QuinnState<T>,
    info: ConInfoState<R, W, U, B>,
    evt: ConsEvt<T, A, U, B, E, P, R, W>,
)
    requires
        cons_expects(d, info, evt),
    ensures
        ({
            let (after, then, act) = cons_next(d, info, evt);
            let was = info.evt_send_buf;
            let now = then.evt_send_buf;
            let added = now.len() == was.len() + 1 && now.drop_last() == was;
            match evt {
                ConsEvt::Event(Some(ConEvent::HandshakeDataReady)) => added && now.last()
                    is HandshakeDataReady,
                ConsEvt::Event(Some(ConEvent::Connected)) => added && now.last() is Connected,
                ConsEvt::Event(Some(ConEvent::ConnectionLost(reason))) => added && now.last()
                    == ConnectionEvt::<R, W>::Error(AqErr::Other(reason)),
                ConsEvt::Datagram(Some(data)) => added && now.last() == ConnectionEvt::<
                    R,
                    W,
                >::InDatagram(data),
                ConsEvt::InUni(Some(rf)) => added && now.last() == ConnectionEvt::<
                    R,
                    W,
                >::InUniStream(rf),
                ConsEvt::InBi(Some((wf, rf))) => added && now.last() == ConnectionEvt::<
                    R,
                    W,
                >::InBiStream(wf, rf),
                ConsEvt::Permit(Poll::Ready(Ok(permit))) => {
                    &&& act matches ConsAct::Send(p, told)
                    &&& p == permit
                    &&& was == seq![told] + now
                },
                _ => now == was && !(act is Send),
            }
        }),
{
    let (after, then, act) = cons_next(d, info, evt);
    if then.evt_send_buf.len() > info.evt_send_buf.len() {
        assert(then.evt_send_buf.drop_last() =~= info.evt_send_buf);
    }
    if let ConsEvt::Permit(Poll::Ready(Ok(_))) = evt {
        let was = info.evt_send_buf;
        assert(was =~= seq![was[0]] + was.skip(1));
    }
}

/// The law of what is noted: a connection is to be closed once no command will
/// come, the user takes no events, or it was lost; work was done exactly where
/// something came; a packet goes behind those that wait; the earliest timeout
/// is no later than any that was told, and one of them.
pub proof fn law_cons_noted<T, A, U, B, E, P, R, W>(
    d: QuinnState<T>,
    info: ConInfoState<R, W, U, B>,
    evt: ConsEvt<T, A, U, B, E, P, R, W>,
)
    requires
        cons_expects(d, info, evt),
    ensures
        ({
            let (after, then, act) = cons_next(d, info, evt);
            let told = (evt matches ConsEvt::Permit(Poll::Ready(Ok(_)))) || (
            evt matches ConsEvt::Event(Some(_))) || (evt matches ConsEvt::InUni(Some(_))) || (
            evt matches ConsEvt::InBi(Some(_)));
            &&& then.want_close <==> {
                ||| info.want_close
                ||| evt == ConsEvt::<T, A, U, B, E, P, R, W>::Cmd(Poll::Ready(None))
                ||| (evt matches ConsEvt::Permit(Poll::Ready(Err(_))))
                ||| (evt matches ConsEvt::Event(Some(ConEvent::ConnectionLost(_))))
            }
            &&& after.did_work <==> {
                ||| d.did_work
                ||| told
                ||| act is Remove
                ||| (evt matches ConsEvt::Cmd(Poll::Ready(Some(_))))
                ||| (evt matches ConsEvt::Packet(Some(_)))
                ||| (evt matches ConsEvt::EpEvent(Some(_)))
                ||| (evt matches ConsEvt::StreamsDone(true, _))
            }
            &&& after.did_poll ==> d.did_poll || told
            &&& match evt {
                ConsEvt::Packet(Some(packet)) => {
                    &&& after.udp_send_buf.len() == d.udp_send_buf.len() + 1
                    &&& after.udp_send_buf.drop_last() == d.udp_send_buf
                    &&& after.udp_send_buf.last() == packet
                },
                _ => after.udp_send_buf == d.udp_send_buf,
            }
            &&& match evt {
                ConsEvt::Timeout(Some(time)) => {
                    &&& after.earliest matches Some(first)
                    &&& first <= time
                    &&& d.earliest matches Some(was) ==> first <= was
                    &&& first == time || d.earliest == Some(first)
                },
                _ => after.earliest == d.earliest,
            }
            &&& after.next_timeout == d.next_timeout
            &&& after.con_count == d.con_count
            &&& after.buf_cap == d.buf_cap
        }),
{
    let after = cons_next(d, info, evt).0;
    if let ConsEvt::Packet(Some(_)) = evt {
        assert(after.udp_send_buf.drop_last() =~= d.udp_send_buf);
    }
}

/// The law of the first half of a connection's turn: a connection that is
/// drained leaves once the user was told everything; any other handles its
/// timeout; then commands are taken until none is there; then packets, where
/// there is room, until there is none or its share is used up, which is the
/// room by the number of connections, and at least one; then its timeout is
/// asked for, and then all that it has for the endpoint is handled.
pub proof fn law_cons_outward<T, A, U, B, E, P, R, W>(
    d: QuinnState<T>,
    info: ConInfoState<R, W, U, B>,
    evt: ConsEvt<T, A, U, B, E, P, R, W>,
    rsp: A,
    e: E,
)
    requires
        d.wf(),
        d.buf_cap <= usize::MAX,
        0 <= d.con_count,
        cons_expects(d, info, evt),
    ensures
        ({
            let (after, then, act) = cons_next(d, info, evt);
            let room = d.buf_cap - d.udp_send_buf.len();
            let no_cmd = (evt matches ConsEvt::Cmd(r) && !(r matches Poll::Ready(Some(_))));
            let more = (evt matches ConsEvt::Packet(Some(_))) && (
            d.phase matches ConsPhase::Transmit(left) && left > 1);
            &&& act is Remove <==> evt == ConsEvt::<T, A, U, B, E, P, R, W>::Begin(true) && info.evt_send_buf.len() == 0
            &&& act is HandleTimeout <==> evt is Begin && !(act is Remove)
            &&& d.phase is Timeout ==> act is RecvCmd
            &&& d.phase is Cmds && evt is Handled ==> act is RecvCmd
            &&& d.phase is Cmds && !no_cmd ==> after.phase is Cmds
            &&& act == ConsAct::<A, U, B, E, P, R, W>::RemoteAddress(rsp) <==> evt == ConsEvt::<T, A, U, B, E, P, R, W>::Cmd(
                Poll::Ready(Some(ConnectionCmd::GetRemoteAddress(rsp))),
            )
            &&& act is PollTransmit <==> no_cmd && room > 0 || more
            &&& act is PollTimeout <==> no_cmd && room <= 0 || evt is Packet && !more
            &&& no_cmd && room > 0 ==> {
                &&& after.phase matches ConsPhase::Transmit(share)
                &&& 1 <= share <= room
                &&& d.con_count <= 1 ==> share == room
                &&& d.con_count > 1 ==> (share - 1) * d.con_count < room && room < (share + 1)
                    * d.con_count
                &&& d.con_count > 1 && share > 1 ==> share * d.con_count <= room
            }
            &&& more ==> after.phase == ConsPhase::Transmit((d.phase->Transmit_0 - 1) as usize)
            &&& evt is Timeout ==> act is PollEpEvent
            &&& d.phase is EpEvts && evt is Handled ==> act is PollEpEvent
            &&& act == ConsAct::<A, U, B, E, P, R, W>::HandleEpEvent(e) <==> evt == ConsEvt::<T, A, U, B, E, P, R, W>::EpEvent(Some(e))
        }),
{
    let room = d.buf_cap - d.udp_send_buf.len();
    if room > 0 {
        lemma_loop_count(d.buf_cap, d.udp_send_buf.len() as int, d.con_count);
        let n = if d.con_count < 1 {
            1
        } else {
            d.con_count
        };
        let share = room / n;
        assert(share * n <= room < (share + 1) * n) by (nonlinear_arith)
            requires
                share == room / n,
                n >= 1,
                room > 0,
        ;
        assert((share - 1) * n <= share * n) by (nonlinear_arith)
            requires
                n >= 1,
        ;
        assert((share - 1) * n == share * n - n) by (nonlinear_arith);
        if n == 1 {
            assert(share * 1 == share && (share + 1) * 1 == share + 1);
        }
        if share < 1 {
            assert(1 * n == n && (1 - 1) * n == 0 && (1 + 1) * n == 2 * n) by (nonlinear_arith);
            assert((share + 1) * n <= n) by (nonlinear_arith)
                requires
                    share < 1,
                    n >= 1,
            ;
        }
    }
}

/// The law of the second half of a connection's turn: round by round, the user
/// is told of what waits, as long as the user takes it; then events are taken,
/// then streams that go one way, then those that go both, each until there is
/// none, and none of it once as much waits for the user as may. Another round
/// follows exactly where something came in this one. Then the streams are read
/// and written, and where the connection is to be closed and has no streams it
/// is closed, unless it is already.
pub proof fn law_cons_inward<T, A, U, B, E, P, R, W>(
    d: QuinnState<T>,
    info: ConInfoState<R, W, U, B>,
    evt: ConsEvt<T, A, U, B, E, P, R, W>,
)
    requires
        d.wf(),
        0 < d.buf_cap <= usize::MAX,
        info.evt_send_buf.len() <= d.buf_cap,
        cons_expects(d, info, evt),
        evt is OpenedUni || evt is OpenedBi || evt is Handled ==> d.phase is Poll
            ==> info.evt_send_buf.len() < d.buf_cap,
    ensures
        ({
            let (after, then, act) = cons_next(d, info, evt);
            let waiting = then.evt_send_buf.len();
            let full = waiting >= d.buf_cap;
            let told = (evt matches ConsEvt::Permit(Poll::Ready(Ok(_)))) || (
            evt matches ConsEvt::Event(Some(_))) || (evt matches ConsEvt::InUni(Some(_))) || (
            evt matches ConsEvt::InBi(Some(_)));
            let begins = evt == ConsEvt::<T, A, U, B, E, P, R, W>::EpEvent(None);
            let denied = evt is Permit && !(act is Send);
            let flushed = d.phase is Flush && evt is Handled && waiting == 0;
            let ends = full && (denied || evt is Event || evt is Datagram || evt is InUni
                || evt is InBi) && !(act is RecvDatagram || act is OpenUni || act is OpenBi) || evt
                == ConsEvt::<T, A, U, B, E, P, R, W>::InBi(None);
            &&& begins || ends && (d.did_poll || told) ==> {
                &&& !after.did_poll
                &&& if waiting > 0 {
                    act is Acquire
                } else {
                    act is PollEvent
                }
            }
            &&& ends && !(d.did_poll || told) ==> act is Streams
            &&& act is Streams ==> ends && !(d.did_poll || told)
            &&& d.phase is Flush && evt is Handled && waiting > 0 ==> act is Acquire
            &&& (flushed || denied) && !full ==> act is PollEvent
            &&& d.phase is Poll && !ends && evt != ConsEvt::<T, A, U, B, E, P, R, W>::Event(None) ==> after.phase is Poll && (
            act is PollEvent || act is RecvDatagram || act is OpenUni || act is OpenBi
                || act is IntakeUni || act is IntakeBi || act is RefuseUni || act is RefuseBi)
            &&& d.phase is Poll && evt is Handled ==> act is PollEvent
            &&& act is RecvDatagram <==> evt == ConsEvt::<T, A, U, B, E, P, R, W>::Event(Some(ConEvent::DatagramReceived))
            &&& act == ConsAct::<A, U, B, E, P, R, W>::Accept(StreamDir::Uni) <==> !full && (evt == ConsEvt::<T, A, U, B, E, P, R, W>::Event(None) || (
            evt matches ConsEvt::InUni(Some(_))))
            &&& act == ConsAct::<A, U, B, E, P, R, W>::Accept(StreamDir::Bi) <==> !full && (evt == ConsEvt::<T, A, U, B, E, P, R, W>::InUni(None) || (
            evt matches ConsEvt::InBi(Some(_))))
            &&& !ends && !begins ==> after.did_poll == (d.did_poll || told)
            &&& evt matches ConsEvt::StreamsDone(_, empty) ==> if info.want_close && empty {
                act is CheckClosed
            } else {
                act is Done
            }
            &&& act is CheckClosed ==> evt is StreamsDone
            &&& act is Close <==> evt == ConsEvt::<T, A, U, B, E, P, R, W>::Closed(false)
            &&& evt == ConsEvt::<T, A, U, B, E, P, R, W>::Closed(true) || d.phase is Close && evt is Handled ==> act is Done
            &&& act is Done ==> d.phase is Streams || d.phase is Close
        }),
{
}

/// The law of waking up: once all connections had their turn, waking up is
/// scheduled for a time that is still to come and no later than the earliest
/// timeout, where that is still to come; it is scheduled anew only for that
/// timeout, and only where nothing earlier is scheduled. There may be more to do
/// exactly where something was done.
pub proof fn law_wakes<T>()
    ensures
        forall|a: &mut QuinnDriver<T>, now: u64, r: (Option<u64>, Disposition)| #[trigger]
            call_ensures(QuinnDriver::<T>::finish, (a, now), r) ==> {
                let next = final(a).next_timeout;
                &&& r.1 is MoreWork <==> a.did_work
                &&& a.earliest matches Some(time) ==> time > now ==> now < next <= time
                &&& r.0 matches Some(time) ==> {
                    &&& time > now
                    &&& a.earliest == Some(time)
                    &&& next == time
                    &&& a.next_timeout <= now || time < a.next_timeout
                }
                &&& r.0 is None ==> next == a.next_timeout
                &&& final(a).udp_send_buf@ == a.udp_send_buf@
            },
{
}

/// The law of a turn of all connections: it begins with nothing done and no
/// timeout known, and keeps the packets that wait and what is scheduled; the
/// turn of the next connection keeps all that.
pub proof fn law_cons_begin<T>()
    ensures
        forall|a: &mut QuinnDriver<T>, count: usize| #[trigger]
            call_ensures(QuinnDriver::<T>::start, (a, count), ()) ==> {
                &&& !final(a).did_work
                &&& final(a).earliest is None
                &&& final(a).con_count == count
                &&& final(a).phase is Begin
                &&& final(a).udp_send_buf@ == a.udp_send_buf@
                &&& final(a).next_timeout == a.next_timeout
                &&& final(a).buf_cap == a.buf_cap
            },
        forall|a: &mut QuinnDriver<T>| #[trigger]
            call_ensures(QuinnDriver::<T>::next_connection, (a,), ()) ==> {
                &&& final(a).phase is Begin
                &&& final(a).did_work == a.did_work
                &&& final(a).earliest == a.earliest
                &&& final(a).con_count == a.con_count
                &&& final(a).udp_send_buf@ == a.udp_send_buf@
                &&& final(a).next_timeout == a.next_timeout
                &&& final(a).buf_cap == a.buf_cap
            },
{
    assert forall|a: &mut QuinnDriver<T>, count: usize| #[trigger]
        call_ensures(QuinnDriver::<T>::start, (a, count), ()) implies final(a)@
        == (QuinnState {
        con_count: count as int,
        did_work: false,
        earliest: None,
        phase: ConsPhase::Begin,
        ..a@
    }) by {}
    assert forall|a: &mut QuinnDriver<T>| #[trigger]
        call_ensures(QuinnDriver::<T>::next_connection, (a,), ()) implies final(a)@ == a@.at(
        ConsPhase::Begin,
    ) by {}
}

} // verus!
