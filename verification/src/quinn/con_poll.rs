//! Telling the user what happened on a connection.
use super::calls;
use super::calls::ConCall;
use super::proto::ConEvent;
use super::proto::ConStreamEvent;
use super::proto::StreamDir;
use super::stream;
use super::stream::ReadEnd;
use super::stream::StreamInfo;
use super::streams;
use super::streams::finish_stream;
use super::streams::mark_readable;
use super::streams::mark_writable;
use super::streams::register_bi;
use super::streams::register_uni_in;
use super::streams::stop_stream;
use super::streams::StreamMap;
use super::streams::StreamPairs;
use super::Wish;
use super::BYTES_CAP;
use super::ROUNDS;
use crate::connection::ConnectionEvt;
use crate::error::AqErr;
use crate::runtime::ChanResult;
use crate::runtime::MultiSend;
use crate::runtime::MultiSender;
use crate::runtime::MultiSenderPoll;
use crate::runtime::OnceSend;
use bytes::Bytes;
use quinn_proto::Connection;
use std::task::Context;
use std::task::Poll;
use vstd::prelude::*;

verus! {

/// What may be waiting on a connection: each is taken for granted until it
/// turns out that nothing is there, and again when an event says so.
#[derive(Clone, Copy)]
pub struct ConFlags {
    /// datagrams
    pub inbound_datagrams: bool,
    /// incoming uni-directional streams
    pub inbound_uni: bool,
    /// incoming bi-directional streams
    pub inbound_bi: bool,
    /// room for outgoing uni-directional streams
    pub outbound_uni: bool,
    /// room for outgoing bi-directional streams
    pub outbound_bi: bool,
}

impl ConFlags {
    /// Everything may be waiting.
    pub fn new() -> (r: Self)
        ensures
            r == (ConFlags {
                inbound_datagrams: true,
                inbound_uni: true,
                inbound_bi: true,
                outbound_uni: true,
                outbound_bi: true,
            }),
    {
        ConFlags {
            inbound_datagrams: true,
            inbound_uni: true,
            inbound_bi: true,
            outbound_uni: true,
            outbound_bi: true,
        }
    }
}

/// What a turn is looking for.
#[derive(Clone, Copy)]
pub enum PollPhase {
    /// events of the connection
    Events,
    /// datagrams
    Datagrams,
    /// incoming uni-directional streams
    Uni,
    /// incoming bi-directional streams
    Bi,
    /// nothing more
    Over,
}

impl PollPhase {
    /// How many phases are still to come.
    pub open spec fn rank(self) -> int {
        match self {
            PollPhase::Events => 4,
            PollPhase::Datagrams => 3,
            PollPhase::Uni => 2,
            PollPhase::Bi => 1,
            PollPhase::Over => 0,
        }
    }

    /// The phase after this one.
    pub open spec fn spec_after(self) -> PollPhase {
        match self {
            PollPhase::Events => PollPhase::Datagrams,
            PollPhase::Datagrams => PollPhase::Uni,
            PollPhase::Uni => PollPhase::Bi,
            PollPhase::Bi => PollPhase::Over,
            PollPhase::Over => PollPhase::Over,
        }
    }

    /// Whether there may be something for this phase.
    pub open spec fn spec_wanted(self, flags: ConFlags) -> bool {
        match self {
            PollPhase::Events => true,
            PollPhase::Datagrams => flags.inbound_datagrams,
            PollPhase::Uni => flags.inbound_uni,
            PollPhase::Bi => flags.inbound_bi,
            PollPhase::Over => false,
        }
    }

    fn after(self) -> (r: PollPhase)
        ensures
            r == self.spec_after(),
    {
        match self {
            PollPhase::Events => PollPhase::Datagrams,
            PollPhase::Datagrams => PollPhase::Uni,
            PollPhase::Uni => PollPhase::Bi,
            PollPhase::Bi => PollPhase::Over,
            PollPhase::Over => PollPhase::Over,
        }
    }

    fn wanted(self, flags: ConFlags) -> (r: bool)
        ensures
            r == self.spec_wanted(flags),
    {
        match self {
            PollPhase::Events => true,
            PollPhase::Datagrams => flags.inbound_datagrams,
            PollPhase::Uni => flags.inbound_uni,
            PollPhase::Bi => flags.inbound_bi,
            PollPhase::Over => false,
        }
    }
}

/// One turn at telling the user. `P` is the permit to do so.
pub struct ConPollTurn<P> {
    /// the user takes no events any more
    pub closed: bool,
    /// for the next event
    pub permit: Option<P>,
    /// what may be waiting
    pub flags: ConFlags,
    /// what the turn is looking for
    pub phase: PollPhase,
    /// how much may still be taken up in this phase
    pub left: u8,
    /// something was taken up
    pub more_work: bool,
    /// the user took no events when the turn began
    pub want_close: bool,
}

/// What came of the last action of a turn.
pub enum ConPollEvt<P> {
    /// the turn begins, or what was taken up is dealt with
    Next,
    /// the answer to the request for a permit
    Permit(Poll<ChanResult<P>>),
    /// the next event of the connection, if it has one
    Event(Option<ConEvent>),
    /// the next datagram, if there is one
    Datagram(Option<Bytes>),
    /// the next incoming stream, if there is one
    Stream(Option<u64>),
}

/// What to do next in a turn. `R` and `W` are the user's ends of streams.
pub enum ConPollAct<P, R, W> {
    /// ask for a permit
    Acquire,
    /// ask the connection for an event
    PollEvent,
    /// ask the connection for a datagram
    RecvDatagram,
    /// ask the connection for an incoming stream
    Accept(StreamDir),
    /// tell the user
    Send(P, ConnectionEvt<R, W>),
    /// take up a new incoming stream, and tell the user where there is a permit
    Register(StreamDir, u64, Option<P>),
    /// the stream may have data to read
    Readable(u64),
    /// data may be written to the stream
    Writable(u64),
    /// the stream is over
    Finished(u64),
    /// the other side stopped the stream, with this code
    Stopped(u64, u64),
    /// nothing
    Skip,
    /// the turn is over
    Done(Wish),
}

impl<P> ConPollTurn<P> {
    /// The turn in its next phase.
    pub open spec fn next_phase(self) -> ConPollTurn<P> {
        ConPollTurn { phase: self.phase.spec_after(), left: ROUNDS, ..self }
    }

    /// Whether the phase goes on.
    pub open spec fn goes_on(self) -> bool {
        self.left > 0 && self.phase.spec_wanted(self.flags)
    }

    /// The turn in the first phase that goes on.
    pub open spec fn settled(self) -> ConPollTurn<P>
        decreases self.phase.rank(),
    {
        if self.phase is Over || self.goes_on() {
            self
        } else {
            self.next_phase().settled()
        }
    }

    /// What the phase asks the connection for.
    pub open spec fn ask<R, W>(self) -> ConPollAct<P, R, W> {
        match self.phase {
            PollPhase::Events => ConPollAct::PollEvent,
            PollPhase::Datagrams => ConPollAct::RecvDatagram,
            PollPhase::Uni => ConPollAct::Accept(StreamDir::Uni),
            PollPhase::Bi => ConPollAct::Accept(StreamDir::Bi),
            PollPhase::Over => ConPollAct::Done(
                Wish { more_work: self.more_work, want_close: self.want_close },
            ),
        }
    }

    /// What a turn that has settled does: it sees to a permit first, unless
    /// nobody is told any more.
    pub open spec fn begin<R, W>(self) -> ConPollAct<P, R, W> {
        if self.phase !is Over && self.permit is None && !self.closed {
            ConPollAct::Acquire
        } else {
            self.ask()
        }
    }

    /// The turn after something was taken up.
    pub open spec fn took(self) -> ConPollTurn<P> {
        ConPollTurn { more_work: true, left: (self.left - 1) as u8, ..self }
    }

    /// Telling the user, where there is a permit.
    pub open spec fn try_send<R, W>(self, evt: ConnectionEvt<R, W>) -> (
        ConPollTurn<P>,
        ConPollAct<P, R, W>,
    ) {
        match self.permit {
            Some(permit) => (
                ConPollTurn { permit: None, ..self },
                ConPollAct::Send(permit, evt),
            ),
            None => (self, ConPollAct::Skip),
        }
    }

    /// What an event of the connection means.
    pub open spec fn on_event<R, W>(self, evt: ConEvent) -> (
        ConPollTurn<P>,
        ConPollAct<P, R, W>,
    ) {
        match evt {
            ConEvent::HandshakeDataReady => self.try_send(ConnectionEvt::HandshakeDataReady),
            ConEvent::Connected => self.try_send(ConnectionEvt::Connected),
            ConEvent::ConnectionLost(reason) => self.try_send(
                ConnectionEvt::Error(AqErr::Other(reason)),
            ),
            ConEvent::DatagramReceived => (
                ConPollTurn {
                    flags: ConFlags { inbound_datagrams: true, ..self.flags },
                    ..self
                },
                ConPollAct::Skip,
            ),
            ConEvent::Stream(ConStreamEvent::Opened(StreamDir::Uni)) => (
                ConPollTurn { flags: ConFlags { inbound_uni: true, ..self.flags }, ..self },
                ConPollAct::Skip,
            ),
            ConEvent::Stream(ConStreamEvent::Opened(StreamDir::Bi)) => (
                ConPollTurn { flags: ConFlags { inbound_bi: true, ..self.flags }, ..self },
                ConPollAct::Skip,
            ),
            ConEvent::Stream(ConStreamEvent::Available(StreamDir::Uni)) => (
                ConPollTurn { flags: ConFlags { outbound_uni: true, ..self.flags }, ..self },
                ConPollAct::Skip,
            ),
            ConEvent::Stream(ConStreamEvent::Available(StreamDir::Bi)) => (
                ConPollTurn { flags: ConFlags { outbound_bi: true, ..self.flags }, ..self },
                ConPollAct::Skip,
            ),
            ConEvent::Stream(ConStreamEvent::Readable(id)) => (self, ConPollAct::Readable(id)),
            ConEvent::Stream(ConStreamEvent::Writable(id)) => (self, ConPollAct::Writable(id)),
            ConEvent::Stream(ConStreamEvent::Finished(id)) => (self, ConPollAct::Finished(id)),
            ConEvent::Stream(ConStreamEvent::Stopped(id, code)) => (
                self,
                ConPollAct::Stopped(id, code),
            ),
        }
    }

    /// The flags once nothing was there for the phase.
    pub open spec fn flags_without(self) -> ConFlags {
        match self.phase {
            PollPhase::Datagrams => ConFlags { inbound_datagrams: false, ..self.flags },
            PollPhase::Uni => ConFlags { inbound_uni: false, ..self.flags },
            PollPhase::Bi => ConFlags { inbound_bi: false, ..self.flags },
            _ => self.flags,
        }
    }

    /// The turn after nothing was there for the phase.
    pub open spec fn nothing_there(self) -> ConPollTurn<P> {
        ConPollTurn { flags: self.flags_without(), ..self }.next_phase().settled()
    }

    /// What a turn does next, and the turn after that.
    pub open spec fn next<R, W>(self, evt: ConPollEvt<P>) -> (
        ConPollTurn<P>,
        ConPollAct<P, R, W>,
    ) {
        match evt {
            ConPollEvt::Next => (self.settled(), self.settled().begin()),
            ConPollEvt::Permit(Poll::Pending) => (
                self.next_phase().settled(),
                self.next_phase().settled().begin(),
            ),
            ConPollEvt::Permit(Poll::Ready(Err(_))) => (
                ConPollTurn { closed: true, ..self },
                self.ask(),
            ),
            ConPollEvt::Permit(Poll::Ready(Ok(permit))) => (
                ConPollTurn { permit: Some(permit), ..self },
                self.ask(),
            ),
            ConPollEvt::Event(None) | ConPollEvt::Datagram(None) | ConPollEvt::Stream(None) => (
                self.nothing_there(),
                self.nothing_there().begin(),
            ),
            ConPollEvt::Event(Some(evt)) => self.took().on_event(evt),
            ConPollEvt::Datagram(Some(data)) => self.took().try_send(
                ConnectionEvt::InDatagram(data),
            ),
            ConPollEvt::Stream(Some(id)) => (
                ConPollTurn { permit: None, ..self.took() },
                ConPollAct::Register(
                    (if self.phase is Uni {
                        StreamDir::Uni
                    } else {
                        StreamDir::Bi
                    }),
                    id,
                    self.permit,
                ),
            ),
        }
    }

    /// A turn at its beginning.
    pub open spec fn spec_new(closed: bool, flags: ConFlags) -> ConPollTurn<P> {
        ConPollTurn {
            closed,
            permit: None,
            flags,
            phase: PollPhase::Events,
            left: ROUNDS,
            more_work: false,
            want_close: closed,
        }
    }

    /// Begin a turn.
    pub fn new(closed: bool, flags: ConFlags) -> (r: Self)
        ensures
            r == Self::spec_new(closed, flags),
    {
        ConPollTurn {
            closed,
            permit: None,
            flags,
            phase: PollPhase::Events,
            left: ROUNDS,
            more_work: false,
            want_close: closed,
        }
    }

    fn settle(&mut self)
        ensures
            *final(self) == old(self).settled(),
        decreases old(self).phase.rank(),
    {
        if !(matches!(self.phase, PollPhase::Over) || (self.left > 0 && self.phase.wanted(
            self.flags,
        ))) {
            self.phase = self.phase.after();
            self.left = ROUNDS;
            self.settle();
        }
    }

    fn ask_for<R, W>(&self) -> (r: ConPollAct<P, R, W>)
        ensures
            r == self.ask::<R, W>(),
    {
        match self.phase {
            PollPhase::Events => ConPollAct::PollEvent,
            PollPhase::Datagrams => ConPollAct::RecvDatagram,
            PollPhase::Uni => ConPollAct::Accept(StreamDir::Uni),
            PollPhase::Bi => ConPollAct::Accept(StreamDir::Bi),
            PollPhase::Over => ConPollAct::Done(
                Wish { more_work: self.more_work, want_close: self.want_close },
            ),
        }
    }

    fn begin_with<R, W>(&self) -> (r: ConPollAct<P, R, W>)
        ensures
            r == self.begin::<R, W>(),
    {
        if !matches!(self.phase, PollPhase::Over) && self.permit.is_none() && !self.closed {
            ConPollAct::Acquire
        } else {
            self.ask_for()
        }
    }

    fn send_or_skip<R, W>(&mut self, evt: ConnectionEvt<R, W>) -> (r: ConPollAct<P, R, W>)
        ensures
            (*final(self), r) == old(self).try_send(evt),
    {
        match self.permit.take() {
            Some(permit) => ConPollAct::Send(permit, evt),
            None => ConPollAct::Skip,
        }
    }

    /// Take up an event of the connection.
    pub fn handle_event<R, W>(&mut self, evt: ConEvent) -> (r: ConPollAct<P, R, W>)
        ensures
            (*final(self), r) == old(self).on_event::<R, W>(evt),
    {
        match evt {
            ConEvent::HandshakeDataReady => self.send_or_skip(ConnectionEvt::HandshakeDataReady),
            ConEvent::Connected => self.send_or_skip(ConnectionEvt::Connected),
            ConEvent::ConnectionLost(reason) => self.send_or_skip(
                ConnectionEvt::Error(AqErr::Other(reason)),
            ),
            ConEvent::DatagramReceived => {
                self.flags.inbound_datagrams = true;
                ConPollAct::Skip
            },
            ConEvent::Stream(ConStreamEvent::Opened(StreamDir::Uni)) => {
                self.flags.inbound_uni = true;
                ConPollAct::Skip
            },
            ConEvent::Stream(ConStreamEvent::Opened(StreamDir::Bi)) => {
                self.flags.inbound_bi = true;
                ConPollAct::Skip
            },
            ConEvent::Stream(ConStreamEvent::Available(StreamDir::Uni)) => {
                self.flags.outbound_uni = true;
                ConPollAct::Skip
            },
            ConEvent::Stream(ConStreamEvent::Available(StreamDir::Bi)) => {
                self.flags.outbound_bi = true;
                ConPollAct::Skip
            },
            ConEvent::Stream(ConStreamEvent::Readable(id)) => ConPollAct::Readable(id),
            ConEvent::Stream(ConStreamEvent::Writable(id)) => ConPollAct::Writable(id),
            ConEvent::Stream(ConStreamEvent::Finished(id)) => ConPollAct::Finished(id),
            ConEvent::Stream(ConStreamEvent::Stopped(id, code)) => ConPollAct::Stopped(id, code),
        }
    }

    fn enter_next<R, W>(&mut self) -> (r: ConPollAct<P, R, W>)
        ensures
            *final(self) == old(self).next_phase().settled(),
            r == final(self).begin::<R, W>(),
    {
        self.phase = self.phase.after();
        self.left = ROUNDS;
        self.settle();
        self.begin_with()
    }

    fn drop_flag(&mut self)
        ensures
            *final(self) == (ConPollTurn { flags: old(self).flags_without(), ..*old(self) }),
    {
        match self.phase {
            PollPhase::Datagrams => self.flags.inbound_datagrams = false,
            PollPhase::Uni => self.flags.inbound_uni = false,
            PollPhase::Bi => self.flags.inbound_bi = false,
            _ => {},
        }
    }

    /// Go one step on in the turn.
    pub fn step<R, W>(&mut self, evt: ConPollEvt<P>) -> (r: ConPollAct<P, R, W>)
        requires
            evt is Event || evt is Datagram || evt is Stream ==> old(self).left > 0,
        ensures
            (*final(self), r) == old(self).next::<R, W>(evt),
    {
        match evt {
            ConPollEvt::Next => {
                self.settle();
                self.begin_with()
            },
            ConPollEvt::Permit(Poll::Pending) => self.enter_next(),
            ConPollEvt::Permit(Poll::Ready(Err(_))) => {
                self.closed = true;
                self.ask_for()
            },
            ConPollEvt::Permit(Poll::Ready(Ok(permit))) => {
                self.permit = Some(permit);
                self.ask_for()
            },
            ConPollEvt::Event(None) | ConPollEvt::Datagram(None) | ConPollEvt::Stream(None) => {
                self.drop_flag();
                self.enter_next()
            },
            ConPollEvt::Event(Some(evt)) => {
                self.more_work = true;
                self.left = self.left - 1;
                self.handle_event(evt)
            },
            ConPollEvt::Datagram(Some(data)) => {
                self.more_work = true;
                self.left = self.left - 1;
                self.send_or_skip(ConnectionEvt::InDatagram(data))
            },
            ConPollEvt::Stream(Some(id)) => {
                self.more_work = true;
                self.left = self.left - 1;
                let permit = self.permit.take();
                let dir = match self.phase {
                    PollPhase::Uni => StreamDir::Uni,
                    _ => StreamDir::Bi,
                };
                ConPollAct::Register(dir, id, permit)
            },
        }
    }
}

/// Settling goes forward through the phases and changes nothing else.
proof fn lemma_settled<P>(turn: ConPollTurn<P>)
    ensures
        turn.settled().phase.rank() <= turn.phase.rank(),
        turn.settled().phase.rank() == turn.phase.rank() ==> turn.settled() == turn,
        turn.settled() == (ConPollTurn {
            phase: turn.settled().phase,
            left: turn.settled().left,
            ..turn
        }),
        turn.settled().phase is Over || turn.settled().goes_on(),
    decreases turn.phase.rank(),
{
    if !(turn.phase is Over || turn.goes_on()) {
        lemma_settled(turn.next_phase());
    }
}

/// Whether a turn can be in this state when it hands out this action: what is
/// asked for belongs to the phase, and there is a permit to tell the user, or
/// nobody to tell.
pub open spec fn turn_ok<P, R, W>(turn: ConPollTurn<P>, act: ConPollAct<P, R, W>) -> bool {
    &&& act is Acquire || act is PollEvent || act is RecvDatagram || act is Accept ==> turn.left > 0
    &&& act is Acquire ==> turn.permit is None && !turn.closed && turn.goes_on()
    &&& act is PollEvent ==> turn.phase is Events
    &&& act is RecvDatagram ==> turn.phase is Datagrams && turn.flags.inbound_datagrams
    &&& act matches ConPollAct::Accept(dir) ==> {
        ||| dir is Uni && turn.phase is Uni && turn.flags.inbound_uni
        ||| dir is Bi && turn.phase is Bi && turn.flags.inbound_bi
    }
    &&& act is PollEvent || act is RecvDatagram || act is Accept ==> turn.permit is Some
        || turn.closed
    &&& act matches ConPollAct::Done(wish) ==> wish == (Wish {
        more_work: turn.more_work,
        want_close: turn.want_close,
    })
}

/// Whether an event answers an action.
pub open spec fn answers<P, R, W>(act: ConPollAct<P, R, W>, evt: ConPollEvt<P>) -> bool {
    match act {
        ConPollAct::Acquire => evt is Permit,
        ConPollAct::PollEvent => evt is Event,
        ConPollAct::RecvDatagram => evt is Datagram,
        ConPollAct::Accept(_) => evt is Stream,
        ConPollAct::Done(_) => false,
        _ => evt is Next,
    }
}

/// How far a turn is from its end.
pub open spec fn distance<P, R, W>(act: ConPollAct<P, R, W>) -> int {
    match act {
        ConPollAct::Done(_) => 0,
        ConPollAct::PollEvent => 1,
        ConPollAct::RecvDatagram => 1,
        ConPollAct::Accept(_) => 1,
        ConPollAct::Acquire => 2,
        _ => 3,
    }
}

/// The law of a turn at telling the user: every step keeps the turn in order
/// and brings it nearer to its end; nothing is taken up unless the user can be
/// told or is gone; what has been lowered or closed is not raised but by an
/// event that says so.
pub proof fn law_con_poll_turn<P, R, W>(
    turn: ConPollTurn<P>,
    act: ConPollAct<P, R, W>,
    evt: ConPollEvt<P>,
)
    requires
        turn_ok(turn, act),
        answers(act, evt),
    ensures
        ({
            let (after, then) = turn.next::<R, W>(evt);
            &&& turn_ok(after, then)
            &&& decreases_to!(turn.phase.rank(), turn.left as int, distance(act) => after.phase.rank(), after.left as int, distance(then))
            &&& turn.closed ==> after.closed
            &&& after.want_close == turn.want_close
            &&& turn.more_work ==> after.more_work
            &&& after.more_work && !turn.more_work ==> distance(then) == 3
            &&& distance(then) == 3 ==> after.more_work
            &&& !(evt is Event) ==> {
                &&& after.flags.outbound_uni == turn.flags.outbound_uni
                &&& after.flags.outbound_bi == turn.flags.outbound_bi
                &&& after.flags.inbound_datagrams ==> turn.flags.inbound_datagrams
                &&& after.flags.inbound_uni ==> turn.flags.inbound_uni
                &&& after.flags.inbound_bi ==> turn.flags.inbound_bi
            }
            &&& evt matches ConPollEvt::Event(None) ==> after.flags == turn.flags
        }),
{
    lemma_settled(turn);
    lemma_settled(turn.next_phase());
    lemma_settled(ConPollTurn { flags: turn.flags_without(), ..turn }.next_phase());
}

/// A turn that is not given a permit goes on to the next phase, and asks for one
/// there or is over; it takes nothing up.
pub proof fn law_denied<P, R, W>(turn: ConPollTurn<P>)
    requires
        turn.permit is None,
        !turn.closed,
    ensures
        ({
            let (after, then) = turn.next::<R, W>(ConPollEvt::Permit(Poll::Pending));
            &&& after.flags == turn.flags
            &&& !after.closed
            &&& after.more_work == turn.more_work
            &&& after.want_close == turn.want_close
            &&& after.permit is None
            &&& then is Acquire || then is Done
        }),
{
    lemma_settled(turn.next_phase());
}

/// A step of a turn: what came of its last action, the call of the connection
/// that it took, if any, and what it left of the sender, the streams and the
/// connection.
#[verifier::reject_recursive_types(R)]
#[verifier::reject_recursive_types(W)]
#[verifier::reject_recursive_types(S)]
#[verifier::reject_recursive_types(RB)]
#[verifier::reject_recursive_types(WB)]
pub struct ConPollStep<R, W, S: MultiSend<ConnectionEvt<R, W>>, RB, WB> {
    /// what came of it
    pub evt: ConPollEvt<S::Permit>,
    /// the call that it took
    pub call: Option<ConCall>,
    /// the sender after it
    pub send: MultiSenderPoll<ConnectionEvt<R, W>, S>,
    /// the streams after it
    pub streams: Map<u64, StreamInfo<RB, WB>>,
    /// the connection after it
    pub con: Connection,
}

/// The call of the connection that an action takes, if any, where `evt` is what
/// came of it.
pub open spec fn call_of<P, R, W>(act: ConPollAct<P, R, W>, evt: ConPollEvt<P>) -> Option<ConCall> {
    match act {
        ConPollAct::PollEvent => Some(ConCall::PollEvent(evt->Event_0)),
        ConPollAct::RecvDatagram => Some(ConCall::RecvDatagram(evt->Datagram_0)),
        ConPollAct::Accept(dir) => Some(ConCall::Accept(dir, evt->Stream_0)),
        _ => None,
    }
}

/// Whether no permit was to be had in any of the steps.
pub open spec fn denied<R, W, S: MultiSend<ConnectionEvt<R, W>>, RB, WB>(
    steps: Seq<ConPollStep<R, W, S, RB, WB>>,
) -> bool {
    forall|i: int|
        0 <= i < steps.len() ==> ((#[trigger] steps[i].evt) matches ConPollEvt::Permit(r)
            ==> r is Pending)
}

/// Tells the user what happened on a connection.
#[verifier::reject_recursive_types(R)]
#[verifier::reject_recursive_types(W)]
#[verifier::reject_recursive_types(S)]
pub struct ConPollDriver<R, W, S: MultiSend<ConnectionEvt<R, W>>> {
    /// where events go
    pub con_evt_send: MultiSenderPoll<ConnectionEvt<R, W>, S>,
    /// the user takes no events any more
    pub con_evt_send_closed: bool,
}

impl<R, W, S: MultiSend<ConnectionEvt<R, W>>> ConPollDriver<R, W, S> {
    /// The driver of a new connection.
    pub fn new(con_evt_send: MultiSender<ConnectionEvt<R, W>, S>) -> (r: Self)
        ensures
            r.con_evt_send.send == con_evt_send,
            !r.con_evt_send_closed,
    {
        ConPollDriver {
            con_evt_send: MultiSenderPoll::new(con_evt_send),
            con_evt_send_closed: false,
        }
    }

    /// Whether a new stream was taken up, and the user told of it where there
    /// is a permit, and given the ends of it that are the user's.
    pub open spec fn took_up<M: StreamPairs<ReadFront = R, WriteFront = W>>(
        pairs: M,
        before: Map<u64, StreamInfo<M::ReadBack, M::WriteBack>>,
        after: Map<u64, StreamInfo<M::ReadBack, M::WriteBack>>,
        dir: StreamDir,
        id: u64,
        permit: Option<S::Permit>,
    ) -> bool {
        match dir {
            StreamDir::Uni => exists|rf: R|
                {
                    &&& #[trigger] streams::took_uni_in(pairs, before, after, id, rf)
                    &&& permit matches Some(p) ==> call_ensures(
                        S::Permit::send,
                        (p, ConnectionEvt::InUniStream(rf)),
                        (),
                    )
                },
            StreamDir::Bi => exists|fronts: (W, R)|
                {
                    &&& #[trigger] streams::took_bi(pairs, before, after, id, fronts)
                    &&& permit matches Some(p) ==> call_ensures(
                        S::Permit::send,
                        (p, ConnectionEvt::InBiStream(fronts.0, fronts.1)),
                        (),
                    )
                },
        }
    }

    /// Whether an action was done after the step `prev`, and `step` is what came
    /// of it. Where no call was made the connection is what it was.
    pub open spec fn did<M: StreamPairs<ReadFront = R, WriteFront = W>>(
        pairs: M,
        prev: ConPollStep<R, W, S, M::ReadBack, M::WriteBack>,
        act: ConPollAct<S::Permit, R, W>,
        step: ConPollStep<R, W, S, M::ReadBack, M::WriteBack>,
    ) -> bool {
        &&& answers(act, step.evt)
        &&& step.call is None ==> step.con == prev.con
        &&& !(act is Acquire) ==> step.send == prev.send
        &&& step.call == call_of(act, step.evt)
        &&& match act {
            ConPollAct::Acquire => {
                &&& step.streams == prev.streams
                &&& prev.send.acquires(step.send, step.evt->Permit_0)
            },
            ConPollAct::Send(permit, e) => {
                &&& step.streams == prev.streams
                &&& call_ensures(S::Permit::send, (permit, e), ())
            },
            ConPollAct::Register(dir, id, permit) => Self::took_up(
                pairs,
                prev.streams,
                step.streams,
                dir,
                id,
                permit,
            ),
            ConPollAct::Readable(id) => step.streams == streams::with_readable(prev.streams, id),
            ConPollAct::Writable(id) => step.streams == streams::with_writable(prev.streams, id),
            ConPollAct::Finished(id) => step.streams == prev.streams.remove(id),
            ConPollAct::Stopped(id, code) => {
                &&& step.streams == prev.streams.remove(id)
                &&& prev.streams.contains_key(id) ==> stream::told_to_stop(
                    prev.streams[id].read,
                    AqErr::Stopped(code),
                )
            },
            ConPollAct::Done(_) => false,
            _ => step.streams == prev.streams,
        }
    }

    /// The step that a turn begins with.
    pub open spec fn first<RB, WB>(
        self,
        streams: Map<u64, StreamInfo<RB, WB>>,
        con: Connection,
    ) -> ConPollStep<R, W, S, RB, WB> {
        ConPollStep { evt: ConPollEvt::Next, call: None, send: self.con_evt_send, streams, con }
    }

    /// The driver's turn after these steps, and what it does then.
    pub open spec fn run<RB, WB>(
        self,
        flags: ConFlags,
        steps: Seq<ConPollStep<R, W, S, RB, WB>>,
    ) -> (ConPollTurn<S::Permit>, ConPollAct<S::Permit, R, W>)
        decreases steps.len(),
    {
        if steps.len() == 0 {
            (ConPollTurn::spec_new(self.con_evt_send_closed, flags), ConPollAct::Skip)
        } else {
            self.run(flags, steps.drop_last()).0.next(steps.last().evt)
        }
    }

    /// Whether the steps begin a turn, and each is what came of what the turn
    /// did last.
    pub open spec fn trace<M: StreamPairs<ReadFront = R, WriteFront = W>>(
        self,
        flags: ConFlags,
        pairs: M,
        first: ConPollStep<R, W, S, M::ReadBack, M::WriteBack>,
        steps: Seq<ConPollStep<R, W, S, M::ReadBack, M::WriteBack>>,
    ) -> bool
        decreases steps.len(),
    {
        &&& steps.len() > 0
        &&& steps.len() == 1 ==> steps[0] == first
        &&& steps.len() > 1 ==> {
            let before = steps.drop_last();
            &&& self.trace(flags, pairs, first, before)
            &&& Self::did(pairs, before.last(), self.run(flags, before).1, steps.last())
        }
    }

    /// Whether a turn with these steps was made: it ends with this wish, and
    /// leaves the driver and the flags like this.
    pub open spec fn made<M: StreamPairs<ReadFront = R, WriteFront = W>>(
        self,
        flags: ConFlags,
        pairs: M,
        first: ConPollStep<R, W, S, M::ReadBack, M::WriteBack>,
        steps: Seq<ConPollStep<R, W, S, M::ReadBack, M::WriteBack>>,
        after: Self,
        after_flags: ConFlags,
        wish: Wish,
    ) -> bool {
        let (end, act) = self.run(flags, steps);
        &&& self.trace(flags, pairs, first, steps)
        &&& act == ConPollAct::<S::Permit, R, W>::Done(wish)
        &&& after == (ConPollDriver {
            con_evt_send: steps.last().send,
            con_evt_send_closed: end.closed,
        })
        &&& after_flags == end.flags
    }

    proof fn lemma_push<M: StreamPairs<ReadFront = R, WriteFront = W>>(
        self,
        flags: ConFlags,
        pairs: M,
        first: ConPollStep<R, W, S, M::ReadBack, M::WriteBack>,
        steps: Seq<ConPollStep<R, W, S, M::ReadBack, M::WriteBack>>,
        step: ConPollStep<R, W, S, M::ReadBack, M::WriteBack>,
    )
        requires
            steps.len() == 0 ==> step == first,
            steps.len() > 0 ==> self.trace(flags, pairs, first, steps) && Self::did(
                pairs,
                steps.last(),
                self.run(flags, steps).1,
                step,
            ),
        ensures
            self.trace(flags, pairs, first, steps.push(step)),
            self.run(flags, steps.push(step)) == self.run(flags, steps).0.next::<R, W>(step.evt),
            denied(steps.push(step)) ==> denied(steps) && !(step.evt matches ConPollEvt::Permit(
                Poll::Ready(_),
            )),
    {
        assert(steps.push(step).drop_last() =~= steps);
        if denied(steps.push(step)) {
            assert(steps.push(step)[steps.len() as int] == step);
            assert forall|i: int| 0 <= i < steps.len() implies ((#[trigger] steps[i].evt)
                matches ConPollEvt::Permit(r) ==> r is Pending) by {
                assert(steps.push(step)[i] == steps[i]);
            }
        }
    }

    /// Do what is next in a turn.
    fn perform<M: StreamPairs<ReadFront = R, WriteFront = W>>(
        &mut self,
        cx: &mut Context<'_>,
        pairs: &M,
        streams: &mut StreamMap<M::ReadBack, M::WriteBack>,
        connection: &mut Connection,
        act: ConPollAct<S::Permit, R, W>,
    ) -> (evt: ConPollEvt<S::Permit>)
        requires
            !(act is Done),
        ensures
            forall|prev: ConPollStep<R, W, S, M::ReadBack, M::WriteBack>|
                prev.send == old(self).con_evt_send && prev.streams == old(streams)@ && prev.con
                    == *old(connection) ==> #[trigger] Self::did(
                    *pairs,
                    prev,
                    act,
                    (ConPollStep {
                        evt,
                        call: call_of(act, evt),
                        send: final(self).con_evt_send,
                        streams: final(streams)@,
                        con: *final(connection),
                    }),
                ),
            call_of(act, evt) matches Some(call) ==> exists|a: &mut Connection|
                {
                    &&& *a == *old(connection)
                    &&& *final(a) == *final(connection)
                    &&& #[trigger] calls::made(a, call)
                },
            final(self).con_evt_send_closed == old(self).con_evt_send_closed,
            final(self).con_evt_send.send == old(self).con_evt_send.send,
            answers(act, evt),
            call_of(act, evt) is None ==> *final(connection) == *old(connection),
            distance(act) != 3 ==> final(streams)@ == old(streams)@,
    {
        let ghost was = streams@;
        let evt: ConPollEvt<S::Permit>;
        match act {
            ConPollAct::Acquire => {
                evt = ConPollEvt::Permit(self.con_evt_send.poll_acquire(cx));
            },
            ConPollAct::PollEvent => {
                let e = calls::poll_event(connection);
                evt = ConPollEvt::Event(e);
            },
            ConPollAct::RecvDatagram => {
                let got = calls::recv_datagram(connection);
                evt = ConPollEvt::Datagram(got);
            },
            ConPollAct::Accept(dir) => {
                let got = calls::accept(connection, dir);
                evt = ConPollEvt::Stream(got);
            },
            ConPollAct::Send(permit, e) => {
                permit.send(e);
                evt = ConPollEvt::Next;
            },
            ConPollAct::Register(StreamDir::Uni, id, permit) => {
                let rf = register_uni_in(pairs, streams, id);
                if let Some(permit) = permit {
                    permit.send(ConnectionEvt::InUniStream(rf));
                }
                assert(Self::took_up(
                    *pairs,
                    was,
                    streams@,
                    StreamDir::Uni,
                    id,
                    permit,
                ));
                evt = ConPollEvt::Next;
            },
            ConPollAct::Register(StreamDir::Bi, id, permit) => {
                let fronts = register_bi(pairs, streams, id);
                if let Some(permit) = permit {
                    permit.send(ConnectionEvt::InBiStream(fronts.0, fronts.1));
                }
                assert(Self::took_up(
                    *pairs,
                    was,
                    streams@,
                    StreamDir::Bi,
                    id,
                    permit,
                ));
                evt = ConPollEvt::Next;
            },
            ConPollAct::Readable(id) => {
                mark_readable(streams, id);
                evt = ConPollEvt::Next;
            },
            ConPollAct::Writable(id) => {
                mark_writable(streams, id);
                evt = ConPollEvt::Next;
            },
            ConPollAct::Finished(id) => {
                finish_stream(streams, id);
                evt = ConPollEvt::Next;
            },
            ConPollAct::Stopped(id, code) => {
                stop_stream(streams, id, code);
                evt = ConPollEvt::Next;
            },
            ConPollAct::Skip => {
                evt = ConPollEvt::Next;
            },
            ConPollAct::Done(_) => {
                evt = ConPollEvt::Next;
            },
        }
        evt
    }

    /// Tell the user for one turn, as `ConPollTurn` says.
    pub fn poll<M: StreamPairs<ReadFront = R, WriteFront = W>>(
        &mut self,
        cx: &mut Context<'_>,
        flags: &mut ConFlags,
        pairs: &M,
        streams: &mut StreamMap<M::ReadBack, M::WriteBack>,
        connection: &mut Connection,
    ) -> (r: Wish)
        ensures
            exists|steps: Seq<ConPollStep<R, W, S, M::ReadBack, M::WriteBack>>|
                {
                    &&& #[trigger] old(self).made(
                        *old(flags),
                        *pairs,
                        old(self).first(old(streams)@, *old(connection)),
                        steps,
                        *final(self),
                        *final(flags),
                        r,
                    )
                    &&& steps.last().streams == final(streams)@
                    &&& steps.last().con == *final(connection)
                    &&& forall|i: int|
                        0 < i < steps.len() ==> ((#[trigger] steps[i].call) matches Some(call)
                            ==> exists|a: &mut Connection|
                            {
                                &&& *a == steps[i - 1].con
                                &&& *final(a) == steps[i].con
                                &&& #[trigger] calls::made(a, call)
                            })
                    &&& !old(self).con_evt_send_closed && denied(steps) ==> {
                        &&& *final(connection) == *old(connection)
                        &&& final(streams)@ == old(streams)@
                        &&& *final(flags) == *old(flags)
                        &&& !final(self).con_evt_send_closed
                        &&& !r.more_work
                        &&& !r.want_close
                    }
                },
            final(self).con_evt_send.send == old(self).con_evt_send.send,
            r.want_close == old(self).con_evt_send_closed,
            old(self).con_evt_send_closed ==> final(self).con_evt_send_closed,
            !r.more_work ==> {
                &&& final(streams)@ == old(streams)@
                &&& final(flags).outbound_uni == old(flags).outbound_uni
                &&& final(flags).outbound_bi == old(flags).outbound_bi
                &&& final(flags).inbound_datagrams ==> old(flags).inbound_datagrams
                &&& final(flags).inbound_uni ==> old(flags).inbound_uni
                &&& final(flags).inbound_bi ==> old(flags).inbound_bi
            },
    {
        let mut turn: ConPollTurn<S::Permit> = ConPollTurn::new(self.con_evt_send_closed, *flags);
        proof {
            lemma_settled(turn);
        }
        let ghost was = *self;
        let ghost flags_was = *flags;
        let ghost first = self.first(streams@, *connection);
        let ghost mut trace = Seq::<
            ConPollStep<R, W, S, M::ReadBack, M::WriteBack>,
        >::empty();
        proof {
            was.lemma_push(flags_was, *pairs, first, trace, first);
            trace = trace.push(first);
        }
        let mut act: ConPollAct<S::Permit, R, W> = turn.step(ConPollEvt::Next);
        loop
            invariant
                was == *old(self),
                flags_was == *old(flags),
                first == old(self).first(old(streams)@, *old(connection)),
                trace.len() > 0,
                was.trace(flags_was, *pairs, first, trace),
                was.run(flags_was, trace) == (turn, act),
                trace.last().send == self.con_evt_send,
                trace.last().streams == streams@,
                trace.last().con == *connection,
                forall|i: int|
                    0 < i < trace.len() ==> ((#[trigger] trace[i].call) matches Some(call)
                        ==> exists|a: &mut Connection|
                        {
                            &&& *a == trace[i - 1].con
                            &&& *final(a) == trace[i].con
                            &&& #[trigger] calls::made(a, call)
                        }),
                !was.con_evt_send_closed && denied(trace) ==> {
                    &&& *connection == *old(connection)
                    &&& streams@ == old(streams)@
                    &&& turn.flags == flags_was
                    &&& !turn.closed
                    &&& !turn.more_work
                    &&& turn.permit is None
                    &&& act is Acquire || act is Done
                },
                self.con_evt_send.send == old(self).con_evt_send.send,
                turn_ok(turn, act),
                turn.want_close == old(self).con_evt_send_closed,
                old(self).con_evt_send_closed ==> turn.closed,
                distance(act) == 3 ==> turn.more_work,
                !turn.more_work ==> {
                    &&& streams@ == old(streams)@
                    &&& turn.flags.outbound_uni == old(flags).outbound_uni
                    &&& turn.flags.outbound_bi == old(flags).outbound_bi
                    &&& turn.flags.inbound_datagrams ==> old(flags).inbound_datagrams
                    &&& turn.flags.inbound_uni ==> old(flags).inbound_uni
                    &&& turn.flags.inbound_bi ==> old(flags).inbound_bi
                },
            decreases turn.phase.rank(), turn.left as int, distance(act),
        {
            let ghost before = turn;
            let ghost asked = act;
            let evt: ConPollEvt<S::Permit>;
            match act {
                ConPollAct::Done(wish) => {
                    self.con_evt_send_closed = turn.closed;
                    *flags = turn.flags;
                    assert(was.made(flags_was, *pairs, first, trace, *self, *flags, wish));
                    return wish;
                },
                act => {
                    evt = self.perform(cx, pairs, streams, connection, act);
                },
            }
            proof {
                law_con_poll_turn::<S::Permit, R, W>(before, asked, evt);
                if !was.con_evt_send_closed && denied(trace) {
                    law_denied::<S::Permit, R, W>(before);
                }
                let step = ConPollStep {
                    evt,
                    call: call_of(asked, evt),
                    send: self.con_evt_send,
                    streams: streams@,
                    con: *connection,
                };
                was.lemma_push(flags_was, *pairs, first, trace, step);
                trace = trace.push(step);
            }
            act = turn.step(evt);
        }
    }
}

/// The law of what may be waiting: a flag is raised by the event that says that
/// something is there, and by nothing else; it is lowered where the connection
/// was asked for just that and had none, and by nothing else.
pub proof fn law_flags<P, R, W>(
    turn: ConPollTurn<P>,
    act: ConPollAct<P, R, W>,
    evt: ConPollEvt<P>,
)
    requires
        turn_ok(turn, act),
        answers(act, evt),
    ensures
        ({
            let after = turn.next::<R, W>(evt).0.flags;
            let was = turn.flags;
            let none = evt == ConPollEvt::<P>::Stream(None);
            let uni = act == ConPollAct::<P, R, W>::Accept(StreamDir::Uni);
            let bi = act == ConPollAct::<P, R, W>::Accept(StreamDir::Bi);
            &&& after.inbound_datagrams <==> evt == ConPollEvt::<P>::Event(
                Some(ConEvent::DatagramReceived),
            ) || was.inbound_datagrams && evt != ConPollEvt::<P>::Datagram(None)
            &&& after.inbound_uni <==> evt == ConPollEvt::<P>::Event(
                Some(ConEvent::Stream(ConStreamEvent::Opened(StreamDir::Uni))),
            ) || was.inbound_uni && !(uni && none)
            &&& after.inbound_bi <==> evt == ConPollEvt::<P>::Event(
                Some(ConEvent::Stream(ConStreamEvent::Opened(StreamDir::Bi))),
            ) || was.inbound_bi && !(bi && none)
            &&& after.outbound_uni <==> evt == ConPollEvt::<P>::Event(
                Some(ConEvent::Stream(ConStreamEvent::Available(StreamDir::Uni))),
            ) || was.outbound_uni
            &&& after.outbound_bi <==> evt == ConPollEvt::<P>::Event(
                Some(ConEvent::Stream(ConStreamEvent::Available(StreamDir::Bi))),
            ) || was.outbound_bi
        }),
{
    lemma_settled(turn);
    lemma_settled(turn.next_phase());
    lemma_settled(ConPollTurn { flags: turn.flags_without(), ..turn }.next_phase());
}

/// What the user has to be told of something that the connection gave, if
/// anything: the status of the connection, and every datagram.
pub open spec fn news<P, R, W>(evt: ConPollEvt<P>, told: ConnectionEvt<R, W>) -> bool {
    ||| evt == ConPollEvt::<P>::Event(Some(ConEvent::HandshakeDataReady))
        && told is HandshakeDataReady
    ||| evt == ConPollEvt::<P>::Event(Some(ConEvent::Connected)) && told is Connected
    ||| {
        &&& told matches ConnectionEvt::Error(AqErr::Other(reason))
        &&& evt == ConPollEvt::<P>::Event(Some(ConEvent::ConnectionLost(reason)))
    }
    ||| {
        &&& told matches ConnectionEvt::InDatagram(data)
        &&& evt == ConPollEvt::<P>::Datagram(Some(data))
    }
}

/// The law of telling the user: the user is told exactly where the connection
/// gave something that the user has to know and there is a permit, of just that
/// and with just that permit. A stream that came in is taken up, in the
/// direction that was asked for, with the permit if there is one. A permit is
/// used for nothing else, and comes from nowhere but a request for one. What is
/// no news to the user is no work but for the streams that it is about.
pub proof fn law_told<P, R, W>(
    turn: ConPollTurn<P>,
    act: ConPollAct<P, R, W>,
    evt: ConPollEvt<P>,
    told: ConnectionEvt<R, W>,
)
    requires
        turn_ok(turn, act),
        answers(act, evt),
    ensures
        ({
            let (after, then) = turn.next::<R, W>(evt);
            let asks = then is Acquire || then is PollEvent || then is RecvDatagram
                || then is Accept;
            &&& news(evt, told) ==> match turn.permit {
                Some(permit) => then == ConPollAct::Send(permit, told),
                None => then is Skip,
            }
            &&& then matches ConPollAct::Send(permit, e) ==> {
                &&& turn.permit == Some(permit)
                &&& news::<P, R, W>(evt, e)
            }
            &&& evt matches ConPollEvt::Stream(Some(id)) ==> {
                &&& act matches ConPollAct::Accept(dir)
                &&& then == ConPollAct::<P, R, W>::Register(dir, id, turn.permit)
            }
            &&& then is Register ==> evt is Stream
            &&& after.permit == (if then is Send || then is Register {
                None
            } else {
                match evt {
                    ConPollEvt::Permit(Poll::Ready(Ok(permit))) => Some(permit),
                    _ => turn.permit,
                }
            })
            &&& after.closed <==> turn.closed || (evt matches ConPollEvt::Permit(
                Poll::Ready(Err(_)),
            ))
            &&& after.more_work <==> turn.more_work || !(asks || then is Done)
        }),
{
    lemma_settled(turn);
    lemma_settled(turn.next_phase());
    lemma_settled(ConPollTurn { flags: turn.flags_without(), ..turn }.next_phase());
}

/// The law of events about streams: what has to be done is to the stream that
/// the event is about, and of the kind that it says; no other event does that.
pub proof fn law_stream_acts<P, R, W>(
    turn: ConPollTurn<P>,
    act: ConPollAct<P, R, W>,
    evt: ConPollEvt<P>,
    id: u64,
    code: u64,
)
    requires
        turn_ok(turn, act),
        answers(act, evt),
    ensures
        ({
            let then = turn.next::<R, W>(evt).1;
            &&& then == ConPollAct::<P, R, W>::Readable(id) <==> evt == ConPollEvt::<P>::Event(
                Some(ConEvent::Stream(ConStreamEvent::Readable(id))),
            )
            &&& then == ConPollAct::<P, R, W>::Writable(id) <==> evt == ConPollEvt::<P>::Event(
                Some(ConEvent::Stream(ConStreamEvent::Writable(id))),
            )
            &&& then == ConPollAct::<P, R, W>::Finished(id) <==> evt == ConPollEvt::<P>::Event(
                Some(ConEvent::Stream(ConStreamEvent::Finished(id))),
            )
            &&& then == ConPollAct::<P, R, W>::Stopped(id, code) <==> evt == ConPollEvt::<P>::Event(
                Some(ConEvent::Stream(ConStreamEvent::Stopped(id, code))),
            )
        }),
{
    lemma_settled(turn);
    lemma_settled(turn.next_phase());
    lemma_settled(ConPollTurn { flags: turn.flags_without(), ..turn }.next_phase());
}

/// The law of the order of a turn: events come first, then datagrams, then
/// streams that go one way, then those that go both; each is looked for until
/// there is none, no permit is to be had or the rounds are used up, and passed
/// over only where nothing may be waiting. Before the connection is asked there
/// is a permit, or nobody to tell.
pub proof fn law_poll_order<P, R, W>(
    turn: ConPollTurn<P>,
    act: ConPollAct<P, R, W>,
    evt: ConPollEvt<P>,
)
    requires
        turn_ok(turn, act),
        answers(act, evt),
    ensures
        ({
            let (after, then) = turn.next::<R, W>(evt);
            let asks = then is Acquire || then is PollEvent || then is RecvDatagram
                || then is Accept;
            let flags = after.flags;
            let early = turn.phase is Events;
            &&& after.phase != turn.phase ==> {
                ||| evt == ConPollEvt::<P>::Permit(Poll::Pending)
                ||| evt == ConPollEvt::<P>::Event(None)
                ||| evt == ConPollEvt::<P>::Datagram(None)
                ||| evt == ConPollEvt::<P>::Stream(None)
                ||| evt is Next && turn.left == 0
                ||| evt is Next && turn.phase is Datagrams && !flags.inbound_datagrams
                ||| evt is Next && turn.phase is Uni && !flags.inbound_uni
                ||| evt is Next && turn.phase is Bi && !flags.inbound_bi
            }
            &&& early && !(after.phase is Events || after.phase is Datagrams)
                ==> !flags.inbound_datagrams
            &&& (early || turn.phase is Datagrams) && (after.phase is Bi || after.phase is Over)
                ==> !flags.inbound_uni
            &&& (early || turn.phase is Datagrams || turn.phase is Uni) && after.phase is Over
                ==> !flags.inbound_bi
            &&& after.phase != turn.phase ==> after.left == ROUNDS
            &&& after.phase == turn.phase ==> after.left == (if asks || then is Done {
                turn.left as int
            } else {
                turn.left - 1
            })
            &&& asks || then is Done ==> match after.phase {
                PollPhase::Over => then is Done,
                _ => if after.permit is None && !after.closed {
                    then is Acquire
                } else {
                    match after.phase {
                        PollPhase::Events => then is PollEvent,
                        PollPhase::Datagrams => then is RecvDatagram,
                        PollPhase::Uni => then == ConPollAct::<P, R, W>::Accept(StreamDir::Uni),
                        _ => then == ConPollAct::<P, R, W>::Accept(StreamDir::Bi),
                    }
                },
            }
            &&& turn.phase is Bi ==> after.phase is Bi || after.phase is Over
            &&& turn.phase is Uni ==> !(after.phase is Events || after.phase is Datagrams)
            &&& turn.phase is Datagrams ==> !(after.phase is Events)
        }),
{
    lemma_settled(turn);
    lemma_settled(turn.next_phase());
    let none = ConPollTurn { flags: turn.flags_without(), ..turn };
    lemma_settled(none.next_phase());
    lemma_passed(turn);
    lemma_passed(turn.next_phase());
    lemma_passed(none.next_phase());
}

/// Settling passes only over what is not waiting.
proof fn lemma_passed<P>(turn: ConPollTurn<P>)
    ensures
        ({
            let to = turn.settled().phase;
            &&& turn.left > 0 && turn.phase is Datagrams && !(to is Datagrams)
                ==> !turn.flags.inbound_datagrams
            &&& turn.left > 0 && turn.phase is Uni && !(to is Uni) ==> !turn.flags.inbound_uni
            &&& turn.left > 0 && turn.phase is Bi && !(to is Bi) ==> !turn.flags.inbound_bi
            &&& turn.phase is Events && !(to is Events || to is Datagrams)
                ==> !turn.flags.inbound_datagrams
            &&& (turn.phase is Events || turn.phase is Datagrams) && (to is Bi || to is Over)
                ==> !turn.flags.inbound_uni
            &&& !(turn.phase is Bi || turn.phase is Over) && to is Over ==> !turn.flags.inbound_bi
            &&& turn.settled().left == (if to == turn.phase {
                turn.left
            } else {
                ROUNDS
            })
        }),
    decreases turn.phase.rank(),
{
    lemma_settled(turn);
    if !(turn.phase is Over || turn.goes_on()) {
        lemma_passed(turn.next_phase());
        lemma_settled(turn.next_phase());
    }
}

/// The law of taking all there is: where a turn has rounds left and got what it
/// asked for, it asks for the same again, as soon as there is a permit or nobody
/// to tell.
pub proof fn law_asks_again<P, R, W>(
    turn: ConPollTurn<P>,
    act: ConPollAct<P, R, W>,
    evt: ConPollEvt<P>,
    permit: P,
)
    requires
        turn_ok(turn, act),
        answers(act, evt),
        act is PollEvent || act is RecvDatagram || act is Accept,
        !(evt matches ConPollEvt::Event(None)),
        !(evt matches ConPollEvt::Datagram(None)),
        !(evt matches ConPollEvt::Stream(None)),
        turn.left > 1,
    ensures
        ({
            let dealt = turn.next::<R, W>(evt).0;
            let (then, next) = dealt.next::<R, W>(ConPollEvt::Next);
            &&& dealt.permit is Some || dealt.closed ==> next == act
            &&& dealt.permit is None && !dealt.closed ==> {
                &&& next is Acquire
                &&& then.next::<R, W>(ConPollEvt::Permit(Poll::Ready(Ok(permit)))).1 == act
            }
        }),
{
}

impl<R, W, S: MultiSend<ConnectionEvt<R, W>>> ConPollDriver<R, W, S> {
    /// Each step of a turn but the first came of what the turn did before.
    proof fn lemma_at<M: StreamPairs<ReadFront = R, WriteFront = W>>(
        self,
        flags: ConFlags,
        pairs: M,
        first: ConPollStep<R, W, S, M::ReadBack, M::WriteBack>,
        steps: Seq<ConPollStep<R, W, S, M::ReadBack, M::WriteBack>>,
        i: int,
    )
        requires
            self.trace(flags, pairs, first, steps),
            first.evt is Next,
            0 < i <= steps.len(),
        ensures
            ({
                let (turn, act) = self.run(flags, steps.take(i));
                &&& turn_ok(turn, act)
                &&& act is Done || i == steps.len() || {
                    &&& Self::did(pairs, steps[i - 1], act, steps[i])
                    &&& self.run(flags, steps.take(i + 1)) == turn.next::<R, W>(steps[i].evt)
                }
                &&& i < steps.len() ==> !(act is Done)
            }),
        decreases steps.len(), i,
    {
        if i == steps.len() {
            assert(steps.take(i) =~= steps);
            if i == 1 {
                let turn = ConPollTurn::<S::Permit>::spec_new(self.con_evt_send_closed, flags);
                assert(self.run(flags, steps.drop_last()).0 == turn);
                lemma_settled(turn);
            } else {
                let (turn, act) = self.run(flags, steps.drop_last());
                self.lemma_at(flags, pairs, first, steps.drop_last(), i - 1);
                assert(steps.drop_last().take(i - 1) =~= steps.drop_last());
                law_con_poll_turn(turn, act, steps.last().evt);
            }
        } else {
            self.lemma_at(flags, pairs, first, steps.drop_last(), i);
            assert(steps.drop_last().take(i) =~= steps.take(i));
            if i + 1 == steps.len() {
                assert(steps.take(i) =~= steps.drop_last());
                assert(steps.take(i + 1) =~= steps);
            } else {
                assert(steps.drop_last().take(i + 1) =~= steps.take(i + 1));
            }
        }
    }

    /// The law of events about streams, over a turn: once the connection gave
    /// an event that a stream has data to read, that stream is marked readable
    /// and its writable mark is what it was; once it gave one that a stream
    /// takes data again, that stream is marked writable and its readable mark is
    /// what it was; number, halves and all other streams stay. Once a stream is
    /// over or was stopped it is gone, and who reads one that was stopped is
    /// told the code. No other event and no datagram touches a stream.
    pub proof fn law_stream_events<M: StreamPairs<ReadFront = R, WriteFront = W>>(
        self,
        flags: ConFlags,
        pairs: M,
        first: ConPollStep<R, W, S, M::ReadBack, M::WriteBack>,
        steps: Seq<ConPollStep<R, W, S, M::ReadBack, M::WriteBack>>,
        i: int,
    )
        requires
            self.trace(flags, pairs, first, steps),
            first.evt is Next,
            0 < i < steps.len() - 1,
        ensures
            ({
                let was = steps[i].streams;
                let now = steps[i + 1].streams;
                &&& steps[i].evt matches ConPollEvt::Event(Some(event)) ==> match event {
                    ConEvent::Stream(ConStreamEvent::Readable(id)) => {
                        &&& now.dom() == was.dom()
                        &&& now.remove(id) == was.remove(id)
                        &&& was.contains_key(id) ==> {
                            &&& now[id].readable
                            &&& now[id].writable == was[id].writable
                            &&& now[id].stream_id == was[id].stream_id
                            &&& now[id].read == was[id].read
                            &&& now[id].write == was[id].write
                        }
                    },
                    ConEvent::Stream(ConStreamEvent::Writable(id)) => {
                        &&& now.dom() == was.dom()
                        &&& now.remove(id) == was.remove(id)
                        &&& was.contains_key(id) ==> {
                            &&& now[id].writable
                            &&& now[id].readable == was[id].readable
                            &&& now[id].stream_id == was[id].stream_id
                            &&& now[id].read == was[id].read
                            &&& now[id].write == was[id].write
                        }
                    },
                    ConEvent::Stream(ConStreamEvent::Finished(id)) => {
                        &&& !now.contains_key(id)
                        &&& now == was.remove(id)
                    },
                    ConEvent::Stream(ConStreamEvent::Stopped(id, code)) => {
                        &&& !now.contains_key(id)
                        &&& now == was.remove(id)
                        &&& was.contains_key(id) ==> (was[id].read matches Some(half)
                            ==> call_ensures(
                            M::ReadBack::stop,
                            (half, AqErr::Stopped(code)),
                            (),
                        ))
                    },
                    _ => now == was,
                }
                &&& steps[i].evt is Datagram || steps[i].evt is Permit || steps[i].evt is Next
                    ==> now == was
            }),
    {
        self.lemma_at(flags, pairs, first, steps, i);
        self.lemma_at(flags, pairs, first, steps, i + 1);
        let (turn, act) = self.run(flags, steps.take(i));
        lemma_settled(turn);
        lemma_settled(turn.next_phase());
        lemma_settled(ConPollTurn { flags: turn.flags_without(), ..turn }.next_phase());
        if let ConPollEvt::Event(Some(ConEvent::Stream(event))) = steps[i].evt {
            match event {
                ConStreamEvent::Readable(id) => streams::law_marks(steps[i].streams, id),
                ConStreamEvent::Writable(id) => streams::law_marks(steps[i].streams, id),
                _ => {},
            }
        }
    }

    /// The law of marks, over a turn: a stream loses no mark in it, and is gone
    /// at its end only where an event said that it is over or was stopped.
    pub proof fn law_marks_stay<M: StreamPairs<ReadFront = R, WriteFront = W>>(
        self,
        flags: ConFlags,
        pairs: M,
        first: ConPollStep<R, W, S, M::ReadBack, M::WriteBack>,
        steps: Seq<ConPollStep<R, W, S, M::ReadBack, M::WriteBack>>,
        i: int,
        j: int,
        id: u64,
    )
        requires
            self.trace(flags, pairs, first, steps),
            first.evt is Next,
            0 <= i <= j < steps.len(),
            steps[i].streams.contains_key(id),
            forall|k: int|
                i <= k < j ==> {
                    &&& (#[trigger] steps[k].evt) != ConPollEvt::<S::Permit>::Event(
                        Some(ConEvent::Stream(ConStreamEvent::Finished(id))),
                    )
                    &&& !(steps[k].evt matches ConPollEvt::Event(
                        Some(ConEvent::Stream(ConStreamEvent::Stopped(n, _))),
                    ) && n == id)
                },
        ensures
            steps[j].streams.contains_key(id),
            steps[i].streams[id].readable ==> steps[j].streams[id].readable,
            steps[i].streams[id].writable ==> steps[j].streams[id].writable,
        decreases j,
    {
        if i < j {
            self.law_marks_stay(flags, pairs, first, steps, i, j - 1, id);
            let (was, now) = (steps[j - 1].streams, steps[j].streams);
            self.lemma_at(flags, pairs, first, steps, j);
            assert(steps[j - 1].evt == steps[j - 1].evt);
            let (turn, act) = self.run(flags, steps.take(j));
            if j == 1 {
                let begin = ConPollTurn::<S::Permit>::spec_new(self.con_evt_send_closed, flags);
                assert(steps.take(1).drop_last() =~= Seq::empty());
                lemma_settled(begin);
                self.lemma_first(flags, pairs, first, steps);
            } else {
                self.law_stream_events(flags, pairs, first, steps, j - 1);
                self.lemma_at(flags, pairs, first, steps, j - 1);
                let (before, asked) = self.run(flags, steps.take(j - 1));
                law_told::<S::Permit, R, W>(
                    before,
                    asked,
                    steps[j - 1].evt,
                    ConnectionEvt::Connected,
                );
            }
            if let ConPollEvt::Event(Some(ConEvent::Stream(event))) = steps[j - 1].evt {
                let n = match event {
                    ConStreamEvent::Readable(n) => n,
                    ConStreamEvent::Writable(n) => n,
                    ConStreamEvent::Finished(n) => n,
                    ConStreamEvent::Stopped(n, _) => n,
                    _ => id,
                };
                if n != id {
                    assert(was.remove(n).contains_key(id));
                    assert(was.remove(n)[id] == was[id]);
                    assert(now.remove(n)[id] == now[id]);
                }
            }
            if let ConPollAct::Register(dir, n, _) = act {
                streams::law_took(pairs, was, now, n);
                if n != id {
                    assert(was.remove(n).contains_key(id));
                    assert(was.remove(n)[id] == was[id]);
                    assert(now.remove(n)[id] == now[id]);
                }
            }
        }
    }

    /// A turn begins with its first step.
    proof fn lemma_first<M: StreamPairs<ReadFront = R, WriteFront = W>>(
        self,
        flags: ConFlags,
        pairs: M,
        first: ConPollStep<R, W, S, M::ReadBack, M::WriteBack>,
        steps: Seq<ConPollStep<R, W, S, M::ReadBack, M::WriteBack>>,
    )
        requires
            self.trace(flags, pairs, first, steps),
        ensures
            steps.len() > 0,
            steps[0] == first,
        decreases steps.len(),
    {
        if steps.len() > 1 {
            self.lemma_first(flags, pairs, first, steps.drop_last());
        }
    }

    /// The law of what a turn leaves: where the connection gave an event in it
    /// that a stream has data to read, and no later one that this stream is
    /// over or was stopped, the stream is marked readable in the streams that
    /// the turn leaves; and the same of data that it takes.
    pub proof fn law_left_marked<M: StreamPairs<ReadFront = R, WriteFront = W>>(
        self,
        flags: ConFlags,
        pairs: M,
        first: ConPollStep<R, W, S, M::ReadBack, M::WriteBack>,
        steps: Seq<ConPollStep<R, W, S, M::ReadBack, M::WriteBack>>,
        after: Self,
        after_flags: ConFlags,
        wish: Wish,
        i: int,
        id: u64,
    )
        requires
            self.made(flags, pairs, first, steps, after, after_flags, wish),
            first.evt is Next,
            0 <= i < steps.len(),
            steps[i].streams.contains_key(id),
            forall|k: int|
                i <= k < steps.len() ==> {
                    &&& (#[trigger] steps[k].evt) != ConPollEvt::<S::Permit>::Event(
                        Some(ConEvent::Stream(ConStreamEvent::Finished(id))),
                    )
                    &&& !(steps[k].evt matches ConPollEvt::Event(
                        Some(ConEvent::Stream(ConStreamEvent::Stopped(n, _))),
                    ) && n == id)
                },
        ensures
            steps.last().streams.contains_key(id),
            steps[i].evt == ConPollEvt::<S::Permit>::Event(
                Some(ConEvent::Stream(ConStreamEvent::Readable(id))),
            ) ==> steps.last().streams[id].readable,
            steps[i].evt == ConPollEvt::<S::Permit>::Event(
                Some(ConEvent::Stream(ConStreamEvent::Writable(id))),
            ) ==> steps.last().streams[id].writable,
    {
        let end = steps.len() - 1;
        self.lemma_first(flags, pairs, first, steps);
        self.law_marks_stay(flags, pairs, first, steps, i, end, id);
        let readable = steps[i].evt == ConPollEvt::<S::Permit>::Event(
            Some(ConEvent::Stream(ConStreamEvent::Readable(id))),
        );
        let writable = steps[i].evt == ConPollEvt::<S::Permit>::Event(
            Some(ConEvent::Stream(ConStreamEvent::Writable(id))),
        );
        if readable || writable {
            let (turn, act) = self.run(flags, steps.take(i));
            self.lemma_at(flags, pairs, first, steps, i);
            assert(i < end) by {
                lemma_settled(turn);
                law_stream_acts(turn, act, steps[i].evt, id, 0);
                assert(steps.take(end + 1) =~= steps);
            }
            self.law_stream_events(flags, pairs, first, steps, i);
            assert forall|k: int| i + 1 <= k < end implies {
                &&& (#[trigger] steps[k].evt) != ConPollEvt::<S::Permit>::Event(
                    Some(ConEvent::Stream(ConStreamEvent::Finished(id))),
                )
                &&& !(steps[k].evt matches ConPollEvt::Event(
                    Some(ConEvent::Stream(ConStreamEvent::Stopped(n, _))),
                ) && n == id)
            } by {}
            self.law_marks_stay(flags, pairs, first, steps, i + 1, end, id);
        }
    }

    /// The law of telling the user, over a turn: all that the connection gave
    /// and the user has to know was sent to the user, with the permit that was
    /// had last; a stream that came in is there, with the number that it came
    /// with and the halves that its direction asks for, and the user was sent
    /// the fronts of those halves.
    pub proof fn law_user_told<M: StreamPairs<ReadFront = R, WriteFront = W>>(
        self,
        flags: ConFlags,
        pairs: M,
        first: ConPollStep<R, W, S, M::ReadBack, M::WriteBack>,
        steps: Seq<ConPollStep<R, W, S, M::ReadBack, M::WriteBack>>,
        i: int,
        told: ConnectionEvt<R, W>,
    )
        requires
            self.trace(flags, pairs, first, steps),
            first.evt is Next,
            0 < i < steps.len() - 1,
        ensures
            news(steps[i].evt, told) ==> (self.run(flags, steps.take(i)).0.permit matches Some(p)
                ==> call_ensures(S::Permit::send, (p, told), ())),
            steps[i].evt matches ConPollEvt::Stream(Some(id)) ==> {
                let now = steps[i + 1].streams;
                &&& now.remove(id) == steps[i].streams.remove(id)
                &&& now.contains_key(id)
                &&& now[id].stream_id == id && now[id].readable && now[id].writable
                &&& now[id].read is Some
                &&& now[id].write is Some <==> steps[i].call == Some(
                    ConCall::Accept(StreamDir::Bi, Some(id)),
                )
            },
            steps[i].call matches Some(ConCall::Accept(StreamDir::Uni, Some(id))) ==> exists|rf: R|
                {
                    &&& #[trigger] call_ensures(
                        M::read_pair,
                        (&pairs, BYTES_CAP),
                        (steps[i + 1].streams[id].read->0, rf),
                    )
                    &&& self.run(flags, steps.take(i)).0.permit matches Some(p) ==> call_ensures(
                        S::Permit::send,
                        (p, ConnectionEvt::InUniStream(rf)),
                        (),
                    )
                },
            steps[i].call matches Some(ConCall::Accept(StreamDir::Bi, Some(id))) ==> exists|
                wf: W,
                rf: R,
            |
                {
                    &&& #[trigger] call_ensures(
                        M::write_pair,
                        (&pairs, BYTES_CAP),
                        (steps[i + 1].streams[id].write->0, wf),
                    )
                    &&& #[trigger] call_ensures(
                        M::read_pair,
                        (&pairs, BYTES_CAP),
                        (steps[i + 1].streams[id].read->0, rf),
                    )
                    &&& self.run(flags, steps.take(i)).0.permit matches Some(p) ==> call_ensures(
                        S::Permit::send,
                        (p, ConnectionEvt::InBiStream(wf, rf)),
                        (),
                    )
                },
    {
        self.lemma_at(flags, pairs, first, steps, i);
        self.lemma_at(flags, pairs, first, steps, i + 1);
        let (turn, act) = self.run(flags, steps.take(i));
        law_told(turn, act, steps[i].evt, told);
        if let ConPollEvt::Stream(Some(id)) = steps[i].evt {
            let (was, now) = (steps[i].streams, steps[i + 1].streams);
            let permit = turn.permit;
            streams::law_took(pairs, was, now, id);
            assert(was.dom().insert(id).contains(id));
            if act == ConPollAct::<S::Permit, R, W>::Accept(StreamDir::Uni) {
                let rf = choose|rf: R|
                    {
                        &&& #[trigger] streams::took_uni_in(pairs, was, now, id, rf)
                        &&& permit matches Some(p) ==> call_ensures(
                            S::Permit::send,
                            (p, ConnectionEvt::InUniStream(rf)),
                            (),
                        )
                    };
                assert(streams::took_uni_in(pairs, was, now, id, rf));
                let rb = now[id].read->0;
                assert(call_ensures(M::read_pair, (&pairs, BYTES_CAP), (rb, rf)));
            } else {
                let fronts = choose|fronts: (W, R)|
                    {
                        &&& #[trigger] streams::took_bi(pairs, was, now, id, fronts)
                        &&& permit matches Some(p) ==> call_ensures(
                            S::Permit::send,
                            (p, ConnectionEvt::InBiStream(fronts.0, fronts.1)),
                            (),
                        )
                    };
                let (wf, rf) = fronts;
                assert(streams::took_bi(pairs, was, now, id, (wf, rf)));
                let (wb, rb) = (now[id].write->0, now[id].read->0);
                assert(call_ensures(M::write_pair, (&pairs, BYTES_CAP), (wb, wf)));
                assert(call_ensures(M::read_pair, (&pairs, BYTES_CAP), (rb, rf)));
            }
        }
    }
}

/// The law of a turn's beginning: it knows what may be waiting and whether the
/// user is gone, and asks for a permit first, unless the user is gone; all its
/// rounds are ahead.
pub proof fn law_con_poll_begins<P, R, W>(closed: bool, flags: ConFlags)
    ensures
        ({
            let (after, then) = ConPollTurn::<P>::spec_new(closed, flags).next::<R, W>(
                ConPollEvt::Next,
            );
            &&& after.flags == flags
            &&& after.closed == closed
            &&& after.want_close == closed
            &&& after.permit is None
            &&& !after.more_work
            &&& after.left == 32
            &&& after.phase is Events
            &&& closed ==> then is PollEvent
            &&& !closed ==> then is Acquire
        }),
{
}

/// Whether an event of this kind came in one of the steps.
pub open spec fn came<R, W, S: MultiSend<ConnectionEvt<R, W>>, RB, WB>(
    steps: Seq<ConPollStep<R, W, S, RB, WB>>,
    kind: spec_fn(ConPollEvt<S::Permit>) -> bool,
) -> bool {
    exists|i: int| 0 <= i < steps.len() && kind(#[trigger] steps[i].evt)
}

/// What came in the steps came in the last or before it.
proof fn lemma_came<R, W, S: MultiSend<ConnectionEvt<R, W>>, RB, WB>(
    steps: Seq<ConPollStep<R, W, S, RB, WB>>,
    kind: spec_fn(ConPollEvt<S::Permit>) -> bool,
)
    requires
        steps.len() > 0,
    ensures
        came(steps, kind) <==> came(steps.drop_last(), kind) || kind(steps.last().evt),
{
    let before = steps.drop_last();
    if came(steps, kind) {
        let i = choose|i: int| 0 <= i < steps.len() && kind(#[trigger] steps[i].evt);
        if i < before.len() {
            assert(before[i].evt == steps[i].evt);
        }
    }
    if came(before, kind) {
        let i = choose|i: int| 0 <= i < before.len() && kind(#[trigger] before[i].evt);
        assert(steps[i].evt == before[i].evt);
    }
    if kind(steps.last().evt) {
        assert(kind(steps[steps.len() - 1].evt));
    }
}

impl<R, W, S: MultiSend<ConnectionEvt<R, W>>> ConPollDriver<R, W, S> {
    /// What a turn knows after its steps, by what came in them.
    proof fn lemma_knows<M: StreamPairs<ReadFront = R, WriteFront = W>>(
        self,
        flags: ConFlags,
        pairs: M,
        first: ConPollStep<R, W, S, M::ReadBack, M::WriteBack>,
        steps: Seq<ConPollStep<R, W, S, M::ReadBack, M::WriteBack>>,
        available: spec_fn(ConPollEvt<S::Permit>) -> bool,
        available_bi: spec_fn(ConPollEvt<S::Permit>) -> bool,
        gone: spec_fn(ConPollEvt<S::Permit>) -> bool,
        thing: spec_fn(ConPollEvt<S::Permit>) -> bool,
        data: spec_fn(ConPollEvt<S::Permit>) -> bool,
    )
        requires
            self.trace(flags, pairs, first, steps),
            first.evt is Next,
            forall|e: ConPollEvt<S::Permit>| #[trigger]
                available(e) <==> e == ConPollEvt::<S::Permit>::Event(
                    Some(ConEvent::Stream(ConStreamEvent::Available(StreamDir::Uni))),
                ),
            forall|e: ConPollEvt<S::Permit>| #[trigger]
                available_bi(e) <==> e == ConPollEvt::<S::Permit>::Event(
                    Some(ConEvent::Stream(ConStreamEvent::Available(StreamDir::Bi))),
                ),
            forall|e: ConPollEvt<S::Permit>| #[trigger]
                gone(e) <==> (e matches ConPollEvt::Permit(Poll::Ready(Err(_)))),
            forall|e: ConPollEvt<S::Permit>| #[trigger]
                thing(e) <==> {
                    ||| (e matches ConPollEvt::Event(Some(_)))
                    ||| (e matches ConPollEvt::Datagram(Some(_)))
                    ||| (e matches ConPollEvt::Stream(Some(_)))
                },
            forall|e: ConPollEvt<S::Permit>| #[trigger]
                data(e) <==> e == ConPollEvt::<S::Permit>::Event(Some(ConEvent::DatagramReceived)),
        ensures
            ({
                let end = self.run(flags, steps).0;
                &&& end.flags.outbound_uni <==> flags.outbound_uni || came(steps, available)
                &&& end.flags.outbound_bi <==> flags.outbound_bi || came(steps, available_bi)
                &&& end.closed <==> self.con_evt_send_closed || came(steps, gone)
                &&& end.more_work <==> came(steps, thing)
                &&& end.want_close == self.con_evt_send_closed
                &&& end.flags.inbound_datagrams ==> flags.inbound_datagrams || came(steps, data)
            }),
        decreases steps.len(),
    {
        let before = steps.drop_last();
        lemma_came(steps, available);
        lemma_came(steps, available_bi);
        lemma_came(steps, gone);
        lemma_came(steps, thing);
        lemma_came(steps, data);
        if steps.len() == 1 {
            assert(before =~= Seq::empty());
            lemma_settled(ConPollTurn::<S::Permit>::spec_new(self.con_evt_send_closed, flags));
        } else {
            self.lemma_knows(
                flags,
                pairs,
                first,
                before,
                available,
                available_bi,
                gone,
                thing,
                data,
            );
            self.lemma_at(flags, pairs, first, before, before.len() as int);
            assert(before.take(before.len() as int) =~= before);
            let (turn, act) = self.run(flags, before);
            let evt = steps.last().evt;
            law_flags(turn, act, evt);
            law_told::<S::Permit, R, W>(turn, act, evt, ConnectionEvt::Connected);
            law_con_poll_turn(turn, act, evt);
            lemma_settled(turn);
            lemma_settled(turn.next_phase());
            lemma_settled(ConPollTurn { flags: turn.flags_without(), ..turn }.next_phase());
        }
    }

    /// The law of what a turn leaves behind: streams may be had exactly where
    /// that was known before or the connection said so in the turn; the user is
    /// gone exactly where that was known before or a permit was refused; there
    /// may be more work exactly where the connection gave anything, and the turn
    /// wishes to close exactly where the user was gone before it. A datagram is
    /// thought to be there only where one was before, or the connection said so.
    pub proof fn law_turn_leaves<M: StreamPairs<ReadFront = R, WriteFront = W>>(
        self,
        flags: ConFlags,
        pairs: M,
        first: ConPollStep<R, W, S, M::ReadBack, M::WriteBack>,
        steps: Seq<ConPollStep<R, W, S, M::ReadBack, M::WriteBack>>,
        after: Self,
        after_flags: ConFlags,
        wish: Wish,
    )
        requires
            self.made(flags, pairs, first, steps, after, after_flags, wish),
            first.evt is Next,
        ensures
            after_flags.outbound_uni <==> flags.outbound_uni || came(
                steps,
                |e: ConPollEvt<S::Permit>|
                    e == ConPollEvt::<S::Permit>::Event(
                        Some(ConEvent::Stream(ConStreamEvent::Available(StreamDir::Uni))),
                    ),
            ),
            after_flags.outbound_bi <==> flags.outbound_bi || came(
                steps,
                |e: ConPollEvt<S::Permit>|
                    e == ConPollEvt::<S::Permit>::Event(
                        Some(ConEvent::Stream(ConStreamEvent::Available(StreamDir::Bi))),
                    ),
            ),
            after.con_evt_send_closed <==> self.con_evt_send_closed || came(
                steps,
                |e: ConPollEvt<S::Permit>| (e matches ConPollEvt::Permit(Poll::Ready(Err(_)))),
            ),
            wish.more_work <==> came(
                steps,
                |e: ConPollEvt<S::Permit>|
                    {
                        ||| (e matches ConPollEvt::Event(Some(_)))
                        ||| (e matches ConPollEvt::Datagram(Some(_)))
                        ||| (e matches ConPollEvt::Stream(Some(_)))
                    },
            ),
            wish.want_close == self.con_evt_send_closed,
            after_flags.inbound_datagrams ==> flags.inbound_datagrams || came(
                steps,
                |e: ConPollEvt<S::Permit>|
                    e == ConPollEvt::<S::Permit>::Event(Some(ConEvent::DatagramReceived)),
            ),
            after.con_evt_send == steps.last().send,
    {
        self.lemma_knows(
            flags,
            pairs,
            first,
            steps,
            |e: ConPollEvt<S::Permit>|
                e == ConPollEvt::<S::Permit>::Event(
                    Some(ConEvent::Stream(ConStreamEvent::Available(StreamDir::Uni))),
                ),
            |e: ConPollEvt<S::Permit>|
                e == ConPollEvt::<S::Permit>::Event(
                    Some(ConEvent::Stream(ConStreamEvent::Available(StreamDir::Bi))),
                ),
            |e: ConPollEvt<S::Permit>| (e matches ConPollEvt::Permit(Poll::Ready(Err(_)))),
            |e: ConPollEvt<S::Permit>|
                {
                    ||| (e matches ConPollEvt::Event(Some(_)))
                    ||| (e matches ConPollEvt::Datagram(Some(_)))
                    ||| (e matches ConPollEvt::Stream(Some(_)))
                },
            |e: ConPollEvt<S::Permit>|
                e == ConPollEvt::<S::Permit>::Event(Some(ConEvent::DatagramReceived)),
        );
        self.lemma_at(flags, pairs, first, steps, steps.len() as int);
        assert(steps.take(steps.len() as int) =~= steps);
    }
}

} // verus!
