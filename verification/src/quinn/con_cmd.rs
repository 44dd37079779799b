//! Taking commands for a connection.
use super::calls;
use super::calls::ConCall;
use super::con_poll::ConFlags;
use super::proto;
use super::proto::con_remote_address;
use super::proto::elapsed_ms;
use super::proto::now;
use super::proto::StreamDir;
use super::stream::StreamInfo;
use super::streams;
use super::streams::register_bi;
use super::streams::register_uni_out;
use super::streams::StreamMap;
use super::streams::StreamPairs;
use super::Wish;
use super::BYTES_CAP;
use super::CHAN_CAP;
use crate::connection::ConnectionCmd;
use crate::error::AqResult;
use crate::runtime::OnceSend;
use crate::util::Receive;
use quinn_proto::Connection;
use quinn_proto::ConnectionEvent;
use std::collections::VecDeque;
use std::task::Context;
use std::task::Poll;
use std::time::Instant;
use vstd::prelude::*;

verus! {

/// What a connection is told. `E` is an event of its endpoint.
pub enum ConCmd<E, A, U, B> {
    /// by its endpoint
    ConEvt(E),
    /// by its user
    ConCmd(ConnectionCmd<A, U, B>),
}

/// What a turn is at.
#[derive(Clone, Copy)]
pub enum CmdPhase {
    /// requests for uni-directional streams that had to wait
    UniQueue,
    /// requests for bi-directional streams that had to wait
    BiQueue,
    /// new commands
    Cmds,
}

/// What is kept from turn to turn, and where a turn is. `U` and `B` are
/// requests for streams.
pub struct ConCmdTurn<U, B> {
    /// no commands will come any more
    pub closed: bool,
    /// whether uni-directional streams may be had
    pub outbound_uni: bool,
    /// whether bi-directional streams may be had
    pub outbound_bi: bool,
    /// requests for uni-directional streams that have to wait
    pub uni_queue: VecDeque<U>,
    /// requests for bi-directional streams that have to wait
    pub bi_queue: VecDeque<B>,
    /// what the turn is at
    pub phase: CmdPhase,
    /// how many commands may still be taken in this turn
    pub left: u8,
}

/// A `ConCmdTurn` as mathematics.
#[verifier::ext_equal]
pub struct CmdState<U, B> {
    /// no commands will come any more
    pub closed: bool,
    /// whether uni-directional streams may be had
    pub outbound_uni: bool,
    /// whether bi-directional streams may be had
    pub outbound_bi: bool,
    /// requests for uni-directional streams that have to wait
    pub uni_queue: Seq<U>,
    /// requests for bi-directional streams that have to wait
    pub bi_queue: Seq<B>,
    /// what the turn is at
    pub phase: CmdPhase,
    /// how many commands may still be taken in this turn
    pub left: u8,
}

/// What came of the last action of a turn.
pub enum ConCmdEvt<E, A, U, B> {
    /// the turn begins, or a new stream is taken up
    Next,
    /// whether a uni-directional stream could be opened, for the request given
    /// or the first that waits
    OpenedUni(Option<U>, Option<u64>),
    /// whether a bi-directional stream could be opened, for the request given
    /// or the first that waits
    OpenedBi(Option<B>, Option<u64>),
    /// the next command, if there is one
    Cmd(Poll<Option<ConCmd<E, A, U, B>>>),
    /// the last command is dealt with, so many milliseconds after the turn
    /// began to take commands
    Elapsed(u128),
}

/// What to do next in a turn.
pub enum ConCmdAct<E, A, U, B> {
    /// open a uni-directional stream, for the request given or the first that
    /// waits
    OpenUni(Option<U>),
    /// open a bi-directional stream, for the request given or the first that
    /// waits
    OpenBi(Option<B>),
    /// take up the new stream and answer the request
    RegisterUni(u64, U),
    /// take up the new stream and answer the request
    RegisterBi(u64, B),
    /// see whether there is a command
    Recv,
    /// pass the event on to the connection, then look at the clock
    HandleEvent(E),
    /// answer with the remote address, then look at the clock
    RemoteAddress(A),
    /// look at the clock
    CheckTime,
    /// the turn is over
    Done(Wish),
}

impl<U, B> View for ConCmdTurn<U, B> {
    type V = CmdState<U, B>;

    open spec fn view(&self) -> CmdState<U, B> {
        CmdState {
            closed: self.closed,
            outbound_uni: self.outbound_uni,
            outbound_bi: self.outbound_bi,
            uni_queue: self.uni_queue@,
            bi_queue: self.bi_queue@,
            phase: self.phase,
            left: self.left,
        }
    }
}

/// The milliseconds after which a turn takes no further commands.
pub const CMD_MILLIS: u128 = 2;

impl<U, B> CmdState<U, B> {
    /// Whether a uni-directional stream is to be opened for a waiting request.
    pub open spec fn serves_uni(self) -> bool {
        self.phase is UniQueue && self.uni_queue.len() > 0 && self.outbound_uni
    }

    /// Whether a bi-directional stream is to be opened for a waiting request.
    pub open spec fn serves_bi(self) -> bool {
        !(self.phase is Cmds) && self.bi_queue.len() > 0 && self.outbound_bi
    }

    /// The turn in the phase that has something to do.
    pub open spec fn settled(self) -> CmdState<U, B> {
        if self.serves_uni() {
            self
        } else if self.serves_bi() {
            CmdState { phase: CmdPhase::BiQueue, ..self }
        } else {
            CmdState { phase: CmdPhase::Cmds, ..self }
        }
    }

    /// What a turn that has settled does.
    pub open spec fn begin<E, A>(self) -> ConCmdAct<E, A, U, B> {
        match self.phase {
            CmdPhase::UniQueue => ConCmdAct::OpenUni(None),
            CmdPhase::BiQueue => ConCmdAct::OpenBi(None),
            CmdPhase::Cmds => if self.left == 0 {
                ConCmdAct::Done(Wish { more_work: true, want_close: false })
            } else {
                ConCmdAct::Recv
            },
        }
    }

    /// What a command means, one of those that may still be taken.
    pub open spec fn on_cmd<E, A>(self, cmd: ConCmd<E, A, U, B>) -> (
        CmdState<U, B>,
        ConCmdAct<E, A, U, B>,
    ) {
        match cmd {
            ConCmd::ConEvt(evt) => (self, ConCmdAct::HandleEvent(evt)),
            ConCmd::ConCmd(ConnectionCmd::GetRemoteAddress(rsp)) => (
                self,
                ConCmdAct::RemoteAddress(rsp),
            ),
            ConCmd::ConCmd(ConnectionCmd::OpenUniStream(req)) => if self.outbound_uni {
                (self, ConCmdAct::OpenUni(Some(req)))
            } else {
                (
                    CmdState { uni_queue: self.uni_queue.push(req), ..self },
                    ConCmdAct::CheckTime,
                )
            },
            ConCmd::ConCmd(ConnectionCmd::OpenBiStream(req)) => if self.outbound_bi {
                (self, ConCmdAct::OpenBi(Some(req)))
            } else {
                (
                    CmdState { bi_queue: self.bi_queue.push(req), ..self },
                    ConCmdAct::CheckTime,
                )
            },
        }
    }

    /// What a turn does next, and the turn after that.
    pub open spec fn next<E, A>(self, evt: ConCmdEvt<E, A, U, B>) -> (
        CmdState<U, B>,
        ConCmdAct<E, A, U, B>,
    ) {
        match evt {
            ConCmdEvt::Next => if self.closed {
                (self, ConCmdAct::Done(Wish { more_work: false, want_close: true }))
            } else {
                (self.settled(), self.settled().begin())
            },
            ConCmdEvt::OpenedUni(None, Some(id)) => (
                CmdState { uni_queue: self.uni_queue.skip(1), ..self },
                ConCmdAct::RegisterUni(id, self.uni_queue[0]),
            ),
            ConCmdEvt::OpenedUni(None, None) => {
                let after = CmdState { outbound_uni: false, ..self }.settled();
                (after, after.begin())
            },
            ConCmdEvt::OpenedUni(Some(req), Some(id)) => (self, ConCmdAct::RegisterUni(id, req)),
            ConCmdEvt::OpenedUni(Some(req), None) => (
                CmdState { outbound_uni: false, uni_queue: self.uni_queue.push(req), ..self },
                ConCmdAct::CheckTime,
            ),
            ConCmdEvt::OpenedBi(None, Some(id)) => (
                CmdState { bi_queue: self.bi_queue.skip(1), ..self },
                ConCmdAct::RegisterBi(id, self.bi_queue[0]),
            ),
            ConCmdEvt::OpenedBi(None, None) => {
                let after = CmdState { outbound_bi: false, ..self }.settled();
                (after, after.begin())
            },
            ConCmdEvt::OpenedBi(Some(req), Some(id)) => (self, ConCmdAct::RegisterBi(id, req)),
            ConCmdEvt::OpenedBi(Some(req), None) => (
                CmdState { outbound_bi: false, bi_queue: self.bi_queue.push(req), ..self },
                ConCmdAct::CheckTime,
            ),
            ConCmdEvt::Cmd(Poll::Pending) => (
                self,
                ConCmdAct::Done(Wish { more_work: false, want_close: false }),
            ),
            ConCmdEvt::Cmd(Poll::Ready(None)) => (
                CmdState { closed: true, ..self },
                ConCmdAct::Done(Wish { more_work: false, want_close: true }),
            ),
            ConCmdEvt::Cmd(Poll::Ready(Some(cmd))) => CmdState {
                left: (self.left - 1) as u8,
                ..self
            }.on_cmd(cmd),
            ConCmdEvt::Elapsed(ms) => if ms >= CMD_MILLIS {
                (self, ConCmdAct::Done(Wish { more_work: true, want_close: false }))
            } else {
                (self.settled(), self.settled().begin())
            },
        }
    }

    /// Whether a turn can be in this state when it hands out this action.
    pub open spec fn turn_ok<E, A>(self, act: ConCmdAct<E, A, U, B>) -> bool {
        &&& act is Recv ==> self.phase is Cmds && self.left > 0
        &&& act matches ConCmdAct::OpenUni(req) ==> {
            &&& self.outbound_uni
            &&& req is None ==> self.serves_uni()
            &&& req is Some ==> self.phase is Cmds
        }
        &&& act matches ConCmdAct::OpenBi(req) ==> {
            &&& self.outbound_bi
            &&& req is None ==> self.phase is BiQueue && self.serves_bi()
            &&& req is Some ==> self.phase is Cmds
        }
        &&& act is HandleEvent || act is RemoteAddress || act is CheckTime ==> self.phase is Cmds
        &&& act matches ConCmdAct::Done(wish) ==> wish.want_close == self.closed && (wish.more_work
            ==> !wish.want_close)
        &&& self.closed ==> act is Done
        &&& !(self.phase is UniQueue) ==> (self.uni_queue.len() > 0 ==> !self.outbound_uni)
        &&& self.phase is Cmds ==> (self.bi_queue.len() > 0 ==> !self.outbound_bi)
    }

    /// How many phases are still to come, this one included.
    pub open spec fn phases_left(self) -> int {
        match self.phase {
            CmdPhase::UniQueue => 3,
            CmdPhase::BiQueue => 2,
            CmdPhase::Cmds => 1,
        }
    }

    /// How much a turn still has to do.
    pub open spec fn todo(self) -> int {
        match self.phase {
            CmdPhase::UniQueue => self.uni_queue.len() as int,
            CmdPhase::BiQueue => self.bi_queue.len() as int,
            CmdPhase::Cmds => self.left as int,
        }
    }
}

/// How far an action is from the next command.
pub open spec fn cmd_distance<E, A, U, B>(act: ConCmdAct<E, A, U, B>) -> int {
    match act {
        ConCmdAct::Done(_) => 0,
        ConCmdAct::Recv => 1,
        ConCmdAct::RegisterUni(..) => 3,
        ConCmdAct::RegisterBi(..) => 3,
        ConCmdAct::OpenUni(Some(_)) => 4,
        ConCmdAct::OpenBi(Some(_)) => 4,
        ConCmdAct::OpenUni(None) => 1,
        ConCmdAct::OpenBi(None) => 1,
        _ => 2,
    }
}

/// Whether an event answers an action.
pub open spec fn cmd_answers<E, A, U, B>(
    act: ConCmdAct<E, A, U, B>,
    evt: ConCmdEvt<E, A, U, B>,
) -> bool {
    match act {
        ConCmdAct::OpenUni(req) => evt matches ConCmdEvt::OpenedUni(r, _) && r == req,
        ConCmdAct::OpenBi(req) => evt matches ConCmdEvt::OpenedBi(r, _) && r == req,
        ConCmdAct::RegisterUni(..) | ConCmdAct::RegisterBi(..) => evt is Next,
        ConCmdAct::Recv => evt is Cmd,
        ConCmdAct::Done(_) => false,
        _ => evt is Elapsed,
    }
}

/// The law of a turn at taking commands: every step keeps it in order and
/// brings it nearer to its end. In order means: a waiting request is never
/// passed by a new one of its kind, and no request waits while its kind of
/// stream may be had.
pub proof fn law_con_cmd_turn<E, A, U, B>(
    turn: CmdState<U, B>,
    act: ConCmdAct<E, A, U, B>,
    evt: ConCmdEvt<E, A, U, B>,
)
    requires
        turn.turn_ok(act),
        cmd_answers(act, evt),
    ensures
        ({
            let (after, then) = turn.next(evt);
            &&& after.turn_ok(then)
            &&& decreases_to!(turn.phases_left(), turn.todo(), cmd_distance(act) => after.phases_left(), after.todo(), cmd_distance(then))
            &&& then matches ConCmdAct::RegisterUni(_, req) ==> {
                ||| turn.uni_queue.len() > 0 && req == turn.uni_queue[0] && after.uni_queue
                    == turn.uni_queue.skip(1)
                ||| turn.uni_queue.len() == 0 && act == ConCmdAct::<E, A, U, B>::OpenUni(Some(req))
            }
            &&& then matches ConCmdAct::RegisterBi(_, req) ==> {
                ||| turn.bi_queue.len() > 0 && req == turn.bi_queue[0] && after.bi_queue
                    == turn.bi_queue.skip(1)
                ||| turn.bi_queue.len() == 0 && act == ConCmdAct::<E, A, U, B>::OpenBi(Some(req))
            }
            &&& then is Done && !after.closed ==> {
                &&& after.uni_queue.len() > 0 ==> !after.outbound_uni
                &&& after.bi_queue.len() > 0 ==> !after.outbound_bi
            }
        }),
{
}

/// A step of a turn: what came of its last action, the call of the connection
/// that it took, if any, and what it left of the commands, the streams, the
/// connection and the time that taking commands began.
#[verifier::reject_recursive_types(A)]
#[verifier::reject_recursive_types(U)]
#[verifier::reject_recursive_types(B)]
#[verifier::reject_recursive_types(C)]
#[verifier::reject_recursive_types(RB)]
#[verifier::reject_recursive_types(WB)]
pub struct ConCmdStep<A, U, B, C, RB, WB> {
    /// what came of it
    pub evt: ConCmdEvt<ConnectionEvent, A, U, B>,
    /// the call that it took
    pub call: Option<ConCall>,
    /// where the commands come from, after it
    pub recv: C,
    /// the streams after it
    pub streams: Map<u64, StreamInfo<RB, WB>>,
    /// the connection after it
    pub con: Connection,
    /// when taking commands began
    pub start: Option<Instant>,
}

/// A turn after these steps, and what it does then.
pub open spec fn con_cmd_run<A, U, B, C, RB, WB>(
    turn: CmdState<U, B>,
    steps: Seq<ConCmdStep<A, U, B, C, RB, WB>>,
) -> (CmdState<U, B>, ConCmdAct<ConnectionEvent, A, U, B>)
    decreases steps.len(),
{
    if steps.len() == 0 {
        (turn, ConCmdAct::Recv)
    } else {
        con_cmd_run(turn, steps.drop_last()).0.next(steps.last().evt)
    }
}

impl<U, B> CmdState<U, B> {
    /// What a turn begins with, by what is known of the connection.
    pub open spec fn restarted(self, flags: ConFlags) -> CmdState<U, B> {
        CmdState {
            outbound_uni: flags.outbound_uni,
            outbound_bi: flags.outbound_bi,
            phase: CmdPhase::UniQueue,
            left: CHAN_CAP,
            ..self
        }
    }
}

impl<U, B> ConCmdTurn<U, B> {
    /// The state of a new connection.
    pub fn new() -> (r: Self)
        ensures
            r@ == (CmdState {
                closed: false,
                outbound_uni: true,
                outbound_bi: true,
                uni_queue: Seq::<U>::empty(),
                bi_queue: Seq::<B>::empty(),
                phase: CmdPhase::UniQueue,
                left: CHAN_CAP,
            }),
    {
        ConCmdTurn {
            closed: false,
            outbound_uni: true,
            outbound_bi: true,
            uni_queue: VecDeque::new(),
            bi_queue: VecDeque::new(),
            phase: CmdPhase::UniQueue,
            left: CHAN_CAP,
        }
    }

    /// Begin a turn with what is known of the connection.
    pub fn restart(&mut self, flags: ConFlags)
        ensures
            final(self)@ == old(self)@.restarted(flags),
    {
        self.outbound_uni = flags.outbound_uni;
        self.outbound_bi = flags.outbound_bi;
        self.phase = CmdPhase::UniQueue;
        self.left = CHAN_CAP;
    }

    fn settle<E, A>(&mut self) -> (r: ConCmdAct<E, A, U, B>)
        ensures
            final(self)@ == old(self)@.settled(),
            r == final(self)@.begin::<E, A>(),
    {
        if matches!(self.phase, CmdPhase::UniQueue) && self.uni_queue.len() > 0
            && self.outbound_uni {
            ConCmdAct::OpenUni(None)
        } else if !matches!(self.phase, CmdPhase::Cmds) && self.bi_queue.len() > 0
            && self.outbound_bi {
            self.phase = CmdPhase::BiQueue;
            ConCmdAct::OpenBi(None)
        } else {
            self.phase = CmdPhase::Cmds;
            if self.left == 0 {
                ConCmdAct::Done(Wish { more_work: true, want_close: false })
            } else {
                ConCmdAct::Recv
            }
        }
    }

    fn take_cmd<E, A>(&mut self, cmd: ConCmd<E, A, U, B>) -> (r: ConCmdAct<E, A, U, B>)
        ensures
            (final(self)@, r) == old(self)@.on_cmd(cmd),
    {
        match cmd {
            ConCmd::ConEvt(evt) => ConCmdAct::HandleEvent(evt),
            ConCmd::ConCmd(ConnectionCmd::GetRemoteAddress(rsp)) => ConCmdAct::RemoteAddress(rsp),
            ConCmd::ConCmd(ConnectionCmd::OpenUniStream(req)) => {
                if self.outbound_uni {
                    ConCmdAct::OpenUni(Some(req))
                } else {
                    self.uni_queue.push_back(req);
                    ConCmdAct::CheckTime
                }
            },
            ConCmd::ConCmd(ConnectionCmd::OpenBiStream(req)) => {
                if self.outbound_bi {
                    ConCmdAct::OpenBi(Some(req))
                } else {
                    self.bi_queue.push_back(req);
                    ConCmdAct::CheckTime
                }
            },
        }
    }

    /// Go one step on in the turn.
    pub fn step<E, A>(&mut self, evt: ConCmdEvt<E, A, U, B>) -> (r: ConCmdAct<E, A, U, B>)
        requires
            evt is Cmd ==> old(self).left > 0,
            evt matches ConCmdEvt::OpenedUni(None, _) ==> old(self).uni_queue@.len() > 0,
            evt matches ConCmdEvt::OpenedBi(None, _) ==> old(self).bi_queue@.len() > 0,
        ensures
            (final(self)@, r) == old(self)@.next(evt),
    {
        match evt {
            ConCmdEvt::Next => {
                if self.closed {
                    ConCmdAct::Done(Wish { more_work: false, want_close: true })
                } else {
                    self.settle()
                }
            },
            ConCmdEvt::OpenedUni(None, Some(id)) => {
                let req = self.uni_queue.pop_front().unwrap();
                assert(self.uni_queue@ =~= old(self)@.uni_queue.skip(1));
                ConCmdAct::RegisterUni(id, req)
            },
            ConCmdEvt::OpenedUni(None, None) => {
                self.outbound_uni = false;
                self.settle()
            },
            ConCmdEvt::OpenedUni(Some(req), Some(id)) => ConCmdAct::RegisterUni(id, req),
            ConCmdEvt::OpenedUni(Some(req), None) => {
                self.outbound_uni = false;
                self.uni_queue.push_back(req);
                ConCmdAct::CheckTime
            },
            ConCmdEvt::OpenedBi(None, Some(id)) => {
                let req = self.bi_queue.pop_front().unwrap();
                assert(self.bi_queue@ =~= old(self)@.bi_queue.skip(1));
                ConCmdAct::RegisterBi(id, req)
            },
            ConCmdEvt::OpenedBi(None, None) => {
                self.outbound_bi = false;
                self.settle()
            },
            ConCmdEvt::OpenedBi(Some(req), Some(id)) => ConCmdAct::RegisterBi(id, req),
            ConCmdEvt::OpenedBi(Some(req), None) => {
                self.outbound_bi = false;
                self.bi_queue.push_back(req);
                ConCmdAct::CheckTime
            },
            ConCmdEvt::Cmd(Poll::Pending) => ConCmdAct::Done(
                Wish { more_work: false, want_close: false },
            ),
            ConCmdEvt::Cmd(Poll::Ready(None)) => {
                self.closed = true;
                ConCmdAct::Done(Wish { more_work: false, want_close: true })
            },
            ConCmdEvt::Cmd(Poll::Ready(Some(cmd))) => {
                self.left = self.left - 1;
                self.take_cmd(cmd)
            },
            ConCmdEvt::Elapsed(ms) => {
                if ms >= CMD_MILLIS {
                    ConCmdAct::Done(Wish { more_work: true, want_close: false })
                } else {
                    self.settle()
                }
            },
        }
    }
}

/// Whether `ms` is how many milliseconds ago `start` was, as the clock has it;
/// none where it has not been yet.
pub closed spec fn elapsed(start: Option<Instant>, ms: u128) -> bool {
    match start {
        Some(start) => call_ensures(elapsed_ms, (&start,), ms),
        None => ms == 0,
    }
}

/// Whether `after` is when taking commands began: as before, or else the time
/// that the clock has now.
pub closed spec fn started(before: Option<Instant>, after: Option<Instant>) -> bool {
    match before {
        Some(_) => after == before,
        None => after matches Some(time) && call_ensures(now, (), time),
    }
}

/// How many milliseconds ago it was, as the clock has it; none where it has not
/// been yet.
fn since(start: &Option<Instant>) -> (r: u128)
    ensures
        elapsed(*start, r),
{
    match start {
        Some(start) => elapsed_ms(start),
        None => 0,
    }
}

/// When taking commands began: now, unless it has already.
fn begun(start: Option<Instant>) -> (r: Option<Instant>)
    ensures
        started(start, r),
{
    match start {
        Some(start) => Some(start),
        None => Some(now()),
    }
}

/// Takes commands for a connection.
#[verifier::reject_recursive_types(A)]
#[verifier::reject_recursive_types(U)]
#[verifier::reject_recursive_types(B)]
pub struct ConCmdDriver<A, U, B, C: Receive<ConCmd<ConnectionEvent, A, U, B>>> {
    /// where the commands come from
    pub con_cmd_recv: C,
    /// what is kept from turn to turn
    pub turn: ConCmdTurn<U, B>,
    /// what commands are about
    pub marker: std::marker::PhantomData<A>,
}

impl<
    A: OnceSend<AqResult<core::net::SocketAddr>>,
    U,
    B,
    C: Receive<ConCmd<ConnectionEvent, A, U, B>>,
> ConCmdDriver<A, U, B, C> {
    /// The driver of a new connection.
    pub fn new(con_cmd_recv: C) -> (r: Self)
        ensures
            r.con_cmd_recv == con_cmd_recv,
            !r.turn.closed,
            r.turn.uni_queue@.len() == 0,
            r.turn.bi_queue@.len() == 0,
    {
        ConCmdDriver {
            con_cmd_recv,
            turn: ConCmdTurn::new(),
            marker: std::marker::PhantomData,
        }
    }

    /// Whether a new stream that we write was taken up, and whoever asked for
    /// it was given the user's end.
    pub open spec fn took_uni<M: StreamPairs>(
        pairs: M,
        before: Map<u64, StreamInfo<M::ReadBack, M::WriteBack>>,
        after: Map<u64, StreamInfo<M::ReadBack, M::WriteBack>>,
        id: u64,
        req: U,
    ) -> bool where U: OnceSend<AqResult<M::WriteFront>> {
        exists|wf: M::WriteFront|
            {
                &&& #[trigger] streams::took_uni_out(pairs, before, after, id, wf)
                &&& call_ensures(U::send, (req, Ok(wf)), ())
            }
    }

    /// Whether a new stream that we write and read was taken up, and whoever
    /// asked for it was given the user's ends.
    pub open spec fn took_bi<M: StreamPairs>(
        pairs: M,
        before: Map<u64, StreamInfo<M::ReadBack, M::WriteBack>>,
        after: Map<u64, StreamInfo<M::ReadBack, M::WriteBack>>,
        id: u64,
        req: B,
    ) -> bool where B: OnceSend<AqResult<(M::WriteFront, M::ReadFront)>> {
        exists|fronts: (M::WriteFront, M::ReadFront)|
            {
                &&& #[trigger] streams::took_bi(pairs, before, after, id, fronts)
                &&& call_ensures(B::send, (req, Ok(fronts)), ())
            }
    }

    /// Whether an action was done after the step `prev`, and `step` is what came
    /// of it. Where no call was made the connection is what it was.
    pub open spec fn did<M: StreamPairs>(
        pairs: M,
        prev: ConCmdStep<A, U, B, C, M::ReadBack, M::WriteBack>,
        act: ConCmdAct<ConnectionEvent, A, U, B>,
        step: ConCmdStep<A, U, B, C, M::ReadBack, M::WriteBack>,
    ) -> bool where
        U: OnceSend<AqResult<M::WriteFront>>,
        B: OnceSend<AqResult<(M::WriteFront, M::ReadFront)>>,
     {
        &&& cmd_answers(act, step.evt)
        &&& step.call is None ==> step.con == prev.con
        &&& !(act is RegisterUni || act is RegisterBi) ==> step.streams == prev.streams
        &&& !(act is Recv) ==> step.recv == prev.recv && step.start == prev.start
        &&& step.call == (match act {
            ConCmdAct::OpenUni(_) => Some(ConCall::Open(StreamDir::Uni, step.evt->OpenedUni_1)),
            ConCmdAct::OpenBi(_) => Some(ConCall::Open(StreamDir::Bi, step.evt->OpenedBi_1)),
            ConCmdAct::HandleEvent(e) => Some(ConCall::HandleEvent(e)),
            _ => None,
        })
        &&& match act {
            ConCmdAct::OpenUni(_) | ConCmdAct::OpenBi(_) => true,
            ConCmdAct::RegisterUni(id, req) => Self::took_uni(
                pairs,
                prev.streams,
                step.streams,
                id,
                req,
            ),
            ConCmdAct::RegisterBi(id, req) => Self::took_bi(
                pairs,
                prev.streams,
                step.streams,
                id,
                req,
            ),
            ConCmdAct::Recv => started(prev.start, step.start),
            ConCmdAct::HandleEvent(_) => elapsed(step.start, step.evt->Elapsed_0),
            ConCmdAct::RemoteAddress(rsp) => {
                &&& call_ensures(A::send, (rsp, Ok(proto::con_remote(prev.con))), ())
                &&& elapsed(step.start, step.evt->Elapsed_0)
            },
            ConCmdAct::CheckTime => elapsed(step.start, step.evt->Elapsed_0),
            ConCmdAct::Done(_) => false,
        }
    }

    /// The step that a turn begins with.
    pub open spec fn first<RB, WB>(
        self,
        streams: Map<u64, StreamInfo<RB, WB>>,
        con: Connection,
    ) -> ConCmdStep<A, U, B, C, RB, WB> {
        ConCmdStep {
            evt: ConCmdEvt::Next,
            call: None,
            recv: self.con_cmd_recv,
            streams,
            con,
            start: None,
        }
    }

    /// Whether the steps begin a turn, and each is what came of what the turn
    /// did last.
    pub open spec fn trace<M: StreamPairs>(
        turn: CmdState<U, B>,
        pairs: M,
        first: ConCmdStep<A, U, B, C, M::ReadBack, M::WriteBack>,
        steps: Seq<ConCmdStep<A, U, B, C, M::ReadBack, M::WriteBack>>,
    ) -> bool where
        U: OnceSend<AqResult<M::WriteFront>>,
        B: OnceSend<AqResult<(M::WriteFront, M::ReadFront)>>,

        decreases steps.len(),
    {
        &&& steps.len() > 0
        &&& steps.len() == 1 ==> steps[0] == first
        &&& steps.len() > 1 ==> {
            let before = steps.drop_last();
            &&& Self::trace(turn, pairs, first, before)
            &&& Self::did(pairs, before.last(), con_cmd_run(turn, before).1, steps.last())
        }
    }

    /// Whether a turn with these steps was made: it ends with this wish, and
    /// leaves the turn like this.
    pub open spec fn made<M: StreamPairs>(
        turn: CmdState<U, B>,
        pairs: M,
        first: ConCmdStep<A, U, B, C, M::ReadBack, M::WriteBack>,
        steps: Seq<ConCmdStep<A, U, B, C, M::ReadBack, M::WriteBack>>,
        end: CmdState<U, B>,
        wish: Wish,
    ) -> bool where
        U: OnceSend<AqResult<M::WriteFront>>,
        B: OnceSend<AqResult<(M::WriteFront, M::ReadFront)>>,
     {
        &&& Self::trace(turn, pairs, first, steps)
        &&& con_cmd_run(turn, steps) == (end, ConCmdAct::<ConnectionEvent, A, U, B>::Done(wish))
    }

    proof fn lemma_push<M: StreamPairs>(
        turn: CmdState<U, B>,
        pairs: M,
        first: ConCmdStep<A, U, B, C, M::ReadBack, M::WriteBack>,
        steps: Seq<ConCmdStep<A, U, B, C, M::ReadBack, M::WriteBack>>,
        step: ConCmdStep<A, U, B, C, M::ReadBack, M::WriteBack>,
    ) where
        U: OnceSend<AqResult<M::WriteFront>>,
        B: OnceSend<AqResult<(M::WriteFront, M::ReadFront)>>,

        requires
            steps.len() == 0 ==> step == first,
            steps.len() > 0 ==> Self::trace(turn, pairs, first, steps) && Self::did(
                pairs,
                steps.last(),
                con_cmd_run(turn, steps).1,
                step,
            ),
        ensures
            Self::trace(turn, pairs, first, steps.push(step)),
            con_cmd_run(turn, steps.push(step)) == con_cmd_run(turn, steps).0.next(step.evt),
    {
        assert(steps.push(step).drop_last() =~= steps);
    }

    /// Take commands for one turn, as `ConCmdTurn` says.
    pub fn poll<M: StreamPairs>(
        &mut self,
        cx: &mut Context<'_>,
        flags: &mut ConFlags,
        pairs: &M,
        streams: &mut StreamMap<M::ReadBack, M::WriteBack>,
        connection: &mut Connection,
    ) -> (r: Wish) where
        U: OnceSend<AqResult<M::WriteFront>>,
        B: OnceSend<AqResult<(M::WriteFront, M::ReadFront)>>,

        ensures
            exists|steps: Seq<ConCmdStep<A, U, B, C, M::ReadBack, M::WriteBack>>|
                {
                    &&& #[trigger] Self::made(
                        old(self).turn@.restarted(*old(flags)),
                        *pairs,
                        old(self).first(old(streams)@, *old(connection)),
                        steps,
                        final(self).turn@,
                        r,
                    )
                    &&& steps.last().recv == final(self).con_cmd_recv
                    &&& steps.last().streams == final(streams)@
                    &&& steps.last().con == *final(connection)
                    &&& forall|i: int|
                        0 < i < steps.len() ==> ((#[trigger] steps[i].call) matches Some(call)
                            ==> exists|a: &mut Connection|
                            {
                                &&& *a == steps[i - 1].con
                                &&& *final(a) == steps[i].con
                                &&& #[trigger] calls::made(a, call)
                            })
                    &&& forall|i: int|
                        0 < i < steps.len() ==> ((#[trigger] steps[i].evt) matches ConCmdEvt::Cmd(
                            got,
                        ) ==> exists|a: &mut C, ctx: &mut Context<'_>|
                            {
                                &&& *a == steps[i - 1].recv
                                &&& *final(a) == steps[i].recv
                                &&& #[trigger] call_ensures(C::poll_next, (a, ctx), got)
                            })
                },
            final(flags).outbound_uni == final(self).turn.outbound_uni,
            final(flags).outbound_bi == final(self).turn.outbound_bi,
            r.want_close == final(self).turn.closed,
            r.more_work ==> !r.want_close,
            final(flags).inbound_datagrams == old(flags).inbound_datagrams,
            final(flags).inbound_uni == old(flags).inbound_uni,
            final(flags).inbound_bi == old(flags).inbound_bi,
            final(flags).outbound_uni ==> old(flags).outbound_uni,
            final(flags).outbound_bi ==> old(flags).outbound_bi,
            old(streams)@.dom().subset_of(final(streams)@.dom()),
            !final(self).turn.closed ==> {
                &&& final(self).turn.uni_queue@.len() > 0 ==> !final(flags).outbound_uni
                &&& final(self).turn.bi_queue@.len() > 0 ==> !final(flags).outbound_bi
            },
            old(self).turn.closed ==> {
                &&& r.want_close
                &&& final(self).con_cmd_recv == old(self).con_cmd_recv
                &&& *final(connection) == *old(connection)
                &&& final(streams)@ == old(streams)@
                &&& *final(flags) == *old(flags)
                &&& final(self).turn.uni_queue@ == old(self).turn.uni_queue@
                &&& final(self).turn.bi_queue@ == old(self).turn.bi_queue@
            },
    {
        self.turn.restart(*flags);
        let ghost turn_was = self.turn@;
        let ghost first = self.first(streams@, *connection);
        let ghost mut trace = Seq::<ConCmdStep<A, U, B, C, M::ReadBack, M::WriteBack>>::empty();
        proof {
            Self::lemma_push(turn_was, *pairs, first, trace, first);
            trace = trace.push(first);
        }
        let mut start: Option<Instant> = None;
        let mut act: ConCmdAct<ConnectionEvent, A, U, B> = self.turn.step(ConCmdEvt::Next);
        loop
            invariant
                turn_was == old(self).turn@.restarted(*old(flags)),
                first == old(self).first(old(streams)@, *old(connection)),
                trace.len() > 0,
                Self::trace(turn_was, *pairs, first, trace),
                con_cmd_run(turn_was, trace) == (self.turn@, act),
                trace.last().recv == self.con_cmd_recv,
                trace.last().streams == streams@,
                trace.last().con == *connection,
                trace.last().start == start,
                forall|i: int|
                    0 < i < trace.len() ==> ((#[trigger] trace[i].call) matches Some(call)
                        ==> exists|a: &mut Connection|
                        {
                            &&& *a == trace[i - 1].con
                            &&& *final(a) == trace[i].con
                            &&& #[trigger] calls::made(a, call)
                        }),
                forall|i: int|
                    0 < i < trace.len() ==> ((#[trigger] trace[i].evt) matches ConCmdEvt::Cmd(
                        got,
                    ) ==> exists|a: &mut C, ctx: &mut Context<'_>|
                        {
                            &&& *a == trace[i - 1].recv
                            &&& *final(a) == trace[i].recv
                            &&& #[trigger] call_ensures(C::poll_next, (a, ctx), got)
                        }),
                self.turn@.turn_ok(act),
                self.turn.outbound_uni ==> old(flags).outbound_uni,
                self.turn.outbound_bi ==> old(flags).outbound_bi,
                *flags == *old(flags),
                old(streams)@.dom().subset_of(streams@.dom()),
                old(self).turn.closed ==> {
                    &&& self.turn.closed
                    &&& act is Done
                    &&& self.con_cmd_recv == old(self).con_cmd_recv
                    &&& *connection == *old(connection)
                    &&& streams@ == old(streams)@
                    &&& self.turn.outbound_uni == flags.outbound_uni
                    &&& self.turn.outbound_bi == flags.outbound_bi
                    &&& self.turn.uni_queue@ == old(self).turn.uni_queue@
                    &&& self.turn.bi_queue@ == old(self).turn.bi_queue@
                },
                act is Done && !self.turn.closed ==> self.turn.phase is Cmds,
            decreases self.turn@.phases_left(), self.turn@.todo(), cmd_distance(act),
        {
            let ghost before = self.turn@;
            let ghost asked = act;
            let evt: ConCmdEvt<ConnectionEvent, A, U, B>;
            let ghost mut call: Option<ConCall> = None;
            match act {
                ConCmdAct::Done(wish) => {
                    flags.outbound_uni = self.turn.outbound_uni;
                    flags.outbound_bi = self.turn.outbound_bi;
                    assert(Self::made(turn_was, *pairs, first, trace, self.turn@, wish));
                    return wish;
                },
                ConCmdAct::OpenUni(req) => {
                    let got = calls::open(connection, StreamDir::Uni);
                    proof {
                        call = Some(ConCall::Open(StreamDir::Uni, got));
                    }
                    evt = ConCmdEvt::OpenedUni(req, got);
                },
                ConCmdAct::OpenBi(req) => {
                    let got = calls::open(connection, StreamDir::Bi);
                    proof {
                        call = Some(ConCall::Open(StreamDir::Bi, got));
                    }
                    evt = ConCmdEvt::OpenedBi(req, got);
                },
                ConCmdAct::RegisterUni(id, req) => {
                    let wf = register_uni_out(pairs, streams, id);
                    req.send(Ok(wf));
                    assert(Self::took_uni(*pairs, trace.last().streams, streams@, id, req));
                    evt = ConCmdEvt::Next;
                },
                ConCmdAct::RegisterBi(id, req) => {
                    let ends = register_bi(pairs, streams, id);
                    req.send(Ok(ends));
                    assert(Self::took_bi(*pairs, trace.last().streams, streams@, id, req));
                    evt = ConCmdEvt::Next;
                },
                ConCmdAct::Recv => {
                    start = begun(start);
                    evt = ConCmdEvt::Cmd(self.con_cmd_recv.poll_next(cx));
                },
                ConCmdAct::HandleEvent(e) => {
                    calls::take_event(connection, e);
                    proof {
                        call = Some(ConCall::HandleEvent(e));
                    }
                    evt = ConCmdEvt::Elapsed(since(&start));
                },
                ConCmdAct::RemoteAddress(rsp) => {
                    rsp.send(Ok(con_remote_address(connection)));
                    evt = ConCmdEvt::Elapsed(since(&start));
                },
                ConCmdAct::CheckTime => {
                    evt = ConCmdEvt::Elapsed(since(&start));
                },
            }
            proof {
                law_con_cmd_turn(before, asked, evt);
                let step = ConCmdStep {
                    evt,
                    call,
                    recv: self.con_cmd_recv,
                    streams: streams@,
                    con: *connection,
                    start,
                };
                Self::lemma_push(turn_was, *pairs, first, trace, step);
                trace = trace.push(step);
            }
            act = self.turn.step(evt);
        }
    }
}

/// The law of requests for uni-directional streams: none is lost, and none is
/// passed by another. A request that comes has a stream opened for it where one
/// may be had, and goes to the end of those that wait where none may, or none
/// is there after all. A stream that was opened is taken up for the request that
/// it was opened for: that one, or the first that waits, which leaves then. No
/// such stream may be had, until the connection says so again, exactly from
/// where none was there.
pub proof fn law_cmd_uni<E, A, U, B>(turn: CmdState<U, B>, evt: ConCmdEvt<E, A, U, B>)
    requires
        evt is Cmd ==> turn.left > 0,
        evt matches ConCmdEvt::OpenedUni(None, _) ==> turn.uni_queue.len() > 0,
        evt matches ConCmdEvt::OpenedBi(None, _) ==> turn.bi_queue.len() > 0,
    ensures
        ({
            let (after, then) = turn.next(evt);
            let was = turn.uni_queue;
            let now = after.uni_queue;
            &&& match evt {
                ConCmdEvt::OpenedUni(None, Some(id)) => {
                    &&& then matches ConCmdAct::RegisterUni(n, req)
                    &&& n == id
                    &&& was == seq![req] + now
                },
                ConCmdEvt::OpenedUni(Some(req), Some(id)) => {
                    &&& then == ConCmdAct::<E, A, U, B>::RegisterUni(id, req)
                    &&& now == was
                },
                ConCmdEvt::OpenedUni(Some(req), None) => {
                    &&& now.len() == was.len() + 1
                    &&& now.drop_last() == was
                    &&& now.last() == req
                },
                ConCmdEvt::Cmd(
                    Poll::Ready(Some(ConCmd::ConCmd(ConnectionCmd::OpenUniStream(req)))),
                ) => if turn.outbound_uni {
                    &&& then == ConCmdAct::<E, A, U, B>::OpenUni(Some(req))
                    &&& now == was
                } else {
                    &&& now.len() == was.len() + 1
                    &&& now.drop_last() == was
                    &&& now.last() == req
                },
                _ => now == was,
            }
            &&& then is RegisterUni ==> (evt matches ConCmdEvt::OpenedUni(_, Some(_)))
            &&& then == ConCmdAct::<E, A, U, B>::OpenUni(None) ==> now.len() > 0 && after.outbound_uni
            &&& then matches ConCmdAct::OpenUni(Some(req)) ==> evt == ConCmdEvt::<E, A, U, B>::Cmd(
                Poll::Ready(Some(ConCmd::ConCmd(ConnectionCmd::OpenUniStream(req)))),
            )
            &&& after.outbound_uni <==> turn.outbound_uni && !(
            evt matches ConCmdEvt::OpenedUni(_, None))
        }),
{
    let (after, then) = turn.next(evt);
    let was = turn.uni_queue;
    if after.uni_queue.len() > was.len() {
        assert(after.uni_queue.drop_last() =~= was);
    }
    if let ConCmdEvt::OpenedUni(None, Some(_)) = evt {
        assert(was =~= seq![was[0]] + was.skip(1));
    }
}

/// The law of requests for bi-directional streams: none is lost, and none is
/// passed by another. A request that comes has a stream opened for it where one
/// may be had, and goes to the end of those that wait where none may, or none
/// is there after all. A stream that was opened is taken up for the request that
/// it was opened for: that one, or the first that waits, which leaves then. No
/// such stream may be had, until the connection says so again, exactly from
/// where none was there.
pub proof fn law_cmd_bi<E, A, U, B>(turn: CmdState<U, B>, evt: ConCmdEvt<E, A, U, B>)
    requires
        evt is Cmd ==> turn.left > 0,
        evt matches ConCmdEvt::OpenedUni(None, _) ==> turn.uni_queue.len() > 0,
        evt matches ConCmdEvt::OpenedBi(None, _) ==> turn.bi_queue.len() > 0,
    ensures
        ({
            let (after, then) = turn.next(evt);
            let was = turn.bi_queue;
            let now = after.bi_queue;
            &&& match evt {
                ConCmdEvt::OpenedBi(None, Some(id)) => {
                    &&& then matches ConCmdAct::RegisterBi(n, req)
                    &&& n == id
                    &&& was == seq![req] + now
                },
                ConCmdEvt::OpenedBi(Some(req), Some(id)) => {
                    &&& then == ConCmdAct::<E, A, U, B>::RegisterBi(id, req)
                    &&& now == was
                },
                ConCmdEvt::OpenedBi(Some(req), None) => {
                    &&& now.len() == was.len() + 1
                    &&& now.drop_last() == was
                    &&& now.last() == req
                },
                ConCmdEvt::Cmd(
                    Poll::Ready(Some(ConCmd::ConCmd(ConnectionCmd::OpenBiStream(req)))),
                ) => if turn.outbound_bi {
                    &&& then == ConCmdAct::<E, A, U, B>::OpenBi(Some(req))
                    &&& now == was
                } else {
                    &&& now.len() == was.len() + 1
                    &&& now.drop_last() == was
                    &&& now.last() == req
                },
                _ => now == was,
            }
            &&& then is RegisterBi ==> (evt matches ConCmdEvt::OpenedBi(_, Some(_)))
            &&& then == ConCmdAct::<E, A, U, B>::OpenBi(None) ==> now.len() > 0 && after.outbound_bi
            &&& then matches ConCmdAct::OpenBi(Some(req)) ==> evt == ConCmdEvt::<E, A, U, B>::Cmd(
                Poll::Ready(Some(ConCmd::ConCmd(ConnectionCmd::OpenBiStream(req)))),
            )
            &&& after.outbound_bi <==> turn.outbound_bi && !(
            evt matches ConCmdEvt::OpenedBi(_, None))
        }),
{
    let (after, then) = turn.next(evt);
    let was = turn.bi_queue;
    if after.bi_queue.len() > was.len() {
        assert(after.bi_queue.drop_last() =~= was);
    }
    if let ConCmdEvt::OpenedBi(None, Some(_)) = evt {
        assert(was =~= seq![was[0]] + was.skip(1));
    }
}

/// The law of the course of a turn: it begins with the requests that wait, of
/// the first kind and then of the other, as long as streams may be had; then
/// commands are taken, at most sixty-four of them, until none is there, no more
/// will come or two milliseconds have gone by. Each command is what it says:
/// an event goes to the connection, and who asks for the remote address is
/// answered. A turn wishes for another exactly where the time or the number of
/// commands ended it.
pub proof fn law_cmd_course<E, A, U, B>(
    turn: CmdState<U, B>,
    act: ConCmdAct<E, A, U, B>,
    evt: ConCmdEvt<E, A, U, B>,
    e: E,
    rsp: A,
)
    requires
        turn.turn_ok(act),
        cmd_answers(act, evt),
    ensures
        ({
            let (after, then) = turn.next(evt);
            let late = evt matches ConCmdEvt::Elapsed(ms) && ms >= 2;
            let ended = turn.closed || late || (evt matches ConCmdEvt::Cmd(r) && !(
            r matches Poll::Ready(Some(_))));
            let goes_on = !ended && (evt is Next || evt is Elapsed || evt == ConCmdEvt::<E, A, U, B>::OpenedUni(
                None,
                None,
            ) || evt == ConCmdEvt::<E, A, U, B>::OpenedBi(None, None));
            let uni = after.uni_queue.len() > 0 && after.outbound_uni;
            let bi = after.bi_queue.len() > 0 && after.outbound_bi;
            &&& then == ConCmdAct::<E, A, U, B>::HandleEvent(e) <==> evt == ConCmdEvt::<E, A, U, B>::Cmd(
                Poll::Ready(Some(ConCmd::ConEvt(e))),
            )
            &&& then == ConCmdAct::<E, A, U, B>::RemoteAddress(rsp) <==> evt == ConCmdEvt::<E, A, U, B>::Cmd(
                Poll::Ready(Some(ConCmd::ConCmd(ConnectionCmd::GetRemoteAddress(rsp)))),
            )
            &&& after.closed <==> turn.closed || evt == ConCmdEvt::<E, A, U, B>::Cmd(Poll::Ready(None))
            &&& after.left == if evt matches ConCmdEvt::Cmd(Poll::Ready(Some(_))) {
                turn.left - 1
            } else {
                turn.left as int
            }
            &&& goes_on ==> if uni {
                then == ConCmdAct::<E, A, U, B>::OpenUni(None)
            } else if bi {
                then == ConCmdAct::<E, A, U, B>::OpenBi(None)
            } else if after.left > 0 {
                then is Recv
            } else {
                then is Done
            }
            &&& then is Done <==> ended || goes_on && !uni && !bi && after.left == 0
            &&& then matches ConCmdAct::Done(wish) ==> {
                &&& wish.want_close == after.closed
                &&& wish.more_work <==> !after.closed && evt != ConCmdEvt::<E, A, U, B>::Cmd(Poll::Pending)
            }
            &&& then is Recv ==> goes_on
        }),
{
}

/// The law of the beginning of a turn: it keeps the requests that wait, knows
/// of streams what the connection said of them, and goes to the requests first.
pub proof fn law_cmd_begins<E, A, U, B>(turn: CmdState<U, B>, flags: ConFlags)
    ensures
        ({
            let (after, then) = turn.restarted(flags).next::<E, A>(ConCmdEvt::Next);
            &&& after.uni_queue == turn.uni_queue
            &&& after.bi_queue == turn.bi_queue
            &&& after.closed == turn.closed
            &&& after.outbound_uni == flags.outbound_uni
            &&& after.outbound_bi == flags.outbound_bi
            &&& after.left == 64
            &&& turn.closed ==> then == ConCmdAct::<E, A, U, B>::Done(Wish { more_work: false, want_close: true })
            &&& !turn.closed ==> if turn.uni_queue.len() > 0 && flags.outbound_uni {
                then == ConCmdAct::<E, A, U, B>::OpenUni(None)
            } else if turn.bi_queue.len() > 0 && flags.outbound_bi {
                then == ConCmdAct::<E, A, U, B>::OpenBi(None)
            } else {
                then is Recv
            }
        }),
{
}

impl<
    A: OnceSend<AqResult<core::net::SocketAddr>>,
    U,
    B,
    C: Receive<ConCmd<ConnectionEvent, A, U, B>>,
> ConCmdDriver<A, U, B, C> {
    /// Each step of a turn but the first came of what the turn did before.
    proof fn lemma_at<M: StreamPairs>(
        turn: CmdState<U, B>,
        pairs: M,
        first: ConCmdStep<A, U, B, C, M::ReadBack, M::WriteBack>,
        steps: Seq<ConCmdStep<A, U, B, C, M::ReadBack, M::WriteBack>>,
        i: int,
    ) where
        U: OnceSend<AqResult<M::WriteFront>>,
        B: OnceSend<AqResult<(M::WriteFront, M::ReadFront)>>,

        requires
            Self::trace(turn, pairs, first, steps),
            0 < i < steps.len(),
        ensures
            Self::did(pairs, steps[i - 1], con_cmd_run(turn, steps.take(i)).1, steps[i]),
            con_cmd_run(turn, steps.take(i + 1)) == con_cmd_run(turn, steps.take(i)).0.next(
                steps[i].evt,
            ),
        decreases steps.len(),
    {
        if i + 1 == steps.len() {
            assert(steps.take(i) =~= steps.drop_last());
            assert(steps.take(i + 1) =~= steps);
        } else {
            Self::lemma_at(turn, pairs, first, steps.drop_last(), i);
            assert(steps.drop_last().take(i) =~= steps.take(i));
            assert(steps.drop_last().take(i + 1) =~= steps.take(i + 1));
        }
    }

    /// The law of commands, over a turn: every event was handed to the
    /// connection; who asked for the remote address was sent the one that the
    /// connection has; a stream is asked for of the kind that a request is for,
    /// and what the connection answered is what is dealt with. Streams come only
    /// of requests. Nothing is done once the turn is over.
    pub proof fn law_commands_done<M: StreamPairs>(
        turn: CmdState<U, B>,
        pairs: M,
        first: ConCmdStep<A, U, B, C, M::ReadBack, M::WriteBack>,
        steps: Seq<ConCmdStep<A, U, B, C, M::ReadBack, M::WriteBack>>,
        i: int,
    ) where
        U: OnceSend<AqResult<M::WriteFront>>,
        B: OnceSend<AqResult<(M::WriteFront, M::ReadFront)>>,

        requires
            Self::trace(turn, pairs, first, steps),
            0 < i < steps.len(),
        ensures
            i + 1 < steps.len() ==> {
                let (was, now) = (steps[i], steps[i + 1]);
                &&& was.evt matches ConCmdEvt::Cmd(Poll::Ready(Some(ConCmd::ConEvt(e)))) ==> now.call
                    == Some(ConCall::HandleEvent(e))
                &&& was.evt matches ConCmdEvt::Cmd(
                    Poll::Ready(Some(ConCmd::ConCmd(ConnectionCmd::GetRemoteAddress(rsp)))),
                ) ==> {
                    &&& call_ensures(A::send, (rsp, Ok(proto::con_remote(was.con))), ())
                    &&& now.con == was.con
                }
                &&& was.evt is OpenedUni || was.evt is OpenedBi || now.streams == was.streams
            },
            steps[i].evt matches ConCmdEvt::OpenedUni(_, id) ==> steps[i].call == Some(
                ConCall::Open(StreamDir::Uni, id),
            ),
            steps[i].evt matches ConCmdEvt::OpenedBi(_, id) ==> steps[i].call == Some(
                ConCall::Open(StreamDir::Bi, id),
            ),
            !(con_cmd_run(turn, steps.take(i)).1 is Done),
    {
        Self::lemma_at(turn, pairs, first, steps, i);
        if i + 1 < steps.len() {
            Self::lemma_at(turn, pairs, first, steps, i + 1);
        }
    }

    /// The law of requests for uni-directional streams, over a turn: once a
    /// stream was opened it is there, to be written, and the user's end of just
    /// that stream was sent to the request that it was opened for, or to the
    /// first that waits.
    pub proof fn law_uni_answered<M: StreamPairs>(
        turn: CmdState<U, B>,
        pairs: M,
        first: ConCmdStep<A, U, B, C, M::ReadBack, M::WriteBack>,
        steps: Seq<ConCmdStep<A, U, B, C, M::ReadBack, M::WriteBack>>,
        i: int,
        req: U,
        id: u64,
    ) where
        U: OnceSend<AqResult<M::WriteFront>>,
        B: OnceSend<AqResult<(M::WriteFront, M::ReadFront)>>,

        requires
            Self::trace(turn, pairs, first, steps),
            0 < i < steps.len() - 1,
            ({
                let waiting = con_cmd_run(turn, steps.take(i)).0.uni_queue;
                ||| steps[i].evt == ConCmdEvt::<ConnectionEvent, A, U, B>::OpenedUni(
                    Some(req),
                    Some(id),
                )
                ||| waiting.len() > 0 && waiting[0] == req && steps[i].evt == ConCmdEvt::<
                    ConnectionEvent,
                    A,
                    U,
                    B,
                >::OpenedUni(None, Some(id))
            }),
        ensures
            steps[i + 1].streams.contains_key(id),
            steps[i + 1].streams.remove(id) == steps[i].streams.remove(id),
            steps[i + 1].streams[id].stream_id == id,
            steps[i + 1].streams[id].read is None,
            steps[i + 1].streams[id].write is Some,
            steps[i + 1].streams[id].writable,
            exists|wf: M::WriteFront|
                {
                    &&& #[trigger] call_ensures(
                        M::write_pair,
                        (&pairs, BYTES_CAP),
                        (steps[i + 1].streams[id].write->0, wf),
                    )
                    &&& call_ensures(U::send, (req, Ok(wf)), ())
                },
    {
        Self::lemma_at(turn, pairs, first, steps, i);
        Self::lemma_at(turn, pairs, first, steps, i + 1);
        let (was, now) = (steps[i].streams, steps[i + 1].streams);
        streams::law_took(pairs, was, now, id);
        assert(was.dom().insert(id).contains(id));
        let wf = choose|wf: M::WriteFront|
            {
                &&& #[trigger] streams::took_uni_out(pairs, was, now, id, wf)
                &&& call_ensures(U::send, (req, Ok(wf)), ())
            };
        assert(streams::took_uni_out(pairs, was, now, id, wf));
        let wb = now[id].write->0;
        assert(call_ensures(M::write_pair, (&pairs, BYTES_CAP), (wb, wf)));
    }

    /// The law of requests for bi-directional streams, over a turn: once a
    /// stream was opened it is there, to be written and read, and the user's
    /// ends of just that stream were sent to the request that it was opened for,
    /// or to the first that waits.
    pub proof fn law_bi_answered<M: StreamPairs>(
        turn: CmdState<U, B>,
        pairs: M,
        first: ConCmdStep<A, U, B, C, M::ReadBack, M::WriteBack>,
        steps: Seq<ConCmdStep<A, U, B, C, M::ReadBack, M::WriteBack>>,
        i: int,
        req: B,
        id: u64,
    ) where
        U: OnceSend<AqResult<M::WriteFront>>,
        B: OnceSend<AqResult<(M::WriteFront, M::ReadFront)>>,

        requires
            Self::trace(turn, pairs, first, steps),
            0 < i < steps.len() - 1,
            ({
                let waiting = con_cmd_run(turn, steps.take(i)).0.bi_queue;
                ||| steps[i].evt == ConCmdEvt::<ConnectionEvent, A, U, B>::OpenedBi(
                    Some(req),
                    Some(id),
                )
                ||| waiting.len() > 0 && waiting[0] == req && steps[i].evt == ConCmdEvt::<
                    ConnectionEvent,
                    A,
                    U,
                    B,
                >::OpenedBi(None, Some(id))
            }),
        ensures
            steps[i + 1].streams.contains_key(id),
            steps[i + 1].streams.remove(id) == steps[i].streams.remove(id),
            steps[i + 1].streams[id].stream_id == id,
            steps[i + 1].streams[id].read is Some,
            steps[i + 1].streams[id].write is Some,
            steps[i + 1].streams[id].writable,
            exists|wf: M::WriteFront, rf: M::ReadFront|
                {
                    &&& #[trigger] call_ensures(
                        M::write_pair,
                        (&pairs, BYTES_CAP),
                        (steps[i + 1].streams[id].write->0, wf),
                    )
                    &&& #[trigger] call_ensures(
                        M::read_pair,
                        (&pairs, BYTES_CAP),
                        (steps[i + 1].streams[id].read->0, rf),
                    )
                    &&& call_ensures(B::send, (req, Ok((wf, rf))), ())
                },
    {
        Self::lemma_at(turn, pairs, first, steps, i);
        Self::lemma_at(turn, pairs, first, steps, i + 1);
        let (was, now) = (steps[i].streams, steps[i + 1].streams);
        streams::law_took(pairs, was, now, id);
        assert(was.dom().insert(id).contains(id));
        let fronts = choose|fronts: (M::WriteFront, M::ReadFront)|
            {
                &&& #[trigger] streams::took_bi(pairs, was, now, id, fronts)
                &&& call_ensures(B::send, (req, Ok(fronts)), ())
            };
        let (wf, rf) = fronts;
        assert(streams::took_bi(pairs, was, now, id, (wf, rf)));
        let (wb, rb) = (now[id].write->0, now[id].read->0);
        assert(call_ensures(M::write_pair, (&pairs, BYTES_CAP), (wb, wf)));
        assert(call_ensures(M::read_pair, (&pairs, BYTES_CAP), (rb, rf)));
    }
}

} // verus!
