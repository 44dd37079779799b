//! Taking commands for an endpoint, a whole turn at a time.
use super::command;
use super::command::CommandAct;
use super::command::CommandDriver;
use super::command::CommandEvt;
use super::command::EpCmd;
use super::ep;
use super::ep::connect_said;
use super::ep::EpCall;
use super::ep::QuinnEndpoint;
use super::ep_evt::answer;
use super::ep_evt::EpEvt;
use super::packets;
use super::packets::register_con;
use super::packets::ConSenders;
use super::packets::ConSpawn;
use super::packets::Connections;
use super::proto;
use super::Wish;
use crate::backend::UdpBackendCmd;
use crate::endpoint::EndpointCmd;
use crate::error::AqErr;
use crate::error::AqResult;
use crate::runtime::MultiSend;
use crate::runtime::MultiSender;
use crate::runtime::MultiSenderPoll;
use crate::runtime::OnceSend;
use crate::util::Receive;
use quinn_proto::ClientConfig;
use quinn_proto::Connection;
use quinn_proto::ConnectionEvent;
use quinn_proto::Endpoint;
use std::task::Context;
use std::task::Poll;
use vstd::prelude::*;

verus! {

/// What an endpoint is told: by a connection that has the permit `P` for the
/// answer, or by its user.
pub type QuinnEpCmd<P, L, S> = EpCmd<EpEvt<P>, L, S, core::net::SocketAddr>;

/// What to do next in a turn at taking commands. `Q` is the permit to ask the
/// socket.
pub type EpCmdAct<Q, P, L, S> = CommandAct<
    Q,
    EpEvt<P>,
    L,
    S,
    core::net::SocketAddr,
    (usize, Connection),
>;

/// What came of the last action of such a turn.
pub type EpCmdEvt<Q, P, L, S> = CommandEvt<
    Q,
    EpEvt<P>,
    L,
    S,
    core::net::SocketAddr,
    (usize, Connection),
>;

/// How a turn ends.
#[derive(Clone, Copy)]
pub enum CommandEnd {
    /// with this wish
    Wish(Wish),
    /// at an event of a connection that the endpoint does not know
    Unknown(usize),
}

/// A step of a turn: what came of its last action, which call of the endpoint
/// was made for it, and what it left behind.
#[verifier::reject_recursive_types(L)]
#[verifier::reject_recursive_types(S)]
#[verifier::reject_recursive_types(SU)]
#[verifier::reject_recursive_types(SC)]
pub struct EpCmdStep<
    L,
    S,
    SC: MultiSend<ConnectionEvent>,
    SU: MultiSend<UdpBackendCmd<L>>,
    R: Receive<QuinnEpCmd<SC::Permit, L, S>>,
> {
    /// what came of it
    pub evt: EpCmdEvt<SU::Permit, SC::Permit, L, S>,
    /// the call of the endpoint
    pub call: Option<EpCall>,
    /// the way to the socket after it
    pub send: MultiSenderPoll<UdpBackendCmd<L>, SU>,
    /// where commands come from after it
    pub recv: R,
    /// the connections after it
    pub cons: ConSenders<SC>,
    /// the endpoint after it
    pub endpoint: Endpoint,
}

/// Takes commands for an endpoint.
#[verifier::reject_recursive_types(L)]
#[verifier::reject_recursive_types(S)]
#[verifier::reject_recursive_types(SU)]
#[verifier::reject_recursive_types(SC)]
pub struct EpCmdDriver<
    L,
    S,
    SC: MultiSend<ConnectionEvent>,
    SU: MultiSend<UdpBackendCmd<L>>,
    R: Receive<QuinnEpCmd<SC::Permit, L, S>>,
> {
    /// how connections to others are made
    pub client_config: ClientConfig,
    /// where commands come from
    pub ep_cmd_recv: R,
    /// the way to the socket
    pub udp_cmd_send: MultiSenderPoll<UdpBackendCmd<L>, SU>,
    /// what is kept from turn to turn
    pub turn: CommandDriver<SU::Permit>,
    /// what commands are about
    pub marker: std::marker::PhantomData<(S, SC)>,
}

impl<
    L: OnceSend<AqResult<core::net::SocketAddr>>,
    S,
    SC: MultiSend<ConnectionEvent>,
    SU: MultiSend<UdpBackendCmd<L>>,
    R: Receive<QuinnEpCmd<SC::Permit, L, S>>,
> EpCmdDriver<L, S, SC, SU, R> {
    /// The driver of a new endpoint.
    pub fn new(
        client_config: ClientConfig,
        ep_cmd_recv: R,
        udp_cmd_send: MultiSender<UdpBackendCmd<L>, SU>,
    ) -> (r: Self)
        ensures
            r.client_config == client_config,
            r.ep_cmd_recv == ep_cmd_recv,
            r.udp_cmd_send.send == udp_cmd_send,
            r.udp_cmd_send.fut is None,
            !r.turn.recv_closed,
            !r.turn.udp_closed,
    {
        EpCmdDriver {
            client_config,
            ep_cmd_recv,
            udp_cmd_send: MultiSenderPoll::new(udp_cmd_send),
            turn: CommandDriver::new(),
            marker: std::marker::PhantomData,
        }
    }

    /// Whether a new connection was taken up, and whoever asked for it was
    /// given the user's ends.
    pub open spec fn given<X, V, M: ConSpawn<X, V, SC>>(
        spawn: M,
        before: ConSenders<SC>,
        after: ConSenders<SC>,
        hnd: usize,
        con: Connection,
        rsp: S,
    ) -> bool where S: OnceSend<AqResult<(X, V)>> {
        exists|front: (X, V)|
            {
                &&& #[trigger] packets::took_con(spawn, before, after, hnd, con, front)
                &&& call_ensures(S::send, (rsp, Ok(front)), ())
            }
    }

    /// Whether an action was done after the step `prev`, and `step` is what came
    /// of it. Where the endpoint was not called it is what it was, and so is
    /// whatever else the action does not speak of. An event is taken up only of
    /// a connection that the endpoint knows.
    pub open spec fn did<X, V, M: ConSpawn<X, V, SC>>(
        config: ClientConfig,
        spawn: M,
        prev: EpCmdStep<L, S, SC, SU, R>,
        act: EpCmdAct<SU::Permit, SC::Permit, L, S>,
        step: EpCmdStep<L, S, SC, SU, R>,
    ) -> bool where S: OnceSend<AqResult<(X, V)>> {
        &&& command::command_answers(act, step.evt)
        &&& !(act is AcquireUdp) ==> step.send == prev.send
        &&& !(act is Recv) ==> step.recv == prev.recv
        &&& !(act is Register) ==> step.cons == prev.cons
        &&& step.call is None ==> step.endpoint == prev.endpoint
        &&& !(act is HandleEvent || act is Connect) ==> step.call is None
        &&& match act {
            CommandAct::AcquireUdp => prev.send.acquires(step.send, step.evt->UdpPermit_0),
            CommandAct::Recv => true,
            CommandAct::HandleEvent(EpEvt { hnd, evt, rsp }) => {
                &&& proto::ep_handles(prev.endpoint).contains(hnd)
                &&& step.call matches Some(EpCall::HandleEvent(h, e, res))
                &&& h == hnd
                &&& e == evt
                &&& res matches Some(back) ==> call_ensures(SC::Permit::send, (rsp, back), ())
            },
            CommandAct::AskUdp(permit, rsp) => call_ensures(
                SU::Permit::send,
                (permit, UdpBackendCmd::GetLocalAddress(rsp)),
                (),
            ),
            CommandAct::RefuseAddress(rsp, err) => call_ensures(L::send, (rsp, Err(err)), ()),
            CommandAct::Connect(_, addr, server_name) => {
                &&& step.call matches Some(EpCall::Connect(c, a, name, got))
                &&& c == config
                &&& a == addr
                &&& name == server_name@
                &&& ep::says_connect(got, step.evt->Connected_1)
            },
            CommandAct::RefuseConnect(rsp, err) => call_ensures(S::send, (rsp, Err(err)), ()),
            CommandAct::Register(rsp, (hnd, con)) => Self::given(
                spawn,
                prev.cons,
                step.cons,
                hnd,
                con,
                rsp,
            ),
            CommandAct::Done(_) => false,
        }
    }

    /// The step that a turn begins with.
    pub open spec fn first(self, cons: ConSenders<SC>, endpoint: Endpoint) -> EpCmdStep<
        L,
        S,
        SC,
        SU,
        R,
    > {
        EpCmdStep {
            evt: CommandEvt::Next,
            call: None,
            send: self.udp_cmd_send,
            recv: self.ep_cmd_recv,
            cons,
            endpoint,
        }
    }

    /// The turn after these steps, and what it does then.
    pub open spec fn run(
        turn: CommandDriver<SU::Permit>,
        steps: Seq<EpCmdStep<L, S, SC, SU, R>>,
    ) -> (CommandDriver<SU::Permit>, EpCmdAct<SU::Permit, SC::Permit, L, S>)
        decreases steps.len(),
    {
        if steps.len() == 0 {
            (turn, CommandAct::Recv)
        } else {
            Self::run(turn, steps.drop_last()).0.next(steps.last().evt)
        }
    }

    /// Whether the steps begin a turn, and each is what came of what the turn
    /// did last.
    pub open spec fn trace<X, V, M: ConSpawn<X, V, SC>>(
        self,
        spawn: M,
        first: EpCmdStep<L, S, SC, SU, R>,
        steps: Seq<EpCmdStep<L, S, SC, SU, R>>,
    ) -> bool where S: OnceSend<AqResult<(X, V)>>
        decreases steps.len(),
    {
        &&& steps.len() > 0
        &&& steps.len() == 1 ==> steps[0] == first
        &&& steps.len() > 1 ==> {
            let before = steps.drop_last();
            &&& self.trace(spawn, first, before)
            &&& Self::did(
                self.client_config,
                spawn,
                before.last(),
                Self::run(self.turn.restarted(), before).1,
                steps.last(),
            )
        }
    }

    /// Whether a turn with these steps was made: it ends like this, and leaves
    /// the turn like this.
    pub open spec fn made<X, V, M: ConSpawn<X, V, SC>>(
        self,
        spawn: M,
        first: EpCmdStep<L, S, SC, SU, R>,
        steps: Seq<EpCmdStep<L, S, SC, SU, R>>,
        after: CommandDriver<SU::Permit>,
        end: CommandEnd,
    ) -> bool where S: OnceSend<AqResult<(X, V)>> {
        let (turn, act) = Self::run(self.turn.restarted(), steps);
        &&& self.trace(spawn, first, steps)
        &&& after == turn
        &&& match end {
            CommandEnd::Wish(wish) => act == EpCmdAct::<SU::Permit, SC::Permit, L, S>::Done(wish),
            CommandEnd::Unknown(hnd) => {
                &&& act matches CommandAct::HandleEvent(evt)
                &&& evt.hnd == hnd
                &&& !proto::ep_handles(steps.last().endpoint).contains(hnd)
            },
        }
    }

    proof fn lemma_push<X, V, M: ConSpawn<X, V, SC>>(
        self,
        spawn: M,
        first: EpCmdStep<L, S, SC, SU, R>,
        steps: Seq<EpCmdStep<L, S, SC, SU, R>>,
        step: EpCmdStep<L, S, SC, SU, R>,
    ) where S: OnceSend<AqResult<(X, V)>>
        requires
            steps.len() == 0 ==> step == first,
            steps.len() > 0 ==> self.trace(spawn, first, steps) && Self::did(
                self.client_config,
                spawn,
                steps.last(),
                Self::run(self.turn.restarted(), steps).1,
                step,
            ),
        ensures
            self.trace(spawn, first, steps.push(step)),
            Self::run(self.turn.restarted(), steps.push(step)) == Self::run(
                self.turn.restarted(),
                steps,
            ).0.next(step.evt),
    {
        assert(steps.push(step).drop_last() =~= steps);
    }

    /// Take commands for one turn, as `CommandDriver` says.
    pub fn poll<X, V, M: ConSpawn<X, V, SC>>(
        &mut self,
        cx: &mut Context<'_>,
        spawn: &M,
        endpoint: &mut QuinnEndpoint,
        cons: &mut Connections<SC>,
    ) -> (r: CommandEnd) where S: OnceSend<AqResult<(X, V)>>
        requires
            old(endpoint).wf(),
        ensures
            final(endpoint).wf(),
            exists|steps: Seq<EpCmdStep<L, S, SC, SU, R>>|
                {
                    &&& #[trigger] old(self).made(
                        *spawn,
                        old(self).first(old(cons)@, old(endpoint).endpoint),
                        steps,
                        final(self).turn,
                        r,
                    )
                    &&& steps.last().send == final(self).udp_cmd_send
                    &&& steps.last().recv == final(self).ep_cmd_recv
                    &&& steps.last().cons == final(cons)@
                    &&& steps.last().endpoint == final(endpoint).endpoint
                    &&& forall|i: int|
                        0 < i < steps.len() ==> ((#[trigger] steps[i].call) matches Some(call)
                            ==> exists|a: &mut Endpoint|
                            {
                                &&& *a == steps[i - 1].endpoint
                                &&& *final(a) == steps[i].endpoint
                                &&& #[trigger] ep::made(a, call)
                            })
                    &&& forall|i: int|
                        0 < i < steps.len() ==> ((#[trigger] steps[i].evt) matches CommandEvt::Cmd(
                            got,
                        ) ==> exists|a: &mut R, ctx: &mut Context<'_>|
                            {
                                &&& *a == steps[i - 1].recv
                                &&& *final(a) == steps[i].recv
                                &&& #[trigger] call_ensures(R::poll_next, (a, ctx), got)
                            })
                },
            final(self).client_config == old(self).client_config,
            final(self).udp_cmd_send.send == old(self).udp_cmd_send.send,
            old(self).turn.udp_closed ==> final(self).turn.udp_closed,
            r matches CommandEnd::Wish(wish) ==> wish.want_close == final(self).turn.recv_closed,
            r matches CommandEnd::Unknown(hnd) ==> !final(endpoint).handles@.contains(hnd),
            old(self).turn.recv_closed ==> {
                &&& r == CommandEnd::Wish(Wish { more_work: false, want_close: true })
                &&& final(self).ep_cmd_recv == old(self).ep_cmd_recv
                &&& final(endpoint).endpoint == old(endpoint).endpoint
                &&& final(cons)@ == old(cons)@
            },
    {
        let ghost was = *self;
        self.turn.restart();
        let ghost first = was.first(cons@, endpoint.endpoint);
        let ghost mut trace = Seq::<EpCmdStep<L, S, SC, SU, R>>::empty();
        proof {
            was.lemma_push(*spawn, first, trace, first);
            trace = trace.push(first);
        }
        let mut act: EpCmdAct<SU::Permit, SC::Permit, L, S> = self.turn.poll(CommandEvt::Next);
        loop
            invariant
                was == *old(self),
                first == was.first(old(cons)@, old(endpoint).endpoint),
                endpoint.wf(),
                trace.len() > 0,
                was.trace(*spawn, first, trace),
                Self::run(was.turn.restarted(), trace) == (self.turn, act),
                trace.last().send == self.udp_cmd_send,
                trace.last().recv == self.ep_cmd_recv,
                trace.last().cons == cons@,
                trace.last().endpoint == endpoint.endpoint,
                forall|i: int|
                    0 < i < trace.len() ==> ((#[trigger] trace[i].call) matches Some(call)
                        ==> exists|a: &mut Endpoint|
                        {
                            &&& *a == trace[i - 1].endpoint
                            &&& *final(a) == trace[i].endpoint
                            &&& #[trigger] ep::made(a, call)
                        }),
                forall|i: int|
                    0 < i < trace.len() ==> ((#[trigger] trace[i].evt) matches CommandEvt::Cmd(
                        got,
                    ) ==> exists|a: &mut R, ctx: &mut Context<'_>|
                        {
                            &&& *a == trace[i - 1].recv
                            &&& *final(a) == trace[i].recv
                            &&& #[trigger] call_ensures(R::poll_next, (a, ctx), got)
                        }),
                command::command_ok(self.turn, act),
                self.turn.left <= super::ROUNDS,
                self.client_config == was.client_config,
                self.udp_cmd_send.send == was.udp_cmd_send.send,
                was.turn.udp_closed ==> self.turn.udp_closed,
                was.turn.recv_closed ==> {
                    &&& self.turn.recv_closed
                    &&& act == EpCmdAct::<SU::Permit, SC::Permit, L, S>::Done(
                        Wish { more_work: false, want_close: true },
                    )
                    &&& self.ep_cmd_recv == was.ep_cmd_recv
                    &&& endpoint.endpoint == old(endpoint).endpoint
                    &&& cons@ == old(cons)@
                },
            decreases self.turn.left, command::command_distance(act),
        {
            let ghost before = self.turn;
            let ghost asked = act;
            let evt: EpCmdEvt<SU::Permit, SC::Permit, L, S>;
            let ghost mut call: Option<EpCall> = None;
            match act {
                CommandAct::Done(wish) => {
                    assert(was.made(*spawn, first, trace, self.turn, CommandEnd::Wish(wish)));
                    return CommandEnd::Wish(wish);
                },
                CommandAct::AcquireUdp => {
                    evt = CommandEvt::UdpPermit(self.udp_cmd_send.poll_acquire(cx));
                },
                CommandAct::Recv => {
                    evt = CommandEvt::Cmd(self.ep_cmd_recv.poll_next(cx));
                },
                CommandAct::HandleEvent(EpEvt { hnd, evt: e, rsp }) => {
                    if !endpoint.knows(hnd) {
                        assert(was.made(*spawn, first, trace, self.turn, CommandEnd::Unknown(hnd)));
                        return CommandEnd::Unknown(hnd);
                    }
                    let res = endpoint.handle_event(hnd, e);
                    proof {
                        call = Some(EpCall::HandleEvent(hnd, e, res));
                    }
                    let _ = answer(rsp, res);
                    evt = CommandEvt::Next;
                },
                CommandAct::AskUdp(permit, rsp) => {
                    permit.send(UdpBackendCmd::GetLocalAddress(rsp));
                    evt = CommandEvt::Next;
                },
                CommandAct::RefuseAddress(rsp, err) => {
                    rsp.send(Err(err));
                    evt = CommandEvt::Next;
                },
                CommandAct::Connect(rsp, addr, server_name) => {
                    let got = endpoint.connect(&self.client_config, addr, server_name.as_str());
                    proof {
                        call = Some(
                            EpCall::Connect(self.client_config, addr, server_name@, got),
                        );
                    }
                    evt = CommandEvt::Connected(rsp, connect_said(got));
                },
                CommandAct::RefuseConnect(rsp, err) => {
                    rsp.send(Err(err));
                    evt = CommandEvt::Next;
                },
                CommandAct::Register(rsp, (hnd, con)) => {
                    let front = register_con(spawn, cons, hnd, con);
                    rsp.send(Ok(front));
                    assert(Self::given(*spawn, trace.last().cons, cons@, hnd, con, rsp));
                    evt = CommandEvt::Next;
                },
            }
            proof {
                command::law_command_turn(before, asked, evt);
                let step = EpCmdStep {
                    evt,
                    call,
                    send: self.udp_cmd_send,
                    recv: self.ep_cmd_recv,
                    cons: cons@,
                    endpoint: endpoint.endpoint,
                };
                was.lemma_push(*spawn, first, trace, step);
                trace = trace.push(step);
            }
            act = self.turn.poll(evt);
        }
    }
}

impl<
    L: OnceSend<AqResult<core::net::SocketAddr>>,
    S,
    SC: MultiSend<ConnectionEvent>,
    SU: MultiSend<UdpBackendCmd<L>>,
    R: Receive<QuinnEpCmd<SC::Permit, L, S>>,
> EpCmdDriver<L, S, SC, SU, R> {
    /// Each step of a turn but the first came of what the turn did before.
    proof fn lemma_at<X, V, M: ConSpawn<X, V, SC>>(
        self,
        spawn: M,
        first: EpCmdStep<L, S, SC, SU, R>,
        steps: Seq<EpCmdStep<L, S, SC, SU, R>>,
        i: int,
    ) where S: OnceSend<AqResult<(X, V)>>
        requires
            self.trace(spawn, first, steps),
            0 < i < steps.len(),
        ensures
            Self::did(
                self.client_config,
                spawn,
                steps[i - 1],
                Self::run(self.turn.restarted(), steps.take(i)).1,
                steps[i],
            ),
            Self::run(self.turn.restarted(), steps.take(i + 1)) == Self::run(
                self.turn.restarted(),
                steps.take(i),
            ).0.next(steps[i].evt),
        decreases steps.len(),
    {
        if i + 1 == steps.len() {
            assert(steps.take(i) =~= steps.drop_last());
            assert(steps.take(i + 1) =~= steps);
        } else {
            self.lemma_at(spawn, first, steps.drop_last(), i);
            assert(steps.drop_last().take(i) =~= steps.take(i));
            assert(steps.drop_last().take(i + 1) =~= steps.take(i + 1));
        }
    }

    /// The law of commands for the endpoint, over a turn: an event of a
    /// connection was handed to the endpoint under the connection's handle, and
    /// what the endpoint answered was sent back to that connection; who asked
    /// for the local address had the socket asked, or was sent that it is gone;
    /// who asked for a connection had one made to the address and name that were
    /// given, as the endpoint is set up to make them, and was sent what went
    /// wrong where something did. Nothing is done once the turn is over.
    pub proof fn law_commands_done<X, V, M: ConSpawn<X, V, SC>>(
        self,
        spawn: M,
        first: EpCmdStep<L, S, SC, SU, R>,
        steps: Seq<EpCmdStep<L, S, SC, SU, R>>,
        i: int,
    ) where S: OnceSend<AqResult<(X, V)>>
        requires
            self.trace(spawn, first, steps),
            0 < i < steps.len() - 1,
        ensures
            ({
                let (was, now) = (steps[i], steps[i + 1]);
                let permit = Self::run(self.turn.restarted(), steps.take(i)).0.udp_send;
                &&& was.evt matches CommandEvt::Cmd(Poll::Ready(Some(EpCmd::EpEvt(said)))) ==> {
                    &&& now.call matches Some(EpCall::HandleEvent(hnd, e, back))
                    &&& hnd == said.hnd
                    &&& e == said.evt
                    &&& back matches Some(answer) ==> call_ensures(
                        SC::Permit::send,
                        (said.rsp, answer),
                        (),
                    )
                    &&& now.cons == was.cons
                }
                &&& was.evt matches CommandEvt::Cmd(
                    Poll::Ready(Some(EpCmd::EpCmd(EndpointCmd::GetLocalAddress(rsp)))),
                ) ==> {
                    &&& permit matches Some(p) ==> call_ensures(
                        SU::Permit::send,
                        (p, UdpBackendCmd::GetLocalAddress(rsp)),
                        (),
                    )
                    &&& permit is None ==> call_ensures(
                        L::send,
                        (rsp, Err(AqErr::SocketDisconnected)),
                        (),
                    )
                    &&& now.endpoint == was.endpoint
                }
                &&& was.evt matches CommandEvt::Cmd(
                    Poll::Ready(Some(EpCmd::EpCmd(EndpointCmd::Connect { sender, addr, server_name }))),
                ) ==> {
                    &&& now.call matches Some(EpCall::Connect(config, to, name, got))
                    &&& config == self.client_config
                    &&& to == addr
                    &&& name == server_name@
                    &&& now.evt matches CommandEvt::Connected(rsp, made)
                    &&& rsp == sender
                    &&& ep::says_connect(got, made)
                }
                &&& was.evt matches CommandEvt::Connected(rsp, Err(err)) ==> {
                    &&& call_ensures(S::send, (rsp, Err(err)), ())
                    &&& now.cons == was.cons
                }
                &&& was.evt is UdpPermit ==> now.endpoint == was.endpoint && now.cons == was.cons
            }),
            steps[i].evt matches CommandEvt::UdpPermit(r) ==> steps[i - 1].send.acquires(
                steps[i].send,
                r,
            ),
            !(Self::run(self.turn.restarted(), steps.take(i)).1 is Done),
    {
        self.lemma_at(spawn, first, steps, i);
        self.lemma_at(spawn, first, steps, i + 1);
    }

    /// The law of connections that were asked for, over a turn: one that was made
    /// has its driver running, is there under its handle with the sender that
    /// the driver came with, and who asked for it was sent what a user has of it;
    /// all other connections stay.
    pub proof fn law_con_given<X, V, M: ConSpawn<X, V, SC>>(
        self,
        spawn: M,
        first: EpCmdStep<L, S, SC, SU, R>,
        steps: Seq<EpCmdStep<L, S, SC, SU, R>>,
        i: int,
        rsp: S,
        hnd: usize,
        con: Connection,
    ) where S: OnceSend<AqResult<(X, V)>>
        requires
            self.trace(spawn, first, steps),
            0 < i < steps.len() - 1,
            steps[i].evt == EpCmdEvt::<SU::Permit, SC::Permit, L, S>::Connected(
                rsp,
                Ok((hnd, con)),
            ),
        ensures
            steps[i + 1].cons.contains_key(hnd),
            steps[i + 1].cons.remove(hnd) == steps[i].cons.remove(hnd),
            steps[i + 1].cons[hnd].fut is None,
            exists|front: X, events: V|
                {
                    &&& #[trigger] call_ensures(
                        M::spawn,
                        (&spawn, hnd, con),
                        (front, steps[i + 1].cons[hnd].send, events),
                    )
                    &&& call_ensures(S::send, (rsp, Ok((front, events))), ())
                },
    {
        self.lemma_at(spawn, first, steps, i);
        self.lemma_at(spawn, first, steps, i + 1);
        let (was, now) = (steps[i].cons, steps[i + 1].cons);
        let front = choose|front: (X, V)|
            {
                &&& #[trigger] packets::took_con(spawn, was, now, hnd, con, front)
                &&& call_ensures(S::send, (rsp, Ok(front)), ())
            };
        assert(packets::took_con(spawn, was, now, hnd, con, front));
        assert(now.remove(hnd) =~= was.remove(hnd));
        assert(call_ensures(M::spawn, (&spawn, hnd, con), (front.0, now[hnd].send, front.1)));
        assert(front == (front.0, front.1));
    }
}

} // verus!
