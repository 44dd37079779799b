//! Taking commands for the endpoint.
use super::Wish;
use super::ROUNDS;
use crate::endpoint::EndpointCmd;
use crate::error::AqErr;
use crate::runtime::ChanResult;
use std::task::Poll;
use vstd::prelude::*;

verus! {

/// What an endpoint is told. `V` is an event of a connection.
pub enum EpCmd<V, L, S, A> {
    /// by a connection
    EpEvt(V),
    /// by its user
    EpCmd(EndpointCmd<L, S, A>),
}

/// Takes commands for the endpoint, turn by turn. `P` is the permit to ask the
/// socket.
pub struct CommandDriver<P> {
    /// no commands will come any more
    pub recv_closed: bool,
    /// the socket takes no requests any more
    pub udp_closed: bool,
    /// to ask the socket
    pub udp_send: Option<P>,
    /// how many commands may still be taken in this turn
    pub left: u8,
    /// a command was taken
    pub more_work: bool,
}

/// What came of the last action of a turn. `C` is a new connection.
pub enum CommandEvt<P, V, L, S, A, C> {
    /// the turn begins, or the last command is dealt with
    Next,
    /// the answer to the request for a permit to ask the socket
    UdpPermit(Poll<ChanResult<P>>),
    /// the next command, if there is one
    Cmd(Poll<Option<EpCmd<V, L, S, A>>>),
    /// the connection that was asked for, or why there is none
    Connected(S, Result<C, AqErr>),
}

/// What to do next in a turn.
pub enum CommandAct<P, V, L, S, A, C> {
    /// ask for a permit to ask the socket
    AcquireUdp,
    /// see whether there is a command
    Recv,
    /// let the endpoint handle the event, and answer it
    HandleEvent(V),
    /// pass the request for the local address on to the socket
    AskUdp(P, L),
    /// answer the request for the local address with an error
    RefuseAddress(L, AqErr),
    /// let the endpoint connect
    Connect(S, A, String),
    /// answer that there is no connection
    RefuseConnect(S, AqErr),
    /// run the driver of the new connection, take it up, and answer with it
    Register(S, C),
    /// the turn is over
    Done(Wish),
}

impl<P> CommandDriver<P> {
    /// The turn at its beginning.
    pub open spec fn restarted(self) -> CommandDriver<P> {
        CommandDriver { udp_send: None, left: ROUNDS, more_work: false, ..self }
    }

    /// What a command means.
    pub open spec fn on_cmd<V, L, S, A, C>(self, cmd: EpCmd<V, L, S, A>) -> (
        CommandDriver<P>,
        CommandAct<P, V, L, S, A, C>,
    ) {
        match cmd {
            EpCmd::EpEvt(evt) => (self, CommandAct::HandleEvent(evt)),
            EpCmd::EpCmd(EndpointCmd::GetLocalAddress(rsp)) => match self.udp_send {
                Some(permit) => (
                    CommandDriver { udp_send: None, ..self },
                    CommandAct::AskUdp(permit, rsp),
                ),
                None => (self, CommandAct::RefuseAddress(rsp, AqErr::SocketDisconnected)),
            },
            EpCmd::EpCmd(EndpointCmd::Connect { sender, addr, server_name }) => (
                self,
                CommandAct::Connect(sender, addr, server_name),
            ),
        }
    }

    /// What a turn does next, and the turn after that.
    pub open spec fn next<V, L, S, A, C>(self, evt: CommandEvt<P, V, L, S, A, C>) -> (
        CommandDriver<P>,
        CommandAct<P, V, L, S, A, C>,
    ) {
        let rest = Wish { more_work: self.more_work, want_close: false };
        match evt {
            CommandEvt::Next => if self.recv_closed {
                (self, CommandAct::Done(Wish { more_work: self.more_work, want_close: true }))
            } else if self.left == 0 {
                (self, CommandAct::Done(rest))
            } else if self.udp_send is None && !self.udp_closed {
                (self, CommandAct::AcquireUdp)
            } else {
                (self, CommandAct::Recv)
            },
            CommandEvt::UdpPermit(Poll::Pending) | CommandEvt::Cmd(Poll::Pending) => (
                self,
                CommandAct::Done(rest),
            ),
            CommandEvt::UdpPermit(Poll::Ready(Err(_))) => (
                CommandDriver { udp_closed: true, ..self },
                CommandAct::Recv,
            ),
            CommandEvt::UdpPermit(Poll::Ready(Ok(permit))) => (
                CommandDriver { udp_send: Some(permit), ..self },
                CommandAct::Recv,
            ),
            CommandEvt::Cmd(Poll::Ready(None)) => (
                CommandDriver { recv_closed: true, ..self },
                CommandAct::Done(Wish { more_work: self.more_work, want_close: true }),
            ),
            CommandEvt::Cmd(Poll::Ready(Some(cmd))) => CommandDriver {
                left: (self.left - 1) as u8,
                more_work: true,
                ..self
            }.on_cmd(cmd),
            CommandEvt::Connected(rsp, Ok(con)) => (self, CommandAct::Register(rsp, con)),
            CommandEvt::Connected(rsp, Err(err)) => (self, CommandAct::RefuseConnect(rsp, err)),
        }
    }

    /// The driver of a new endpoint.
    pub fn new() -> (r: Self)
        ensures
            r == (CommandDriver {
                recv_closed: false,
                udp_closed: false,
                udp_send: None::<P>,
                left: ROUNDS,
                more_work: false,
            }),
    {
        CommandDriver {
            recv_closed: false,
            udp_closed: false,
            udp_send: None,
            left: ROUNDS,
            more_work: false,
        }
    }

    /// Begin a turn.
    pub fn restart(&mut self)
        ensures
            *final(self) == old(self).restarted(),
    {
        self.udp_send = None;
        self.left = ROUNDS;
        self.more_work = false;
    }

    fn take_cmd<V, L, S, A, C>(&mut self, cmd: EpCmd<V, L, S, A>) -> (r: CommandAct<
        P,
        V,
        L,
        S,
        A,
        C,
    >)
        ensures
            (*final(self), r) == old(self).on_cmd::<V, L, S, A, C>(cmd),
    {
        match cmd {
            EpCmd::EpEvt(evt) => CommandAct::HandleEvent(evt),
            EpCmd::EpCmd(EndpointCmd::GetLocalAddress(rsp)) => {
                match self.udp_send.take() {
                    Some(permit) => CommandAct::AskUdp(permit, rsp),
                    None => CommandAct::RefuseAddress(rsp, AqErr::SocketDisconnected),
                }
            },
            EpCmd::EpCmd(EndpointCmd::Connect { sender, addr, server_name }) => CommandAct::Connect(
                sender,
                addr,
                server_name,
            ),
        }
    }

    /// Go one step on in the turn.
    pub fn poll<V, L, S, A, C>(&mut self, evt: CommandEvt<P, V, L, S, A, C>) -> (r: CommandAct<
        P,
        V,
        L,
        S,
        A,
        C,
    >)
        requires
            evt is Cmd ==> old(self).left > 0,
        ensures
            (*final(self), r) == old(self).next(evt),
    {
        match evt {
            CommandEvt::Next => {
                if self.recv_closed {
                    CommandAct::Done(Wish { more_work: self.more_work, want_close: true })
                } else if self.left == 0 {
                    CommandAct::Done(Wish { more_work: self.more_work, want_close: false })
                } else if self.udp_send.is_none() && !self.udp_closed {
                    CommandAct::AcquireUdp
                } else {
                    CommandAct::Recv
                }
            },
            CommandEvt::UdpPermit(Poll::Pending) => CommandAct::Done(
                Wish { more_work: self.more_work, want_close: false },
            ),
            CommandEvt::Cmd(Poll::Pending) => CommandAct::Done(
                Wish { more_work: self.more_work, want_close: false },
            ),
            CommandEvt::UdpPermit(Poll::Ready(Err(_))) => {
                self.udp_closed = true;
                CommandAct::Recv
            },
            CommandEvt::UdpPermit(Poll::Ready(Ok(permit))) => {
                self.udp_send = Some(permit);
                CommandAct::Recv
            },
            CommandEvt::Cmd(Poll::Ready(None)) => {
                self.recv_closed = true;
                CommandAct::Done(Wish { more_work: self.more_work, want_close: true })
            },
            CommandEvt::Cmd(Poll::Ready(Some(cmd))) => {
                self.left = self.left - 1;
                self.more_work = true;
                self.take_cmd(cmd)
            },
            CommandEvt::Connected(rsp, Ok(con)) => CommandAct::Register(rsp, con),
            CommandEvt::Connected(rsp, Err(err)) => CommandAct::RefuseConnect(rsp, err),
        }
    }
}

/// Whether an event answers an action.
pub open spec fn command_answers<P, V, L, S, A, C>(
    act: CommandAct<P, V, L, S, A, C>,
    evt: CommandEvt<P, V, L, S, A, C>,
) -> bool {
    match act {
        CommandAct::AcquireUdp => evt is UdpPermit,
        CommandAct::Recv => evt is Cmd,
        CommandAct::Connect(rsp, _, _) => evt matches CommandEvt::Connected(r, _) && r == rsp,
        CommandAct::Done(_) => false,
        _ => evt is Next,
    }
}

/// Whether a turn can be in this state when it hands out this action: a
/// command is taken only while the socket can be asked or is known to be gone.
pub open spec fn command_ok<P, V, L, S, A, C>(
    turn: CommandDriver<P>,
    act: CommandAct<P, V, L, S, A, C>,
) -> bool {
    &&& act is AcquireUdp ==> turn.left > 0 && turn.udp_send is None && !turn.udp_closed
    &&& act is Recv ==> turn.left > 0 && (turn.udp_send is Some || turn.udp_closed)
    &&& act matches CommandAct::RefuseAddress(_, err) ==> turn.udp_closed && err
        == AqErr::SocketDisconnected
    &&& act matches CommandAct::Done(wish) ==> wish.want_close == turn.recv_closed
        && wish.more_work == turn.more_work
    &&& turn.recv_closed ==> act is Done
    &&& turn.left < ROUNDS ==> turn.more_work
}

/// How far an action is from the next command.
pub open spec fn command_distance<P, V, L, S, A, C>(act: CommandAct<P, V, L, S, A, C>) -> int {
    match act {
        CommandAct::Done(_) => 0,
        CommandAct::Recv => 1,
        CommandAct::AcquireUdp => 2,
        CommandAct::Connect(..) => 4,
        _ => 3,
    }
}

/// The law of a turn at taking commands: every step keeps it in order and
/// brings it nearer to its end, no more commands are taken than the rounds
/// allow, and a request for the local address is refused only where the socket
/// is gone.
pub proof fn law_command_turn<P, V, L, S, A, C>(
    turn: CommandDriver<P>,
    act: CommandAct<P, V, L, S, A, C>,
    evt: CommandEvt<P, V, L, S, A, C>,
)
    requires
        command_ok(turn, act),
        command_answers(act, evt),
        turn.left <= ROUNDS,
    ensures
        ({
            let (after, then) = turn.next(evt);
            &&& command_ok(after, then)
            &&& after.left <= ROUNDS
            &&& decreases_to!(turn.left as int, command_distance(act) => after.left as int, command_distance(then))
            &&& turn.udp_closed ==> after.udp_closed
        }),
{
}

/// The law of commands for the endpoint: each is what it says, and everyone who
/// asks is answered. An event goes to the endpoint; who asks for the local
/// address has the socket asked, with the permit for that, or is refused where
/// there is none; who asks for a connection gets the one that was made, or is
/// told why there is none. The permit is spent on that alone.
pub proof fn law_command_means<P, V, L, S, A, C>(
    turn: CommandDriver<P>,
    evt: CommandEvt<P, V, L, S, A, C>,
    rsp: L,
)
    requires
        evt is Cmd ==> turn.left > 0,
    ensures
        ({
            let (after, then) = turn.next(evt);
            let asks = evt == CommandEvt::<P, V, L, S, A, C>::Cmd(
                Poll::Ready(Some(EpCmd::EpCmd(EndpointCmd::GetLocalAddress(rsp)))),
            );
            &&& evt matches CommandEvt::Cmd(Poll::Ready(Some(EpCmd::EpEvt(e)))) ==> then
                == CommandAct::<P, V, L, S, A, C>::HandleEvent(e)
            &&& then matches CommandAct::HandleEvent(e) ==> evt == CommandEvt::<P, V, L, S, A, C>::Cmd(
                Poll::Ready(Some(EpCmd::EpEvt(e))),
            )
            &&& asks ==> match turn.udp_send {
                Some(permit) => then == CommandAct::<P, V, L, S, A, C>::AskUdp(permit, rsp),
                None => then == CommandAct::<P, V, L, S, A, C>::RefuseAddress(rsp, AqErr::SocketDisconnected),
            }
            &&& then matches CommandAct::AskUdp(_, to) ==> evt == CommandEvt::<P, V, L, S, A, C>::Cmd(
                Poll::Ready(Some(EpCmd::EpCmd(EndpointCmd::GetLocalAddress(to)))),
            )
            &&& then matches CommandAct::RefuseAddress(to, _) ==> evt == CommandEvt::<P, V, L, S, A, C>::Cmd(
                Poll::Ready(Some(EpCmd::EpCmd(EndpointCmd::GetLocalAddress(to)))),
            )
            &&& evt matches CommandEvt::Cmd(
                Poll::Ready(Some(EpCmd::EpCmd(EndpointCmd::Connect { sender, addr, server_name }))),
            ) ==> then == CommandAct::<P, V, L, S, A, C>::Connect(sender, addr, server_name)
            &&& then is Connect ==> evt is Cmd
            &&& evt matches CommandEvt::Connected(to, Ok(con)) ==> then == CommandAct::<P, V, L, S, A, C>::Register(to, con)
            &&& evt matches CommandEvt::Connected(to, Err(err)) ==> then == CommandAct::<P, V, L, S, A, C>::RefuseConnect(
                to,
                err,
            )
            &&& then is Register || then is RefuseConnect ==> evt is Connected
            &&& after.udp_send == if then is AskUdp {
                None
            } else {
                match evt {
                    CommandEvt::UdpPermit(Poll::Ready(Ok(permit))) => Some(permit),
                    _ => turn.udp_send,
                }
            }
        }),
{
}

/// The law of the course of a turn: commands are taken, at most thirty-two of
/// them, each only once the socket can be asked or is known to be gone; the
/// turn ends where none is there, the socket keeps it waiting, the rounds are
/// used up or no command will come, and wishes to close in this last case
/// alone.
pub proof fn law_command_course<P, V, L, S, A, C>(
    turn: CommandDriver<P>,
    evt: CommandEvt<P, V, L, S, A, C>,
)
    requires
        evt is Cmd ==> turn.left > 0,
        turn.recv_closed ==> evt is Next,
    ensures
        ({
            let (after, then) = turn.next(evt);
            let took = evt matches CommandEvt::Cmd(Poll::Ready(Some(_)));
            &&& after.recv_closed <==> turn.recv_closed || evt == CommandEvt::<P, V, L, S, A, C>::Cmd(Poll::Ready(None))
            &&& after.udp_closed <==> turn.udp_closed || (evt matches CommandEvt::UdpPermit(
                Poll::Ready(Err(_)),
            ))
            &&& after.more_work <==> turn.more_work || took
            &&& after.left == if took {
                turn.left - 1
            } else {
                turn.left as int
            }
            &&& then is Done <==> {
                ||| after.recv_closed
                ||| evt is Next && turn.left == 0
                ||| evt == CommandEvt::<P, V, L, S, A, C>::UdpPermit(Poll::Pending)
                ||| evt == CommandEvt::<P, V, L, S, A, C>::Cmd(Poll::Pending)
            }
            &&& then matches CommandAct::Done(wish) ==> {
                &&& wish.want_close == after.recv_closed
                &&& wish.more_work == after.more_work
            }
            &&& evt is Next && !(then is Done) ==> if turn.udp_send is Some || turn.udp_closed {
                then is Recv
            } else {
                then is AcquireUdp
            }
            &&& then is AcquireUdp ==> evt is Next
            &&& evt is UdpPermit && !(then is Done) ==> then is Recv
            &&& then is Recv ==> evt is Next || evt is UdpPermit
        }),
{
}

/// The law of the beginning of a turn: it knows who is gone, and begins with
/// the permit for the socket unless that is gone, with all its rounds ahead.
pub proof fn law_command_begins<P, V, L, S, A, C>(turn: CommandDriver<P>)
    ensures
        ({
            let (after, then) = turn.restarted().next::<V, L, S, A, C>(CommandEvt::Next);
            &&& after.recv_closed == turn.recv_closed
            &&& after.udp_closed == turn.udp_closed
            &&& after.udp_send is None
            &&& after.left == 32
            &&& !after.more_work
            &&& turn.recv_closed ==> then is Done
            &&& !turn.recv_closed && turn.udp_closed ==> then is Recv
            &&& !turn.recv_closed && !turn.udp_closed ==> then is AcquireUdp
        }),
{
}

} // verus!
