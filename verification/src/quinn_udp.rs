//! Udp backend backed by quinn-udp: what its driver decides.
use crate::backend::UdpBackendCmd;
use crate::error::AqErr;
use crate::quinn::connection::DRIVER_MILLIS;
use crate::quinn::Wish;
use crate::quinn::ROUNDS;
use crate::runtime::ChanResult;
use std::collections::VecDeque;
use std::sync::Arc;
use std::task::Poll;
use vstd::prelude::*;

verus! {

/// The least size of the buffers that packets are received in.
pub const MIN_UDP_SIZE: usize = 65536;

/// `quinn_udp::BATCH_SIZE`: how many packets the socket sends or receives at
/// once. It depends on the platform and is never zero.
#[verifier::external_body]
pub(crate) fn quinn_batch_size() -> (r: usize)
    ensures
        1 <= r <= 32,
{
    quinn_udp::BATCH_SIZE
}

/// The size of a channel between the user and a socket that sends or receives
/// `batch` packets at once.
pub open spec fn chan_size_of(batch: int) -> int {
    (if batch < 8 {
        8
    } else {
        batch
    }) * 2
}

/// Whether the socket says that it sends or receives `batch` packets at once.
pub closed spec fn is_batch(batch: usize) -> bool {
    call_ensures(quinn_batch_size, (), batch)
}

/// The size of a channel between the user and the socket.
pub fn chan_size() -> (r: usize)
    ensures
        exists|batch: usize|
            1 <= batch <= 32 && #[trigger] is_batch(batch) && r == chan_size_of(batch as int),
        16 <= r <= 64,
{
    let batch: usize = quinn_batch_size();
    let size: usize = if batch < 8 {
        8
    } else {
        batch
    };
    assert(is_batch(batch));
    size * 2
}

/// `quinn_udp::UdpState`: what sockets can do on this machine.
#[verifier::external_type_specification]
#[verifier::external_body]
pub struct ExUdpState(::quinn_udp::UdpState);

/// `UdpState::max_gso_segments`: how many segments a packet may hold, one at
/// least. It drops to one when a socket turns out not to take more, so no more
/// is claimed of the result.
#[verifier::external_body]
fn max_gso_segments(state: &::quinn_udp::UdpState) -> (r: usize)
    ensures
        r > 0,
{
    state.max_gso_segments()
}

/// Whether a packet may hold `n` segments, as was found out of the sockets.
pub closed spec fn allows(state: ::quinn_udp::UdpState, n: usize) -> bool {
    call_ensures(max_gso_segments, (&state,), n)
}

/// Absquic udp backend backed by the quinn-udp library. `A` is an address.
pub struct QuinnUdpBackendFactory<A> {
    /// what to bind to
    pub addr: A,
    /// the size of the buffers that packets are received in
    pub max_udp_size: usize,
    /// what sockets can do, shared with the provider for quic backends
    pub state: Arc<::quinn_udp::UdpState>,
}

impl<A> QuinnUdpBackendFactory<A> {
    /// Construct a new quinn udp backend factory, and the max gso provider for
    /// a quic backend that sends through its sockets, whose state is `state`
    pub fn new(addr: A, max_udp_size: Option<usize>, state: ::quinn_udp::UdpState) -> (r: (
        Self,
        impl Fn() -> usize,
    ))
        ensures
            r.0.addr == addr,
            *r.0.state == state,
            r.0.max_udp_size == (match max_udp_size {
                Some(size) if size > MIN_UDP_SIZE => size,
                _ => MIN_UDP_SIZE,
            }),
            call_requires(r.1, ()),
            forall|n: usize| #[trigger]
                call_ensures(r.1, (), n) ==> n > 0 && allows(state, n),
    {
        let max_udp_size: usize = match max_udp_size {
            Some(size) if size > MIN_UDP_SIZE => size,
            _ => MIN_UDP_SIZE,
        };
        let state = Arc::new(state);
        let shared = state.clone();
        let provider = move || -> (n: usize)
            ensures
                n > 0,
                allows(*shared, n),
            { max_gso_segments(&shared) };
        (QuinnUdpBackendFactory { addr, max_udp_size, state }, provider)
    }
}

/// Takes commands for the socket, turn by turn.
#[derive(Clone, Copy)]
pub struct CmdHandler {
    /// no commands will come any more
    pub cmd_recv_closed: bool,
    /// how many commands may still be taken in this turn
    pub left: u8,
}

/// What came of the last action.
pub enum CmdEvt<S> {
    /// the turn begins, or the last command is dealt with
    Next,
    /// the next command, if there is one
    Cmd(Poll<Option<UdpBackendCmd<S>>>),
}

/// What to do next.
pub enum CmdAct<S> {
    /// see whether there is a command
    Recv,
    /// answer with the local address
    LocalAddress(S),
    /// the turn is over
    Done(Wish),
    /// the driver is over
    Fail(AqErr),
}

impl CmdHandler {
    /// What the handler does next, and the handler after that.
    pub open spec fn next<S>(self, evt: CmdEvt<S>) -> (CmdHandler, CmdAct<S>) {
        match evt {
            CmdEvt::Next => if self.cmd_recv_closed {
                (self, CmdAct::Done(Wish { more_work: false, want_close: true }))
            } else if self.left == 0 {
                (self, CmdAct::Done(Wish { more_work: true, want_close: false }))
            } else {
                (self, CmdAct::Recv)
            },
            CmdEvt::Cmd(Poll::Pending) => (
                self,
                CmdAct::Done(Wish { more_work: false, want_close: false }),
            ),
            CmdEvt::Cmd(Poll::Ready(None)) => (
                CmdHandler { cmd_recv_closed: true, ..self },
                CmdAct::Done(Wish { more_work: false, want_close: true }),
            ),
            CmdEvt::Cmd(Poll::Ready(Some(UdpBackendCmd::CloseImmediate))) => (
                self,
                CmdAct::Fail(AqErr::CloseImmediate),
            ),
            CmdEvt::Cmd(Poll::Ready(Some(UdpBackendCmd::GetLocalAddress(rsp)))) => (
                CmdHandler { left: (self.left - 1) as u8, ..self },
                CmdAct::LocalAddress(rsp),
            ),
        }
    }

    /// The handler of a new socket.
    pub fn new() -> (r: Self)
        ensures
            r == (CmdHandler { cmd_recv_closed: false, left: ROUNDS }),
    {
        CmdHandler { cmd_recv_closed: false, left: ROUNDS }
    }

    /// Begin a turn.
    pub fn restart(&mut self)
        ensures
            *final(self) == (CmdHandler { left: ROUNDS, ..*old(self) }),
    {
        self.left = ROUNDS;
    }

    /// Go one step on in the turn.
    pub fn poll<S>(&mut self, evt: CmdEvt<S>) -> (r: CmdAct<S>)
        requires
            evt is Cmd ==> old(self).left > 0,
        ensures
            (*final(self), r) == old(self).next(evt),
    {
        match evt {
            CmdEvt::Next => {
                if self.cmd_recv_closed {
                    CmdAct::Done(Wish { more_work: false, want_close: true })
                } else if self.left == 0 {
                    CmdAct::Done(Wish { more_work: true, want_close: false })
                } else {
                    CmdAct::Recv
                }
            },
            CmdEvt::Cmd(Poll::Pending) => CmdAct::Done(
                Wish { more_work: false, want_close: false },
            ),
            CmdEvt::Cmd(Poll::Ready(None)) => {
                self.cmd_recv_closed = true;
                CmdAct::Done(Wish { more_work: false, want_close: true })
            },
            CmdEvt::Cmd(Poll::Ready(Some(UdpBackendCmd::CloseImmediate))) => CmdAct::Fail(
                AqErr::CloseImmediate,
            ),
            CmdEvt::Cmd(Poll::Ready(Some(UdpBackendCmd::GetLocalAddress(rsp)))) => {
                self.left = self.left - 1;
                CmdAct::LocalAddress(rsp)
            },
        }
    }
}

/// Sends packets, turn by turn. `T` is a packet.
pub struct PacketSender<T> {
    /// how many packets the socket sends at once
    pub batch: usize,
    /// packets to be sent
    pub buffer: VecDeque<T>,
    /// no packets will come any more
    pub pak_in_recv_closed: bool,
}

/// What came of the last action.
pub enum SenderEvt<T> {
    /// the turn begins
    Next,
    /// the next packet, if there is one
    Recv(Poll<Option<T>>),
    /// how many packets were sent from the front of the buffer
    Sent(Poll<usize>),
}

/// What to do next.
#[derive(Clone, Copy)]
pub enum SenderAct {
    /// see whether there is a packet
    Recv,
    /// send packets from the front of the buffer
    PollSend,
    /// the turn is over
    Done(Wish),
}

impl<T> PacketSender<T> {
    /// No more packets wait than the socket sends at once.
    pub open spec fn wf(self) -> bool {
        self.batch > 0 && self.buffer@.len() <= self.batch
    }

    /// The turn is over: the sender is done for good once no packet will come
    /// and none is left.
    pub open spec fn over(self, more_work: bool) -> SenderAct {
        SenderAct::Done(
            Wish {
                more_work,
                want_close: self.pak_in_recv_closed && self.buffer@.len() == 0,
            },
        )
    }

    /// What the sender does once no more packets are taken.
    pub open spec fn filled(self) -> SenderAct {
        if self.buffer@.len() > 0 {
            SenderAct::PollSend
        } else {
            self.over(false)
        }
    }

    /// What the sender does while there is room for packets.
    pub open spec fn filling(self) -> SenderAct {
        if !self.pak_in_recv_closed && self.buffer@.len() < self.batch {
            SenderAct::Recv
        } else {
            self.filled()
        }
    }

    /// The sender of a new socket that sends `batch` packets at once.
    pub fn new(batch: usize) -> (r: Self)
        requires
            batch > 0,
        ensures
            r.wf(),
            r.batch == batch,
            r.buffer@ == Seq::<T>::empty(),
            !r.pak_in_recv_closed,
    {
        PacketSender {
            batch,
            buffer: VecDeque::with_capacity(batch),
            pak_in_recv_closed: false,
        }
    }

    fn finish(&self, more_work: bool) -> (r: SenderAct)
        ensures
            r == self.over(more_work),
    {
        SenderAct::Done(
            Wish {
                more_work,
                want_close: self.pak_in_recv_closed && self.buffer.len() == 0,
            },
        )
    }

    fn send(&self) -> (r: SenderAct)
        ensures
            r == self.filled(),
    {
        if self.buffer.len() > 0 {
            SenderAct::PollSend
        } else {
            self.finish(false)
        }
    }

    fn fill(&self) -> (r: SenderAct)
        ensures
            r == self.filling(),
    {
        if !self.pak_in_recv_closed && self.buffer.len() < self.batch {
            SenderAct::Recv
        } else {
            self.send()
        }
    }

    /// Go one step on in the turn: packets are taken until the buffer is full
    /// or none is there, then sent once. There is more work exactly when some
    /// were sent.
    pub fn poll(&mut self, evt: SenderEvt<T>) -> (r: SenderAct)
        requires
            old(self).wf(),
            evt is Recv ==> old(self).buffer@.len() < old(self).batch,
            evt matches SenderEvt::Sent(Poll::Ready(n)) ==> 0 < n <= old(self).buffer@.len(),
        ensures
            final(self).wf(),
            final(self).batch == old(self).batch,
            match evt {
                SenderEvt::Next => *final(self) == *old(self) && r == old(self).filling(),
                SenderEvt::Recv(Poll::Pending) => *final(self) == *old(self) && r == old(
                    self).filled(),
                SenderEvt::Recv(Poll::Ready(None)) => {
                    &&& final(self).buffer == old(self).buffer
                    &&& final(self).pak_in_recv_closed
                    &&& r == final(self).filled()
                },
                SenderEvt::Recv(Poll::Ready(Some(packet))) => {
                    &&& final(self).buffer@ == old(self).buffer@.push(packet)
                    &&& final(self).pak_in_recv_closed == old(self).pak_in_recv_closed
                    &&& r == final(self).filling()
                },
                SenderEvt::Sent(Poll::Pending) => *final(self) == *old(self) && r == old(
                    self).over(false),
                SenderEvt::Sent(Poll::Ready(n)) => {
                    &&& final(self).buffer@ == old(self).buffer@.skip(n as int)
                    &&& final(self).pak_in_recv_closed == old(self).pak_in_recv_closed
                    &&& r == final(self).over(true)
                },
            },
    {
        match evt {
            SenderEvt::Next => self.fill(),
            SenderEvt::Recv(Poll::Pending) => self.send(),
            SenderEvt::Recv(Poll::Ready(None)) => {
                self.pak_in_recv_closed = true;
                self.send()
            },
            SenderEvt::Recv(Poll::Ready(Some(packet))) => {
                self.buffer.push_back(packet);
                self.fill()
            },
            SenderEvt::Sent(Poll::Pending) => self.finish(false),
            SenderEvt::Sent(Poll::Ready(n)) => {
                let mut i: usize = 0;
                assert(self.buffer@ =~= old(self).buffer@.skip(0));
                while i < n
                    invariant
                        i <= n <= old(self).buffer@.len(),
                        old(self).wf(),
                        self.buffer@ == old(self).buffer@.skip(i as int),
                        self.batch == old(self).batch,
                        self.pak_in_recv_closed == old(self).pak_in_recv_closed,
                    decreases n - i,
                {
                    let _ = self.buffer.pop_front();
                    i = i + 1;
                    assert(self.buffer@ =~= old(self).buffer@.skip(i as int));
                }
                self.finish(true)
            },
        }
    }
}

/// Receives packets, turn by turn. `P` is the permit to hand a packet on.
pub struct PacketReader<P> {
    /// how many packets the socket receives at once
    pub batch: usize,
    /// a permit for each packet that may come
    pub evt_send_permits: VecDeque<P>,
    /// nobody takes packets any more
    pub evt_send_closed: bool,
}

/// What came of receiving. `K` is a packet.
pub enum Received<K> {
    /// the other side refused a packet that was sent before
    ConnectionReset,
    /// it failed
    Failed(AqErr),
    /// packets
    Packets(Vec<K>),
}

/// What came of the last action.
pub enum ReaderEvt<P, K> {
    /// the turn begins
    Next,
    /// the answer to the request for a permit
    Permit(Poll<ChanResult<P>>),
    /// what came of receiving
    Recv(Poll<Received<K>>),
}

/// What to do next.
pub enum ReaderAct<P, K> {
    /// ask for a permit
    Acquire,
    /// receive packets
    PollRecv,
    /// hand the packets on, each with its permit; then the turn is over
    Deliver(Vec<(P, K)>, Wish),
    /// the turn is over
    Done(Wish),
    /// the driver is over
    Fail(AqErr),
}

impl<P> PacketReader<P> {
    /// There are no more permits than packets may come.
    pub open spec fn wf(self) -> bool {
        self.batch > 0 && self.evt_send_permits@.len() <= self.batch
    }

    /// The reader of a new socket that receives `batch` packets at once.
    pub fn new(batch: usize) -> (r: Self)
        requires
            batch > 0,
        ensures
            r.wf(),
            r.batch == batch,
            r.evt_send_permits@ == Seq::<P>::empty(),
            !r.evt_send_closed,
    {
        PacketReader {
            batch,
            evt_send_permits: VecDeque::with_capacity(batch),
            evt_send_closed: false,
        }
    }

    fn fill<K>(&self) -> (r: ReaderAct<P, K>)
        ensures
            self.evt_send_permits@.len() < self.batch ==> r is Acquire,
            self.evt_send_permits@.len() >= self.batch ==> r is PollRecv,
    {
        if self.evt_send_permits.len() < self.batch {
            ReaderAct::Acquire
        } else {
            ReaderAct::PollRecv
        }
    }

    /// Go one step on in the turn: packets are received only once there is a
    /// permit for each that may come.
    pub fn poll<K>(&mut self, evt: ReaderEvt<P, K>) -> (r: ReaderAct<P, K>)
        requires
            old(self).wf(),
            evt is Permit ==> old(self).evt_send_permits@.len() < old(self).batch,
            evt matches ReaderEvt::Recv(Poll::Ready(Received::Packets(packets))) ==> 0
                < packets@.len() <= old(self).evt_send_permits@.len(),
        ensures
            final(self).wf(),
            final(self).batch == old(self).batch,
            match evt {
                ReaderEvt::Next => {
                    &&& *final(self) == *old(self)
                    &&& old(self).evt_send_closed ==> r == ReaderAct::<P, K>::Done(
                        Wish { more_work: false, want_close: true },
                    )
                    &&& !old(self).evt_send_closed ==> (if old(self).evt_send_permits@.len() < old(
                        self).batch {
                        r is Acquire
                    } else {
                        r is PollRecv
                    })
                },
                ReaderEvt::Permit(Poll::Pending) => *final(self) == *old(self) && r == ReaderAct::<
                    P,
                    K,
                >::Done(Wish { more_work: false, want_close: false }),
                ReaderEvt::Permit(Poll::Ready(Err(_))) => {
                    &&& final(self).evt_send_closed
                    &&& final(self).evt_send_permits@.len() == 0
                    &&& r == ReaderAct::<P, K>::Done(
                        Wish { more_work: false, want_close: true },
                    )
                },
                ReaderEvt::Permit(Poll::Ready(Ok(permit))) => {
                    &&& final(self).evt_send_closed == old(self).evt_send_closed
                    &&& final(self).evt_send_permits@ == old(self).evt_send_permits@.push(permit)
                    &&& if final(self).evt_send_permits@.len() < final(self).batch {
                        r is Acquire
                    } else {
                        r is PollRecv
                    }
                },
                ReaderEvt::Recv(Poll::Pending) => *final(self) == *old(self) && r == ReaderAct::<
                    P,
                    K,
                >::Done(Wish { more_work: false, want_close: false }),
                ReaderEvt::Recv(Poll::Ready(Received::ConnectionReset)) => *final(self) == *old(
                    self) && r == ReaderAct::<P, K>::Done(
                    Wish { more_work: true, want_close: false },
                ),
                ReaderEvt::Recv(Poll::Ready(Received::Failed(err))) => *final(self) == *old(self)
                    && r == ReaderAct::<P, K>::Fail(err),
                ReaderEvt::Recv(Poll::Ready(Received::Packets(packets))) => {
                    &&& final(self).evt_send_closed == old(self).evt_send_closed
                    &&& final(self).evt_send_permits@ == old(self).evt_send_permits@.skip(
                        packets@.len() as int,
                    )
                    &&& r matches ReaderAct::Deliver(pairs, wish)
                    &&& wish == (Wish { more_work: true, want_close: false })
                    &&& pairs@.len() == packets@.len()
                    &&& forall|i: int|
                        0 <= i < packets@.len() ==> #[trigger] pairs@[i] == (
                            old(self).evt_send_permits@[i],
                            packets@[i],
                        )
                },
            },
    {
        match evt {
            ReaderEvt::Next => {
                if self.evt_send_closed {
                    ReaderAct::Done(Wish { more_work: false, want_close: true })
                } else {
                    self.fill()
                }
            },
            ReaderEvt::Permit(Poll::Pending) => ReaderAct::Done(
                Wish { more_work: false, want_close: false },
            ),
            ReaderEvt::Permit(Poll::Ready(Err(_))) => {
                self.evt_send_closed = true;
                self.evt_send_permits.clear();
                ReaderAct::Done(Wish { more_work: false, want_close: true })
            },
            ReaderEvt::Permit(Poll::Ready(Ok(permit))) => {
                self.evt_send_permits.push_back(permit);
                self.fill()
            },
            ReaderEvt::Recv(Poll::Pending) => ReaderAct::Done(
                Wish { more_work: false, want_close: false },
            ),
            ReaderEvt::Recv(Poll::Ready(Received::ConnectionReset)) => ReaderAct::Done(
                Wish { more_work: true, want_close: false },
            ),
            ReaderEvt::Recv(Poll::Ready(Received::Failed(err))) => ReaderAct::Fail(err),
            ReaderEvt::Recv(Poll::Ready(Received::Packets(packets))) => {
                let ghost all = packets@;
                let ghost permits = self.evt_send_permits@;
                let mut packets = packets;
                let mut pairs: Vec<(P, K)> = Vec::new();
                let n: usize = packets.len();
                assert(permits.skip(0) =~= permits);
                assert(all.skip(0) =~= all);
                while pairs.len() < n
                    invariant
                        n == all.len(),
                        n <= permits.len() <= self.batch,
                        self.batch == old(self).batch,
                        self.batch > 0,
                        self.evt_send_closed == old(self).evt_send_closed,
                        pairs@.len() <= n,
                        self.evt_send_permits@ == permits.skip(pairs@.len() as int),
                        packets@ == all.skip(pairs@.len() as int),
                        forall|i: int|
                            0 <= i < pairs@.len() ==> #[trigger] pairs@[i] == (permits[i], all[i]),
                    decreases n - pairs@.len(),
                {
                    let ghost done = pairs@.len() as int;
                    let permit = self.evt_send_permits.pop_front().unwrap();
                    let packet = packets.remove(0);
                    pairs.push((permit, packet));
                    assert(self.evt_send_permits@ =~= permits.skip(done + 1));
                    assert(packets@ =~= all.skip(done + 1));
                }
                ReaderAct::Deliver(pairs, Wish { more_work: true, want_close: false })
            },
        }
    }
}

/// What a round of the driver comes to.
pub enum RoundEnd {
    /// another round
    Again,
    /// rest; where there is more work, wake up right away
    Pend(bool),
    /// the socket is over
    Fail(AqErr),
}

/// The end of a round in which the handler, the sender and the reader said how
/// they want to go on, so many milliseconds after the driver began: the socket
/// is over if and only if all three have nothing left to do; else the driver
/// rests as soon as none has more work or its time is up, and is woken exactly
/// when there is more work.
pub fn end_round(commands: Wish, sender: Wish, reader: Wish, elapsed: u128) -> (r: RoundEnd)
    ensures
        ({
            let all_close = commands.want_close && sender.want_close && reader.want_close;
            let more_work = commands.more_work || sender.more_work || reader.more_work;
            &&& all_close ==> r == RoundEnd::Fail(AqErr::UdpDriverClosing)
            &&& !all_close && (!more_work || elapsed >= DRIVER_MILLIS) ==> r == RoundEnd::Pend(
                more_work,
            )
            &&& !all_close && more_work && elapsed < DRIVER_MILLIS ==> r is Again
        }),
{
    let more_work = commands.more_work || sender.more_work || reader.more_work;
    if commands.want_close && sender.want_close && reader.want_close {
        RoundEnd::Fail(AqErr::UdpDriverClosing)
    } else if !more_work || elapsed >= DRIVER_MILLIS {
        RoundEnd::Pend(more_work)
    } else {
        RoundEnd::Again
    }
}

/// The law of commands for a socket: who asks for the local address is answered;
/// the word to close at once ends the driver, with just that error, and nothing
/// else does. At most thirty-two are taken in a turn, which ends where none is
/// there, none will come or that many were taken; it wishes for another exactly
/// in this last case, and to close exactly where none will come.
pub proof fn law_udp_commands<S>(handler: CmdHandler, evt: CmdEvt<S>, rsp: S)
    requires
        evt is Cmd ==> handler.left > 0,
        handler.cmd_recv_closed ==> evt is Next,
    ensures
        ({
            let (after, act) = handler.next(evt);
            &&& act == CmdAct::LocalAddress(rsp) <==> evt == CmdEvt::Cmd(
                Poll::Ready(Some(UdpBackendCmd::GetLocalAddress(rsp))),
            )
            &&& act is Fail <==> evt == CmdEvt::<S>::Cmd(
                Poll::Ready(Some(UdpBackendCmd::CloseImmediate)),
            )
            &&& act matches CmdAct::Fail(err) ==> err == AqErr::CloseImmediate
            &&& after.left == if act is LocalAddress {
                handler.left - 1
            } else {
                handler.left as int
            }
            &&& after.cmd_recv_closed <==> handler.cmd_recv_closed || evt == CmdEvt::<S>::Cmd(
                Poll::Ready(None),
            )
            &&& act is Recv <==> evt is Next && !handler.cmd_recv_closed && handler.left > 0
            &&& act is Done <==> {
                ||| after.cmd_recv_closed
                ||| evt is Next && handler.left == 0
                ||| evt == CmdEvt::<S>::Cmd(Poll::Pending)
            }
            &&& act matches CmdAct::Done(wish) ==> {
                &&& wish.want_close == after.cmd_recv_closed
                &&& wish.more_work <==> !after.cmd_recv_closed && evt is Next
            }
        }),
{
}

/// The law of a turn's beginning: all rounds are ahead, and a handler that no
/// command will come to knows that.
pub proof fn law_udp_commands_begin()
    ensures
        forall|a: &mut CmdHandler| #[trigger]
            call_ensures(CmdHandler::restart, (a,), ()) ==> {
                &&& final(a).left == 32
                &&& final(a).cmd_recv_closed == a.cmd_recv_closed
            },
{
}

/// The law of sending: no packet is lost, doubled or passed by another. One that
/// comes goes to the end of the buffer; only as many as were sent leave, from
/// its front. Packets are taken while there is room and some come, then sent
/// once where there are any. There is more work exactly where some were sent,
/// and the sender is done for good exactly where none will come and none is
/// left.
pub proof fn law_packet_sender<T>()
    ensures
        forall|a: &mut PacketSender<T>, evt: SenderEvt<T>, act: SenderAct| #[trigger]
            call_ensures(PacketSender::<T>::poll, (a, evt), act) ==> {
                let (was, now) = (a.buffer@, final(a).buffer@);
                let closed = final(a).pak_in_recv_closed;
                let taking = evt is Next || (evt matches SenderEvt::Recv(Poll::Ready(Some(_))));
                &&& match evt {
                    SenderEvt::Recv(Poll::Ready(Some(packet))) => now == was.push(packet),
                    SenderEvt::Sent(Poll::Ready(n)) => now == was.skip(n as int),
                    _ => now == was,
                }
                &&& closed <==> a.pak_in_recv_closed || (evt matches SenderEvt::Recv(
                    Poll::Ready(None),
                ))
                &&& act is Recv <==> taking && !closed && now.len() < a.batch
                &&& act is PollSend <==> !(evt is Sent) && !(act is Recv) && now.len() > 0
                &&& act matches SenderAct::Done(wish) ==> {
                    &&& evt is Sent || now.len() == 0
                    &&& wish.more_work <==> (evt matches SenderEvt::Sent(Poll::Ready(_)))
                    &&& wish.want_close <==> closed && now.len() == 0
                }
            },
{
}

/// The law of receiving: packets are received only once there is a permit for
/// each that may come; each packet is handed on with a permit of its own, the
/// first with the first, and just these permits leave. A refused permit drops
/// all and closes the reader for good; a failure ends the driver with just that
/// error, and a connection that was reset does not.
pub proof fn law_packet_reader<P, K>()
    ensures
        forall|a: &mut PacketReader<P>, evt: ReaderEvt<P, K>, act: ReaderAct<P, K>| #[trigger]
            call_ensures(PacketReader::<P>::poll::<K>, (a, evt), act) && (a.evt_send_closed
                ==> evt is Next) ==> {
                let (was, now) = (a.evt_send_permits@, final(a).evt_send_permits@);
                let closed = final(a).evt_send_closed;
                let asking = (evt matches ReaderEvt::Permit(Poll::Ready(Ok(_)))) || evt is Next
                    && !closed;
                &&& match evt {
                    ReaderEvt::Permit(Poll::Ready(Ok(permit))) => now == was.push(permit),
                    ReaderEvt::Permit(Poll::Ready(Err(_))) => now.len() == 0,
                    ReaderEvt::Recv(Poll::Ready(Received::Packets(packets))) => {
                        &&& now == was.skip(packets@.len() as int)
                        &&& act matches ReaderAct::Deliver(pairs, _)
                        &&& pairs@.len() == packets@.len()
                        &&& forall|i: int|
                            #![trigger pairs@[i]]
                            0 <= i < packets@.len() ==> pairs@[i].0 == was[i] && pairs@[i].1
                                == packets@[i]
                    },
                    _ => now == was,
                }
                &&& closed <==> a.evt_send_closed || (evt matches ReaderEvt::Permit(
                    Poll::Ready(Err(_)),
                ))
                &&& act is Acquire <==> asking && now.len() < a.batch
                &&& act is PollRecv <==> asking && now.len() >= a.batch
                &&& act is Deliver ==> evt is Recv
                &&& act matches ReaderAct::Deliver(_, wish) ==> wish.more_work && !wish.want_close
                &&& act matches ReaderAct::Fail(err) ==> evt == ReaderEvt::<P, K>::Recv(
                    Poll::Ready(Received::Failed(err)),
                )
                &&& evt matches ReaderEvt::Recv(Poll::Ready(Received::Failed(err))) ==> act
                    == ReaderAct::<P, K>::Fail(err)
                &&& act matches ReaderAct::Done(wish) ==> {
                    &&& wish.want_close <==> closed && !(evt is Recv)
                    &&& wish.more_work <==> (evt matches ReaderEvt::Recv(
                        Poll::Ready(Received::ConnectionReset),
                    ))
                }
            },
{
}

/// The law of the end of a round: what is decided is decided by what the parts
/// said, whichever said it. The socket is over only where all three have nothing
/// left to do; there is another round only where some part has more work and
/// ten milliseconds have not gone by; else the driver rests, to be woken at once
/// exactly where some part has more work.
pub proof fn law_udp_round(commands: Wish, sender: Wish, reader: Wish, elapsed: u128, end: RoundEnd)
    requires
        call_ensures(end_round, (commands, sender, reader, elapsed), end),
    ensures
        end is Fail <==> commands.want_close && sender.want_close && reader.want_close,
        end matches RoundEnd::Fail(err) ==> err == AqErr::UdpDriverClosing,
        end is Again ==> elapsed < 10,
        end matches RoundEnd::Pend(wake) ==> {
            &&& wake <==> commands.more_work || sender.more_work || reader.more_work
            &&& wake ==> elapsed >= 10
        },
        end is Again ==> commands.more_work || sender.more_work || reader.more_work,
{
}

/// The law of the size of channels: room for two batches, and for sixteen
/// packets at least, and no more.
pub proof fn law_chan_size(batch: int)
    requires
        batch > 0,
    ensures
        chan_size_of(batch) >= 16,
        chan_size_of(batch) >= 2 * batch,
        chan_size_of(batch) == 16 || chan_size_of(batch) == 2 * batch,
{
}

} // verus!
