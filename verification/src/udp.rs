//! Udp sockets: packets, receiving and sending
use crate::error::AqErr;
use crate::error::AqResult;
use crate::quinn_udp::MIN_UDP_SIZE;
use std::task::Poll;
use vstd::prelude::*;

verus! {

/// A udp packet, either incoming or outgoing. `A` is an address, `I` an ip.
pub struct UdpPak<A, I> {
    /// Destination address for outgoing packets,
    /// or the source address for incoming packets
    pub addr: A,
    /// Data to send or received
    pub data: Vec<u8>,
    /// Optional source ip for outgoing packets,
    /// or destination ip for incoming packets
    pub ip: Option<I>,
    /// Optional generic send offload segment info
    pub gso: Option<usize>,
    /// Optional explicit congestion notification bits
    pub ecn: Option<u8>,
}

impl<A, I> UdpPak<A, I> {
    /// A packet with nothing but an address and data.
    pub fn plain(addr: A, data: Vec<u8>) -> (r: Self)
        ensures
            r == (UdpPak {
                addr,
                data,
                ip: None::<I>,
                gso: None,
                ecn: None,
            }),
    {
        UdpPak { addr, data, ip: None, gso: None, ecn: None }
    }
}

/// A socket that can be shut down. `W` is the handle by which its receiver is
/// woken.
pub struct Shutdown<W> {
    /// whoever waits for packets
    pub waker: Option<W>,
    /// whether the socket is shut down
    pub shutdown: bool,
}

impl<W> Shutdown<W> {
    /// A socket that is not shut down.
    pub fn new() -> (r: Self)
        ensures
            r.waker is None,
            !r.shutdown,
    {
        Shutdown { waker: None, shutdown: false }
    }

    /// Shut the socket down. Whoever waited for packets is handed out, to be
    /// woken.
    pub fn shutdown(&mut self) -> (r: Option<W>)
        ensures
            final(self).shutdown,
            final(self).waker is None,
            r == old(self).waker,
    {
        self.shutdown = true;
        self.waker.take()
    }

    /// Whether the socket is shut down. As long as it is not, `waker` is
    /// remembered.
    pub fn is_shutdown(&mut self, waker: W) -> (r: bool)
        ensures
            r == old(self).shutdown,
            final(self).shutdown == old(self).shutdown,
            r ==> final(self).waker == old(self).waker,
            !r ==> final(self).waker == Some(waker),
    {
        if self.shutdown {
            return true;
        }
        self.waker = Some(waker);
        false
    }
}

/// What the receiver of a socket gives for what the socket gave: the end once
/// the socket is shut down; an error also shuts it down.
pub fn poll_next<A, I, W>(
    shutdown: &mut Shutdown<W>,
    got: Poll<AqResult<(A, Vec<u8>)>>,
) -> (r: (Poll<Option<AqResult<UdpPak<A, I>>>>, Option<W>))
    ensures
        old(shutdown).shutdown ==> {
            &&& r.0 == Poll::Ready(None::<AqResult<UdpPak<A, I>>>)
            &&& r.1 is None
            &&& *final(shutdown) == *old(shutdown)
        },
        !old(shutdown).shutdown ==> match got {
            Poll::Pending => r.0 is Pending && r.1 is None && *final(shutdown) == *old(shutdown),
            Poll::Ready(Err(err)) => {
                &&& r.0 == Poll::Ready(Some(Err::<UdpPak<A, I>, AqErr>(err)))
                &&& r.1 == old(shutdown).waker
                &&& final(shutdown).shutdown
                &&& final(shutdown).waker is None
            },
            Poll::Ready(Ok((addr, data))) => {
                &&& r.0 == Poll::Ready(
                    Some(
                        Ok::<UdpPak<A, I>, AqErr>(
                            UdpPak { addr, data, ip: None, gso: None, ecn: None },
                        ),
                    ),
                )
                &&& r.1 is None
                &&& *final(shutdown) == *old(shutdown)
            },
        },
{
    if shutdown.shutdown {
        return (Poll::Ready(None), None);
    }
    match got {
        Poll::Pending => (Poll::Pending, None),
        Poll::Ready(Err(err)) => {
            let waker = shutdown.shutdown();
            (Poll::Ready(Some(Err(err))), waker)
        },
        Poll::Ready(Ok((addr, data))) => {
            (Poll::Ready(Some(Ok(UdpPak::plain(addr, data)))), None)
        },
    }
}

/// Absquic_core Udp backed by tokio. `A` is an address.
pub struct TokioUdpFactory<A> {
    /// what to bind to
    pub addr: A,
    /// the size of the buffer that packets are received in
    pub max_udp_size: usize,
}

impl<A> TokioUdpFactory<A> {
    /// Construct a new TokioUdpFactory set to bind to `addr`
    pub fn new(addr: A, max_udp_size: Option<usize>) -> (r: Self)
        ensures
            r.addr == addr,
            r.max_udp_size == (match max_udp_size {
                Some(size) if size > MIN_UDP_SIZE => size,
                _ => MIN_UDP_SIZE,
            }),
    {
        let max_udp_size: usize = match max_udp_size {
            Some(size) if size > MIN_UDP_SIZE => size,
            _ => MIN_UDP_SIZE,
        };
        TokioUdpFactory { addr, max_udp_size }
    }
}

/// What the task that sends packets is told. `K` is a packet; `C`, `L` and `S`
/// take the answers.
pub enum SendCmd<K, C, L, S> {
    /// shut down
    CloseImmediate(C),
    /// tell the local address
    Addr(L),
    /// send the packet, not before the time given, if any
    Pak(K, Option<u64>, S),
}

/// What the task does with a command.
pub enum SendAct<K, C, L, S> {
    /// answer, and end the task
    Close(C),
    /// answer with the local address
    LocalAddr(L),
    /// wait until the time, then have the command sent again, without a time
    Delay(u64, K, S),
    /// send the packet and answer with what came of it
    Send(K, S),
}

/// What the task that sends packets does with a command at the time `now`: a
/// packet whose time is still to come waits for it.
pub fn send_task<K, C, L, S>(cmd: SendCmd<K, C, L, S>, now: u64) -> (r: SendAct<K, C, L, S>)
    ensures
        match cmd {
            SendCmd::CloseImmediate(rsp) => r == SendAct::<K, C, L, S>::Close(rsp),
            SendCmd::Addr(rsp) => r == SendAct::<K, C, L, S>::LocalAddr(rsp),
            SendCmd::Pak(pak, Some(at), rsp) if at > now => r == SendAct::<K, C, L, S>::Delay(
                at,
                pak,
                rsp,
            ),
            SendCmd::Pak(pak, _, rsp) => r == SendAct::<K, C, L, S>::Send(pak, rsp),
        },
{
    match cmd {
        SendCmd::CloseImmediate(rsp) => SendAct::Close(rsp),
        SendCmd::Addr(rsp) => SendAct::LocalAddr(rsp),
        SendCmd::Pak(pak, Some(at), rsp) if at > now => SendAct::Delay(at, pak, rsp),
        SendCmd::Pak(pak, _, rsp) => SendAct::Send(pak, rsp),
    }
}

/// A packet is delayed at most once: what is sent again after a delay goes out
/// whatever the time.
pub proof fn law_delay_once<K, C, L, S>(pak: K, rsp: S, now: u64)
    ensures
        forall|r: SendAct<K, C, L, S>| #[trigger]
            call_ensures(
                send_task::<K, C, L, S>,
                (SendCmd::<K, C, L, S>::Pak(pak, None, rsp), now),
                r,
            ) ==> r == SendAct::<K, C, L, S>::Send(pak, rsp),
{
}

/// The law of sending: everyone who asks is answered, and a packet stays itself.
/// A packet waits exactly where its time is still to come, until just that time;
/// any other goes out at once.
pub proof fn law_send_task<K, C, L, S>(cmd: SendCmd<K, C, L, S>, now: u64, act: SendAct<K, C, L, S>)
    requires
        call_ensures(send_task::<K, C, L, S>, (cmd, now), act),
    ensures
        cmd matches SendCmd::CloseImmediate(rsp) ==> act == SendAct::<K, C, L, S>::Close(rsp),
        cmd matches SendCmd::Addr(rsp) ==> act == SendAct::<K, C, L, S>::LocalAddr(rsp),
        act matches SendAct::Delay(at, pak, rsp) ==> at > now && cmd == SendCmd::<K, C, L, S>::Pak(
            pak,
            Some(at),
            rsp,
        ),
        act matches SendAct::Send(pak, rsp) ==> {
            &&& cmd matches SendCmd::Pak(same, at, to)
            &&& same == pak && to == rsp
            &&& at matches Some(time) ==> time <= now
        },
        cmd is Pak <==> act is Delay || act is Send,
{
}

/// The law of receiving: what the socket gave is what comes out, address and
/// data; an error comes out and shuts the socket down, and whoever waits is
/// handed out to be woken. Once it is shut down nothing comes any more, and
/// nothing opens it again.
pub proof fn law_poll_next<A, I, W>()
    ensures
        forall|
            a: &mut Shutdown<W>,
            got: Poll<AqResult<(A, Vec<u8>)>>,
            r: (Poll<Option<AqResult<UdpPak<A, I>>>>, Option<W>),
        | #[trigger]
            call_ensures(poll_next::<A, I, W>, (a, got), r) ==> {
                &&& a.shutdown ==> (r.0 matches Poll::Ready(None))
                &&& r.0 matches Poll::Ready(None) ==> a.shutdown
                &&& r.0 matches Poll::Ready(Some(Ok(pak))) ==> {
                    &&& got == Poll::Ready(Ok::<(A, Vec<u8>), AqErr>((pak.addr, pak.data)))
                    &&& pak.ip is None && pak.gso is None && pak.ecn is None
                }
                &&& r.0 matches Poll::Ready(Some(Err(err))) ==> got == Poll::Ready(
                    Err::<(A, Vec<u8>), AqErr>(err),
                )
                &&& r.0 is Pending ==> got is Pending
                &&& final(a).shutdown <==> a.shutdown || (got matches Poll::Ready(Err(_)))
                &&& r.1 == if final(a).shutdown && !a.shutdown {
                    a.waker
                } else {
                    None
                }
                &&& final(a).waker == if final(a).shutdown && !a.shutdown {
                    None
                } else {
                    a.waker
                }
            },
        forall|a: &mut Shutdown<W>, woken: Option<W>| #[trigger]
            call_ensures(Shutdown::<W>::shutdown, (a,), woken) ==> final(a).shutdown && woken
                == a.waker,
        forall|a: &mut Shutdown<W>, waker: W, r: bool| #[trigger]
            call_ensures(Shutdown::<W>::is_shutdown, (a, waker), r) ==> {
                &&& r == a.shutdown
                &&& final(a).shutdown == a.shutdown
                &&& !r ==> final(a).waker == Some(waker)
            },
{
}

/// The law of buffers: as large as was asked for, and large enough for any
/// packet in any case.
pub proof fn law_udp_size<A>(addr: A, asked: Option<usize>, factory: TokioUdpFactory<A>)
    requires
        call_ensures(TokioUdpFactory::<A>::new, (addr, asked), factory),
    ensures
        factory.addr == addr,
        factory.max_udp_size >= 65536,
        asked matches Some(size) ==> factory.max_udp_size >= size,
        factory.max_udp_size == 65536 || asked == Some(factory.max_udp_size),
{
}

} // verus!
