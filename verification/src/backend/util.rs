//! utilities related to backend traits, largely for testing
use std::collections::VecDeque;
use std::task::Poll;
use vstd::prelude::*;

verus! {

/// Moves packets between a user and a socket. `O` is a packet to send, `K` one
/// that was received.
pub struct UdpTestDriver<O, K> {
    /// the user is gone
    pub want_close: bool,
    /// packets to send
    pub in_buf: VecDeque<O>,
    /// packets that were received
    pub out_buf: VecDeque<K>,
}

/// What came of the last action. The packets themselves go into and out of the
/// buffers.
#[derive(Clone, Copy)]
pub enum UdpTestEvt {
    /// begin
    Begin,
    /// packets were taken from the user; whether the user is gone
    Taken(bool),
    /// packets were sent, as many as could
    Sent(Poll<()>),
    /// packets were received, as many as came
    Received(Poll<()>),
    /// packets were given to the user; whether the user is gone
    Given(bool),
    /// whether the driver is shut down
    Shutdown(bool),
}

/// What to do next.
#[derive(Clone, Copy)]
pub enum UdpTestAct {
    /// take packets from the user, whose end is known to be gone or not
    Take(bool),
    /// send packets
    PollSend,
    /// have the user wake the driver when there is more to send, then receive
    /// packets
    RegisterAndRecv,
    /// receive packets
    PollRecv,
    /// give the packets to the user, whose end is known to be gone or not
    Give(bool),
    /// see whether the driver is shut down
    CheckShutdown,
    /// rest
    Pend,
    /// the driver is done
    Exit,
}

impl<O, K> UdpTestDriver<O, K> {
    /// Whether nothing is left to do.
    pub open spec fn drained(self) -> bool {
        self.want_close && self.in_buf@.len() == 0 && self.out_buf@.len() == 0
    }

    /// A new driver.
    pub fn new() -> (r: Self)
        ensures
            !r.want_close,
            r.in_buf@ == Seq::<O>::empty(),
            r.out_buf@ == Seq::<K>::empty(),
    {
        UdpTestDriver {
            want_close: false,
            in_buf: VecDeque::new(),
            out_buf: VecDeque::new(),
        }
    }

    /// Go one step on: packets are sent until the socket takes no more or none
    /// is left, received until none comes, and given to the user; the driver
    /// is done once it is shut down, or the user is gone and nothing is left.
    pub fn poll(&mut self, evt: UdpTestEvt) -> (r: UdpTestAct)
        ensures
            final(self).in_buf == old(self).in_buf,
            final(self).out_buf == old(self).out_buf,
            final(self).want_close == (old(self).want_close || evt == UdpTestEvt::Taken(true)
                || evt == UdpTestEvt::Given(true)),
            match evt {
                UdpTestEvt::Begin => r == UdpTestAct::Take(old(self).want_close),
                UdpTestEvt::Taken(_) | UdpTestEvt::Sent(Poll::Ready(())) => if old(
                    self).in_buf@.len() > 0 {
                    r is PollSend
                } else {
                    r is RegisterAndRecv
                },
                UdpTestEvt::Sent(Poll::Pending) | UdpTestEvt::Received(Poll::Ready(())) => r
                    is PollRecv,
                UdpTestEvt::Received(Poll::Pending) => r == UdpTestAct::Give(old(self).want_close),
                UdpTestEvt::Given(_) => r is CheckShutdown,
                UdpTestEvt::Shutdown(shutdown) => if shutdown || old(self).drained() {
                    r is Exit
                } else {
                    r is Pend
                },
            },
    {
        match evt {
            UdpTestEvt::Begin => {
                UdpTestAct::Take(self.want_close)
            },
            UdpTestEvt::Taken(gone) => {
                self.want_close = self.want_close || gone;
                self.send()
            },
            UdpTestEvt::Sent(Poll::Ready(())) => self.send(),
            UdpTestEvt::Sent(Poll::Pending) | UdpTestEvt::Received(Poll::Ready(())) => {
                UdpTestAct::PollRecv
            },
            UdpTestEvt::Received(Poll::Pending) => {
                UdpTestAct::Give(self.want_close)
            },
            UdpTestEvt::Given(gone) => {
                self.want_close = self.want_close || gone;
                UdpTestAct::CheckShutdown
            },
            UdpTestEvt::Shutdown(shutdown) => {
                if shutdown || (self.want_close && self.in_buf.len() == 0 && self.out_buf.len()
                    == 0) {
                    UdpTestAct::Exit
                } else {
                    UdpTestAct::Pend
                }
            },
        }
    }

    fn send(&mut self) -> (r: UdpTestAct)
        ensures
            final(self).in_buf == old(self).in_buf,
            final(self).out_buf == old(self).out_buf,
            final(self).want_close == old(self).want_close,
            if old(self).in_buf@.len() > 0 {
                r is PollSend
            } else {
                r is RegisterAndRecv
            },
    {
        if self.in_buf.len() > 0 {
            UdpTestAct::PollSend
        } else {
            UdpTestAct::RegisterAndRecv
        }
    }
}

/// The law of moving packets: the driver goes from the user to the socket and
/// back to the user. It sends while packets are there and the socket takes
/// them, receives until none comes, gives what came to the user, and only then
/// rests. It rests unless it is shut down, or the user is gone and nothing is
/// left either way. Whether the user is gone is known from where the user said
/// so, and never forgotten.
pub proof fn law_udp_test<O, K>()
    ensures
        forall|a: &mut UdpTestDriver<O, K>, evt: UdpTestEvt, act: UdpTestAct| #[trigger]
            call_ensures(UdpTestDriver::<O, K>::poll, (a, evt), act) ==> {
                let sending = evt is Taken || (evt matches UdpTestEvt::Sent(Poll::Ready(_)));
                let stop = evt == UdpTestEvt::Shutdown(true);
                let left = a.in_buf@.len() + a.out_buf@.len();
                &&& final(a).in_buf@ == a.in_buf@
                &&& final(a).out_buf@ == a.out_buf@
                &&& final(a).want_close <==> a.want_close || evt == UdpTestEvt::Taken(true) || evt
                    == UdpTestEvt::Given(true)
                &&& act == UdpTestAct::Take(a.want_close) <==> evt is Begin
                &&& act is PollSend <==> sending && a.in_buf@.len() > 0
                &&& act is RegisterAndRecv <==> sending && a.in_buf@.len() == 0
                &&& act is PollRecv <==> (evt matches UdpTestEvt::Sent(Poll::Pending)) || (
                evt matches UdpTestEvt::Received(Poll::Ready(_)))
                &&& act == UdpTestAct::Give(a.want_close) <==> (evt matches UdpTestEvt::Received(
                    Poll::Pending,
                ))
                &&& act is CheckShutdown <==> evt is Given
                &&& act is Exit <==> stop || evt is Shutdown && a.want_close && left == 0
                &&& act is Pend <==> evt is Shutdown && !stop && (!a.want_close || left > 0)
            },
{
}

} // verus!
