//! Sending the packets of an endpoint.
use super::ep;
use super::ep::EpCall;
use super::ep::QuinnEndpoint;
use super::out::out_packet;
use super::out::OutPacket;
use super::transmit;
use super::transmit::TransmitAct;
use super::transmit::TransmitEvt;
use super::transmit::TransmitStep;
use super::transmit::TransmitTurn;
use super::Wish;
use crate::runtime::MultiSend;
use crate::runtime::MultiSender;
use crate::runtime::MultiSenderPoll;
use crate::runtime::OnceSend;
use quinn_proto::Endpoint;
use quinn_proto::Transmit;
use std::task::Context;
use vstd::prelude::*;

verus! {

/// Whether a call asks an endpoint for a packet.
pub open spec fn asks() -> spec_fn(EpCall, Option<Transmit>) -> bool {
    |call: EpCall, packet: Option<Transmit>| call == EpCall::PollTransmit(packet)
}

/// Sends the packets of an endpoint.
#[verifier::reject_recursive_types(S)]
pub struct TransmitDriver<S: MultiSend<OutPacket>> {
    /// where the packets go
    pub udp_packet_send: MultiSenderPoll<OutPacket, S>,
    /// nobody takes packets any more
    pub udp_packet_send_closed: bool,
}

impl<S: MultiSend<OutPacket>> TransmitDriver<S> {
    /// The driver of a new endpoint.
    pub fn new(udp_packet_send: MultiSender<OutPacket, S>) -> (r: Self)
        ensures
            r.udp_packet_send.send == udp_packet_send,
            !r.udp_packet_send_closed,
    {
        TransmitDriver {
            udp_packet_send: MultiSenderPoll::new(udp_packet_send),
            udp_packet_send_closed: false,
        }
    }

    /// Send packets for one turn, as `TransmitTurn` says.
    pub fn poll(
        &mut self,
        cx: &mut Context<'_>,
        endpoint: &mut QuinnEndpoint,
    ) -> (r: Wish)
        requires
            old(endpoint).wf(),
        ensures
            final(endpoint).wf(),
            final(endpoint).handles@ == old(endpoint).handles@,
            exists|steps: Seq<TransmitStep<S, Endpoint, EpCall>>|
                {
                    &&& #[trigger] TransmitStep::made(
                        asks(),
                        old(self).udp_packet_send_closed,
                        TransmitStep::first(old(self).udp_packet_send, old(endpoint).endpoint),
                        steps,
                        final(self).udp_packet_send_closed,
                        r,
                    )
                    &&& steps.last().send == final(self).udp_packet_send
                    &&& steps.last().source == final(endpoint).endpoint
                    &&& forall|i: int|
                        0 < i < steps.len() ==> ((#[trigger] steps[i].call) matches Some(call)
                            ==> exists|a: &mut Endpoint|
                            {
                                &&& *a == steps[i - 1].source
                                &&& *final(a) == steps[i].source
                                &&& #[trigger] ep::made(a, call)
                            })
                },
            final(self).udp_packet_send.send == old(self).udp_packet_send.send,
            r.want_close == final(self).udp_packet_send_closed,
            old(self).udp_packet_send_closed ==> {
                &&& *final(self) == *old(self)
                &&& final(endpoint).endpoint == old(endpoint).endpoint
                &&& r.want_close
            },
            r.more_work ==> !r.want_close,
    {
        let mut turn = TransmitTurn::new(self.udp_packet_send_closed);
        let ghost was = *self;
        let ghost ep = endpoint.endpoint;
        let ghost closed = self.udp_packet_send_closed;
        let ghost first = TransmitStep::<S, Endpoint, EpCall>::first(self.udp_packet_send, ep);
        let ghost mut trace = Seq::<TransmitStep<S, Endpoint, EpCall>>::empty();
        proof {
            TransmitStep::lemma_push(asks(), closed, first, trace, first);
            trace = trace.push(first);
        }
        let mut act: TransmitAct<S::Permit, Transmit> = turn.step(TransmitEvt::Next);
        loop
            invariant
                was == *old(self),
                ep == old(endpoint).endpoint,
                endpoint.wf(),
                endpoint.handles@ == old(endpoint).handles@,
                trace.len() > 0,
                closed == was.udp_packet_send_closed,
                first == TransmitStep::<S, Endpoint, EpCall>::first(was.udp_packet_send, ep),
                TransmitStep::trace(asks(), closed, first, trace),
                TransmitStep::run(closed, trace) == (turn, act),
                trace.last().send == self.udp_packet_send,
                trace.last().source == endpoint.endpoint,
                forall|i: int|
                    0 < i < trace.len() ==> ((#[trigger] trace[i].call) matches Some(call)
                        ==> exists|a: &mut Endpoint|
                        {
                            &&& *a == trace[i - 1].source
                            &&& *final(a) == trace[i].source
                            &&& #[trigger] ep::made(a, call)
                        }),
                self.udp_packet_send_closed == was.udp_packet_send_closed,
                self.udp_packet_send.send == old(self).udp_packet_send.send,
                turn.closed ==> act is Done,
                was.udp_packet_send_closed ==> turn.closed && act is Done && *self == was && endpoint.endpoint == ep,
                act matches TransmitAct::Done(wish) ==> wish.want_close == turn.closed && (
                wish.more_work ==> !wish.want_close),
                act is Acquire || act is Poll ==> turn.left > 0,
            decreases turn.left, transmit::transmit_distance(act),
        {
            let evt: TransmitEvt<S::Permit, Transmit>;
            let ghost mut call: Option<EpCall> = None;
            match act {
                TransmitAct::Done(wish) => {
                    self.udp_packet_send_closed = turn.closed;
                    assert(TransmitStep::made(
                        asks(),
                        old(self).udp_packet_send_closed,
                        TransmitStep::first(old(self).udp_packet_send, old(endpoint).endpoint),
                        trace,
                        self.udp_packet_send_closed,
                        wish,
                    ));
                    return wish;
                },
                TransmitAct::Acquire => {
                    evt = TransmitEvt::Permit(self.udp_packet_send.poll_acquire(cx));
                },
                TransmitAct::Poll(permit) => {
                    let packet = endpoint.poll_transmit();
                    proof {
                        call = Some(EpCall::PollTransmit(packet));
                    }
                    evt = TransmitEvt::Packet(permit, packet);
                },
                TransmitAct::Send(permit, packet) => {
                    permit.send(out_packet(packet));
                    evt = TransmitEvt::Next;
                },
            }
            proof {
                let step = TransmitStep {
                    evt,
                    call,
                    send: self.udp_packet_send,
                    source: endpoint.endpoint,
                };
                TransmitStep::lemma_push(asks(), closed, first, trace, step);
                trace = trace.push(step);
            }
            act = turn.step(evt);
        }
    }
}

/// The law of the question for packets: what an endpoint is asked for is its next
/// packet, and what it gave is what is dealt with.
pub proof fn law_asks(call: EpCall, packet: Option<Transmit>)
    ensures
        asks()(call, packet) <==> (call matches EpCall::PollTransmit(given) && given == packet),
{
}

} // verus!
