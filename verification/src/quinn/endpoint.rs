//! The driver of an endpoint: the order of its parts and its end.
use super::connection::DRIVER_MILLIS;
use super::Wish;
use crate::error::AqErr;
use vstd::prelude::*;

verus! {

/// Where a driver is in its round.
#[derive(Debug, Clone, Copy, PartialEq, Eq, Structural)]
pub enum EpPhase {
    /// not begun
    Idle,
    /// commands are taken
    Commands,
    /// packets are taken
    UdpIn,
    /// packets are sent
    Transmit,
    /// waits to hear how long it took so far
    Clock,
}

/// What came of the last part of a round.
pub enum EpRoundEvt {
    /// begin
    Begin,
    /// how the part wants to go on
    Wish(Wish),
    /// the milliseconds since the driver began
    Elapsed(u128),
}

/// What to do next in a round.
pub enum EpRoundAct {
    /// take commands
    Commands,
    /// take packets
    UdpIn,
    /// send packets
    Transmit,
    /// look at the clock
    CheckTime,
    /// rest; where there is more work, wake up right away
    Pend(bool),
    /// the endpoint is over
    Fail(AqErr),
}

/// Drives an endpoint.
#[derive(Clone, Copy)]
pub struct EndpointDriver {
    /// where the driver is in its round
    pub phase: EpPhase,
    /// some part of this round was not through
    pub more_work: bool,
    /// all parts so far in this round have nothing left to do
    pub all_close: bool,
}

impl EndpointDriver {
    /// Whether an event is one that the phase waits for.
    pub open spec fn expects(self, evt: EpRoundEvt) -> bool {
        match self.phase {
            EpPhase::Idle => evt is Begin,
            EpPhase::Commands | EpPhase::UdpIn | EpPhase::Transmit => evt is Wish,
            EpPhase::Clock => evt is Elapsed,
        }
    }

    /// The driver in another phase, after a part has said how it wants to go
    /// on.
    pub open spec fn heard(self, wish: Wish, phase: EpPhase) -> EndpointDriver {
        EndpointDriver {
            phase,
            more_work: self.more_work || wish.more_work,
            all_close: self.all_close && wish.want_close,
        }
    }

    /// The driver at the beginning of a round.
    pub open spec fn at_start() -> EndpointDriver {
        EndpointDriver { phase: EpPhase::Commands, more_work: false, all_close: true }
    }

    /// What a driver does next, and the driver after that.
    pub open spec fn next(self, evt: EpRoundEvt) -> (EndpointDriver, EpRoundAct) {
        match (self.phase, evt) {
            (EpPhase::Commands, EpRoundEvt::Wish(wish)) => (
                self.heard(wish, EpPhase::UdpIn),
                EpRoundAct::UdpIn,
            ),
            (EpPhase::UdpIn, EpRoundEvt::Wish(wish)) => (
                self.heard(wish, EpPhase::Transmit),
                EpRoundAct::Transmit,
            ),
            (EpPhase::Transmit, EpRoundEvt::Wish(wish)) => if self.all_close && wish.want_close {
                (
                    self.heard(wish, EpPhase::Idle),
                    EpRoundAct::Fail(AqErr::EpDriverClosing),
                )
            } else {
                (self.heard(wish, EpPhase::Clock), EpRoundAct::CheckTime)
            },
            (EpPhase::Clock, EpRoundEvt::Elapsed(ms)) if !self.more_work || ms >= DRIVER_MILLIS => (
                EndpointDriver { phase: EpPhase::Idle, ..self },
                EpRoundAct::Pend(self.more_work),
            ),
            _ => (EndpointDriver::at_start(), EpRoundAct::Commands),
        }
    }

    /// The driver of a new endpoint.
    pub fn new() -> (r: Self)
        ensures
            r == (EndpointDriver { phase: EpPhase::Idle, more_work: false, all_close: true }),
    {
        EndpointDriver { phase: EpPhase::Idle, more_work: false, all_close: true }
    }

    fn hear(&mut self, wish: Wish, phase: EpPhase)
        ensures
            *final(self) == old(self).heard(wish, phase),
    {
        self.phase = phase;
        self.more_work = self.more_work || wish.more_work;
        self.all_close = self.all_close && wish.want_close;
    }

    /// Go one step on with the endpoint.
    pub fn poll_inner(&mut self, evt: EpRoundEvt) -> (r: EpRoundAct)
        requires
            old(self).expects(evt),
        ensures
            (*final(self), r) == old(self).next(evt),
    {
        match (self.phase, evt) {
            (EpPhase::Commands, EpRoundEvt::Wish(wish)) => {
                self.hear(wish, EpPhase::UdpIn);
                EpRoundAct::UdpIn
            },
            (EpPhase::UdpIn, EpRoundEvt::Wish(wish)) => {
                self.hear(wish, EpPhase::Transmit);
                EpRoundAct::Transmit
            },
            (EpPhase::Transmit, EpRoundEvt::Wish(wish)) => {
                if self.all_close && wish.want_close {
                    self.hear(wish, EpPhase::Idle);
                    EpRoundAct::Fail(AqErr::EpDriverClosing)
                } else {
                    self.hear(wish, EpPhase::Clock);
                    EpRoundAct::CheckTime
                }
            },
            (EpPhase::Clock, EpRoundEvt::Elapsed(ms)) if !self.more_work || ms >= DRIVER_MILLIS => {
                self.phase = EpPhase::Idle;
                EpRoundAct::Pend(self.more_work)
            },
            _ => {
                self.phase = EpPhase::Commands;
                self.more_work = false;
                self.all_close = true;
                EpRoundAct::Commands
            },
        }
    }
}

/// What a round comes to when its parts say `commands`, `udp_in` and
/// `transmit`, in this order, and it took `elapsed` milliseconds.
pub open spec fn ep_round(commands: Wish, udp_in: Wish, transmit: Wish, elapsed: u128) -> (
    EndpointDriver,
    EpRoundAct,
) {
    let d1 = EndpointDriver::at_start().next(EpRoundEvt::Wish(commands)).0;
    let d2 = d1.next(EpRoundEvt::Wish(udp_in)).0;
    let (d3, act) = d2.next(EpRoundEvt::Wish(transmit));
    if act is Fail {
        (d3, act)
    } else {
        d3.next(EpRoundEvt::Elapsed(elapsed))
    }
}

/// The law of a round: the endpoint ends if and only if all three parts have
/// nothing left to do. Else the driver rests as soon as no part has more work
/// or its time is up, and is woken exactly when there is more work.
pub proof fn law_ep_round(commands: Wish, udp_in: Wish, transmit: Wish, elapsed: u128)
    ensures
        ({
            let (after, act) = ep_round(commands, udp_in, transmit, elapsed);
            let all_close = commands.want_close && udp_in.want_close && transmit.want_close;
            let more_work = commands.more_work || udp_in.more_work || transmit.more_work;
            &&& all_close <==> act is Fail
            &&& all_close ==> act == EpRoundAct::Fail(AqErr::EpDriverClosing)
            &&& !all_close && (!more_work || elapsed >= DRIVER_MILLIS) ==> act == EpRoundAct::Pend(
                more_work,
            )
            &&& !all_close && more_work && elapsed < DRIVER_MILLIS ==> act is Commands && after
                == EndpointDriver::at_start()
        }),
{
}

/// The law of the order of a round: commands come first, then packets that came,
/// then packets that go, each once. Every part is heard: there is more work
/// where any part said so, and nothing left to do only where all parts said so.
/// The endpoint is over exactly in this last case. Else the driver makes another
/// round while there is more work and ten milliseconds have not gone by, and
/// rests otherwise, to be woken at once exactly where there is more work.
pub proof fn law_ep_round_order(driver: EndpointDriver, evt: EpRoundEvt)
    requires
        driver.expects(evt),
    ensures
        ({
            let (after, act) = driver.next(evt);
            let late = evt matches EpRoundEvt::Elapsed(ms) && ms >= 10;
            &&& act is UdpIn <==> driver.phase is Commands
            &&& act is Transmit <==> driver.phase is UdpIn
            &&& act is Commands <==> evt is Begin || evt is Elapsed && driver.more_work && !late
            &&& evt matches EpRoundEvt::Wish(wish) ==> {
                &&& after.more_work <==> driver.more_work || wish.more_work
                &&& after.all_close <==> driver.all_close && wish.want_close
            }
            &&& act is Commands ==> !after.more_work && after.all_close
            &&& driver.phase is Transmit ==> if after.all_close {
                act == EpRoundAct::Fail(AqErr::EpDriverClosing)
            } else {
                act is CheckTime
            }
            &&& act is Fail || act is CheckTime ==> driver.phase is Transmit
            &&& act is Pend <==> evt is Elapsed && (!driver.more_work || late)
            &&& act matches EpRoundAct::Pend(wake) ==> wake == driver.more_work
        }),
{
}

} // verus!
