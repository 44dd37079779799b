//! The driver of one connection: the order of its parts, its timer, its end.
use super::calls;
use super::calls::ConCall;
use super::Wish;
use crate::error::AqErr;
use crate::task;
use crate::task::poll_kept;
use quinn_proto::Connection;
use std::future::Future;
use std::task::Context;
use std::task::Poll;
use std::time::Instant;
use vstd::prelude::*;

verus! {

/// The milliseconds after which a driver lets others have their turn.
pub const DRIVER_MILLIS: u128 = 10;

/// Where a driver is in its round. The order is the one that quinn-proto asks
/// for: handlers, commands, stream io, packets, timeout, endpoint events,
/// events.
#[derive(Debug, Clone, Copy, PartialEq, Eq, Structural)]
pub enum ConPhase {
    /// not begun
    Idle,
    /// waits to hear whether the timer is due
    Timer,
    /// the connection handles its timeout
    Timeout,
    /// commands are taken
    Commands,
    /// streams are read and written
    StreamIo,
    /// packets are sent
    Transmit,
    /// waits to hear of the next timeout
    NextTimeout,
    /// the timer is set
    SetTimer,
    /// the endpoint is told
    EpEvents,
    /// the user is told
    Events,
    /// waits to hear how long it took so far
    Clock,
}

/// What came of the last part of a round.
pub enum ConRoundEvt {
    /// begin
    Begin,
    /// whether the timer is due
    Due(bool),
    /// the last action is done
    Handled,
    /// how the part wants to go on
    Wish(Wish),
    /// the next timeout of the connection, if there is one
    Timeout(Option<u64>),
    /// the milliseconds since the driver began
    Elapsed(u128),
}

/// What to do next in a round.
pub enum ConRoundAct {
    /// see whether the timer is due
    CheckTimer,
    /// let the connection handle its timeout
    HandleTimeout,
    /// take commands
    Commands,
    /// read and write the streams
    StreamIo,
    /// send packets
    Transmit,
    /// ask the connection for its next timeout
    PollTimeout,
    /// set the timer
    SetTimer(u64),
    /// tell the endpoint
    EpEvents,
    /// tell the user
    Events,
    /// look at the clock
    CheckTime,
    /// rest; where there is more work, wake up right away
    Pend(bool),
    /// the connection is over
    Fail(AqErr),
}

/// Drives one connection.
#[derive(Clone, Copy)]
pub struct ConnectionDriver {
    /// where the driver is in its round
    pub phase: ConPhase,
    /// some part of this round was not through
    pub more_work: bool,
    /// all parts so far in this round have nothing left to do
    pub all_close: bool,
}

impl ConnectionDriver {
    /// Whether an event is one that the phase waits for.
    pub open spec fn expects(self, evt: ConRoundEvt) -> bool {
        match self.phase {
            ConPhase::Idle => evt is Begin,
            ConPhase::Timer => evt is Due,
            ConPhase::Timeout | ConPhase::StreamIo | ConPhase::SetTimer => evt is Handled,
            ConPhase::Commands | ConPhase::Transmit | ConPhase::EpEvents | ConPhase::Events => evt
                is Wish,
            ConPhase::NextTimeout => evt is Timeout,
            ConPhase::Clock => evt is Elapsed,
        }
    }

    /// The driver in another phase.
    pub open spec fn at(self, phase: ConPhase) -> ConnectionDriver {
        ConnectionDriver { phase, ..self }
    }

    /// The driver after a part has said how it wants to go on.
    pub open spec fn heard(self, wish: Wish) -> ConnectionDriver {
        ConnectionDriver {
            more_work: self.more_work || wish.more_work,
            all_close: self.all_close && wish.want_close,
            ..self
        }
    }

    /// What a driver does next, and the driver after that.
    pub open spec fn next(self, evt: ConRoundEvt) -> (ConnectionDriver, ConRoundAct) {
        match (self.phase, evt) {
            (ConPhase::Timer, ConRoundEvt::Due(true)) => (
                self.at(ConPhase::Timeout),
                ConRoundAct::HandleTimeout,
            ),
            (ConPhase::Timer, _) | (ConPhase::Timeout, _) => (
                self.at(ConPhase::Commands),
                ConRoundAct::Commands,
            ),
            (ConPhase::Commands, ConRoundEvt::Wish(wish)) => (
                self.heard(wish).at(ConPhase::StreamIo),
                ConRoundAct::StreamIo,
            ),
            (ConPhase::StreamIo, _) => (self.at(ConPhase::Transmit), ConRoundAct::Transmit),
            (ConPhase::Transmit, ConRoundEvt::Wish(wish)) => (
                self.heard(wish).at(ConPhase::NextTimeout),
                ConRoundAct::PollTimeout,
            ),
            (ConPhase::NextTimeout, ConRoundEvt::Timeout(Some(time))) => (
                self.at(ConPhase::SetTimer),
                ConRoundAct::SetTimer(time),
            ),
            (ConPhase::NextTimeout, _) | (ConPhase::SetTimer, _) => (
                self.at(ConPhase::EpEvents),
                ConRoundAct::EpEvents,
            ),
            (ConPhase::EpEvents, ConRoundEvt::Wish(wish)) => (
                self.heard(wish).at(ConPhase::Events),
                ConRoundAct::Events,
            ),
            (ConPhase::Events, ConRoundEvt::Wish(wish)) => if self.heard(wish).all_close {
                (self.heard(wish).at(ConPhase::Idle), ConRoundAct::Fail(AqErr::ConDriverClosing))
            } else {
                (self.heard(wish).at(ConPhase::Clock), ConRoundAct::CheckTime)
            },
            (ConPhase::Clock, ConRoundEvt::Elapsed(ms)) => if !self.more_work || ms
                >= DRIVER_MILLIS {
                (self.at(ConPhase::Idle), ConRoundAct::Pend(self.more_work))
            } else {
                (
                    ConnectionDriver { phase: ConPhase::Timer, more_work: false, all_close: true },
                    ConRoundAct::CheckTimer,
                )
            },
            _ => (
                ConnectionDriver { phase: ConPhase::Timer, more_work: false, all_close: true },
                ConRoundAct::CheckTimer,
            ),
        }
    }

    /// The driver of a new connection.
    pub fn new() -> (r: Self)
        ensures
            r == (ConnectionDriver { phase: ConPhase::Idle, more_work: false, all_close: true }),
    {
        ConnectionDriver { phase: ConPhase::Idle, more_work: false, all_close: true }
    }

    fn hear(&mut self, wish: Wish)
        ensures
            *final(self) == old(self).heard(wish),
    {
        self.more_work = self.more_work || wish.more_work;
        self.all_close = self.all_close && wish.want_close;
    }

    fn begin_round(&mut self) -> (r: ConRoundAct)
        ensures
            *final(self) == (ConnectionDriver {
                phase: ConPhase::Timer,
                more_work: false,
                all_close: true,
            }),
            r is CheckTimer,
    {
        self.phase = ConPhase::Timer;
        self.more_work = false;
        self.all_close = true;
        ConRoundAct::CheckTimer
    }

    /// Go one step on with the connection.
    pub fn poll_inner(&mut self, evt: ConRoundEvt) -> (r: ConRoundAct)
        requires
            old(self).expects(evt),
        ensures
            (*final(self), r) == old(self).next(evt),
    {
        match (self.phase, evt) {
            (ConPhase::Timer, ConRoundEvt::Due(true)) => {
                self.phase = ConPhase::Timeout;
                ConRoundAct::HandleTimeout
            },
            (ConPhase::Timer, _) | (ConPhase::Timeout, _) => {
                self.phase = ConPhase::Commands;
                ConRoundAct::Commands
            },
            (ConPhase::Commands, ConRoundEvt::Wish(wish)) => {
                self.hear(wish);
                self.phase = ConPhase::StreamIo;
                ConRoundAct::StreamIo
            },
            (ConPhase::StreamIo, _) => {
                self.phase = ConPhase::Transmit;
                ConRoundAct::Transmit
            },
            (ConPhase::Transmit, ConRoundEvt::Wish(wish)) => {
                self.hear(wish);
                self.phase = ConPhase::NextTimeout;
                ConRoundAct::PollTimeout
            },
            (ConPhase::NextTimeout, ConRoundEvt::Timeout(Some(time))) => {
                self.phase = ConPhase::SetTimer;
                ConRoundAct::SetTimer(time)
            },
            (ConPhase::NextTimeout, _) | (ConPhase::SetTimer, _) => {
                self.phase = ConPhase::EpEvents;
                ConRoundAct::EpEvents
            },
            (ConPhase::EpEvents, ConRoundEvt::Wish(wish)) => {
                self.hear(wish);
                self.phase = ConPhase::Events;
                ConRoundAct::Events
            },
            (ConPhase::Events, ConRoundEvt::Wish(wish)) => {
                self.hear(wish);
                if self.all_close {
                    self.phase = ConPhase::Idle;
                    ConRoundAct::Fail(AqErr::ConDriverClosing)
                } else {
                    self.phase = ConPhase::Clock;
                    ConRoundAct::CheckTime
                }
            },
            (ConPhase::Clock, ConRoundEvt::Elapsed(ms)) => {
                if !self.more_work || ms >= DRIVER_MILLIS {
                    self.phase = ConPhase::Idle;
                    ConRoundAct::Pend(self.more_work)
                } else {
                    self.begin_round()
                }
            },
            _ => self.begin_round(),
        }
    }

    /// Let the connection do what is due, and go one step on.
    pub fn handle_timeout(&mut self, con: &mut Connection, now: Instant) -> (r: ConRoundAct)
        requires
            old(self).phase is Timeout,
        ensures
            exists|a: &mut Connection|
                {
                    &&& *a == *old(con)
                    &&& *final(a) == *final(con)
                    &&& #[trigger] calls::made(a, ConCall::HandleTimeout(now))
                },
            (*final(self), r) == old(self).next(ConRoundEvt::Handled),
            r is Commands,
    {
        calls::handle_timeout(con, now);
        self.poll_inner(ConRoundEvt::Handled)
    }

    /// Ask the connection when it has to be told of the time next, counted from
    /// `base`, and go one step on.
    pub fn poll_timeout(&mut self, con: &mut Connection, base: &Instant) -> (r: ConRoundAct)
        requires
            old(self).phase is NextTimeout,
        ensures
            exists|at: Option<Instant>, a: &mut Connection|
                {
                    &&& *a == *old(con)
                    &&& *final(a) == *final(con)
                    &&& #[trigger] calls::made(a, ConCall::PollTimeout(at))
                    &&& (*final(self), r) == old(self).next(
                        ConRoundEvt::Timeout(calls::time_after(*base, at)),
                    )
                },
    {
        let time: Option<u64> = calls::poll_time(con, base);
        self.poll_inner(ConRoundEvt::Timeout(time))
    }
}

/// The whole of a round, with what its parts said.
pub struct ConRound {
    /// whether the timer was due
    pub due: bool,
    /// what the taking of commands said
    pub commands: Wish,
    /// what the sending of packets said
    pub transmit: Wish,
    /// the next timeout, if there is one
    pub timeout: Option<u64>,
    /// what the telling of the endpoint said
    pub ep_events: Wish,
    /// what the telling of the user said
    pub events: Wish,
    /// the milliseconds since the driver began
    pub elapsed: u128,
}

impl ConRound {
    /// Whether some part was not through.
    pub open spec fn more_work(self) -> bool {
        self.commands.more_work || self.transmit.more_work || self.ep_events.more_work
            || self.events.more_work
    }

    /// Whether no part has anything left to do.
    pub open spec fn all_close(self) -> bool {
        self.commands.want_close && self.transmit.want_close && self.ep_events.want_close
            && self.events.want_close
    }

    /// What a round comes to, from its beginning at the timer on.
    pub open spec fn run(self) -> (ConnectionDriver, ConRoundAct) {
        let start = ConnectionDriver {
            phase: ConPhase::Timer,
            more_work: false,
            all_close: true,
        };
        let d1 = start.next(ConRoundEvt::Due(self.due)).0;
        let d2 = if self.due {
            d1.next(ConRoundEvt::Handled).0
        } else {
            d1
        };
        let d3 = d2.next(ConRoundEvt::Wish(self.commands)).0;
        let d4 = d3.next(ConRoundEvt::Handled).0;
        let d5 = d4.next(ConRoundEvt::Wish(self.transmit)).0;
        let d6 = d5.next(ConRoundEvt::Timeout(self.timeout)).0;
        let d7 = if self.timeout is Some {
            d6.next(ConRoundEvt::Handled).0
        } else {
            d6
        };
        let d8 = d7.next(ConRoundEvt::Wish(self.ep_events)).0;
        let (d9, act) = d8.next(ConRoundEvt::Wish(self.events));
        if act is Fail {
            (d9, act)
        } else {
            d9.next(ConRoundEvt::Elapsed(self.elapsed))
        }
    }
}

/// The law of a round: the connection ends if and only if all four parts have
/// nothing left to do. Else the driver rests as soon as no part has more work
/// or its time is up, and is woken exactly when there is more work.
pub proof fn law_con_round(round: ConRound)
    ensures
        round.all_close() <==> round.run().1 is Fail,
        round.all_close() ==> round.run().1 == ConRoundAct::Fail(AqErr::ConDriverClosing),
        !round.all_close() && (!round.more_work() || round.elapsed >= DRIVER_MILLIS)
            ==> round.run().1 == ConRoundAct::Pend(round.more_work()),
        !round.all_close() && round.more_work() && round.elapsed < DRIVER_MILLIS
            ==> round.run().1 is CheckTimer && round.run().0.phase is Timer,
{
}

/// A timer that keeps the earliest time it was set to. `F` completes at that
/// time; once it has completed, none is kept and the timer is due.
pub struct Timer<F> {
    /// the time it is set to and what completes then
    pub inner: Option<(u64, Option<F>)>,
}

impl<F> Timer<F> {
    /// A timer that is not set.
    pub fn new() -> (r: Self)
        ensures
            r.inner is None,
    {
        Timer { inner: None }
    }

    /// Whether setting the timer to `time` takes a new future: it is not set,
    /// or to a later time.
    pub fn wants(&self, time: u64) -> (r: bool)
        ensures
            r == (match self.inner {
                None => true,
                Some((cur, _)) => time < cur,
            }),
    {
        match &self.inner {
            None => true,
            Some((cur, _)) => time < *cur,
        }
    }
}

/// What a timer is set to after it was set to `time`: the earliest of all.
pub open spec fn earliest(cur: Option<u64>, time: u64) -> u64 {
    match cur {
        Some(cur) if cur <= time => cur,
        _ => time,
    }
}

impl<F: Future<Output = ()> + Unpin> Timer<F> {
    /// What is polled when the timer is set to `time`: `sleep` where that is
    /// earlier than before, else what was kept.
    pub open spec fn to_poll(self, time: u64, sleep: F) -> Option<F> {
        match self.inner {
            Some((cur, fut)) if cur <= time => fut,
            _ => Some(sleep),
        }
    }

    /// The time that the timer is set to.
    pub open spec fn time(self) -> Option<u64> {
        match self.inner {
            Some((time, _)) => Some(time),
            None => None,
        }
    }

    /// What asking whether the timer is due means: where it is set and waits,
    /// its future is polled, and what is left of it is kept.
    pub open spec fn triggers(self, after: Self, r: bool) -> bool {
        match self.inner {
            None => !r && after.inner is None,
            Some((_, None)) => r && after.inner is None,
            Some((time, Some(fut))) => if r {
                after.inner is None && task::polled(fut, Ok(()))
            } else {
                &&& after.inner matches Some((t, Some(rest)))
                &&& t == time
                &&& task::polled(fut, Err(rest))
            },
        }
    }

    /// What setting the timer means: the earlier of the two times counts, its
    /// future is polled, and what is left of it is kept.
    pub open spec fn sets(self, time: u64, sleep: F, after: Self, wake: bool) -> bool {
        let set = earliest(self.time(), time);
        match self.to_poll(time, sleep) {
            None => wake && after.inner == Some((set, None::<F>)),
            Some(fut) => if wake {
                after.inner == Some((set, None::<F>)) && task::polled(fut, Ok(()))
            } else {
                &&& after.inner matches Some((t, Some(rest)))
                &&& t == set
                &&& task::polled(fut, Err(rest))
            },
        }
    }

    /// Whether the timer is due; then it is not set any more. One that
    /// completed when it was set is due at once.
    pub fn should_trigger(&mut self, cx: &mut Context<'_>) -> (r: bool)
        ensures
            old(self).triggers(*final(self), r),
    {
        match self.inner.take() {
            None => false,
            Some((_, None)) => true,
            Some((time, Some(fut))) => {
                let mut kept = Some(fut);
                match poll_kept(&mut kept, cx) {
                    Poll::Ready(()) => true,
                    Poll::Pending => {
                        self.inner = Some((time, kept));
                        false
                    },
                }
            },
        }
    }

    /// Set the timer to `time`, unless it is set to an earlier one. `sleep` is
    /// a future that completes then. Whether whoever waits is to be woken right
    /// away, since the time has come.
    pub fn set_time(&mut self, cx: &mut Context<'_>, time: u64, sleep: F) -> (wake: bool)
        ensures
            old(self).sets(time, sleep, *final(self), wake),
    {
        let wanted = self.wants(time);
        let (time, fut) = match self.inner.take() {
            Some((cur, fut)) => {
                if wanted {
                    (time, Some(sleep))
                } else {
                    (cur, fut)
                }
            },
            None => (time, Some(sleep)),
        };
        match fut {
            Some(fut) => {
                let mut kept = Some(fut);
                let got = poll_kept(&mut kept, cx);
                self.inner = Some((time, kept));
                matches!(got, Poll::Ready(_))
            },
            None => {
                self.inner = Some((time, None));
                true
            },
        }
    }
}

/// Setting a timer never puts off an earlier time: it is set to the earliest
/// it was set to, and what waits for that time is what is polled. Whoever waits
/// is woken exactly when nothing is left to wait for.
pub proof fn law_timer_set<F: Future<Output = ()> + Unpin>(
    before: Timer<F>,
    time: u64,
    sleep: F,
    after: Timer<F>,
    wake: bool,
)
    requires
        before.sets(time, sleep, after, wake),
    ensures
        after.time() matches Some(t) && t <= time,
        before.time() matches Some(cur) ==> after.time()->0 <= cur,
        before.time() matches Some(cur) ==> after.time() == Some(cur) || after.time() == Some(time),
        before.time() is None ==> after.time() == Some(time),
        wake <==> after.inner matches Some((_, None)),
{
}

/// A timer that was due is not due again until it is set again; one that is not
/// due stays set to its time.
pub proof fn law_timer_due<F: Future<Output = ()> + Unpin>(
    before: Timer<F>,
    between: Timer<F>,
    first: bool,
    after: Timer<F>,
    second: bool,
)
    requires
        before.triggers(between, first),
        between.triggers(after, second),
    ensures
        first ==> before.inner is Some && !second && after.inner is None,
        !first ==> between.time() == before.time(),
        before.inner matches Some((_, None)) ==> first,
{
}

/// The law of the order of a round: where the timer is due the connection
/// handles its timeout; then come commands, the streams, packets, the timer,
/// which is set exactly where the connection has a timeout and to just that,
/// the endpoint and the user, each once. Every part is heard: there is more work
/// where any part said so, and nothing left to do only where all parts said so.
/// The connection is over exactly in this last case. Else the driver makes
/// another round while there is more work and ten milliseconds have not gone
/// by, and rests otherwise, to be woken at once exactly where there is more
/// work.
pub proof fn law_con_round_order(driver: ConnectionDriver, evt: ConRoundEvt, time: u64)
    requires
        driver.expects(evt),
    ensures
        ({
            let (after, act) = driver.next(evt);
            let late = evt matches ConRoundEvt::Elapsed(ms) && ms >= 10;
            &&& act is HandleTimeout <==> evt == ConRoundEvt::Due(true)
            &&& act is Commands <==> evt == ConRoundEvt::Due(false) || driver.phase is Timeout
            &&& act is StreamIo <==> driver.phase is Commands
            &&& act is Transmit <==> driver.phase is StreamIo
            &&& act is PollTimeout <==> driver.phase is Transmit
            &&& act == ConRoundAct::SetTimer(time) <==> evt == ConRoundEvt::Timeout(Some(time))
            &&& act is EpEvents <==> evt == ConRoundEvt::Timeout(None) || driver.phase is SetTimer
            &&& act is Events <==> driver.phase is EpEvents
            &&& evt matches ConRoundEvt::Wish(wish) ==> {
                &&& after.more_work <==> driver.more_work || wish.more_work
                &&& after.all_close <==> driver.all_close && wish.want_close
            }
            &&& act is CheckTimer ==> !after.more_work && after.all_close
            &&& !(evt is Wish || act is CheckTimer) ==> after.more_work == driver.more_work
                && after.all_close == driver.all_close
            &&& driver.phase is Events ==> if after.all_close {
                act == ConRoundAct::Fail(AqErr::ConDriverClosing)
            } else {
                act is CheckTime
            }
            &&& act is Fail || act is CheckTime ==> driver.phase is Events
            &&& act is Pend <==> evt is Elapsed && (!driver.more_work || late)
            &&& act matches ConRoundAct::Pend(wake) ==> wake == driver.more_work
            &&& act is CheckTimer <==> evt is Begin || evt is Elapsed && driver.more_work && !late
        }),
{
}

/// The law of what a timer polls: where it is set to an earlier time than
/// before, or was not set, the new future; where it waits for an earlier time
/// already, the one that it kept, whose time it keeps. What is left of it is
/// kept; nothing is where the time has come.
pub proof fn law_timer_polls<F: Future<Output = ()> + Unpin>(
    before: Timer<F>,
    time: u64,
    sleep: F,
    after: Timer<F>,
    wake: bool,
)
    requires
        before.sets(time, sleep, after, wake),
    ensures
        match before.inner {
            Some((cur, kept)) if cur <= time => match kept {
                None => wake && after.inner == Some((cur, None::<F>)),
                Some(fut) => {
                    &&& wake ==> after.inner == Some((cur, None::<F>)) && task::polled(fut, Ok(()))
                    &&& !wake ==> {
                        &&& after.inner matches Some((at, Some(rest)))
                        &&& at == cur
                        &&& task::polled(fut, Err(rest))
                    }
                },
            },
            _ => {
                &&& wake ==> after.inner == Some((time, None::<F>)) && task::polled(sleep, Ok(()))
                &&& !wake ==> {
                    &&& after.inner matches Some((at, Some(rest)))
                    &&& at == time
                    &&& task::polled(sleep, Err(rest))
                }
            },
        },
{
}

/// The law of a timer that is asked whether it is due: one that is not set is
/// not; one whose time has come is, and is not set any more; any other polls
/// what it keeps, is due exactly where that is through, and keeps its time and
/// what is left otherwise.
pub proof fn law_timer_asked<F: Future<Output = ()> + Unpin>(
    before: Timer<F>,
    after: Timer<F>,
    due: bool,
)
    requires
        before.triggers(after, due),
    ensures
        due ==> after.inner is None && before.inner is Some,
        before.inner is None ==> !due && after.inner is None,
        before.inner matches Some((_, None)) ==> due,
        before.inner matches Some((at, Some(fut))) ==> {
            &&& due ==> task::polled(fut, Ok(()))
            &&& !due ==> {
                &&& after.inner matches Some((same, Some(rest)))
                &&& same == at
                &&& task::polled(fut, Err(rest))
            }
        },
{
}

} // verus!
