//! Taking packets from the socket: which connection they belong to, and what
//! waits until somebody takes it.
use super::Wish;
use super::ROUNDS;
use crate::runtime::ChanResult;
use std::collections::VecDeque;
use std::task::Poll;
use vstd::prelude::*;

verus! {

/// How many connections and events may wait.
pub const CON_BUF_LIM: usize = 128;

/// What a turn is at.
#[derive(Clone, Copy)]
pub enum UdpInPhase {
    /// telling the user of connections that had to wait
    NewCons,
    /// passing on events that had to wait, from this list on
    ConEvts(usize),
    /// taking packets
    Packets,
    /// nothing more
    Over,
}

/// Takes packets from the socket, turn by turn. `C` is a new connection, `E`
/// an event for a connection.
pub struct UdpInDriver<C, E> {
    /// the user takes no connections any more
    pub evt_send_closed: bool,
    /// no packets will come any more
    pub udp_packet_recv_closed: bool,
    /// new connections that the user could not be told of yet
    pub new_con_buf: VecDeque<(usize, C)>,
    /// events that could not be passed on yet, a list for each connection
    pub con_evt_buf: Vec<(usize, VecDeque<E>)>,
    /// what the turn is at
    pub phase: UdpInPhase,
    /// how much more may wait
    pub space: usize,
    /// how many packets may still be taken in this turn
    pub left: u8,
    /// a packet was taken
    pub more_work: bool,
}

/// A `UdpInDriver` as mathematics.
#[verifier::ext_equal]
pub struct UdpInState<C, E> {
    /// the user takes no connections any more
    pub evt_send_closed: bool,
    /// no packets will come any more
    pub udp_packet_recv_closed: bool,
    /// new connections that the user could not be told of yet
    pub new_con_buf: Seq<(usize, C)>,
    /// events that could not be passed on yet, a list for each connection
    pub con_evt_buf: Seq<(usize, Seq<E>)>,
    /// what the turn is at
    pub phase: UdpInPhase,
    /// how much more may wait
    pub space: int,
    /// how many packets may still be taken in this turn
    pub left: int,
    /// a packet was taken
    pub more_work: bool,
}

/// What the endpoint made of a packet for the connection with this handle.
pub enum PacketMeans<C, E> {
    /// an event for a connection
    ConEvt(usize, E),
    /// a new connection
    NewCon(usize, C),
}

/// What came of the last action of a turn. `PE` is the permit to tell the user
/// of a connection, `PC` the permit to pass an event on to a connection, `D` a
/// packet.
pub enum UdpInEvt<C, E, PE, PC, D> {
    /// the turn begins, or the last action is done
    Next,
    /// the answer to the request for a permit for the first connection that
    /// waits
    NewConPermit(Poll<ChanResult<PE>>),
    /// the answer to the request for a permit for the connection that events
    /// wait for; none where there is no such connection
    ConEvtPermit(Option<Poll<ChanResult<PC>>>),
    /// the next packet, if there is one
    Packet(Poll<Option<D>>),
    /// what the endpoint made of the packet, if anything
    Handled(Option<PacketMeans<C, E>>),
    /// the answer to the request for a permit for this event; none where there
    /// is no such connection
    EvtPermit(usize, E, Option<Poll<ChanResult<PC>>>),
    /// the answer to the request for a permit for this connection
    ConPermit(usize, C, Poll<ChanResult<PE>>),
}

/// What to do next in a turn.
pub enum UdpInAct<C, E, PE, PC, D> {
    /// ask for a permit to tell the user of the first connection that waits
    AcquireNewCon,
    /// ask for a permit to pass an event that waits on to this connection
    AcquireConEvt(usize),
    /// see whether there is a packet
    Recv,
    /// let the endpoint handle the packet
    Handle(D),
    /// ask for a permit to pass this event on to this connection
    AcquireEvt(usize, E),
    /// ask for a permit to tell the user of this connection
    AcquireCon(usize, C),
    /// pass the event on to the connection
    SendEvt(PC, usize, E),
    /// run the driver of the new connection, take it up, and tell the user
    Register(PE, usize, C),
    /// forget the connection: it takes no events any more
    RemoveCon(usize),
    /// nothing
    Skip,
    /// the turn is over
    Done(Wish),
}

/// How many events wait in all lists together.
pub open spec fn waiting<E>(lists: Seq<(usize, Seq<E>)>) -> int
    decreases lists.len(),
{
    if lists.len() == 0 {
        0
    } else {
        waiting(lists.drop_last()) + lists.last().1.len()
    }
}

/// The list of the connection `hnd`, or the number of lists.
pub open spec fn list_of<E>(lists: Seq<(usize, Seq<E>)>, hnd: usize) -> int
    decreases lists.len(),
{
    if lists.len() == 0 {
        0
    } else if list_of(lists.drop_last(), hnd) < lists.len() - 1 {
        list_of(lists.drop_last(), hnd)
    } else if lists.last().0 == hnd {
        lists.len() - 1
    } else {
        lists.len() as int
    }
}

/// The lists with one more event at the end of that of the connection.
pub open spec fn pushed<E>(lists: Seq<(usize, Seq<E>)>, hnd: usize, evt: E) -> Seq<
    (usize, Seq<E>),
> {
    let i = list_of(lists, hnd);
    if i < lists.len() {
        lists.update(i, (hnd, lists[i].1.push(evt)))
    } else {
        lists.push((hnd, seq![evt]))
    }
}

/// The lists without the first event of one of them; where that was its last,
/// without the list.
pub open spec fn popped<E>(lists: Seq<(usize, Seq<E>)>, i: int) -> Seq<(usize, Seq<E>)> {
    if lists[i].1.len() == 1 {
        lists.remove(i)
    } else {
        lists.update(i, (lists[i].0, lists[i].1.skip(1)))
    }
}

/// The events that wait for a connection in a list, as mathematics.
pub open spec fn lists_view<E>(lists: Seq<(usize, VecDeque<E>)>) -> Seq<(usize, Seq<E>)> {
    lists.map_values(|l: (usize, VecDeque<E>)| (l.0, l.1@))
}

impl<C, E> View for UdpInDriver<C, E> {
    type V = UdpInState<C, E>;

    open spec fn view(&self) -> UdpInState<C, E> {
        UdpInState {
            evt_send_closed: self.evt_send_closed,
            udp_packet_recv_closed: self.udp_packet_recv_closed,
            new_con_buf: self.new_con_buf@,
            con_evt_buf: lists_view(self.con_evt_buf@),
            phase: self.phase,
            space: self.space as int,
            left: self.left as int,
            more_work: self.more_work,
        }
    }
}

impl<C, E> UdpInState<C, E> {
    /// How many connections and events wait.
    pub open spec fn total(self) -> int {
        self.new_con_buf.len() + waiting(self.con_evt_buf)
    }

    /// No more waits than may, and no list is empty.
    pub open spec fn wf(self) -> bool {
        &&& self.total() <= CON_BUF_LIM
        &&& forall|i: int|
            0 <= i < self.con_evt_buf.len() ==> (#[trigger] self.con_evt_buf[i]).1.len() > 0
        &&& self.phase is Packets ==> self.space >= 0 && self.total() + self.space <= CON_BUF_LIM
        &&& 0 <= self.left <= ROUNDS
    }

    /// The turn at its beginning.
    pub open spec fn restarted(self) -> UdpInState<C, E> {
        UdpInState {
            phase: UdpInPhase::NewCons,
            left: ROUNDS as int,
            more_work: false,
            ..self
        }
    }

    /// The turn at taking packets, with the space that is left.
    pub open spec fn at_packets(self) -> UdpInState<C, E> {
        UdpInState {
            phase: UdpInPhase::Packets,
            space: CON_BUF_LIM - self.total(),
            left: ROUNDS as int,
            ..self
        }
    }

    /// The turn at the events that wait from list `i` on.
    pub open spec fn at_evts(self, i: int) -> UdpInState<C, E> {
        if i < self.con_evt_buf.len() {
            UdpInState { phase: UdpInPhase::ConEvts(i as usize), ..self }
        } else {
            self.at_packets()
        }
    }

    /// The turn where it has something to do.
    pub open spec fn settled(self) -> UdpInState<C, E> {
        match self.phase {
            UdpInPhase::NewCons => if !self.evt_send_closed && self.new_con_buf.len() > 0 {
                self
            } else {
                self.at_evts(0).checked()
            },
            UdpInPhase::ConEvts(i) => self.at_evts(i as int).checked(),
            _ => self.checked(),
        }
    }

    /// The turn at taking packets goes on only while packets come, may wait
    /// and may be taken.
    pub open spec fn checked(self) -> UdpInState<C, E> {
        if self.phase is Packets && (self.udp_packet_recv_closed || self.space == 0 || self.left
            == 0) {
            UdpInState { phase: UdpInPhase::Over, ..self }
        } else {
            self
        }
    }

    /// What a turn that has settled does.
    pub open spec fn begin<PE, PC, D>(self) -> UdpInAct<C, E, PE, PC, D> {
        match self.phase {
            UdpInPhase::NewCons => UdpInAct::AcquireNewCon,
            UdpInPhase::ConEvts(i) => UdpInAct::AcquireConEvt(self.con_evt_buf[i as int].0),
            UdpInPhase::Packets => UdpInAct::Recv,
            UdpInPhase::Over => UdpInAct::Done(
                Wish {
                    more_work: self.more_work,
                    want_close: self.evt_send_closed && self.udp_packet_recv_closed,
                },
            ),
        }
    }

    /// What a turn does next, and the turn after that.
    pub open spec fn next<PE, PC, D>(self, evt: UdpInEvt<C, E, PE, PC, D>) -> (
        UdpInState<C, E>,
        UdpInAct<C, E, PE, PC, D>,
    ) {
        match evt {
            UdpInEvt::Next => (self.settled(), self.settled().begin()),
            UdpInEvt::NewConPermit(Poll::Pending) => {
                let after = self.at_evts(0).checked();
                (after, after.begin())
            },
            UdpInEvt::NewConPermit(Poll::Ready(Err(_))) => {
                let after = UdpInState {
                    evt_send_closed: true,
                    new_con_buf: Seq::empty(),
                    ..self
                }.at_evts(0).checked();
                (after, after.begin())
            },
            UdpInEvt::NewConPermit(Poll::Ready(Ok(permit))) => (
                UdpInState { new_con_buf: self.new_con_buf.skip(1), ..self },
                UdpInAct::Register(permit, self.new_con_buf[0].0, self.new_con_buf[0].1),
            ),
            UdpInEvt::ConEvtPermit(got) => {
                let i = self.phase->ConEvts_0 as int;
                let hnd = self.con_evt_buf[i].0;
                match got {
                    None => {
                        let after = UdpInState {
                            con_evt_buf: self.con_evt_buf.remove(i),
                            ..self
                        }.at_evts(i).checked();
                        (after, after.begin())
                    },
                    Some(Poll::Pending) => {
                        let after = self.at_evts(i + 1).checked();
                        (after, after.begin())
                    },
                    Some(Poll::Ready(Err(_))) => (
                        UdpInState { con_evt_buf: self.con_evt_buf.remove(i), ..self },
                        UdpInAct::RemoveCon(hnd),
                    ),
                    Some(Poll::Ready(Ok(permit))) => (
                        UdpInState { con_evt_buf: popped(self.con_evt_buf, i), ..self },
                        UdpInAct::SendEvt(permit, hnd, self.con_evt_buf[i].1[0]),
                    ),
                }
            },
            UdpInEvt::Packet(Poll::Pending) => {
                let after = UdpInState { phase: UdpInPhase::Over, ..self };
                (after, after.begin())
            },
            UdpInEvt::Packet(Poll::Ready(None)) => {
                let after = UdpInState {
                    phase: UdpInPhase::Over,
                    udp_packet_recv_closed: true,
                    ..self
                };
                (after, after.begin())
            },
            UdpInEvt::Packet(Poll::Ready(Some(packet))) => (
                UdpInState { left: self.left - 1, more_work: true, ..self },
                UdpInAct::Handle(packet),
            ),
            UdpInEvt::Handled(None) => (self, UdpInAct::Skip),
            UdpInEvt::Handled(Some(PacketMeans::ConEvt(hnd, e))) => (
                self,
                UdpInAct::AcquireEvt(hnd, e),
            ),
            UdpInEvt::Handled(Some(PacketMeans::NewCon(hnd, con))) => (
                self,
                UdpInAct::AcquireCon(hnd, con),
            ),
            UdpInEvt::EvtPermit(_, _, None) => (self, UdpInAct::Skip),
            UdpInEvt::EvtPermit(hnd, e, Some(Poll::Pending)) => (
                UdpInState {
                    con_evt_buf: pushed(self.con_evt_buf, hnd, e),
                    space: self.space - 1,
                    ..self
                },
                UdpInAct::Skip,
            ),
            UdpInEvt::EvtPermit(hnd, _, Some(Poll::Ready(Err(_)))) => (
                self,
                UdpInAct::RemoveCon(hnd),
            ),
            UdpInEvt::EvtPermit(hnd, e, Some(Poll::Ready(Ok(permit)))) => (
                self,
                UdpInAct::SendEvt(permit, hnd, e),
            ),
            UdpInEvt::ConPermit(hnd, con, Poll::Pending) => (
                UdpInState {
                    new_con_buf: self.new_con_buf.push((hnd, con)),
                    space: self.space - 1,
                    ..self
                },
                UdpInAct::Skip,
            ),
            UdpInEvt::ConPermit(hnd, con, Poll::Ready(Err(_))) => (
                UdpInState {
                    evt_send_closed: true,
                    new_con_buf: seq![(hnd, con)],
                    space: self.space - 1,
                    ..self
                },
                UdpInAct::Skip,
            ),
            UdpInEvt::ConPermit(hnd, con, Poll::Ready(Ok(permit))) => (
                self,
                UdpInAct::Register(permit, hnd, con),
            ),
        }
    }

    /// Whether a turn waits for this event.
    pub open spec fn expects<PE, PC, D>(self, evt: UdpInEvt<C, E, PE, PC, D>) -> bool {
        match evt {
            UdpInEvt::Next => true,
            UdpInEvt::NewConPermit(_) => self.phase is NewCons && self.new_con_buf.len() > 0,
            UdpInEvt::ConEvtPermit(_) => self.phase matches UdpInPhase::ConEvts(i) && i
                < self.con_evt_buf.len(),
            UdpInEvt::Packet(_) => self.phase is Packets && self.left > 0 && self.space > 0,
            _ => self.phase is Packets && self.space > 0,
        }
    }
}

proof fn lemma_waiting_update<E>(lists: Seq<(usize, Seq<E>)>, i: int, l: (usize, Seq<E>))
    requires
        0 <= i < lists.len(),
    ensures
        waiting(lists.update(i, l)) == waiting(lists) - lists[i].1.len() + l.1.len(),
    decreases lists.len(),
{
    let after = lists.update(i, l);
    if i == lists.len() - 1 {
        assert(after.drop_last() =~= lists.drop_last());
    } else {
        assert(after.drop_last() =~= lists.drop_last().update(i, l));
        lemma_waiting_update(lists.drop_last(), i, l);
    }
}

proof fn lemma_waiting_remove<E>(lists: Seq<(usize, Seq<E>)>, i: int)
    requires
        0 <= i < lists.len(),
    ensures
        waiting(lists.remove(i)) == waiting(lists) - lists[i].1.len(),
    decreases lists.len(),
{
    let after = lists.remove(i);
    if i == lists.len() - 1 {
        assert(after =~= lists.drop_last());
    } else {
        assert(after.drop_last() =~= lists.drop_last().remove(i));
        lemma_waiting_remove(lists.drop_last(), i);
    }
}

proof fn lemma_waiting_push<E>(lists: Seq<(usize, Seq<E>)>, l: (usize, Seq<E>))
    ensures
        waiting(lists.push(l)) == waiting(lists) + l.1.len(),
{
    assert(lists.push(l).drop_last() =~= lists);
}

proof fn lemma_waiting_take<E>(lists: Seq<(usize, Seq<E>)>, n: int)
    requires
        0 <= n <= lists.len(),
    ensures
        0 <= waiting(lists.take(n)) <= waiting(lists),
        n < lists.len() ==> waiting(lists.take(n + 1)) == waiting(lists.take(n))
            + lists[n].1.len(),
    decreases lists.len(),
{
    if n < lists.len() {
        assert(lists.take(n + 1) =~= lists.take(n).push(lists[n]));
        lemma_waiting_push(lists.take(n), lists[n]);
        lemma_waiting_take(lists.drop_last(), n);
        assert(lists.drop_last().take(n) =~= lists.take(n));
    } else {
        assert(lists.take(n) =~= lists);
        if n > 0 {
            lemma_waiting_take(lists.drop_last(), n - 1);
            assert(lists.drop_last().take(n - 1) =~= lists.drop_last());
        }
    }
}

proof fn lemma_list_of<E>(lists: Seq<(usize, Seq<E>)>, hnd: usize)
    ensures
        0 <= list_of(lists, hnd) <= lists.len(),
        list_of(lists, hnd) < lists.len() ==> lists[list_of(lists, hnd)].0 == hnd,
        forall|j: int|
            0 <= j < list_of(lists, hnd) && j < lists.len() ==> (#[trigger] lists[j]).0 != hnd,
    decreases lists.len(),
{
    if lists.len() > 0 {
        let front = lists.drop_last();
        lemma_list_of(front, hnd);
        assert forall|j: int| 0 <= j < list_of(lists, hnd) && j < lists.len() implies (
        #[trigger] lists[j]).0 != hnd by {
            if j < front.len() {
                assert(front[j] == lists[j]);
            }
        }
    }
}

proof fn lemma_pushed<E>(lists: Seq<(usize, Seq<E>)>, hnd: usize, evt: E)
    ensures
        waiting(pushed(lists, hnd, evt)) == waiting(lists) + 1,
{
    lemma_list_of(lists, hnd);
    let i = list_of(lists, hnd);
    if i < lists.len() {
        lemma_waiting_update(lists, i, (hnd, lists[i].1.push(evt)));
    } else {
        lemma_waiting_push(lists, (hnd, seq![evt]));
    }
}

proof fn lemma_popped<E>(lists: Seq<(usize, Seq<E>)>, i: int)
    requires
        0 <= i < lists.len(),
        lists[i].1.len() > 0,
    ensures
        waiting(popped(lists, i)) == waiting(lists) - 1,
{
    if lists[i].1.len() == 1 {
        lemma_waiting_remove(lists, i);
    } else {
        lemma_waiting_update(lists, i, (lists[i].0, lists[i].1.skip(1)));
    }
}

proof fn lemma_waiting_at_least<E>(lists: Seq<(usize, Seq<E>)>)
    requires
        forall|i: int| 0 <= i < lists.len() ==> (#[trigger] lists[i]).1.len() > 0,
    ensures
        waiting(lists) >= lists.len(),
    decreases lists.len(),
{
    if lists.len() > 0 {
        let front = lists.drop_last();
        assert forall|i: int| 0 <= i < front.len() implies (#[trigger] front[i]).1.len() > 0 by {
            assert(front[i] == lists[i]);
        }
        lemma_waiting_at_least(front);
        assert(lists[lists.len() - 1].1.len() > 0);
    }
}

proof fn lemma_removed_nonempty<E>(lists: Seq<(usize, Seq<E>)>, i: int)
    requires
        0 <= i < lists.len(),
        forall|j: int| 0 <= j < lists.len() ==> (#[trigger] lists[j]).1.len() > 0,
    ensures
        forall|j: int|
            0 <= j < lists.remove(i).len() ==> (#[trigger] lists.remove(i)[j]).1.len() > 0,
{
    let gone = lists.remove(i);
    assert forall|j: int| 0 <= j < gone.len() implies (#[trigger] gone[j]).1.len() > 0 by {
        assert(gone[j] == lists[j] || gone[j] == lists[j + 1]);
    }
}

/// The law of taking packets: never more connections and events wait than may,
/// whatever comes; and no step adds more than one.
pub proof fn law_udp_in<C, E, PE, PC, D>(
    turn: UdpInState<C, E>,
    evt: UdpInEvt<C, E, PE, PC, D>,
)
    requires
        turn.wf(),
        turn.expects(evt),
    ensures
        turn.next(evt).0.wf(),
        turn.next(evt).0.total() <= CON_BUF_LIM,
        turn.next(evt).0.total() <= turn.total() + 1,
        turn.evt_send_closed ==> turn.next(evt).0.evt_send_closed,
        turn.udp_packet_recv_closed ==> turn.next(evt).0.udp_packet_recv_closed,
{
    let lists = turn.con_evt_buf;
    lemma_waiting_at_least(lists);
    match evt {
        UdpInEvt::ConEvtPermit(got) => {
            let i = turn.phase->ConEvts_0 as int;
            lemma_waiting_remove(lists, i);
            lemma_popped(lists, i);
            lemma_removed_nonempty(lists, i);
            let less = popped(lists, i);
            assert forall|j: int| 0 <= j < less.len() implies (#[trigger] less[j]).1.len() > 0 by {
                if lists[i].1.len() != 1 {
                    assert(lists[j].1.len() > 0);
                }
            }
        },
        UdpInEvt::EvtPermit(hnd, e, Some(Poll::Pending)) => {
            lemma_pushed(lists, hnd, e);
            lemma_list_of(lists, hnd);
            let more = pushed(lists, hnd, e);
            assert forall|j: int| 0 <= j < more.len() implies (#[trigger] more[j]).1.len() > 0 by {
                if j < lists.len() {
                    assert(lists[j].1.len() > 0);
                }
            }
        },
        _ => {},
    }
}

/// Whether an event answers an action.
pub open spec fn udp_in_answers<C, E, PE, PC, D>(
    act: UdpInAct<C, E, PE, PC, D>,
    evt: UdpInEvt<C, E, PE, PC, D>,
) -> bool {
    match act {
        UdpInAct::AcquireNewCon => evt is NewConPermit,
        UdpInAct::AcquireConEvt(_) => evt is ConEvtPermit,
        UdpInAct::Recv => evt is Packet,
        UdpInAct::Handle(_) => evt is Handled,
        UdpInAct::AcquireEvt(hnd, e) => evt matches UdpInEvt::EvtPermit(h, v, _) && h == hnd && v
            == e,
        UdpInAct::AcquireCon(hnd, con) => evt matches UdpInEvt::ConPermit(h, c, _) && h == hnd && c
            == con,
        UdpInAct::Done(_) => false,
        _ => evt is Next,
    }
}

/// Whether a turn can be in this state when it hands out this action.
pub open spec fn udp_in_ok<C, E, PE, PC, D>(
    turn: UdpInState<C, E>,
    act: UdpInAct<C, E, PE, PC, D>,
) -> bool {
    match act {
        UdpInAct::AcquireNewCon => turn.phase is NewCons && turn.new_con_buf.len() > 0,
        UdpInAct::AcquireConEvt(hnd) => {
            &&& turn.phase matches UdpInPhase::ConEvts(i)
            &&& i < turn.con_evt_buf.len()
            &&& turn.con_evt_buf[i as int].0 == hnd
        },
        UdpInAct::Recv => turn.phase is Packets && turn.left > 0 && turn.space > 0
            && !turn.udp_packet_recv_closed,
        UdpInAct::Handle(_) | UdpInAct::AcquireEvt(..) | UdpInAct::AcquireCon(..) => turn.phase
            is Packets && turn.space > 0,
        UdpInAct::Done(wish) => {
            &&& turn.phase is Over
            &&& wish.more_work == turn.more_work
            &&& wish.want_close == (turn.evt_send_closed && turn.udp_packet_recv_closed)
        },
        _ => !(turn.phase is Over),
    }
}

/// How many phases a turn still has before it.
pub open spec fn udp_in_phases<C, E>(turn: UdpInState<C, E>) -> int {
    match turn.phase {
        UdpInPhase::NewCons => 3,
        UdpInPhase::ConEvts(_) => 2,
        UdpInPhase::Packets => 1,
        UdpInPhase::Over => 0,
    }
}

/// How much a turn still has to do in its phase, at most.
pub open spec fn udp_in_todo<C, E>(turn: UdpInState<C, E>) -> int {
    match turn.phase {
        UdpInPhase::NewCons => turn.new_con_buf.len() as int,
        UdpInPhase::ConEvts(i) => waiting(turn.con_evt_buf) + turn.con_evt_buf.len() - i,
        UdpInPhase::Packets => turn.left,
        UdpInPhase::Over => 0,
    }
}

/// How far an action is from the next request or packet.
pub open spec fn udp_in_distance<C, E, PE, PC, D>(act: UdpInAct<C, E, PE, PC, D>) -> int {
    match act {
        UdpInAct::Done(_) => 0,
        UdpInAct::AcquireNewCon | UdpInAct::AcquireConEvt(_) | UdpInAct::Recv => 1,
        UdpInAct::AcquireEvt(..) | UdpInAct::AcquireCon(..) => 3,
        UdpInAct::Handle(_) => 4,
        _ => 2,
    }
}

/// The law of a turn at taking packets: every answer to what it does keeps it
/// in order, and brings it nearer to its end. Each packet that is taken is
/// handled, and is one fewer of those that the rounds allow; a turn that has
/// none left, or no room for what a packet may mean, takes none.
pub proof fn law_udp_in_turn<C, E, PE, PC, D>(
    turn: UdpInState<C, E>,
    act: UdpInAct<C, E, PE, PC, D>,
    evt: UdpInEvt<C, E, PE, PC, D>,
)
    requires
        turn.wf(),
        udp_in_ok(turn, act),
        udp_in_answers(act, evt),
    ensures
        ({
            let (after, then) = turn.next(evt);
            &&& turn.expects(evt)
            &&& after.wf()
            &&& udp_in_ok(after, then)
            &&& decreases_to!(
                udp_in_phases(turn), udp_in_todo(turn), udp_in_distance(act)
                => udp_in_phases(after), udp_in_todo(after), udp_in_distance(then)
            )
            &&& evt matches UdpInEvt::Packet(Poll::Ready(Some(packet))) ==> {
                &&& then == UdpInAct::<C, E, PE, PC, D>::Handle(packet)
                &&& after.left == turn.left - 1
            }
            &&& turn.phase is Packets && !(then is Handle) ==> after.left == turn.left
            &&& (then is Handle ==> (evt matches UdpInEvt::Packet(Poll::Ready(Some(_)))))
            &&& then is Recv ==> after.left > 0 && after.total() < CON_BUF_LIM
        }),
{
    let lists = turn.con_evt_buf;
    law_udp_in(turn, evt);
    lemma_waiting_at_least(lists);
    let (after, then) = turn.next(evt);
    lemma_waiting_at_least(after.con_evt_buf);
    if turn.phase is ConEvts && evt is ConEvtPermit {
        let i = turn.phase->ConEvts_0 as int;
        assert(lists[i].1.len() > 0);
        lemma_waiting_remove(lists, i);
        lemma_popped(lists, i);
    }
}

impl<C, E> UdpInDriver<C, E> {
    /// The driver of a new endpoint.
    pub fn new() -> (r: Self)
        ensures
            r@ == (UdpInState {
                evt_send_closed: false,
                udp_packet_recv_closed: false,
                new_con_buf: Seq::<(usize, C)>::empty(),
                con_evt_buf: Seq::<(usize, Seq<E>)>::empty(),
                phase: UdpInPhase::NewCons,
                space: 0,
                left: ROUNDS as int,
                more_work: false,
            }),
            r@.wf(),
    {
        let r = UdpInDriver {
            evt_send_closed: false,
            udp_packet_recv_closed: false,
            new_con_buf: VecDeque::with_capacity(CON_BUF_LIM),
            con_evt_buf: Vec::new(),
            phase: UdpInPhase::NewCons,
            space: 0,
            left: ROUNDS,
            more_work: false,
        };
        assert(r@.con_evt_buf =~= Seq::<(usize, Seq<E>)>::empty());
        r
    }

    /// Begin a turn.
    pub fn restart(&mut self)
        requires
            old(self)@.wf(),
        ensures
            final(self)@ == old(self)@.restarted(),
            final(self)@.wf(),
    {
        self.phase = UdpInPhase::NewCons;
        self.left = ROUNDS;
        self.more_work = false;
    }

    /// How much more may wait.
    pub fn buffer_space(&self) -> (r: usize)
        requires
            self@.wf(),
        ensures
            r == CON_BUF_LIM - self@.total(),
    {
        let mut cur: usize = self.new_con_buf.len();
        let mut i: usize = 0;
        proof {
            lemma_waiting_take(self@.con_evt_buf, 0);
            assert(self@.con_evt_buf.take(0) =~= Seq::empty());
        }
        while i < self.con_evt_buf.len()
            invariant
                i <= self.con_evt_buf@.len(),
                self@.wf(),
                cur == self.new_con_buf@.len() + waiting(self@.con_evt_buf.take(i as int)),
            decreases self.con_evt_buf@.len() - i,
        {
            proof {
                lemma_waiting_take(self@.con_evt_buf, i as int);
                lemma_waiting_take(self@.con_evt_buf, i + 1);
                assert(self@.con_evt_buf[i as int].1.len() == self.con_evt_buf@[i as int].1@.len());
            }
            cur = cur + self.con_evt_buf[i].1.len();
            i = i + 1;
        }
        assert(self@.con_evt_buf.take(i as int) =~= self@.con_evt_buf);
        CON_BUF_LIM - cur
    }

    fn check(&mut self)
        requires
            old(self)@.wf(),
        ensures
            final(self)@ == old(self)@.checked(),
            final(self)@.wf(),
    {
        if matches!(self.phase, UdpInPhase::Packets) && (self.udp_packet_recv_closed || self.space
            == 0 || self.left == 0) {
            self.phase = UdpInPhase::Over;
        }
    }

    fn go_to_evts(&mut self, i: usize)
        requires
            old(self)@.wf(),
        ensures
            final(self)@ == old(self)@.at_evts(i as int).checked(),
            final(self)@.wf(),
    {
        if i < self.con_evt_buf.len() {
            self.phase = UdpInPhase::ConEvts(i);
        } else {
            self.space = self.buffer_space();
            self.phase = UdpInPhase::Packets;
            self.left = ROUNDS;
        }
        self.check();
    }

    fn start<PE, PC, D>(&self) -> (r: UdpInAct<C, E, PE, PC, D>)
        requires
            self.phase matches UdpInPhase::ConEvts(i) ==> i < self.con_evt_buf@.len(),
        ensures
            r == self@.begin::<PE, PC, D>(),
    {
        match self.phase {
            UdpInPhase::NewCons => UdpInAct::AcquireNewCon,
            UdpInPhase::ConEvts(i) => UdpInAct::AcquireConEvt(self.con_evt_buf[i].0),
            UdpInPhase::Packets => UdpInAct::Recv,
            UdpInPhase::Over => UdpInAct::Done(
                Wish {
                    more_work: self.more_work,
                    want_close: self.evt_send_closed && self.udp_packet_recv_closed,
                },
            ),
        }
    }

    fn find(&self, hnd: usize) -> (r: usize)
        ensures
            r == list_of(self@.con_evt_buf, hnd),
    {
        proof {
            lemma_list_of(self@.con_evt_buf, hnd);
        }
        let mut i: usize = 0;
        while i < self.con_evt_buf.len()
            invariant
                i <= self.con_evt_buf@.len(),
                forall|j: int| 0 <= j < i ==> (#[trigger] self@.con_evt_buf[j]).0 != hnd,
            decreases self.con_evt_buf@.len() - i,
        {
            assert(self@.con_evt_buf[i as int].0 == self.con_evt_buf@[i as int].0);
            if self.con_evt_buf[i].0 == hnd {
                proof {
                    lemma_list_of(self@.con_evt_buf, hnd);
                }
                return i;
            }
            i = i + 1;
        }
        proof {
            lemma_list_of(self@.con_evt_buf, hnd);
        }
        i
    }

    fn push_evt(&mut self, hnd: usize, evt: E)
        requires
            old(self).space > 0,
        ensures
            final(self)@ == (UdpInState {
                con_evt_buf: pushed(old(self)@.con_evt_buf, hnd, evt),
                space: old(self)@.space - 1,
                ..old(self)@
            }),
    {
        proof {
            lemma_list_of(self@.con_evt_buf, hnd);
        }
        let i: usize = self.find(hnd);
        if i < self.con_evt_buf.len() {
            let (key, mut list) = self.con_evt_buf.remove(i);
            list.push_back(evt);
            self.con_evt_buf.insert(i, (key, list));
        } else {
            let mut list = VecDeque::new();
            list.push_back(evt);
            self.con_evt_buf.push((hnd, list));
            assert(list@ =~= seq![evt]);
        }
        self.space = self.space - 1;
        assert(self@.con_evt_buf =~= pushed(old(self)@.con_evt_buf, hnd, evt));
    }

    fn pop_evt(&mut self, i: usize) -> (r: E)
        requires
            i < old(self).con_evt_buf@.len(),
            old(self)@.con_evt_buf[i as int].1.len() > 0,
        ensures
            final(self)@ == (UdpInState {
                con_evt_buf: popped(old(self)@.con_evt_buf, i as int),
                ..old(self)@
            }),
            r == old(self)@.con_evt_buf[i as int].1[0],
    {
        let (key, mut list) = self.con_evt_buf.remove(i);
        let evt = list.pop_front().unwrap();
        if list.len() > 0 {
            self.con_evt_buf.insert(i, (key, list));
        }
        assert(list@ =~= old(self)@.con_evt_buf[i as int].1.skip(1));
        assert(self@.con_evt_buf =~= popped(old(self)@.con_evt_buf, i as int));
        evt
    }

    /// Go one step on in the turn.
    pub fn poll<PE, PC, D>(&mut self, evt: UdpInEvt<C, E, PE, PC, D>) -> (r: UdpInAct<
        C,
        E,
        PE,
        PC,
        D,
    >)
        requires
            old(self)@.wf(),
            old(self)@.expects(evt),
        ensures
            (final(self)@, r) == old(self)@.next(evt),
            final(self)@.wf(),
    {
        proof {
            law_udp_in(self@, evt);
        }
        match evt {
            UdpInEvt::Next => {
                match self.phase {
                    UdpInPhase::NewCons => {
                        if self.evt_send_closed || self.new_con_buf.len() == 0 {
                            self.go_to_evts(0);
                        }
                    },
                    UdpInPhase::ConEvts(i) => self.go_to_evts(i),
                    _ => self.check(),
                }
                self.start()
            },
            UdpInEvt::NewConPermit(Poll::Pending) => {
                self.go_to_evts(0);
                self.start()
            },
            UdpInEvt::NewConPermit(Poll::Ready(Err(_))) => {
                self.evt_send_closed = true;
                self.new_con_buf.clear();
                self.go_to_evts(0);
                self.start()
            },
            UdpInEvt::NewConPermit(Poll::Ready(Ok(permit))) => {
                let (hnd, con) = self.new_con_buf.pop_front().unwrap();
                assert(self.new_con_buf@ =~= old(self)@.new_con_buf.skip(1));
                UdpInAct::Register(permit, hnd, con)
            },
            UdpInEvt::ConEvtPermit(got) => {
                let i: usize = match self.phase {
                    UdpInPhase::ConEvts(i) => i,
                    _ => 0,
                };
                match got {
                    None => {
                        let _ = self.con_evt_buf.remove(i);
                        assert(self@.con_evt_buf =~= old(self)@.con_evt_buf.remove(i as int));
                        proof {
                            lemma_waiting_remove(old(self)@.con_evt_buf, i as int);
                            lemma_removed_nonempty(old(self)@.con_evt_buf, i as int);
                        }
                        self.go_to_evts(i);
                        self.start()
                    },
                    Some(Poll::Pending) => {
                        proof {
                            lemma_waiting_at_least(self@.con_evt_buf);
                        }
                        self.go_to_evts(i + 1);
                        self.start()
                    },
                    Some(Poll::Ready(Err(_))) => {
                        let (hnd, _) = self.con_evt_buf.remove(i);
                        assert(self@.con_evt_buf =~= old(self)@.con_evt_buf.remove(i as int));
                        UdpInAct::RemoveCon(hnd)
                    },
                    Some(Poll::Ready(Ok(permit))) => {
                        let hnd: usize = self.con_evt_buf[i].0;
                        let e = self.pop_evt(i);
                        UdpInAct::SendEvt(permit, hnd, e)
                    },
                }
            },
            UdpInEvt::Packet(Poll::Pending) => {
                self.phase = UdpInPhase::Over;
                self.start()
            },
            UdpInEvt::Packet(Poll::Ready(None)) => {
                self.phase = UdpInPhase::Over;
                self.udp_packet_recv_closed = true;
                self.start()
            },
            UdpInEvt::Packet(Poll::Ready(Some(packet))) => {
                self.left = self.left - 1;
                self.more_work = true;
                UdpInAct::Handle(packet)
            },
            UdpInEvt::Handled(None) => UdpInAct::Skip,
            UdpInEvt::Handled(Some(PacketMeans::ConEvt(hnd, e))) => UdpInAct::AcquireEvt(hnd, e),
            UdpInEvt::Handled(Some(PacketMeans::NewCon(hnd, con))) => UdpInAct::AcquireCon(
                hnd,
                con,
            ),
            UdpInEvt::EvtPermit(_, _, None) => UdpInAct::Skip,
            UdpInEvt::EvtPermit(hnd, e, Some(Poll::Pending)) => {
                self.push_evt(hnd, e);
                UdpInAct::Skip
            },
            UdpInEvt::EvtPermit(hnd, _, Some(Poll::Ready(Err(_)))) => UdpInAct::RemoveCon(hnd),
            UdpInEvt::EvtPermit(hnd, e, Some(Poll::Ready(Ok(permit)))) => UdpInAct::SendEvt(
                permit,
                hnd,
                e,
            ),
            UdpInEvt::ConPermit(hnd, con, Poll::Pending) => {
                self.new_con_buf.push_back((hnd, con));
                self.space = self.space - 1;
                UdpInAct::Skip
            },
            UdpInEvt::ConPermit(hnd, con, Poll::Ready(Err(_))) => {
                self.evt_send_closed = true;
                self.new_con_buf.clear();
                self.new_con_buf.push_back((hnd, con));
                self.space = self.space - 1;
                assert(self.new_con_buf@ =~= seq![(hnd, con)]);
                UdpInAct::Skip
            },
            UdpInEvt::ConPermit(hnd, con, Poll::Ready(Ok(permit))) => UdpInAct::Register(
                permit,
                hnd,
                con,
            ),
        }
    }
}

/// The law of connections that wait: while the user takes connections, none is
/// lost. A step leaves those that wait as they were, or puts the new one last
/// where the user cannot be told of it at once, or takes the first one away,
/// and that one is then registered. What is registered is either that first one
/// or the new one, whole and with its own handle. The user takes connections
/// until a permit is refused; whatever waited then is dropped, but for a
/// connection that came just then.
pub proof fn law_new_cons<C, E, PE, PC, D>(
    turn: UdpInState<C, E>,
    evt: UdpInEvt<C, E, PE, PC, D>,
)
    requires
        turn.wf(),
        turn.expects(evt),
    ensures
        ({
            let (after, then) = turn.next(evt);
            let was = turn.new_con_buf;
            let now = after.new_con_buf;
            &&& !after.evt_send_closed ==> {
                ||| {
                    &&& now == was
                    &&& !(evt matches UdpInEvt::ConPermit(_, _, Poll::Pending))
                    &&& !(evt matches UdpInEvt::NewConPermit(Poll::Ready(_)))
                }
                ||| {
                    &&& evt matches UdpInEvt::ConPermit(hnd, con, Poll::Pending)
                    &&& now == was.push((hnd, con))
                }
                ||| {
                    &&& evt matches UdpInEvt::NewConPermit(Poll::Ready(Ok(permit)))
                    &&& was.len() > 0
                    &&& was == seq![was[0]] + now
                    &&& then == UdpInAct::<C, E, PE, PC, D>::Register(permit, was[0].0, was[0].1)
                }
            }
            &&& evt matches UdpInEvt::ConPermit(hnd, con, Poll::Ready(Ok(permit))) ==> then
                == UdpInAct::<C, E, PE, PC, D>::Register(permit, hnd, con)
            &&& then matches UdpInAct::Register(permit, hnd, con) ==> {
                ||| evt == UdpInEvt::<C, E, PE, PC, D>::ConPermit(hnd, con, Poll::Ready(Ok(permit)))
                ||| evt == UdpInEvt::<C, E, PE, PC, D>::NewConPermit(Poll::Ready(Ok(permit)))
                    && was[0] == (hnd, con)
            }
            &&& after.evt_send_closed <==> {
                ||| turn.evt_send_closed
                ||| (evt matches UdpInEvt::NewConPermit(Poll::Ready(Err(_))))
                ||| (evt matches UdpInEvt::ConPermit(_, _, Poll::Ready(Err(_))))
            }
            &&& evt matches UdpInEvt::NewConPermit(Poll::Ready(Err(_))) ==> now.len() == 0
            &&& evt matches UdpInEvt::ConPermit(hnd, con, Poll::Ready(Err(_))) ==> now == seq![
                (hnd, con),
            ]
            &&& evt matches UdpInEvt::Handled(Some(PacketMeans::NewCon(hnd, con))) ==> then
                == UdpInAct::<C, E, PE, PC, D>::AcquireCon(hnd, con)
            &&& then is AcquireCon ==> evt is Handled
        }),
{
    if turn.new_con_buf.len() > 0 {
        assert(turn.new_con_buf =~= seq![turn.new_con_buf[0]] + turn.new_con_buf.skip(1));
    }
}

/// The events that wait for a connection, in the order in which they came.
pub open spec fn events_for<E>(lists: Seq<(usize, Seq<E>)>, hnd: usize) -> Seq<E>
    decreases lists.len(),
{
    if lists.len() == 0 {
        Seq::empty()
    } else if lists.last().0 == hnd {
        events_for(lists.drop_last(), hnd) + lists.last().1
    } else {
        events_for(lists.drop_last(), hnd)
    }
}

/// Whether no connection has two lists.
pub open spec fn one_each<E>(lists: Seq<(usize, Seq<E>)>) -> bool {
    forall|i: int, j: int|
        0 <= i < j < lists.len() ==> (#[trigger] lists[i]).0 != (#[trigger] lists[j]).0
}

/// With one list for a connection the events that wait for it are that list.
proof fn lemma_events_for<E>(lists: Seq<(usize, Seq<E>)>, hnd: usize)
    requires
        one_each(lists),
    ensures
        forall|i: int|
            0 <= i < lists.len() && (#[trigger] lists[i]).0 == hnd ==> events_for(lists, hnd)
                == lists[i].1,
        (forall|i: int| 0 <= i < lists.len() ==> (#[trigger] lists[i]).0 != hnd) ==> events_for(
            lists,
            hnd,
        ) == Seq::<E>::empty(),
    decreases lists.len(),
{
    if lists.len() > 0 {
        let less = lists.drop_last();
        let last = lists.len() - 1;
        assert(lists[last] == lists.last());
        assert forall|i: int, j: int| 0 <= i < j < less.len() implies (#[trigger] less[i]).0 != (
        #[trigger] less[j]).0 by {
            assert(lists[i].0 != lists[j].0);
        }
        lemma_events_for(less, hnd);
        assert(forall|i: int| 0 <= i < less.len() ==> less[i] == lists[i]);
        if lists.last().0 == hnd {
            assert forall|i: int| 0 <= i < less.len() implies (#[trigger] less[i]).0 != hnd by {
                assert(lists[i].0 != lists[last].0);
            }
            assert(events_for(lists, hnd) =~= lists.last().1);
        }
    }
}

/// The law of events that wait: for every connection, a step leaves the events
/// that wait for it as they were, or puts the new one last where the connection
/// cannot take it at once, or takes the first one away and passes it on to just
/// this connection, or drops them all where the connection is not there or
/// takes no more. What is passed on is that first one or the new one.
pub proof fn law_events_wait<C, E, PE, PC, D>(
    turn: UdpInState<C, E>,
    evt: UdpInEvt<C, E, PE, PC, D>,
    hnd: usize,
)
    requires
        turn.wf(),
        turn.expects(evt),
        one_each(turn.con_evt_buf),
    ensures
        one_each(turn.next(evt).0.con_evt_buf),
        ({
            let (after, then) = turn.next(evt);
            let was = events_for(turn.con_evt_buf, hnd);
            let now = events_for(after.con_evt_buf, hnd);
            let asked = turn.phase matches UdpInPhase::ConEvts(i) && turn.con_evt_buf[i as int].0
                == hnd;
            match evt {
                UdpInEvt::EvtPermit(to, e, Some(Poll::Pending)) => now == if to == hnd {
                    was.push(e)
                } else {
                    was
                },
                UdpInEvt::ConEvtPermit(answer) => if asked {
                    match answer {
                        None => now.len() == 0,
                        Some(Poll::Pending) => now == was,
                        Some(Poll::Ready(Err(_))) => now.len() == 0 && then == UdpInAct::<
                            C,
                            E,
                            PE,
                            PC,
                            D,
                        >::RemoveCon(hnd),
                        Some(Poll::Ready(Ok(permit))) => {
                            &&& was.len() > 0
                            &&& was == seq![was[0]] + now
                            &&& then == UdpInAct::<C, E, PE, PC, D>::SendEvt(permit, hnd, was[0])
                        },
                    }
                } else {
                    now == was
                },
                _ => now == was,
            }
        }),
{
    let lists = turn.con_evt_buf;
    let after = turn.next(evt).0;
    let now = after.con_evt_buf;
    lemma_waiting_at_least(lists);
    match evt {
        UdpInEvt::EvtPermit(to, e, Some(Poll::Pending)) => {
            let at = list_of(lists, to);
            lemma_list_of(lists, to);
            assert(one_each(now)) by {
                if at < lists.len() {
                    assert forall|i: int, j: int| 0 <= i < j < now.len() implies (#[trigger] now[i]).0
                        != (#[trigger] now[j]).0 by {
                        assert(lists[i].0 != lists[j].0);
                    }
                } else {
                    assert(now =~= lists.push((to, seq![e])));
                }
            }
            lemma_events_for(lists, hnd);
            lemma_events_for(now, hnd);
            if at < lists.len() {
                assert(lists[at].0 == to);
                assert(now[at].0 == to);
            } else {
                assert(now[at] == (to, seq![e]));
                assert(seq![e] =~= Seq::<E>::empty().push(e));
            }
            if to != hnd || at < lists.len() {
                if exists|i: int| 0 <= i < lists.len() && (#[trigger] lists[i]).0 == hnd {
                    let i = choose|i: int| 0 <= i < lists.len() && (#[trigger] lists[i]).0 == hnd;
                    assert(now[i].0 == hnd);
                } else {
                    assert forall|i: int| 0 <= i < now.len() implies (#[trigger] now[i]).0
                        != hnd by {
                        if i < lists.len() {
                            assert(lists[i].0 != hnd);
                        }
                    }
                }
            }
        },
        UdpInEvt::ConEvtPermit(answer) => {
            let at = turn.phase->ConEvts_0 as int;
            assert(lists[at].1.len() > 0);
            lemma_events_for(lists, hnd);
            let gone = now.len() < lists.len();
            assert(forall|i: int|
                0 <= i < now.len() ==> (#[trigger] now[i]).0 == lists[if gone && i >= at {
                    i + 1
                } else {
                    i
                }].0);
            assert(one_each(now));
            lemma_events_for(now, hnd);
            if lists[at].0 == hnd {
                let first = lists[at].1;
                assert(first =~= seq![first[0]] + first.skip(1));
                if gone {
                    assert forall|i: int| 0 <= i < now.len() implies (#[trigger] now[i]).0
                        != hnd by {
                        let k = if i >= at {
                            i + 1
                        } else {
                            i
                        };
                        assert(now[i].0 == lists[k].0);
                    }
                    assert(first.len() == 1 ==> first.skip(1) =~= Seq::empty());
                } else {
                    assert(now[at].0 == hnd);
                }
            } else if exists|i: int| 0 <= i < lists.len() && (#[trigger] lists[i]).0 == hnd {
                let i = choose|i: int| 0 <= i < lists.len() && (#[trigger] lists[i]).0 == hnd;
                let k = if gone && i > at {
                    i - 1
                } else {
                    i
                };
                assert(now[k] == lists[i]);
            } else {
                assert forall|i: int| 0 <= i < now.len() implies (#[trigger] now[i]).0 != hnd by {
                    let k = if gone && i >= at {
                        i + 1
                    } else {
                        i
                    };
                    assert(now[i].0 == lists[k].0);
                }
            }
        },
        _ => {},
    }
}

/// The law of routing: what the endpoint made of a packet goes to the
/// connection that the endpoint named, and to nobody else; a connection is
/// forgotten exactly where it was asked for a permit and takes no more.
pub proof fn law_routing<C, E, PE, PC, D>(
    turn: UdpInState<C, E>,
    evt: UdpInEvt<C, E, PE, PC, D>,
    hnd: usize,
    e: E,
    permit: PC,
)
    requires
        turn.wf(),
        turn.expects(evt),
    ensures
        ({
            let (after, then) = turn.next(evt);
            let first = turn.phase matches UdpInPhase::ConEvts(i) && turn.con_evt_buf[i as int].0
                == hnd;
            &&& then == UdpInAct::<C, E, PE, PC, D>::AcquireEvt(hnd, e) <==> evt == UdpInEvt::<
                C,
                E,
                PE,
                PC,
                D,
            >::Handled(Some(PacketMeans::ConEvt(hnd, e)))
            &&& evt == UdpInEvt::<C, E, PE, PC, D>::EvtPermit(
                hnd,
                e,
                Some(Poll::Ready(Ok(permit))),
            ) ==> then == UdpInAct::<C, E, PE, PC, D>::SendEvt(permit, hnd, e)
            &&& then == UdpInAct::<C, E, PE, PC, D>::SendEvt(permit, hnd, e) ==> {
                ||| evt == UdpInEvt::<C, E, PE, PC, D>::EvtPermit(
                    hnd,
                    e,
                    Some(Poll::Ready(Ok(permit))),
                )
                ||| first && evt == UdpInEvt::<C, E, PE, PC, D>::ConEvtPermit(
                    Some(Poll::Ready(Ok(permit))),
                )
            }
            &&& then == UdpInAct::<C, E, PE, PC, D>::RemoveCon(hnd) <==> {
                ||| (evt matches UdpInEvt::EvtPermit(to, _, Some(Poll::Ready(Err(_)))) && to == hnd)
                ||| first && (evt matches UdpInEvt::ConEvtPermit(Some(Poll::Ready(Err(_)))))
            }
            &&& then matches UdpInAct::AcquireConEvt(to) ==> {
                &&& after.phase matches UdpInPhase::ConEvts(i)
                &&& 0 <= i < after.con_evt_buf.len()
                &&& after.con_evt_buf[i as int].0 == to
            }
        }),
{
    law_udp_in(turn, evt);
    lemma_waiting_at_least(turn.con_evt_buf);
    lemma_waiting_at_least(turn.next(evt).0.con_evt_buf);
}

/// The law of the order of a turn: first the user is told of connections that
/// wait, until none does or the user cannot take more; then every list of
/// events is looked at once it is its turn, from the first to the last, and
/// left only where its connection cannot take more; then packets are taken, as
/// long as they come, may wait and the rounds last. The room for what may wait
/// is all that is free, less one for each that was put aside.
pub proof fn law_udp_in_order<C, E, PE, PC, D>(
    turn: UdpInState<C, E>,
    evt: UdpInEvt<C, E, PE, PC, D>,
)
    requires
        turn.wf(),
        turn.expects(evt),
        turn.phase matches UdpInPhase::ConEvts(_) ==> evt is Next || evt is ConEvtPermit,
    ensures
        ({
            let (after, then) = turn.next(evt);
            let lists = after.con_evt_buf.len();
            let full = evt == UdpInEvt::<C, E, PE, PC, D>::ConEvtPermit(Some(Poll::Pending));
            let aside = (evt matches UdpInEvt::EvtPermit(_, _, Some(Poll::Pending))) || (
            evt matches UdpInEvt::ConPermit(_, _, Poll::Pending)) || (
            evt matches UdpInEvt::ConPermit(_, _, Poll::Ready(Err(_))));
            &&& turn.phase is NewCons ==> {
                &&& after.phase is NewCons ==> then is AcquireNewCon || then is Register
                &&& !(after.phase is NewCons) ==> {
                    ||| after.evt_send_closed
                    ||| after.new_con_buf.len() == 0
                    ||| evt == UdpInEvt::<C, E, PE, PC, D>::NewConPermit(Poll::Pending)
                }
                &&& after.phase matches UdpInPhase::ConEvts(i) ==> i == 0
                &&& after.phase is Packets || after.phase is Over ==> lists == 0
            }
            &&& turn.phase matches UdpInPhase::ConEvts(i) ==> {
                let to = if full {
                    i + 1
                } else {
                    i as int
                };
                &&& !(after.phase is NewCons)
                &&& after.phase matches UdpInPhase::ConEvts(j) ==> {
                    &&& j == to
                    &&& then is AcquireConEvt || then is SendEvt || then is RemoveCon
                }
                &&& after.phase is Packets || after.phase is Over ==> to >= lists
            }
            &&& turn.phase is Packets ==> {
                &&& after.phase is Packets || after.phase is Over
                &&& after.space == if aside {
                    turn.space - 1
                } else {
                    turn.space
                }
            }
            &&& turn.phase is Over ==> after.phase is Over || !(evt is Next)
            &&& !(turn.phase is Packets) && after.phase is Packets ==> after.space == CON_BUF_LIM
                - after.new_con_buf.len() - waiting(after.con_evt_buf) && after.left == ROUNDS
            &&& !(turn.phase is Over) && after.phase is Over ==> {
                ||| after.udp_packet_recv_closed
                ||| after.space == 0
                ||| after.left == 0
                ||| evt == UdpInEvt::<C, E, PE, PC, D>::Packet(Poll::Pending)
            }
            &&& after.udp_packet_recv_closed <==> turn.udp_packet_recv_closed || evt == UdpInEvt::<
                C,
                E,
                PE,
                PC,
                D,
            >::Packet(Poll::Ready(None))
            &&& after.more_work <==> turn.more_work || (evt matches UdpInEvt::Packet(
                Poll::Ready(Some(_)),
            ))
            &&& evt is Next && after.phase is Packets ==> then is Recv
            &&& after.phase is Over && evt is Next ==> then is Done
            &&& then matches UdpInAct::Done(wish) ==> {
                &&& after.phase is Over
                &&& wish.more_work == after.more_work
                &&& wish.want_close <==> after.evt_send_closed && after.udp_packet_recv_closed
            }
        }),
{
    law_udp_in(turn, evt);
    lemma_waiting_at_least(turn.con_evt_buf);
    let after = turn.next(evt).0;
    lemma_waiting_at_least(after.con_evt_buf);
    if evt is ConEvtPermit {
        let i = turn.phase->ConEvts_0 as int;
        lemma_waiting_remove(turn.con_evt_buf, i);
        lemma_popped(turn.con_evt_buf, i);
    }
}

/// The law of a turn's beginning: it keeps all that waits and knows who is gone,
/// and goes to the connections that wait first, then to the events that wait,
/// then to the packets, whichever there is something to do for.
pub proof fn law_udp_in_begins<C, E, PE, PC, D>(turn: UdpInState<C, E>)
    requires
        turn.wf(),
    ensures
        ({
            let (after, then) = turn.restarted().next::<PE, PC, D>(UdpInEvt::Next);
            &&& after.new_con_buf == turn.new_con_buf
            &&& after.con_evt_buf == turn.con_evt_buf
            &&& after.evt_send_closed == turn.evt_send_closed
            &&& after.udp_packet_recv_closed == turn.udp_packet_recv_closed
            &&& !after.more_work
            &&& after.left == 32
            &&& if !turn.evt_send_closed && turn.new_con_buf.len() > 0 {
                then is AcquireNewCon
            } else if turn.con_evt_buf.len() > 0 {
                then == UdpInAct::<C, E, PE, PC, D>::AcquireConEvt(turn.con_evt_buf[0].0)
            } else if !turn.udp_packet_recv_closed && turn.new_con_buf.len() < 128 {
                then is Recv
            } else {
                then is Done
            }
        }),
{
    lemma_waiting_at_least(turn.con_evt_buf);
}

} // verus!
