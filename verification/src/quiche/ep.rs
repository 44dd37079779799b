//! The tasks of an endpoint: packets from the socket, and where they go.
use crate::error::AqResult;
use vstd::prelude::*;

verus! {

/// How many bytes the ids of connections have.
pub const CID_LEN: usize = 16;

/// The id of the connection with this number: the number, the lowest byte
/// first, then eight times `0xdb`.
pub open spec fn spec_cid(n: u64) -> Seq<u8> {
    vstd::bytes::spec_u64_to_le_bytes(n) + Seq::new(8, |i: int| 0xdbu8)
}

/// The id of the connection with this number.
pub fn cid(n: u64) -> (r: Vec<u8>)
    ensures
        r@ == spec_cid(n),
        r@.len() == CID_LEN,
{
    let mut id = vstd::bytes::u64_to_le_bytes(n);
    proof {
        vstd::bytes::lemma_auto_spec_u64_to_from_le_bytes();
    }
    let mut i: usize = 0;
    while i < 8
        invariant
            i <= 8,
            id@ == vstd::bytes::spec_u64_to_le_bytes(n) + Seq::new(i as nat, |i: int| 0xdbu8),
        decreases 8 - i,
    {
        id.push(0xdb);
        i = i + 1;
        assert(id@ =~= vstd::bytes::spec_u64_to_le_bytes(n) + Seq::new(i as nat, |i: int| 0xdbu8));
    }
    id
}

/// Different numbers give different ids.
pub proof fn law_cid_unique(a: u64, b: u64)
    requires
        a != b,
    ensures
        spec_cid(a) != spec_cid(b),
{
    vstd::bytes::lemma_auto_spec_u64_to_from_le_bytes();
    let x = vstd::bytes::spec_u64_to_le_bytes(a);
    let y = vstd::bytes::spec_u64_to_le_bytes(b);
    assert(spec_cid(a).take(8) =~= x);
    assert(spec_cid(b).take(8) =~= y);
}

/// What an endpoint is told. `K` is a packet, `A` an address, `S` takes the
/// answer.
pub enum EpCmd<K, A, S> {
    /// what came from the socket, nothing once it is gone
    InPak(Option<AqResult<K>>),
    /// connect to the address
    NewCon(A, S),
}

/// What the header of a packet says.
#[derive(Clone, Copy)]
pub struct PakHeader {
    /// a connection has the id that it is for
    pub known: bool,
    /// it begins a connection
    pub initial: bool,
}

/// The task of an endpoint. `E` is the guard of events.
pub struct EpTask<E> {
    /// for the next event
    pub evt_guard: Option<E>,
    /// whether the task goes on
    pub over: bool,
}

/// What came of the last action. `G` is the guard of a command to a
/// connection.
pub enum EpTaskEvt<K, A, S, E, G> {
    /// begin, or the last action is done
    Next,
    /// the next command, if any will come
    Cmd(Option<EpCmd<K, A, S>>),
    /// there is room for an event; the command waits
    Guard(EpCmd<K, A, S>, E),
    /// what the header of the packet says, where it has one
    Parsed(K, Option<PakHeader>),
    /// room to pass the packet on to its connection, if there is some
    ConGuard(K, Option<G>),
    /// whether the connection took the packet
    Passed(bool),
}

/// What to do next.
pub enum EpTaskAct<K, A, S, E, G> {
    /// wait for a command
    RecvCmd,
    /// wait for room for an event; the command waits
    AcquireEvt(EpCmd<K, A, S>),
    /// read the header of the packet
    Parse(K),
    /// see whether there is room to pass the packet on to its connection
    TryAcquire(K),
    /// pass the packet on to its connection
    Pass(K, G),
    /// forget the connection that the packet was for
    RemoveCon,
    /// accept a connection under a new id, take it up, and tell the user
    Accept(K, E),
    /// connect under a new id, take the connection up, and answer
    Connect(A, S),
    /// end the task
    End,
}

impl<E> EpTask<E> {
    /// What a command means.
    pub open spec fn on_cmd<K, A, S, G>(self, cmd: EpCmd<K, A, S>) -> (
        EpTask<E>,
        EpTaskAct<K, A, S, E, G>,
    ) {
        match cmd {
            EpCmd::InPak(None) => (EpTask { over: true, ..self }, EpTaskAct::End),
            EpCmd::InPak(Some(Err(_))) => (self, EpTaskAct::RecvCmd),
            EpCmd::InPak(Some(Ok(pak))) => (self, EpTaskAct::Parse(pak)),
            EpCmd::NewCon(addr, rsp) => (self, EpTaskAct::Connect(addr, rsp)),
        }
    }

    /// What the task does next, and the task after that: a packet goes to the
    /// connection that it is for, where there is one and it has room; where
    /// there is none, one that begins a connection is accepted; any other is
    /// let go.
    pub open spec fn next<K, A, S, G>(self, evt: EpTaskEvt<K, A, S, E, G>) -> (
        EpTask<E>,
        EpTaskAct<K, A, S, E, G>,
    ) {
        match evt {
            EpTaskEvt::Next => (self, EpTaskAct::RecvCmd),
            EpTaskEvt::Cmd(None) => (EpTask { over: true, ..self }, EpTaskAct::End),
            EpTaskEvt::Cmd(Some(cmd)) => if self.evt_guard is None {
                (self, EpTaskAct::AcquireEvt(cmd))
            } else {
                self.on_cmd(cmd)
            },
            EpTaskEvt::Guard(cmd, guard) => EpTask { evt_guard: Some(guard), ..self }.on_cmd(cmd),
            EpTaskEvt::Parsed(_, None) => (self, EpTaskAct::RecvCmd),
            EpTaskEvt::Parsed(pak, Some(hdr)) => if hdr.known {
                (self, EpTaskAct::TryAcquire(pak))
            } else if hdr.initial {
                (
                    EpTask { evt_guard: None, ..self },
                    EpTaskAct::Accept(pak, self.evt_guard->0),
                )
            } else {
                (self, EpTaskAct::RecvCmd)
            },
            EpTaskEvt::ConGuard(pak, Some(guard)) => (self, EpTaskAct::Pass(pak, guard)),
            EpTaskEvt::ConGuard(_, None) => (self, EpTaskAct::RecvCmd),
            EpTaskEvt::Passed(true) => (self, EpTaskAct::RecvCmd),
            EpTaskEvt::Passed(false) => (self, EpTaskAct::RemoveCon),
        }
    }

    /// The task of a new endpoint.
    pub fn new() -> (r: Self)
        ensures
            r == (EpTask { evt_guard: None::<E>, over: false }),
    {
        EpTask { evt_guard: None, over: false }
    }

    fn take_cmd<K, A, S, G>(&mut self, cmd: EpCmd<K, A, S>) -> (r: EpTaskAct<K, A, S, E, G>)
        ensures
            (*final(self), r) == old(self).on_cmd::<K, A, S, G>(cmd),
    {
        match cmd {
            EpCmd::InPak(None) => {
                self.over = true;
                EpTaskAct::End
            },
            EpCmd::InPak(Some(Err(_))) => EpTaskAct::RecvCmd,
            EpCmd::InPak(Some(Ok(pak))) => EpTaskAct::Parse(pak),
            EpCmd::NewCon(addr, rsp) => EpTaskAct::Connect(addr, rsp),
        }
    }

    /// Go one step on in the task.
    pub fn step<K, A, S, G>(&mut self, evt: EpTaskEvt<K, A, S, E, G>) -> (r: EpTaskAct<
        K,
        A,
        S,
        E,
        G,
    >)
        requires
            evt is Parsed ==> old(self).evt_guard is Some,
        ensures
            (*final(self), r) == old(self).next(evt),
    {
        match evt {
            EpTaskEvt::Next => EpTaskAct::RecvCmd,
            EpTaskEvt::Cmd(None) => {
                self.over = true;
                EpTaskAct::End
            },
            EpTaskEvt::Cmd(Some(cmd)) => {
                if self.evt_guard.is_none() {
                    EpTaskAct::AcquireEvt(cmd)
                } else {
                    self.take_cmd(cmd)
                }
            },
            EpTaskEvt::Guard(cmd, guard) => {
                self.evt_guard = Some(guard);
                self.take_cmd(cmd)
            },
            EpTaskEvt::Parsed(_, None) => EpTaskAct::RecvCmd,
            EpTaskEvt::Parsed(pak, Some(hdr)) => {
                if hdr.known {
                    EpTaskAct::TryAcquire(pak)
                } else if hdr.initial {
                    let guard = self.evt_guard.take().unwrap();
                    EpTaskAct::Accept(pak, guard)
                } else {
                    EpTaskAct::RecvCmd
                }
            },
            EpTaskEvt::ConGuard(pak, Some(guard)) => EpTaskAct::Pass(pak, guard),
            EpTaskEvt::ConGuard(_, None) => EpTaskAct::RecvCmd,
            EpTaskEvt::Passed(true) => EpTaskAct::RecvCmd,
            EpTaskEvt::Passed(false) => EpTaskAct::RemoveCon,
        }
    }
}

/// The law of an endpoint's task: a packet is read only while there is room to
/// tell the user of a connection that it might begin, and the room is used by
/// nothing else; the task ends only where no command or no packet will come
/// any more.
pub proof fn law_ep_task<K, A, S, E, G>(task: EpTask<E>, evt: EpTaskEvt<K, A, S, E, G>)
    ensures
        ({
            let (after, act) = task.next(evt);
            &&& act is Parse || act is Connect ==> after.evt_guard is Some
            &&& !(act is Accept) ==> (task.evt_guard is Some ==> after.evt_guard is Some)
            &&& act is End <==> {
                ||| evt == EpTaskEvt::<K, A, S, E, G>::Cmd(None)
                ||| task.evt_guard is Some && evt == EpTaskEvt::<K, A, S, E, G>::Cmd(
                    Some(EpCmd::InPak(None)),
                )
                ||| evt matches EpTaskEvt::Guard(EpCmd::InPak(None), _)
            }
        }),
{
}

/// The task that reads the socket.
#[derive(Clone, Copy)]
pub struct UdpTask {
    /// nothing more will come from the socket
    pub ended: bool,
}

/// What came of the last action. `G` is the guard of a command to the
/// endpoint.
pub enum UdpTaskEvt<K, G> {
    /// begin
    Next,
    /// there is room for a command
    Guard(G),
    /// what came from the socket, nothing once it is gone
    Came(G, Option<AqResult<K>>),
    /// whether the endpoint was told
    Sent(bool),
}

/// What to do next.
pub enum UdpTaskAct<K, G> {
    /// wait for room for a command
    Acquire,
    /// read the socket
    Recv(G),
    /// tell the endpoint
    Send(G, Option<AqResult<K>>),
    /// end the task
    End,
}

impl UdpTask {
    /// The task of a new endpoint.
    pub fn new() -> (r: Self)
        ensures
            !r.ended,
    {
        UdpTask { ended: false }
    }

    /// Go one step on in the task: the endpoint is told of everything that
    /// comes, the end included, and the task ends with the socket or with the
    /// endpoint.
    pub fn step<K, G>(&mut self, evt: UdpTaskEvt<K, G>) -> (r: UdpTaskAct<K, G>)
        ensures
            match evt {
                UdpTaskEvt::Next => *final(self) == *old(self) && r is Acquire,
                UdpTaskEvt::Guard(guard) => *final(self) == *old(self) && r == UdpTaskAct::<
                    K,
                    G,
                >::Recv(guard),
                UdpTaskEvt::Came(guard, pak) => final(self).ended == (pak is None) && r
                    == UdpTaskAct::Send(guard, pak),
                UdpTaskEvt::Sent(ok) => {
                    &&& *final(self) == *old(self)
                    &&& old(self).ended || !ok ==> r is End
                    &&& !old(self).ended && ok ==> r is Acquire
                },
            },
    {
        match evt {
            UdpTaskEvt::Next => UdpTaskAct::Acquire,
            UdpTaskEvt::Guard(guard) => UdpTaskAct::Recv(guard),
            UdpTaskEvt::Came(guard, pak) => {
                self.ended = pak.is_none();
                UdpTaskAct::Send(guard, pak)
            },
            UdpTaskEvt::Sent(ok) => {
                if self.ended || !ok {
                    UdpTaskAct::End
                } else {
                    UdpTaskAct::Acquire
                }
            },
        }
    }
}

/// The law of ids: an id has sixteen bytes; the first eight say the number of
/// the connection, and the others are the same for all.
pub proof fn law_cid(n: u64)
    ensures
        spec_cid(n).len() == 16,
        vstd::bytes::spec_u64_from_le_bytes(spec_cid(n).take(8)) == n,
        forall|i: int| 8 <= i < 16 ==> #[trigger] spec_cid(n)[i] == 0xdb,
{
    vstd::bytes::lemma_auto_spec_u64_to_from_le_bytes();
    assert(spec_cid(n).take(8) =~= vstd::bytes::spec_u64_to_le_bytes(n));
}

/// The law of packets and commands: each is dealt with as what it is, and stays
/// itself on its way. A packet is read once there is room for an event; it goes
/// to the connection that it is for, with the room that this one has; one that
/// begins a connection is accepted, with the room for the event; any other is
/// let go, and so is one without a header, without room or with an error. Who
/// asks for a connection has one made to the address that was given. A
/// connection is forgotten exactly where it did not take its packet.
pub proof fn law_ep_packets<K, A, S, E, G>(
    task: EpTask<E>,
    evt: EpTaskEvt<K, A, S, E, G>,
    pak: K,
    cmd: EpCmd<K, A, S>,
    addr: A,
    rsp: S,
    guard: E,
    room: G,
)
    requires
        evt is Parsed ==> task.evt_guard is Some,
    ensures
        ({
            let (after, act) = task.next(evt);
            let ready = match evt {
                EpTaskEvt::Cmd(Some(cmd)) => if task.evt_guard is Some {
                    Some(cmd)
                } else {
                    None
                },
                EpTaskEvt::Guard(cmd, _) => Some(cmd),
                _ => None,
            };
            &&& act == EpTaskAct::<K, A, S, E, G>::AcquireEvt(cmd) <==> task.evt_guard is None && evt == EpTaskEvt::<K, A, S, E, G>::Cmd(
                Some(cmd),
            )
            &&& act == EpTaskAct::<K, A, S, E, G>::Parse(pak) <==> ready == Some(EpCmd::<K, A, S>::InPak(Some(Ok(pak))))
            &&& act == EpTaskAct::<K, A, S, E, G>::Connect(addr, rsp) <==> ready == Some(
                EpCmd::<K, A, S>::NewCon(addr, rsp),
            )
            &&& act == EpTaskAct::<K, A, S, E, G>::TryAcquire(pak) <==> (evt matches EpTaskEvt::Parsed(it, Some(hdr)) && it
                == pak && hdr.known)
            &&& act == EpTaskAct::<K, A, S, E, G>::Accept(pak, guard) <==> (evt matches EpTaskEvt::Parsed(it, Some(hdr))
                && it == pak && !hdr.known && hdr.initial) && task.evt_guard == Some(guard)
            &&& act == EpTaskAct::<K, A, S, E, G>::Pass(pak, room) <==> evt == EpTaskEvt::<K, A, S, E, G>::ConGuard(pak, Some(room))
            &&& act is RemoveCon <==> evt == EpTaskEvt::<K, A, S, E, G>::Passed(false)
            &&& evt is Next || evt == EpTaskEvt::<K, A, S, E, G>::Passed(true) ==> act is RecvCmd
            &&& act is RecvCmd ==> {
                ||| evt is Next
                ||| evt == EpTaskEvt::<K, A, S, E, G>::Passed(true)
                ||| (evt matches EpTaskEvt::ConGuard(_, None))
                ||| (evt matches EpTaskEvt::Parsed(_, None))
                ||| (evt matches EpTaskEvt::Parsed(_, Some(hdr)) && !hdr.known && !hdr.initial)
                ||| (ready matches Some(EpCmd::InPak(Some(Err(_)))))
            }
            &&& act is End ==> evt == EpTaskEvt::<K, A, S, E, G>::Cmd(None) || ready == Some(
                EpCmd::<K, A, S>::InPak(None),
            )
            &&& after.evt_guard == match evt {
                EpTaskEvt::Guard(_, guard) => Some(guard),
                _ => if act is Accept {
                    None
                } else {
                    task.evt_guard
                },
            }
            &&& after.over <==> task.over || act is End
        }),
{
}

/// The law of reading the socket: all that comes is told to the endpoint, as it
/// came and with the room that it was read with; the task ends once it told that
/// nothing more will come, or could not tell, and goes on otherwise.
pub proof fn law_udp_task<K, G>()
    ensures
        forall|a: &mut UdpTask, guard: G, act: UdpTaskAct<K, G>| #[trigger]
            call_ensures(UdpTask::step::<K, G>, (a, UdpTaskEvt::<K, G>::Guard(guard)), act) ==> act
                == UdpTaskAct::<K, G>::Recv(guard) && final(a).ended == a.ended,
        forall|a: &mut UdpTask, guard: G, pak: Option<AqResult<K>>, act: UdpTaskAct<K, G>| #[trigger]
            call_ensures(UdpTask::step::<K, G>, (a, UdpTaskEvt::Came(guard, pak)), act) ==> act
                == UdpTaskAct::Send(guard, pak) && final(a).ended == (pak is None),
        forall|a: &mut UdpTask, told: bool, act: UdpTaskAct<K, G>| #[trigger]
            call_ensures(UdpTask::step::<K, G>, (a, UdpTaskEvt::<K, G>::Sent(told)), act) ==> {
                &&& act is End <==> a.ended || !told
                &&& act is Acquire <==> !a.ended && told
            },
{
}

} // verus!
