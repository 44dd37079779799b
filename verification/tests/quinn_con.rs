use absquic::backend::UdpBackendCmd;
use absquic::backend::UdpBackendEvt;
use absquic::connection::ConnectionCmd;
use absquic::connection::ConnectionEvt;
use absquic::driver::con_remote_addr;
use absquic::driver::ConTimer;
use absquic::driver::DriverAct;
use absquic::driver::DriverEvt;
use absquic::driver::DriverInner;
use absquic::endpoint::EndpointCmd;
use absquic::endpoint::EndpointEvt;
use absquic::error::AqErr;
use absquic::error::AqResult;
use absquic::quinn::calls::since;
use absquic::quinn::calls::Step;
use absquic::quinn::command::EpCmd;
use absquic::quinn::con_cmd::ConCmd;
use absquic::quinn::con_cmd::ConCmdDriver;
use absquic::quinn::con_poll::ConFlags;
use absquic::quinn::con_poll::ConPollDriver;
use absquic::quinn::con_turn::Con;
use absquic::quinn::connection::ConRoundAct;
use absquic::quinn::connection::ConRoundEvt;
use absquic::quinn::connection::ConnectionDriver;
use absquic::quinn::connections::ConInfo;
use absquic::quinn::connections::ConsAct;
use absquic::quinn::connections::ConsEvt;
use absquic::quinn::connections::Disposition;
use absquic::quinn::connections::QuinnDriver;
use absquic::quinn::disable_gso_provider;
use absquic::quinn::ep::InPacket;
use absquic::quinn::ep::QuinnEndpoint;
use absquic::quinn::ep_cmd::CommandEnd;
use absquic::quinn::ep_cmd::EpCmdDriver;
use absquic::quinn::ep_cmd::QuinnEpCmd;
use absquic::quinn::ep_evt::answer;
use absquic::quinn::ep_evt::EpEvt;
use absquic::quinn::ep_evt::EpEvtDriver;
use absquic::quinn::ep_transmit::TransmitDriver;
use absquic::quinn::out::out_packet;
use absquic::quinn::out::transmit;
use absquic::quinn::out::OutPacket;
use absquic::quinn::packets::ConSpawn;
use absquic::quinn::packets::Connections;
use absquic::quinn::packets::PacketDriver;
use absquic::quinn::packets::PacketEvt;
use absquic::quinn::proto::ConEvent;
use absquic::quinn::proto::ConStreamEvent;
use absquic::quinn::drain::DrainAct;
use absquic::quinn::drain::ReadDrain;
use absquic::quinn::drain::WriteDrain;
use absquic::quinn::drain::WriteDrainAct;
use absquic::quinn::stream::ReadAct;
use absquic::quinn::stream::ReadEnd;
use absquic::quinn::stream::ReadEvt;
use absquic::quinn::stream::StreamInfo;
use absquic::quinn::stream::WriteAct;
use absquic::quinn::stream::WriteCmdKind;
use absquic::quinn::stream_io::close;
use absquic::quinn::stream_io::readable;
use absquic::quinn::stream_io::recv_stream;
use absquic::quinn::stream_io::send_stream;
use absquic::quinn::stream_io::writable;
use absquic::quinn::streams::StreamMap;
use absquic::quinn::streams::StreamPairs;
use absquic::quinn::transmit::ConTransmitDriver;
use absquic::quinn::udp_in::PacketMeans;
use absquic::quinn::Wish;
use absquic::runtime::ChanResult;
use absquic::runtime::ChannelClosed;
use absquic::runtime::MultiSend;
use absquic::runtime::MultiSender;
use absquic::runtime::MultiSenderPoll;
use absquic::runtime::OnceSend;
use absquic::stream::counter::CounterAddPermit;
use absquic::stream::counter::Ledger;
use absquic::util::Receive;
use bytes::Bytes;
use bytes::BytesMut;
use quinn_proto::ClientConfig;
use quinn_proto::Connection;
use quinn_proto::ConnectionEvent;
use quinn_proto::EndpointConfig;
use quinn_proto::ServerConfig;
use quinn_proto::StreamId;
use quinn_proto::Transmit;
use std::cell::Cell;
use std::cell::RefCell;
use std::collections::HashMap;
use std::collections::VecDeque;
use std::future::Future;
use std::marker::PhantomData;
use std::pin::Pin;
use std::rc::Rc;
use std::sync::Arc;
use std::task::Context;
use std::task::Poll;
use std::time::Instant;

/// Whether a channel has room.
#[derive(Clone, Copy, PartialEq)]
enum Room {
    Free,
    Full,
    Gone,
}

/// A channel that can be looked into.
struct Chan<T> {
    queue: Rc<RefCell<VecDeque<T>>>,
    room: Rc<Cell<Room>>,
}

impl<T> Clone for Chan<T> {
    fn clone(&self) -> Self {
        Chan {
            queue: self.queue.clone(),
            room: self.room.clone(),
        }
    }
}

impl<T> Chan<T> {
    fn new() -> Self {
        Chan {
            queue: Rc::new(RefCell::new(VecDeque::new())),
            room: Rc::new(Cell::new(Room::Free)),
        }
    }

    fn take(&self) -> Vec<T> {
        self.queue.borrow_mut().drain(..).collect()
    }
}

struct Put<T>(Chan<T>);

impl<T> OnceSend<T> for Put<T> {
    fn send(self, t: T) {
        self.0.queue.borrow_mut().push_back(t);
    }
}

struct Ask<T>(Chan<T>);

impl<T> Future for Ask<T> {
    type Output = ChanResult<Put<T>>;

    fn poll(self: Pin<&mut Self>, _cx: &mut Context<'_>) -> Poll<Self::Output> {
        match self.0.room.get() {
            Room::Free => Poll::Ready(Ok(Put(self.0.clone()))),
            Room::Full => Poll::Pending,
            Room::Gone => Poll::Ready(Err(ChannelClosed)),
        }
    }
}

impl<T> MultiSend<T> for Chan<T> {
    type Permit = Put<T>;
    type AcquireFut = Ask<T>;

    fn acquire(&self) -> Ask<T> {
        Ask(self.clone())
    }
}

type Slot<T> = Rc<RefCell<Option<T>>>;

struct Answer<T>(Slot<T>);

impl<T> OnceSend<T> for Answer<T> {
    fn send(self, t: T) {
        *self.0.borrow_mut() = Some(t);
    }
}

type Cmd = ConCmd<
    ConnectionEvent,
    Addr,
    Answer<AqResult<usize>>,
    Answer<AqResult<(usize, usize)>>,
>;

/// Commands, and whether no more will come.
struct Cmds {
    chan: Chan<Cmd>,
}

impl Receive<Cmd> for Cmds {
    fn poll_next(&mut self, _cx: &mut Context<'_>) -> Poll<Option<Cmd>> {
        match self.chan.queue.borrow_mut().pop_front() {
            Some(cmd) => Poll::Ready(Some(cmd)),
            None if self.chan.room.get() == Room::Gone => Poll::Ready(None),
            None => Poll::Pending,
        }
    }
}

/// Events for a connection are commands to it.
struct Events(Chan<Cmd>);

struct PutEvent(Chan<Cmd>);

impl OnceSend<ConnectionEvent> for PutEvent {
    fn send(self, t: ConnectionEvent) {
        self.0.queue.borrow_mut().push_back(ConCmd::ConEvt(t));
    }
}

impl MultiSend<ConnectionEvent> for Events {
    type Permit = PutEvent;
    type AcquireFut = std::future::Ready<ChanResult<PutEvent>>;

    fn acquire(&self) -> Self::AcquireFut {
        std::future::ready(match self.0.room.get() {
            Room::Gone => Err(ChannelClosed),
            _ => Ok(PutEvent(self.0.clone())),
        })
    }
}

/// The connection's end of a read stream: notes what it is stopped with.
struct ReadBack(Rc<RefCell<Vec<AqErr>>>);

impl ReadEnd for ReadBack {
    fn stop(self, err: AqErr) {
        self.0.borrow_mut().push(err);
    }
}

/// Numbers the ends of streams as they are made.
struct Pairs {
    made: Cell<usize>,
    sizes: RefCell<Vec<usize>>,
    stopped: Rc<RefCell<Vec<AqErr>>>,
}

impl StreamPairs for Pairs {
    type ReadBack = ReadBack;
    type ReadFront = usize;
    type WriteBack = usize;
    type WriteFront = usize;

    fn read_pair(&self, buf_size: usize) -> (ReadBack, usize) {
        self.made.set(self.made.get() + 1);
        self.sizes.borrow_mut().push(buf_size);
        (ReadBack(self.stopped.clone()), self.made.get())
    }

    fn write_pair(&self, buf_size: usize) -> (usize, usize) {
        self.made.set(self.made.get() + 1);
        self.sizes.borrow_mut().push(buf_size);
        (self.made.get(), self.made.get())
    }
}

type Evt = ConnectionEvt<usize, usize>;

/// One side of a connection, with its drivers.
struct Side<F: Fn() -> usize> {
    endpoint: QuinnEndpoint,
    hnd: usize,
    con: Connection,
    addr: &'static str,
    flags: ConFlags,
    pairs: Pairs,
    streams: StreamMap<ReadBack, usize>,
    packets: Chan<OutPacket>,
    ep_evts: Chan<EpEvt<PutEvent>>,
    evts: Chan<Evt>,
    cmds: Chan<Cmd>,
    con_cmd: ConCmdDriver<
        Addr,
        Answer<AqResult<usize>>,
        Answer<AqResult<(usize, usize)>>,
        Cmds,
    >,
    transmit: ConTransmitDriver<Chan<OutPacket>, F>,
    ep_evt: EpEvtDriver<Events, Chan<EpEvt<PutEvent>>>,
    con_poll: ConPollDriver<usize, usize, Chan<Evt>>,
}

fn side<F: Fn() -> usize>(
    endpoint: QuinnEndpoint,
    hnd: usize,
    con: Connection,
    addr: &'static str,
    gso: F,
) -> Side<F> {
    let packets = Chan::new();
    let ep_evts = Chan::new();
    let evts = Chan::new();
    let cmds = Chan::new();
    Side {
        endpoint,
        hnd,
        con,
        addr,
        flags: ConFlags::new(),
        pairs: Pairs {
            made: Cell::new(0),
            sizes: RefCell::new(Vec::new()),
            stopped: Rc::new(RefCell::new(Vec::new())),
        },
        streams: HashMap::new(),
        con_cmd: ConCmdDriver::new(Cmds { chan: cmds.clone() }),
        transmit: ConTransmitDriver::new(gso, MultiSender::new(packets.clone())),
        ep_evt: EpEvtDriver::new(
            hnd,
            MultiSender::new(Events(cmds.clone())),
            MultiSender::new(ep_evts.clone()),
        ),
        con_poll: ConPollDriver::new(MultiSender::new(evts.clone())),
        packets,
        ep_evts,
        evts,
        cmds,
    }
}

impl<F: Fn() -> usize> Side<F> {
    /// A round of all parts; how each wants to go on.
    fn round(&mut self) -> [Wish; 4] {
        let waker = futures_util::task::noop_waker();
        let mut cx = Context::from_waker(&waker);
        let commands = self.con_cmd.poll(
            &mut cx,
            &mut self.flags,
            &self.pairs,
            &mut self.streams,
            &mut self.con,
        );
        let transmit = self.transmit.poll(&mut cx, Instant::now(), &mut self.con);
        let ep_events = self.ep_evt.poll(&mut cx, &mut self.con);
        for evt in self.ep_evts.take() {
            assert_eq!(evt.hnd, self.hnd);
            assert!(self.endpoint.knows(evt.hnd));
            let res = self.endpoint.handle_event(evt.hnd, evt.evt);
            answer(evt.rsp, res);
        }
        let events = self.con_poll.poll(
            &mut cx,
            &mut self.flags,
            &self.pairs,
            &mut self.streams,
            &mut self.con,
        );
        [commands, transmit, ep_events, events]
    }

    /// Packets from the other side arrive.
    fn arrive(&mut self, from: &'static str, packets: Vec<OutPacket>) {
        for packet in packets {
            let got = self.endpoint.handle(Instant::now(), came(from, packet));
            if let Some(PacketMeans::ConEvt(hnd, evt)) = got {
                assert_eq!(hnd, self.hnd);
                self.cmds.queue.borrow_mut().push_back(ConCmd::ConEvt(evt));
            }
        }
    }

    fn command(&self, cmd: Cmd) {
        self.cmds.queue.borrow_mut().push_back(cmd);
    }

    fn open_uni(&self) -> Slot<AqResult<usize>> {
        let slot = Rc::new(RefCell::new(None));
        self.command(ConCmd::ConCmd(ConnectionCmd::OpenUniStream(Answer(
            slot.clone(),
        ))));
        slot
    }

    fn open_bi(&self) -> Slot<AqResult<(usize, usize)>> {
        let slot = Rc::new(RefCell::new(None));
        self.command(ConCmd::ConCmd(ConnectionCmd::OpenBiStream(Answer(
            slot.clone(),
        ))));
        slot
    }
}

/// A packet of the other side, as it comes.
fn came(from: &str, packet: OutPacket) -> InPacket {
    InPacket {
        src_addr: from.parse().unwrap(),
        dst_ip: None,
        ecn: packet.ecn,
        data: BytesMut::from(packet.data.as_slice()),
    }
}

const CLIENT: &str = "127.0.0.1:4001";
const SERVER: &str = "127.0.0.1:4002";

/// A client that has not sent anything yet, and the config for its server.
fn client() -> (Side<impl Fn() -> usize>, ServerConfig) {
    let made = rcgen::generate_simple_self_signed(vec!["localhost".to_string()]).unwrap();
    let cert = rustls::Certificate(made.cert.der().to_vec());
    let key = rustls::PrivateKey(made.signing_key.serialize_der());
    let server = ServerConfig::with_single_cert(vec![cert.clone()], key).unwrap();
    let mut roots = rustls::RootCertStore::empty();
    roots.add(&cert).unwrap();
    let mut endpoint = QuinnEndpoint::new(Arc::new(EndpointConfig::default()), None);
    let config = ClientConfig::with_root_certificates(roots);
    let (hnd, con) = endpoint
        .connect(&config, SERVER.parse().unwrap(), "localhost")
        .unwrap();
    (
        side(endpoint, hnd, con, CLIENT, disable_gso_provider()),
        server,
    )
}

/// Run both sides until neither has anything to send.
fn run<F: Fn() -> usize, G: Fn() -> usize>(a: &mut Side<F>, b: &mut Side<G>) {
    let mut quiet = 0;
    while quiet < 3 {
        a.round();
        b.round();
        let to_b = a.packets.take();
        let to_a = b.packets.take();
        if to_a.is_empty() && to_b.is_empty() {
            quiet += 1;
        } else {
            quiet = 0;
        }
        let (from_a, from_b) = (a.addr, b.addr);
        b.arrive(from_a, to_b);
        a.arrive(from_b, to_a);
    }
}

/// Both sides, connected. Before that, the client does `first`.
fn connected_after<T>(
    first: impl FnOnce(&mut Side<Box<dyn Fn() -> usize>>) -> T,
) -> (
    T,
    Side<Box<dyn Fn() -> usize>>,
    Side<impl Fn() -> usize>,
) {
    let (client, config) = client();
    let one: Box<dyn Fn() -> usize> = Box::new(|| 1);
    let mut a = side(client.endpoint, client.hnd, client.con, CLIENT, one);
    let done = first(&mut a);
    let mut endpoint = QuinnEndpoint::new(
        Arc::new(EndpointConfig::default()),
        Some(Arc::new(config)),
    );
    a.round();
    let mut server = None;
    for packet in a.packets.take() {
        match endpoint.handle(Instant::now(), came(CLIENT, packet)) {
            Some(PacketMeans::NewCon(hnd, con)) => server = Some((hnd, con)),
            _ => panic!("expected a connection"),
        }
    }
    let (hnd, con) = server.unwrap();
    let mut b = side(endpoint, hnd, con, SERVER, disable_gso_provider());
    run(&mut a, &mut b);
    (done, a, b)
}

fn connected() -> (Side<Box<dyn Fn() -> usize>>, Side<impl Fn() -> usize>) {
    let (_, a, b) = connected_after(|_| ());
    (a, b)
}

#[test]
fn both_users_are_told_of_the_connection() {
    let (a, b) = connected();
    for evts in [a.evts.take(), b.evts.take()] {
        assert_eq!(evts.len(), 2);
        assert!(matches!(evts[0], ConnectionEvt::HandshakeDataReady));
        assert!(matches!(evts[1], ConnectionEvt::Connected));
    }
}

#[test]
fn the_remote_address_is_that_of_the_other_side() {
    let (mut a, mut b) = connected();
    let at_a = Rc::new(RefCell::new(None));
    let at_b = Rc::new(RefCell::new(None));
    a.command(ConCmd::ConCmd(ConnectionCmd::GetRemoteAddress(Answer(
        at_a.clone(),
    ))));
    b.command(ConCmd::ConCmd(ConnectionCmd::GetRemoteAddress(Answer(
        at_b.clone(),
    ))));
    run(&mut a, &mut b);
    assert!(matches!(&*at_a.borrow(), Some(Ok(addr)) if addr.to_string() == SERVER));
    assert!(matches!(&*at_b.borrow(), Some(Ok(addr)) if addr.to_string() == CLIENT));
    assert!(matches!(con_remote_addr(Some(&a.con)), Ok(addr) if addr.to_string() == SERVER));
    assert!(matches!(
        con_remote_addr(None),
        Err(AqErr::InvalidConnectionHandle)
    ));
}

#[test]
fn streams_are_opened_and_accepted() {
    let (mut a, mut b) = connected();
    let _ = (a.evts.take(), b.evts.take());
    let uni = a.open_uni();
    let bi = a.open_bi();
    run(&mut a, &mut b);
    assert!(matches!(*uni.borrow(), Some(Ok(1))));
    assert!(matches!(*bi.borrow(), Some(Ok((2, 3)))));
    assert_eq!(*a.pairs.sizes.borrow(), vec![65536; 3]);
    // the number of a stream says who opened it and which way it goes
    let mut ids: Vec<u64> = a.streams.keys().copied().collect();
    ids.sort_unstable();
    assert_eq!(ids, vec![0, 2]);
    assert!(a.streams[&0].read.is_some() && a.streams[&0].write == Some(2));
    assert!(a.streams[&2].read.is_none() && a.streams[&2].write == Some(1));

    assert_eq!(a.con.send_stream(StreamId(2)).write(b"hello").unwrap(), 5);
    assert_eq!(a.con.send_stream(StreamId(0)).write(b"world").unwrap(), 5);
    run(&mut a, &mut b);
    let evts = b.evts.take();
    assert_eq!(evts.len(), 2);
    assert!(matches!(evts[0], ConnectionEvt::InUniStream(1)));
    assert!(matches!(evts[1], ConnectionEvt::InBiStream(2, 3)));
    assert!(b.streams[&2].read.is_some() && b.streams[&2].write.is_none());
    assert!(b.streams[&0].read.is_some() && b.streams[&0].write == Some(2));

    let mut recv = recv_stream(&mut b.con, 2);
    let mut chunks = recv.read(true).unwrap();
    let chunk = chunks.next(100).unwrap().unwrap();
    assert_eq!(chunk.bytes.as_ref(), b"hello");
    close(chunks);
}

#[test]
fn requests_that_come_too_early_wait_in_order() {
    let ((first, second, third), mut a, mut b) = connected_after(|a| {
        let slots = (a.open_uni(), a.open_uni(), a.open_bi());
        a.round();
        assert!(slots.0.borrow().is_none());
        assert!(slots.2.borrow().is_none());
        assert_eq!(a.con_cmd.turn.uni_queue.len(), 2);
        assert_eq!(a.con_cmd.turn.bi_queue.len(), 1);
        assert!(!a.flags.outbound_uni && !a.flags.outbound_bi);
        slots
    });
    // a later request of the same kind waits behind them
    let last = a.open_uni();
    run(&mut a, &mut b);
    assert!(last.borrow().is_none());
    a.flags.outbound_uni = true;
    a.flags.outbound_bi = true;
    run(&mut a, &mut b);
    assert!(matches!(*first.borrow(), Some(Ok(1))));
    assert!(matches!(*second.borrow(), Some(Ok(2))));
    assert!(matches!(*last.borrow(), Some(Ok(3))));
    assert!(matches!(*third.borrow(), Some(Ok((4, 5)))));
    assert!(a.con_cmd.turn.uni_queue.is_empty());
    assert!(a.con_cmd.turn.bi_queue.is_empty());
    assert_eq!(a.streams.len(), 4);
}

#[test]
fn datagrams_reach_the_user() {
    let (mut a, mut b) = connected();
    let _ = b.evts.take();
    a.con
        .datagrams()
        .send(Bytes::from_static(b"hello"))
        .unwrap();
    run(&mut a, &mut b);
    match b.evts.take().as_slice() {
        [ConnectionEvt::InDatagram(data)] => assert_eq!(data.as_ref(), b"hello"),
        _ => panic!("expected a datagram"),
    }
}

#[test]
fn the_user_is_told_why_a_connection_is_lost() {
    let (mut a, mut b) = connected();
    let _ = b.evts.take();
    a.con
        .close(Instant::now(), 5u32.into(), Bytes::from_static(b"bye"));
    run(&mut a, &mut b);
    match b.evts.take().as_slice() {
        [ConnectionEvt::Error(err)] => {
            assert_eq!(err.message(), "closed by peer: bye (code 5)");
        }
        _ => panic!("expected an error"),
    }
}

#[test]
fn a_stream_that_the_other_side_stops_is_over() {
    let (mut a, mut b) = connected();
    let _bi = a.open_bi();
    run(&mut a, &mut b);
    a.con.send_stream(StreamId(0)).write(b"hello").unwrap();
    run(&mut a, &mut b);
    b.con.recv_stream(StreamId(0)).stop(7u32.into()).unwrap();
    run(&mut a, &mut b);
    assert!(a.streams.is_empty());
    let stopped = a.pairs.stopped.borrow();
    assert_eq!(stopped.len(), 1);
    assert_eq!(stopped[0].message(), "7");
}

#[test]
fn a_stream_that_is_through_is_over() {
    let (mut a, mut b) = connected();
    let _uni = a.open_uni();
    run(&mut a, &mut b);
    assert!(a.streams.contains_key(&2));
    a.con.send_stream(StreamId(2)).write(b"hello").unwrap();
    a.con.send_stream(StreamId(2)).finish().unwrap();
    run(&mut a, &mut b);
    assert!(a.streams.is_empty());
    assert!(b.streams.contains_key(&2));
    assert!(b.streams[&2].readable);
}

#[test]
fn nothing_is_taken_up_while_the_user_has_no_room() {
    let (mut a, mut b) = connected();
    let _ = b.evts.take();
    b.evts.room.set(Room::Full);
    a.con
        .datagrams()
        .send(Bytes::from_static(b"hello"))
        .unwrap();
    run(&mut a, &mut b);
    assert!(b.evts.take().is_empty());
    b.evts.room.set(Room::Free);
    run(&mut a, &mut b);
    assert_eq!(b.evts.take().len(), 1);
}

#[test]
fn no_packet_is_made_while_there_is_no_room() {
    let (mut a, _config) = client();
    a.packets.room.set(Room::Full);
    let [_, transmit, _, _] = a.round();
    assert!(!transmit.more_work && !transmit.want_close);
    assert!(a.packets.take().is_empty());
    a.packets.room.set(Room::Free);
    a.round();
    assert_eq!(a.packets.take().len(), 1);
}

#[test]
fn each_part_wants_to_close_once_its_channel_is_gone() {
    let (mut a, _config) = client();
    let parts = a.round();
    assert!(parts.iter().all(|wish| !wish.want_close));
    a.packets.room.set(Room::Gone);
    a.ep_evts.room.set(Room::Gone);
    a.evts.room.set(Room::Gone);
    let [commands, transmit, ep_events, events] = a.round();
    assert!(!commands.want_close);
    assert!(transmit.want_close && ep_events.want_close);
    // the user's absence is noted in this turn, and counts from the next on
    assert!(!events.want_close);
    a.cmds.room.set(Room::Gone);
    let parts = a.round();
    assert!(parts.iter().all(|wish| wish.want_close));
    let parts = a.round();
    assert!(parts.iter().all(|wish| wish.want_close && !wish.more_work));
}

/// The permit for so many bytes.
fn permit(len: usize) -> CounterAddPermit<Ledger> {
    CounterAddPermit::new(Ledger::new(len), len)
}

/// What is to be handed to the user.
fn handed(act: ReadAct<CounterAddPermit<Ledger>, Bytes>) -> (usize, Vec<u8>) {
    match act {
        ReadAct::Send(permit, data) => (permit.len(), data.to_vec()),
        _ => panic!("expected data"),
    }
}

/// A stream from the client to the server, with some data already there.
fn stream_with(
    data: &'static [u8],
) -> (Side<Box<dyn Fn() -> usize>>, Side<impl Fn() -> usize>) {
    let (mut a, mut b) = connected();
    let _uni = a.open_uni();
    run(&mut a, &mut b);
    let info = a.streams.get_mut(&2).unwrap();
    let mut send = send_stream(&mut a.con, 2);
    match info.write_data(&mut send, Bytes::from_static(data), 'x') {
        WriteAct::Advance((rest, 'x'), n) => {
            assert_eq!(n, data.len());
            assert_eq!(rest.as_ref(), data);
        }
        _ => panic!("expected the data to be written"),
    }
    assert!(info.writable && info.write.is_some());
    run(&mut a, &mut b);
    (a, b)
}

#[test]
fn data_comes_in_parts_that_fit_their_permits() {
    let (mut a, mut b) = stream_with(b"hello");
    let info = b.streams.get_mut(&2).unwrap();
    let mut recv = recv_stream(&mut b.con, 2);
    let (chunks, act) = info.open_read(&mut recv, permit(3));
    assert!(matches!(act, ReadAct::Next(p) if p.len() == 3));
    let mut chunks = chunks.unwrap();
    let got = info.read_chunk(&mut chunks, permit(3));
    assert_eq!(handed(got), (3, b"hel".to_vec()));
    let got = info.read_chunk(&mut chunks, permit(10));
    assert_eq!(handed(got), (10, b"lo".to_vec()));
    assert!(info.readable);
    let got = info.read_chunk(&mut chunks, permit(10));
    assert!(matches!(got, ReadAct::Done));
    assert!(!info.readable && info.read.is_some());
    close(chunks);

    // the end of the stream is the end of the read half
    let end = a.streams.get_mut(&2).unwrap();
    let mut send = send_stream(&mut a.con, 2);
    let cmd: Poll<WriteCmdKind<()>> = Poll::Ready(WriteCmdKind::Stop(0));
    assert!(matches!(end.take_cmd(&mut send, cmd), WriteAct::Done));
    assert!(end.write.is_none());
    run(&mut a, &mut b);
    let info = b.streams.get_mut(&2).unwrap();
    let mut recv = recv_stream(&mut b.con, 2);
    let mut chunks = recv.read(true).unwrap();
    let got = info.read_chunk(&mut chunks, permit(10));
    assert!(matches!(got, ReadAct::Done));
    assert!(info.read.is_none());
    close(chunks);
    assert!(b.pairs.stopped.borrow().is_empty());
}

#[test]
fn a_code_ends_the_stream_at_once() {
    let (mut a, mut b) = stream_with(b"hello");
    let end = a.streams.get_mut(&2).unwrap();
    let mut send = send_stream(&mut a.con, 2);
    let cmd: Poll<WriteCmdKind<()>> = Poll::Ready(WriteCmdKind::Stop(19));
    assert!(matches!(end.take_cmd(&mut send, cmd), WriteAct::Done));
    run(&mut a, &mut b);
    let info = b.streams.get_mut(&2).unwrap();
    let mut recv = recv_stream(&mut b.con, 2);
    let mut chunks = recv.read(true).unwrap();
    let got = info.read_chunk(&mut chunks, permit(10));
    assert!(matches!(got, ReadAct::Done));
    close(chunks);
    let stopped = b.pairs.stopped.borrow();
    assert_eq!(stopped.len(), 1);
    assert_eq!(stopped[0].message(), "reset by peer: code 19");
}

#[test]
fn nothing_is_written_to_a_stream_that_has_ended() {
    let (mut a, _b) = stream_with(b"hello");
    a.con.send_stream(StreamId(2)).finish().unwrap();
    let info = a.streams.get_mut(&2).unwrap();
    let mut send = send_stream(&mut a.con, 2);
    let act = info.write_data(&mut send, Bytes::from_static(b"more"), ());
    assert!(matches!(act, WriteAct::Done));
    assert!(info.write.is_none());
}

#[test]
fn writing_waits_where_there_is_no_room() {
    let (mut a, mut b) = connected();
    let _uni = a.open_uni();
    run(&mut a, &mut b);
    let info = a.streams.get_mut(&2).unwrap();
    let mut send = send_stream(&mut a.con, 2);
    let mut data = Bytes::from(vec![7; 64 * 1024 * 1024]);
    loop {
        match info.write_data(&mut send, data, ()) {
            WriteAct::Advance((mut rest, ()), n) => {
                assert!(n > 0);
                data = rest.split_off(n);
            }
            WriteAct::Finish((rest, ())) => {
                assert!(!rest.is_empty());
                break;
            }
            _ => panic!("expected to have to wait"),
        }
    }
    assert!(!info.writable && info.write.is_some());
}

#[test]
fn the_other_side_is_told_that_the_user_is_gone() {
    let (mut a, mut b) = stream_with(b"hello");
    let info = b.streams.get_mut(&2).unwrap();
    let gone: Poll<Result<CounterAddPermit<Ledger>, u64>> = Poll::Ready(Err(7));
    let act: ReadAct<_, Bytes> = info.read(ReadEvt::First(gone));
    let mut recv = recv_stream(&mut b.con, 2);
    StreamInfo::<ReadBack, usize>::end_read(&mut recv, act);
    run(&mut a, &mut b);
    assert!(a.streams.is_empty());
}

#[test]
fn a_drain_moves_data_too() {
    let (mut a, mut b) = stream_with(b"hello");
    let mut drain = WriteDrain::new();
    let mut send = send_stream(&mut a.con, 2);
    match drain.write_data(&mut send, Bytes::from_static(b"world"), 1u8) {
        WriteDrainAct::Advance((rest, 1), 5) => assert_eq!(rest.as_ref(), b"world"),
        _ => panic!("expected the data to be written"),
    }
    let cmd: Poll<WriteCmdKind<()>> = Poll::Ready(WriteCmdKind::Stop(0));
    assert!(matches!(drain.take_cmd(&mut send, cmd), WriteDrainAct::Done));
    assert!(drain.did_work && drain.remove);
    run(&mut a, &mut b);

    let mut drain = ReadDrain::new();
    let mut recv = recv_stream(&mut b.con, 2);
    let (chunks, act) = drain.open_read::<Ledger>(&mut recv);
    assert!(matches!(act, DrainAct::Acquire));
    let mut chunks = chunks.unwrap();
    let mut all = Vec::new();
    loop {
        match drain.read_chunk(&mut chunks, permit(4)) {
            DrainAct::Send(permit, data) => {
                assert!(permit.len() == 4 && data.len() <= 4);
                all.extend_from_slice(&data);
            }
            DrainAct::Finalize => break,
            _ => panic!("expected data or the end"),
        }
    }
    assert_eq!(all, b"helloworld");
    assert!(drain.did_work && drain.remove && drain.stop_err.is_none());
    close(chunks);
}

#[test]
fn a_drain_tells_the_other_side_to_stop() {
    let (mut a, mut b) = stream_with(b"hello");
    let mut drain = ReadDrain::new();
    drain.stop_code = Some(5);
    let mut recv = recv_stream(&mut b.con, 2);
    drain.end_read(&mut recv, true);
    assert!(drain.did_work);
    run(&mut a, &mut b);
    assert!(a.streams.is_empty());
}

#[test]
fn each_side_reads_what_the_other_writes() {
    let (mut a, mut b) = stream_with(b"hello");
    // numbers 0 and 2 are of streams that the client opened, 1 and 3 of the
    // server's; the higher two go one way
    for (id, client, server) in [
        (0, (true, true), (true, true)),
        (1, (true, true), (true, true)),
        (2, (false, true), (true, false)),
        (3, (true, false), (false, true)),
    ] {
        assert_eq!((readable(&a.con, id), writable(&a.con, id)), client);
        assert_eq!((readable(&b.con, id), writable(&b.con, id)), server);
    }

    // a stream that is not there cannot be opened
    let info = b.streams.get_mut(&2).unwrap();
    let mut recv = recv_stream(&mut b.con, 4002);
    let (chunks, act) = info.open_read(&mut recv, permit(3));
    assert!(chunks.is_none() && matches!(act, ReadAct::Done));
    let mut drain = ReadDrain::new();
    let mut recv = recv_stream(&mut a.con, 4003);
    let (chunks, act) = drain.open_read::<Ledger>(&mut recv);
    assert!(chunks.is_none() && matches!(act, DrainAct::Done));
}

#[test]
fn reading_to_the_end_lets_the_other_side_open_more() {
    let (mut a, mut b) = stream_with(b"hello");
    a.con.send_stream(StreamId(2)).finish().unwrap();
    run(&mut a, &mut b);
    let info = b.streams.get_mut(&2).unwrap();
    let mut recv = recv_stream(&mut b.con, 2);
    let mut chunks = info.open_read(&mut recv, permit(9)).0.unwrap();
    assert_eq!(
        handed(info.read_chunk(&mut chunks, permit(9))),
        (9, b"hello".to_vec())
    );
    assert!(matches!(
        info.read_chunk(&mut chunks, permit(9)),
        ReadAct::Done
    ));
    assert!(close(chunks));
}

type UserCmd =
    ConnectionCmd<Addr, Answer<AqResult<usize>>, Answer<AqResult<(usize, usize)>>>;

/// Commands of the user alone.
struct UserCmds(Chan<UserCmd>);

impl Receive<UserCmd> for UserCmds {
    fn poll_next(&mut self, _cx: &mut Context<'_>) -> Poll<Option<UserCmd>> {
        match self.0.queue.borrow_mut().pop_front() {
            Some(cmd) => Poll::Ready(Some(cmd)),
            None if self.0.room.get() == Room::Gone => Poll::Ready(None),
            None => Poll::Pending,
        }
    }
}

type TurnCon = Con<
    Addr,
    Answer<AqResult<usize>>,
    Answer<AqResult<(usize, usize)>>,
    ReadBack,
    usize,
    usize,
    usize,
    UserCmds,
    Chan<Evt>,
>;

/// A connection that is driven along with all others of its endpoint.
struct Turns {
    base: Instant,
    endpoint: QuinnEndpoint,
    hnd: usize,
    driver: QuinnDriver<OutPacket>,
    con: TurnCon,
    pairs: Pairs,
    cmds: Chan<UserCmd>,
    evts: Chan<Evt>,
    removed: bool,
    unhandled: Vec<ConEvent>,
}

fn turns<F: Fn() -> usize>(side: Side<F>) -> Turns {
    let cmds = Chan::new();
    let evts = Chan::new();
    Turns {
        base: Instant::now(),
        endpoint: side.endpoint,
        hnd: side.hnd,
        driver: QuinnDriver::new(8, 0),
        con: Con {
            connection: side.con,
            streams: HashMap::new(),
            cmd_recv: UserCmds(cmds.clone()),
            evt_send: MultiSenderPoll::new(MultiSender::new(evts.clone())),
            info: ConInfo::new(),
            marker: PhantomData,
        },
        pairs: side.pairs,
        cmds,
        evts,
        removed: false,
        unhandled: Vec::new(),
    }
}

impl Turns {
    /// One turn of the connection.
    fn turn(&mut self) -> Disposition {
        let waker = futures_util::task::noop_waker();
        let mut cx = Context::from_waker(&waker);
        let now = Instant::now();
        let one = || 1;
        self.driver.start(1);
        let mut act = self.con.begin(&mut self.driver);
        loop {
            let step = self.con.perform(
                &mut self.driver,
                &self.pairs,
                &mut cx,
                now,
                &one,
                act,
            );
            let evt = match step {
                Step::Next(then) => {
                    act = then;
                    continue;
                }
                Step::Unhandled(evt) => {
                    self.unhandled.push(evt);
                    break;
                }
                Step::Outside(ConsAct::Remove) => {
                    self.con.remove(now);
                    self.removed = true;
                    break;
                }
                Step::Outside(ConsAct::PollTimeout) => {
                    act = self.con.poll_timeout(&mut self.driver, &self.base);
                    continue;
                }
                Step::Outside(ConsAct::HandleEpEvent(e)) => {
                    assert!(self.endpoint.knows(self.hnd));
                    act = self.con.handle_ep_event(
                        &mut self.driver,
                        &mut self.endpoint,
                        self.hnd,
                        e,
                    );
                    continue;
                }
                Step::Outside(ConsAct::Streams) => {
                    ConsEvt::StreamsDone(false, self.con.streams.is_empty())
                }
                Step::Outside(_) => break,
            };
            act = self.driver.poll_connections(&mut self.con.info, evt);
        }
        self.driver.finish(0).1
    }

    fn arrive(&mut self, packets: Vec<OutPacket>) {
        for packet in packets {
            let got = self.endpoint.handle(Instant::now(), came(SERVER, packet));
            if let Some(PacketMeans::ConEvt(_, evt)) = got {
                self.con.handle_event(evt);
            }
        }
    }
}

/// Turns of the client and rounds of the server, until neither has anything to
/// send.
fn run_turns<F: Fn() -> usize>(a: &mut Turns, b: &mut Side<F>) {
    let mut quiet = 0;
    while quiet < 3 {
        a.turn();
        b.round();
        let to_b: Vec<OutPacket> = a.driver.udp_send_buf.drain(..).collect();
        let to_a = b.packets.take();
        if to_a.is_empty() && to_b.is_empty() {
            quiet += 1;
        } else {
            quiet = 0;
        }
        b.arrive(CLIENT, to_b);
        a.arrive(to_a);
    }
}

#[test]
fn a_turn_serves_the_user_of_a_connection() {
    let (a, mut b) = connected();
    let mut a = turns(a);
    let addr = Rc::new(RefCell::new(None));
    let uni = Rc::new(RefCell::new(None));
    let bi = Rc::new(RefCell::new(None));
    {
        let mut queue = a.cmds.queue.borrow_mut();
        queue.push_back(ConnectionCmd::GetRemoteAddress(Answer(addr.clone())));
        queue.push_back(ConnectionCmd::OpenUniStream(Answer(uni.clone())));
        queue.push_back(ConnectionCmd::OpenBiStream(Answer(bi.clone())));
    }
    assert_eq!(a.turn(), Disposition::MoreWork);
    assert!(matches!(&*addr.borrow(), Some(Ok(addr)) if addr.to_string() == SERVER));
    assert!(matches!(*uni.borrow(), Some(Ok(1))));
    assert!(matches!(*bi.borrow(), Some(Ok((2, 3)))));
    assert!(a.con.streams[&2].read.is_none() && a.con.streams[&2].write == Some(1));
    assert!(a.con.streams[&0].read.is_some() && a.con.streams[&0].write == Some(2));

    // what the other side opens is told of
    let _theirs = b.open_uni();
    b.round();
    b.con.send_stream(StreamId(3)).write(b"hello").unwrap();
    run_turns(&mut a, &mut b);
    let evts = a.evts.take();
    assert_eq!(evts.len(), 1);
    assert!(matches!(evts[0], ConnectionEvt::InUniStream(4)));
    assert!(a.con.streams[&3].read.is_some() && a.con.streams[&3].write.is_none());
    assert_eq!(a.turn(), Disposition::PendOk);
    // a timeout that was asked for before and comes first stays
    let at = a.con.connection.poll_timeout().unwrap();
    assert!(a.driver.next_timeout > 0);
    assert!(a.driver.next_timeout <= since(&a.base, at));
}

#[test]
fn a_turn_takes_datagrams() {
    let (a, mut b) = connected();
    let mut a = turns(a);
    b.con.datagrams().send(Bytes::from_static(b"hi")).unwrap();
    run_turns(&mut a, &mut b);
    match a.evts.take().as_slice() {
        [ConnectionEvt::InDatagram(data)] => assert_eq!(data.as_ref(), b"hi"),
        _ => panic!("expected a datagram"),
    }
}

#[test]
fn a_turn_keeps_events_that_the_user_has_no_room_for() {
    let (a, mut b) = connected();
    let mut a = turns(a);
    a.evts.room.set(Room::Full);
    b.con.datagrams().send(Bytes::from_static(b"hi")).unwrap();
    run_turns(&mut a, &mut b);
    assert_eq!(a.con.info.evt_send_buf.len(), 1);
    a.evts.room.set(Room::Free);
    assert_eq!(a.turn(), Disposition::MoreWork);
    assert_eq!(a.evts.take().len(), 1);
    a.evts.room.set(Room::Gone);
    b.con.datagrams().send(Bytes::from_static(b"ho")).unwrap();
    run_turns(&mut a, &mut b);
    assert!(a.con.info.want_close);
}

#[test]
fn a_connection_is_closed_once_its_user_and_its_streams_are_gone() {
    let (a, mut b) = connected();
    let _ = b.evts.take();
    let mut a = turns(a);
    let uni = Rc::new(RefCell::new(None));
    a.cmds
        .queue
        .borrow_mut()
        .push_back(ConnectionCmd::OpenUniStream(Answer(uni)));
    a.turn();
    a.cmds.room.set(Room::Gone);
    a.turn();
    assert!(a.con.info.want_close && !a.con.connection.is_closed());
    a.con.streams.clear();
    a.turn();
    assert!(a.con.connection.is_closed() && !a.removed);
    run_turns(&mut a, &mut b);
    match b.evts.take().as_slice() {
        [ConnectionEvt::Error(err)] => assert_eq!(err.message(), "closed by peer: 0"),
        _ => panic!("expected the connection to be lost"),
    }
    // nothing is opened on a connection that is closing
    let refused = Rc::new(RefCell::new(None));
    a.cmds
        .queue
        .borrow_mut()
        .push_back(ConnectionCmd::OpenUniStream(Answer(refused.clone())));
    a.turn();
    match &*refused.borrow() {
        Some(Err(err)) => assert_eq!(err.message(), "ConnectionClosing"),
        _ => panic!("expected an error"),
    };
}

#[test]
fn a_connection_that_is_drained_is_removed() {
    let (a, _b) = connected();
    let mut a = turns(a);
    a.con.connection.close(Instant::now(), 0u32.into(), Bytes::new());
    a.con
        .connection
        .handle_timeout(Instant::now() + std::time::Duration::from_secs(60));
    assert!(a.con.connection.is_drained());
    assert_eq!(a.turn(), Disposition::MoreWork);
    assert!(a.removed);
    assert!(a.con.connection.is_closed());
}

#[test]
fn a_turn_cannot_deal_with_a_stream_that_is_stopped() {
    let (a, mut b) = connected();
    let mut a = turns(a);
    let uni = Rc::new(RefCell::new(None));
    a.cmds
        .queue
        .borrow_mut()
        .push_back(ConnectionCmd::OpenUniStream(Answer(uni)));
    a.turn();
    a.con.connection.send_stream(StreamId(2)).write(b"hello").unwrap();
    run_turns(&mut a, &mut b);
    b.con.recv_stream(StreamId(2)).stop(6u32.into()).unwrap();
    b.round();
    a.arrive(b.packets.take());
    a.turn();
    assert!(matches!(
        a.unhandled.as_slice(),
        [ConEvent::Stream(ConStreamEvent::Stopped(2, 6))]
    ));
}

/// Drive the connection at hand of a driver until the next one has its turn.
fn serve<F: Fn() -> usize>(
    driver: &mut DriverInner<(), Transmit>,
    side: &mut Side<F>,
) -> (Vec<String>, Option<ConEvent>) {
    let mut told = Vec::new();
    let one = || 1;
    let act = driver.poll::<Connection, quinn_proto::EndpointEvent, ConnectionEvent>(DriverEvt::Begin);
    assert!(matches!(act, DriverAct::PollRecv(8)));
    let act = driver.poll::<Connection, quinn_proto::EndpointEvent, ConnectionEvent>(
        DriverEvt::Received(Poll::Pending),
    );
    assert!(matches!(act, DriverAct::NextCon));
    let mut act = driver.poll(DriverEvt::Con(Some(ConTimer {
        timeout: true,
        scheduled: false,
    })));
    loop {
        let evt = match driver.perform(&mut side.con, Instant::now(), &one, act) {
            Step::Next(then) => {
                act = then;
                continue;
            }
            Step::Unhandled(evt) => return (told, Some(evt)),
            Step::Outside(DriverAct::Schedule(_)) => {
                told.push("schedule".to_string());
                DriverEvt::Handled
            }
            Step::Outside(DriverAct::Reschedule(_)) => DriverEvt::Handled,
            Step::Outside(DriverAct::HandleEpEvt(e)) => {
                act = driver.ep_handle_event(&mut side.endpoint, side.hnd, e);
                continue;
            }
            Step::Outside(DriverAct::Deliver(evts)) => {
                told.push(format!("{} events", evts.len()));
                DriverEvt::Handled
            }
            Step::Outside(DriverAct::NextCon) => DriverEvt::Con(None),
            Step::Outside(DriverAct::EpPollTransmit) => {
                act = driver.ep_transmit(&mut side.endpoint);
                continue;
            }
            Step::Outside(DriverAct::PollSend) => {
                told.push(format!("{} packets", driver.pending_send.len()));
                driver.pending_send.clear();
                DriverEvt::Sent(Poll::Ready(()))
            }
            Step::Outside(DriverAct::Pend(safe)) => {
                told.push(format!("pend {}", safe));
                return (told, None);
            }
            Step::Outside(_) => panic!("unexpected action"),
        };
        act = driver.poll(evt);
    }
}

#[test]
fn a_driver_sends_what_a_new_connection_has_to_send() {
    let (mut a, _) = client();
    let mut driver = DriverInner::new(1);
    let (told, unhandled) = serve(&mut driver, &mut a);
    assert!(unhandled.is_none());
    assert_eq!(told, vec!["schedule", "1 packets", "pend true"]);
}

#[test]
fn a_driver_cannot_deal_with_streams() {
    let (mut a, mut b) = connected();
    let _uni = b.open_uni();
    b.round();
    b.con.send_stream(StreamId(3)).write(b"hello").unwrap();
    b.round();
    for packet in b.packets.take() {
        a.arrive(SERVER, vec![packet]);
    }
    while let Some(ConCmd::ConEvt(evt)) = a.cmds.queue.borrow_mut().pop_front() {
        a.con.handle_event(evt);
    }
    let mut driver = DriverInner::new(1);
    let (_, unhandled) = serve(&mut driver, &mut a);
    assert!(matches!(unhandled, Some(ConEvent::Stream(_))));
}

#[test]
fn an_endpoint_sends_its_own_packets() {
    let (_, config) = client();
    let mut endpoint = QuinnEndpoint::new(
        Arc::new(EndpointConfig::default()),
        Some(Arc::new(config)),
    );
    let chan: Chan<OutPacket> = Chan::new();
    let mut driver = TransmitDriver::new(MultiSender::new(chan.clone()));
    let waker = futures_util::task::noop_waker();
    let mut cx = Context::from_waker(&waker);
    let wish = driver.poll(&mut cx, &mut endpoint);
    assert!(!wish.more_work && !wish.want_close);
    assert!(chan.take().is_empty());

    // a version that nobody speaks is answered with those that are spoken
    let mut data = vec![0xc0, 0x0a, 0x1a, 0x2a, 0x3a, 8];
    data.extend_from_slice(&[1; 8]);
    data.push(8);
    data.extend_from_slice(&[2; 8]);
    data.resize(1200, 0);
    let packet = InPacket {
        src_addr: CLIENT.parse().unwrap(),
        dst_ip: None,
        ecn: None,
        data: BytesMut::from(data.as_slice()),
    };
    assert!(endpoint.handle(Instant::now(), packet).is_none());
    driver.poll(&mut cx, &mut endpoint);
    let packets = chan.take();
    assert_eq!(packets.len(), 1);
    assert_eq!(packets[0].dst_addr.to_string(), CLIENT);

    chan.room.set(Room::Gone);
    let wish = driver.poll(&mut cx, &mut endpoint);
    assert!(wish.want_close);
}

#[test]
fn a_round_lets_the_connection_do_what_is_due() {
    let (mut a, _b) = connected();
    let mut driver = ConnectionDriver::new();
    assert!(matches!(
        driver.poll_inner(ConRoundEvt::Begin),
        ConRoundAct::CheckTimer
    ));
    assert!(matches!(
        driver.poll_inner(ConRoundEvt::Due(true)),
        ConRoundAct::HandleTimeout
    ));
    // long after everything the connection is given up
    let late = Instant::now() + std::time::Duration::from_secs(3600);
    assert!(matches!(
        driver.handle_timeout(&mut a.con, late),
        ConRoundAct::Commands
    ));
    assert!(a.con.is_drained());
}

#[test]
fn a_round_asks_the_connection_for_its_next_timeout() {
    let (mut a, _b) = connected();
    let mut driver = ConnectionDriver::new();
    let through = Wish {
        more_work: false,
        want_close: false,
    };
    driver.poll_inner(ConRoundEvt::Begin);
    driver.poll_inner(ConRoundEvt::Due(false));
    driver.poll_inner(ConRoundEvt::Wish(through));
    driver.poll_inner(ConRoundEvt::Handled);
    assert!(matches!(
        driver.poll_inner(ConRoundEvt::Wish(through)),
        ConRoundAct::PollTimeout
    ));
    let base = Instant::now();
    let at = a.con.poll_timeout().unwrap();
    match driver.poll_timeout(&mut a.con, &base) {
        ConRoundAct::SetTimer(time) => assert_eq!(time, (at - base).as_nanos() as u64),
        _ => panic!("expected a timer"),
    }
    assert_eq!(since(&at, base), 0);
}

/// Keeps new connections, and numbers them for their users.
struct Kept {
    made: RefCell<Vec<(usize, Connection)>>,
    events: Chan<ConnectionEvent>,
}

impl Kept {
    fn new() -> Self {
        Kept {
            made: RefCell::new(Vec::new()),
            events: Chan::new(),
        }
    }
}

impl ConSpawn<usize, usize, Chan<ConnectionEvent>> for Kept {
    fn spawn(
        &self,
        hnd: usize,
        con: Connection,
    ) -> (
        usize,
        MultiSender<ConnectionEvent, Chan<ConnectionEvent>>,
        usize,
    ) {
        self.made.borrow_mut().push((hnd, con));
        let n = self.made.borrow().len();
        (n, MultiSender::new(self.events.clone()), n * 10)
    }
}

/// What is in a channel, and whether no more will come.
struct Rest<T>(Chan<T>);

impl<T> Receive<T> for Rest<T> {
    fn poll_next(&mut self, _cx: &mut Context<'_>) -> Poll<Option<T>> {
        match self.0.queue.borrow_mut().pop_front() {
            Some(t) => Poll::Ready(Some(t)),
            None if self.0.room.get() == Room::Gone => Poll::Ready(None),
            None => Poll::Pending,
        }
    }
}

type ToUser = EndpointEvt<usize, usize>;

/// A server that takes packets, and a client that has sent its first ones.
struct Taking {
    client: Side<Box<dyn Fn() -> usize>>,
    endpoint: QuinnEndpoint,
    cons: Connections<Chan<ConnectionEvent>>,
    kept: Kept,
    users: Chan<ToUser>,
    socket: Chan<PacketEvt>,
    driver: PacketDriver<usize, usize, Chan<ToUser>, Rest<PacketEvt>>,
}

fn taking() -> Taking {
    let (client, config) = client();
    let one: Box<dyn Fn() -> usize> = Box::new(|| 1);
    let users = Chan::new();
    let socket = Chan::new();
    Taking {
        client: side(client.endpoint, client.hnd, client.con, CLIENT, one),
        endpoint: QuinnEndpoint::new(
            Arc::new(EndpointConfig::default()),
            Some(Arc::new(config)),
        ),
        cons: HashMap::new(),
        kept: Kept::new(),
        driver: PacketDriver::new(
            MultiSender::new(users.clone()),
            Rest(socket.clone()),
        ),
        users,
        socket,
    }
}

impl Taking {
    /// The client sends what it has to send.
    fn send(&mut self) -> usize {
        self.client.round();
        let packets = self.client.packets.take();
        let n = packets.len();
        for packet in packets {
            let evt = UdpBackendEvt::InUdpPacket(came(CLIENT, packet));
            self.socket.queue.borrow_mut().push_back(evt);
        }
        n
    }

    fn turn(&mut self) -> Wish {
        let waker = futures_util::task::noop_waker();
        let mut cx = Context::from_waker(&waker);
        self.driver
            .poll(&mut cx, &self.kept, &mut self.endpoint, &mut self.cons)
    }

    /// The connection of the server answers, so that the client goes on.
    fn answer(&mut self) {
        let now = Instant::now();
        let mut packets = Vec::new();
        for (_, con) in self.kept.made.borrow_mut().iter_mut() {
            while let Some(packet) = con.poll_transmit(now, 1) {
                packets.push(out_packet(packet));
            }
        }
        assert!(!packets.is_empty());
        self.client.arrive(SERVER, packets);
    }
}

#[test]
fn a_packet_of_a_stranger_is_a_new_connection() {
    let mut t = taking();
    let wish = t.turn();
    assert!(!wish.more_work && !wish.want_close);
    assert_eq!(t.send(), 1);
    let wish = t.turn();
    assert!(wish.more_work && !wish.want_close);
    assert!(matches!(
        t.users.take().as_slice(),
        [EndpointEvt::InConnection(1, 10)]
    ));
    let hnd = t.kept.made.borrow()[0].0;
    assert!(t.endpoint.knows(hnd));
    assert!(t.cons.contains_key(&hnd));

    // what the client sends next is for that connection
    t.answer();
    assert!(t.send() > 0);
    t.turn();
    assert!(t.users.take().is_empty());
    assert!(!t.kept.events.take().is_empty());
    assert_eq!(t.kept.made.borrow().len(), 1);
}

#[test]
fn new_connections_wait_until_the_user_takes_them() {
    let mut t = taking();
    t.users.room.set(Room::Full);
    t.send();
    assert!(t.turn().more_work);
    assert!(t.users.take().is_empty());
    assert!(t.cons.is_empty());
    assert_eq!(t.driver.udp_in.new_con_buf.len(), 1);

    t.users.room.set(Room::Free);
    assert!(!t.turn().more_work);
    assert_eq!(t.users.take().len(), 1);
    assert_eq!(t.cons.len(), 1);
    assert!(t.driver.udp_in.new_con_buf.is_empty());
}

#[test]
fn events_wait_for_their_connection() {
    let mut t = taking();
    t.send();
    t.turn();
    t.answer();
    t.kept.events.room.set(Room::Full);
    let sent = t.send();
    assert!(sent > 0);
    t.turn();
    assert!(t.kept.events.take().is_empty());
    assert_eq!(t.driver.udp_in.con_evt_buf[0].1.len(), sent);

    t.kept.events.room.set(Room::Free);
    t.turn();
    assert_eq!(t.kept.events.take().len(), sent);
    assert!(t.driver.udp_in.con_evt_buf.is_empty());
}

#[test]
fn a_connection_that_takes_no_events_is_forgotten() {
    let mut t = taking();
    t.send();
    t.turn();
    t.answer();
    t.kept.events.room.set(Room::Gone);
    assert!(t.send() > 0);
    t.turn();
    assert!(t.cons.is_empty());

    // and its events are dropped from then on
    t.kept.events.room.set(Room::Free);
    t.turn();
    assert!(t.kept.events.take().is_empty());
}

#[test]
fn packets_are_taken_until_the_socket_is_gone() {
    let mut t = taking();
    t.users.room.set(Room::Gone);
    t.send();
    t.socket.room.set(Room::Gone);
    let wish = t.turn();
    assert!(wish.more_work && wish.want_close);
    let wish = t.turn();
    assert!(!wish.more_work && wish.want_close);
}

#[test]
fn a_turn_takes_no_more_packets_than_its_rounds() {
    let mut t = taking();
    for _ in 0..40 {
        let packet = InPacket {
            src_addr: CLIENT.parse().unwrap(),
            dst_ip: None,
            ecn: None,
            data: BytesMut::from(&b"nothing"[..]),
        };
        let evt = UdpBackendEvt::InUdpPacket(packet);
        t.socket.queue.borrow_mut().push_back(evt);
    }
    assert!(t.turn().more_work);
    assert_eq!(t.socket.queue.borrow().len(), 8);
    assert!(t.turn().more_work);
    assert!(t.socket.queue.borrow().is_empty());
    assert!(!t.turn().more_work);
    assert!(t.users.take().is_empty() && t.kept.events.take().is_empty());
}

/// An endpoint that takes commands.
struct Commanded {
    endpoint: QuinnEndpoint,
    cons: Connections<Chan<ConnectionEvent>>,
    kept: Kept,
    socket: Chan<UdpCmd>,
    cmds: Chan<Told>,
    driver: EpCmdDriver<Addr, Conn, Chan<ConnectionEvent>, Chan<UdpCmd>, Rest<Told>>,
}

type Addr = Answer<AqResult<core::net::SocketAddr>>;
type Conn = Answer<AqResult<(usize, usize)>>;
type UdpCmd = UdpBackendCmd<Addr>;
type Told = QuinnEpCmd<Put<ConnectionEvent>, Addr, Conn>;

fn commanded() -> Commanded {
    let socket = Chan::new();
    let cmds = Chan::new();
    let config = ClientConfig::with_root_certificates(rustls::RootCertStore::empty());
    Commanded {
        endpoint: QuinnEndpoint::new(Arc::new(EndpointConfig::default()), None),
        cons: HashMap::new(),
        kept: Kept::new(),
        driver: EpCmdDriver::new(
            config,
            Rest(cmds.clone()),
            MultiSender::new(socket.clone()),
        ),
        socket,
        cmds,
    }
}

impl Commanded {
    fn turn(&mut self) -> CommandEnd {
        let waker = futures_util::task::noop_waker();
        let mut cx = Context::from_waker(&waker);
        self.driver
            .poll(&mut cx, &self.kept, &mut self.endpoint, &mut self.cons)
    }

    fn tell(&self, cmd: Told) {
        self.cmds.queue.borrow_mut().push_back(cmd);
    }

    fn connect(&self, addr: &str, name: &str) -> Slot<AqResult<(usize, usize)>> {
        let slot = Rc::new(RefCell::new(None));
        self.tell(EpCmd::EpCmd(EndpointCmd::Connect {
            sender: Answer(slot.clone()),
            addr: addr.parse().unwrap(),
            server_name: name.to_string(),
        }));
        slot
    }
}

fn wished(end: CommandEnd) -> (bool, bool) {
    match end {
        CommandEnd::Wish(wish) => (wish.more_work, wish.want_close),
        CommandEnd::Unknown(hnd) => panic!("unknown connection: {}", hnd),
    }
}

#[test]
fn a_command_to_connect_makes_a_connection() {
    let mut c = commanded();
    assert_eq!(wished(c.turn()), (false, false));
    let got = c.connect(SERVER, "localhost");
    assert_eq!(wished(c.turn()), (true, false));
    assert!(matches!(got.borrow_mut().take(), Some(Ok((1, 10)))));
    let made = c.kept.made.borrow_mut();
    let (hnd, con) = &made[0];
    assert_eq!(con.remote_address().to_string(), SERVER);
    assert!(c.endpoint.knows(*hnd));
    assert!(c.cons.contains_key(hnd));
}

#[test]
fn a_command_to_connect_nowhere_is_refused() {
    let mut c = commanded();
    let port = c.connect("127.0.0.1:0", "localhost");
    let name = c.connect(SERVER, "not a name");
    assert_eq!(wished(c.turn()), (true, false));
    match port.borrow_mut().take() {
        Some(Err(err)) => assert_eq!(err.message(), "invalid remote address: 127.0.0.1:0"),
        _ => panic!("expected an error"),
    }
    assert!(matches!(name.borrow_mut().take(), Some(Err(AqErr::Other(_)))));
    assert!(c.cons.is_empty());
    assert!(c.kept.made.borrow().is_empty());
}

#[test]
fn a_request_for_the_address_goes_to_the_socket() {
    let mut c = commanded();
    let slot: Slot<AqResult<core::net::SocketAddr>> = Rc::new(RefCell::new(None));
    c.tell(EpCmd::EpCmd(EndpointCmd::GetLocalAddress(Answer(slot.clone()))));
    c.socket.room.set(Room::Full);
    assert_eq!(wished(c.turn()), (false, false));
    c.socket.room.set(Room::Free);
    assert_eq!(wished(c.turn()), (true, false));
    match c.socket.take().pop() {
        Some(UdpBackendCmd::GetLocalAddress(rsp)) => rsp.send(Ok(CLIENT.parse().unwrap())),
        _ => panic!("expected a request"),
    }
    assert!(matches!(slot.borrow_mut().take(), Some(Ok(addr)) if addr.to_string() == CLIENT));

    c.socket.room.set(Room::Gone);
    c.tell(EpCmd::EpCmd(EndpointCmd::GetLocalAddress(Answer(slot.clone()))));
    assert_eq!(wished(c.turn()), (true, false));
    assert!(matches!(
        slot.borrow_mut().take(),
        Some(Err(AqErr::SocketDisconnected))
    ));
    c.cmds.room.set(Room::Gone);
    assert_eq!(wished(c.turn()), (false, true));
    assert_eq!(wished(c.turn()), (false, true));
}

#[test]
fn a_turn_takes_no_more_commands_than_its_rounds() {
    let mut c = commanded();
    let answers: Vec<_> = (0..40).map(|_| c.connect("127.0.0.1:0", "localhost")).collect();
    assert_eq!(wished(c.turn()), (true, false));
    let answered = answers.iter().filter(|a| a.borrow().is_some()).count();
    assert_eq!(answered, 32);
    assert_eq!(wished(c.turn()), (true, false));
    assert!(answers.iter().all(|a| a.borrow().is_some()));
    assert_eq!(wished(c.turn()), (false, false));
}

#[test]
fn events_of_connections_are_taken_up_and_answered() {
    let mut c = commanded();
    let _got = c.connect(SERVER, "localhost");
    c.turn();
    let (hnd, mut con) = c.kept.made.borrow_mut().remove(0);
    let now = Instant::now();
    con.close(now, 0u32.into(), Bytes::new());
    // long after that the connection is done with
    con.handle_timeout(now + std::time::Duration::from_secs(3600));
    let answers: Chan<ConnectionEvent> = Chan::new();
    let mut told = 0;
    while let Some(evt) = con.poll_endpoint_events() {
        c.tell(EpCmd::EpEvt(EpEvt {
            hnd,
            evt,
            rsp: Put(answers.clone()),
        }));
        told += 1;
    }
    assert!(told > 0 && con.is_drained());
    assert_eq!(wished(c.turn()), (true, false));
    assert!(!c.endpoint.knows(hnd));
}

#[test]
fn an_event_of_a_connection_that_is_not_known_ends_the_turn() {
    let mut a = client().0;
    let now = Instant::now();
    a.con.close(now, 0u32.into(), Bytes::new());
    a.con.handle_timeout(now + std::time::Duration::from_secs(3600));
    let evt = a.con.poll_endpoint_events().unwrap();
    let mut c = commanded();
    c.tell(EpCmd::EpEvt(EpEvt {
        hnd: 7,
        evt,
        rsp: Put(Chan::new()),
    }));
    assert!(matches!(c.turn(), CommandEnd::Unknown(7)));
}

#[test]
fn a_driver_lets_the_endpoint_handle_packets() {
    let (mut a, config) = client();
    a.round();
    let packet = a.packets.take().remove(0);
    let mut endpoint = QuinnEndpoint::new(
        Arc::new(EndpointConfig::default()),
        Some(Arc::new(config)),
    );
    let mut driver: DriverInner<InPacket, Transmit> = DriverInner::new(1);
    let act = driver.poll::<Connection, quinn_proto::EndpointEvent, ConnectionEvent>(
        DriverEvt::Begin,
    );
    assert!(matches!(act, DriverAct::PollRecv(8)));
    driver.pending_recv.push_back(came(CLIENT, packet));
    let act = driver.poll::<Connection, quinn_proto::EndpointEvent, ConnectionEvent>(
        DriverEvt::Received(Poll::Pending),
    );
    let act = match act {
        DriverAct::HandlePacket(packet) => {
            assert_eq!(packet.src_addr.to_string(), CLIENT);
            driver.handle_packet(&mut endpoint, Instant::now(), packet)
        }
        _ => panic!("expected a packet"),
    };
    match act {
        DriverAct::Register(hnd, con) => {
            assert!(endpoint.knows(hnd));
            assert_eq!(con.remote_address().to_string(), CLIENT);
        }
        _ => panic!("expected a connection"),
    }
}

#[test]
fn a_packet_arrives_at_the_socket_as_it_was() {
    for (ecn, code) in [
        (None, None),
        (Some(quinn_proto::EcnCodepoint::Ect0), Some(2)),
        (Some(quinn_proto::EcnCodepoint::Ect1), Some(1)),
        (Some(quinn_proto::EcnCodepoint::Ce), Some(3)),
    ] {
        let packet = out_packet(Transmit {
            destination: SERVER.parse().unwrap(),
            ecn,
            contents: b"hello".to_vec(),
            segment_size: Some(1200),
            src_ip: Some("127.0.0.1".parse().unwrap()),
        });
        assert_eq!(packet.dst_addr.to_string(), SERVER);
        assert_eq!(packet.ecn, code);
        assert_eq!(packet.data, b"hello".to_vec());
        assert_eq!(packet.segment_size, Some(1200));
        assert_eq!(packet.src_ip.unwrap().to_string(), "127.0.0.1");
        let back = transmit(packet);
        assert_eq!(back.destination.to_string(), SERVER);
        assert_eq!(back.ecn, ecn);
        assert_eq!(back.contents, b"hello".to_vec());
        assert_eq!(back.segment_size, Some(1200));
        assert_eq!(back.src_ip.unwrap().to_string(), "127.0.0.1");
    }
}
