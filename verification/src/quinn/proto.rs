//! The calls into quinn-proto.
use super::udp_in::PacketMeans;
use bytes::Bytes;
use quinn_proto::Connection;
use quinn_proto::ConnectionEvent;
use quinn_proto::Endpoint;
use quinn_proto::EndpointEvent;
use quinn_proto::Transmit;
use quinn_proto::VarInt;
use std::sync::Arc;
use std::time::Duration;
use std::time::Instant;
use vstd::prelude::*;

verus! {

/// `quinn_proto::Connection`: the protocol state of one connection.
#[verifier::external_type_specification]
#[verifier::external_body]
pub struct ExConnection(quinn_proto::Connection);

/// `quinn_proto::Transmit`: a packet to send, with its parts.
#[verifier::external_type_specification]
pub struct ExTransmit(quinn_proto::Transmit);

/// `quinn_proto::EndpointEvent`: what a connection has to tell its endpoint.
#[verifier::external_type_specification]
#[verifier::external_body]
pub struct ExEndpointEvent(quinn_proto::EndpointEvent);

/// `quinn_proto::ConnectionEvent`: what an endpoint has to tell a connection.
#[verifier::external_type_specification]
#[verifier::external_body]
pub struct ExConnectionEvent(quinn_proto::ConnectionEvent);

/// `std::time::Instant`: a moment.
#[verifier::external_type_specification]
#[verifier::external_body]
pub struct ExInstant(std::time::Instant);

/// Which directions data flows in on a stream.
#[derive(Debug, Clone, Copy, PartialEq, Eq, Structural)]
pub enum StreamDir {
    /// both ways
    Bi,
    /// from the initiator to the other side
    Uni,
}

/// What happened on the streams of a connection.
pub enum ConStreamEvent {
    /// streams of this direction were opened by the other side
    Opened(StreamDir),
    /// the stream has data
    Readable(u64),
    /// the stream takes data again
    Writable(u64),
    /// all data of the stream arrived at the other side
    Finished(u64),
    /// the other side wants no more data, with this code
    Stopped(u64, u64),
    /// streams of this direction can be opened again
    Available(StreamDir),
}

/// What happened on a connection.
pub enum ConEvent {
    /// the peer's handshake data is there
    HandshakeDataReady,
    /// the connection is established
    Connected,
    /// the connection is lost, for the reason given
    ConnectionLost(String),
    /// something happened on its streams
    Stream(ConStreamEvent),
    /// a datagram is there
    DatagramReceived,
}

/// `quinn_proto::Dir`, with its two variants.
#[verifier::external_type_specification]
pub struct ExDir(quinn_proto::Dir);

/// `quinn_proto::StreamId`, with its number.
#[verifier::external_type_specification]
pub struct ExStreamId(quinn_proto::StreamId);

/// `quinn_proto::Endpoint`: carried through to its own functions.
#[verifier::external_type_specification]
#[verifier::external_body]
pub struct ExEndpoint(quinn_proto::Endpoint);

/// `core::net::SocketAddr`: where a packet comes from or goes to.
#[verifier::external_type_specification]
#[verifier::external_body]
pub struct ExSocketAddr(core::net::SocketAddr);

/// `core::net::IpAddr`: where a packet arrived.
#[verifier::external_type_specification]
#[verifier::external_body]
pub struct ExIpAddr(core::net::IpAddr);

/// `bytes::BytesMut`: the data of a packet that came.
#[verifier::external_type_specification]
#[verifier::external_body]
pub struct ExBytesMut(bytes::BytesMut);

/// `quinn_proto::EndpointConfig`: how an endpoint is set up.
#[verifier::external_type_specification]
#[verifier::external_body]
pub struct ExEndpointConfig(quinn_proto::EndpointConfig);

/// `quinn_proto::ServerConfig`: how incoming connections are set up.
#[verifier::external_type_specification]
#[verifier::external_body]
pub struct ExServerConfig(quinn_proto::ServerConfig);

/// `quinn_proto::ClientConfig`: how an outgoing connection is set up.
#[verifier::external_type_specification]
#[verifier::external_body]
pub struct ExClientConfig(quinn_proto::ClientConfig);

/// `quinn_proto::ConnectError`: why there is no connection.
#[verifier::external_type_specification]
#[verifier::external_body]
pub struct ExConnectError(quinn_proto::ConnectError);

/// `quinn_proto::VarInt`: an integer below `2^62`.
#[verifier::external_type_specification]
#[verifier::external_body]
pub struct ExVarInt(quinn_proto::VarInt);

/// `quinn_proto::ConnectionError`: why a connection is lost.
#[verifier::external_type_specification]
#[verifier::external_body]
pub struct ExConnectionError(quinn_proto::ConnectionError);

/// `quinn_proto::StreamEvent`, with its variants.
#[verifier::external_type_specification]
pub struct ExStreamEvent(quinn_proto::StreamEvent);

/// `quinn_proto::Event`, with its variants.
#[verifier::external_type_specification]
pub struct ExEvent(quinn_proto::Event);

/// The integer in a `VarInt`.
pub uninterp spec fn varint_view(v: quinn_proto::VarInt) -> u64;

/// `VarInt::into_inner`: the integer itself.
#[verifier::external_body]
fn varint_into_inner(v: quinn_proto::VarInt) -> (r: u64)
    ensures
        r == varint_view(v),
{
    v.into_inner()
}

/// The bound on integers that quic can carry.
pub open spec fn varint_bound() -> int {
    0x4000_0000_0000_0000
}

/// `VarInt::from_u64`: succeeds if and only if the integer is below `2^62`.
#[verifier::external_body]
pub(crate) fn varint_from_u64(x: u64) -> (r: Option<quinn_proto::VarInt>)
    ensures
        x < varint_bound() ==> r is Some && varint_view(r->0) == x,
        x >= varint_bound() ==> r is None,
{
    quinn_proto::VarInt::from_u64(x).ok()
}

/// The text of a reason.
pub uninterp spec fn reason_view(reason: quinn_proto::ConnectionError) -> Seq<char>;

/// `ConnectionError` as text.
#[verifier::external_body]
fn reason_text(reason: quinn_proto::ConnectionError) -> (r: String)
    ensures
        r@ == reason_view(reason),
{
    format!("{}", reason)
}

/// A direction of quinn-proto, as the library has it.
pub open spec fn spec_dir(dir: quinn_proto::Dir) -> StreamDir {
    match dir {
        quinn_proto::Dir::Bi => StreamDir::Bi,
        quinn_proto::Dir::Uni => StreamDir::Uni,
    }
}

/// An event of quinn-proto on a stream, as the library has it.
pub open spec fn spec_stream_event(evt: quinn_proto::StreamEvent) -> ConStreamEvent {
    match evt {
        quinn_proto::StreamEvent::Opened { dir } => ConStreamEvent::Opened(spec_dir(dir)),
        quinn_proto::StreamEvent::Readable { id } => ConStreamEvent::Readable(id.0),
        quinn_proto::StreamEvent::Writable { id } => ConStreamEvent::Writable(id.0),
        quinn_proto::StreamEvent::Finished { id } => ConStreamEvent::Finished(id.0),
        quinn_proto::StreamEvent::Stopped { id, error_code } => ConStreamEvent::Stopped(
            id.0,
            varint_view(error_code),
        ),
        quinn_proto::StreamEvent::Available { dir } => ConStreamEvent::Available(spec_dir(dir)),
    }
}

/// Whether the library's event says what the event of quinn-proto says.
pub open spec fn says_same(evt: quinn_proto::Event, r: ConEvent) -> bool {
    match evt {
        quinn_proto::Event::HandshakeDataReady => r is HandshakeDataReady,
        quinn_proto::Event::Connected => r is Connected,
        quinn_proto::Event::ConnectionLost { reason } => {
            &&& r matches ConEvent::ConnectionLost(text)
            &&& text@ == reason_view(reason)
        },
        quinn_proto::Event::Stream(evt) => r == ConEvent::Stream(spec_stream_event(evt)),
        quinn_proto::Event::DatagramReceived => r is DatagramReceived,
    }
}

/// A direction of quinn-proto, as the library has it.
pub fn dir_from(dir: quinn_proto::Dir) -> (r: StreamDir)
    ensures
        r == spec_dir(dir),
{
    match dir {
        quinn_proto::Dir::Bi => StreamDir::Bi,
        quinn_proto::Dir::Uni => StreamDir::Uni,
    }
}

/// An event of quinn-proto on a stream, as the library has it.
pub fn stream_event_from(evt: quinn_proto::StreamEvent) -> (r: ConStreamEvent)
    ensures
        r == spec_stream_event(evt),
{
    match evt {
        quinn_proto::StreamEvent::Opened { dir } => ConStreamEvent::Opened(dir_from(dir)),
        quinn_proto::StreamEvent::Readable { id } => ConStreamEvent::Readable(id.0),
        quinn_proto::StreamEvent::Writable { id } => ConStreamEvent::Writable(id.0),
        quinn_proto::StreamEvent::Finished { id } => ConStreamEvent::Finished(id.0),
        quinn_proto::StreamEvent::Stopped { id, error_code } => ConStreamEvent::Stopped(
            id.0,
            varint_into_inner(error_code),
        ),
        quinn_proto::StreamEvent::Available { dir } => ConStreamEvent::Available(dir_from(dir)),
    }
}

/// An event of quinn-proto on a connection, as the library has it.
pub fn con_event_from(evt: quinn_proto::Event) -> (r: ConEvent)
    ensures
        says_same(evt, r),
{
    match evt {
        quinn_proto::Event::HandshakeDataReady => ConEvent::HandshakeDataReady,
        quinn_proto::Event::Connected => ConEvent::Connected,
        quinn_proto::Event::ConnectionLost { reason } => ConEvent::ConnectionLost(
            reason_text(reason),
        ),
        quinn_proto::Event::Stream(evt) => ConEvent::Stream(stream_event_from(evt)),
        quinn_proto::Event::DatagramReceived => ConEvent::DatagramReceived,
    }
}

/// `Instant::now`: nothing is claimed of the moment.
#[verifier::external_body]
pub(crate) fn now() -> (r: Instant) {
    Instant::now()
}

/// `Instant::elapsed`: how many milliseconds ago it was, of which nothing is
/// claimed.
#[verifier::external_body]
pub(crate) fn elapsed_ms(start: &Instant) -> (r: u128) {
    start.elapsed().as_millis()
}

/// How much time lies between two moments.
pub uninterp spec fn span(base: Instant, at: Instant) -> Duration;

/// How many nanoseconds a span of time lasts.
pub uninterp spec fn span_nanos(time: Duration) -> u128;

/// `Instant::saturating_duration_since`: the time from `base` to `at`, none
/// where `at` comes first.
#[verifier::external_body]
pub(crate) fn span_between(base: &Instant, at: Instant) -> (r: Duration)
    ensures
        r == span(*base, at),
{
    at.saturating_duration_since(*base)
}

/// `Duration::as_nanos`: how many nanoseconds it lasts.
#[verifier::external_body]
pub(crate) fn as_nanos(time: &Duration) -> (r: u128)
    ensures
        r == span_nanos(*time),
{
    time.as_nanos()
}

/// Whether a stream number names a stream of this direction.
pub open spec fn has_dir(id: u64, dir: StreamDir) -> bool {
    (id / 2) % 2 == (if dir is Uni {
        1u64
    } else {
        0u64
    })
}

/// Whether the side that made the connection also opened the stream with this
/// number.
pub open spec fn by_client(id: u64) -> bool {
    id % 2 == 0
}

/// Whether the stream with this number can be read, by the side that made the
/// connection or by the other.
pub open spec fn can_read(client: bool, id: u64) -> bool {
    has_dir(id, StreamDir::Bi) || by_client(id) != client
}

/// Whether the stream with this number can be written, by the side that made
/// the connection or by the other.
pub open spec fn can_write(client: bool, id: u64) -> bool {
    has_dir(id, StreamDir::Bi) || by_client(id) == client
}

/// The law of the two sides of a stream: what one side can write is what the
/// other can read, each can do one of the two at least, and both exactly where
/// the stream goes both ways.
pub proof fn law_stream_sides(client: bool, id: u64)
    ensures
        can_read(client, id) == can_write(!client, id),
        can_read(client, id) || can_write(client, id),
        can_read(client, id) && can_write(client, id) <==> has_dir(id, StreamDir::Bi),
{
}

/// Whether this side made the connection.
pub uninterp spec fn con_client(con: quinn_proto::Connection) -> bool;

/// `Connection::side`: whether this side made the connection.
#[verifier::external_body]
pub(crate) fn con_is_client(con: &Connection) -> (r: bool)
    ensures
        r == con_client(*con),
{
    con.side().is_client()
}

/// `Connection::recv_stream`: the half of a stream that is read. The call panics
/// on a stream that only the other side reads. Who made the connection stays the
/// same.
#[verifier::external_body]
pub(crate) fn con_recv_stream<'a>(con: &'a mut Connection, id: u64) -> (r:
    quinn_proto::RecvStream<'a>)
    requires
        can_read(con_client(*old(con)), id),
    ensures
        con_client(*final(con)) == con_client(*old(con)),
{
    con.recv_stream(quinn_proto::StreamId(id))
}

/// `Connection::send_stream`: the half of a stream that is written. The call
/// panics on a stream that only the other side writes. Who made the connection
/// stays the same.
#[verifier::external_body]
pub(crate) fn con_send_stream<'a>(con: &'a mut Connection, id: u64) -> (r:
    quinn_proto::SendStream<'a>)
    requires
        can_write(con_client(*old(con)), id),
    ensures
        con_client(*final(con)) == con_client(*old(con)),
{
    con.send_stream(quinn_proto::StreamId(id))
}

/// `Connection::handle_timeout`: the connection does what is due at the time
/// `now`. What that is stays inside of it.
#[verifier::external_body]
pub(crate) fn con_handle_timeout(con: &mut Connection, now: Instant) {
    con.handle_timeout(now)
}

/// `Connection::poll_timeout`: when the connection has to be told of the time
/// next, if ever. That depends on what the connection has been through, so
/// nothing is claimed of the result.
#[verifier::external_body]
pub(crate) fn con_poll_timeout(con: &mut Connection) -> (r: Option<Instant>) {
    con.poll_timeout()
}

/// `Connection::is_drained`: whether the connection is done with. That depends
/// on what it has been through, so nothing is claimed of the result.
#[verifier::external_body]
pub(crate) fn con_is_drained(con: &Connection) -> (r: bool) {
    con.is_drained()
}

/// `Connection::is_closed`: whether the connection is closed. That depends on
/// what it has been through, so nothing is claimed of the result.
#[verifier::external_body]
pub(crate) fn con_is_closed(con: &Connection) -> (r: bool) {
    con.is_closed()
}

/// `Connection::close`: the connection is closed, and the other side is told
/// the code and the reason. What that changes stays inside of it.
#[verifier::external_body]
pub(crate) fn con_close(con: &mut Connection, now: Instant, code: VarInt, reason: Bytes) {
    con.close(now, code, reason)
}

/// The handles of the connections that an endpoint knows.
pub uninterp spec fn ep_handles(endpoint: quinn_proto::Endpoint) -> Set<usize>;

/// Whether an event of a connection says that the connection is done with.
pub uninterp spec fn evt_drained(evt: quinn_proto::EndpointEvent) -> bool;

/// The text of a `ConnectError`.
pub uninterp spec fn connect_error_view(err: quinn_proto::ConnectError) -> Seq<char>;

/// `ConnectError` as text.
#[verifier::external_body]
pub(crate) fn connect_error_text(err: quinn_proto::ConnectError) -> (r: String)
    ensures
        r@ == connect_error_view(err),
{
    format!("{}", err)
}

/// `EndpointEvent::is_drained`: whether the connection is done with.
#[verifier::external_body]
pub(crate) fn evt_is_drained(evt: &EndpointEvent) -> (r: bool)
    ensures
        r == evt_drained(*evt),
{
    evt.is_drained()
}

/// `Endpoint::new`: an endpoint that knows no connection yet. Of what it draws
/// at random nothing is claimed.
#[verifier::external_body]
pub(crate) fn ep_new(
    config: Arc<quinn_proto::EndpointConfig>,
    server_config: Option<Arc<quinn_proto::ServerConfig>>,
) -> (r: Endpoint)
    ensures
        ep_handles(r) == Set::<usize>::empty(),
{
    quinn_proto::Endpoint::new(config, server_config)
}

/// `Endpoint::poll_transmit`: the next packet to send, if any. Which one it is
/// depends on what the endpoint has been through, so nothing is claimed of the
/// result; the endpoint knows the same connections as before.
#[verifier::external_body]
pub(crate) fn ep_poll_transmit(endpoint: &mut Endpoint) -> (r: Option<Transmit>)
    ensures
        ep_handles(*final(endpoint)) == ep_handles(*old(endpoint)),
{
    endpoint.poll_transmit()
}

/// `Endpoint::handle`: what the endpoint makes of a packet, if anything. That
/// depends on what it has been through and on chance, so no more is claimed
/// than that it knows one connection more, under a new handle, where the packet
/// means one, and else the same as before.
#[verifier::external_body]
pub(crate) fn ep_handle(
    endpoint: &mut Endpoint,
    now: Instant,
    remote: core::net::SocketAddr,
    local_ip: Option<core::net::IpAddr>,
    ecn: Option<quinn_proto::EcnCodepoint>,
    data: bytes::BytesMut,
) -> (r: Option<PacketMeans<Connection, ConnectionEvent>>)
    ensures
        match r {
            Some(PacketMeans::NewCon(hnd, _)) => {
                &&& !ep_handles(*old(endpoint)).contains(hnd)
                &&& ep_handles(*final(endpoint)) == ep_handles(*old(endpoint)).insert(hnd)
            },
            _ => ep_handles(*final(endpoint)) == ep_handles(*old(endpoint)),
        },
{
    let (ch, evt) = endpoint.handle(now, remote, local_ip, ecn, data)?;
    Some(match evt {
        quinn_proto::DatagramEvent::ConnectionEvent(evt) => PacketMeans::ConEvt(ch.0, evt),
        quinn_proto::DatagramEvent::NewConnection(con) => PacketMeans::NewCon(ch.0, con),
    })
}

/// `Endpoint::connect`: a connection to the server of this name at this
/// address, under a new handle, or why there is none. Whether there is one
/// depends on what the endpoint has been through and on the configuration, so
/// no more is claimed of the result.
#[verifier::external_body]
pub(crate) fn ep_connect(
    endpoint: &mut Endpoint,
    config: &quinn_proto::ClientConfig,
    remote: core::net::SocketAddr,
    server_name: &str,
) -> (r: Result<(usize, Connection), quinn_proto::ConnectError>)
    ensures
        match r {
            Ok((hnd, _)) => {
                &&& !ep_handles(*old(endpoint)).contains(hnd)
                &&& ep_handles(*final(endpoint)) == ep_handles(*old(endpoint)).insert(hnd)
            },
            Err(_) => ep_handles(*final(endpoint)) == ep_handles(*old(endpoint)),
        },
{
    endpoint.connect(config.clone(), remote, server_name).map(|(ch, con)| (ch.0, con))
}

/// `Endpoint::handle_event`: the endpoint takes up an event of the connection
/// `hnd`, and may have one for it in return. It panics on a connection that it
/// does not know; one that is done with it knows no more. What it returns
/// depends on what it has been through, so no more is claimed.
#[verifier::external_body]
pub(crate) fn ep_handle_event(endpoint: &mut Endpoint, hnd: usize, evt: EndpointEvent) -> (r:
    Option<ConnectionEvent>)
    requires
        ep_handles(*old(endpoint)).contains(hnd),
    ensures
        ep_handles(*final(endpoint)) == (if evt_drained(evt) {
            ep_handles(*old(endpoint)).remove(hnd)
        } else {
            ep_handles(*old(endpoint))
        }),
{
    endpoint.handle_event(quinn_proto::ConnectionHandle(hnd), evt)
}

/// The address of the other side of a connection.
pub uninterp spec fn con_remote(con: quinn_proto::Connection) -> core::net::SocketAddr;

/// `Connection::remote_address`: the address of the other side, as the
/// connection has it.
#[verifier::external_body]
pub(crate) fn con_remote_address(con: &Connection) -> (r: core::net::SocketAddr)
    ensures
        r == con_remote(*con),
{
    con.remote_address()
}

/// `Connection::poll`: the next event, if any. Which one it is depends on what
/// the connection has been through, so nothing is claimed of the result.
#[verifier::external_body]
pub(crate) fn con_poll(con: &mut Connection) -> (r: Option<quinn_proto::Event>) {
    con.poll()
}

/// `Connection::poll_transmit`: the next packet to send, if any, of at most
/// `max_datagrams` datagrams. The call panics on zero. Which packet it is
/// depends on what the connection has been through, so nothing is claimed of
/// the result.
#[verifier::external_body]
pub(crate) fn con_poll_transmit(con: &mut Connection, now: Instant, max_datagrams: usize) -> (r:
    Option<Transmit>)
    requires
        max_datagrams > 0,
{
    con.poll_transmit(now, max_datagrams)
}

/// `Connection::poll_endpoint_events`: the next event for the endpoint, if
/// any. Which one it is depends on what the connection has been through, so
/// nothing is claimed of the result.
#[verifier::external_body]
pub(crate) fn con_poll_endpoint_events(con: &mut Connection) -> (r: Option<EndpointEvent>) {
    con.poll_endpoint_events()
}

/// `Connection::handle_event`: the connection takes up an event of its
/// endpoint. What that changes stays inside of it.
#[verifier::external_body]
pub(crate) fn con_handle_event(con: &mut Connection, evt: ConnectionEvent) {
    con.handle_event(evt)
}

/// `Streams::open`: a new stream of the direction asked for, if one can be
/// opened now. Whether one can depends on the connection.
#[verifier::external_body]
pub(crate) fn con_open(con: &mut Connection, dir: StreamDir) -> (r: Option<u64>)
    ensures
        r matches Some(id) ==> has_dir(id, dir),
{
    let dir = match dir {
        StreamDir::Bi => quinn_proto::Dir::Bi,
        StreamDir::Uni => quinn_proto::Dir::Uni,
    };
    con.streams().open(dir).map(|id| id.0)
}

/// `Streams::accept`: the next stream of the direction asked for that the
/// other side opened, if any. Whether there is one depends on the connection.
#[verifier::external_body]
pub(crate) fn con_accept(con: &mut Connection, dir: StreamDir) -> (r: Option<u64>)
    ensures
        r matches Some(id) ==> has_dir(id, dir),
{
    let dir = match dir {
        StreamDir::Bi => quinn_proto::Dir::Bi,
        StreamDir::Uni => quinn_proto::Dir::Uni,
    };
    con.streams().accept(dir).map(|id| id.0)
}

/// `Datagrams::recv`: the next datagram, if any. What it holds depends on the
/// other side, so nothing is claimed of the result.
#[verifier::external_body]
pub(crate) fn con_recv_datagram(con: &mut Connection) -> (r: Option<Bytes>) {
    con.datagrams().recv()
}

/// The law of events on streams: an event is of the kind that quinn-proto says,
/// about the stream that it says, and a stop has the code that it says.
pub proof fn law_stream_event(evt: quinn_proto::StreamEvent, n: u64, code: u64)
    ensures
        ({
            let r = spec_stream_event(evt);
            &&& r == ConStreamEvent::Readable(n) <==> (
            evt matches quinn_proto::StreamEvent::Readable { id } && id.0 == n)
            &&& r == ConStreamEvent::Writable(n) <==> (
            evt matches quinn_proto::StreamEvent::Writable { id } && id.0 == n)
            &&& r == ConStreamEvent::Finished(n) <==> (
            evt matches quinn_proto::StreamEvent::Finished { id } && id.0 == n)
            &&& r == ConStreamEvent::Stopped(n, code) <==> (
            evt matches quinn_proto::StreamEvent::Stopped { id, error_code } && id.0 == n
                && varint_view(error_code) == code)
            &&& r == ConStreamEvent::Opened(StreamDir::Uni) <==> (
            evt matches quinn_proto::StreamEvent::Opened { dir } && dir is Uni)
            &&& r == ConStreamEvent::Opened(StreamDir::Bi) <==> (
            evt matches quinn_proto::StreamEvent::Opened { dir } && dir is Bi)
            &&& r == ConStreamEvent::Available(StreamDir::Uni) <==> (
            evt matches quinn_proto::StreamEvent::Available { dir } && dir is Uni)
            &&& r == ConStreamEvent::Available(StreamDir::Bi) <==> (
            evt matches quinn_proto::StreamEvent::Available { dir } && dir is Bi)
        }),
{
}

/// The law of events: an event is of the kind that quinn-proto says, with the
/// text of the reason or the event of the stream that it says.
pub proof fn law_event(evt: quinn_proto::Event, r: ConEvent)
    requires
        says_same(evt, r),
    ensures
        r is HandshakeDataReady <==> evt is HandshakeDataReady,
        r is Connected <==> evt is Connected,
        r is DatagramReceived <==> evt is DatagramReceived,
        r is ConnectionLost <==> evt is ConnectionLost,
        r is Stream <==> evt is Stream,
        evt matches quinn_proto::Event::ConnectionLost { reason } ==> {
            &&& r matches ConEvent::ConnectionLost(text)
            &&& text@ == reason_view(reason)
        },
        evt matches quinn_proto::Event::Stream(e) ==> r == ConEvent::Stream(spec_stream_event(e)),
{
}

/// The law of numbers: the lowest bit of a number says which side opened the
/// stream, the next one whether it goes one way. The side that opened a stream
/// that goes one way writes it, and only the other reads it.
pub proof fn law_stream_numbers(id: u64)
    ensures
        id % 4 == 0 || id % 4 == 1 ==> {
            &&& has_dir(id, StreamDir::Bi) && !has_dir(id, StreamDir::Uni)
            &&& can_read(true, id) && can_write(true, id)
            &&& can_read(false, id) && can_write(false, id)
        },
        id % 4 == 2 ==> {
            &&& has_dir(id, StreamDir::Uni) && !has_dir(id, StreamDir::Bi)
            &&& can_write(true, id) && !can_read(true, id)
            &&& can_read(false, id) && !can_write(false, id)
        },
        id % 4 == 3 ==> {
            &&& has_dir(id, StreamDir::Uni) && !has_dir(id, StreamDir::Bi)
            &&& can_write(false, id) && !can_read(false, id)
            &&& can_read(true, id) && !can_write(true, id)
        },
{
}

} // verus!
