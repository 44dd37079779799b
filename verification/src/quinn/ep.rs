//! An endpoint of quinn-proto, with the connections that it knows.
use super::proto;
use super::proto::connect_error_text;
use super::proto::ep_connect;
use super::proto::ep_handle;
use super::proto::ep_handle_event;
use super::proto::ep_new;
use super::proto::ep_poll_transmit;
use super::proto::evt_is_drained;
use super::proto::now;
use super::udp_in::PacketMeans;
use crate::backend;
use crate::backend::ecn_codepoint;
use crate::backend::InUdpPacket;
use crate::error::AqErr;
use crate::error::AqResult;
use bytes::BytesMut;
use quinn_proto::ClientConfig;
use quinn_proto::ConnectError;
use quinn_proto::Connection;
use quinn_proto::ConnectionEvent;
use quinn_proto::EcnCodepoint;
use quinn_proto::Endpoint;
use quinn_proto::EndpointConfig;
use quinn_proto::EndpointEvent;
use quinn_proto::ServerConfig;
use quinn_proto::Transmit;
use std::collections::HashSet;
use std::sync::Arc;
use std::time::Instant;
use vstd::prelude::*;

verus! {

broadcast use vstd::std_specs::hash::group_hash_axioms;

/// A packet that came over a socket.
pub type InPacket = InUdpPacket<core::net::SocketAddr, core::net::IpAddr, BytesMut>;

/// A call of an endpoint, with what went into it and what it gave.
pub enum EpCall {
    /// handle a packet at this time
    Handle(Instant, InPacket, Option<PacketMeans<Connection, ConnectionEvent>>),
    /// connect to the server of this name at this address
    Connect(ClientConfig, core::net::SocketAddr, Seq<char>, Result<(usize, Connection), ConnectError>),
    /// take up an event of this connection
    HandleEvent(usize, EndpointEvent, Option<ConnectionEvent>),
    /// the next packet to send
    PollTransmit(Option<Transmit>),
}

/// Whether the call was made of the endpoint behind `ep`: what that is before
/// and after is what the call found and what it left.
pub closed spec fn made(ep: &mut Endpoint, call: EpCall) -> bool {
    match call {
        EpCall::Handle(now, packet, r) => call_ensures(
            ep_handle,
            (
                ep,
                now,
                packet.src_addr,
                packet.dst_ip,
                backend::spec_codepoint(packet.ecn),
                packet.data,
            ),
            r,
        ),
        EpCall::Connect(config, remote, name, r) => exists|server_name: &str|
            server_name@ == name && #[trigger] call_ensures(
                ep_connect,
                (ep, &config, remote, server_name),
                r,
            ),
        EpCall::HandleEvent(hnd, evt, r) => call_ensures(ep_handle_event, (ep, hnd, evt), r),
        EpCall::PollTransmit(r) => call_ensures(ep_poll_transmit, (ep,), r),
    }
}

/// Whether an endpoint was made with these configurations.
pub closed spec fn begun(
    config: Arc<EndpointConfig>,
    server_config: Option<Arc<ServerConfig>>,
    endpoint: Endpoint,
) -> bool {
    call_ensures(ep_new, (config, server_config), endpoint)
}

/// What the calls come to, as evidence.
proof fn lemma_made()
    ensures
        forall|
            ep: &mut Endpoint,
            config: ClientConfig,
            remote: core::net::SocketAddr,
            name: &str,
            r: Result<(usize, Connection), ConnectError>,
        | #[trigger]
            call_ensures(ep_connect, (ep, &config, remote, name), r) ==> made(
                ep,
                EpCall::Connect(config, remote, name@, r),
            ),
        forall|ep: &mut Endpoint, hnd: usize, evt: EndpointEvent, r: Option<ConnectionEvent>|
            #[trigger]
            call_ensures(ep_handle_event, (ep, hnd, evt), r) ==> made(
                ep,
                EpCall::HandleEvent(hnd, evt, r),
            ),
        forall|ep: &mut Endpoint, r: Option<Transmit>| #[trigger]
            call_ensures(ep_poll_transmit, (ep,), r) ==> made(ep, EpCall::PollTransmit(r)),
{
}

/// What handling a packet comes to, as evidence.
proof fn lemma_handled(now: Instant, packet: InPacket)
    ensures
        forall|
            ep: &mut Endpoint,
            ecn: Option<EcnCodepoint>,
            r: Option<PacketMeans<Connection, ConnectionEvent>>,
        |
            ecn == backend::spec_codepoint(packet.ecn) && #[trigger] call_ensures(
                ep_handle,
                (ep, now, packet.src_addr, packet.dst_ip, ecn, packet.data),
                r,
            ) ==> made(ep, EpCall::Handle(now, packet, r)),
{
}

/// Whether `r` says what came of an attempt to connect.
pub open spec fn says_connect(
    got: Result<(usize, Connection), ConnectError>,
    r: AqResult<(usize, Connection)>,
) -> bool {
    match got {
        Ok(con) => r == Ok::<(usize, Connection), AqErr>(con),
        Err(err) => r matches Err(AqErr::Other(text)) && text@ == proto::connect_error_view(err),
    }
}

/// Say what came of an attempt to connect.
pub fn connect_said(got: Result<(usize, Connection), ConnectError>) -> (r: AqResult<
    (usize, Connection),
>)
    ensures
        says_connect(got, r),
{
    match got {
        Ok(con) => Ok(con),
        Err(err) => Err(AqErr::Other(connect_error_text(err))),
    }
}

/// Whether the clock said that it is this time.
pub closed spec fn clock(time: Instant) -> bool {
    call_ensures(now, (), time)
}

/// What time it is, as the clock has it.
pub(crate) fn clock_now() -> (r: Instant)
    ensures
        clock(r),
{
    now()
}

/// An endpoint, and the handles of the connections that it knows.
pub struct QuinnEndpoint {
    /// the endpoint
    pub endpoint: Endpoint,
    /// the connections that it knows
    pub handles: HashSet<usize>,
}

impl QuinnEndpoint {
    /// The handles are those of the connections that the endpoint knows.
    pub open spec fn wf(self) -> bool {
        self.handles@ == proto::ep_handles(self.endpoint)
    }

    /// An endpoint that knows no connection yet.
    pub fn new(config: Arc<EndpointConfig>, server_config: Option<Arc<ServerConfig>>) -> (r: Self)
        ensures
            r.wf(),
            r.handles@ == Set::<usize>::empty(),
            begun(config, server_config, r.endpoint),
    {
        QuinnEndpoint { endpoint: ep_new(config, server_config), handles: HashSet::new() }
    }

    /// Whether the endpoint knows a connection with this handle.
    pub fn knows(&self, hnd: usize) -> (r: bool)
        ensures
            r == self.handles@.contains(hnd),
    {
        self.handles.contains(&hnd)
    }

    /// Let the endpoint handle a packet.
    pub fn handle(&mut self, now: Instant, packet: InPacket) -> (r: Option<
        PacketMeans<Connection, ConnectionEvent>,
    >)
        requires
            old(self).wf(),
        ensures
            final(self).wf(),
            exists|a: &mut Endpoint|
                {
                    &&& *a == old(self).endpoint
                    &&& *final(a) == final(self).endpoint
                    &&& #[trigger] made(a, EpCall::Handle(now, packet, r))
                },
            final(self).handles@ == (match r {
                Some(PacketMeans::NewCon(hnd, _)) => old(self).handles@.insert(hnd),
                _ => old(self).handles@,
            }),
    {
        proof {
            lemma_handled(now, packet);
        }
        let InUdpPacket { src_addr, dst_ip, ecn, data } = packet;
        let ecn = ecn_codepoint(ecn);
        let r = ep_handle(&mut self.endpoint, now, src_addr, dst_ip, ecn, data);
        if let Some(PacketMeans::NewCon(hnd, _)) = &r {
            self.handles.insert(*hnd);
        }
        r
    }

    /// Let the endpoint connect to the server of this name at this address.
    pub fn connect(
        &mut self,
        config: &ClientConfig,
        remote: core::net::SocketAddr,
        server_name: &str,
    ) -> (r: Result<(usize, Connection), ConnectError>)
        requires
            old(self).wf(),
        ensures
            final(self).wf(),
            exists|a: &mut Endpoint|
                {
                    &&& *a == old(self).endpoint
                    &&& *final(a) == final(self).endpoint
                    &&& #[trigger] made(a, EpCall::Connect(*config, remote, server_name@, r))
                },
            final(self).handles@ == (match r {
                Ok((hnd, _)) => old(self).handles@.insert(hnd),
                Err(_) => old(self).handles@,
            }),
    {
        proof {
            lemma_made();
        }
        let r = ep_connect(&mut self.endpoint, config, remote, server_name);
        if let Ok((hnd, _)) = &r {
            self.handles.insert(*hnd);
        }
        r
    }

    /// Let the endpoint take up an event of a connection that it knows.
    pub fn handle_event(&mut self, hnd: usize, evt: EndpointEvent) -> (r: Option<ConnectionEvent>)
        requires
            old(self).wf(),
            old(self).handles@.contains(hnd),
        ensures
            final(self).wf(),
            exists|a: &mut Endpoint|
                {
                    &&& *a == old(self).endpoint
                    &&& *final(a) == final(self).endpoint
                    &&& #[trigger] made(a, EpCall::HandleEvent(hnd, evt, r))
                },
            final(self).handles@ == (if proto::evt_drained(evt) {
                old(self).handles@.remove(hnd)
            } else {
                old(self).handles@
            }),
    {
        proof {
            lemma_made();
        }
        let drained = evt_is_drained(&evt);
        let r = ep_handle_event(&mut self.endpoint, hnd, evt);
        if drained {
            self.handles.remove(&hnd);
        }
        r
    }

    /// Ask the endpoint for a packet to send.
    pub fn poll_transmit(&mut self) -> (r: Option<Transmit>)
        requires
            old(self).wf(),
        ensures
            final(self).wf(),
            final(self).handles@ == old(self).handles@,
            exists|a: &mut Endpoint|
                {
                    &&& *a == old(self).endpoint
                    &&& *final(a) == final(self).endpoint
                    &&& #[trigger] made(a, EpCall::PollTransmit(r))
                },
    {
        proof {
            lemma_made();
        }
        ep_poll_transmit(&mut self.endpoint)
    }
}

/// The law of what came of an attempt to connect: who asked gets the connection
/// that was made, under its handle, and otherwise the text of the error.
pub proof fn law_says_connect(
    got: Result<(usize, Connection), ConnectError>,
    r: AqResult<(usize, Connection)>,
)
    requires
        says_connect(got, r),
    ensures
        r is Ok <==> got is Ok,
        r matches Ok((hnd, con)) ==> got == Ok::<(usize, Connection), ConnectError>((hnd, con)),
        got matches Err(err) ==> {
            &&& r matches Err(AqErr::Other(text))
            &&& text@ == proto::connect_error_view(err)
        },
{
}

} // verus!
