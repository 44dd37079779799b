//! Packets on their way out, as quinn-proto and as sockets have them.
use crate::backend;
use crate::backend::ecn_code;
use crate::backend::ecn_codepoint;
use crate::backend::OutUdpPacket;
use quinn_proto::Transmit;
use vstd::prelude::*;

verus! {

/// A packet to send over a socket.
pub type OutPacket = OutUdpPacket<core::net::SocketAddr, core::net::IpAddr>;

/// A packet of quinn-proto as sockets have it.
pub open spec fn as_out(packet: Transmit) -> OutPacket {
    OutUdpPacket {
        dst_addr: packet.destination,
        src_ip: packet.src_ip,
        segment_size: packet.segment_size,
        ecn: match packet.ecn {
            Some(ecn) => Some(backend::spec_code(ecn)),
            None => None,
        },
        data: packet.contents,
    }
}

/// A packet to send as quinn-proto has it: of the byte of the congestion
/// notification only the lowest two bits count.
pub open spec fn as_transmit(packet: OutPacket) -> Transmit {
    Transmit {
        destination: packet.dst_addr,
        ecn: backend::spec_codepoint(packet.ecn),
        contents: packet.data,
        segment_size: packet.segment_size,
        src_ip: packet.src_ip,
    }
}

/// A packet of quinn-proto, if there is one, as sockets have it.
pub open spec fn maybe_out(packet: Option<Transmit>) -> Option<OutPacket> {
    match packet {
        Some(packet) => Some(as_out(packet)),
        None => None,
    }
}

/// A packet of quinn-proto as sockets have it.
pub fn out_packet(packet: Transmit) -> (r: OutPacket)
    ensures
        r == as_out(packet),
{
    OutUdpPacket {
        dst_addr: packet.destination,
        src_ip: packet.src_ip,
        segment_size: packet.segment_size,
        ecn: match packet.ecn {
            Some(ecn) => Some(ecn_code(ecn)),
            None => None,
        },
        data: packet.contents,
    }
}

/// A packet to send as quinn-proto has it.
pub fn transmit(packet: OutPacket) -> (r: Transmit)
    ensures
        r == as_transmit(packet),
{
    Transmit {
        destination: packet.dst_addr,
        ecn: ecn_codepoint(packet.ecn),
        contents: packet.data,
        segment_size: packet.segment_size,
        src_ip: packet.src_ip,
    }
}

/// The law of packets on their way out: a packet that goes from quinn-proto to a
/// socket arrives there as it was.
pub proof fn law_out(packet: Transmit)
    ensures
        as_transmit(as_out(packet)) == packet,
{
}

} // verus!
