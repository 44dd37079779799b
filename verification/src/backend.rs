//! Types for implementing udp backends
use quinn_proto::EcnCodepoint;
use vstd::prelude::*;

pub mod util;

verus! {

/// Outgoing Raw Udp Packet Struct. `A` is an address, `I` an ip.
///
/// Note, this type is currently a bit of a leaked abstraction,
/// but for efficiency reasons, we need it to be compatible
/// with the Transmit type in quinn-proto
pub struct OutUdpPacket<A, I> {
    /// Destination address
    pub dst_addr: A,
    /// Source ip
    pub src_ip: Option<I>,
    /// If this packet contains multiple datagrams
    pub segment_size: Option<usize>,
    /// Explicit congestion notification
    pub ecn: Option<u8>,
    /// The data to send
    pub data: Vec<u8>,
}

/// Incoming Raw Udp Packet Struct. `A` is an address, `I` an ip, `D` a buffer.
pub struct InUdpPacket<A, I, D> {
    /// Source address
    pub src_addr: A,
    /// Destination ip
    pub dst_ip: Option<I>,
    /// Explicit congestion notification
    pub ecn: Option<u8>,
    /// Packet data content
    pub data: D,
}

/// Commands requests for the udp backend socket. `S` takes the answer.
pub enum UdpBackendCmd<S> {
    /// Immediately shutdown the socket - data in flight may be lost
    CloseImmediate,
    /// Get the local address the udp backend socket is currently bound to
    GetLocalAddress(S),
}

/// Events emitted by the udp backend socket
pub enum UdpBackendEvt<A, I, D> {
    /// A udp packet was received by the udp backend socket
    InUdpPacket(InUdpPacket<A, I, D>),
}

/// `quinn_proto::EcnCodepoint`: one of three codepoints.
#[verifier::external_type_specification]
pub struct ExEcnCodepoint(quinn_proto::EcnCodepoint);

/// The number of a codepoint.
pub open spec fn spec_code(ecn: EcnCodepoint) -> u8 {
    match ecn {
        EcnCodepoint::Ect0 => 2,
        EcnCodepoint::Ect1 => 1,
        EcnCodepoint::Ce => 3,
    }
}

/// The codepoint that the lowest two bits of a byte stand for, none where both
/// are zero.
pub open spec fn spec_ecn(bits: u8) -> Option<EcnCodepoint> {
    if bits % 4 == 0 {
        None
    } else if bits % 4 == 1 {
        Some(EcnCodepoint::Ect1)
    } else if bits % 4 == 2 {
        Some(EcnCodepoint::Ect0)
    } else {
        Some(EcnCodepoint::Ce)
    }
}

/// The codepoint that a packet with this byte carries, if any.
pub open spec fn spec_codepoint(ecn: Option<u8>) -> Option<EcnCodepoint> {
    match ecn {
        Some(bits) => spec_ecn(bits),
        None => None,
    }
}

/// `EcnCodepoint::from_bits`: the codepoint that the lowest two bits of the byte
/// stand for, none where both are zero.
#[verifier::external_body]
fn ecn_from_bits(bits: u8) -> (r: Option<EcnCodepoint>)
    ensures
        r == spec_ecn(bits),
{
    EcnCodepoint::from_bits(bits)
}

/// The codepoint that a packet with this byte carries, if any.
pub fn ecn_codepoint(ecn: Option<u8>) -> (r: Option<EcnCodepoint>)
    ensures
        r == spec_codepoint(ecn),
{
    match ecn {
        Some(bits) => ecn_from_bits(bits),
        None => None,
    }
}

/// The number of a codepoint.
pub fn ecn_code(ecn: EcnCodepoint) -> (r: u8)
    ensures
        r == spec_code(ecn),
{
    match ecn {
        EcnCodepoint::Ect0 => 2,
        EcnCodepoint::Ect1 => 1,
        EcnCodepoint::Ce => 3,
    }
}

/// What a packet carries is one of three codepoints, and its number stands for
/// it again.
pub proof fn law_ecn_stable(bits: u8)
    ensures
        spec_ecn(bits) matches Some(ecn) ==> {
            &&& 1 <= spec_code(ecn) <= 3
            &&& spec_code(ecn) == bits % 4
            &&& spec_ecn(spec_code(ecn)) == Some(ecn)
        },
{
}

} // verus!
