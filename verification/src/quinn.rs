//! Quic backend powered by quinn-proto: what its endpoint and connection
//! drivers decide.
use vstd::prelude::*;

pub mod calls;
pub mod command;
pub mod con_cmd;
pub mod con_poll;
pub mod con_turn;
pub mod connection;
pub mod drain;
pub mod endpoint;
pub mod connections;
pub mod ep;
pub mod ep_cmd;
pub mod ep_evt;
pub mod ep_transmit;
pub mod out;
pub mod packets;
pub mod proto;
pub mod stream;
pub mod stream_io;
pub mod streams;
pub mod udp_in;
pub mod transmit;

verus! {

/// How a driver wants to go on.
#[derive(Clone, Copy)]
pub struct Wish {
    /// it stopped before it was through
    pub more_work: bool,
    /// there is nothing left for it to do, ever
    pub want_close: bool,
}

/// How many rounds a driver makes before it lets others have their turn.
pub const ROUNDS: u8 = 32;

/// The buffer size for channels between endpoint and connections.
pub const CHAN_CAP: u8 = 64;

/// The buffer size for read and write streams.
pub const BYTES_CAP: usize = 65536;

/// In the absence of a better provider, this default will disable
/// gso, by always just returning `1`
pub fn disable_gso_provider() -> (p: impl Fn() -> usize)
    ensures
        call_requires(p, ()),
        forall|n: usize| call_ensures(p, (), n) ==> n == 1,
{
    || -> (n: usize)
        ensures
            n == 1,
        { 1 }
}

} // verus!
