//! Endpoint types
use crate::error::AqErr;
use vstd::prelude::*;

verus! {

/// Send a control command to the endpoint backend implementation. `L` and `S`
/// take the answers, `A` is an address.
pub enum EndpointCmd<L, S, A> {
    /// Get the local addr this endpoint is bound to
    GetLocalAddress(L),
    /// Attempt to establish a new outgoing connection
    Connect {
        /// Resp sender for the result of the connection attempt
        sender: S,
        /// The address to connect to
        addr: A,
        /// The server name to connect to
        server_name: String,
    },
}

/// Events related to a quic endpoint. `C` is a connection, `R` receives its
/// events.
pub enum EndpointEvt<C, R> {
    /// Endpoint error, the endpoint will no longer function
    Error(AqErr),
    /// Incoming connection
    InConnection(C, R),
}

} // verus!
