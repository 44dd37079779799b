//! Errors of the library.
use vstd::prelude::*;

verus! {

/// What went wrong.
#[derive(Debug)]
pub enum AqErr {
    /// the other side of a channel is gone
    ChannelClosed,
    /// an event came that nobody was waiting for
    UnexpectedEvent,
    /// an event stream ended too early
    UnexpectedEof,
    /// the udp backend socket is gone
    SocketDisconnected,
    /// the udp socket has been closed
    SocketClosed,
    /// the endpoint task is gone
    EndpointClosed,
    /// the connection task is gone
    ConShutdown,
    /// the connection is going away and takes no new streams
    ConnectionClosing,
    /// an outgoing uni-directional stream is already waiting
    UniStreamPending,
    /// an outgoing bi-directional stream is already waiting
    BiStreamPending,
    /// a promised uni-directional stream could not be opened
    UniStreamFailed,
    /// a promised bi-directional stream could not be opened
    BiStreamFailed,
    /// no connection is registered under the handle
    InvalidConnectionHandle,
    /// the udp backend was told to close at once
    CloseImmediate,
    /// every part of the udp backend driver wants to close
    UdpDriverClosing,
    /// every part of the endpoint driver wants to close
    EpDriverClosing,
    /// every part of the connection driver wants to close
    ConDriverClosing,
    /// the events of a connection ended before it was connected
    AwaitingConnectedEnd,
    /// the other side stopped the stream, with this code
    Stopped(u64),
    /// any other error, by its message
    Other(String),
}

/// The decimal digits of a number.
pub open spec fn decimal(n: nat) -> Seq<char>
    decreases n,
{
    if n < 10 {
        seq![(48 + n) as char]
    } else {
        decimal(n / 10).push((48 + n % 10) as char)
    }
}

/// `u64::to_string`: the decimal digits, without sign or leading zeros.
#[verifier::external_body]
fn u64_to_string(n: u64) -> (r: String)
    ensures
        r@ == decimal(n as nat),
{
    n.to_string()
}

/// A result with the library's error.
pub type AqResult<T> = Result<T, AqErr>;

impl AqErr {
    /// The text of an error.
    pub open spec fn text(self) -> Seq<char> {
        match self {
            AqErr::ChannelClosed => "ChannelClosed"@,
            AqErr::UnexpectedEvent => "UnexpectedEvent"@,
            AqErr::UnexpectedEof => "UnexpectedEOF"@,
            AqErr::SocketDisconnected => "SocketDisconnected"@,
            AqErr::SocketClosed => "SocketClosed"@,
            AqErr::EndpointClosed => "EndpointClosed"@,
            AqErr::ConShutdown => "ConShutdown"@,
            AqErr::ConnectionClosing => "ConnectionClosing"@,
            AqErr::UniStreamPending =>
                "pending outgoing uni stream already registered, only call open_uni_stream from a single clone of the connection"@,
            AqErr::BiStreamPending =>
                "pending outgoing bi stream already registered, only call open_bi_stream from a single clone of the connection"@,
            AqErr::UniStreamFailed => "failed to open uni stream"@,
            AqErr::BiStreamFailed => "failed to open bi stream"@,
            AqErr::InvalidConnectionHandle => "InvalidConnectionHandle"@,
            AqErr::CloseImmediate => "CloseImmediate"@,
            AqErr::UdpDriverClosing => "QuinnUdpBackendDriverClosing"@,
            AqErr::EpDriverClosing => "QuinnEpDriverClosing"@,
            AqErr::ConDriverClosing => "QuinnConDriverClosing"@,
            AqErr::AwaitingConnectedEnd => "awaiting connected, got end of stream"@,
            AqErr::Stopped(code) => decimal(code as nat),
            AqErr::Other(msg) => msg@,
        }
    }

    /// The text of the error, to show to a user.
    pub fn message(&self) -> (r: String)
        ensures
            r@ == self.text(),
    {
        match self {
            AqErr::ChannelClosed => "ChannelClosed".to_string(),
            AqErr::UnexpectedEvent => "UnexpectedEvent".to_string(),
            AqErr::UnexpectedEof => "UnexpectedEOF".to_string(),
            AqErr::SocketDisconnected => "SocketDisconnected".to_string(),
            AqErr::SocketClosed => "SocketClosed".to_string(),
            AqErr::EndpointClosed => "EndpointClosed".to_string(),
            AqErr::ConShutdown => "ConShutdown".to_string(),
            AqErr::ConnectionClosing => "ConnectionClosing".to_string(),
            AqErr::UniStreamPending =>
                "pending outgoing uni stream already registered, only call open_uni_stream from a single clone of the connection".to_string(),
            AqErr::BiStreamPending =>
                "pending outgoing bi stream already registered, only call open_bi_stream from a single clone of the connection".to_string(),
            AqErr::UniStreamFailed => "failed to open uni stream".to_string(),
            AqErr::BiStreamFailed => "failed to open bi stream".to_string(),
            AqErr::InvalidConnectionHandle => "InvalidConnectionHandle".to_string(),
            AqErr::CloseImmediate => "CloseImmediate".to_string(),
            AqErr::UdpDriverClosing => "QuinnUdpBackendDriverClosing".to_string(),
            AqErr::EpDriverClosing => "QuinnEpDriverClosing".to_string(),
            AqErr::ConDriverClosing => "QuinnConDriverClosing".to_string(),
            AqErr::AwaitingConnectedEnd => "awaiting connected, got end of stream".to_string(),
            AqErr::Stopped(code) => u64_to_string(*code),
            AqErr::Other(msg) => msg.clone(),
        }
    }
}

/// An error that has no variant of its own, by its message.
pub fn other_err(error: String) -> (r: AqErr)
    ensures
        r == AqErr::Other(error),
        r.text() == error@,
{
    AqErr::Other(error)
}

/// The law of texts: an error that has no variant of its own shows the message
/// that it was made of, and a stop shows its code.
pub proof fn law_text(message: String, err: AqErr, code: u64)
    requires
        call_ensures(other_err, (message,), err),
    ensures
        err.text() == message@,
        AqErr::Stopped(code).text() == decimal(code as nat),
{
}

} // verus!
