//! Connection types
use crate::error::AqErr;
use crate::error::AqResult;
use bytes::Bytes;
use vstd::prelude::*;

verus! {

/// Send a control command to the connection backend implementation. `A`, `U`
/// and `B` take the answers.
pub enum ConnectionCmd<A, U, B> {
    /// Get the remote address of this connection
    GetRemoteAddress(A),
    /// Open a new outgoing uni-directional stream
    OpenUniStream(U),
    /// Open a new outgoing bi-directional stream
    OpenBiStream(B),
}

/// Events related to a quic connection; `R` and `W` are the user's ends of
/// streams.
pub enum ConnectionEvt<R, W> {
    /// Connection error, the connection will no longer function
    Error(AqErr),
    /// Handshake data is read
    HandshakeDataReady,
    /// Connection established
    Connected,
    /// Incoming uni-directional stream
    InUniStream(R),
    /// Incoming bi-directional stream
    InBiStream(W, R),
    /// Incoming un-ordered datagram
    InDatagram(Bytes),
}

/// What the next event of a connection, or the end of its events, says to
/// somebody who waits for it to be connected: `None` to wait on.
pub open spec fn wait_step<R, W>(evt: Option<ConnectionEvt<R, W>>) -> Option<AqResult<()>> {
    match evt {
        None => Some(Err(AqErr::UnexpectedEof)),
        Some(ConnectionEvt::HandshakeDataReady) => None,
        Some(ConnectionEvt::Connected) => Some(Ok(())),
        Some(_) => Some(Err(AqErr::UnexpectedEvent)),
    }
}

/// Wait for this connection to be connected: what its next event, or the end
/// of its events, says.
pub fn wait_connected<R, W>(evt: Option<ConnectionEvt<R, W>>) -> (r: Option<AqResult<()>>)
    ensures
        r == wait_step(evt),
{
    match evt {
        None => Some(Err(AqErr::UnexpectedEof)),
        Some(ConnectionEvt::HandshakeDataReady) => None,
        Some(ConnectionEvt::Connected) => Some(Ok(())),
        Some(_) => Some(Err(AqErr::UnexpectedEvent)),
    }
}

/// The answer to the wait, where `evts` are all events of the connection.
pub open spec fn wait_result<R, W>(evts: Seq<ConnectionEvt<R, W>>) -> AqResult<()>
    decreases evts.len(),
{
    if evts.len() == 0 {
        wait_step::<R, W>(None)->0
    } else {
        match wait_step(Some(evts.first())) {
            None => wait_result(evts.drop_first()),
            Some(answer) => answer,
        }
    }
}

/// The wait succeeds if and only if `Connected` comes and nothing but
/// `HandshakeDataReady` before it.
pub proof fn law_wait_connected<R, W>(evts: Seq<ConnectionEvt<R, W>>)
    ensures
        wait_result(evts) is Ok <==> exists|i: int|
            0 <= i < evts.len() && (#[trigger] evts[i]) is Connected && forall|j: int|
                0 <= j < i ==> (#[trigger] evts[j]) is HandshakeDataReady,
    decreases evts.len(),
{
    if evts.len() > 0 {
        let rest = evts.drop_first();
        law_wait_connected(rest);
        if evts.first() is HandshakeDataReady {
            if wait_result(rest) is Ok {
                let i = choose|i: int|
                    0 <= i < rest.len() && (#[trigger] rest[i]) is Connected && forall|j: int|
                        0 <= j < i ==> (#[trigger] rest[j]) is HandshakeDataReady;
                assert(evts[i + 1] is Connected);
                assert forall|j: int| 0 <= j < i + 1 implies (
                #[trigger] evts[j]) is HandshakeDataReady by {
                    if j > 0 {
                        assert(rest[j - 1] is HandshakeDataReady);
                    }
                }
            }
            if exists|i: int|
                0 <= i < evts.len() && (#[trigger] evts[i]) is Connected && forall|j: int|
                    0 <= j < i ==> (#[trigger] evts[j]) is HandshakeDataReady {
                let i = choose|i: int|
                    0 <= i < evts.len() && (#[trigger] evts[i]) is Connected && forall|j: int|
                        0 <= j < i ==> (#[trigger] evts[j]) is HandshakeDataReady;
                assert(i > 0);
                assert(rest[i - 1] is Connected);
                assert forall|j: int| 0 <= j < i - 1 implies (
                #[trigger] rest[j]) is HandshakeDataReady by {
                    assert(evts[j + 1] is HandshakeDataReady);
                }
            }
        } else {
            if evts.first() is Connected {
                assert(evts[0] is Connected);
            } else {
                assert(evts[0] == evts.first());
            }
        }
    }
}

/// The law of a wait that does not succeed: it ends with the end of events
/// exactly where all of them were `HandshakeDataReady`, and otherwise with the
/// word that something else came, whatever comes after it.
pub proof fn law_wait_refused<R, W>(evts: Seq<ConnectionEvt<R, W>>, i: int)
    requires
        0 <= i <= evts.len(),
        forall|j: int| 0 <= j < i ==> (#[trigger] evts[j]) is HandshakeDataReady,
        i < evts.len() ==> !(evts[i] is HandshakeDataReady),
    ensures
        i == evts.len() ==> wait_result(evts) == Err::<(), AqErr>(AqErr::UnexpectedEof),
        i < evts.len() && !(evts[i] is Connected) ==> wait_result(evts) == Err::<(), AqErr>(
            AqErr::UnexpectedEvent,
        ),
    decreases i,
{
    if i > 0 {
        let rest = evts.drop_first();
        assert(evts[0] == evts.first());
        assert forall|j: int| 0 <= j < i - 1 implies (#[trigger] rest[j]) is HandshakeDataReady by {
            assert(evts[j + 1] is HandshakeDataReady);
        }
        law_wait_refused(rest, i - 1);
    } else if i < evts.len() {
        assert(evts[0] == evts.first());
    }
}

/// The law of one step of the wait: it ends with the first event that is not
/// `HandshakeDataReady`, and with the end of events.
pub proof fn law_wait_step<R, W>(evt: Option<ConnectionEvt<R, W>>, r: Option<AqResult<()>>)
    requires
        call_ensures(wait_connected::<R, W>, (evt,), r),
    ensures
        r is None <==> (evt matches Some(ConnectionEvt::HandshakeDataReady)),
        r matches Some(Ok(_)) <==> (evt matches Some(ConnectionEvt::Connected)),
        r == Some(Err::<(), AqErr>(AqErr::UnexpectedEof)) <==> evt is None,
        r matches Some(Err(err)) ==> evt is Some ==> err == AqErr::UnexpectedEvent,
{
}

} // verus!
