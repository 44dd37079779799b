//! Single calls of a connection, each with the evidence that it was made, and
//! that nothing else was done.
use super::proto;
use super::proto::as_nanos;
use super::proto::con_accept;
use super::proto::con_close;
use super::proto::con_event_from;
use super::proto::con_handle_event;
use super::proto::con_handle_timeout;
use super::proto::con_is_closed;
use super::proto::con_is_drained;
use super::proto::con_open;
use super::proto::con_poll;
use super::proto::con_poll_endpoint_events;
use super::proto::con_poll_timeout;
use super::proto::con_poll_transmit;
use super::proto::con_recv_datagram;
use super::proto::span_between;
use super::proto::varint_from_u64;
use super::proto::ConEvent;
use super::proto::StreamDir;
use crate::buf;
use crate::buf::bytes_new;
use bytes::Bytes;
use quinn_proto::Connection;
use quinn_proto::ConnectionEvent;
use quinn_proto::EndpointEvent;
use quinn_proto::Transmit;
use quinn_proto::VarInt;
use std::time::Instant;
use vstd::prelude::*;

verus! {

/// What came of an action.
pub enum Step<X> {
    /// it was done; this is next
    Next(X),
    /// it is for the caller to do
    Outside(X),
    /// the connection has an event that cannot be dealt with
    Unhandled(ConEvent),
}

/// A call of a connection, with what went into it and what it gave.
pub enum ConCall {
    /// do what is due at this time
    HandleTimeout(Instant),
    /// the next timeout
    PollTimeout(Option<Instant>),
    /// a packet, at this time, of at most so many datagrams
    PollTransmit(Instant, usize, Option<Transmit>),
    /// an event to the endpoint
    PollEpEvent(Option<EndpointEvent>),
    /// take up an event of the endpoint
    HandleEvent(ConnectionEvent),
    /// the next event
    PollEvent(Option<ConEvent>),
    /// the next datagram
    RecvDatagram(Option<Bytes>),
    /// a new stream of this direction
    Open(StreamDir, Option<u64>),
    /// the next incoming stream of this direction
    Accept(StreamDir, Option<u64>),
    /// close it at this time, with the code 0 and no reason
    Close(Instant),
}

/// Whether `r` says what `got` says.
pub open spec fn says_event(got: Option<quinn_proto::Event>, r: Option<ConEvent>) -> bool {
    match got {
        Some(evt) => r is Some && proto::says_same(evt, r->0),
        None => r is None,
    }
}

/// Whether a close says nothing: its code is 0 and its reason is empty.
pub open spec fn says_nothing(code: VarInt, reason: Bytes) -> bool {
    proto::varint_view(code) == 0 && buf::bytes_view(reason).len() == 0
}

/// Whether the call was made of the connection behind `con`: what that is
/// before and after is what the call found and what it left.
pub closed spec fn made(con: &mut Connection, call: ConCall) -> bool {
    match call {
        ConCall::HandleTimeout(now) => call_ensures(con_handle_timeout, (con, now), ()),
        ConCall::PollTimeout(r) => call_ensures(con_poll_timeout, (con,), r),
        ConCall::PollTransmit(now, max, r) => call_ensures(con_poll_transmit, (con, now, max), r),
        ConCall::PollEpEvent(r) => call_ensures(con_poll_endpoint_events, (con,), r),
        ConCall::HandleEvent(evt) => call_ensures(con_handle_event, (con, evt), ()),
        ConCall::PollEvent(r) => exists|got: Option<quinn_proto::Event>| #[trigger]
            call_ensures(con_poll, (con,), got) && says_event(got, r),
        ConCall::RecvDatagram(r) => call_ensures(con_recv_datagram, (con,), r),
        ConCall::Open(dir, r) => call_ensures(con_open, (con, dir), r),
        ConCall::Accept(dir, r) => call_ensures(con_accept, (con, dir), r),
        ConCall::Close(now) => exists|code: VarInt, reason: Bytes| #[trigger]
            call_ensures(con_close, (con, now, code, reason), ()) && says_nothing(code, reason),
    }
}

/// What the calls come to, as evidence.
proof fn lemma_made()
    ensures
        forall|con: &mut Connection, now: Instant| #[trigger]
            call_ensures(con_handle_timeout, (con, now), ()) ==> made(
                con,
                ConCall::HandleTimeout(now),
            ),
        forall|con: &mut Connection, r: Option<Instant>| #[trigger]
            call_ensures(con_poll_timeout, (con,), r) ==> made(con, ConCall::PollTimeout(r)),
        forall|con: &mut Connection, now: Instant, max: usize, r: Option<Transmit>| #[trigger]
            call_ensures(con_poll_transmit, (con, now, max), r) ==> made(
                con,
                ConCall::PollTransmit(now, max, r),
            ),
        forall|con: &mut Connection, r: Option<EndpointEvent>| #[trigger]
            call_ensures(con_poll_endpoint_events, (con,), r) ==> made(
                con,
                ConCall::PollEpEvent(r),
            ),
        forall|con: &mut Connection, evt: ConnectionEvent| #[trigger]
            call_ensures(con_handle_event, (con, evt), ()) ==> made(
                con,
                ConCall::HandleEvent(evt),
            ),
        forall|con: &mut Connection, got: Option<quinn_proto::Event>, r: Option<ConEvent>|
            #![trigger call_ensures(con_poll, (con,), got), says_event(got, r)]
            call_ensures(con_poll, (con,), got) && says_event(got, r) ==> made(
                con,
                ConCall::PollEvent(r),
            ),
        forall|con: &mut Connection, r: Option<Bytes>| #[trigger]
            call_ensures(con_recv_datagram, (con,), r) ==> made(con, ConCall::RecvDatagram(r)),
        forall|con: &mut Connection, dir: StreamDir, r: Option<u64>| #[trigger]
            call_ensures(con_open, (con, dir), r) ==> made(con, ConCall::Open(dir, r)),
        forall|con: &mut Connection, dir: StreamDir, r: Option<u64>| #[trigger]
            call_ensures(con_accept, (con, dir), r) ==> made(con, ConCall::Accept(dir, r)),
        forall|con: &mut Connection, now: Instant, code: VarInt, reason: Bytes| #[trigger]
            call_ensures(con_close, (con, now, code, reason), ()) && says_nothing(code, reason)
                ==> made(con, ConCall::Close(now)),
{
}

/// Let the connection do what is due.
pub(crate) fn handle_timeout(con: &mut Connection, now: Instant)
    ensures
        exists|a: &mut Connection|
            {
                &&& *a == *old(con)
                &&& *final(a) == *final(con)
                &&& #[trigger] made(a, ConCall::HandleTimeout(now))
            },
{
    proof {
        lemma_made();
    }
    con_handle_timeout(con, now)
}

/// Ask the connection for its next timeout.
pub(crate) fn poll_timeout(con: &mut Connection) -> (r: Option<Instant>)
    ensures
        exists|a: &mut Connection|
            {
                &&& *a == *old(con)
                &&& *final(a) == *final(con)
                &&& #[trigger] made(a, ConCall::PollTimeout(r))
            },
{
    proof {
        lemma_made();
    }
    con_poll_timeout(con)
}

/// Ask the connection for a packet of at most `max` datagrams.
pub(crate) fn poll_transmit(con: &mut Connection, now: Instant, max: usize) -> (r: Option<Transmit>)
    requires
        max > 0,
    ensures
        exists|a: &mut Connection|
            {
                &&& *a == *old(con)
                &&& *final(a) == *final(con)
                &&& #[trigger] made(a, ConCall::PollTransmit(now, max, r))
            },
{
    proof {
        lemma_made();
    }
    con_poll_transmit(con, now, max)
}

/// Ask the connection for an event to its endpoint.
pub(crate) fn poll_ep_event(con: &mut Connection) -> (r: Option<EndpointEvent>)
    ensures
        exists|a: &mut Connection|
            {
                &&& *a == *old(con)
                &&& *final(a) == *final(con)
                &&& #[trigger] made(a, ConCall::PollEpEvent(r))
            },
{
    proof {
        lemma_made();
    }
    con_poll_endpoint_events(con)
}

/// How many nanoseconds after `base` a moment is, as many as can be counted.
pub open spec fn nanos_after(base: Instant, at: Instant) -> u64 {
    let nanos = proto::span_nanos(proto::span(base, at));
    if nanos <= u64::MAX {
        nanos as u64
    } else {
        u64::MAX
    }
}

/// How many nanoseconds after `base` a moment is, if there is one.
pub open spec fn time_after(base: Instant, at: Option<Instant>) -> Option<u64> {
    match at {
        Some(at) => Some(nanos_after(base, at)),
        None => None,
    }
}

/// How many nanoseconds after `base` a moment is, as many as can be counted.
pub fn since(base: &Instant, at: Instant) -> (r: u64)
    ensures
        r == nanos_after(*base, at),
{
    let nanos: u128 = as_nanos(&span_between(base, at));
    if nanos <= u64::MAX as u128 {
        nanos as u64
    } else {
        u64::MAX
    }
}

/// Ask the connection when it has to be told of the time next, if ever, and
/// count from `base`.
pub(crate) fn poll_time(con: &mut Connection, base: &Instant) -> (r: Option<u64>)
    ensures
        exists|at: Option<Instant>, a: &mut Connection|
            {
                &&& *a == *old(con)
                &&& *final(a) == *final(con)
                &&& #[trigger] made(a, ConCall::PollTimeout(at))
                &&& r == time_after(*base, at)
            },
{
    match poll_timeout(con) {
        Some(at) => Some(since(base, at)),
        None => None,
    }
}

/// Let the connection take up an event of its endpoint.
pub(crate) fn take_event(con: &mut Connection, evt: ConnectionEvent)
    ensures
        exists|a: &mut Connection|
            {
                &&& *a == *old(con)
                &&& *final(a) == *final(con)
                &&& #[trigger] made(a, ConCall::HandleEvent(evt))
            },
{
    proof {
        lemma_made();
    }
    con_handle_event(con, evt)
}

/// Ask the connection for its next event.
pub(crate) fn poll_event(con: &mut Connection) -> (r: Option<ConEvent>)
    ensures
        exists|a: &mut Connection|
            {
                &&& *a == *old(con)
                &&& *final(a) == *final(con)
                &&& #[trigger] made(a, ConCall::PollEvent(r))
            },
{
    proof {
        lemma_made();
    }
    let got = con_poll(con);
    let ghost was = got;
    let r = match got {
        Some(evt) => Some(con_event_from(evt)),
        None => None,
    };
    assert(says_event(was, r));
    r
}

/// Ask the connection for its next datagram.
pub(crate) fn recv_datagram(con: &mut Connection) -> (r: Option<Bytes>)
    ensures
        exists|a: &mut Connection|
            {
                &&& *a == *old(con)
                &&& *final(a) == *final(con)
                &&& #[trigger] made(a, ConCall::RecvDatagram(r))
            },
{
    proof {
        lemma_made();
    }
    con_recv_datagram(con)
}

/// Ask the connection for a new stream of this direction.
pub(crate) fn open(con: &mut Connection, dir: StreamDir) -> (r: Option<u64>)
    ensures
        exists|a: &mut Connection|
            {
                &&& *a == *old(con)
                &&& *final(a) == *final(con)
                &&& #[trigger] made(a, ConCall::Open(dir, r))
            },
        r matches Some(id) ==> proto::has_dir(id, dir),
{
    proof {
        lemma_made();
    }
    con_open(con, dir)
}

/// Ask the connection for its next incoming stream of this direction.
pub(crate) fn accept(con: &mut Connection, dir: StreamDir) -> (r: Option<u64>)
    ensures
        exists|a: &mut Connection|
            {
                &&& *a == *old(con)
                &&& *final(a) == *final(con)
                &&& #[trigger] made(a, ConCall::Accept(dir, r))
            },
        r matches Some(id) ==> proto::has_dir(id, dir),
{
    proof {
        lemma_made();
    }
    con_accept(con, dir)
}

/// Close the connection, with the code 0 and no reason.
pub(crate) fn close(con: &mut Connection, now: Instant)
    ensures
        exists|a: &mut Connection|
            {
                &&& *a == *old(con)
                &&& *final(a) == *final(con)
                &&& #[trigger] made(a, ConCall::Close(now))
            },
{
    proof {
        lemma_made();
    }
    let reason = bytes_new();
    if let Some(code) = varint_from_u64(0) {
        assert(says_nothing(code, reason));
        con_close(con, now, code, reason);
    }
}

/// Whether the connection was asked if it is done with, and said `r`.
pub closed spec fn said_drained(con: Connection, r: bool) -> bool {
    call_ensures(con_is_drained, (&con,), r)
}

/// Ask the connection if it is done with.
pub(crate) fn is_drained(con: &Connection) -> (r: bool)
    ensures
        said_drained(*con, r),
{
    con_is_drained(con)
}

/// Whether the connection was asked if it is closed, and said `r`.
pub closed spec fn said_closed(con: Connection, r: bool) -> bool {
    call_ensures(con_is_closed, (&con,), r)
}

/// Ask the connection if it is closed.
pub(crate) fn is_closed(con: &Connection) -> (r: bool)
    ensures
        said_closed(*con, r),
{
    con_is_closed(con)
}

/// The law of calls: each is made of the connection with what it carries, and
/// gave what it says.
pub(crate) proof fn law_made(con: &mut Connection, call: ConCall)
    requires
        made(con, call),
    ensures
        call matches ConCall::HandleTimeout(now) ==> call_ensures(
            con_handle_timeout,
            (con, now),
            (),
        ),
        call matches ConCall::PollTimeout(r) ==> call_ensures(con_poll_timeout, (con,), r),
        call matches ConCall::PollTransmit(now, max, r) ==> call_ensures(
            con_poll_transmit,
            (con, now, max),
            r,
        ),
        call matches ConCall::PollEpEvent(r) ==> call_ensures(con_poll_endpoint_events, (con,), r),
        call matches ConCall::HandleEvent(evt) ==> call_ensures(con_handle_event, (con, evt), ()),
        call matches ConCall::RecvDatagram(r) ==> call_ensures(con_recv_datagram, (con,), r),
        call matches ConCall::Open(dir, r) ==> call_ensures(con_open, (con, dir), r),
        call matches ConCall::Accept(dir, r) ==> call_ensures(con_accept, (con, dir), r),
        call matches ConCall::PollEvent(r) ==> exists|got: Option<quinn_proto::Event>|
            {
                &&& #[trigger] call_ensures(con_poll, (con,), got)
                &&& got is Some <==> r is Some
                &&& got matches Some(evt) ==> proto::says_same(evt, r->0)
            },
        call matches ConCall::Close(now) ==> exists|code: VarInt, reason: Bytes|
            {
                &&& #[trigger] call_ensures(con_close, (con, now, code, reason), ())
                &&& proto::varint_view(code) == 0
                &&& buf::bytes_view(reason).len() == 0
            },
{
}

/// The law of time: a moment is as many nanoseconds after another as lie between
/// them, where that many can be counted, and as many as can otherwise; so what
/// lies further off never counts less.
pub proof fn law_nanos_after(base: Instant, at: Instant, later: Instant)
    ensures
        ({
            let between = proto::span_nanos(proto::span(base, at));
            &&& between <= u64::MAX ==> nanos_after(base, at) == between
            &&& between > u64::MAX ==> nanos_after(base, at) == u64::MAX
            &&& between <= proto::span_nanos(proto::span(base, later)) ==> nanos_after(base, at)
                <= nanos_after(base, later)
        }),
        time_after(base, Some(at)) == Some(nanos_after(base, at)),
        time_after(base, None) is None,
{
}

} // verus!
