//! The ends of a stream that a quic backend holds.
use super::counter::Counter;
use super::counter::CounterAddPermit;
use super::counter::Hold;
use super::flow;
use super::ReadStream;
use super::WriteStream;
use crate::buf;
use crate::buf::bytes_len;
use crate::buf::bytes_split_to;
use crate::error::AqErr;
use crate::error::AqResult;
use crate::runtime::OnceSend;
use bytes::Bytes;
use std::sync::atomic::AtomicU64;
use std::sync::Arc;
use std::task::Context;
use std::task::Poll;
use tokio::sync::mpsc::UnboundedReceiver;
use tokio::sync::mpsc::UnboundedSender;
use vstd::prelude::*;

verus! {

/// `tokio::sync::mpsc::UnboundedSender`: the sending half of a channel.
#[verifier::external_type_specification]
#[verifier::external_body]
#[verifier::reject_recursive_types(T)]
pub struct ExUnboundedSender<T>(tokio::sync::mpsc::UnboundedSender<T>);

/// `tokio::sync::mpsc::UnboundedReceiver`: the receiving half of a channel.
#[verifier::external_type_specification]
#[verifier::external_body]
#[verifier::reject_recursive_types(T)]
pub struct ExUnboundedReceiver<T>(tokio::sync::mpsc::UnboundedReceiver<T>);

/// `tokio::sync::mpsc::unbounded_channel`: both halves of a new channel.
#[verifier::external_body]
fn chan_new<T>() -> (r: (UnboundedSender<T>, UnboundedReceiver<T>)) {
    tokio::sync::mpsc::unbounded_channel()
}

/// `UnboundedSender::clone`: another sending half of the same channel.
#[verifier::external_body]
fn chan_clone<T>(send: &UnboundedSender<T>) -> (r: UnboundedSender<T>) {
    send.clone()
}

/// `UnboundedSender::send`: whether the value went into the channel. Whether
/// it does depends on the other half, so nothing is claimed of the result. The
/// call would do with less than a mutable borrow; with it a contract can tell
/// that nothing else was sent through this half.
#[verifier::external_body]
fn chan_send<T>(send: &mut UnboundedSender<T>, t: T) -> (r: bool) {
    send.send(t).is_ok()
}

/// `UnboundedSender::is_closed`: whether the other half is gone. That is not
/// this side's to know, so nothing is claimed of the result.
#[verifier::external_body]
fn chan_is_closed<T>(send: &UnboundedSender<T>) -> (r: bool) {
    send.is_closed()
}

/// `UnboundedReceiver::poll_recv`: what comes next depends on the other half,
/// so nothing is claimed of the result.
#[verifier::external_body]
fn chan_poll_recv<T>(recv: &mut UnboundedReceiver<T>, cx: &mut Context<'_>) -> (r: Poll<
    Option<T>,
>) {
    recv.poll_recv(cx)
}

/// Whether the two are the halves of one channel.
pub closed spec fn joined<T>(send: UnboundedSender<T>, recv: UnboundedReceiver<T>) -> bool {
    call_ensures(chan_new::<T>, (), (send, recv))
}

/// Make a new channel.
pub(crate) fn channel<T>() -> (r: (UnboundedSender<T>, UnboundedReceiver<T>))
    ensures
        joined(r.0, r.1),
{
    chan_new()
}

/// Whether `other` was made as another sending half of the same channel.
pub closed spec fn doubled<T>(send: UnboundedSender<T>, other: UnboundedSender<T>) -> bool {
    call_ensures(chan_clone::<T>, (&send,), other)
}

/// Make another sending half of the same channel.
pub(crate) fn double<T>(send: &UnboundedSender<T>) -> (r: UnboundedSender<T>)
    ensures
        doubled(*send, r),
{
    chan_clone(send)
}

/// Whether `t` was handed to the channel behind `send`, and `sent` is what came
/// of it.
pub closed spec fn handed<T>(send: &mut UnboundedSender<T>, t: T, sent: bool) -> bool {
    call_ensures(chan_send::<T>, (send, t), sent)
}

/// Hand a value to a channel, once.
pub(crate) fn hand<T>(send: &mut UnboundedSender<T>, t: T) -> (r: bool)
    ensures
        exists|a: &mut UnboundedSender<T>|
            {
                &&& *a == *old(send)
                &&& *final(a) == *final(send)
                &&& #[trigger] handed(a, t, r)
            },
{
    proof {
        assert(forall|a: &mut UnboundedSender<T>, t: T, sent: bool| #[trigger]
            call_ensures(chan_send::<T>, (a, t), sent) ==> handed(a, t, sent));
    }
    chan_send(send, t)
}

/// Whether the channel behind `recv` was asked for its next item, and gave
/// `got`.
pub closed spec fn asked<T>(recv: &mut UnboundedReceiver<T>, got: Poll<Option<T>>) -> bool {
    exists|cx: &mut Context<'_>| #[trigger] call_ensures(chan_poll_recv::<T>, (recv, cx), got)
}

/// Ask a channel for its next item, once.
pub(crate) fn ask<T>(recv: &mut UnboundedReceiver<T>, cx: &mut Context<'_>) -> (r: Poll<Option<T>>)
    ensures
        exists|a: &mut UnboundedReceiver<T>|
            {
                &&& *a == *old(recv)
                &&& *final(a) == *final(recv)
                &&& #[trigger] asked(a, r)
            },
{
    proof {
        assert(forall|
            a: &mut UnboundedReceiver<T>,
            cx: &mut Context<'_>,
            got: Poll<Option<T>>,
        | #[trigger] call_ensures(chan_poll_recv::<T>, (a, cx), got) ==> asked(a, got));
    }
    chan_poll_recv(recv, cx)
}

/// Data on its way from one end of a stream to the other, never empty, with
/// the permit for exactly that many bytes.
pub struct Chunk<G: Hold> {
    data: Bytes,
    permit: CounterAddPermit<G>,
}

impl<G: Hold> Chunk<G> {
    #[verifier::type_invariant]
    spec fn inv(self) -> bool {
        &&& buf::bytes_view(self.data).len() > 0
        &&& self.permit.spec_len() == buf::bytes_view(self.data).len()
    }

    /// The bytes on their way.
    pub closed spec fn spec_data(self) -> Seq<u8> {
        buf::bytes_view(self.data)
    }

    /// The permit that goes with them.
    pub closed spec fn spec_permit(self) -> CounterAddPermit<G> {
        self.permit
    }

    /// The data is not empty, and the permit is for exactly that much. That is
    /// so of every chunk.
    pub open spec fn fits(self) -> bool {
        &&& self.spec_data().len() > 0
        &&& self.spec_permit().spec_len() == self.spec_data().len()
    }

    /// What is known of every chunk.
    pub(crate) fn known(&self)
        ensures
            self.fits(),
    {
        proof {
            use_type_invariant(self);
        }
    }

    /// Put all of `data` on its way. What `permit` covers beyond that is given
    /// back.
    pub fn fit(permit: CounterAddPermit<G>, data: Bytes) -> (r: Self)
        requires
            0 < buf::bytes_view(data).len() <= permit.spec_len(),
        ensures
            r.spec_data() == buf::bytes_view(data),
            r.spec_permit().spec_len() == buf::bytes_view(data).len(),
            permit.shrunk(buf::bytes_view(data).len() as int, r.spec_permit()),
    {
        let len: usize = bytes_len(&data);
        let permit = permit.downgrade_to(len);
        Chunk { data, permit }
    }

    /// Cut as much off the front of `data` as `permit` covers, and put it on
    /// its way. What `permit` covers beyond `data` is given back.
    pub fn cut(permit: CounterAddPermit<G>, data: &mut Bytes) -> (r: Self)
        requires
            buf::bytes_view(*old(data)).len() > 0,
        ensures
            r.spec_data() == buf::bytes_view(*old(data)).take(
                flow::min_len(permit.spec_len(), buf::bytes_view(*old(data)).len() as int),
            ),
            r.spec_permit().spec_len() == r.spec_data().len(),
            permit.shrunk(r.spec_data().len() as int, r.spec_permit()),
            buf::bytes_view(*final(data)) == buf::bytes_view(*old(data)).skip(
                flow::min_len(permit.spec_len(), buf::bytes_view(*old(data)).len() as int),
            ),
    {
        let data_len: usize = bytes_len(data);
        let permit_len: usize = permit.len();
        if data_len >= permit_len {
            let b = bytes_split_to(data, permit_len);
            Chunk { data: b, permit }
        } else {
            let permit = permit.downgrade_to(data_len);
            let b = bytes_split_to(data, data_len);
            Chunk { data: b, permit }
        }
    }

    /// The data and its permit.
    pub fn into_parts(self) -> (r: (Bytes, CounterAddPermit<G>))
        ensures
            buf::bytes_view(r.0) == self.spec_data(),
            r.1 == self.spec_permit(),
            buf::bytes_view(r.0).len() > 0,
            r.1.spec_len() == buf::bytes_view(r.0).len(),
    {
        proof {
            use_type_invariant(&self);
        }
        (self.data, self.permit)
    }
}

/// Permit to send data to the user's end of a read stream.
#[verifier::reject_recursive_types(G)]
pub struct ReadSendPermit<'lt, G: Hold> {
    /// the stream that the permit is for
    pub r: &'lt mut ReadStreamBackend<G>,
    /// the room that is reserved
    pub permit: CounterAddPermit<G>,
}

/// What the backend learns of an attempt to hand data to the user's end: the
/// user's error code where that end is gone.
pub fn send_outcome(sent: bool, error_code: u64) -> (r: Result<(), u64>)
    ensures
        sent ==> r == Ok::<(), u64>(()),
        !sent ==> r == Err::<(), u64>(error_code),
{
    if sent {
        Ok(())
    } else {
        Err(error_code)
    }
}

/// Whether `data` was handed to the channel behind `send` in `chunk`, under what
/// it takes of `permit`, and `sent` is what came of it.
pub open spec fn gave<G: Hold>(
    send: &mut UnboundedSender<AqResult<Chunk<G>>>,
    permit: CounterAddPermit<G>,
    data: Seq<u8>,
    chunk: Chunk<G>,
    sent: bool,
) -> bool {
    &&& chunk.spec_data() == data
    &&& permit.shrunk(data.len() as int, chunk.spec_permit())
    &&& handed(send, Ok(chunk), sent)
}

proof fn lemma_gave<G: Hold>(permit: CounterAddPermit<G>, data: Seq<u8>)
    ensures
        forall|send: &mut UnboundedSender<AqResult<Chunk<G>>>, chunk: Chunk<G>, sent: bool|
            chunk.spec_data() == data && permit.shrunk(data.len() as int, chunk.spec_permit())
                && #[trigger] handed(send, Ok(chunk), sent) ==> gave(
                send,
                permit,
                data,
                chunk,
                sent,
            ),
{
}

impl<'lt, G: Hold> ReadSendPermit<'lt, G> {
    /// The max length of bytes authorized for send
    pub fn max_len(&self) -> (r: usize)
        ensures
            r == self.permit.spec_len(),
            r > 0,
    {
        self.permit.len()
    }

    /// Send bytes to the user's end, which is handed all of `data`.
    /// Err(u64) indicates the error code if the stream was stopped.
    pub fn send(self, data: Bytes) -> (r: Result<(), u64>)
        requires
            0 < buf::bytes_view(data).len() <= self.permit.spec_len(),
        ensures
            final(self.r).error_code == old(self.r).error_code,
            exists|a: &mut UnboundedSender<AqResult<Chunk<G>>>, chunk: Chunk<G>, sent: bool|
                {
                    &&& *a == old(self.r).send
                    &&& *final(a) == final(self.r).send
                    &&& #[trigger] gave(a, self.permit, buf::bytes_view(data), chunk, sent)
                    &&& sent == r is Ok
                },
            r matches Err(code) ==> old(self.r).read_code(code),
    {
        proof {
            lemma_gave(self.permit, buf::bytes_view(data));
        }
        let chunk = Chunk::fit(self.permit, data);
        let sent = hand(&mut self.r.send, Ok(chunk));
        let error_code: u64 = self.r.error_code.load(std::sync::atomic::Ordering::Acquire);
        send_outcome(sent, error_code)
    }
}

/// The backend of a read stream, allows publishing data to the user
#[verifier::reject_recursive_types(G)]
pub struct ReadStreamBackend<G: Hold> {
    /// where the data goes
    pub send: UnboundedSender<AqResult<Chunk<G>>>,
    /// the code that the user stopped the stream with
    pub error_code: Arc<AtomicU64>,
}

impl<G: Hold> ReadStreamBackend<G> {
    /// Whether `code` was read where the user leaves the code of a stop.
    pub open spec fn read_code(self, code: u64) -> bool {
        call_ensures(
            AtomicU64::load,
            (&*self.error_code, std::sync::atomic::Ordering::Acquire),
            code,
        )
    }

    /// Whether the channel was asked if the user's end is gone, and `closed`
    /// is what it said.
    pub closed spec fn asked_closed(self, closed: bool) -> bool {
        call_ensures(chan_is_closed::<AqResult<Chunk<G>>>, (&self.send,), closed)
    }

    /// Shutdown this read stream with given error
    pub fn stop(self, err: AqErr) -> (r: ())
        ensures
            exists|a: &mut UnboundedSender<AqResult<Chunk<G>>>, sent: bool|
                *a == self.send && #[trigger] handed(a, Err(err), sent),
    {
        let mut send = self.send;
        let _ = hand(&mut send, Err(err));
    }

    /// Ask to push data into the read stream. `reserved` is the room that the
    /// stream's counter had, if any.
    pub fn poll_send(&mut self, reserved: Option<CounterAddPermit<G>>) -> (r: Poll<
        ReadSendPermit<'_, G>,
    >)
        ensures
            reserved is None ==> r is Pending && *final(self) == *old(self),
            reserved matches Some(p) ==> {
                &&& r matches Poll::Ready(permit)
                &&& permit.permit == p
                &&& *permit.r == *old(self)
                &&& *final(permit.r) == *final(self)
            },
    {
        match reserved {
            None => Poll::Pending,
            Some(permit) => Poll::Ready(ReadSendPermit { r: self, permit }),
        }
    }

    /// As `poll_send`, for a stream whose user's end may be gone: then the
    /// answer is the code that it was stopped with.
    pub fn poll_acquire(&mut self, reserved: Option<CounterAddPermit<G>>) -> (r: Poll<
        Result<ReadSendPermit<'_, G>, u64>,
    >)
        ensures
            old(self).asked_closed(r matches Poll::Ready(Err(_))),
            r is Pending ==> reserved is None && *final(self) == *old(self),
            r matches Poll::Ready(Err(code)) ==> *final(self) == *old(self) && old(self).read_code(
                code,
            ),
            r matches Poll::Ready(Ok(permit)) ==> {
                &&& reserved == Some(permit.permit)
                &&& *permit.r == *old(self)
                &&& *final(permit.r) == *final(self)
            },
    {
        let closed = chan_is_closed(&self.send);
        assert(old(self).asked_closed(closed));
        if closed {
            let code: u64 = self.error_code.load(std::sync::atomic::Ordering::Acquire);
            return Poll::Ready(Err(code));
        }
        match self.poll_send(reserved) {
            Poll::Pending => Poll::Pending,
            Poll::Ready(permit) => Poll::Ready(Ok(permit)),
        }
    }
}

/// Construct a new read stream: the counter that both ends share, the
/// backend's end and the user's end.
pub fn read_stream_pair<W, G: Hold>(buf_size: usize) -> (r: (
    Counter<W>,
    ReadStreamBackend<G>,
    ReadStream<G>,
))
    ensures
        r.0.wf(),
        r.0.max == buf_size,
        r.0.used == 0,
        r.0.waker is None,
        joined(r.1.send, r.2.recv),
        call_ensures(AtomicU64::new, (0,), *r.1.error_code),
        r.1.error_code == r.2.error_code,
        r.2.buf is None,
{
    let error_code = Arc::new(AtomicU64::new(0));
    let (send, recv) = channel();
    (
        Counter::new(buf_size),
        ReadStreamBackend { send, error_code: error_code.clone() },
        ReadStream { recv, buf: None, error_code },
    )
}

/// What the user's end of a write stream sends.
pub enum WriteCmdInner<G: Hold, S: OnceSend<AqResult<()>>> {
    /// data to write
    Data(Chunk<G>),
    /// no more data will come; the sender, if any, is told when this arrives
    Stop(u64, Option<S>),
}

/// Data that came over a write stream, to be worked off from the front.
#[verifier::reject_recursive_types(G)]
#[verifier::reject_recursive_types(S)]
pub struct WriteCmdData<'lt, G: Hold, S: OnceSend<AqResult<()>>> {
    /// the stream it came over
    pub r: &'lt mut WriteStreamBackend<G, S>,
    /// what is left of the data
    pub data: Bytes,
    /// the permit for the data as it came
    pub permit: CounterAddPermit<G>,
}

impl<'lt, G: Hold, S: OnceSend<AqResult<()>>> WriteCmdData<'lt, G, S> {
    /// What is left of the data.
    pub fn as_ref(&self) -> (r: &Bytes)
        ensures
            *r == self.data,
    {
        &self.data
    }

    /// Done for now. What is left of the data comes again with the next
    /// receive, and the room of what was pulled off is given back: where all of
    /// it was, the hold on all the room is set free.
    pub fn finish(self) -> (freed: Option<G>)
        ensures
            freed == (if buf::bytes_view(self.data).len() == 0 {
                Some(self.permit.spec_hold())
            } else {
                None
            }),
            final(self.r).recv == old(self.r).recv,
            final(self.r).error_code == old(self.r).error_code,
            buf::bytes_view(self.data).len() == 0 ==> final(self.r).buf == old(self.r).buf,
            buf::bytes_view(self.data).len() > 0 ==> {
                &&& final(self.r).buf matches Some((b, p))
                &&& b == self.data
                &&& p.spec_len() == flow::permit_after_finish(
                    buf::bytes_view(self.data).len() as int,
                    self.permit.spec_len(),
                )
                &&& self.permit.shrunk(p.spec_len(), p)
            },
    {
        let len: usize = bytes_len(&self.data);
        if len > 0 {
            let mut permit = self.permit;
            if len < permit.len() {
                permit = permit.downgrade_to(len);
            }
            self.r.buf = Some((self.data, permit));
            None
        } else {
            Some(self.permit.into_hold())
        }
    }
}

/// Incoming command from the user's end of a write stream
#[verifier::reject_recursive_types(G)]
#[verifier::reject_recursive_types(S)]
pub enum WriteCmd<'lt, G: Hold, S: OnceSend<AqResult<()>>> {
    /// Data sent over the write channel.
    /// You can pull off as much or little data as you like;
    /// with `finish`, the sender side is notified
    /// of any additional space available from bytes pulled off
    Data(WriteCmdData<'lt, G, S>),
    /// This write channel has been stopped with error_code,
    /// no more data will be forthcoming. If error_code is 0,
    /// it may indicate the user's end was dropped
    Stop(u64),
}

/// The backend of a write stream, allows collecting the written data
#[verifier::reject_recursive_types(G)]
#[verifier::reject_recursive_types(S)]
pub struct WriteStreamBackend<G: Hold, S: OnceSend<AqResult<()>>> {
    /// where the data comes from
    pub recv: UnboundedReceiver<WriteCmdInner<G, S>>,
    /// data that came before and is not yet worked off
    pub buf: Option<(Bytes, CounterAddPermit<G>)>,
    /// the code that the stream was stopped with, 0 before that
    pub error_code: u64,
}

/// What a receive on a write stream came to.
pub enum WriteRecv<G: Hold> {
    /// nothing is there yet
    Pending,
    /// data to work off
    Data(Bytes, CounterAddPermit<G>),
    /// the stream was stopped with this code
    Stop(u64),
}

impl<G: Hold, S: OnceSend<AqResult<()>>> WriteStreamBackend<G, S> {
    /// Whether `r` is what the backend learns of what the channel gave, and
    /// `error_code` is remembered after it.
    pub open spec fn took(
        self,
        got: Poll<Option<WriteCmdInner<G, S>>>,
        error_code: u64,
        r: WriteRecv<G>,
    ) -> bool {
        match got {
            Poll::Pending => r is Pending && error_code == self.error_code,
            Poll::Ready(None) => {
                &&& r == WriteRecv::<G>::Stop(self.error_code)
                &&& error_code == self.error_code
            },
            Poll::Ready(Some(WriteCmdInner::Stop(code, ack))) => {
                &&& r == WriteRecv::<G>::Stop(code)
                &&& error_code == code
                &&& ack matches Some(ack) ==> call_ensures(S::send, (ack, Ok(())), ())
            },
            Poll::Ready(Some(WriteCmdInner::Data(chunk))) => {
                &&& r matches WriteRecv::Data(b, p)
                &&& buf::bytes_view(b) == chunk.spec_data()
                &&& p == chunk.spec_permit()
                &&& buf::bytes_view(b).len() > 0
                &&& p.spec_len() == buf::bytes_view(b).len()
                &&& error_code == self.error_code
            },
        }
    }

    /// What a receive means: what was left over comes first, and the channel is
    /// asked, and gives `got`, only where nothing was. `error_code` is
    /// remembered after it.
    pub open spec fn receives(
        self,
        got: Option<Poll<Option<WriteCmdInner<G, S>>>>,
        error_code: u64,
        r: WriteRecv<G>,
    ) -> bool {
        match (self.buf, got) {
            (Some((b, p)), None) => {
                &&& r == WriteRecv::Data(b, p)
                &&& error_code == self.error_code
            },
            (None, Some(got)) => self.took(got, error_code, r),
            _ => false,
        }
    }

    /// Take up what the channel gave: a stop is remembered and acknowledged,
    /// a closed channel is a stop with the code that is remembered.
    pub fn take_cmd(&mut self, got: Poll<Option<WriteCmdInner<G, S>>>) -> (r: WriteRecv<G>)
        ensures
            final(self).recv == old(self).recv,
            final(self).buf == old(self).buf,
            old(self).took(got, final(self).error_code, r),
    {
        match got {
            Poll::Pending => WriteRecv::Pending,
            Poll::Ready(None) => WriteRecv::Stop(self.error_code),
            Poll::Ready(Some(WriteCmdInner::Stop(code, ack))) => {
                self.error_code = code;
                if let Some(ack) = ack {
                    ack.send(Ok(()));
                }
                WriteRecv::Stop(code)
            },
            Poll::Ready(Some(WriteCmdInner::Data(chunk))) => {
                let (b, p) = chunk.into_parts();
                WriteRecv::Data(b, p)
            },
        }
    }

    /// Receive data written by the user's end of this write stream. What was
    /// left over comes before anything new.
    pub fn poll_recv(&mut self, cx: &mut Context<'_>) -> (r: Poll<WriteCmd<'_, G, S>>)
        ensures
            exists|got: Option<Poll<Option<WriteCmdInner<G, S>>>>, code: u64| #[trigger]
                old(self).receives(got, code, received(r)) && (match r {
                    Poll::Ready(WriteCmd::Data(d)) => d.r.error_code == code,
                    _ => final(self).error_code == code,
                }) && match got {
                    None => match r {
                        Poll::Ready(WriteCmd::Data(d)) => d.r.recv == old(self).recv,
                        _ => final(self).recv == old(self).recv,
                    },
                    Some(got) => exists|a: &mut UnboundedReceiver<WriteCmdInner<G, S>>|
                        {
                            &&& *a == old(self).recv
                            &&& match r {
                                Poll::Ready(WriteCmd::Data(d)) => *final(a) == d.r.recv,
                                _ => *final(a) == final(self).recv,
                            }
                            &&& #[trigger] asked(a, got)
                        },
                },
            match r {
                Poll::Ready(WriteCmd::Data(d)) => d.r.buf is None && *final(d.r) == *final(self),
                _ => final(self).buf is None,
            },
    {
        if let Some((data, permit)) = self.buf.take() {
            assert(old(self).receives(None, self.error_code, WriteRecv::Data(data, permit)));
            return Poll::Ready(WriteCmd::Data(WriteCmdData { r: self, data, permit }));
        }
        let got = ask(&mut self.recv, cx);
        let ghost gave = got;
        let came = self.take_cmd(got);
        assert(old(self).receives(Some(gave), self.error_code, came));
        match came {
            WriteRecv::Pending => Poll::Pending,
            WriteRecv::Stop(code) => Poll::Ready(WriteCmd::Stop(code)),
            WriteRecv::Data(data, permit) => Poll::Ready(
                WriteCmd::Data(WriteCmdData { r: self, data, permit }),
            ),
        }
    }
}

/// What a receive on a write stream came to, without the stream itself.
pub open spec fn received<'lt, G: Hold, S: OnceSend<AqResult<()>>>(
    r: Poll<WriteCmd<'lt, G, S>>,
) -> WriteRecv<G> {
    match r {
        Poll::Pending => WriteRecv::Pending,
        Poll::Ready(WriteCmd::Stop(code)) => WriteRecv::Stop(code),
        Poll::Ready(WriteCmd::Data(d)) => WriteRecv::Data(d.data, d.permit),
    }
}

/// Construct a new write stream: the counter that both ends share, the
/// backend's end and the user's end.
pub fn write_stream_pair<W, G: Hold, S: OnceSend<AqResult<()>>>(buf_size: usize) -> (r: (
    Counter<W>,
    WriteStreamBackend<G, S>,
    WriteStream<G, S>,
))
    ensures
        r.0.wf(),
        r.0.max == buf_size,
        r.0.used == 0,
        r.0.waker is None,
        joined(r.2.send, r.1.recv),
        r.1.buf is None,
        r.1.error_code == 0,
{
    let (send, recv) = channel();
    (
        Counter::new(buf_size),
        WriteStreamBackend { recv, buf: None, error_code: 0 },
        WriteStream { send },
    )
}

/// The law of receiving on a write stream: what was left over comes first, as it
/// is, and then nothing is asked of the channel; else data comes as the channel
/// gave it, with the permit that it was sent with. A stop comes with the code
/// that it was sent with, and whoever sent it is told; a channel that is closed
/// is a stop with the code that is remembered. Only a stop changes that code.
pub proof fn law_write_received<G: Hold, S: OnceSend<AqResult<()>>>(
    stream: WriteStreamBackend<G, S>,
    got: Option<Poll<Option<WriteCmdInner<G, S>>>>,
    code: u64,
    r: WriteRecv<G>,
)
    requires
        stream.receives(got, code, r),
    ensures
        got is None <==> stream.buf is Some,
        stream.buf matches Some((data, permit)) ==> r == WriteRecv::Data(data, permit),
        r is Pending <==> (got matches Some(Poll::Pending)),
        stream.buf is None && r is Data ==> {
            &&& got matches Some(Poll::Ready(Some(WriteCmdInner::Data(chunk))))
            &&& r matches WriteRecv::Data(data, permit)
            &&& buf::bytes_view(data) == chunk.spec_data()
            &&& permit == chunk.spec_permit()
        },
        got matches Some(Poll::Ready(Some(WriteCmdInner::Data(_)))) ==> r is Data,
        got matches Some(Poll::Ready(Some(WriteCmdInner::Stop(sent, ack)))) ==> {
            &&& r == WriteRecv::<G>::Stop(sent)
            &&& code == sent
            &&& ack matches Some(ack) ==> call_ensures(S::send, (ack, Ok(())), ())
        },
        got matches Some(Poll::Ready(None)) ==> r == WriteRecv::<G>::Stop(stream.error_code),
        !(got matches Some(Poll::Ready(Some(WriteCmdInner::Stop(..))))) ==> code
            == stream.error_code,
{
}

/// The law of what a backend learns of a send: that all is well exactly where
/// the channel took it, and else the code that the user left.
pub proof fn law_send_outcome(sent: bool, code: u64, r: Result<(), u64>)
    requires
        call_ensures(send_outcome, (sent, code), r),
    ensures
        sent <==> r is Ok,
        r matches Err(left) ==> left == code,
{
}

/// The law of sending on a read stream: all of the data goes out in one chunk,
/// and what it takes of the permit is just its length.
pub proof fn law_gave<G: Hold>(
    permit: CounterAddPermit<G>,
    data: Seq<u8>,
    chunk: Chunk<G>,
    sent: bool,
)
    requires
        exists|a: &mut UnboundedSender<AqResult<Chunk<G>>>| #[trigger]
            gave(a, permit, data, chunk, sent),
        0 < data.len() <= permit.spec_len(),
    ensures
        chunk.spec_data() == data,
        chunk.spec_permit().spec_len() == data.len(),
        exists|a: &mut UnboundedSender<AqResult<Chunk<G>>>| #[trigger] handed(a, Ok(chunk), sent),
{
    let a = choose|a: &mut UnboundedSender<AqResult<Chunk<G>>>| #[trigger]
        gave(a, permit, data, chunk, sent);
    assert(handed(a, Ok(chunk), sent));
}

/// The law of cutting: what is cut off and what is left are together what was
/// there, byte for byte; something is cut off, no more than the permit covers,
/// and all of it where the permit covers that.
pub proof fn law_cut<G: Hold>()
    ensures
        forall|permit: CounterAddPermit<G>, data: &mut Bytes, chunk: Chunk<G>|
            permit.spec_len() > 0 && #[trigger] call_ensures(
                Chunk::<G>::cut,
                (permit, data),
                chunk,
            ) ==> {
                let left = buf::bytes_view(*final(data));
                &&& chunk.spec_data() + left == buf::bytes_view(*data)
                &&& chunk.spec_data().len() <= permit.spec_len()
                &&& left.len() > 0 ==> chunk.spec_data().len() == permit.spec_len()
                &&& chunk.spec_permit().spec_len() == chunk.spec_data().len()
            },
{
    assert forall|permit: CounterAddPermit<G>, data: &mut Bytes, chunk: Chunk<G>|
        permit.spec_len() > 0 && #[trigger] call_ensures(
            Chunk::<G>::cut,
            (permit, data),
            chunk,
        ) implies chunk.spec_data() + buf::bytes_view(*final(data)) == buf::bytes_view(*data) by {
        assert(chunk.spec_data() + buf::bytes_view(*final(data)) =~= buf::bytes_view(*data));
    }
}

/// The law of new streams: the two ends share a channel and, where a stream is
/// read, the place for the code of a stop; all the room is free, and nothing is
/// on its way.
pub proof fn law_new_streams<W, G: Hold, S: OnceSend<AqResult<()>>>(size: usize)
    ensures
        forall|r: (Counter<W>, ReadStreamBackend<G>, ReadStream<G>)| #[trigger]
            call_ensures(read_stream_pair::<W, G>, (size,), r) ==> {
                &&& r.0.room() == size
                &&& r.0.used == 0
                &&& joined(r.1.send, r.2.recv)
                &&& r.1.error_code == r.2.error_code
                &&& r.2.buf is None
            },
        forall|r: (Counter<W>, WriteStreamBackend<G, S>, WriteStream<G, S>)| #[trigger]
            call_ensures(write_stream_pair::<W, G, S>, (size,), r) ==> {
                &&& r.0.room() == size
                &&& r.0.used == 0
                &&& joined(r.2.send, r.1.recv)
                &&& r.1.buf is None
                &&& r.1.error_code == 0
            },
{
}

} // verus!
