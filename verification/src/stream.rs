//! Streams: one end for the user, one for the quic backend.
use crate::buf;
use crate::buf::bytes_len;
use crate::buf::bytes_new;
use crate::buf::bytes_split_to;
use crate::error::AqErr;
use crate::error::AqResult;
use crate::runtime::OnceSend;
use backend::Chunk;
use backend::WriteCmdInner;
use bytes::Bytes;
use counter::CounterAddPermit;
use counter::Hold;
use std::sync::atomic::AtomicU64;
use std::sync::Arc;
use std::task::Context;
use std::task::Poll;
use tokio::sync::mpsc::UnboundedReceiver;
use tokio::sync::mpsc::UnboundedSender;
use vstd::prelude::*;

pub mod backend;
pub mod buf_list;
pub mod counter;
pub mod flow;
pub mod pair;

verus! {

/// Quic read stream
#[verifier::reject_recursive_types(G)]
pub struct ReadStream<G: Hold> {
    /// where the data comes from
    pub recv: UnboundedReceiver<AqResult<Chunk<G>>>,
    /// data that came before and is not yet read
    pub buf: Option<Chunk<G>>,
    /// the code that the stream is stopped with
    pub error_code: Arc<AtomicU64>,
}

/// What a read of at most `max_len` bytes off `chunk` hands out and leaves: the
/// front of the data, and what comes after it under a permit for as much.
pub open spec fn served<G: Hold>(
    chunk: Chunk<G>,
    max_len: int,
    out: Bytes,
    left: Option<Chunk<G>>,
) -> bool {
    let data = chunk.spec_data();
    &&& chunk.fits()
    &&& if max_len == 0 {
        buf::bytes_view(out).len() == 0 && left == Some(chunk)
    } else {
        &&& buf::bytes_view(out) == data.take(flow::min_len(max_len, data.len() as int))
        &&& if data.len() <= max_len {
            left is None
        } else {
            &&& left matches Some(rest)
            &&& rest.spec_data() == data.skip(max_len)
            &&& rest.fits()
            &&& chunk.spec_permit().shrunk(data.len() - max_len, rest.spec_permit())
        }
    }
}

/// The hold that a read of at most `max_len` bytes off `chunk` sets free: that
/// of the whole chunk, where nothing is left of it. Where something is, the hold
/// stays with it, less the room that it was told to give back.
pub open spec fn freed<G: Hold>(chunk: Chunk<G>, max_len: int) -> Option<G> {
    if 0 < chunk.spec_data().len() <= max_len {
        Some(chunk.spec_permit().spec_hold())
    } else {
        None
    }
}

impl<G: Hold> ReadStream<G> {
    /// The hold that a read of at most `max_len` bytes sets free, where the
    /// channel was asked and gave `got`, if it was.
    pub open spec fn frees(
        self,
        got: Option<Poll<Option<AqResult<Chunk<G>>>>>,
        max_len: int,
    ) -> Option<G> {
        match (self.buf, got) {
            (Some(chunk), _) => freed(chunk, max_len),
            (None, Some(Poll::Ready(Some(Ok(chunk))))) => freed(chunk, max_len),
            _ => None,
        }
    }

    /// What a read of at most `max_len` bytes means: what is buffered comes
    /// first, and the channel is asked, and gives `got`, only where nothing is.
    /// `left` is buffered then.
    pub open spec fn reads(
        self,
        got: Option<Poll<Option<AqResult<Chunk<G>>>>>,
        max_len: int,
        left: Option<Chunk<G>>,
        r: Poll<Option<AqResult<Bytes>>>,
    ) -> bool {
        match (self.buf, got) {
            (Some(chunk), None) => {
                &&& r matches Poll::Ready(Some(Ok(out)))
                &&& served(chunk, max_len, out, left)
            },
            (None, Some(Poll::Ready(Some(Ok(chunk))))) => {
                &&& r matches Poll::Ready(Some(Ok(out)))
                &&& served(chunk, max_len, out, left)
            },
            (None, Some(Poll::Ready(Some(Err(e))))) => {
                &&& r == Poll::Ready(Some(Err::<Bytes, AqErr>(e)))
                &&& left is None
            },
            (None, Some(Poll::Ready(None))) => {
                &&& r == Poll::Ready(None::<AqResult<Bytes>>)
                &&& left is None
            },
            (None, Some(Poll::Pending)) => r is Pending && left is None,
            _ => false,
        }
    }

    /// Read from the buffer, which holds something. With the bytes comes the
    /// hold that is set free.
    pub fn read_buffered(&mut self, max_len: usize) -> (r: (Bytes, Option<G>))
        requires
            old(self).buf is Some,
        ensures
            final(self).recv == old(self).recv,
            final(self).error_code == old(self).error_code,
            served(old(self).buf->0, max_len as int, r.0, final(self).buf),
            r.1 == freed(old(self).buf->0, max_len as int),
    {
        match self.buf.take() {
            None => (bytes_new(), None),
            Some(chunk) => {
                chunk.known();
                if max_len == 0 {
                    self.buf = Some(chunk);
                    return (bytes_new(), None);
                }
                let (mut b, p) = chunk.into_parts();
                let ghost data = buf::bytes_view(b);
                if bytes_len(&b) <= max_len {
                    assert(data.take(data.len() as int) == data);
                    (b, Some(p.into_hold()))
                } else {
                    let out = bytes_split_to(&mut b, max_len);
                    let rest = Chunk::fit(p, b);
                    rest.known();
                    self.buf = Some(rest);
                    (out, None)
                }
            },
        }
    }

    /// Read a chunk of data from the stream, and the hold that is set free by
    /// it
    pub fn poll_read(&mut self, cx: &mut Context<'_>, max_len: usize) -> (r: (
        Poll<Option<AqResult<Bytes>>>,
        Option<G>,
    ))
        ensures
            final(self).error_code == old(self).error_code,
            exists|got: Option<Poll<Option<AqResult<Chunk<G>>>>>| #[trigger]
                old(self).reads(got, max_len as int, final(self).buf, r.0) && r.1 == old(
                    self,
                ).frees(got, max_len as int) && match got {
                    None => final(self).recv == old(self).recv,
                    Some(got) => exists|a: &mut UnboundedReceiver<AqResult<Chunk<G>>>|
                        {
                            &&& *a == old(self).recv
                            &&& *final(a) == final(self).recv
                            &&& #[trigger] backend::asked(a, got)
                        },
                },
    {
        if self.buf.is_some() {
            let (out, hold) = self.read_buffered(max_len);
            let r: (Poll<Option<AqResult<Bytes>>>, Option<G>) = (Poll::Ready(Some(Ok(out))), hold);
            assert(old(self).reads(None, max_len as int, self.buf, r.0));
            return r;
        }
        let got = backend::ask(&mut self.recv, cx);
        let ghost gave = got;
        let r = match got {
            Poll::Pending => (Poll::Pending, None),
            Poll::Ready(None) => (Poll::Ready(None), None),
            Poll::Ready(Some(Err(e))) => (Poll::Ready(Some(Err(e))), None),
            Poll::Ready(Some(Ok(chunk))) => {
                self.buf = Some(chunk);
                let (out, hold) = self.read_buffered(max_len);
                (Poll::Ready(Some(Ok(out))), hold)
            },
        };
        assert(old(self).reads(Some(gave), max_len as int, self.buf, r.0));
        r
    }

    /// Read a chunk of data from the stream. A hold that is set free goes away.
    pub fn poll_read_bytes(&mut self, cx: &mut Context<'_>, max_len: usize) -> (r: Poll<
        Option<AqResult<Bytes>>,
    >)
        ensures
            final(self).error_code == old(self).error_code,
            exists|got: Option<Poll<Option<AqResult<Chunk<G>>>>>| #[trigger]
                old(self).reads(got, max_len as int, final(self).buf, r) && match got {
                    None => final(self).recv == old(self).recv,
                    Some(got) => exists|a: &mut UnboundedReceiver<AqResult<Chunk<G>>>|
                        {
                            &&& *a == old(self).recv
                            &&& *final(a) == final(self).recv
                            &&& #[trigger] backend::asked(a, got)
                        },
                },
    {
        let (r, _) = self.poll_read(cx, max_len);
        r
    }

    /// Cancel the stream with given error code
    pub fn stop(self, error_code: u64) -> (r: ())
        ensures
            call_ensures(
                AtomicU64::store,
                (&*self.error_code, error_code, std::sync::atomic::Ordering::Release),
                r,
            ),
    {
        self.error_code.store(error_code, std::sync::atomic::Ordering::Release);
    }
}

/// Quic write stream
#[verifier::reject_recursive_types(G)]
#[verifier::reject_recursive_types(S)]
pub struct WriteStream<G: Hold, S: OnceSend<AqResult<()>>> {
    /// where the data goes
    pub send: UnboundedSender<WriteCmdInner<G, S>>,
}

/// What the user learns of an attempt to hand something to the backend's end.
pub open spec fn outcome(sent: bool, r: AqResult<()>) -> bool {
    if sent {
        r == Ok::<(), AqErr>(())
    } else {
        r == Err::<(), AqErr>(AqErr::ChannelClosed)
    }
}

/// What the user learns of an attempt to hand something to the backend's end.
pub fn write_outcome(sent: bool) -> (r: AqResult<()>)
    ensures
        outcome(sent, r),
{
    if sent {
        Ok(())
    } else {
        Err(AqErr::ChannelClosed)
    }
}

impl<G: Hold, S: OnceSend<AqResult<()>>> WriteStream<G, S> {
    /// Whether the front of `data` that `permit` covers was handed to the
    /// channel behind `send` in `chunk`, and `r` is what the user learns of it.
    pub open spec fn wrote(
        send: &mut UnboundedSender<WriteCmdInner<G, S>>,
        permit: CounterAddPermit<G>,
        data: Seq<u8>,
        chunk: Chunk<G>,
        r: AqResult<()>,
    ) -> bool {
        &&& chunk.spec_data() == data.take(flow::min_len(permit.spec_len(), data.len() as int))
        &&& permit.shrunk(chunk.spec_data().len() as int, chunk.spec_permit())
        &&& backend::handed(send, WriteCmdInner::Data(chunk), r is Ok)
        &&& r is Err ==> r == Err::<(), AqErr>(AqErr::ChannelClosed)
    }

    proof fn lemma_wrote(permit: CounterAddPermit<G>, data: Seq<u8>)
        ensures
            forall|
                send: &mut UnboundedSender<WriteCmdInner<G, S>>,
                chunk: Chunk<G>,
                sent: bool,
                r: AqResult<()>,
            |
                #![trigger backend::handed(send, WriteCmdInner::Data(chunk), sent), outcome(sent, r)]
                {
                    &&& chunk.spec_data() == data.take(
                        flow::min_len(permit.spec_len(), data.len() as int),
                    )
                    &&& permit.shrunk(chunk.spec_data().len() as int, chunk.spec_permit())
                    &&& backend::handed(send, WriteCmdInner::Data(chunk), sent)
                    &&& outcome(sent, r)
                } ==> Self::wrote(send, permit, data, chunk, r),
    {
    }

    /// Write data to the stream: as much of the front of `data` as `reserved`
    /// covers, the room that the stream's counter had, if any.
    pub fn poll_write_bytes(
        &mut self,
        reserved: Option<CounterAddPermit<G>>,
        data: &mut Bytes,
    ) -> (r: Poll<AqResult<()>>)
        requires
            reserved is Some ==> buf::bytes_view(*old(data)).len() > 0,
        ensures
            reserved is None ==> {
                &&& r is Pending
                &&& *final(self) == *old(self)
                &&& *final(data) == *old(data)
            },
            reserved matches Some(p) ==> {
                &&& r matches Poll::Ready(res)
                &&& exists|a: &mut UnboundedSender<WriteCmdInner<G, S>>, chunk: Chunk<G>|
                    {
                        &&& *a == old(self).send
                        &&& *final(a) == final(self).send
                        &&& #[trigger] Self::wrote(
                            a,
                            p,
                            buf::bytes_view(*old(data)),
                            chunk,
                            res,
                        )
                    }
                &&& buf::bytes_view(*final(data)) == buf::bytes_view(*old(data)).skip(
                    flow::min_len(p.spec_len(), buf::bytes_view(*old(data)).len() as int),
                )
            },
    {
        match reserved {
            None => Poll::Pending,
            Some(permit) => {
                proof {
                    Self::lemma_wrote(permit, buf::bytes_view(*data));
                }
                let chunk = Chunk::cut(permit, data);
                let sent = backend::hand(&mut self.send, WriteCmdInner::Data(chunk));
                Poll::Ready(write_outcome(sent))
            },
        }
    }

    /// Stop this write channel with error_code; `ack` is told when the
    /// backend's end has seen it.
    pub fn stop(self, error_code: u64, ack: S) -> (r: AqResult<()>)
        ensures
            exists|a: &mut UnboundedSender<WriteCmdInner<G, S>>, sent: bool|
                {
                    &&& *a == self.send
                    &&& #[trigger] backend::handed(
                        a,
                        WriteCmdInner::Stop(error_code, Some(ack)),
                        sent,
                    )
                    &&& outcome(sent, r)
                },
    {
        let mut send = self.send;
        let sent = backend::hand(&mut send, WriteCmdInner::Stop(error_code, Some(ack)));
        write_outcome(sent)
    }
}

/// The law of reading a part: what is handed out and what is left are together
/// what was there, byte for byte; at most as much is handed out as was asked
/// for, and something unless nothing was; something is left only where all that
/// was asked for was handed out, and its permit is for just that much. The hold
/// is set free exactly where nothing is left, and is that of the data.
pub proof fn law_served<G: Hold>(chunk: Chunk<G>, max_len: int, out: Bytes, left: Option<Chunk<G>>)
    requires
        0 <= max_len,
        served(chunk, max_len, out, left),
    ensures
        chunk.spec_data() == buf::bytes_view(out) + match left {
            Some(rest) => rest.spec_data(),
            None => Seq::empty(),
        },
        buf::bytes_view(out).len() <= max_len,
        max_len > 0 ==> buf::bytes_view(out).len() > 0,
        left is Some ==> buf::bytes_view(out).len() == max_len,
        left matches Some(rest) ==> rest.spec_permit().spec_len() == rest.spec_data().len(),
        freed(chunk, max_len) is Some <==> left is None,
        freed(chunk, max_len) matches Some(hold) ==> hold == chunk.spec_permit().spec_hold(),
{
    let data = chunk.spec_data();
    if max_len == 0 {
        assert(data =~= buf::bytes_view(out) + data);
    } else if data.len() <= max_len {
        assert(data =~= buf::bytes_view(out) + Seq::empty());
    } else {
        assert(data =~= data.take(max_len) + data.skip(max_len));
    }
}

/// The law of what a read gives: what is buffered comes first, and then nothing
/// is asked of the channel; else just what the channel gave comes out, be it
/// data, an error, the end or nothing yet. Nothing stays buffered but the rest
/// of data of which a part was read.
pub proof fn law_read_gives<G: Hold>(
    stream: ReadStream<G>,
    got: Option<Poll<Option<AqResult<Chunk<G>>>>>,
    max_len: int,
    left: Option<Chunk<G>>,
    r: Poll<Option<AqResult<Bytes>>>,
)
    requires
        0 <= max_len,
        stream.reads(got, max_len, left, r),
    ensures
        got is None <==> stream.buf is Some,
        r is Pending <==> (got matches Some(Poll::Pending)),
        r matches Poll::Ready(None) <==> (got matches Some(Poll::Ready(None))),
        r matches Poll::Ready(Some(Err(err))) ==> got == Some(
            Poll::Ready(Some(Err::<Chunk<G>, AqErr>(err))),
        ),
        got matches Some(Poll::Ready(Some(Err(err)))) ==> r == Poll::Ready(
            Some(Err::<Bytes, AqErr>(err)),
        ),
        stream.buf matches Some(chunk) ==> {
            &&& r matches Poll::Ready(Some(Ok(out)))
            &&& chunk.spec_data() == buf::bytes_view(out) + match left {
                Some(rest) => rest.spec_data(),
                None => Seq::empty(),
            }
        },
        got matches Some(Poll::Ready(Some(Ok(chunk)))) ==> {
            &&& r matches Poll::Ready(Some(Ok(out)))
            &&& chunk.spec_data() == buf::bytes_view(out) + match left {
                Some(rest) => rest.spec_data(),
                None => Seq::empty(),
            }
        },
        left is Some ==> (r matches Poll::Ready(Some(Ok(_)))),
{
    if let Poll::Ready(Some(Ok(out))) = r {
        match (stream.buf, got) {
            (Some(chunk), _) => law_served(chunk, max_len, out, left),
            (None, Some(Poll::Ready(Some(Ok(chunk))))) => law_served(chunk, max_len, out, left),
            _ => {},
        }
    }
}

/// The law of writing a part: the front of the data goes out, as much as the
/// room that was reserved covers or all of it, and no more; the user learns that
/// all is well exactly where the channel took it, and else that it is closed.
pub proof fn law_wrote<G: Hold, S: OnceSend<AqResult<()>>>(
    permit: CounterAddPermit<G>,
    data: Seq<u8>,
    chunk: Chunk<G>,
    r: AqResult<()>,
)
    requires
        0 < permit.spec_len(),
        exists|a: &mut UnboundedSender<WriteCmdInner<G, S>>| #[trigger]
            WriteStream::<G, S>::wrote(a, permit, data, chunk, r),
    ensures
        chunk.spec_data().is_prefix_of(data),
        chunk.spec_data().len() <= permit.spec_len(),
        chunk.spec_data().len() == permit.spec_len() || chunk.spec_data() == data,
        r matches Err(err) ==> err == AqErr::ChannelClosed,
        exists|a: &mut UnboundedSender<WriteCmdInner<G, S>>| #[trigger]
            backend::handed(a, WriteCmdInner::Data(chunk), r is Ok),
{
    let a = choose|a: &mut UnboundedSender<WriteCmdInner<G, S>>| #[trigger]
        WriteStream::<G, S>::wrote(a, permit, data, chunk, r);
    assert(backend::handed(a, WriteCmdInner::Data(chunk), r is Ok));
    assert(data.take(data.len() as int) =~= data);
}

/// The law of what a user learns of a write: that all is well exactly where the
/// channel took it, and else that it is closed.
pub proof fn law_write_outcome(sent: bool, r: AqResult<()>)
    requires
        call_ensures(write_outcome, (sent,), r),
    ensures
        sent <==> r is Ok,
        r matches Err(err) ==> err == AqErr::ChannelClosed,
{
}

} // verus!
