//! One stream of a connection: moving data between the two ends.
use super::proto;
use super::proto::varint_from_u64;
use crate::error::AqErr;
use crate::error::AqResult;
use crate::stream::backend;
use crate::stream::backend::Chunk;
use crate::stream::backend::ReadStreamBackend;
use crate::stream::counter::Hold;
use quinn_proto::VarInt;
use std::task::Poll;
use tokio::sync::mpsc::UnboundedSender;
use vstd::prelude::*;

verus! {

/// The backend of a read stream, as far as it can be stopped.
pub trait ReadEnd: Sized {
    /// Shutdown this read stream with given error
    fn stop(self, err: AqErr);
}

/// Whether the read half that was there, if any, was told to stop with the
/// error.
pub open spec fn told_to_stop<R: ReadEnd>(read: Option<R>, err: AqErr) -> bool {
    read matches Some(rb) ==> call_ensures(R::stop, (rb, err), ())
}

impl<G: Hold> ReadEnd for ReadStreamBackend<G> {
    fn stop(self, err: AqErr)
        ensures
            exists|a: &mut UnboundedSender<AqResult<Chunk<G>>>, sent: bool|
                *a == self.send && #[trigger] backend::handed(a, Err(err), sent),
    {
        ReadStreamBackend::stop(self, err)
    }
}

/// A stream and what is known of it. `R` and `W` are the backends of its read
/// and write half.
pub struct StreamInfo<R, W> {
    /// the number of the stream
    pub stream_id: u64,
    /// the read half, as long as there is one
    pub read: Option<R>,
    /// whether there may be data to read
    pub readable: bool,
    /// the write half, as long as there is one
    pub write: Option<W>,
    /// whether data may be written
    pub writable: bool,
}

/// What came of an attempt to get room for a chunk with a permit `P`.
pub enum ReadEvt<P, B> {
    /// before the first chunk; with the code of a user that is gone
    First(Poll<Result<P, u64>>),
    /// whether the stream could be opened for reading, with the permit
    Opened(P, bool),
    /// what came of asking for a chunk, with the permit
    Chunk(P, ChunkRead<B>),
    /// before a further chunk; with the code of a user that is gone
    More(Poll<Result<P, u64>>),
}

/// What came of asking for a chunk of data.
pub enum ChunkRead<B> {
    /// nothing is there yet
    Blocked,
    /// reading failed
    Failed(AqErr),
    /// there will be no more
    End,
    /// data
    Data(B),
}

/// What to do next when reading.
pub enum ReadAct<P, B> {
    /// open the stream for reading
    Open(P),
    /// ask for a chunk that fits the permit
    Next(P),
    /// hand the data to the user, then ask for more room
    Send(P, B),
    /// tell the other side to stop, with this code; then reading is over
    Stop(VarInt),
    /// reading is over for now
    Done,
}

/// What the other side is told when the user stopped with `code`: nothing
/// where quic cannot carry the code.
pub open spec fn stop_act<P, B>(code: u64, act: ReadAct<P, B>) -> bool {
    if code < proto::varint_bound() {
        act matches ReadAct::Stop(v) && proto::varint_view(v) == code
    } else {
        act is Done
    }
}

/// What came of an attempt to write.
pub enum WriteResult {
    /// so many bytes were written
    Wrote(usize),
    /// no data can be written now
    Blocked,
    /// writing failed
    Failed,
}

/// What came of the last action when writing.
pub enum WriteEvt<D> {
    /// what the user sent, if anything is there
    Cmd(Poll<WriteCmdKind<D>>),
    /// what came of the attempt to write the data
    Written(D, WriteResult),
}

/// What the user of a write stream sent.
pub enum WriteCmdKind<D> {
    /// data
    Data(D),
    /// no more data will come; the code says why, 0 that all is well
    Stop(u64),
}

/// What to do next when writing.
pub enum WriteAct<D> {
    /// see what the user sent
    Recv,
    /// write the data
    Write(D),
    /// drop so many bytes from the front of the data, finish it, then see what
    /// the user sent
    Advance(D, usize),
    /// finish the data as it is; writing is over for now
    Finish(D),
    /// end the stream in order; writing is over
    End,
    /// end the stream with this code; writing is over
    Reset(VarInt),
    /// writing is over for now
    Done,
}

impl<R, W> StreamInfo<R, W> {
    /// A new stream with these halves.
    pub open spec fn spec_new(stream_id: u64, read: Option<R>, write: Option<W>) -> Self {
        StreamInfo { stream_id, read, readable: true, write, writable: true }
    }
}

impl<R: ReadEnd, W> StreamInfo<R, W> {
    /// An outgoing stream that only we write to.
    pub fn uni_out(stream_id: u64, write: W) -> (r: Self)
        ensures
            r == (StreamInfo {
                stream_id,
                read: None::<R>,
                readable: true,
                write: Some(write),
                writable: true,
            }),
    {
        StreamInfo { stream_id, read: None, readable: true, write: Some(write), writable: true }
    }

    /// An incoming stream that only the other side writes to.
    pub fn uni_in(stream_id: u64, read: R) -> (r: Self)
        ensures
            r == (StreamInfo {
                stream_id,
                read: Some(read),
                readable: true,
                write: None::<W>,
                writable: true,
            }),
    {
        StreamInfo { stream_id, read: Some(read), readable: true, write: None, writable: true }
    }

    /// A stream that both sides write to.
    pub fn bi(stream_id: u64, read: R, write: W) -> (r: Self)
        ensures
            r == (StreamInfo {
                stream_id,
                read: Some(read),
                readable: true,
                write: Some(write),
                writable: true,
            }),
    {
        StreamInfo {
            stream_id,
            read: Some(read),
            readable: true,
            write: Some(write),
            writable: true,
        }
    }

    /// There may be data to read.
    pub fn set_readable(&mut self)
        ensures
            *final(self) == (StreamInfo { readable: true, ..*old(self) }),
    {
        self.readable = true;
    }

    /// Data may be written.
    pub fn set_writable(&mut self)
        ensures
            *final(self) == (StreamInfo { writable: true, ..*old(self) }),
    {
        self.writable = true;
    }

    /// The stream is over: both halves go away.
    pub fn finish(self) {
        let StreamInfo { read: _, write: _, .. } = self;
    }

    /// The other side stopped the stream: the reader is told with the code.
    pub fn stop(self, code: u64)
        ensures
            told_to_stop(self.read, AqErr::Stopped(code)),
    {
        if let Some(rb) = self.read {
            rb.stop(AqErr::Stopped(code));
        }
    }

    /// Whether the stream is to be read from now.
    pub fn wants_read(&self) -> (r: bool)
        ensures
            r == (self.readable && self.read is Some),
    {
        self.readable && self.read.is_some()
    }

    /// Whether the stream is to be written to now.
    pub fn wants_write(&self) -> (r: bool)
        ensures
            r == (self.writable && self.write is Some),
    {
        self.writable && self.write.is_some()
    }

    /// Whether nothing is left of the stream.
    pub fn is_gone(&self) -> (r: bool)
        ensures
            r == (self.read is None && self.write is None),
    {
        self.read.is_none() && self.write.is_none()
    }

    /// What a step in reading comes to: the stream `after` it, and what to do
    /// next.
    pub open spec fn reads<P, B>(self, evt: ReadEvt<P, B>, after: Self, r: ReadAct<P, B>) -> bool {
        &&& after.stream_id == self.stream_id
        &&& after.write == self.write
        &&& after.writable == self.writable
        &&& match evt {
            ReadEvt::First(Poll::Ready(Err(code))) | ReadEvt::More(
                Poll::Ready(Err(code)),
            ) => after.read is None && stop_act(code, r),
            ReadEvt::First(Poll::Ready(Ok(p))) => after.read == self.read && r == ReadAct::<
                P,
                B,
            >::Open(p),
            ReadEvt::Opened(p, true) | ReadEvt::More(Poll::Ready(Ok(p))) => after.read == self.read
                && r == ReadAct::<P, B>::Next(p),
            ReadEvt::Opened(_, false) => after.read is None && r is Done,
            ReadEvt::Chunk(_, ChunkRead::Blocked) | ReadEvt::First(Poll::Pending) | ReadEvt::More(
                Poll::Pending,
            ) => after.read == self.read && r is Done,
            ReadEvt::Chunk(_, ChunkRead::Failed(err)) => {
                &&& after.read is None
                &&& r is Done
                &&& told_to_stop(self.read, err)
            },
            ReadEvt::Chunk(_, ChunkRead::End) => after.read is None && r is Done,
            ReadEvt::Chunk(p, ChunkRead::Data(b)) => after.read == self.read && r == ReadAct::<
                P,
                B,
            >::Send(p, b),
        }
        &&& after.readable == (self.readable && !(evt matches ReadEvt::Chunk(
            _,
            ChunkRead::Blocked,
        )))
    }

    /// What a step in writing comes to: the stream `after` it, and what to do
    /// next.
    pub open spec fn writes<D>(self, evt: WriteEvt<D>, after: Self, r: WriteAct<D>) -> bool {
        &&& after.stream_id == self.stream_id
        &&& after.read == self.read
        &&& after.readable == self.readable
        &&& match evt {
            WriteEvt::Cmd(Poll::Pending) => after.write == self.write && r is Done,
            WriteEvt::Cmd(Poll::Ready(WriteCmdKind::Data(d))) => after.write == self.write && r
                == WriteAct::Write(d),
            WriteEvt::Cmd(Poll::Ready(WriteCmdKind::Stop(code))) => {
                &&& after.write is None
                &&& code == 0 || code >= proto::varint_bound() ==> r is End
                &&& 0 < code < proto::varint_bound() ==> (r matches WriteAct::Reset(v)
                    && proto::varint_view(v) == code)
            },
            WriteEvt::Written(d, WriteResult::Wrote(n)) => after.write == self.write && r
                == WriteAct::Advance(d, n),
            WriteEvt::Written(d, WriteResult::Blocked) => after.write == self.write && r
                == WriteAct::Finish(d),
            WriteEvt::Written(_, WriteResult::Failed) => after.write is None && r is Done,
        }
        &&& after.writable == (self.writable && !(evt matches WriteEvt::Written(
            _,
            WriteResult::Blocked,
        )))
    }

    /// Go one step on in reading. Where the user is gone, or the stream is at
    /// its end, the read half goes away; where a chunk has to wait for data or
    /// for room, it stays.
    pub fn read<P, B>(&mut self, evt: ReadEvt<P, B>) -> (r: ReadAct<P, B>)
        requires
            old(self).read is Some,
        ensures
            old(self).reads(evt, *final(self), r),
    {
        match evt {
            ReadEvt::First(Poll::Pending) => ReadAct::Done,
            ReadEvt::First(Poll::Ready(Err(code))) => {
                self.read = None;
                Self::stop_with(code)
            },
            ReadEvt::More(Poll::Ready(Err(code))) => {
                self.read = None;
                Self::stop_with(code)
            },
            ReadEvt::First(Poll::Ready(Ok(p))) => ReadAct::Open(p),
            ReadEvt::Opened(p, true) => ReadAct::Next(p),
            ReadEvt::More(Poll::Ready(Ok(p))) => ReadAct::Next(p),
            ReadEvt::Opened(_, false) => {
                self.read = None;
                ReadAct::Done
            },
            ReadEvt::Chunk(_, ChunkRead::Blocked) => {
                self.readable = false;
                ReadAct::Done
            },
            ReadEvt::More(Poll::Pending) => ReadAct::Done,
            ReadEvt::Chunk(_, ChunkRead::Failed(err)) => {
                if let Some(rb) = self.read.take() {
                    rb.stop(err);
                }
                ReadAct::Done
            },
            ReadEvt::Chunk(_, ChunkRead::End) => {
                self.read = None;
                ReadAct::Done
            },
            ReadEvt::Chunk(p, ChunkRead::Data(b)) => ReadAct::Send(p, b),
        }
    }

    fn stop_with<P, B>(code: u64) -> (r: ReadAct<P, B>)
        ensures
            stop_act(code, r),
    {
        match varint_from_u64(code) {
            Some(v) => ReadAct::Stop(v),
            None => ReadAct::Done,
        }
    }

    /// Go one step on in writing. The write half goes away once the user
    /// stopped or writing failed; a code that quic cannot carry counts as 0.
    pub fn write<D>(&mut self, evt: WriteEvt<D>) -> (r: WriteAct<D>)
        requires
            old(self).write is Some,
        ensures
            old(self).writes(evt, *final(self), r),
    {
        match evt {
            WriteEvt::Cmd(Poll::Pending) => WriteAct::Done,
            WriteEvt::Cmd(Poll::Ready(WriteCmdKind::Data(d))) => WriteAct::Write(d),
            WriteEvt::Cmd(Poll::Ready(WriteCmdKind::Stop(code))) => {
                self.write = None;
                match varint_from_u64(code) {
                    Some(v) => {
                        if code == 0 {
                            WriteAct::End
                        } else {
                            WriteAct::Reset(v)
                        }
                    },
                    None => WriteAct::End,
                }
            },
            WriteEvt::Written(d, WriteResult::Wrote(n)) => WriteAct::Advance(d, n),
            WriteEvt::Written(d, WriteResult::Blocked) => {
                self.writable = false;
                WriteAct::Finish(d)
            },
            WriteEvt::Written(_, WriteResult::Failed) => {
                self.write = None;
                WriteAct::Done
            },
        }
    }
}

/// The law of reading a stream: every piece of data goes to the user as it
/// came, with the permit that it was read for; a permit is used to open the
/// stream or to read, and for nothing else. The stream counts as readable until
/// it says that nothing is there. The read half goes away exactly where the
/// user is gone, the stream cannot be read, it is at its end or reading failed;
/// its user is told of the failure. The other side is told to stop exactly
/// where the user is gone, with the user's code, if quic can carry it. Writing
/// is left alone.
pub proof fn law_reading<R: ReadEnd, W, P, B>(
    before: StreamInfo<R, W>,
    evt: ReadEvt<P, B>,
    after: StreamInfo<R, W>,
    act: ReadAct<P, B>,
)
    requires
        before.read is Some,
        before.reads(evt, after, act),
    ensures
        after.stream_id == before.stream_id,
        after.write == before.write,
        after.writable == before.writable,
        ({
            let gone = match evt {
                ReadEvt::First(Poll::Ready(Err(code))) => Some(code),
                ReadEvt::More(Poll::Ready(Err(code))) => Some(code),
                _ => None,
            };
            let blocked = evt matches ReadEvt::Chunk(_, ChunkRead::Blocked);
            &&& evt matches ReadEvt::Chunk(permit, ChunkRead::Data(data)) ==> act == ReadAct::Send(
                permit,
                data,
            )
            &&& act matches ReadAct::Send(permit, data) ==> evt == ReadEvt::Chunk(
                permit,
                ChunkRead::Data(data),
            )
            &&& act matches ReadAct::Open(permit) ==> evt == ReadEvt::<P, B>::First(
                Poll::Ready(Ok(permit)),
            )
            &&& act matches ReadAct::Next(permit) ==> {
                ||| evt == ReadEvt::<P, B>::Opened(permit, true)
                ||| evt == ReadEvt::<P, B>::More(Poll::Ready(Ok(permit)))
            }
            &&& after.readable <==> before.readable && !blocked
            &&& after.read is None || after.read == before.read
            &&& after.read is None <==> {
                ||| gone is Some
                ||| (evt matches ReadEvt::Opened(_, false))
                ||| (evt matches ReadEvt::Chunk(_, ChunkRead::End))
                ||| (evt matches ReadEvt::Chunk(_, ChunkRead::Failed(_)))
            }
            &&& evt matches ReadEvt::Chunk(_, ChunkRead::Failed(err)) ==> call_ensures(
                R::stop,
                (before.read->0, err),
                (),
            )
            &&& act is Stop <==> gone is Some && gone->0 < proto::varint_bound()
            &&& act matches ReadAct::Stop(v) ==> proto::varint_view(v) == gone->0
            &&& act is Done <==> {
                ||| blocked
                ||| evt == ReadEvt::<P, B>::First(Poll::Pending)
                ||| evt == ReadEvt::<P, B>::More(Poll::Pending)
                ||| after.read is None && !(act is Stop)
            }
        }),
{
}

/// The law of writing a stream: data of the user is written as it came, and of
/// what was written just so much is dropped as the stream took. The stream
/// counts as writable until it says that it takes no more. The write half goes
/// away exactly where the user stopped or writing failed. The stream is ended
/// exactly where the user stopped: in order where all is well or quic cannot
/// carry the code, else with the user's code. Reading is left alone.
pub proof fn law_writing<R: ReadEnd, W, D>(
    before: StreamInfo<R, W>,
    evt: WriteEvt<D>,
    after: StreamInfo<R, W>,
    act: WriteAct<D>,
)
    requires
        before.write is Some,
        before.writes(evt, after, act),
    ensures
        after.stream_id == before.stream_id,
        after.read == before.read,
        after.readable == before.readable,
        ({
            let stop = match evt {
                WriteEvt::Cmd(Poll::Ready(WriteCmdKind::Stop(code))) => Some(code),
                _ => None,
            };
            &&& evt matches WriteEvt::Cmd(Poll::Ready(WriteCmdKind::Data(data))) ==> act
                == WriteAct::Write(data)
            &&& act matches WriteAct::Write(data) ==> evt == WriteEvt::Cmd(
                Poll::Ready(WriteCmdKind::Data(data)),
            )
            &&& evt matches WriteEvt::Written(data, WriteResult::Wrote(n)) ==> act
                == WriteAct::Advance(data, n)
            &&& act matches WriteAct::Advance(data, n) ==> evt == WriteEvt::Written(
                data,
                WriteResult::Wrote(n),
            )
            &&& act matches WriteAct::Finish(data) ==> evt == WriteEvt::Written(
                data,
                WriteResult::Blocked,
            )
            &&& after.writable <==> before.writable && !(evt matches WriteEvt::Written(
                _,
                WriteResult::Blocked,
            ))
            &&& after.write is None || after.write == before.write
            &&& after.write is None <==> stop is Some || (evt matches WriteEvt::Written(
                _,
                WriteResult::Failed,
            ))
            &&& act is End || act is Reset <==> stop is Some
            &&& act is Reset <==> stop is Some && 0 < stop->0 < proto::varint_bound()
            &&& act matches WriteAct::Reset(v) ==> proto::varint_view(v) == stop->0
            &&& !(act is Recv)
            &&& evt == WriteEvt::<D>::Cmd(Poll::Pending) ==> act is Done
        }),
{
}

/// The law of one half at a time: as long as a stream is readable with a read
/// half it is to be read, as long as it is writable with a write half it is to
/// be written, and it is gone only once it has neither half.
pub proof fn law_wants<R: ReadEnd, W>(info: StreamInfo<R, W>, reads: bool, writes: bool, gone: bool)
    requires
        call_ensures(StreamInfo::<R, W>::wants_read, (&info,), reads),
        call_ensures(StreamInfo::<R, W>::wants_write, (&info,), writes),
        call_ensures(StreamInfo::<R, W>::is_gone, (&info,), gone),
    ensures
        reads ==> info.readable && info.read is Some && !gone,
        writes ==> info.writable && info.write is Some && !gone,
        info.readable && info.writable && !reads && !writes ==> gone,
        gone <==> info.read is None && info.write is None,
{
}

} // verus!
