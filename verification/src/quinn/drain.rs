//! Moving all there is to move on one stream at once, without waiting to be
//! told that it is readable or writable.
use super::proto;
use super::proto::varint_from_u64;
use super::stream;
use super::stream::ChunkRead;
use super::stream::ReadEnd;
use super::stream::StreamInfo;
use super::stream::WriteCmdKind;
use super::stream::WriteEvt;
use super::stream::WriteResult;
use super::stream_io;
use crate::buf;
use crate::error::AqErr;
use crate::stream::counter::CounterAddPermit;
use crate::stream::counter::Hold;
use bytes::Bytes;
use quinn_proto::Chunks;
use quinn_proto::ReadError;
use quinn_proto::RecvStream;
use quinn_proto::SendStream;
use quinn_proto::VarInt;
use quinn_proto::WriteError;
use std::task::Poll;
use vstd::prelude::*;

verus! {

/// Reading all there is to read.
pub struct ReadDrain {
    /// something was done
    pub did_work: bool,
    /// the read half is to go away
    pub remove: bool,
    /// the error to tell its user
    pub stop_err: Option<AqErr>,
    /// the code that its user is gone with
    pub stop_code: Option<u64>,
}

/// What came of the last action. `P` is the permit for a chunk, `D` its data.
pub enum DrainEvt<P, D> {
    /// whether the stream could be opened for reading
    Opened(bool),
    /// the permit for the next chunk, if there is room
    Permit(Poll<P>),
    /// what came of asking for a chunk
    Chunk(P, ChunkRead<D>),
    /// whether the data was taken, or the code that the user is gone with
    Sent(Result<(), u64>),
    /// whether the connection has something to send because of all this
    Finalized(bool),
}

/// What to do next.
pub enum DrainAct<P, D> {
    /// ask for room for a chunk
    Acquire,
    /// ask for a chunk that fits the permit
    Next(P),
    /// hand the data to the user
    Send(P, D),
    /// end reading, and hear whether the connection has something to send
    Finalize,
    /// tell the other side to stop, with this code; then it is over
    Stop(VarInt),
    /// it is over
    Done,
}

/// Where reading ends: the other side is told to stop where the user is gone
/// with a code that quic can carry.
pub open spec fn drain_end<P, D>(code: Option<u64>, act: DrainAct<P, D>) -> bool {
    match code {
        Some(code) if code < proto::varint_bound() => act matches DrainAct::Stop(v)
            && proto::varint_view(v) == code,
        _ => act is Done,
    }
}

impl ReadDrain {
    /// Begin to read.
    pub fn new() -> (r: Self)
        ensures
            r == (ReadDrain {
                did_work: false,
                remove: false,
                stop_err: None,
                stop_code: None,
            }),
    {
        ReadDrain { did_work: false, remove: false, stop_err: None, stop_code: None }
    }

    /// What a step in reading comes to: the drain `after` it, and what to do
    /// next.
    pub open spec fn reads<P, D>(
        self,
        evt: DrainEvt<P, D>,
        after: ReadDrain,
        r: DrainAct<P, D>,
    ) -> bool {
        match evt {
            DrainEvt::Opened(true) => after == self && r is Acquire,
            DrainEvt::Opened(false) => after == (ReadDrain {
                did_work: true,
                remove: true,
                ..self
            }) && r is Done,
            DrainEvt::Permit(Poll::Pending) | DrainEvt::Chunk(_, ChunkRead::Blocked) => after == self && r is Finalize,
            DrainEvt::Permit(Poll::Ready(p)) => after == self && r
                == DrainAct::<P, D>::Next(p),
            DrainEvt::Chunk(_, ChunkRead::Failed(err)) => after == (ReadDrain {
                did_work: true,
                remove: true,
                stop_err: Some(err),
                ..self
            }) && r is Finalize,
            DrainEvt::Chunk(_, ChunkRead::End) => after == (ReadDrain {
                did_work: true,
                remove: true,
                ..self
            }) && r is Finalize,
            DrainEvt::Chunk(p, ChunkRead::Data(d)) => after == (ReadDrain {
                did_work: true,
                ..self
            }) && r == DrainAct::Send(p, d),
            DrainEvt::Sent(Ok(())) => after == self && r is Acquire,
            DrainEvt::Sent(Err(code)) => after == (ReadDrain {
                remove: true,
                stop_code: Some(code),
                ..self
            }) && r is Finalize,
            DrainEvt::Finalized(transmit) => after == (ReadDrain {
                did_work: self.did_work || transmit,
                ..self
            }) && drain_end(self.stop_code, r),
        }
    }

    /// Go one step on in reading.
    pub fn step<P, D>(&mut self, evt: DrainEvt<P, D>) -> (r: DrainAct<P, D>)
        ensures
            old(self).reads(evt, *final(self), r),
    {
        match evt {
            DrainEvt::Opened(true) => DrainAct::Acquire,
            DrainEvt::Opened(false) => {
                self.did_work = true;
                self.remove = true;
                DrainAct::Done
            },
            DrainEvt::Permit(Poll::Pending) => DrainAct::Finalize,
            DrainEvt::Chunk(_, ChunkRead::Blocked) => DrainAct::Finalize,
            DrainEvt::Permit(Poll::Ready(p)) => DrainAct::Next(p),
            DrainEvt::Chunk(_, ChunkRead::Failed(err)) => {
                self.did_work = true;
                self.remove = true;
                self.stop_err = Some(err);
                DrainAct::Finalize
            },
            DrainEvt::Chunk(_, ChunkRead::End) => {
                self.did_work = true;
                self.remove = true;
                DrainAct::Finalize
            },
            DrainEvt::Chunk(p, ChunkRead::Data(d)) => {
                self.did_work = true;
                DrainAct::Send(p, d)
            },
            DrainEvt::Sent(Ok(())) => DrainAct::Acquire,
            DrainEvt::Sent(Err(code)) => {
                self.remove = true;
                self.stop_code = Some(code);
                DrainAct::Finalize
            },
            DrainEvt::Finalized(transmit) => {
                self.did_work = self.did_work || transmit;
                match self.stop_code {
                    Some(code) => match varint_from_u64(code) {
                        Some(v) => DrainAct::Stop(v),
                        None => DrainAct::Done,
                    },
                    None => DrainAct::Done,
                }
            },
        }
    }

    /// Open the stream for reading, and go one step on.
    pub fn open_read<'a, 'b, G: Hold>(&mut self, recv: &'a mut RecvStream<'b>) -> (r: (
        Option<Chunks<'a>>,
        DrainAct<CounterAddPermit<G>, Bytes>,
    ))
        ensures
            exists|a: &mut RecvStream<'b>|
                {
                    &&& *a == *old(recv)
                    &&& *final(a) == *final(recv)
                    &&& #[trigger] stream_io::opened(a, r.0)
                },
            old(self).reads(
                DrainEvt::<CounterAddPermit<G>, Bytes>::Opened(r.0 is Some),
                *final(self),
                r.1,
            ),
    {
        let chunks = stream_io::open(recv);
        let ok = chunks.is_some();
        let act = self.step(DrainEvt::Opened(ok));
        (chunks, act)
    }

    /// Ask the stream for as much data as the permit covers, and go one step on
    /// in reading. What is to be handed to the user fits the permit.
    pub fn read_chunk<'a, G: Hold>(
        &mut self,
        chunks: &mut Chunks<'a>,
        permit: CounterAddPermit<G>,
    ) -> (r: DrainAct<CounterAddPermit<G>, Bytes>)
        ensures
            exists|
                a: &mut Chunks<'a>,
                got: Result<Option<Bytes>, ReadError>,
                chunk: ChunkRead<Bytes>,
            |
                #![trigger stream_io::came(a, permit.spec_len(), got), stream_io::says_chunk(got, chunk)]
                {
                    &&& *a == *old(chunks)
                    &&& *final(a) == *final(chunks)
                    &&& stream_io::came(a, permit.spec_len(), got)
                    &&& stream_io::says_chunk(got, chunk)
                    &&& old(self).reads(DrainEvt::Chunk(permit, chunk), *final(self), r)
                },
            r matches DrainAct::Send(p, b) ==> p == permit && buf::bytes_view(b).len()
                <= p.spec_len(),
    {
        let max_len: usize = permit.len();
        let chunk = stream_io::next_chunk(chunks, max_len);
        self.step(DrainEvt::Chunk(permit, chunk))
    }

    /// Reading is over, and the connection has something to send because of it
    /// or not: where the user is gone with a code that quic can carry, the
    /// other side is told to stop.
    pub fn end_read<'a>(&mut self, recv: &mut RecvStream<'a>, transmit: bool)
        ensures
            *final(self) == (ReadDrain { did_work: old(self).did_work || transmit, ..*old(self) }),
            match old(self).stop_code {
                Some(code) if code < proto::varint_bound() => exists|
                    a: &mut RecvStream<'a>,
                    v: VarInt,
                |
                    {
                        &&& *a == *old(recv)
                        &&& *final(a) == *final(recv)
                        &&& proto::varint_view(v) == code
                        &&& #[trigger] stream_io::told(a, v)
                    },
                _ => *final(recv) == *old(recv),
            },
    {
        let act: DrainAct<(), ()> = self.step(DrainEvt::Finalized(transmit));
        if let DrainAct::Stop(code) = act {
            stream_io::tell_stop(recv, code);
        }
    }

    /// Reading is over: the read half goes away where it has to, and its user
    /// is told of an error. Whether something was done.
    pub fn finish<R: ReadEnd, W>(self, info: &mut StreamInfo<R, W>) -> (did_work: bool)
        ensures
            did_work == self.did_work,
            self.remove ==> *final(info) == (StreamInfo { read: None::<R>, ..*old(info) }),
            self.remove ==> (self.stop_err matches Some(err) ==> stream::told_to_stop(
                old(info).read,
                err,
            )),
            !self.remove ==> *final(info) == *old(info),
    {
        if self.remove {
            let read = info.read.take();
            if let Some(err) = self.stop_err {
                if let Some(rb) = read {
                    rb.stop(err);
                }
            }
        }
        self.did_work
    }
}

/// Writing all there is to write.
#[derive(Clone, Copy)]
pub struct WriteDrain {
    /// something was done
    pub did_work: bool,
    /// the write half is to go away
    pub remove: bool,
}

/// What to do next.
pub enum WriteDrainAct<D> {
    /// write the data
    Write(D),
    /// drop so many bytes from the front of the data, finish it, then see what
    /// the user sent
    Advance(D, usize),
    /// end the stream in order; then it is over
    End,
    /// end the stream with this code; then it is over
    Reset(VarInt),
    /// it is over
    Done,
}

impl WriteDrain {
    /// Begin to write.
    pub fn new() -> (r: Self)
        ensures
            r == (WriteDrain { did_work: false, remove: false }),
    {
        WriteDrain { did_work: false, remove: false }
    }

    /// What a step in writing comes to: the drain `after` it, and what to do
    /// next.
    pub open spec fn writes<D>(
        self,
        evt: WriteEvt<D>,
        after: WriteDrain,
        r: WriteDrainAct<D>,
    ) -> bool {
        match evt {
            WriteEvt::Cmd(Poll::Pending) => after == self && r is Done,
            WriteEvt::Cmd(Poll::Ready(WriteCmdKind::Data(d))) => after == (WriteDrain {
                did_work: true,
                ..self
            }) && r == WriteDrainAct::Write(d),
            WriteEvt::Cmd(Poll::Ready(WriteCmdKind::Stop(code))) => {
                &&& after == (WriteDrain { did_work: true, remove: true })
                &&& code == 0 || code >= proto::varint_bound() ==> r is End
                &&& 0 < code < proto::varint_bound() ==> (r matches WriteDrainAct::Reset(v)
                    && proto::varint_view(v) == code)
            },
            WriteEvt::Written(d, WriteResult::Wrote(n)) => after == self && r
                == WriteDrainAct::Advance(d, n),
            WriteEvt::Written(_, _) => after == (WriteDrain {
                remove: true,
                ..self
            }) && r is Done,
        }
    }

    /// Go one step on in writing. Whatever keeps the data from being written
    /// makes the write half go away.
    pub fn step<D>(&mut self, evt: WriteEvt<D>) -> (r: WriteDrainAct<D>)
        ensures
            old(self).writes(evt, *final(self), r),
    {
        match evt {
            WriteEvt::Cmd(Poll::Pending) => WriteDrainAct::Done,
            WriteEvt::Cmd(Poll::Ready(WriteCmdKind::Data(d))) => {
                self.did_work = true;
                WriteDrainAct::Write(d)
            },
            WriteEvt::Cmd(Poll::Ready(WriteCmdKind::Stop(code))) => {
                self.did_work = true;
                self.remove = true;
                match varint_from_u64(code) {
                    Some(v) => {
                        if code == 0 {
                            WriteDrainAct::End
                        } else {
                            WriteDrainAct::Reset(v)
                        }
                    },
                    None => WriteDrainAct::End,
                }
            },
            WriteEvt::Written(d, WriteResult::Wrote(n)) => WriteDrainAct::Advance(d, n),
            WriteEvt::Written(_, _) => {
                self.remove = true;
                WriteDrainAct::Done
            },
        }
    }

    /// Write the data, as much of it as there is room for, and go one step on
    /// in writing. No more is to be dropped from its front than there is.
    pub fn write_data<'a, P>(&mut self, send: &mut SendStream<'a>, data: Bytes, rest: P) -> (r:
        WriteDrainAct<(Bytes, P)>)
        ensures
            exists|a: &mut SendStream<'a>, got: Result<usize, WriteError>|
                {
                    &&& *a == *old(send)
                    &&& *final(a) == *final(send)
                    &&& #[trigger] stream_io::wrote(a, buf::bytes_view(data), got)
                    &&& old(self).writes(
                        WriteEvt::Written((data, rest), stream_io::spec_write_result(got)),
                        *final(self),
                        r,
                    )
                },
            r matches WriteDrainAct::Advance((d, _), n) ==> n <= buf::bytes_view(d).len(),
    {
        let res = stream_io::write_bytes(send, &data);
        self.step(WriteEvt::Written((data, rest), res))
    }

    /// Take up what the user of the write half sent: where that is the end, the
    /// stream is ended.
    pub fn take_cmd<'a, D>(&mut self, send: &mut SendStream<'a>, cmd: Poll<WriteCmdKind<D>>) -> (r:
        WriteDrainAct<D>)
        ensures
            cmd matches Poll::Ready(WriteCmdKind::Stop(code)) ==> {
                &&& *final(self) == (WriteDrain { did_work: true, remove: true })
                &&& r is Done
                &&& exists|a: &mut SendStream<'a>|
                    {
                        &&& *a == *old(send)
                        &&& *final(a) == *final(send)
                        &&& #[trigger] stream_io::code_ended(a, code)
                    }
            },
            !(cmd matches Poll::Ready(WriteCmdKind::Stop(_))) ==> *final(send) == *old(send) && old(
                self,
            ).writes(WriteEvt::Cmd(cmd), *final(self), r),
    {
        proof {
            if let Poll::Ready(WriteCmdKind::Stop(code)) = cmd {
                stream_io::lemma_code_ended(code);
            }
        }
        match self.step(WriteEvt::Cmd(cmd)) {
            WriteDrainAct::End => {
                stream_io::end(send, None);
                WriteDrainAct::Done
            },
            WriteDrainAct::Reset(code) => {
                stream_io::end(send, Some(code));
                WriteDrainAct::Done
            },
            act => act,
        }
    }

    /// Writing is over: the write half goes away where it has to. Whether
    /// something was done.
    pub fn finish<R: ReadEnd, W>(self, info: &mut StreamInfo<R, W>) -> (did_work: bool)
        ensures
            did_work == self.did_work,
            self.remove ==> *final(info) == (StreamInfo { write: None::<W>, ..*old(info) }),
            !self.remove ==> *final(info) == *old(info),
    {
        if self.remove {
            info.write = None;
        }
        self.did_work
    }
}

/// The law of reading all there is: every piece of data goes to the user as it
/// came, with the permit that it was read for, and as long as data comes and
/// there is room more is asked for. The read half is to go away exactly where
/// the stream cannot be read, is at its end or failed, or the user is gone; an
/// error is kept for the user and a code for the other side, each as it came.
/// The other side is told to stop exactly where the user is gone with a code
/// that quic can carry, and with just that code. Something was done exactly
/// where something came or the connection has something to send.
pub proof fn law_read_drain<P, D>(
    before: ReadDrain,
    evt: DrainEvt<P, D>,
    after: ReadDrain,
    act: DrainAct<P, D>,
)
    requires
        before.reads(evt, after, act),
    ensures
        ({
            let closed = evt matches DrainEvt::Opened(false);
            let ended = evt matches DrainEvt::Chunk(_, ChunkRead::End);
            let failed = evt matches DrainEvt::Chunk(_, ChunkRead::Failed(_));
            let gone = evt matches DrainEvt::Sent(Err(_));
            &&& evt matches DrainEvt::Chunk(permit, ChunkRead::Data(data)) ==> act
                == DrainAct::Send(permit, data)
            &&& act matches DrainAct::Send(permit, data) ==> evt == DrainEvt::Chunk(
                permit,
                ChunkRead::Data(data),
            )
            &&& evt matches DrainEvt::Permit(Poll::Ready(permit)) ==> act == DrainAct::<
                P,
                D,
            >::Next(permit)
            &&& act is Next ==> evt is Permit
            &&& act is Acquire <==> evt == DrainEvt::<P, D>::Opened(true) || (
            evt matches DrainEvt::Sent(Ok(_)))
            &&& act is Finalize <==> {
                ||| ended || failed || gone
                ||| (evt matches DrainEvt::Chunk(_, ChunkRead::Blocked))
                ||| evt == DrainEvt::<P, D>::Permit(Poll::Pending)
            }
            &&& after.remove <==> before.remove || closed || ended || failed || gone
            &&& after.stop_err == match evt {
                DrainEvt::Chunk(_, ChunkRead::Failed(err)) => Some(err),
                _ => before.stop_err,
            }
            &&& after.stop_code == match evt {
                DrainEvt::Sent(Err(code)) => Some(code),
                _ => before.stop_code,
            }
            &&& after.did_work <==> {
                ||| before.did_work || closed || ended || failed
                ||| (evt matches DrainEvt::Chunk(_, ChunkRead::Data(_)))
                ||| evt == DrainEvt::<P, D>::Finalized(true)
            }
            &&& act is Stop <==> evt is Finalized && (before.stop_code matches Some(code) && code
                < proto::varint_bound())
            &&& act matches DrainAct::Stop(v) ==> before.stop_code == Some(
                proto::varint_view(v) as u64,
            )
            &&& act is Done <==> closed || evt is Finalized && !(act is Stop)
        }),
{
}

/// The law of writing all there is: data of the user is written as it came, and
/// of what was written just so much is dropped as the stream took. The write
/// half is to go away exactly where the user stopped or the data could not be
/// written. The stream is ended exactly where the user stopped: in order where
/// all is well or quic cannot carry the code, else with the user's code.
/// Something was done exactly where the user sent something.
pub proof fn law_write_drain<D>(
    before: WriteDrain,
    evt: WriteEvt<D>,
    after: WriteDrain,
    act: WriteDrainAct<D>,
)
    requires
        before.writes(evt, after, act),
    ensures
        ({
            let stop = match evt {
                WriteEvt::Cmd(Poll::Ready(WriteCmdKind::Stop(code))) => Some(code),
                _ => None,
            };
            let stuck = (evt matches WriteEvt::Written(_, WriteResult::Blocked)) || (
            evt matches WriteEvt::Written(_, WriteResult::Failed));
            &&& evt matches WriteEvt::Cmd(Poll::Ready(WriteCmdKind::Data(data))) ==> act
                == WriteDrainAct::Write(data)
            &&& act matches WriteDrainAct::Write(data) ==> evt == WriteEvt::Cmd(
                Poll::Ready(WriteCmdKind::Data(data)),
            )
            &&& evt matches WriteEvt::Written(data, WriteResult::Wrote(n)) ==> act
                == WriteDrainAct::Advance(data, n)
            &&& act is Advance ==> evt is Written && !stuck
            &&& after.remove <==> before.remove || stop is Some || stuck
            &&& after.did_work <==> before.did_work || (evt matches WriteEvt::Cmd(Poll::Ready(_)))
            &&& act is End || act is Reset <==> stop is Some
            &&& act is Reset <==> stop is Some && 0 < stop->0 < proto::varint_bound()
            &&& act matches WriteDrainAct::Reset(v) ==> proto::varint_view(v) == stop->0
            &&& act is Done <==> stuck || evt == WriteEvt::<D>::Cmd(Poll::Pending)
        }),
{
}

/// The law of the end of reading and writing: a half goes away exactly where it
/// has to, and nothing else of the stream changes; the user of a read half that
/// goes away with an error is told just that error. What was done is what was
/// noted.
pub proof fn law_drain_finish<R: ReadEnd, W>()
    ensures
        forall|drain: ReadDrain, info: &mut StreamInfo<R, W>, did_work: bool| #[trigger]
            call_ensures(ReadDrain::finish::<R, W>, (drain, info), did_work) ==> {
                &&& did_work == drain.did_work
                &&& final(info).write == info.write
                &&& final(info).stream_id == info.stream_id
                &&& final(info).readable == info.readable
                &&& final(info).writable == info.writable
                &&& drain.remove ==> final(info).read is None
                &&& !drain.remove ==> final(info).read == info.read
                &&& drain.remove ==> (drain.stop_err matches Some(err) ==> (
                info.read matches Some(half) ==> call_ensures(R::stop, (half, err), ())))
            },
        forall|drain: WriteDrain, info: &mut StreamInfo<R, W>, did_work: bool| #[trigger]
            call_ensures(WriteDrain::finish::<R, W>, (drain, info), did_work) ==> {
                &&& did_work == drain.did_work
                &&& final(info).read == info.read
                &&& final(info).stream_id == info.stream_id
                &&& final(info).readable == info.readable
                &&& final(info).writable == info.writable
                &&& drain.remove ==> final(info).write is None
                &&& !drain.remove ==> final(info).write == info.write
            },
{
}

} // verus!
