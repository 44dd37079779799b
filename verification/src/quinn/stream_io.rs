//! The calls that reading and writing a stream of quinn-proto make.
use super::proto;
use super::proto::con_is_client;
use super::proto::con_recv_stream;
use super::proto::con_send_stream;
use super::stream::ChunkRead;
use super::stream::ReadAct;
use super::stream::ReadEnd;
use super::stream::ReadEvt;
use super::stream::StreamInfo;
use super::stream::WriteAct;
use super::stream::WriteCmdKind;
use super::stream::WriteEvt;
use super::stream::WriteResult;
use crate::buf;
use crate::buf::bytes_chunk;
use crate::error;
use crate::error::AqErr;
use crate::stream::counter::CounterAddPermit;
use crate::stream::counter::Hold;
use bytes::Bytes;
use quinn_proto::Chunks;
use quinn_proto::Connection;
use quinn_proto::ReadError;
use quinn_proto::RecvStream;
use quinn_proto::SendStream;
use quinn_proto::VarInt;
use quinn_proto::WriteError;
use std::task::Poll;
use vstd::prelude::*;

verus! {

/// `quinn_proto::Chunks`: a stream while it is open for reading.
#[verifier::external_type_specification]
#[verifier::external_body]
pub struct ExChunks<'a>(quinn_proto::Chunks<'a>);

/// `quinn_proto::RecvStream`: the half of a stream that is read.
#[verifier::external_type_specification]
#[verifier::external_body]
pub struct ExRecvStream<'a>(quinn_proto::RecvStream<'a>);

/// `quinn_proto::SendStream`: the half of a stream that is written.
#[verifier::external_type_specification]
#[verifier::external_body]
pub struct ExSendStream<'a>(quinn_proto::SendStream<'a>);

/// `quinn_proto::ReadError`, with its variants.
#[verifier::external_type_specification]
pub struct ExReadError(quinn_proto::ReadError);

/// `quinn_proto::WriteError`, with its variants.
#[verifier::external_type_specification]
pub struct ExWriteError(quinn_proto::WriteError);

/// The text of a `ReadError`.
pub open spec fn read_error(err: ReadError) -> Seq<char> {
    match err {
        ReadError::Blocked => "blocked"@,
        ReadError::Reset(code) => "reset by peer: code "@ + error::decimal(
            proto::varint_view(code) as nat,
        ),
    }
}

/// `ReadError` as text: what went wrong, and the code of a reset in decimal
/// digits.
#[verifier::external_body]
fn read_error_text(err: ReadError) -> (r: String)
    ensures
        r@ == read_error(err),
{
    format!("{}", err)
}

/// `RecvStream::read`: the stream, open for reading in order; none where there
/// is no such stream any more. That depends on the other side, so nothing is
/// claimed of the result.
#[verifier::external_body]
fn recv_read<'a>(recv: &'a mut RecvStream<'_>) -> (r: Option<Chunks<'a>>) {
    recv.read(true).ok()
}

/// `Chunks::finalize`: reading is over; whether the connection has something to
/// send because of it, of which nothing is claimed.
#[verifier::external_body]
fn chunks_finalize(chunks: Chunks<'_>) -> (r: bool) {
    chunks.finalize().should_transmit()
}

/// Whether the connection behind `con` was asked for the half of the stream
/// that is read, and gave `recv`.
pub closed spec fn gave_recv<'a, 'b>(
    con: &'a mut Connection,
    id: u64,
    recv: RecvStream<'b>,
) -> bool {
    call_ensures(con_recv_stream, (con, id), recv)
}

/// Whether the connection behind `con` was asked for the half of the stream
/// that is written, and gave `send`.
pub closed spec fn gave_send<'a, 'b>(
    con: &'a mut Connection,
    id: u64,
    send: SendStream<'b>,
) -> bool {
    call_ensures(con_send_stream, (con, id), send)
}

/// Whether the half of a stream behind `recv` was opened for reading, and gave
/// `r`.
pub closed spec fn opened<'a, 'b, 'c>(
    recv: &'a mut RecvStream<'b>,
    r: Option<Chunks<'c>>,
) -> bool {
    call_ensures(recv_read, (recv,), r)
}

/// Whether reading was ended, and `transmit` is what that said.
pub closed spec fn finalized<'a>(chunks: Chunks<'a>, transmit: bool) -> bool {
    call_ensures(chunks_finalize, (chunks,), transmit)
}

/// Whether this side can read the stream.
pub fn readable(con: &Connection, id: u64) -> (r: bool)
    ensures
        r == proto::can_read(proto::con_client(*con), id),
{
    (id / 2) % 2 == 0 || (id % 2 == 0) != con_is_client(con)
}

/// Whether this side can write the stream.
pub fn writable(con: &Connection, id: u64) -> (r: bool)
    ensures
        r == proto::can_write(proto::con_client(*con), id),
{
    (id / 2) % 2 == 0 || (id % 2 == 0) == con_is_client(con)
}

/// The half of a stream that this side reads.
pub fn recv_stream<'a>(con: &'a mut Connection, id: u64) -> (r: RecvStream<'a>)
    requires
        proto::can_read(proto::con_client(*old(con)), id),
    ensures
        exists|a: &mut Connection|
            {
                &&& *a == *old(con)
                &&& *final(a) == *final(con)
                &&& #[trigger] gave_recv(a, id, r)
            },
        proto::con_client(*final(con)) == proto::con_client(*old(con)),
{
    proof {
        assert(forall|a: &mut Connection, id: u64, recv: RecvStream<'a>| #[trigger]
            call_ensures(con_recv_stream, (a, id), recv) ==> gave_recv(a, id, recv));
    }
    con_recv_stream(con, id)
}

/// The half of a stream that this side writes.
pub fn send_stream<'a>(con: &'a mut Connection, id: u64) -> (r: SendStream<'a>)
    requires
        proto::can_write(proto::con_client(*old(con)), id),
    ensures
        exists|a: &mut Connection|
            {
                &&& *a == *old(con)
                &&& *final(a) == *final(con)
                &&& #[trigger] gave_send(a, id, r)
            },
        proto::con_client(*final(con)) == proto::con_client(*old(con)),
{
    proof {
        assert(forall|a: &mut Connection, id: u64, send: SendStream<'a>| #[trigger]
            call_ensures(con_send_stream, (a, id), send) ==> gave_send(a, id, send));
    }
    con_send_stream(con, id)
}

/// Open a stream for reading.
pub(crate) fn open<'a, 'b>(recv: &'a mut RecvStream<'b>) -> (r: Option<Chunks<'a>>)
    ensures
        exists|a: &mut RecvStream<'b>|
            {
                &&& *a == *old(recv)
                &&& *final(a) == *final(recv)
                &&& #[trigger] opened(a, r)
            },
{
    proof {
        assert(forall|a: &mut RecvStream<'b>, got: Option<Chunks<'a>>| #[trigger]
            call_ensures(recv_read, (a,), got) ==> opened(a, got));
    }
    recv_read(recv)
}

/// Reading is over; whether the connection has something to send because of it.
pub fn close<'a>(chunks: Chunks<'a>) -> (r: bool)
    ensures
        finalized(chunks, r),
{
    chunks_finalize(chunks)
}

/// `Chunks::next`: the next data, of at most `max_len` bytes. What there is
/// depends on the other side, so no more is claimed of the result.
#[verifier::external_body]
fn chunks_next(chunks: &mut Chunks<'_>, max_len: usize) -> (r: Result<Option<Bytes>, ReadError>)
    ensures
        r matches Ok(Some(b)) ==> buf::bytes_view(b).len() <= max_len,
{
    chunks.next(max_len).map(|got| got.map(|chunk| chunk.bytes))
}

/// Whether the stream behind `chunks` was asked for at most `max_len` bytes, and
/// gave `r`.
pub closed spec fn came<'a>(
    chunks: &mut Chunks<'a>,
    max_len: int,
    r: Result<Option<Bytes>, ReadError>,
) -> bool {
    exists|max: usize| max == max_len && #[trigger] call_ensures(chunks_next, (chunks, max), r)
}

/// Whether the library's word for what came of asking for data says the same.
pub open spec fn says_chunk(
    got: Result<Option<Bytes>, ReadError>,
    r: ChunkRead<Bytes>,
) -> bool {
    match got {
        Err(ReadError::Blocked) => r is Blocked,
        Err(err) => r matches ChunkRead::Failed(AqErr::Other(text)) && text@ == read_error(err),
        Ok(None) => r is End,
        Ok(Some(b)) => r == ChunkRead::Data(b),
    }
}

/// What came of asking for data, as the library has it.
pub fn chunk_from(got: Result<Option<Bytes>, ReadError>) -> (r: ChunkRead<Bytes>)
    ensures
        says_chunk(got, r),
{
    match got {
        Err(ReadError::Blocked) => ChunkRead::Blocked,
        Err(err) => ChunkRead::Failed(AqErr::Other(read_error_text(err))),
        Ok(None) => ChunkRead::End,
        Ok(Some(b)) => ChunkRead::Data(b),
    }
}

/// Ask a stream for at most `max_len` bytes.
pub fn next_chunk<'a>(chunks: &mut Chunks<'a>, max_len: usize) -> (r: ChunkRead<Bytes>)
    ensures
        exists|a: &mut Chunks<'a>, got: Result<Option<Bytes>, ReadError>|
            {
                &&& *a == *old(chunks)
                &&& *final(a) == *final(chunks)
                &&& #[trigger] came(a, max_len as int, got)
                &&& says_chunk(got, r)
            },
        r matches ChunkRead::Data(b) ==> buf::bytes_view(b).len() <= max_len,
{
    proof {
        assert(forall|a: &mut Chunks<'a>, max: usize, got: Result<Option<Bytes>, ReadError>|
            #[trigger]
            call_ensures(chunks_next, (a, max), got) ==> came(a, max as int, got));
    }
    let got = chunks_next(chunks, max_len);
    chunk_from(got)
}

/// `RecvStream::stop`: the other side is told to stop, with this code. Whether
/// it still has to be told depends on the stream, so nothing is claimed of the
/// result.
#[verifier::external_body]
fn recv_stop(recv: &mut RecvStream<'_>, code: VarInt) -> (r: bool) {
    recv.stop(code).is_ok()
}

/// Whether the other side of the stream behind `recv` was told to stop, with
/// this code.
pub closed spec fn told<'a>(recv: &mut RecvStream<'a>, code: VarInt) -> bool {
    exists|done: bool| #[trigger] call_ensures(recv_stop, (recv, code), done)
}

/// Tell the other side to stop.
pub(crate) fn tell_stop<'a>(recv: &mut RecvStream<'a>, code: VarInt)
    ensures
        exists|a: &mut RecvStream<'a>|
            {
                &&& *a == *old(recv)
                &&& *final(a) == *final(recv)
                &&& #[trigger] told(a, code)
            },
{
    proof {
        assert(forall|a: &mut RecvStream<'a>, code: VarInt, done: bool| #[trigger]
            call_ensures(recv_stop, (a, code), done) ==> told(a, code));
    }
    let _ = recv_stop(recv, code);
}

/// `SendStream::write`: how many bytes, from the front of `data`, were
/// written. How many there is room for depends on the other side, so no more
/// is claimed of the result.
#[verifier::external_body]
fn send_write(send: &mut SendStream<'_>, data: &[u8]) -> (r: Result<usize, WriteError>)
    ensures
        r matches Ok(n) ==> n <= data@.len(),
{
    send.write(data)
}

/// Whether an attempt to write the data to the stream behind `send` was made,
/// and gave `r`.
pub closed spec fn wrote<'a>(
    send: &mut SendStream<'a>,
    data: Seq<u8>,
    r: Result<usize, WriteError>,
) -> bool {
    exists|slice: &[u8]| slice@ == data && #[trigger] call_ensures(send_write, (send, slice), r)
}

/// What came of an attempt to write, as the library has it.
pub open spec fn spec_write_result(got: Result<usize, WriteError>) -> WriteResult {
    match got {
        Ok(n) => WriteResult::Wrote(n),
        Err(WriteError::Blocked) => WriteResult::Blocked,
        Err(_) => WriteResult::Failed,
    }
}

/// What came of an attempt to write, as the library has it.
pub fn write_result(got: Result<usize, WriteError>) -> (r: WriteResult)
    ensures
        r == spec_write_result(got),
{
    match got {
        Ok(n) => WriteResult::Wrote(n),
        Err(WriteError::Blocked) => WriteResult::Blocked,
        Err(_) => WriteResult::Failed,
    }
}

/// Write as much of the data as there is room for.
pub fn write_bytes<'a>(send: &mut SendStream<'a>, data: &Bytes) -> (r: WriteResult)
    ensures
        exists|a: &mut SendStream<'a>, got: Result<usize, WriteError>|
            {
                &&& *a == *old(send)
                &&& *final(a) == *final(send)
                &&& #[trigger] wrote(a, buf::bytes_view(*data), got)
                &&& r == spec_write_result(got)
            },
        r matches WriteResult::Wrote(n) ==> n <= buf::bytes_view(*data).len(),
{
    proof {
        assert(forall|a: &mut SendStream<'a>, slice: &[u8], got: Result<usize, WriteError>|
            #[trigger]
            call_ensures(send_write, (a, slice), got) ==> wrote(a, slice@, got));
    }
    let slice = bytes_chunk(data);
    let got = send_write(send, slice);
    write_result(got)
}

/// `SendStream::finish`: the stream ends in order. Whether it still can depends
/// on the stream, so nothing is claimed of the result.
#[verifier::external_body]
fn send_finish(send: &mut SendStream<'_>) -> (r: bool) {
    send.finish().is_ok()
}

/// `SendStream::reset`: the stream ends with this code. Whether it still can
/// depends on the stream, so nothing is claimed of the result.
#[verifier::external_body]
fn send_reset(send: &mut SendStream<'_>, code: VarInt) -> (r: bool) {
    send.reset(code).is_ok()
}

/// Whether the stream behind `send` was ended: in order where there is no code,
/// else with the code.
pub closed spec fn ended<'a>(send: &mut SendStream<'a>, code: Option<VarInt>) -> bool {
    match code {
        None => exists|done: bool| #[trigger] call_ensures(send_finish, (send,), done),
        Some(code) => exists|done: bool| #[trigger] call_ensures(send_reset, (send, code), done),
    }
}

/// End a stream: in order where there is no code, else with the code.
pub(crate) fn end<'a>(send: &mut SendStream<'a>, code: Option<VarInt>)
    ensures
        exists|a: &mut SendStream<'a>|
            {
                &&& *a == *old(send)
                &&& *final(a) == *final(send)
                &&& #[trigger] ended(a, code)
            },
{
    proof {
        assert(forall|a: &mut SendStream<'a>, done: bool| #[trigger]
            call_ensures(send_finish, (a,), done) ==> ended(a, None));
        assert(forall|a: &mut SendStream<'a>, code: VarInt, done: bool| #[trigger]
            call_ensures(send_reset, (a, code), done) ==> ended(a, Some(code)));
    }
    match code {
        None => {
            let _ = send_finish(send);
        },
        Some(code) => {
            let _ = send_reset(send, code);
        },
    }
}

impl<R: ReadEnd, W> StreamInfo<R, W> {
    /// Open the stream for reading, and go one step on.
    pub fn open_read<'a, 'b, G: Hold>(
        &mut self,
        recv: &'a mut RecvStream<'b>,
        permit: CounterAddPermit<G>,
    ) -> (r: (Option<Chunks<'a>>, ReadAct<CounterAddPermit<G>, Bytes>))
        requires
            old(self).read is Some,
        ensures
            exists|a: &mut RecvStream<'b>|
                {
                    &&& *a == *old(recv)
                    &&& *final(a) == *final(recv)
                    &&& #[trigger] opened(a, r.0)
                },
            old(self).reads(ReadEvt::Opened(permit, r.0 is Some), *final(self), r.1),
    {
        let chunks = open(recv);
        let ok = chunks.is_some();
        let act = self.read(ReadEvt::Opened(permit, ok));
        (chunks, act)
    }

    /// Ask the stream for as much data as the permit covers, and go one step on
    /// in reading. What is to be handed to the user fits the permit.
    pub fn read_chunk<'a, G: Hold>(
        &mut self,
        chunks: &mut Chunks<'a>,
        permit: CounterAddPermit<G>,
    ) -> (r: ReadAct<CounterAddPermit<G>, Bytes>)
        requires
            old(self).read is Some,
        ensures
            exists|
                a: &mut Chunks<'a>,
                got: Result<Option<Bytes>, ReadError>,
                chunk: ChunkRead<Bytes>,
            |
                #![trigger came(a, permit.spec_len(), got), says_chunk(got, chunk)]
                {
                    &&& *a == *old(chunks)
                    &&& *final(a) == *final(chunks)
                    &&& came(a, permit.spec_len(), got)
                    &&& says_chunk(got, chunk)
                    &&& old(self).reads(ReadEvt::Chunk(permit, chunk), *final(self), r)
                },
            r matches ReadAct::Send(p, b) ==> p == permit && buf::bytes_view(b).len()
                <= p.spec_len(),
    {
        let max_len: usize = permit.len();
        let chunk = next_chunk(chunks, max_len);
        self.read(ReadEvt::Chunk(permit, chunk))
    }

    /// Reading is over: where the user is gone, the other side is told to stop.
    pub fn end_read<'a, P, B>(recv: &mut RecvStream<'a>, act: ReadAct<P, B>)
        ensures
            act matches ReadAct::Stop(code) ==> exists|a: &mut RecvStream<'a>|
                {
                    &&& *a == *old(recv)
                    &&& *final(a) == *final(recv)
                    &&& #[trigger] told(a, code)
                },
            !(act is Stop) ==> *final(recv) == *old(recv),
    {
        if let ReadAct::Stop(code) = act {
            tell_stop(recv, code);
        }
    }

    /// Write the data, as much of it as there is room for, and go one step on
    /// in writing. No more is to be dropped from its front than there is.
    pub fn write_data<'a, P>(&mut self, send: &mut SendStream<'a>, data: Bytes, rest: P) -> (r:
        WriteAct<(Bytes, P)>)
        requires
            old(self).write is Some,
        ensures
            exists|a: &mut SendStream<'a>, got: Result<usize, WriteError>|
                {
                    &&& *a == *old(send)
                    &&& *final(a) == *final(send)
                    &&& #[trigger] wrote(a, buf::bytes_view(data), got)
                    &&& old(self).writes(
                        WriteEvt::Written((data, rest), spec_write_result(got)),
                        *final(self),
                        r,
                    )
                },
            r matches WriteAct::Advance((d, _), n) ==> n <= buf::bytes_view(d).len(),
    {
        let res = write_bytes(send, &data);
        self.write(WriteEvt::Written((data, rest), res))
    }

    /// Take up what the user of the write half sent: where that is the end, the
    /// stream is ended.
    pub fn take_cmd<'a, D>(&mut self, send: &mut SendStream<'a>, cmd: Poll<WriteCmdKind<D>>) -> (r:
        WriteAct<D>)
        requires
            old(self).write is Some,
        ensures
            cmd matches Poll::Ready(WriteCmdKind::Stop(code)) ==> {
                &&& *final(self) == (StreamInfo { write: None::<W>, ..*old(self) })
                &&& r is Done
                &&& exists|a: &mut SendStream<'a>|
                    {
                        &&& *a == *old(send)
                        &&& *final(a) == *final(send)
                        &&& #[trigger] code_ended(a, code)
                    }
            },
            !(cmd matches Poll::Ready(WriteCmdKind::Stop(_))) ==> *final(send) == *old(send) && old(
                self,
            ).writes(WriteEvt::Cmd(cmd), *final(self), r),
    {
        proof {
            if let Poll::Ready(WriteCmdKind::Stop(code)) = cmd {
                lemma_code_ended(code);
            }
        }
        match self.write(WriteEvt::Cmd(cmd)) {
            WriteAct::End => {
                end(send, None);
                WriteAct::Done
            },
            WriteAct::Reset(code) => {
                end(send, Some(code));
                WriteAct::Done
            },
            act => act,
        }
    }
}

/// Whether the stream behind `send` was ended as the code of its user asks for:
/// in order where the code is 0 or one that quic cannot carry, else with the
/// code.
pub open spec fn code_ended<'a>(send: &mut SendStream<'a>, code: u64) -> bool {
    if code == 0 || code >= proto::varint_bound() {
        ended(send, None)
    } else {
        exists|v: VarInt| proto::varint_view(v) == code && #[trigger] ended(send, Some(v))
    }
}

/// What ending a stream comes to, for the code of its user.
pub(crate) proof fn lemma_code_ended<'a>(code: u64)
    ensures
        code == 0 || code >= proto::varint_bound() ==> forall|a: &mut SendStream<'a>| #[trigger]
            ended(a, None) ==> code_ended(a, code),
        0 < code < proto::varint_bound() ==> forall|a: &mut SendStream<'a>, v: VarInt| #[trigger]
            ended(a, Some(v)) && proto::varint_view(v) == code ==> code_ended(a, code),
{
}

/// The law of what came of asking for data: the library's word says the same as
/// quinn-proto's, and the data is the same.
pub proof fn law_says_chunk(got: Result<Option<Bytes>, ReadError>, r: ChunkRead<Bytes>, data: Bytes)
    requires
        says_chunk(got, r),
    ensures
        r is Blocked <==> got == Err::<Option<Bytes>, ReadError>(ReadError::Blocked),
        r is End <==> got == Ok::<Option<Bytes>, ReadError>(None),
        r == ChunkRead::Data(data) <==> got == Ok::<Option<Bytes>, ReadError>(Some(data)),
        r is Failed <==> got is Err && !(r is Blocked),
{
}

/// The law of what came of an attempt to write: the library's word says the same
/// as quinn-proto's, and so does the number of bytes.
pub proof fn law_write_result(got: Result<usize, WriteError>, n: usize)
    ensures
        spec_write_result(got) == WriteResult::Wrote(n) <==> got == Ok::<usize, WriteError>(n),
        spec_write_result(got) is Blocked <==> got == Err::<usize, WriteError>(
            WriteError::Blocked,
        ),
        spec_write_result(got) is Failed <==> got is Err && got->Err_0 != WriteError::Blocked,
{
}

} // verus!
