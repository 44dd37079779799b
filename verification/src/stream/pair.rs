//! Both ends of a stream together. What is between them is a channel: it gives
//! what was put into it, in the same order, and the end once all of that was
//! given and nobody can put in any more.
use super::backend;
use super::backend::Chunk;
use super::backend::ReadStreamBackend;
use super::backend::WriteCmdInner;
use super::backend::WriteRecv;
use super::backend::WriteStreamBackend;
use super::counter::Counter;
use super::counter::CounterAddPermit;
use super::counter::Hold;
use super::counter::Ledger;
use super::flow;
use super::flow::Flow;
use super::ReadStream;
use super::WriteStream;
use crate::buf;
use crate::error::AqErr;
use crate::error::AqResult;
use crate::runtime::OnceSend;
use crate::stream;
use bytes::Bytes;
use std::task::Poll;
use tokio::sync::mpsc::UnboundedSender;
use vstd::prelude::*;

verus! {

/// The bytes of a chunk that is held, none where there is none.
pub open spec fn held<G: Hold>(chunk: Option<Chunk<G>>) -> Seq<u8> {
    match chunk {
        Some(chunk) => chunk.spec_data(),
        None => Seq::empty(),
    }
}

/// The bytes of chunks.
pub open spec fn contents<G: Hold>(chunks: Seq<Chunk<G>>) -> Seq<Seq<u8>> {
    chunks.map_values(|chunk: Chunk<G>| chunk.spec_data())
}

/// Whether each of the chunks has a permit for its bytes.
pub open spec fn all_fit<G: Hold>(chunks: Seq<Chunk<G>>) -> bool {
    forall|i: int| 0 <= i < chunks.len() ==> (#[trigger] chunks[i]).fits()
}

proof fn lemma_contents_push<G: Hold>(chunks: Seq<Chunk<G>>, chunk: Chunk<G>)
    requires
        all_fit(chunks),
        chunk.fits(),
    ensures
        contents(chunks.push(chunk)) == contents(chunks).push(chunk.spec_data()),
        all_fit(chunks.push(chunk)),
{
    assert(contents(chunks.push(chunk)) =~= contents(chunks).push(chunk.spec_data()));
}

proof fn lemma_contents_first<G: Hold>(chunks: Seq<Chunk<G>>)
    requires
        all_fit(chunks),
        chunks.len() > 0,
    ensures
        contents(chunks).drop_first() == contents(chunks.drop_first()),
        contents(chunks).first() == chunks.first().spec_data(),
        chunks.first().fits(),
        all_fit(chunks.drop_first()),
{
    assert(contents(chunks).drop_first() =~= contents(chunks.drop_first()));
    assert(chunks[0].fits());
    assert forall|i: int| 0 <= i < chunks.drop_first().len() implies (
    #[trigger] chunks.drop_first()[i]).fits() by {
        assert(chunks[i + 1].fits());
    }
}

/// A read stream at one moment.
pub struct ReadPair<G: Hold> {
    /// how many bytes may be in flight
    pub cap: int,
    /// how many bytes the counter says are in flight
    pub used: int,
    /// what the backend's end sent and the user's end did not take up yet
    pub chunks: Seq<Chunk<G>>,
    /// the error that the backend's end stopped with, until it is taken up
    pub err: Option<AqErr>,
    /// the backend's end is gone
    pub closed: bool,
    /// the user's end is there
    pub live: bool,
    /// the code that the user's end left
    pub code: u64,
    /// what the user's end holds back
    pub buf: Option<Chunk<G>>,
}

impl<G: Hold> ReadPair<G> {
    /// A new stream.
    pub open spec fn start(cap: int) -> Self {
        ReadPair {
            cap,
            used: 0,
            chunks: Seq::empty(),
            err: None,
            closed: false,
            live: true,
            code: 0,
            buf: None,
        }
    }

    /// Each chunk has a permit for its bytes, and an error is the last that the
    /// backend's end sent.
    pub open spec fn wf(self) -> bool {
        &&& all_fit(self.chunks)
        &&& self.buf matches Some(chunk) ==> chunk.fits()
        &&& self.err is Some ==> self.closed
    }

    /// Whether `f` says what is in flight.
    pub open spec fn shows(self, f: Flow) -> bool {
        &&& f.cap == self.cap
        &&& f.used == self.used
        &&& f.queue == contents(self.chunks)
        &&& f.left == held(self.buf)
    }

    /// What the channel gives next.
    pub open spec fn gives(self) -> Poll<Option<AqResult<Chunk<G>>>> {
        if self.chunks.len() > 0 {
            Poll::Ready(Some(Ok(self.chunks.first())))
        } else if self.err is Some {
            Poll::Ready(Some(Err(self.err->0)))
        } else if self.closed {
            Poll::Ready(None)
        } else {
            Poll::Pending
        }
    }

    /// What a read finds in the channel, where it has to ask it.
    pub open spec fn asked(self) -> Option<Poll<Option<AqResult<Chunk<G>>>>> {
        if self.buf is Some {
            None
        } else {
            Some(self.gives())
        }
    }

    /// The stream after the backend's end sent a chunk.
    pub open spec fn sent(self, chunk: Chunk<G>) -> Self {
        ReadPair {
            used: self.used + chunk.spec_data().len(),
            chunks: self.chunks.push(chunk),
            ..self
        }
    }

    /// The stream after its user's end went away: a stop leaves a code.
    pub open spec fn dropped(self, code: Option<u64>) -> Self {
        ReadPair {
            live: false,
            code: (match code {
                Some(code) => code,
                None => self.code,
            }),
            ..self
        }
    }

    /// What a read has before it: what is held back, or else the next chunk.
    pub open spec fn at_hand(self) -> Seq<u8> {
        if self.buf is None && self.chunks.len() > 0 {
            self.chunks.first().spec_data()
        } else {
            held(self.buf)
        }
    }

    /// The stream after a read that held `left` back.
    pub open spec fn read(self, left: Option<Chunk<G>>) -> Self {
        ReadPair {
            used: self.used - (self.at_hand().len() - held(left).len()),
            chunks: (if self.buf is None && self.chunks.len() > 0 {
                self.chunks.drop_first()
            } else {
                self.chunks
            }),
            err: (if self.buf is None && self.chunks.len() == 0 {
                None
            } else {
                self.err
            }),
            buf: left,
            ..self
        }
    }
}

/// A new read stream is in order.
pub proof fn law_read_start<G: Hold>(cap: int)
    requires
        cap >= 0,
    ensures
        ReadPair::<G>::start(cap).wf(),
        ReadPair::<G>::start(cap).shows(Flow::start(cap)),
        Flow::start(cap).sound(),
{
    assert(contents(Seq::<Chunk<G>>::empty()) =~= Seq::<Seq<u8>>::empty());
}

/// What is sent to a read stream reaches it as one chunk behind all that was
/// sent before, and takes exactly its length of the room; the stream stays in
/// order and within its bound.
pub proof fn law_send<G: Hold>(
    pair: ReadPair<G>,
    f: Flow,
    permit: CounterAddPermit<G>,
    data: Seq<u8>,
    chunk: Chunk<G>,
)
    requires
        pair.wf(),
        pair.shows(f),
        f.sound(),
        !pair.closed,
        permit.spec_len() == pair.cap - pair.used,
        0 < data.len() <= permit.spec_len(),
        exists|send: &mut UnboundedSender<AqResult<Chunk<G>>>| #[trigger]
            backend::gave(send, permit, data, chunk, true),
    ensures
        pair.sent(chunk).wf(),
        pair.sent(chunk).chunks.last().spec_data() == data,
        pair.sent(chunk).used == pair.used + data.len() <= pair.cap,
        pair.sent(chunk).shows(f.write(data)),
        f.write(data).sound(),
        f.write(data).written == f.written + data,
{
    lemma_contents_push(pair.chunks, chunk);
    assert(data.take(f.accepted(data)) =~= data);
    flow::law_write(f, data);
}

/// What a send is answered: as long as the user's end is there that all is
/// well, else the code that it left, which is 0 unless it was stopped with
/// another. A send succeeds exactly as long as the other half of the channel is
/// there, and the code is read where the user's end leaves it.
pub proof fn law_send_answer<G: Hold>(
    pair: ReadPair<G>,
    back: ReadStreamBackend<G>,
    permit: CounterAddPermit<G>,
    data: Seq<u8>,
    chunk: Chunk<G>,
    sent: bool,
    r: Result<(), u64>,
)
    requires
        exists|send: &mut UnboundedSender<AqResult<Chunk<G>>>| #[trigger]
            backend::gave(send, permit, data, chunk, sent),
        sent == r is Ok,
        r matches Err(code) ==> back.read_code(code),
        forall|send: &mut UnboundedSender<AqResult<Chunk<G>>>, sent: bool| #[trigger]
            backend::handed(send, Ok(chunk), sent) ==> sent == pair.live,
        forall|code: u64| #[trigger] back.read_code(code) ==> code == pair.code,
    ensures
        pair.live ==> r is Ok,
        !pair.live ==> r == Err::<(), u64>(pair.code),
        forall|cap: int| (#[trigger] ReadPair::<G>::start(cap)).dropped(None).code == 0,
        forall|code: u64| (#[trigger] pair.dropped(Some(code))).code == code,
{
}

/// What a read hands out is the front of what was sent and not read yet, not
/// empty unless nothing was asked for, and at most as much as was asked for;
/// exactly the room of that is given back. The stream stays in order and within
/// its bound, so all reads together hand out all that was sent, once and in
/// order.
pub proof fn law_read<G: Hold>(
    pair: ReadPair<G>,
    f: Flow,
    front: ReadStream<G>,
    max_len: int,
    left: Option<Chunk<G>>,
    out: Bytes,
)
    requires
        pair.wf(),
        pair.shows(f),
        f.sound(),
        front.buf == pair.buf,
        max_len >= 0,
        front.reads(pair.asked(), max_len, left, Poll::Ready(Some(Ok(out)))),
    ensures
        ({
            let bytes = buf::bytes_view(out);
            let came = if pair.buf is None {
                f.receive()
            } else {
                f
            };
            let g = came.take(bytes.len() as int);
            &&& pair.read(left).wf()
            &&& pair.read(left).shows(g)
            &&& pair.read(left).used == pair.used - bytes.len()
            &&& g.sound()
            &&& g.taken == f.taken + bytes
            &&& g.written == f.written
            &&& bytes == pair.at_hand().take(bytes.len() as int)
            &&& bytes.len() <= max_len
            &&& max_len > 0 ==> bytes.len() == flow::min_len(
                max_len,
                pair.at_hand().len() as int,
            ) > 0
            &&& g.left + g.queue.flatten() == (f.left + f.queue.flatten()).skip(bytes.len() as int)
        }),
{
    let bytes = buf::bytes_view(out);
    if pair.buf is None {
        lemma_contents_first(pair.chunks);
        flow::law_receive(f);
    }
    let came = if pair.buf is None {
        f.receive()
    } else {
        f
    };
    let n = bytes.len() as int;
    assert(bytes =~= came.left.take(n));
    assert(came.taken + came.left.take(n) == f.taken + bytes);
    flow::law_take(came, n);
    let g = came.take(n);
    assert(held(left) =~= came.left.skip(n));
    assert(f.queue.flatten() == f.queue.first() + f.queue.drop_first().flatten()
        || pair.buf is Some);
    assert(g.left + g.queue.flatten() =~= (f.left + f.queue.flatten()).skip(n));
}

/// A read that hands out nothing finds nothing there: no data is lost by it.
pub proof fn law_read_nothing<G: Hold>(
    pair: ReadPair<G>,
    f: Flow,
    front: ReadStream<G>,
    max_len: int,
    left: Option<Chunk<G>>,
    r: Poll<Option<AqResult<Bytes>>>,
)
    requires
        pair.wf(),
        pair.shows(f),
        front.buf == pair.buf,
        front.reads(pair.asked(), max_len, left, r),
        !(r matches Poll::Ready(Some(Ok(_)))),
    ensures
        pair.chunks.len() == 0,
        pair.buf is None,
        left is None,
        pair.read(left).wf(),
        pair.read(left).shows(f),
{
}

/// Once the backend's end is gone, a read never waits: first come the data that
/// were sent, then the error, once, if the stream was stopped with one, then
/// the end, for ever.
pub proof fn law_read_end<G: Hold>(
    pair: ReadPair<G>,
    front: ReadStream<G>,
    max_len: int,
    left: Option<Chunk<G>>,
    r: Poll<Option<AqResult<Bytes>>>,
)
    requires
        pair.wf(),
        pair.closed,
        front.buf == pair.buf,
        front.reads(pair.asked(), max_len, left, r),
    ensures
        !(r is Pending),
        r matches Poll::Ready(Some(Ok(_))) <==> pair.buf is Some || pair.chunks.len() > 0,
        r matches Poll::Ready(Some(Ok(_))) ==> pair.read(left).err == pair.err,
        pair.buf is None && pair.chunks.len() == 0 ==> {
            &&& pair.err matches Some(err) ==> r == Poll::Ready(Some(Err::<Bytes, AqErr>(err)))
            &&& pair.err is None ==> r == Poll::Ready(None::<AqResult<Bytes>>)
            &&& pair.read(left).err is None
            &&& pair.read(left).buf is None
            &&& pair.read(left).chunks.len() == 0
        },
        pair.read(left).closed,
{
}

/// Room is to be had exactly as long as fewer bytes are in flight than may be,
/// and then all that is left of it. Whoever found none is woken by the next
/// that gives some back.
pub proof fn law_room<W>(
    before: Counter<W>,
    waker: W,
    between: Counter<W>,
    r: Option<usize>,
    amount: int,
    after: Counter<W>,
    woken: Option<W>,
)
    requires
        before.wf(),
        before.reserves(waker, between, r),
        between.restores(amount, after, woken),
        0 <= amount <= between.used,
    ensures
        r is None <==> before.used == before.max,
        r matches Some(n) ==> n == before.max - before.used,
        r is None ==> woken == Some(waker) && after.room() == amount,
        r matches Some(n) ==> after.room() == amount && woken == before.waker,
        after.wf(),
{
}

/// The counter says what is in flight: once what a send or a write left of the
/// room that was reserved is given back, the count has grown by what went in;
/// once the room of what was taken out is given back, it has shrunk by that.
pub proof fn law_count<W>(
    before: Counter<W>,
    waker: W,
    reserved: Counter<W>,
    room: usize,
    len: int,
    after: Counter<W>,
    woken: Option<W>,
    taken: int,
    end: Counter<W>,
    end_woken: Option<W>,
)
    requires
        before.wf(),
        before.reserves(waker, reserved, Some(room)),
        0 <= len <= room,
        reserved.restores(room - len, after, woken),
        0 <= taken <= after.used,
        after.restores(taken, end, end_woken),
    ensures
        after.used == before.used + len,
        end.used == after.used - taken,
        after.wf(),
        end.wf(),
{
}

/// The room that a hold has given back, and what is left of it where the hold is
/// set free.
pub open spec fn room_of(permit: Option<CounterAddPermit<Ledger>>, freed: Option<Ledger>) -> int {
    (match permit {
        Some(p) => p.spec_hold().spec_freed(),
        None => 0,
    }) + (match freed {
        Some(hold) => hold.spec_held() + hold.spec_freed(),
        None => 0,
    })
}

/// What a read gives back over a ledger, beyond what the ledger had given back
/// before: exactly the room of the bytes that it
/// hands out, whether they are a part of a chunk or all of it. Once that is
/// settled on the counter there is so much more room, and whoever waited for it
/// is woken; what is left of the chunk holds the room of what is left.
pub proof fn law_read_room<W>(
    chunk: Chunk<Ledger>,
    max_len: int,
    out: Bytes,
    left: Option<Chunk<Ledger>>,
    freed: Option<Ledger>,
    counter: Counter<W>,
    after: Counter<W>,
    woken: Option<W>,
)
    requires
        stream::served(chunk, max_len, out, left),
        freed == stream::freed(chunk, max_len),
        max_len >= 0,
        chunk.spec_permit().spec_len() <= usize::MAX,
        chunk.spec_permit().spec_hold().spec_held() == chunk.spec_permit().spec_len(),
        counter.wf(),
        ({
            let permit = match left {
                Some(rest) => Some(rest.spec_permit()),
                None => None,
            };
            let back = room_of(permit, freed) - chunk.spec_permit().spec_hold().spec_freed();
            back <= counter.used && counter.restores(back, after, woken)
        }),
    ensures
        after.room() == counter.room() + buf::bytes_view(out).len(),
        after.wf(),
        woken == counter.waker,
        left matches Some(rest) ==> rest.spec_permit().spec_hold().spec_held()
            == rest.spec_data().len(),
{
}

/// What finishing gives back over a ledger, beyond what the ledger had given back
/// before: exactly the room of the `n` bytes
/// that were pulled off, whether they are a part of the data or all of it. Once
/// that is settled on the counter there is so much more room, and whoever waited
/// for it is woken; what is left of the data holds the room of what is left.
pub proof fn law_finish_room<W>(
    permit: CounterAddPermit<Ledger>,
    len: int,
    n: int,
    rest: Option<CounterAddPermit<Ledger>>,
    freed: Option<Ledger>,
    counter: Counter<W>,
    after: Counter<W>,
    woken: Option<W>,
)
    requires
        0 <= n <= len == permit.spec_len() <= usize::MAX,
        len > 0,
        n == len ==> rest is None && freed == Some(permit.spec_hold()),
        n < len ==> {
            &&& freed is None
            &&& rest matches Some(p)
            &&& p.spec_len() == flow::permit_after_finish(len - n, permit.spec_len())
            &&& permit.shrunk(p.spec_len(), p)
        },
        permit.spec_hold().spec_held() == permit.spec_len(),
        counter.wf(),
        ({
            let back = room_of(rest, freed) - permit.spec_hold().spec_freed();
            back <= counter.used && counter.restores(back, after, woken)
        }),
    ensures
        after.room() == counter.room() + n,
        after.wf(),
        woken == counter.waker,
        rest matches Some(p) ==> p.spec_hold().spec_held() == p.spec_len() == len - n,
{
}

/// A write stream at one moment.
pub struct WritePair<G: Hold, S: OnceSend<AqResult<()>>> {
    /// how many bytes may be in flight
    pub cap: int,
    /// how many bytes the counter says are in flight
    pub used: int,
    /// what the user's end wrote and the backend's end did not take up yet
    pub chunks: Seq<Chunk<G>>,
    /// the stop that the user's end sent, until it is taken up
    pub stop: Option<(u64, Option<S>)>,
    /// the user's end is gone
    pub closed: bool,
    /// what the backend's end holds back
    pub buf: Option<(Bytes, CounterAddPermit<G>)>,
    /// the code that the backend's end remembers
    pub error_code: u64,
}

/// The bytes that a backend's end holds back, none where there are none.
pub open spec fn kept<G: Hold>(buf: Option<(Bytes, CounterAddPermit<G>)>) -> Seq<u8> {
    match buf {
        Some((b, _)) => buf::bytes_view(b),
        None => Seq::empty(),
    }
}

impl<G: Hold, S: OnceSend<AqResult<()>>> WritePair<G, S> {
    /// A new stream.
    pub open spec fn start(cap: int) -> Self {
        WritePair {
            cap,
            used: 0,
            chunks: Seq::empty(),
            stop: None,
            closed: false,
            buf: None,
            error_code: 0,
        }
    }

    /// Each chunk has a permit for its bytes, and so has what is held back; a
    /// stop is the last that the user's end sent.
    pub open spec fn wf(self) -> bool {
        &&& all_fit(self.chunks)
        &&& self.buf matches Some((b, p)) ==> p.spec_len() == buf::bytes_view(b).len() > 0
        &&& self.stop is Some ==> self.closed
    }

    /// Whether `f` says what is in flight.
    pub open spec fn shows(self, f: Flow) -> bool {
        &&& f.cap == self.cap
        &&& f.used == self.used
        &&& f.queue == contents(self.chunks)
        &&& f.left == kept(self.buf)
    }

    /// What the channel gives next.
    pub open spec fn gives(self) -> Poll<Option<WriteCmdInner<G, S>>> {
        if self.chunks.len() > 0 {
            Poll::Ready(Some(WriteCmdInner::Data(self.chunks.first())))
        } else if let Some((code, ack)) = self.stop {
            Poll::Ready(Some(WriteCmdInner::Stop(code, ack)))
        } else if self.closed {
            Poll::Ready(None)
        } else {
            Poll::Pending
        }
    }

    /// What a receive finds in the channel, where it has to ask it.
    pub open spec fn asked(self) -> Option<Poll<Option<WriteCmdInner<G, S>>>> {
        if self.buf is Some {
            None
        } else {
            Some(self.gives())
        }
    }

    /// The stream after its user's end wrote a chunk.
    pub open spec fn wrote(self, chunk: Chunk<G>) -> Self {
        WritePair {
            used: self.used + chunk.spec_data().len(),
            chunks: self.chunks.push(chunk),
            ..self
        }
    }

    /// What a receive has before it: what is held back, or else the next chunk.
    pub open spec fn at_hand(self) -> Seq<u8> {
        if self.buf is None && self.chunks.len() > 0 {
            self.chunks.first().spec_data()
        } else {
            kept(self.buf)
        }
    }

    /// The stream after data was received and finished with `rest` left of it.
    pub open spec fn finished(self, rest: Option<(Bytes, CounterAddPermit<G>)>) -> Self {
        WritePair {
            used: self.used - (self.at_hand().len() - kept(rest).len()),
            chunks: (if self.buf is None {
                self.chunks.drop_first()
            } else {
                self.chunks
            }),
            buf: rest,
            ..self
        }
    }

    /// The stream after a stop was received.
    pub open spec fn stopped(self, error_code: u64) -> Self {
        WritePair { stop: None, error_code, ..self }
    }
}

/// A new write stream is in order.
pub proof fn law_write_start<G: Hold, S: OnceSend<AqResult<()>>>(cap: int)
    requires
        cap >= 0,
    ensures
        WritePair::<G, S>::start(cap).wf(),
        WritePair::<G, S>::start(cap).shows(Flow::start(cap)),
        Flow::start(cap).sound(),
{
    assert(contents(Seq::<Chunk<G>>::empty()) =~= Seq::<Seq<u8>>::empty());
}

/// A write takes the front of the data, as much as there is room for, and makes
/// the room smaller by exactly that; what it took comes behind all that was
/// written before. The stream stays in order and within its bound.
pub proof fn law_write<G: Hold, S: OnceSend<AqResult<()>>>(
    pair: WritePair<G, S>,
    f: Flow,
    permit: CounterAddPermit<G>,
    data: Seq<u8>,
    chunk: Chunk<G>,
)
    requires
        pair.wf(),
        pair.shows(f),
        f.sound(),
        !pair.closed,
        permit.spec_len() == pair.cap - pair.used > 0,
        data.len() > 0,
        exists|send: &mut UnboundedSender<WriteCmdInner<G, S>>| #[trigger]
            WriteStream::wrote(send, permit, data, chunk, Ok(())),
    ensures
        ({
            let n = flow::min_len(pair.cap - pair.used, data.len() as int);
            &&& n > 0
            &&& chunk.spec_data() == data.take(n)
            &&& pair.wrote(chunk).wf()
            &&& pair.wrote(chunk).used == pair.used + n <= pair.cap
            &&& pair.wrote(chunk).shows(f.write(data))
            &&& f.write(data).sound()
            &&& f.write(data).written == f.written + data.take(n)
        }),
{
    lemma_contents_push(pair.chunks, chunk);
    flow::law_write(f, data);
}

proof fn lemma_receive<G: Hold, S: OnceSend<AqResult<()>>>(
    pair: WritePair<G, S>,
    f: Flow,
    back: WriteStreamBackend<G, S>,
    code: u64,
    data: Bytes,
    permit: CounterAddPermit<G>,
    n: int,
    rest: Option<(Bytes, CounterAddPermit<G>)>,
)
    requires
        pair.wf(),
        pair.shows(f),
        f.sound(),
        back.buf == pair.buf,
        back.error_code == pair.error_code,
        back.receives(pair.asked(), code, WriteRecv::Data(data, permit)),
        0 <= n <= buf::bytes_view(data).len(),
        n == buf::bytes_view(data).len() ==> rest is None,
        n < buf::bytes_view(data).len() ==> {
            &&& rest matches Some((b, p))
            &&& buf::bytes_view(b) == buf::bytes_view(data).skip(n)
            &&& p.spec_len() == flow::permit_after_finish(
                buf::bytes_view(data).len() - n,
                permit.spec_len(),
            )
        },
    ensures
        ({
            let came = if pair.buf is None {
                f.receive()
            } else {
                f
            };
            let g = came.take(n);
            &&& buf::bytes_view(data) == pair.at_hand()
            &&& permit.spec_len() == buf::bytes_view(data).len() > 0
            &&& code == pair.error_code
            &&& pair.finished(rest).wf()
            &&& pair.finished(rest).shows(g)
            &&& pair.finished(rest).used == pair.used - n
            &&& g.sound()
            &&& g.taken == f.taken + buf::bytes_view(data).take(n)
            &&& g.written == f.written
        }),
{
    if pair.buf is None {
        lemma_contents_first(pair.chunks);
        flow::law_receive(f);
    }
    let came = if pair.buf is None {
        f.receive()
    } else {
        f
    };
    assert(came.left =~= buf::bytes_view(data));
    flow::law_take(came, n);
    assert(kept(rest) =~= came.left.skip(n));
}

/// A receive of data gives what comes next of what was written. Finishing with
/// `n` bytes pulled off takes exactly these out and gives exactly their room
/// back, and what is left comes first the next time, before anything new. The
/// stream stays in order and within its bound, so all that was written is
/// handed out, once and in order.
pub proof fn law_receive<G: Hold, S: OnceSend<AqResult<()>>>(
    pair: WritePair<G, S>,
    f: Flow,
    back: WriteStreamBackend<G, S>,
    code: u64,
    data: Bytes,
    permit: CounterAddPermit<G>,
    n: int,
    rest: Option<(Bytes, CounterAddPermit<G>)>,
    then: WriteStreamBackend<G, S>,
    then_code: u64,
    r: WriteRecv<G>,
)
    requires
        pair.wf(),
        pair.shows(f),
        f.sound(),
        back.buf == pair.buf,
        back.error_code == pair.error_code,
        back.receives(pair.asked(), code, WriteRecv::Data(data, permit)),
        0 <= n <= buf::bytes_view(data).len(),
        n == buf::bytes_view(data).len() ==> rest is None,
        n < buf::bytes_view(data).len() ==> {
            &&& rest matches Some((b, p))
            &&& buf::bytes_view(b) == buf::bytes_view(data).skip(n)
            &&& p.spec_len() == flow::permit_after_finish(
                buf::bytes_view(data).len() - n,
                permit.spec_len(),
            )
        },
        then.buf == rest,
        then.error_code == code,
        then.receives(pair.finished(rest).asked(), then_code, r),
    ensures
        ({
            let came = if pair.buf is None {
                f.receive()
            } else {
                f
            };
            let g = came.take(n);
            &&& buf::bytes_view(data) == pair.at_hand()
            &&& permit.spec_len() == buf::bytes_view(data).len() > 0
            &&& code == pair.error_code
            &&& pair.finished(rest).wf()
            &&& pair.finished(rest).shows(g)
            &&& pair.finished(rest).used == pair.used - n
            &&& g.sound()
            &&& g.taken == f.taken + buf::bytes_view(data).take(n)
            &&& g.written == f.written
            &&& rest matches Some((b, p)) ==> r == WriteRecv::Data(b, p)
        }),
{
    lemma_receive(pair, f, back, code, data, permit, n, rest);
}

/// A stop comes after all that was written, with the code it was sent with, or
/// with 0 where the user's end is just gone; it is acknowledged, and from then
/// on every receive is answered with it.
pub proof fn law_stop<G: Hold, S: OnceSend<AqResult<()>>>(
    pair: WritePair<G, S>,
    back: WriteStreamBackend<G, S>,
    code: u64,
    stop: u64,
    then: WriteStreamBackend<G, S>,
    then_code: u64,
    r: WriteRecv<G>,
)
    requires
        pair.wf(),
        back.buf == pair.buf,
        back.error_code == pair.error_code,
        back.receives(pair.asked(), code, WriteRecv::Stop(stop)),
        then.buf is None,
        then.error_code == code,
        then.receives(pair.stopped(code).asked(), then_code, r),
    ensures
        pair.buf is None,
        pair.chunks.len() == 0,
        pair.closed,
        pair.stop matches Some((sent, ack)) ==> {
            &&& stop == sent
            &&& ack matches Some(ack) ==> call_ensures(S::send, (ack, Ok(())), ())
        },
        pair.stop is None ==> stop == pair.error_code,
        WritePair::<G, S>::start(pair.cap).error_code == 0,
        code == stop,
        pair.stopped(code).wf(),
        r == WriteRecv::<G>::Stop(stop),
        then_code == stop,
{
}

/// What happens to a read stream.
#[verifier::reject_recursive_types(G)]
pub enum ReadStep<G: Hold> {
    /// the backend's end sends data, under a permit for all the room there is
    Send(CounterAddPermit<G>, Seq<u8>, Chunk<G>),
    /// the user's end reads at most so many bytes, holds this back and hands
    /// this out
    Read(ReadStream<G>, int, Option<Chunk<G>>, Poll<Option<AqResult<Bytes>>>),
    /// the backend's end stops with this error, or is just gone
    End(Option<AqErr>),
}

impl<G: Hold> ReadPair<G> {
    /// Whether this can happen to the stream, as its ends promise.
    pub open spec fn may(self, step: ReadStep<G>) -> bool {
        match step {
            ReadStep::Send(permit, data, chunk) => {
                &&& !self.closed
                &&& permit.spec_len() == self.cap - self.used
                &&& 0 < data.len() <= permit.spec_len()
                &&& exists|send: &mut UnboundedSender<AqResult<Chunk<G>>>| #[trigger]
                    backend::gave(send, permit, data, chunk, true)
            },
            ReadStep::Read(front, max_len, left, r) => {
                &&& max_len >= 0
                &&& front.buf == self.buf
                &&& front.reads(self.asked(), max_len, left, r)
            },
            ReadStep::End(_) => !self.closed,
        }
    }

    /// The stream after this happened to it.
    pub open spec fn next(self, step: ReadStep<G>) -> Self {
        match step {
            ReadStep::Send(_, _, chunk) => self.sent(chunk),
            ReadStep::Read(_, _, left, _) => self.read(left),
            ReadStep::End(err) => ReadPair { err, closed: true, ..self },
        }
    }

    /// A new stream after all this happened to it.
    pub open spec fn run(cap: int, steps: Seq<ReadStep<G>>) -> Self
        decreases steps.len(),
    {
        if steps.len() == 0 {
            Self::start(cap)
        } else {
            Self::run(cap, steps.drop_last()).next(steps.last())
        }
    }

    /// Whether all this can happen to a new stream.
    pub open spec fn can_run(cap: int, steps: Seq<ReadStep<G>>) -> bool
        decreases steps.len(),
    {
        steps.len() > 0 ==> {
            &&& Self::can_run(cap, steps.drop_last())
            &&& Self::run(cap, steps.drop_last()).may(steps.last())
        }
    }
}

/// All that was sent, one after the other.
pub open spec fn all_sent<G: Hold>(steps: Seq<ReadStep<G>>) -> Seq<u8>
    decreases steps.len(),
{
    if steps.len() == 0 {
        Seq::empty()
    } else {
        let before = all_sent(steps.drop_last());
        match steps.last() {
            ReadStep::Send(_, data, _) => before + data,
            _ => before,
        }
    }
}

/// All that was read, one after the other.
pub open spec fn all_read<G: Hold>(steps: Seq<ReadStep<G>>) -> Seq<u8>
    decreases steps.len(),
{
    if steps.len() == 0 {
        Seq::empty()
    } else {
        let before = all_read(steps.drop_last());
        match steps.last() {
            ReadStep::Read(_, _, _, Poll::Ready(Some(Ok(out)))) => before + buf::bytes_view(out),
            _ => before,
        }
    }
}

proof fn lemma_read_run<G: Hold>(cap: int, steps: Seq<ReadStep<G>>) -> (f: Flow)
    requires
        cap >= 0,
        ReadPair::<G>::can_run(cap, steps),
    ensures
        ReadPair::run(cap, steps).wf(),
        ReadPair::run(cap, steps).shows(f),
        f.sound(),
        f.cap == cap,
        f.written == all_sent(steps),
        f.taken == all_read(steps),
    decreases steps.len(),
{
    if steps.len() == 0 {
        law_read_start::<G>(cap);
        Flow::start(cap)
    } else {
        let pair = ReadPair::<G>::run(cap, steps.drop_last());
        let f = lemma_read_run(cap, steps.drop_last());
        match steps.last() {
            ReadStep::Send(permit, data, chunk) => {
                law_send(pair, f, permit, data, chunk);
                f.write(data)
            },
            ReadStep::Read(front, max_len, left, r) => {
                if let Poll::Ready(Some(Ok(out))) = r {
                    law_read(pair, f, front, max_len, left, out);
                    let came = if pair.buf is None {
                        f.receive()
                    } else {
                        f
                    };
                    came.take(buf::bytes_view(out).len() as int)
                } else {
                    law_read_nothing(pair, f, front, max_len, left, r);
                    f
                }
            },
            ReadStep::End(_) => f,
        }
    }
}

/// The law of a read stream: whatever its ends do, and in whatever order, what
/// was read is the front of what was sent, byte for byte; no more is in flight
/// between them than the stream allows; and once nothing is, all that was sent
/// has been read.
pub proof fn law_read_stream<G: Hold>(cap: int, steps: Seq<ReadStep<G>>)
    requires
        cap >= 0,
        ReadPair::<G>::can_run(cap, steps),
    ensures
        all_read(steps).len() <= all_sent(steps).len(),
        all_read(steps) == all_sent(steps).take(all_read(steps).len() as int),
        all_sent(steps).len() - all_read(steps).len() == ReadPair::<G>::run(cap, steps).used <= cap,
        ReadPair::run(cap, steps).buf is None && ReadPair::run(cap, steps).chunks.len() == 0
            ==> all_read(steps) == all_sent(steps),
{
    let f = lemma_read_run(cap, steps);
    let pair = ReadPair::<G>::run(cap, steps);
    flow::law_taken_is_prefix(f);
    flow::law_in_flight_bounded(f);
    if pair.buf is None && pair.chunks.len() == 0 {
        flow::law_drained(f);
    }
}

/// What happens to a write stream.
#[verifier::reject_recursive_types(G)]
#[verifier::reject_recursive_types(S)]
pub enum WriteStep<G: Hold, S: OnceSend<AqResult<()>>> {
    /// the user's end writes of this data, under a permit for all the room
    /// there is
    Write(CounterAddPermit<G>, Seq<u8>, Chunk<G>),
    /// the backend's end receives data, and finishes with so many bytes pulled
    /// off and this left
    Receive(
        WriteStreamBackend<G, S>,
        Bytes,
        CounterAddPermit<G>,
        int,
        Option<(Bytes, CounterAddPermit<G>)>,
    ),
    /// the user's end stops with this code, or is just gone
    End(Option<(u64, Option<S>)>),
    /// the backend's end receives a stop
    Stop(WriteStreamBackend<G, S>, u64, u64),
}

impl<G: Hold, S: OnceSend<AqResult<()>>> WritePair<G, S> {
    /// Whether this can happen to the stream, as its ends promise.
    pub open spec fn may(self, step: WriteStep<G, S>) -> bool {
        match step {
            WriteStep::Write(permit, data, chunk) => {
                &&& !self.closed
                &&& permit.spec_len() == self.cap - self.used > 0
                &&& data.len() > 0
                &&& exists|send: &mut UnboundedSender<WriteCmdInner<G, S>>| #[trigger]
                    WriteStream::wrote(send, permit, data, chunk, Ok(()))
            },
            WriteStep::Receive(back, data, permit, n, rest) => {
                let bytes = buf::bytes_view(data);
                &&& back.buf == self.buf
                &&& back.error_code == self.error_code
                &&& back.receives(
                    self.asked(),
                    self.error_code,
                    WriteRecv::Data(data, permit),
                )
                &&& 0 <= n <= bytes.len()
                &&& n == bytes.len() ==> rest is None
                &&& n < bytes.len() ==> {
                    &&& rest matches Some((b, p))
                    &&& buf::bytes_view(b) == bytes.skip(n)
                    &&& p.spec_len() == flow::permit_after_finish(
                        bytes.len() - n,
                        permit.spec_len(),
                    )
                }
            },
            WriteStep::End(_) => !self.closed,
            WriteStep::Stop(back, code, stop) => {
                &&& back.buf == self.buf
                &&& back.error_code == self.error_code
                &&& back.receives(self.asked(), code, WriteRecv::Stop(stop))
            },
        }
    }

    /// The stream after this happened to it.
    pub open spec fn next(self, step: WriteStep<G, S>) -> Self {
        match step {
            WriteStep::Write(_, _, chunk) => self.wrote(chunk),
            WriteStep::Receive(_, _, _, _, rest) => self.finished(rest),
            WriteStep::End(stop) => WritePair { stop, closed: true, ..self },
            WriteStep::Stop(_, code, _) => self.stopped(code),
        }
    }

    /// A new stream after all this happened to it.
    pub open spec fn run(cap: int, steps: Seq<WriteStep<G, S>>) -> Self
        decreases steps.len(),
    {
        if steps.len() == 0 {
            Self::start(cap)
        } else {
            Self::run(cap, steps.drop_last()).next(steps.last())
        }
    }

    /// Whether all this can happen to a new stream.
    pub open spec fn can_run(cap: int, steps: Seq<WriteStep<G, S>>) -> bool
        decreases steps.len(),
    {
        steps.len() > 0 ==> {
            &&& Self::can_run(cap, steps.drop_last())
            &&& Self::run(cap, steps.drop_last()).may(steps.last())
        }
    }
}

/// All that writes took, one after the other.
pub open spec fn all_written<G: Hold, S: OnceSend<AqResult<()>>>(
    steps: Seq<WriteStep<G, S>>,
) -> Seq<u8>
    decreases steps.len(),
{
    if steps.len() == 0 {
        Seq::empty()
    } else {
        let before = all_written(steps.drop_last());
        match steps.last() {
            WriteStep::Write(permit, data, _) => before + data.take(
                flow::min_len(permit.spec_len(), data.len() as int),
            ),
            _ => before,
        }
    }
}

/// All that was pulled off, one after the other.
pub open spec fn all_pulled<G: Hold, S: OnceSend<AqResult<()>>>(
    steps: Seq<WriteStep<G, S>>,
) -> Seq<u8>
    decreases steps.len(),
{
    if steps.len() == 0 {
        Seq::empty()
    } else {
        let before = all_pulled(steps.drop_last());
        match steps.last() {
            WriteStep::Receive(_, data, _, n, _) => before + buf::bytes_view(data).take(n),
            _ => before,
        }
    }
}

proof fn lemma_write_run<G: Hold, S: OnceSend<AqResult<()>>>(
    cap: int,
    steps: Seq<WriteStep<G, S>>,
) -> (f: Flow)
    requires
        cap >= 0,
        WritePair::<G, S>::can_run(cap, steps),
    ensures
        WritePair::run(cap, steps).wf(),
        WritePair::run(cap, steps).shows(f),
        f.sound(),
        f.cap == cap,
        f.written == all_written(steps),
        f.taken == all_pulled(steps),
    decreases steps.len(),
{
    if steps.len() == 0 {
        law_write_start::<G, S>(cap);
        Flow::start(cap)
    } else {
        let pair = WritePair::<G, S>::run(cap, steps.drop_last());
        let f = lemma_write_run(cap, steps.drop_last());
        match steps.last() {
            WriteStep::Write(permit, data, chunk) => {
                law_write(pair, f, permit, data, chunk);
                f.write(data)
            },
            WriteStep::Receive(back, data, permit, n, rest) => {
                lemma_receive(pair, f, back, pair.error_code, data, permit, n, rest);
                let came = if pair.buf is None {
                    f.receive()
                } else {
                    f
                };
                came.take(n)
            },
            WriteStep::End(_) => f,
            WriteStep::Stop(_, _, _) => f,
        }
    }
}

/// The law of a write stream: whatever its ends do, and in whatever order, what
/// was pulled off is the front of what writes took, byte for byte; no more is
/// in flight between them than the stream allows; and once nothing is, all that
/// was written has been pulled off. A stop comes only then.
pub proof fn law_write_stream<G: Hold, S: OnceSend<AqResult<()>>>(
    cap: int,
    steps: Seq<WriteStep<G, S>>,
)
    requires
        cap >= 0,
        WritePair::<G, S>::can_run(cap, steps),
    ensures
        all_pulled(steps).len() <= all_written(steps).len(),
        all_pulled(steps) == all_written(steps).take(all_pulled(steps).len() as int),
        all_written(steps).len() - all_pulled(steps).len() == WritePair::<G, S>::run(
            cap,
            steps,
        ).used <= cap,
        WritePair::run(cap, steps).buf is None && WritePair::run(cap, steps).chunks.len() == 0
            ==> all_pulled(steps) == all_written(steps),
        forall|back: WriteStreamBackend<G, S>, code: u64, sent: u64| #[trigger]
            WritePair::run(cap, steps).may(WriteStep::Stop(back, code, sent)) ==> all_pulled(steps)
                == all_written(steps),
{
    let f = lemma_write_run(cap, steps);
    let pair = WritePair::<G, S>::run(cap, steps);
    flow::law_taken_is_prefix(f);
    flow::law_in_flight_bounded(f);
    if pair.buf is None && pair.chunks.len() == 0 {
        flow::law_drained(f);
    }
}

} // verus!
