//! The streams of a connection.
use super::stream;
use super::stream::ReadEnd;
use super::stream::StreamInfo;
use super::BYTES_CAP;
use crate::error::AqErr;
use std::collections::HashMap;
use vstd::prelude::*;

verus! {

broadcast use vstd::std_specs::hash::group_hash_axioms;

/// Makes the two ends of new streams: one for the connection, one for the
/// user.
pub trait StreamPairs {
    /// the connection's end of a read stream
    type ReadBack: ReadEnd;

    /// the user's end of a read stream
    type ReadFront;

    /// the connection's end of a write stream
    type WriteBack;

    /// the user's end of a write stream
    type WriteFront;

    /// A read stream with a buffer of the given size.
    fn read_pair(&self, buf_size: usize) -> (Self::ReadBack, Self::ReadFront);

    /// A write stream with a buffer of the given size.
    fn write_pair(&self, buf_size: usize) -> (Self::WriteBack, Self::WriteFront);
}

/// The streams of a connection by their numbers.
pub type StreamMap<R, W> = HashMap<u64, StreamInfo<R, W>>;

/// The streams with this one marked as readable, if there is such a stream.
pub open spec fn with_readable<R, W>(streams: Map<u64, StreamInfo<R, W>>, id: u64) -> Map<
    u64,
    StreamInfo<R, W>,
> {
    if streams.contains_key(id) {
        streams.insert(id, (StreamInfo { readable: true, ..streams[id] }))
    } else {
        streams
    }
}

/// The stream may have data to read, if there is such a stream.
pub fn mark_readable<R: ReadEnd, W>(streams: &mut StreamMap<R, W>, id: u64)
    ensures
        final(streams)@ == with_readable(old(streams)@, id),
{
    if let Some(mut info) = streams.remove(&id) {
        info.set_readable();
        streams.insert(id, info);
        assert(streams@ =~= with_readable(old(streams)@, id));
    } else {
        assert(streams@ =~= old(streams)@);
    }
}

/// The streams with this one marked as writable, if there is such a stream.
pub open spec fn with_writable<R, W>(streams: Map<u64, StreamInfo<R, W>>, id: u64) -> Map<
    u64,
    StreamInfo<R, W>,
> {
    if streams.contains_key(id) {
        streams.insert(id, (StreamInfo { writable: true, ..streams[id] }))
    } else {
        streams
    }
}

/// Data may be written to the stream, if there is such a stream.
pub fn mark_writable<R: ReadEnd, W>(streams: &mut StreamMap<R, W>, id: u64)
    ensures
        final(streams)@ == with_writable(old(streams)@, id),
{
    if let Some(mut info) = streams.remove(&id) {
        info.set_writable();
        streams.insert(id, info);
        assert(streams@ =~= with_writable(old(streams)@, id));
    } else {
        assert(streams@ =~= old(streams)@);
    }
}

/// The law of marks: a mark is set on one stream that is there; its other mark,
/// its number and its halves stay, and so do all other streams. Nothing comes
/// or goes.
pub proof fn law_marks<R, W>(streams: Map<u64, StreamInfo<R, W>>, id: u64)
    ensures
        ({
            let readable = with_readable(streams, id);
            let writable = with_writable(streams, id);
            &&& readable.dom() == streams.dom()
            &&& writable.dom() == streams.dom()
            &&& readable.remove(id) == streams.remove(id)
            &&& writable.remove(id) == streams.remove(id)
            &&& streams.contains_key(id) ==> {
                &&& readable[id].readable
                &&& readable[id].writable == streams[id].writable
                &&& writable[id].writable
                &&& writable[id].readable == streams[id].readable
                &&& readable[id].stream_id == streams[id].stream_id == writable[id].stream_id
                &&& readable[id].read == streams[id].read && writable[id].read == streams[id].read
                &&& readable[id].write == streams[id].write
                &&& writable[id].write == streams[id].write
            }
        }),
{
    assert(with_readable(streams, id).dom() =~= streams.dom());
    assert(with_writable(streams, id).dom() =~= streams.dom());
    assert(with_readable(streams, id).remove(id) =~= streams.remove(id));
    assert(with_writable(streams, id).remove(id) =~= streams.remove(id));
}

/// The stream is over, if there is such a stream.
pub fn finish_stream<R: ReadEnd, W>(streams: &mut StreamMap<R, W>, id: u64)
    ensures
        final(streams)@ == old(streams)@.remove(id),
{
    if let Some(info) = streams.remove(&id) {
        info.finish();
    }
    assert(streams@ =~= old(streams)@.remove(id));
}

/// The other side stopped the stream with this code, if there is such a
/// stream.
pub fn stop_stream<R: ReadEnd, W>(streams: &mut StreamMap<R, W>, id: u64, code: u64)
    ensures
        final(streams)@ == old(streams)@.remove(id),
        old(streams)@.contains_key(id) ==> stream::told_to_stop(
            old(streams)@[id].read,
            AqErr::Stopped(code),
        ),
{
    if let Some(info) = streams.remove(&id) {
        info.stop(code);
    }
    assert(streams@ =~= old(streams)@.remove(id));
}

/// Whether a pair of ends for a stream that we read was made, its front is
/// `front`, and `after` is `before` with the new stream `id` that has its back.
pub open spec fn took_uni_in<M: StreamPairs>(
    pairs: M,
    before: Map<u64, StreamInfo<M::ReadBack, M::WriteBack>>,
    after: Map<u64, StreamInfo<M::ReadBack, M::WriteBack>>,
    id: u64,
    front: M::ReadFront,
) -> bool {
    exists|rb: M::ReadBack| #[trigger]
        call_ensures(M::read_pair, (&pairs, BYTES_CAP), (rb, front)) && after == before.insert(
            id,
            StreamInfo::spec_new(id, Some(rb), None),
        )
}

/// Whether a pair of ends for a stream that we write was made, its front is
/// `front`, and `after` is `before` with the new stream `id` that has its back.
pub open spec fn took_uni_out<M: StreamPairs>(
    pairs: M,
    before: Map<u64, StreamInfo<M::ReadBack, M::WriteBack>>,
    after: Map<u64, StreamInfo<M::ReadBack, M::WriteBack>>,
    id: u64,
    front: M::WriteFront,
) -> bool {
    exists|wb: M::WriteBack| #[trigger]
        call_ensures(M::write_pair, (&pairs, BYTES_CAP), (wb, front)) && after == before.insert(
            id,
            StreamInfo::spec_new(id, None, Some(wb)),
        )
}

/// Whether pairs of ends for a stream that we write and read were made, their
/// fronts are `fronts`, and `after` is `before` with the new stream `id` that
/// has their backs.
pub open spec fn took_bi<M: StreamPairs>(
    pairs: M,
    before: Map<u64, StreamInfo<M::ReadBack, M::WriteBack>>,
    after: Map<u64, StreamInfo<M::ReadBack, M::WriteBack>>,
    id: u64,
    fronts: (M::WriteFront, M::ReadFront),
) -> bool {
    exists|wb: M::WriteBack, rb: M::ReadBack|
        {
            &&& #[trigger] call_ensures(M::write_pair, (&pairs, BYTES_CAP), (wb, fronts.0))
            &&& #[trigger] call_ensures(M::read_pair, (&pairs, BYTES_CAP), (rb, fronts.1))
            &&& after == before.insert(id, StreamInfo::spec_new(id, Some(rb), Some(wb)))
        }
}

/// Taking up a stream gives the user the front of the very pair whose back the
/// new stream has, for each half that its direction asks for.
pub proof fn law_fronts<M: StreamPairs>(
    pairs: M,
    before: Map<u64, StreamInfo<M::ReadBack, M::WriteBack>>,
    after: Map<u64, StreamInfo<M::ReadBack, M::WriteBack>>,
    id: u64,
    wf: M::WriteFront,
    rf: M::ReadFront,
)
    ensures
        took_uni_in(pairs, before, after, id, rf) ==> {
            &&& after[id].read matches Some(rb)
            &&& call_ensures(M::read_pair, (&pairs, 65536), (rb, rf))
        },
        took_uni_out(pairs, before, after, id, wf) ==> {
            &&& after[id].write matches Some(wb)
            &&& call_ensures(M::write_pair, (&pairs, 65536), (wb, wf))
        },
        took_bi(pairs, before, after, id, (wf, rf)) ==> {
            &&& after[id].read matches Some(rb)
            &&& call_ensures(M::read_pair, (&pairs, 65536), (rb, rf))
            &&& after[id].write matches Some(wb)
            &&& call_ensures(M::write_pair, (&pairs, 65536), (wb, wf))
        },
{
}

/// Taking up a stream leaves all other streams as they were, and the new one
/// is there, ready to be read and written, with the halves its direction asks
/// for.
pub proof fn law_took<M: StreamPairs>(
    pairs: M,
    before: Map<u64, StreamInfo<M::ReadBack, M::WriteBack>>,
    after: Map<u64, StreamInfo<M::ReadBack, M::WriteBack>>,
    id: u64,
)
    ensures
        (exists|front: M::ReadFront| #[trigger] took_uni_in(pairs, before, after, id, front)) ==> {
            &&& after.remove(id) == before.remove(id)
            &&& after.dom() == before.dom().insert(id)
            &&& after[id].stream_id == id && after[id].readable && after[id].writable
            &&& after[id].read is Some && after[id].write is None
        },
        (exists|front: M::WriteFront| #[trigger]
            took_uni_out(pairs, before, after, id, front)) ==> {
            &&& after.remove(id) == before.remove(id)
            &&& after.dom() == before.dom().insert(id)
            &&& after[id].stream_id == id && after[id].readable && after[id].writable
            &&& after[id].read is None && after[id].write is Some
        },
        (exists|fronts: (M::WriteFront, M::ReadFront)| #[trigger]
            took_bi(pairs, before, after, id, fronts)) ==> {
            &&& after.remove(id) == before.remove(id)
            &&& after.dom() == before.dom().insert(id)
            &&& after[id].stream_id == id && after[id].readable && after[id].writable
            &&& after[id].read is Some && after[id].write is Some
        },
{
}

/// Take up a new outgoing stream that only we write to: the user's end of it.
pub fn register_uni_out<M: StreamPairs>(
    pairs: &M,
    streams: &mut StreamMap<M::ReadBack, M::WriteBack>,
    id: u64,
) -> (r: M::WriteFront)
    ensures
        took_uni_out(*pairs, old(streams)@, final(streams)@, id, r),
{
    let (wb, wf) = pairs.write_pair(BYTES_CAP);
    let info = StreamInfo::uni_out(id, wb);
    streams.insert(id, info);
    wf
}

/// Take up a new incoming stream that only the other side writes to: the
/// user's end of it.
pub fn register_uni_in<M: StreamPairs>(
    pairs: &M,
    streams: &mut StreamMap<M::ReadBack, M::WriteBack>,
    id: u64,
) -> (r: M::ReadFront)
    ensures
        took_uni_in(*pairs, old(streams)@, final(streams)@, id, r),
{
    let (rb, rf) = pairs.read_pair(BYTES_CAP);
    let info = StreamInfo::uni_in(id, rb);
    streams.insert(id, info);
    rf
}

/// Take up a new stream that both sides write to: the user's ends of it.
pub fn register_bi<M: StreamPairs>(
    pairs: &M,
    streams: &mut StreamMap<M::ReadBack, M::WriteBack>,
    id: u64,
) -> (r: (M::WriteFront, M::ReadFront))
    ensures
        took_bi(*pairs, old(streams)@, final(streams)@, id, r),
{
    let (wb, wf) = pairs.write_pair(BYTES_CAP);
    let (rb, rf) = pairs.read_pair(BYTES_CAP);
    let info = StreamInfo::bi(id, rb, wb);
    streams.insert(id, info);
    (wf, rf)
}

} // verus!
