//! What flows through a stream, as mathematics: how much of the data a permit
//! covers, what is left of a chunk, and what all steps of a stream keep.
use vstd::prelude::*;

verus! {

/// The smaller of two lengths.
pub open spec fn min_len(a: int, b: int) -> int {
    if a <= b {
        a
    } else {
        b
    }
}

/// The room that stays held when data is worked off from the front until
/// `left` bytes are left, under a permit for `permit` bytes.
pub open spec fn permit_after_finish(left: int, permit: int) -> int {
    if left == 0 {
        0
    } else {
        min_len(left, permit)
    }
}

/// A stream at one moment: its counter, the chunks between its two ends, what
/// the receiving end holds back, and all that ever went in and came out.
pub struct Flow {
    /// how many bytes may be in flight
    pub cap: int,
    /// how many bytes the counter says are in flight
    pub used: int,
    /// all bytes ever written
    pub written: Seq<u8>,
    /// the chunks in the channel
    pub queue: Seq<Seq<u8>>,
    /// what the receiving end holds back
    pub left: Seq<u8>,
    /// all bytes ever taken out
    pub taken: Seq<u8>,
}

impl Flow {
    /// A new stream.
    pub open spec fn start(cap: int) -> Flow {
        Flow {
            cap,
            used: 0,
            written: Seq::empty(),
            queue: Seq::empty(),
            left: Seq::empty(),
            taken: Seq::empty(),
        }
    }

    /// How many bytes a write of `data` puts in flight: as many as there are,
    /// or as there is room for.
    pub open spec fn accepted(self, data: Seq<u8>) -> int {
        min_len(self.cap - self.used, data.len() as int)
    }

    /// The sending end writes `data`.
    pub open spec fn write(self, data: Seq<u8>) -> Flow {
        let n = self.accepted(data);
        Flow {
            used: self.used + n,
            written: self.written + data.take(n),
            queue: self.queue.push(data.take(n)),
            ..self
        }
    }

    /// The receiving end takes up the next chunk.
    pub open spec fn receive(self) -> Flow {
        Flow { queue: self.queue.drop_first(), left: self.queue.first(), ..self }
    }

    /// The receiving end takes `n` bytes off what it received, and gives their
    /// room back.
    pub open spec fn take(self, n: int) -> Flow {
        Flow {
            used: self.used - n,
            left: self.left.skip(n),
            taken: self.taken + self.left.take(n),
            ..self
        }
    }

    /// Nothing is lost, doubled or out of order.
    pub open spec fn ordered(self) -> bool {
        self.taken + self.left + self.queue.flatten() == self.written
    }

    /// The counter counts the bytes in flight, and they fit.
    pub open spec fn counted(self) -> bool {
        &&& self.used == self.left.len() + self.queue.flatten().len()
        &&& self.used <= self.cap
    }

    /// The stream is in order, and within its bound.
    pub open spec fn sound(self) -> bool {
        self.ordered() && self.counted()
    }
}

/// A new stream is in order.
pub proof fn law_start(cap: int)
    requires
        cap >= 0,
    ensures
        Flow::start(cap).sound(),
{
}

/// A write keeps the stream in order, and what it puts in flight is the front
/// of the data.
pub proof fn law_write(f: Flow, data: Seq<u8>)
    requires
        f.sound(),
    ensures
        f.write(data).sound(),
        f.write(data).written == f.written + data.take(f.accepted(data)),
{
    let n = f.accepted(data);
    f.queue.lemma_flatten_push(data.take(n));
    let g = f.write(data);
    assert(g.taken + g.left + g.queue.flatten() =~= f.taken + f.left + f.queue.flatten()
        + data.take(n));
}

/// Taking up the next chunk keeps the stream in order.
pub proof fn law_receive(f: Flow)
    requires
        f.sound(),
        f.left.len() == 0,
        f.queue.len() > 0,
    ensures
        f.receive().sound(),
{
    assert(f.queue.flatten() == f.queue.first() + f.queue.drop_first().flatten());
    let g = f.receive();
    assert(g.taken + g.left + g.queue.flatten() =~= f.taken + f.left + f.queue.flatten());
}

/// Taking bytes out keeps the stream in order, gives back the room of exactly
/// these bytes, and hands them out as they were written.
pub proof fn law_take(f: Flow, n: int)
    requires
        f.sound(),
        0 <= n <= f.left.len(),
    ensures
        f.take(n).sound(),
        f.take(n).used == f.used - n,
        f.take(n).taken == f.taken + f.left.take(n),
{
    let g = f.take(n);
    assert(f.left.take(n) + f.left.skip(n) =~= f.left);
    assert(g.taken + g.left + g.queue.flatten() =~= f.taken + f.left + f.queue.flatten());
}

/// No more bytes are in flight than the stream allows.
pub proof fn law_in_flight_bounded(f: Flow)
    requires
        f.sound(),
    ensures
        f.left.len() + f.queue.flatten().len() == f.used,
        f.left.len() + f.queue.flatten().len() <= f.cap,
        f.written.len() - f.taken.len() == f.used,
{
}

/// Once nothing is in flight, exactly what was written has been taken out, and
/// all the room is free again.
pub proof fn law_drained(f: Flow)
    requires
        f.sound(),
        f.queue.len() == 0,
        f.left.len() == 0,
    ensures
        f.taken == f.written,
        f.used == 0,
{
    assert(f.taken + f.left + f.queue.flatten() =~= f.taken);
}

/// What was taken out at any time is the front of what was written.
pub proof fn law_taken_is_prefix(f: Flow)
    requires
        f.ordered(),
    ensures
        f.taken.len() <= f.written.len(),
        f.taken == f.written.take(f.taken.len() as int),
{
    assert(f.written.take(f.taken.len() as int) =~= f.taken);
}

} // verus!
