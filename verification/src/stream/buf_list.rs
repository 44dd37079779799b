//! Helper type for a collection of Bytes
use crate::buf;
use crate::buf::bytes_advance;
use crate::buf::bytes_chunk;
use crate::buf::bytes_len;
use bytes::Bytes;
use std::collections::VecDeque;
use vstd::prelude::*;

verus! {

/// Helper type for a collection of Bytes
pub struct BufList {
    bufs: VecDeque<Bytes>,
}

/// The bytes that each buffer of a list holds.
pub open spec fn views(bufs: Seq<Bytes>) -> Seq<Seq<u8>> {
    bufs.map_values(|b: Bytes| buf::bytes_view(b))
}

impl View for BufList {
    type V = Seq<Seq<u8>>;

    closed spec fn view(&self) -> Seq<Seq<u8>> {
        views(self.bufs@)
    }
}

/// The buffers without the first `cnt` bytes: without those that hold no others,
/// and with what is left of the one that does.
pub open spec fn without(bufs: Seq<Seq<u8>>, cnt: int) -> Seq<Seq<u8>>
    decreases bufs.len(),
{
    if cnt <= 0 || bufs.len() == 0 {
        bufs
    } else if bufs[0].len() <= cnt {
        without(bufs.skip(1), cnt - bufs[0].len())
    } else {
        bufs.update(0, bufs[0].skip(cnt))
    }
}

/// The law of dropping bytes: for some `k`, the first `k` buffers are gone, and
/// they held the bytes that were dropped, or all of them but those that the next
/// buffer was cut by; no byte before those is left, and no other is gone.
pub proof fn law_without(bufs: Seq<Seq<u8>>, cnt: int) -> (k: int)
    requires
        0 <= cnt <= bufs.flatten().len(),
    ensures
        0 <= k <= bufs.len(),
        ({
            let held = bufs.take(k).flatten().len();
            if held == cnt {
                without(bufs, cnt) == bufs.skip(k)
            } else {
                &&& held < cnt < held + bufs[k].len()
                &&& k < bufs.len()
                &&& without(bufs, cnt) == bufs.skip(k).update(0, bufs[k].skip(cnt - held))
            }
        }),
        without(bufs, cnt).flatten() == bufs.flatten().skip(cnt),
    decreases bufs.len(),
{
    if cnt == 0 || bufs.len() == 0 {
        assert(bufs.take(0) =~= Seq::empty());
        assert(bufs.skip(0) =~= bufs);
        assert(bufs.flatten().skip(0) =~= bufs.flatten());
        0
    } else {
        lemma_flatten_front(bufs);
        let rest = bufs.skip(1);
        if bufs[0].len() <= cnt {
            let n = law_without(rest, cnt - bufs[0].len());
            let gone = bufs.take(n + 1);
            lemma_flatten_front(gone);
            assert(gone.skip(1) =~= rest.take(n));
            assert(bufs.skip(n + 1) =~= rest.skip(n));
            assert(bufs.flatten().skip(cnt) =~= rest.flatten().skip(cnt - bufs[0].len()));
            n + 1
        } else {
            let cut = bufs.update(0, bufs[0].skip(cnt));
            lemma_flatten_front(cut);
            assert(cut.skip(1) =~= rest);
            assert(bufs.flatten().skip(cnt) =~= bufs[0].skip(cnt) + rest.flatten());
            assert(bufs.take(0) =~= Seq::empty());
            assert(bufs.skip(0) =~= bufs);
            0
        }
    }
}

/// The bytes of a list are those of its first buffer, then those of the rest.
proof fn lemma_flatten_front(bufs: Seq<Seq<u8>>)
    requires
        bufs.len() > 0,
    ensures
        bufs.flatten() == bufs[0] + bufs.skip(1).flatten(),
{
    assert(bufs.skip(1) =~= bufs.drop_first());
}

impl BufList {
    /// Construct a new BufList
    pub fn new() -> (r: Self)
        ensures
            r@ == Seq::<Seq<u8>>::empty(),
    {
        let r = BufList { bufs: VecDeque::new() };
        assert(r@ =~= Seq::<Seq<u8>>::empty());
        r
    }

    /// Push a new item onto the BufList
    pub fn push_back(&mut self, b: Bytes)
        ensures
            final(self)@ == old(self)@.push(buf::bytes_view(b)),
    {
        self.bufs.push_back(b);
        assert(self@ =~= old(self)@.push(buf::bytes_view(b)));
    }

    /// How many bytes are represented.
    pub fn remaining(&self) -> (r: usize)
        requires
            self@.flatten().len() <= usize::MAX,
        ensures
            r == self@.flatten().len(),
    {
        let mut sum: usize = 0;
        let mut i: usize = 0;
        proof {
            assert(self@.take(0) =~= Seq::empty());
        }
        while i < self.bufs.len()
            invariant
                i <= self.bufs@.len(),
                sum == self@.take(i as int).flatten().len(),
                self@ == views(self.bufs@),
                self@.flatten().len() <= usize::MAX,
            decreases self.bufs@.len() - i,
        {
            proof {
                let v = self@;
                assert(v.take(i + 1) =~= v.take(i as int).push(v[i as int]));
                v.take(i as int).lemma_flatten_push(v[i as int]);
                assert(v =~= v.take(i + 1) + v.skip(i + 1));
                vstd::seq_lib::lemma_flatten_concat(v.take(i + 1), v.skip(i + 1));
            }
            sum = sum + bytes_len(&self.bufs[i]);
            i = i + 1;
        }
        assert(self@.take(i as int) =~= self@);
        sum
    }

    /// Whether any bytes are represented.
    pub fn has_remaining(&self) -> (r: bool)
        requires
            self@.flatten().len() <= usize::MAX,
        ensures
            r == (self@.flatten().len() > 0),
    {
        self.remaining() > 0
    }

    /// The bytes of the first buffer, nothing where there is none.
    pub fn chunk(&self) -> (r: &[u8])
        ensures
            self@.len() > 0 ==> r@ == self@[0],
            self@.len() == 0 ==> r@.len() == 0,
    {
        if self.bufs.len() > 0 {
            bytes_chunk(&self.bufs[0])
        } else {
            &[]
        }
    }

    /// Drop the first `cnt` bytes, and with them the buffers that held no others.
    pub fn advance(&mut self, cnt: usize)
        requires
            cnt <= old(self)@.flatten().len(),
        ensures
            final(self)@ == without(old(self)@, cnt as int),
            final(self)@.flatten() == old(self)@.flatten().skip(cnt as int),
    {
        let mut left: usize = cnt;
        let ghost all = self@.flatten();
        let ghost after = without(self@, cnt as int);
        proof {
            assert(all.skip(0) =~= all);
        }
        while left > 0
            invariant
                left <= cnt <= all.len(),
                all == old(self)@.flatten(),
                after == without(old(self)@, cnt as int),
                self@.flatten() == all.skip(cnt - left),
                without(self@, left as int) == after,
            decreases self@.len(),
        {
            let ghost v = self@;
            proof {
                if v.len() == 0 {
                    assert(v.flatten().len() == 0);
                } else {
                    lemma_flatten_front(v);
                }
            }
            match self.bufs.pop_front() {
                None => {
                    assert(false);
                    return;
                },
                Some(mut b) => {
                    assert(self@ =~= v.skip(1));
                    let buf_len: usize = bytes_len(&b);
                    if buf_len <= left {
                        assert(v.flatten().skip(buf_len as int) =~= v.skip(1).flatten());
                        assert(all.skip(cnt - left).skip(buf_len as int) =~= all.skip(
                            cnt - left + buf_len,
                        ));
                        left = left - buf_len;
                    } else {
                        bytes_advance(&mut b, left);
                        self.bufs.push_front(b);
                        proof {
                            lemma_flatten_front(self@);
                            assert(self@.skip(1) =~= v.skip(1));
                            assert(self@ =~= v.update(0, v[0].skip(left as int)));
                            assert((v[0] + v.skip(1).flatten()).skip(left as int) =~= v[0].skip(
                                left as int,
                            ) + v.skip(1).flatten());
                            assert(all.skip(cnt - left).skip(left as int) =~= all.skip(cnt as int));
                        }
                        return;
                    }
                },
            }
        }
    }

    /// Write represented bytes to a new `Vec<u8>`
    pub fn into_vec(self) -> (r: Vec<u8>)
        requires
            self@.flatten().len() <= usize::MAX,
        ensures
            r@ == self@.flatten(),
    {
        let mut this = self;
        let ghost all = this@.flatten();
        let mut out: Vec<u8> = Vec::with_capacity(this.remaining());
        proof {
            assert(out@ + this@.flatten() =~= all);
        }
        while this.bufs.len() > 0
            invariant
                out@ + this@.flatten() == all,
            decreases this.bufs@.len(),
        {
            let ghost v = this@;
            let ghost sofar = out@;
            proof {
                lemma_flatten_front(v);
            }
            if let Some(b) = this.bufs.pop_front() {
                let chunk = bytes_chunk(&b);
                out.extend_from_slice(chunk);
                assert(this@ =~= v.skip(1));
                assert(out@ =~= sofar + v[0]);
                assert(out@ + this@.flatten() =~= sofar + v.flatten());
            }
        }
        assert(this@ =~= Seq::<Seq<u8>>::empty());
        assert(out@ =~= all);
        out
    }

    /// The bytes of the first `max` buffers, one slice each.
    pub fn chunks_vectored(&self, max: usize) -> (r: Vec<&[u8]>)
        ensures
            r@.len() == (if max <= self@.len() {
                max as int
            } else {
                self@.len() as int
            }),
            forall|i: int| 0 <= i < r@.len() ==> (#[trigger] r@[i])@ == self@[i],
    {
        let mut out: Vec<&[u8]> = Vec::new();
        let mut i: usize = 0;
        while i < max && i < self.bufs.len()
            invariant
                i <= max,
                i <= self@.len(),
                self@ == views(self.bufs@),
                out@.len() == i,
                forall|j: int| 0 <= j < i ==> (#[trigger] out@[j])@ == self@[j],
            decreases max - i,
        {
            out.push(bytes_chunk(&self.bufs[i]));
            i = i + 1;
        }
        out
    }

    /// The buffers, to be taken out from the first on.
    pub fn into_iter(self) -> (r: BufListIntoIter)
        ensures
            r@ == self@,
    {
        BufListIntoIter { bufs: self.bufs }
    }
}

impl Default for BufList {
    fn default() -> (r: Self)
        ensures
            r@ == Seq::<Seq<u8>>::empty(),
    {
        BufList::new()
    }
}

/// IntoIter for BufList
pub struct BufListIntoIter {
    bufs: VecDeque<Bytes>,
}

impl View for BufListIntoIter {
    type V = Seq<Seq<u8>>;

    closed spec fn view(&self) -> Seq<Seq<u8>> {
        views(self.bufs@)
    }
}

impl BufListIntoIter {
    /// Take the next buffer out.
    pub fn next(&mut self) -> (r: Option<Bytes>)
        ensures
            old(self)@.len() == 0 ==> r is None && final(self)@ == old(self)@,
            old(self)@.len() > 0 ==> {
                &&& r matches Some(b)
                &&& buf::bytes_view(b) == old(self)@[0]
                &&& final(self)@ == old(self)@.skip(1)
            },
    {
        let r = self.bufs.pop_front();
        proof {
            if old(self)@.len() > 0 {
                assert(self@ =~= old(self)@.skip(1));
            } else {
                assert(self@ =~= old(self)@);
            }
        }
        r
    }
}

/// The law of the list: buffers come out as they went in, each once and in order.
/// One that goes in is the last; one that is taken out is the first, and the
/// others stay; the bytes of all together are those of one after the other.
pub proof fn law_buf_list()
    ensures
        forall|list: BufList| #[trigger]
            call_ensures(BufList::new, (), list) ==> list@.len() == 0,
        forall|a: &mut BufList, b: Bytes| #[trigger]
            call_ensures(BufList::push_back, (a, b), ()) ==> {
                &&& final(a)@.len() == a@.len() + 1
                &&& final(a)@.drop_last() == a@
                &&& final(a)@.last() == buf::bytes_view(b)
            },
        forall|a: &mut BufListIntoIter, r: Option<Bytes>| #[trigger]
            call_ensures(BufListIntoIter::next, (a,), r) ==> match r {
                Some(b) => a@ == seq![buf::bytes_view(b)] + final(a)@,
                None => a@.len() == 0 && final(a)@.len() == 0,
            },
        forall|list: BufList, iter: BufListIntoIter| #[trigger]
            call_ensures(BufList::into_iter, (list,), iter) ==> iter@ == list@,
        forall|list: BufList, all: Vec<u8>| #[trigger]
            call_ensures(BufList::into_vec, (list,), all) ==> all@ == list@.flatten(),
        forall|list: BufList, n: usize, some: bool|
            #![trigger call_ensures(BufList::remaining, (&list,), n), call_ensures(BufList::has_remaining, (&list,), some)]
            call_ensures(BufList::remaining, (&list,), n) && call_ensures(
                BufList::has_remaining,
                (&list,),
                some,
            ) ==> n == list@.flatten().len() && (some <==> n > 0),
{
    assert forall|a: &mut BufList, b: Bytes| #[trigger]
        call_ensures(BufList::push_back, (a, b), ()) implies final(a)@.drop_last() == a@ by {
        assert(final(a)@.drop_last() =~= a@);
    }
    assert forall|a: &mut BufListIntoIter, r: Option<Bytes>| #[trigger]
        call_ensures(BufListIntoIter::next, (a,), r) implies match r {
        Some(b) => a@ == seq![buf::bytes_view(b)] + final(a)@,
        None => a@.len() == 0 && final(a)@.len() == 0,
    } by {
        if a@.len() > 0 {
            assert(a@ =~= seq![a@[0]] + a@.skip(1));
        }
    }
}

} // verus!
