//! A queue that hands events out, and wakes whoever waits for them.
use std::collections::VecDeque;
use std::task::Poll;
use vstd::prelude::*;

verus! {

/// Events on their way to a user. `W` is the handle by which the user is
/// woken.
pub struct OutChan<T, W> {
    /// who waits for events
    pub new_data_waker: Option<W>,
    /// the events
    pub data: VecDeque<T>,
}

impl<T, W> OutChan<T, W> {
    /// A queue with room for so many events to begin with.
    pub fn new(capacity: usize) -> (r: Self)
        ensures
            r.data@ == Seq::<T>::empty(),
            r.new_data_waker is None,
    {
        OutChan { new_data_waker: None, data: VecDeque::with_capacity(capacity) }
    }

    /// Move all of `t` to the end of the queue. Whoever waited is handed out,
    /// to be woken once the queue is released.
    pub fn push_back(&mut self, t: &mut VecDeque<T>) -> (r: Option<W>)
        ensures
            final(self).data@ == old(self).data@ + old(t)@,
            final(t)@ == Seq::<T>::empty(),
            final(self).new_data_waker is None,
            r == old(self).new_data_waker,
    {
        self.data.append(t);
        self.new_data_waker.take()
    }

    /// Take the first event. Where there is none, remember `waker`.
    pub fn poll_recv(&mut self, waker: W) -> (r: Poll<Option<T>>)
        ensures
            old(self).data@.len() == 0 ==> {
                &&& r is Pending
                &&& final(self).data@ == old(self).data@
                &&& final(self).new_data_waker == Some(waker)
            },
            old(self).data@.len() > 0 ==> {
                &&& r == Poll::Ready(Some(old(self).data@[0]))
                &&& final(self).data@ == old(self).data@.skip(1)
                &&& final(self).new_data_waker == old(self).new_data_waker
            },
    {
        if self.data.len() == 0 {
            self.new_data_waker = Some(waker);
            Poll::Pending
        } else {
            let r = self.data.pop_front();
            assert(self.data@ =~= old(self).data@.skip(1));
            Poll::Ready(r)
        }
    }
}

/// The law of the queue: events come out in the order in which they went in,
/// each once. What is in the queue and what is put in it are all there
/// afterwards, in this order; what comes out is the first, and the others stay.
/// Whoever found nothing is remembered, and handed out with the next events.
pub proof fn law_out_chan<T, W>()
    ensures
        forall|a: &mut OutChan<T, W>, t: &mut VecDeque<T>, woken: Option<W>| #[trigger]
            call_ensures(OutChan::<T, W>::push_back, (a, t), woken) ==> {
                &&& final(a).data@ == a.data@ + t@
                &&& final(t)@.len() == 0
                &&& woken == a.new_data_waker
                &&& final(a).new_data_waker is None
            },
        forall|a: &mut OutChan<T, W>, waker: W, got: Poll<Option<T>>| #[trigger]
            call_ensures(OutChan::<T, W>::poll_recv, (a, waker), got) ==> match got {
                Poll::Pending => {
                    &&& a.data@.len() == 0
                    &&& final(a).data@ == a.data@
                    &&& final(a).new_data_waker == Some(waker)
                },
                Poll::Ready(None) => false,
                Poll::Ready(Some(first)) => {
                    &&& a.data@ == seq![first] + final(a).data@
                    &&& final(a).new_data_waker == a.new_data_waker
                },
            },
{
    assert forall|a: &mut OutChan<T, W>, waker: W, got: Poll<Option<T>>| #[trigger]
        call_ensures(OutChan::<T, W>::poll_recv, (a, waker), got) implies match got {
        Poll::Pending => {
            &&& a.data@.len() == 0
            &&& final(a).data@ == a.data@
            &&& final(a).new_data_waker == Some(waker)
        },
        Poll::Ready(None) => false,
        Poll::Ready(Some(first)) => {
            &&& a.data@ == seq![first] + final(a).data@
            &&& final(a).new_data_waker == a.new_data_waker
        },
    } by {
        if a.data@.len() > 0 {
            assert(a.data@ =~= seq![a.data@[0]] + a.data@.skip(1));
        }
    }
}

} // verus!
