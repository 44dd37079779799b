//! The count of bytes that a stream has in flight.
use vstd::prelude::*;

verus! {

/// Counts the bytes in flight between the two ends of a stream, and keeps the
/// handle `W` by which a writer that found no room is woken.
pub struct Counter<W> {
    /// how many bytes may be in flight
    pub max: usize,
    /// how many bytes are in flight or reserved
    pub used: usize,
    /// who waits for room
    pub waker: Option<W>,
}

impl<W> Counter<W> {
    /// No more is in flight than the stream allows.
    pub open spec fn wf(self) -> bool {
        self.used <= self.max
    }

    /// How many bytes may still be put in flight.
    pub open spec fn room(self) -> int {
        self.max - self.used
    }

    /// What reserving all the room there is means: it is taken, or else the
    /// waker is remembered.
    pub open spec fn reserves(self, waker: W, after: Self, r: Option<usize>) -> bool {
        if self.room() > 0 {
            &&& r matches Some(amount) && amount == self.room()
            &&& after == (Counter { used: self.max, ..self })
        } else {
            &&& r is None
            &&& after == (Counter { waker: Some(waker), ..self })
        }
    }

    /// What giving room back means: there is so much more of it, and whoever
    /// waited is handed out.
    pub open spec fn restores(self, amount: int, after: Self, r: Option<W>) -> bool {
        &&& after.max == self.max
        &&& after.used == self.used - amount
        &&& after.waker is None
        &&& r == self.waker
    }

    /// A counter for a stream that may have `max` bytes in flight.
    pub fn new(max: usize) -> (r: Self)
        ensures
            r.wf(),
            r.max == max,
            r.used == 0,
            r.waker is None,
    {
        Counter { max, used: 0, waker: None }
    }

    /// Reserve all the room there is. Where there is none, remember `waker`.
    pub fn reserve(&mut self, waker: W) -> (r: Option<usize>)
        requires
            old(self).wf(),
        ensures
            final(self).wf(),
            old(self).reserves(waker, *final(self), r),
    {
        let amount: usize = self.max - self.used;
        if amount > 0 {
            self.used = self.max;
            Some(amount)
        } else {
            self.waker = Some(waker);
            None
        }
    }

    /// Give `amount` bytes of room back. Whoever waited for room is handed
    /// out, to be woken once the counter is released.
    pub fn restore(&mut self, amount: usize) -> (r: Option<W>)
        requires
            old(self).wf(),
            amount <= old(self).used,
        ensures
            final(self).wf(),
            old(self).restores(amount as int, *final(self), r),
    {
        self.used = self.used - amount;
        self.waker.take()
    }
}

/// A hold on room that was reserved on a `Counter`. Whoever implements it
/// gives the room that is still held back when the hold goes away. Where the
/// last byte of what it is for is taken out, the hold is handed out with it.
pub trait Hold: Sized {
    /// Give `amount` bytes of the room back, fewer than are held.
    fn give_back(self, amount: usize) -> Self;
}

/// A hold that is settled by hand: what is given back waits here until its
/// owner moves it to the counter.
pub struct Ledger {
    held: usize,
    freed: usize,
}

impl Ledger {
    #[verifier::type_invariant]
    spec fn inv(self) -> bool {
        self.held + self.freed <= usize::MAX
    }

    /// Room that is held.
    pub closed spec fn spec_held(self) -> int {
        self.held as int
    }

    /// Room given back, but not yet moved to the counter.
    pub closed spec fn spec_freed(self) -> int {
        self.freed as int
    }

    /// A hold on `held` bytes of room.
    pub fn new(held: usize) -> (r: Self)
        ensures
            r.spec_held() == held,
            r.spec_freed() == 0,
    {
        Ledger { held, freed: 0 }
    }

    /// The room that is held.
    pub fn held(&self) -> (r: usize)
        ensures
            r == self.spec_held(),
    {
        self.held
    }

    /// The room given back so far.
    pub fn freed(&self) -> (r: usize)
        ensures
            r == self.spec_freed(),
    {
        self.freed
    }

    /// End the hold: all its room, whether given back before or held until now.
    pub fn settle(self) -> (r: usize)
        ensures
            r == self.spec_held() + self.spec_freed(),
    {
        proof {
            use_type_invariant(&self);
        }
        self.held + self.freed
    }
}

impl Hold for Ledger {
    /// Gives nothing back where less is held.
    fn give_back(self, amount: usize) -> (r: Self)
        ensures
            amount <= self.spec_held() ==> {
                &&& r.spec_held() == self.spec_held() - amount
                &&& r.spec_freed() == self.spec_freed() + amount
            },
            amount > self.spec_held() ==> r == self,
    {
        proof {
            use_type_invariant(&self);
        }
        if amount > self.held {
            return self;
        }
        Ledger { held: self.held - amount, freed: self.freed + amount }
    }
}

/// The permit for a number of bytes to be in flight, never zero.
pub struct CounterAddPermit<G: Hold> {
    hold: G,
    amount: usize,
}

impl<G: Hold> CounterAddPermit<G> {
    #[verifier::type_invariant]
    spec fn inv(self) -> bool {
        self.amount > 0
    }

    /// How many bytes the permit stands for.
    pub closed spec fn spec_len(self) -> int {
        self.amount as int
    }

    /// The hold on the counter that the permit keeps.
    pub closed spec fn spec_hold(self) -> G {
        self.hold
    }

    /// Whether `after` is `self` shrunk to `amount` bytes: the hold was told to
    /// give back what lies between.
    pub open spec fn shrunk(self, amount: int, after: Self) -> bool {
        if amount == self.spec_len() {
            after == self
        } else {
            &&& after.spec_len() == amount
            &&& call_ensures(
                G::give_back,
                (self.spec_hold(), (self.spec_len() - amount) as usize),
                after.spec_hold(),
            )
        }
    }

    /// The permit for `amount` bytes, all of the room that `hold` keeps.
    pub fn new(hold: G, amount: usize) -> (r: Self)
        requires
            amount > 0,
        ensures
            r.spec_len() == amount,
            r.spec_hold() == hold,
    {
        CounterAddPermit { hold, amount }
    }

    /// How many bytes the permit stands for.
    pub fn len(&self) -> (r: usize)
        ensures
            r == self.spec_len(),
            r > 0,
    {
        proof {
            use_type_invariant(&*self);
        }
        self.amount
    }

    /// Shrink the permit to `new_amount` bytes; the rest is given back.
    pub fn downgrade_to(self, new_amount: usize) -> (r: Self)
        requires
            0 < new_amount <= self.spec_len(),
        ensures
            r.spec_len() == new_amount,
            self.shrunk(new_amount as int, r),
    {
        if new_amount == self.amount {
            return self;
        }
        let sub: usize = self.amount - new_amount;
        let hold = self.hold.give_back(sub);
        CounterAddPermit { hold, amount: new_amount }
    }

    /// The hold itself; it goes away with the permit.
    pub fn into_hold(self) -> (r: G)
        ensures
            r == self.spec_hold(),
    {
        self.hold
    }
}

/// The law of a permit over a ledger: whatever it is shrunk to, what it holds
/// and what it has given back is what was reserved.
pub proof fn law_ledger_permit(
    before: CounterAddPermit<Ledger>,
    after: CounterAddPermit<Ledger>,
    amount: int,
)
    requires
        before.spec_hold().spec_held() == before.spec_len(),
        0 < amount <= before.spec_len() <= usize::MAX,
        before.shrunk(amount, after),
    ensures
        after.spec_hold().spec_held() == after.spec_len() == amount,
        after.spec_hold().spec_held() + after.spec_hold().spec_freed()
            == before.spec_hold().spec_held() + before.spec_hold().spec_freed(),
{
}

/// The law of reserving: all the room that there is is taken, and it is not
/// nothing; who asks is told that there is none exactly where there is none, and
/// is remembered. Nobody who waits is forgotten.
pub proof fn law_reserve<W>(before: Counter<W>, waker: W, after: Counter<W>, r: Option<usize>)
    requires
        before.wf(),
        before.reserves(waker, after, r),
    ensures
        r is None <==> before.used == before.max,
        r matches Some(amount) ==> {
            &&& amount > 0
            &&& after.used == before.used + amount
            &&& after.used == after.max
            &&& after.waker == before.waker
        },
        r is None ==> after.waker == Some(waker) && after.used == before.used,
        after.max == before.max,
{
}

/// The law of giving back: there is just so much more room, and whoever waited
/// for it is handed out, once.
pub proof fn law_restore<W>(before: Counter<W>, amount: int, after: Counter<W>, woken: Option<W>)
    requires
        before.wf(),
        0 <= amount <= before.used,
        before.restores(amount, after, woken),
    ensures
        after.used + amount == before.used,
        after.max == before.max,
        after.wf(),
        woken == before.waker,
        after.waker is None,
{
}

/// The law of holds: what is given back and what is still held are together what
/// was held, whatever is given back; a hold that ends gives back all of it.
pub proof fn law_ledger(before: Ledger, amount: usize, after: Ledger, all: usize)
    requires
        call_ensures(<Ledger as Hold>::give_back, (before, amount), after),
        call_ensures(Ledger::settle, (after,), all),
    ensures
        all == before.spec_held() + before.spec_freed(),
        amount <= before.spec_held() ==> after.spec_freed() == before.spec_freed() + amount,
        amount > before.spec_held() ==> after == before,
{
}

} // verus!
