//! Bounded FIFO buffering for diagnostics: pushing onto a full buffer
//! silently evicts the oldest entry, and the whole contents can be
//! drained at once in arrival order.

use std::collections::VecDeque;
use vstd::prelude::*;

verus! {

/// One push onto a bounded FIFO: the new element goes to the back, and
/// the oldest element is dropped first when the buffer is already full.
pub open spec fn ring_push<T>(s: Seq<T>, cap: nat, t: T) -> Seq<T> {
    if s.len() < cap {
        s.push(t)
    } else {
        s.subrange(1, s.len() as int).push(t)
    }
}

/// A whole sequence of pushes onto a bounded FIFO, oldest first.
pub open spec fn ring_push_all<T>(s: Seq<T>, cap: nat, ts: Seq<T>) -> Seq<T>
    decreases ts.len(),
{
    if ts.len() == 0 {
        s
    } else {
        ring_push_all(ring_push(s, cap, ts[0]), cap, ts.subrange(1, ts.len() as int))
    }
}

/// A bounded FIFO buffer. Its length never exceeds its capacity; its
/// contents are totally ordered by arrival.
pub struct RingBuffer<T> {
    entries: VecDeque<T>,
    capacity: usize,
}

impl<T> View for RingBuffer<T> {
    type V = Seq<T>;

    closed spec fn view(&self) -> Seq<T> {
        self.entries@
    }
}

impl<T> RingBuffer<T> {
    /// The fixed bound on how many entries the buffer retains.
    pub closed spec fn cap(&self) -> nat {
        self.capacity as nat
    }

    /// The buffer never holds more entries than its capacity, and the
    /// capacity is at least one.
    pub open spec fn wf(&self) -> bool {
        &&& self@.len() <= self.cap()
        &&& self.cap() >= 1
    }

    /// Creates an empty buffer bounded by `capacity`.
    pub fn new(capacity: usize) -> (r: Self)
        requires
            capacity >= 1,
        ensures
            r@ == Seq::<T>::empty(),
            r.cap() == capacity,
            r.wf(),
    {
        RingBuffer { entries: VecDeque::new(), capacity }
    }

    /// How many entries the buffer currently holds.
    pub fn len(&self) -> (r: usize)
        ensures
            r == self@.len(),
    {
        self.entries.len()
    }

    /// The capacity the buffer was created with.
    pub fn capacity(&self) -> (r: usize)
        ensures
            r == self.cap(),
    {
        self.capacity
    }

    /// Appends an entry, evicting the oldest entry if the buffer is full.
    pub fn push(&mut self, t: T)
        requires
            old(self).wf(),
        ensures
            final(self).wf(),
            final(self).cap() == old(self).cap(),
            final(self)@ == ring_push(old(self)@, old(self).cap(), t),
    {
        if self.entries.len() >= self.capacity {
            self.entries.pop_front();
        }
        self.entries.push_back(t);
    }

    /// Removes and returns the buffer's entire contents in arrival
    /// order, leaving it empty.
    pub fn drain(&mut self) -> (out: Vec<T>)
        requires
            old(self).wf(),
        ensures
            final(self).wf(),
            final(self).cap() == old(self).cap(),
            final(self)@ == Seq::<T>::empty(),
            out@ == old(self)@,
    {
        let mut out: Vec<T> = Vec::new();
        loop
            invariant
                self.cap() == old(self).cap(),
                self.wf(),
                out@ + self@ == old(self)@,
            decreases self@.len(),
        {
            match self.entries.pop_front() {
                Some(t) => {
                    out.push(t);
                    proof {
                        assert(out@ + self@ =~= old(self)@);
                    }
                },
                None => {
                    proof {
                        assert(out@ =~= old(self)@);
                    }
                    return out;
                },
            }
        }
    }

    /// The most recently pushed entry still in the buffer, if any.
    pub fn last(&self) -> (r: Option<&T>)
        ensures
            match r {
                Some(t) => self@.len() > 0 && *t == self@.last(),
                None => self@.len() == 0,
            },
    {
        let n = self.entries.len();
        if n == 0 {
            None
        } else {
            Some(&self.entries[n - 1])
        }
    }
}

/// A push always lands at the back: the freshest entry is the last.
pub proof fn lemma_ring_push_last<T>(s: Seq<T>, cap: nat, t: T)
    ensures
        ring_push(s, cap, t).len() >= 1,
        ring_push(s, cap, t).last() == t,
{
}

/// Bounded-FIFO law: after any sequence of pushes, the buffer holds
/// exactly the most recent `cap` of all entries ever pushed (all of
/// them, if they fit), in arrival order.
pub proof fn lemma_ring_push_all_suffix<T>(s: Seq<T>, cap: nat, ts: Seq<T>)
    requires
        s.len() <= cap,
        cap >= 1,
    ensures
        ring_push_all(s, cap, ts) == if s.len() + ts.len() <= cap {
            s + ts
        } else {
            (s + ts).subrange(s.len() + ts.len() - cap, (s.len() + ts.len()) as int)
        },
    decreases ts.len(),
{
    if ts.len() == 0 {
        assert(s + ts =~= s);
    } else {
        let s1 = ring_push(s, cap, ts[0]);
        let ts1 = ts.subrange(1, ts.len() as int);
        lemma_ring_push_all_suffix(s1, cap, ts1);
        if s.len() < cap {
            assert(s1 + ts1 =~= s + ts);
            if s1.len() + ts1.len() > cap {
                assert((s1 + ts1).subrange(
                    s1.len() + ts1.len() - cap,
                    (s1.len() + ts1.len()) as int,
                ) =~= (s + ts).subrange(s.len() + ts.len() - cap, (s.len() + ts.len()) as int));
            }
        } else {
            assert(s1 + ts1 =~= (s + ts).subrange(1, (s.len() + ts.len()) as int));
            if s1.len() + ts1.len() <= cap {
                assert(s1 + ts1 =~= (s + ts).subrange(
                    s.len() + ts.len() - cap,
                    (s.len() + ts.len()) as int,
                ));
            } else {
                assert((s1 + ts1).subrange(
                    s1.len() + ts1.len() - cap,
                    (s1.len() + ts1.len()) as int,
                ) =~= (s + ts).subrange(s.len() + ts.len() - cap, (s.len() + ts.len()) as int));
            }
        }
    }
}

} // verus!
