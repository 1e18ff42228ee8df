//! Fixed-capacity, allocation-free measurement history.
//!
//! A ring buffer keeps the newest readings in chronological order, and every
//! reading is given a sequence number: the first value ever pushed is number
//! zero and each following one is one higher, whether or not the value it
//! overwrote is still retained.

use vstd::prelude::*;
use vstd::arithmetic::div_mod::{lemma_add_mod_noop, lemma_mod_equivalence, lemma_fundamental_div_mod};

verus! {

/// A ring buffer that keeps the newest values in chronological order.
///
/// Once full, inserting a new value overwrites the oldest value. The storage
/// is handed in by the caller, so the history can live wherever the caller
/// placed the buffer; the history itself never allocates.
pub struct MeasurementHistory<T> {
    entries: Vec<Option<T>>,
    next: usize,
    len: usize,
    /// Number of values pushed since the history was created.
    pushed: u64,
    /// Every value ever pushed, in order; index `s` holds sequence number `s`.
    log: Ghost<Seq<T>>,
}

impl<T: Copy> MeasurementHistory<T> {
    /// Every value ever pushed, indexed by sequence number.
    pub closed spec fn log(&self) -> Seq<T> {
        self.log@
    }

    /// Number of values the buffer can hold.
    pub closed spec fn spec_capacity(&self) -> nat {
        self.entries@.len()
    }

    /// Number of readings retained: the newest `min(pushed, capacity)` ones.
    pub open spec fn spec_len(&self) -> nat {
        if self.log().len() < self.spec_capacity() {
            self.log().len()
        } else {
            self.spec_capacity()
        }
    }

    /// Sequence number the next pushed reading will be given.
    pub open spec fn spec_next_sequence(&self) -> nat {
        self.log().len()
    }

    /// Sequence number of the oldest retained reading.
    pub open spec fn spec_first_sequence(&self) -> int {
        self.spec_next_sequence() - self.spec_len()
    }

    /// The reading with sequence number `sequence`, if it is still retained.
    pub open spec fn reading(&self, sequence: int) -> Option<T> {
        if self.spec_first_sequence() <= sequence < self.spec_next_sequence() {
            Some(self.log()[sequence])
        } else {
            None
        }
    }

    /// The retained readings, oldest first.
    pub open spec fn retained(&self) -> Seq<T> {
        self.log().subrange(self.spec_first_sequence(), self.spec_next_sequence() as int)
    }

    /// Internal consistency of the ring buffer.
    pub closed spec fn wf(&self) -> bool {
        let cap = self.entries@.len() as int;
        &&& 0 < cap <= usize::MAX
        &&& self.pushed as int == self.log@.len()
        &&& self.next as int == (self.pushed as int) % cap
        &&& self.len as int == self.spec_len()
        &&& forall|s: int|
            #![trigger self.log@[s]]
            self.spec_first_sequence() <= s < self.pushed ==> self.entries@[s % cap] == Some(
                self.log@[s],
            )
    }

    /// The counters of a consistent history fit the machine types they are
    /// reported in, and the capacity is never zero.
    pub proof fn lemma_bounds(&self)
        requires
            self.wf(),
        ensures
            self.spec_next_sequence() <= u64::MAX,
            0 < self.spec_capacity() <= usize::MAX,
            self.spec_len() <= self.spec_capacity(),
    {
    }

    /// Wrap `entries` as an empty history whose capacity is its length.
    ///
    /// The buffer must not be empty: a zero-capacity ring buffer could not
    /// retain anything.
    pub fn new(entries: Vec<Option<T>>) -> (history: Self)
        requires
            entries.len() > 0,
        ensures
            history.wf(),
            history.spec_capacity() == entries.len(),
            history.log() == Seq::<T>::empty(),
    {
        let capacity = entries.len();
        assert(entries@.len() == capacity);
        MeasurementHistory { entries, next: 0, len: 0, pushed: 0, log: Ghost(Seq::empty()) }
    }

    /// Store a value, discarding the oldest value if the history is full.
    ///
    /// The value gets the sequence number [`Self::next_sequence`] had before
    /// the call; every reading that stays retained keeps its number.
    pub fn push(&mut self, value: T)
        requires
            old(self).wf(),
            old(self).spec_next_sequence() < u64::MAX,
        ensures
            final(self).wf(),
            final(self).spec_capacity() == old(self).spec_capacity(),
            final(self).log() == old(self).log().push(value),
            final(self).reading(old(self).spec_next_sequence() as int) == Some(value),
            forall|s: int|
                #![trigger final(self).reading(s)]
                s != old(self).spec_next_sequence() ==> final(self).reading(s) == if final(self).spec_first_sequence() <= s {
                    old(self).reading(s)
                } else {
                    None::<T>
                },
            final(self).spec_len() == if old(self).spec_len() < old(self).spec_capacity() {
                old(self).spec_len() + 1
            } else {
                old(self).spec_capacity()
            },
    {
        let capacity = self.entries.len();
        let ghost old_log = self.log@;
        let ghost old_first = self.spec_first_sequence();
        let ghost p = self.pushed as int;
        let ghost cap = capacity as int;
        let ghost old_entries = self.entries@;
        let ghost nxt = self.next as int;

        self.entries.set(self.next, Some(value));
        self.next = if self.next + 1 == capacity { 0 } else { self.next + 1 };
        self.len = if self.len < capacity { self.len + 1 } else { capacity };
        self.pushed = self.pushed + 1;
        self.log = Ghost(old_log.push(value));

        proof {
            lemma_add_mod_noop(p, 1, cap);
            if cap == 1 {
                assert((p + 1) % cap == 0) by (nonlinear_arith) requires cap == 1;
            } else {
                assert(1int % cap == 1) by (nonlinear_arith) requires cap > 1;
                assert((nxt + 1) % cap == if nxt + 1 == cap { 0 } else { nxt + 1 })
                    by (nonlinear_arith) requires 0 <= nxt < cap;
            }
            assert forall|s: int|
                #![trigger self.log@[s]]
                self.spec_first_sequence() <= s < self.pushed implies self.entries@[s % cap]
                == Some(self.log@[s]) by {
                if s == p {
                    assert(self.log@[s] == value);
                } else {
                    assert(s < p);
                    assert(old_first <= s);
                    assert(self.log@[s] == old_log[s]);
                    assert(0 < p - s < cap);
                    lemma_mod_equivalence(p, s, cap);
                    lemma_fundamental_div_mod(p - s, cap);
                    assert((p - s) / cap == 0) by (nonlinear_arith)
                        requires 0 < p - s < cap;
                    assert((p - s) % cap != 0);
                    assert(s % cap != nxt);
                    assert(0 <= s);
                    assert(0 <= s % cap < cap) by (nonlinear_arith)
                        requires cap > 0, s >= 0;
                }
            }
        }
    }

    /// Return the number of values the buffer can hold.
    pub fn capacity(&self) -> (capacity: usize)
        requires
            self.wf(),
        ensures
            capacity == self.spec_capacity(),
    {
        self.entries.len()
    }

    /// Return the number of readings currently retained.
    pub fn len(&self) -> (len: usize)
        requires
            self.wf(),
        ensures
            len == self.spec_len(),
    {
        self.len
    }

    /// Sequence number of the oldest reading still retained.
    ///
    /// Equals [`Self::next_sequence`] while the history is empty.
    pub fn first_sequence(&self) -> (first: u64)
        requires
            self.wf(),
        ensures
            first == self.spec_first_sequence(),
    {
        self.pushed - self.len as u64
    }

    /// Sequence number that the next pushed reading will be given.
    pub fn next_sequence(&self) -> (next: u64)
        requires
            self.wf(),
        ensures
            next == self.spec_next_sequence(),
    {
        self.pushed
    }

    /// Return the reading with the given sequence number.
    ///
    /// Yields `None` for a reading that was never stored, or that has already
    /// been overwritten by a newer one.
    pub fn get(&self, sequence: u64) -> (value: Option<T>)
        requires
            self.wf(),
        ensures
            value == self.reading(sequence as int),
    {
        let first = self.first_sequence();
        if sequence < first {
            return None;
        }
        let index = sequence - first;
        if index >= self.len as u64 {
            return None;
        }
        self.get_oldest(index as usize)
    }

    /// Return a reading by age, where index zero is the oldest retained one.
    pub fn get_oldest(&self, index: usize) -> (value: Option<T>)
        requires
            self.wf(),
        ensures
            value == if index < self.spec_len() {
                Some(self.log()[self.spec_first_sequence() + index])
            } else {
                None::<T>
            },
    {
        if index >= self.len {
            return None;
        }
        let capacity = self.entries.len();
        let oldest = if self.len == capacity { self.next } else { 0 };
        let position = if index < capacity - oldest { oldest + index } else { index - (capacity - oldest) };
        proof {
            let cap = capacity as int;
            let p = self.pushed as int;
            let s = self.spec_first_sequence() + index;
            assert(self.log@[s] == self.log@[s]);
            if self.len == capacity {
                // The oldest retained reading sits where the next one will go.
                assert(s == p - cap + index);
                lemma_mod_equivalence(p - cap + index, self.next as int + index, cap);
                assert((p - cap + index) - (self.next as int + index) == p - self.next - cap);
                lemma_fundamental_div_mod(p, cap);
                assert(p - self.next as int == cap * (p / cap));
                assert((p - self.next - cap) == cap * (p / cap - 1)) by (nonlinear_arith)
                    requires p - self.next as int == cap * (p / cap);
                assert((cap * (p / cap - 1)) % cap == 0) by (nonlinear_arith)
                    requires cap > 0;
                assert(0 <= position < cap);
                assert(position as int == (self.next as int + index) % cap) by (nonlinear_arith)
                    requires
                        0 <= self.next < cap,
                        0 <= index < cap,
                        position as int == if index < cap - self.next { self.next + index } else {
                            index - (cap - self.next)
                        };
            } else {
                assert(p < cap);
                assert(s == index);
                assert(index as int % cap == index) by (nonlinear_arith)
                    requires 0 <= index < cap;
            }
        }
        self.entries[position]
    }
}

/// A reading, once stored, never changes: a later state of the same history
/// either still returns it under the same sequence number or no longer
/// retains it.
pub proof fn lemma_reading_never_changes<T: Copy>(
    earlier: MeasurementHistory<T>,
    later: MeasurementHistory<T>,
    sequence: int,
)
    requires
        earlier.log().is_prefix_of(later.log()),
        earlier.reading(sequence) is Some,
        later.spec_first_sequence() <= sequence,
    ensures
        later.reading(sequence) == earlier.reading(sequence),
{
}

/// One reading together with the device uptime at which it was taken.
#[derive(Debug, Clone, Copy, PartialEq, Eq)]
pub struct Sample<T> {
    /// The measured values.
    pub value: T,
    /// Uptime in milliseconds at which the reading completed.
    pub taken_at_ms: u64,
}

} // verus!
