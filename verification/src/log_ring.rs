//! The bounded in-memory log: an ordered sequence of the most recent
//! lines, with first-in-first-out eviction once the capacity is reached.

use vstd::prelude::*;

verus! {

/// How many lines the ring keeps.
pub const LOG_CAPACITY: usize = 1000;

/// A bounded ordered sequence of the most recent log lines.
pub struct LogRing {
    pub entries: Vec<Vec<u8>>,
}

impl View for LogRing {
    type V = Seq<Seq<u8>>;

    open spec fn view(&self) -> Seq<Seq<u8>> {
        Seq::new(self.entries@.len(), |i: int| self.entries@[i]@)
    }
}

/// What one append leaves in the ring: the new line goes at the end and,
/// when the ring is already at capacity, the oldest line leaves.
pub open spec fn ring_append(s: Seq<Seq<u8>>, line: Seq<u8>) -> Seq<Seq<u8>> {
    if s.len() < LOG_CAPACITY {
        s.push(line)
    } else {
        s.skip(1).push(line)
    }
}

impl LogRing {
    /// The ring never holds more than its capacity.
    pub open spec fn wf(&self) -> bool {
        self@.len() <= LOG_CAPACITY
    }

    /// An empty ring.
    pub fn new() -> (r: LogRing)
        ensures
            r.wf(),
            r@ == Seq::<Seq<u8>>::empty(),
    {
        let r = LogRing { entries: Vec::new() };
        proof {
            assert(r@ =~= Seq::<Seq<u8>>::empty());
        }
        r
    }

    /// Appends one line; at capacity the oldest line is evicted, so the
    /// most recent `LOG_CAPACITY` lines remain, in arrival order.
    pub fn push_log(&mut self, line: Vec<u8>)
        ensures
            old(self).wf() ==> final(self).wf(),
            final(self)@ == ring_append(old(self)@, line@),
    {
        if self.entries.len() >= LOG_CAPACITY {
            self.entries.remove(0);
        }
        self.entries.push(line);
        proof {
            assert(self@ =~= ring_append(old(self)@, line@));
        }
    }

    /// How many lines the ring currently holds.
    pub fn len(&self) -> (r: usize)
        ensures
            r == self@.len(),
    {
        self.entries.len()
    }
}

} // verus!
