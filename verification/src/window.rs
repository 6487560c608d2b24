//! Bounded, time-ordered telemetry buffers: one `SampleWindow` per metric.

use vstd::prelude::*;
use vstd::arithmetic::mul::lemma_mul_inequality;

verus! {

/// Sum of all readings in a window, as a mathematical integer.
pub open spec fn seq_sum(s: Seq<u64>) -> int
    decreases s.len(),
{
    if s.len() == 0 {
        0
    } else {
        seq_sum(s.drop_last()) + s.last()
    }
}

/// Largest reading in a window, with 0 as the floor for an empty window.
pub open spec fn seq_max(s: Seq<u64>) -> int
    decreases s.len(),
{
    if s.len() == 0 {
        0
    } else if s.last() >= seq_max(s.drop_last()) {
        s.last() as int
    } else {
        seq_max(s.drop_last())
    }
}

/// A window of readings, each at most `limit`, sums to at most
/// `limit * len`, and its peak stays at most `limit`.
pub proof fn lemma_window_bounds(s: Seq<u64>, limit: int)
    requires
        0 <= limit,
        forall|i: int| 0 <= i < s.len() ==> s[i] <= limit,
    ensures
        0 <= seq_sum(s) <= limit * s.len(),
        0 <= seq_max(s) <= limit,
    decreases s.len(),
{
    if s.len() > 0 {
        lemma_window_bounds(s.drop_last(), limit);
        assert(s.last() <= limit);
        assert(limit * (s.len() - 1) + limit == limit * s.len()) by (nonlinear_arith);
    }
}

/// Largest accepted telemetry reading, in milli-units of the metric
/// (a reading of one million units). Larger readings are rejected at
/// ingestion so that window sums and the fixed-point factor arithmetic
/// stay well inside `u64`.
pub const SAMPLE_LIMIT: u64 = 1_000_000_000;

/// Largest accepted window capacity.
pub const WINDOW_LIMIT: usize = 100_000;

/// An ordered, size-bounded sequence of numeric readings for one metric.
/// The oldest reading is evicted first once the capacity is reached.
pub struct SampleWindow {
    samples: Vec<u64>,
    capacity: usize,
}

impl View for SampleWindow {
    type V = Seq<u64>;

    closed spec fn view(&self) -> Seq<u64> {
        self.samples@
    }
}

impl SampleWindow {
    /// Capacity bound kept, every stored reading in range.
    pub open spec fn wf(&self) -> bool {
        &&& 1 <= self.spec_capacity() <= WINDOW_LIMIT
        &&& self@.len() <= self.spec_capacity()
        &&& forall|i: int| 0 <= i < self@.len() ==> self@[i] <= SAMPLE_LIMIT
    }

    pub closed spec fn spec_capacity(&self) -> usize {
        self.capacity
    }

    pub fn new(capacity: usize) -> (w: SampleWindow)
        requires
            1 <= capacity <= WINDOW_LIMIT,
        ensures
            w.wf(),
            w@ =~= Seq::<u64>::empty(),
            w.spec_capacity() == capacity,
    {
        SampleWindow { samples: Vec::new(), capacity }
    }

    pub fn len(&self) -> (n: usize)
        ensures
            n == self@.len(),
    {
        self.samples.len()
    }

    pub fn is_empty(&self) -> (b: bool)
        ensures
            b == (self@.len() == 0),
    {
        self.samples.len() == 0
    }

    pub fn capacity(&self) -> (c: usize)
        ensures
            c == self.spec_capacity(),
    {
        self.capacity
    }

    pub fn get(&self, i: usize) -> (v: u64)
        requires
            i < self@.len(),
        ensures
            v == self@[i as int],
    {
        self.samples[i]
    }

    /// Ingest one reading. An out-of-range reading is rejected and the window
    /// is left unchanged; otherwise the reading is appended, evicting the
    /// oldest reading first when the window is full.
    pub fn push(&mut self, value: u64) -> (accepted: bool)
        requires
            old(self).wf(),
        ensures
            final(self).wf(),
            final(self).spec_capacity() == old(self).spec_capacity(),
            accepted == (value <= SAMPLE_LIMIT),
            !accepted ==> final(self)@ =~= old(self)@,
            accepted && old(self)@.len() < old(self).spec_capacity() ==> final(self)@ =~= old(
                self,
            )@.push(value),
            accepted && old(self)@.len() == old(self).spec_capacity() ==> final(self)@ =~= old(
                self,
            )@.subrange(1, old(self)@.len() as int).push(value),
    {
        if value > SAMPLE_LIMIT {
            return false;
        }
        if self.samples.len() == self.capacity {
            self.samples.remove(0);
        }
        self.samples.push(value);
        true
    }

    /// Sum of the readings in positions `start..end`, oldest first.
    pub fn sum_range(&self, start: usize, end: usize) -> (s: u64)
        requires
            self.wf(),
            start <= end <= self@.len(),
        ensures
            s == seq_sum(self@.subrange(start as int, end as int)),
            s <= SAMPLE_LIMIT * (end - start),
    {
        let mut s: u64 = 0;
        let mut i: usize = start;
        proof {
            assert(self@.subrange(start as int, start as int) =~= Seq::<u64>::empty());
        }
        while i < end
            invariant
                self.wf(),
                start <= i <= end <= self@.len(),
                s == seq_sum(self@.subrange(start as int, i as int)),
                s <= SAMPLE_LIMIT * (i - start),
            decreases end - i,
        {
            let v = self.get(i);
            proof {
                let pre = self@.subrange(start as int, i as int);
                let post = self@.subrange(start as int, i + 1 as int);
                assert(post.drop_last() =~= pre);
                assert(post.last() == self@[i as int]);
                assert(SAMPLE_LIMIT * (i - start) + SAMPLE_LIMIT == SAMPLE_LIMIT * (i + 1 - start))
                    by (nonlinear_arith);
                assert(SAMPLE_LIMIT * (i + 1 - start) <= SAMPLE_LIMIT * (WINDOW_LIMIT as int)) by {
                    lemma_mul_inequality(i + 1 - start, WINDOW_LIMIT as int, SAMPLE_LIMIT as int);
                }
            }
            s = s + v;
            i = i + 1;
        }
        s
    }

    /// Sum of all readings in the window.
    pub fn sum(&self) -> (s: u64)
        requires
            self.wf(),
        ensures
            s == seq_sum(self@),
            s <= SAMPLE_LIMIT * self@.len(),
    {
        let n = self.len();
        let s = self.sum_range(0, n);
        proof {
            assert(self@.subrange(0, self@.len() as int) =~= self@);
        }
        s
    }

    /// Largest reading in the window (0 for an empty window).
    pub fn peak(&self) -> (m: u64)
        requires
            self.wf(),
        ensures
            m == seq_max(self@),
            m <= SAMPLE_LIMIT,
    {
        let mut m: u64 = 0;
        let mut i: usize = 0;
        proof {
            assert(self@.subrange(0, 0) =~= Seq::<u64>::empty());
        }
        while i < self.samples.len()
            invariant
                self.wf(),
                i <= self@.len(),
                m == seq_max(self@.subrange(0, i as int)),
                m <= SAMPLE_LIMIT,
            decreases self@.len() - i,
        {
            let v = self.get(i);
            proof {
                let pre = self@.subrange(0, i as int);
                let post = self@.subrange(0, i + 1 as int);
                assert(post.drop_last() =~= pre);
                assert(post.last() == self@[i as int]);
            }
            if v > m {
                m = v;
            }
            i = i + 1;
        }
        proof {
            assert(self@.subrange(0, self@.len() as int) =~= self@);
        }
        m
    }
}

} // verus!
