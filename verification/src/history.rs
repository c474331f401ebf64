//! A bounded FIFO of recent frame durations, in nanoseconds, with a
//! sliding-window mean: once the window is full, the oldest sample leaves
//! before the newest enters.

use vstd::arithmetic::div_mod::lemma_div_is_ordered;
use vstd::arithmetic::div_mod::lemma_div_multiples_vanish;
use vstd::prelude::*;

verus! {

/// Most samples the window ever holds.
pub const HISTORY_CAPACITY: usize = 100;

/// Sum of a sequence of durations, as an unbounded integer.
pub open spec fn sum_nanos(s: Seq<u64>) -> int
    decreases s.len(),
{
    if s.len() == 0 {
        0
    } else {
        sum_nanos(s.drop_last()) + s.last()
    }
}

/// The retained window after one more sample arrives: append while below
/// capacity, else drop the oldest sample and append.
pub open spec fn slide(h: Seq<u64>, sample: u64) -> Seq<u64> {
    if h.len() < HISTORY_CAPACITY {
        h.push(sample)
    } else {
        h.subrange(1, h.len() as int).push(sample)
    }
}

/// The window left after recording a whole run of samples, one by one,
/// into an initially empty history.
pub open spec fn retained(all: Seq<u64>) -> Seq<u64>
    decreases all.len(),
{
    if all.len() == 0 {
        Seq::empty()
    } else {
        slide(retained(all.drop_last()), all.last())
    }
}

/// Sliding-window law: after any run of recorded samples, the window holds
/// exactly the most recent `HISTORY_CAPACITY` of them — all of them while
/// there are fewer — in their original relative order, oldest first.
pub proof fn lemma_retained_window(all: Seq<u64>)
    ensures
        retained(all) == all.subrange(
            if all.len() <= HISTORY_CAPACITY {
                0
            } else {
                all.len() - HISTORY_CAPACITY
            },
            all.len() as int,
        ),
    decreases all.len(),
{
    let n = all.len() as int;
    if n == 0 {
        assert(retained(all) =~= all.subrange(0, 0));
    } else {
        let prefix = all.drop_last();
        lemma_retained_window(prefix);
        if n <= HISTORY_CAPACITY {
            assert(retained(prefix).push(all.last()) =~= all.subrange(0, n));
        } else if n == HISTORY_CAPACITY + 1 {
            assert(retained(prefix).subrange(1, HISTORY_CAPACITY as int).push(all.last())
                =~= all.subrange(1, n));
        } else {
            assert(retained(prefix).subrange(1, HISTORY_CAPACITY as int).push(all.last())
                =~= all.subrange(n - HISTORY_CAPACITY, n));
        }
    }
}

/// A rolling window of recent frame durations, oldest first.
pub struct FrameTimeHistory {
    samples: Vec<u64>,
}

impl View for FrameTimeHistory {
    type V = Seq<u64>;

    closed spec fn view(&self) -> Seq<u64> {
        self.samples@
    }
}

impl FrameTimeHistory {
    /// The window never exceeds its capacity and every sample is a
    /// positive duration.
    pub open spec fn wf(&self) -> bool {
        &&& self@.len() <= HISTORY_CAPACITY
        &&& forall|i: int| 0 <= i < self@.len() ==> self@[i] > 0
    }

    /// An empty window.
    pub fn new() -> (h: FrameTimeHistory)
        ensures
            h.wf(),
            h@ == Seq::<u64>::empty(),
    {
        FrameTimeHistory { samples: Vec::new() }
    }

    /// How many samples are currently retained.
    pub fn len(&self) -> (n: usize)
        ensures
            n == self@.len(),
    {
        self.samples.len()
    }

    /// The sample at position `i`, oldest first.
    pub fn sample_at(&self, i: usize) -> (s: u64)
        requires
            i < self@.len(),
        ensures
            s == self@[i as int],
    {
        self.samples[i]
    }

    /// Insert one realized frame duration under the sliding-window policy:
    /// append while below capacity, else evict the oldest sample first.
    pub fn record(&mut self, sample: u64)
        requires
            old(self).wf(),
            sample > 0,
        ensures
            final(self).wf(),
            final(self)@ == slide(old(self)@, sample),
    {
        if self.samples.len() == HISTORY_CAPACITY {
            self.samples.remove(0);
            self.samples.push(sample);
            assert(self@ =~= old(self)@.subrange(1, old(self)@.len() as int).push(sample));
        } else {
            self.samples.push(sample);
        }
    }

    /// The arithmetic mean (rounded toward zero) of exactly the retained
    /// samples, in nanoseconds. Undefined on an empty window, so callers
    /// must have recorded at least one sample.
    pub fn average_nanos(&self) -> (avg: u64)
        requires
            self.wf(),
            self@.len() > 0,
        ensures
            avg == sum_nanos(self@) / self@.len() as int,
            avg >= 1,
    {
        let ghost whole = self@;
        let mut total: u128 = 0;
        let mut i: usize = 0;
        while i < self.samples.len()
            invariant
                self.wf(),
                self@ == whole,
                i <= self@.len(),
                total == sum_nanos(self@.subrange(0, i as int)),
                i <= total <= i * 0xffff_ffff_ffff_ffffu128,
            decreases self@.len() - i,
        {
            proof {
                assert(self@.subrange(0, i + 1).drop_last() =~= self@.subrange(0, i as int));
                assert(self@.subrange(0, i + 1).last() == self@[i as int]);
            }
            total = total + (self.samples[i] as u128);
            i = i + 1;
        }
        proof {
            assert(self@.subrange(0, self@.len() as int) =~= self@);
        }
        let n: u128 = self.samples.len() as u128;
        let avg_wide: u128 = total / n;
        proof {
            let len = self@.len() as int;
            let sum = sum_nanos(self@);
            lemma_div_multiples_vanish(1, len);
            lemma_div_is_ordered(len, sum, len);
            lemma_div_multiples_vanish(u64::MAX as int, len);
            lemma_div_is_ordered(sum, len * (u64::MAX as int), len);
            assert(1 <= sum / len <= u64::MAX);
        }
        avg_wide as u64
    }
}

} // verus!
