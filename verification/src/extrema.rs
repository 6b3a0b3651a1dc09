//! A streaming accumulator of the least, the greatest and the sum of the
//! samples it was given since it was last drained.

use vstd::prelude::*;

verus! {

/// The most samples that an accumulator records between two drains.
pub const CAPACITY: u64 = 0xffff_ffff_ffff_ffff;

/// `m` occurs in `samples` and none of them is below it.
pub open spec fn is_least(m: u64, samples: Seq<u64>) -> bool {
    &&& samples.contains(m)
    &&& forall|i: int| 0 <= i < samples.len() ==> m <= #[trigger] samples[i]
}

/// `m` occurs in `samples` and none of them is above it.
pub open spec fn is_greatest(m: u64, samples: Seq<u64>) -> bool {
    &&& samples.contains(m)
    &&& forall|i: int| 0 <= i < samples.len() ==> #[trigger] samples[i] <= m
}

/// The sum of `samples`.
pub open spec fn sum(samples: Seq<u64>) -> nat
    decreases samples.len(),
{
    if samples.len() == 0 {
        0
    } else {
        sum(samples.drop_last()) + samples.last() as nat
    }
}

/// What an accumulator holding `samples` holds once `sample` is pushed: the
/// sample is recorded while there is room for it, and dropped otherwise.
pub open spec fn pushed(samples: Seq<u64>, sample: u64) -> Seq<u64> {
    if samples.len() < CAPACITY {
        samples.push(sample)
    } else {
        samples
    }
}

/// No sum of samples exceeds their number times the greatest sample there is.
pub proof fn lemma_sum_bound(samples: Seq<u64>)
    ensures
        sum(samples) <= samples.len() * u64::MAX,
    decreases samples.len(),
{
    if samples.len() > 0 {
        lemma_sum_bound(samples.drop_last());
        assert(samples.len() * u64::MAX == samples.drop_last().len() * u64::MAX + u64::MAX)
            by (nonlinear_arith)
            requires
                samples.drop_last().len() == samples.len() - 1,
        ;
    }
}

/// Tracks the least, the greatest and the sum of a stream of samples.
///
/// Its view is the sequence of the samples recorded since the last drain, in
/// the order in which they came.
#[derive(Clone, Copy)]
pub struct ContinuousExtremaMetricAccumulator {
    count: u64,
    min: u64,
    max: u64,
    total: u128,
    samples: Ghost<Seq<u64>>,
}

impl View for ContinuousExtremaMetricAccumulator {
    type V = Seq<u64>;

    closed spec fn view(&self) -> Seq<u64> {
        self.samples@
    }
}

impl ContinuousExtremaMetricAccumulator {
    #[verifier::type_invariant]
    spec fn summarizes(self) -> bool {
        &&& self.count == self.samples@.len()
        &&& self.total == sum(self.samples@)
        &&& self.count > 0 ==> is_least(self.min, self.samples@)
        &&& self.count > 0 ==> is_greatest(self.max, self.samples@)
    }

    /// An accumulator that holds no sample.
    pub fn new() -> (empty: Self)
        ensures
            empty@ == Seq::<u64>::empty(),
    {
        ContinuousExtremaMetricAccumulator {
            count: 0,
            min: 0,
            max: 0,
            total: 0,
            samples: Ghost(Seq::empty()),
        }
    }

    /// Records `sample`, unless `CAPACITY` samples are held already.
    pub fn push(&mut self, sample: u64)
        ensures
            final(self)@ == pushed(old(self)@, sample),
    {
        proof {
            use_type_invariant(&*self);
        }
        if self.count == CAPACITY {
            return ;
        }
        let ghost before = self.samples@;
        let ghost after = before.push(sample);
        proof {
            lemma_sum_bound(before);
            assert(before.len() * u64::MAX + u64::MAX <= u128::MAX) by (nonlinear_arith)
                requires
                    before.len() < u64::MAX,
            ;
            assert(after.drop_last() =~= before);
            assert(after[before.len() as int] == sample);
            if before.len() > 0 {
                let at_min = choose|i: int| 0 <= i < before.len() && before[i] == self.min;
                assert(after[at_min] == self.min);
                let at_max = choose|i: int| 0 <= i < before.len() && before[i] == self.max;
                assert(after[at_max] == self.max);
            }
        }
        let min = if self.count == 0 || sample < self.min {
            sample
        } else {
            self.min
        };
        let max = if self.count == 0 || sample > self.max {
            sample
        } else {
            self.max
        };
        *self = ContinuousExtremaMetricAccumulator {
            count: self.count + 1,
            min,
            max,
            total: self.total + sample as u128,
            samples: Ghost(after),
        };
    }

    /// Hands out what was accumulated and leaves an empty accumulator behind.
    pub fn take(&mut self) -> (drained: Self)
        ensures
            drained == *old(self),
            final(self)@ == Seq::<u64>::empty(),
    {
        let drained = *self;
        *self = Self::new();
        drained
    }

    /// The number of samples held.
    pub fn count(&self) -> (count: u64)
        ensures
            count == self@.len(),
    {
        proof {
            use_type_invariant(self);
        }
        self.count
    }

    /// Whether no sample is held.
    pub fn is_empty(&self) -> (empty: bool)
        ensures
            empty == (self@.len() == 0),
    {
        proof {
            use_type_invariant(self);
        }
        self.count == 0
    }

    /// The least sample held, if any is.
    pub fn min(&self) -> (least: Option<u64>)
        ensures
            match least {
                Some(m) => is_least(m, self@),
                None => self@.len() == 0,
            },
    {
        proof {
            use_type_invariant(self);
        }
        if self.count == 0 {
            None
        } else {
            Some(self.min)
        }
    }

    /// The greatest sample held, if any is.
    pub fn max(&self) -> (greatest: Option<u64>)
        ensures
            match greatest {
                Some(m) => is_greatest(m, self@),
                None => self@.len() == 0,
            },
    {
        proof {
            use_type_invariant(self);
        }
        if self.count == 0 {
            None
        } else {
            Some(self.max)
        }
    }

    /// The sum of the samples held.
    pub fn total(&self) -> (total: u128)
        ensures
            total == sum(self@),
    {
        proof {
            use_type_invariant(self);
        }
        self.total
    }

    /// The mean of the samples held, rounded down, if any is held.
    pub fn mean(&self) -> (mean: Option<u64>)
        ensures
            match mean {
                Some(m) => self@.len() > 0 && m == sum(self@) / self@.len(),
                None => self@.len() == 0,
            },
    {
        proof {
            use_type_invariant(self);
            lemma_sum_bound(self@);
        }
        if self.count == 0 {
            None
        } else {
            let mean: u128 = self.total / (self.count as u128);
            assert(mean <= u64::MAX) by (nonlinear_arith)
                requires
                    mean == self.total / (self.count as u128),
                    self.total <= self.count * u64::MAX,
                    self.count > 0,
            ;
            Some(mean as u64)
        }
    }
}

impl Default for ContinuousExtremaMetricAccumulator {
    /// An accumulator that holds no sample.
    fn default() -> (empty: Self)
        ensures
            empty@ == Seq::<u64>::empty(),
    {
        ContinuousExtremaMetricAccumulator::new()
    }
}

} // verus!
