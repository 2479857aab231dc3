use vstd::prelude::*;

verus! {

/// Sum of the recorded durations.
pub open spec fn sum_of(s: Seq<u64>) -> int
    decreases s.len(),
{
    if s.len() == 0 {
        0
    } else {
        sum_of(s.drop_last()) + s.last()
    }
}

proof fn lemma_sum_bound(s: Seq<u64>)
    ensures
        0 <= sum_of(s) <= s.len() * (u64::MAX as int),
    decreases s.len(),
{
    if s.len() > 0 {
        lemma_sum_bound(s.drop_last());
        assert((s.len() - 1) * (u64::MAX as int) + (u64::MAX as int) == s.len() * (u64::MAX as int))
            by (nonlinear_arith);
    }
}

/// Elapsed times, in nanoseconds, of the iterations of one strategy.
pub struct Trials {
    nanos: Vec<u64>,
}

impl Trials {
    /// The recorded durations, in order.
    pub closed spec fn samples(&self) -> Seq<u64> {
        self.nanos@
    }

    /// No duration recorded yet.
    pub fn new() -> (t: Trials)
        ensures
            t.samples() == Seq::<u64>::empty(),
    {
        Trials { nanos: Vec::new() }
    }

    /// Appends the elapsed time of one iteration.
    pub fn record(&mut self, nanos: u64)
        requires
            old(self).samples().len() < usize::MAX,
        ensures
            final(self).samples() == old(self).samples().push(nanos),
    {
        self.nanos.push(nanos);
    }

    /// Number of recorded iterations.
    pub fn len(&self) -> (r: usize)
        ensures
            r == self.samples().len(),
    {
        self.nanos.len()
    }

    /// Sum of the recorded durations, in nanoseconds.
    pub fn total(&self) -> (r: u128)
        ensures
            r == sum_of(self.samples()),
    {
        let mut acc: u128 = 0;
        let mut i: usize = 0;
        while i < self.nanos.len()
            invariant
                i <= self.samples().len(),
                acc == sum_of(self.samples().take(i as int)),
            decreases self.samples().len() - i,
        {
            proof {
                let s = self.samples();
                assert(s.take(i + 1).drop_last() =~= s.take(i as int));
                lemma_sum_bound(s.take(i + 1));
                assert((i + 1) * (u64::MAX as int) < u128::MAX) by (nonlinear_arith)
                    requires
                        i < usize::MAX,
                ;
            }
            acc = acc + self.nanos[i] as u128;
            i = i + 1;
        }
        assert(self.samples().take(i as int) =~= self.samples());
        acc
    }

    /// Arithmetic mean of the recorded durations, rounded down to the
    /// nanosecond; none while nothing is recorded.
    pub fn mean_nanos(&self) -> (r: Option<u64>)
        ensures
            self.samples().len() == 0 <==> r is None,
            r matches Some(m) ==> m == sum_of(self.samples()) / (self.samples().len() as int),
    {
        let n = self.nanos.len();
        if n == 0 {
            return None;
        }
        let total = self.total();
        proof {
            lemma_sum_bound(self.samples());
            let s = sum_of(self.samples());
            let k = n as int;
            assert(s / k <= u64::MAX) by (nonlinear_arith)
                requires
                    0 <= s <= k * (u64::MAX as int),
                    k > 0,
            ;
        }
        Some((total / (n as u128)) as u64)
    }
}

/// A duration in nanoseconds as hundredths of a millisecond, rounded to the
/// nearest, halves up: what a report with two decimals of milliseconds shows.
pub fn hundredths_of_ms(nanos: u64) -> (r: u64)
    ensures
        r == (nanos + 5000) / 10000,
{
    ((nanos as u128 + 5000) / 10000) as u64
}

} // verus!
