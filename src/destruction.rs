use vstd::arithmetic::div_mod::{lemma_add_mod_noop, lemma_small_mod};
use vstd::prelude::*;

verus! {

/// Counter of the distortion's sample-rate reduction: out of every `factor`
/// consecutive samples, the first is taken afresh and the others repeat it.
pub struct Downsampler {
    count: usize,
}

/// Counter value after `k` samples from a fresh counter, with hold period `factor`.
pub open spec fn count_after(factor: nat, k: nat) -> nat
    decreases k,
{
    if k == 0 {
        0
    } else {
        (count_after(factor, (k - 1) as nat) + 1) % factor
    }
}

impl Downsampler {
    pub closed spec fn count(&self) -> nat {
        self.count as nat
    }

    pub closed spec fn well_formed(&self) -> bool {
        self.count < usize::MAX
    }

    /// A counter whose next sample is taken afresh.
    pub fn new() -> (r: Self)
        ensures
            r.count() == 0,
            r.well_formed(),
    {
        Downsampler { count: 0 }
    }

    /// Whether the current sample is taken afresh (`true`) or the held one is
    /// repeated (`false`); moves the counter on by one sample.
    pub fn advance(&mut self, factor: usize) -> (fresh: bool)
        requires
            factor > 0,
            old(self).well_formed(),
        ensures
            fresh == (old(self).count() == 0),
            final(self).count() == (old(self).count() + 1) % (factor as nat),
            final(self).well_formed(),
    {
        let fresh = self.count == 0;
        self.count = (self.count + 1) % factor;
        fresh
    }
}

/// From a fresh counter with hold period `factor`, the counter after `k` samples
/// is `k % factor`; so sample `k` is taken afresh exactly when `factor` divides `k`,
/// and with `factor == 1` every sample is.
pub proof fn lemma_hold_pattern(factor: nat, k: nat)
    requires
        factor > 0,
    ensures
        count_after(factor, k) == k % factor,
        (count_after(factor, k) == 0) <==> (k % factor == 0),
        factor == 1 ==> count_after(factor, k) == 0,
    decreases k,
{
    if k > 0 {
        lemma_hold_pattern(factor, (k - 1) as nat);
        lemma_add_mod_noop((k - 1) as int, 1, factor as int);
        if factor == 1 {
            assert(count_after(factor, k) == 0);
        } else {
            lemma_small_mod(1, factor);
        }
    }
}

} // verus!
