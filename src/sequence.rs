use crate::common::GRID_WIDTH;
use crate::sampler::Step;
use vstd::prelude::*;

verus! {

/// The pattern data: one optional command per step, `GRID_WIDTH` steps per
/// pattern, the patterns one after the other.
pub struct SequenceStore {
    slots: Vec<Option<Step>>,
}

/// `n` empty slots.
pub open spec fn empty_slots(n: nat) -> Seq<Option<Step>> {
    Seq::new(n, |i: int| None)
}

impl View for SequenceStore {
    type V = Seq<Option<Step>>;

    closed spec fn view(&self) -> Seq<Option<Step>> {
        self.slots@
    }
}

impl SequenceStore {
    /// At least one pattern, and whole patterns only.
    pub open spec fn well_formed(&self) -> bool {
        &&& self@.len() >= GRID_WIDTH
        &&& self@.len() % GRID_WIDTH as nat == 0
    }

    /// `num_patterns` empty patterns.
    pub fn new(num_patterns: usize) -> (r: Self)
        requires
            num_patterns > 0,
            num_patterns * GRID_WIDTH <= usize::MAX,
        ensures
            r@ == empty_slots((num_patterns * GRID_WIDTH) as nat),
            r.well_formed(),
    {
        let n = num_patterns * GRID_WIDTH;
        let mut slots: Vec<Option<Step>> = Vec::new();
        while slots.len() < n
            invariant
                slots.len() <= n,
                slots@ =~= empty_slots(slots.len() as nat),
            decreases n - slots.len(),
        {
            slots.push(None);
        }
        assert(n % GRID_WIDTH == 0) by (nonlinear_arith)
            requires
                n == num_patterns * 16,
        ;
        SequenceStore { slots }
    }

    /// Number of steps.
    pub fn len(&self) -> (r: usize)
        ensures
            r == self@.len(),
    {
        self.slots.len()
    }

    /// Number of patterns.
    pub fn num_patterns(&self) -> (r: usize)
        ensures
            r == self@.len() / GRID_WIDTH as nat,
    {
        self.slots.len() / GRID_WIDTH
    }

    pub fn get(&self, i: usize) -> (r: Option<Step>)
        requires
            i < self@.len(),
        ensures
            r == self@[i as int],
    {
        self.slots[i]
    }

    pub fn set(&mut self, i: usize, slot: Option<Step>)
        requires
            i < old(self)@.len(),
        ensures
            final(self)@ == old(self)@.update(i as int, slot),
    {
        self.slots.set(i, slot);
    }

    /// Grows the store to `num_patterns` patterns by appending empty slots; a store
    /// that already holds that many is left as it is. Existing slots keep their
    /// contents and their indices.
    pub fn grow_to(&mut self, num_patterns: usize)
        requires
            num_patterns * GRID_WIDTH <= usize::MAX,
        ensures
            final(self)@ == (if num_patterns * GRID_WIDTH > old(self)@.len() {
                old(self)@ + empty_slots((num_patterns * GRID_WIDTH - old(self)@.len()) as nat)
            } else {
                old(self)@
            }),
            final(self)@.len() >= old(self)@.len(),
            forall|i: int| 0 <= i < old(self)@.len() ==> final(self)@[i] == old(self)@[i],
            old(self).well_formed() && num_patterns > 0 ==> final(self).well_formed(),
    {
        let n = num_patterns * GRID_WIDTH;
        let ghost before = self@;
        while self.slots.len() < n
            invariant
                before.len() <= self.slots.len(),
                n > before.len() ==> self.slots.len() <= n,
                n <= before.len() ==> self.slots.len() == before.len(),
                self@ =~= before + empty_slots((self.slots.len() - before.len()) as nat),
            decreases n - self.slots.len(),
        {
            self.slots.push(None);
        }
        assert(n % GRID_WIDTH == 0) by (nonlinear_arith)
            requires
                n == num_patterns * 16,
        ;
        assert(n > before.len() ==> self@ =~= before + empty_slots((n - before.len()) as nat));
        assert(n <= before.len() ==> self@ =~= before);
    }
}

} // verus!
