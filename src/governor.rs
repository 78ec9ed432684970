use vstd::prelude::*;

verus! {

/// A fixed pool of permits that bounds how many page pipelines run at once.
pub struct PermitPool {
    pub budget: u64,
    pub in_use: u64,
}

impl PermitPool {
    /// No more permits are out than the pool holds.
    pub open spec fn wf(&self) -> bool {
        self.in_use <= self.budget
    }

    /// A pool of `budget` permits, none handed out.
    pub fn new(budget: u64) -> (r: PermitPool)
        ensures
            r.wf(),
            r.budget == budget,
            r.in_use == 0,
    {
        PermitPool { budget, in_use: 0 }
    }

    /// Hands out a permit if one is free; otherwise the caller must wait for a
    /// release and try again.
    pub fn try_acquire(&mut self) -> (r: bool)
        requires
            old(self).wf(),
        ensures
            final(self).wf(),
            r == (old(self).in_use < old(self).budget),
            final(self).budget == old(self).budget,
            final(self).in_use == old(self).in_use + (if r {
                1int
            } else {
                0int
            }),
    {
        if self.in_use < self.budget {
            self.in_use = self.in_use + 1;
            true
        } else {
            false
        }
    }

    /// Takes a permit back.
    pub fn release(&mut self)
        requires
            old(self).wf(),
            old(self).in_use > 0,
        ensures
            final(self).wf(),
            final(self).budget == old(self).budget,
            final(self).in_use == old(self).in_use - 1,
    {
        self.in_use = self.in_use - 1;
    }

    /// How many permits are free.
    pub fn available(&self) -> (r: u64)
        requires
            self.wf(),
        ensures
            r == self.budget - self.in_use,
    {
        self.budget - self.in_use
    }
}

} // verus!
