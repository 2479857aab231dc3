use vstd::prelude::*;

verus! {

/// Release barrier: a pool of wake credits. Each release adds one credit, and
/// each credit lets exactly one waiting worker through.
pub struct Gate {
    credits: usize,
}

impl Gate {
    /// Credits not yet consumed by a worker.
    pub closed spec fn available(&self) -> nat {
        self.credits as nat
    }

    /// A closed barrier: no credit, so the first worker blocks.
    pub fn new() -> (g: Gate)
        ensures
            g.available() == 0,
    {
        Gate { credits: 0 }
    }

    /// Adds one credit, letting one more worker through.
    pub fn release(&mut self)
        requires
            old(self).available() < usize::MAX,
        ensures
            final(self).available() == old(self).available() + 1,
    {
        self.credits = self.credits + 1;
    }

    /// A worker's attempt to pass: consumes one credit when there is one.
    /// Returns whether the worker passed; otherwise it keeps waiting.
    pub fn try_pass(&mut self) -> (passed: bool)
        ensures
            passed == (old(self).available() > 0),
            final(self).available() == if passed {
                old(self).available() - 1
            } else {
                old(self).available() as int
            },
    {
        if self.credits > 0 {
            self.credits = self.credits - 1;
            true
        } else {
            false
        }
    }

    /// Credits not yet consumed by a worker.
    pub fn credits(&self) -> (r: usize)
        ensures
            r == self.available(),
    {
        self.credits
    }
}

} // verus!
