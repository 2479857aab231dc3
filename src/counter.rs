use vstd::prelude::*;

verus! {

/// Tally of the workers that have finished the timed segment of one
/// iteration, measured against the number of workers in the herd.
pub struct CompletionCounter {
    count: usize,
    target: usize,
}

impl CompletionCounter {
    /// Workers counted so far.
    pub closed spec fn tally(&self) -> nat {
        self.count as nat
    }

    /// Number of workers the harness waits for.
    pub closed spec fn goal(&self) -> nat {
        self.target as nat
    }

    /// The tally never passes the goal, and the goal is at least one worker.
    pub open spec fn wf(&self) -> bool {
        1 <= self.goal() && self.tally() <= self.goal() && self.goal() <= usize::MAX
    }

    /// A fresh counter for a herd of `target` workers: nothing counted yet.
    pub fn new(target: usize) -> (c: CompletionCounter)
        requires
            target >= 1,
        ensures
            c.wf(),
            c.tally() == 0,
            c.goal() == target,
    {
        CompletionCounter { count: 0, target }
    }

    /// Counts one more finished worker. Returns whether this was the last
    /// one, which is exactly when the harness must be notified.
    pub fn finish_one(&mut self) -> (reached: bool)
        requires
            old(self).wf(),
            old(self).tally() < old(self).goal(),
        ensures
            final(self).wf(),
            final(self).goal() == old(self).goal(),
            final(self).tally() == old(self).tally() + 1,
            reached == (final(self).tally() == final(self).goal()),
    {
        self.count = self.count + 1;
        self.count == self.target
    }

    /// Whether every worker has been counted.
    pub fn is_complete(&self) -> (r: bool)
        ensures
            r == (self.tally() == self.goal()),
    {
        self.count == self.target
    }

    /// Workers counted so far.
    pub fn count(&self) -> (r: usize)
        ensures
            r == self.tally(),
    {
        self.count
    }

    /// Number of workers the harness waits for.
    pub fn target(&self) -> (r: usize)
        ensures
            r == self.goal(),
    {
        self.target
    }
}

} // verus!
