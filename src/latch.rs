use vstd::prelude::*;

verus! {

/// Teardown latch: a flag that the harness raises once, after measuring, to
/// let every worker return. Nothing lowers it.
pub struct TeardownLatch {
    raised: bool,
}

impl TeardownLatch {
    /// Whether the latch has been raised.
    pub closed spec fn up(&self) -> bool {
        self.raised
    }

    /// A latch that is not raised yet.
    pub fn new() -> (l: TeardownLatch)
        ensures
            !l.up(),
    {
        TeardownLatch { raised: false }
    }

    /// Raises the latch; it stays raised.
    pub fn raise(&mut self)
        ensures
            final(self).up(),
    {
        self.raised = true;
    }

    /// Whether the latch has been raised.
    pub fn is_raised(&self) -> (r: bool)
        ensures
            r == self.up(),
    {
        self.raised
    }
}

} // verus!
