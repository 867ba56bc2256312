//! What the game keeps between ticks.

use vstd::prelude::*;

verus! {

/// The number of the process that was made last.
#[derive(Debug, Clone, Copy, PartialEq, Eq, Structural)]
pub struct ProcessCounter(pub usize);

impl Default for ProcessCounter {
    fn default() -> (out: Self)
        ensures
            out.0 == 0,
    {
        ProcessCounter(0)
    }
}

impl ProcessCounter {
    /// The number for the next process: one more than the last.
    pub fn next_id(&mut self) -> (id: usize)
        requires
            old(self).0 < usize::MAX,
        ensures
            id == old(self).0 + 1,
            final(self).0 == id,
    {
        self.0 = self.0 + 1;
        self.0
    }
}

} // verus!
