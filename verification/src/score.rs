//! The running score counters.

use vstd::prelude::*;

verus! {

/// The running counters: food items consumed and food items ever created.
/// Consumed items were all created first, so `eaten` never exceeds
/// `spawned`. The counters persist across resets.
#[derive(Clone, Copy, PartialEq, Eq, Structural, Debug)]
pub struct Score {
    /// Food items the snake has consumed.
    pub eaten: u64,
    /// Food items ever created.
    pub spawned: u64,
}

impl Score {
    /// Every consumed item was created: `eaten` is at most `spawned`.
    pub open spec fn wf(self) -> bool {
        self.eaten <= self.spawned
    }

    /// Both counters at zero, as at startup.
    pub fn zero() -> (s: Score)
        ensures
            s == (Score { eaten: 0, spawned: 0 }),
    {
        Score { eaten: 0, spawned: 0 }
    }
}

} // verus!
