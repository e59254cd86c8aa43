//! The completion watcher's decision rule.
//!
//! The audio pipeline decrements a shared counter when the source it renders
//! runs out of samples; that counter is the only cross-thread completion
//! signal. A background worker polls it on a fixed interval and feeds each
//! reading to [`CompletionWatcher::observe`]; the polling loop and the sleep
//! belong to the application shell, the decision itself is verified here.

use vstd::prelude::*;

verus! {

/// Remembers the counter value of the previous tick, starting from zero.
pub struct CompletionWatcher {
    pub prev: usize,
}

impl CompletionWatcher {
    /// A fresh watcher that has seen no counter value yet.
    pub fn new() -> (r: CompletionWatcher)
        ensures
            r.prev == 0,
    {
        CompletionWatcher { prev: 0 }
    }

    /// One tick: a track has finished natively exactly when the counter
    /// dropped below the previous reading, since only the pipeline's
    /// end-of-stream decrement lowers it. The reading is remembered either
    /// way.
    pub fn observe(&mut self, current: usize) -> (ended: bool)
        ensures
            ended == (current < old(self).prev),
            final(self).prev == current,
    {
        let ended = current < self.prev;
        self.prev = current;
        ended
    }
}

} // verus!
