//! The one-shot shutdown latch: the graceful-shutdown trigger fires its
//! action at most once, however often the external signal arrives.

use vstd::prelude::*;

verus! {

/// An explicit guarded flag consumed exactly once. The surrounding process
/// keeps one behind its signal handler and starts the shutdown only when
/// `try_fire` returns true.
pub struct ShutdownLatch {
    fired: bool,
}

impl ShutdownLatch {
    /// Whether the latch has already fired.
    pub closed spec fn has_fired(&self) -> bool {
        self.fired
    }

    /// A fresh latch that has not fired.
    pub fn new() -> (r: ShutdownLatch)
        ensures
            !r.has_fired(),
    {
        ShutdownLatch { fired: false }
    }

    /// Consumes the latch's single shot: true exactly on the first call,
    /// false on every later one — the trigger is idempotent.
    pub fn try_fire(&mut self) -> (r: bool)
        ensures
            r == !old(self).has_fired(),
            final(self).has_fired(),
    {
        let first = !self.fired;
        self.fired = true;
        first
    }
}

} // verus!
