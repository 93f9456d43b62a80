//! Accounting of bytes transferred so far.

use vstd::prelude::*;

verus! {

/// A non-decreasing counter of bytes transferred during one operation.
/// Transfer units record completed byte counts into it; an observer (such as
/// a progress renderer) may read it at any time. The counter only ever grows,
/// and only by the amounts recorded.
#[derive(Clone, Copy, Debug, PartialEq, Eq, Structural)]
pub struct ProgressTracker {
    pub transferred: u64,
}

impl ProgressTracker {
    /// A fresh tracker: nothing transferred yet.
    pub fn new() -> (r: ProgressTracker)
        ensures
            r.transferred == 0,
    {
        ProgressTracker { transferred: 0 }
    }

    /// Records `n` more bytes as transferred, strictly adding to the total.
    pub fn record(&mut self, n: u64)
        requires
            old(self).transferred + n <= u64::MAX,
        ensures
            final(self).transferred == old(self).transferred + n,
    {
        self.transferred = self.transferred + n;
    }

    /// The total number of bytes recorded so far.
    pub fn bytes_transferred(&self) -> (r: u64)
        ensures
            r == self.transferred,
    {
        self.transferred
    }
}

} // verus!
