//! Counting what became of the notifications handed to the delivery side.
use vstd::prelude::*;

verus! {

/// How many notifications were delivered and how many failed. No send is
/// retried: a failure is counted and otherwise left alone.
#[derive(Debug, Clone, Copy, PartialEq, Eq)]
pub struct DeliveryTally {
    pub sent: u64,
    pub failed: u64,
}

impl DeliveryTally {
    pub fn new() -> (r: DeliveryTally)
        ensures
            r.sent == 0 && r.failed == 0,
    {
        DeliveryTally { sent: 0, failed: 0 }
    }

    /// Counts one outcome; a count that has reached the largest value stays
    /// there.
    pub fn record(&mut self, delivered: bool)
        ensures
            delivered ==> final(self).sent == (if old(self).sent == u64::MAX {
                u64::MAX
            } else {
                (old(self).sent + 1) as u64
            }) && final(self).failed == old(self).failed,
            !delivered ==> final(self).failed == (if old(self).failed == u64::MAX {
                u64::MAX
            } else {
                (old(self).failed + 1) as u64
            }) && final(self).sent == old(self).sent,
    {
        if delivered {
            self.sent = self.sent.saturating_add(1);
        } else {
            self.failed = self.failed.saturating_add(1);
        }
    }
}

} // verus!
