//! When a changed layout is due to be saved: once no change has been made
//! for a fixed time.
use vstd::prelude::*;

verus! {

/// How long after the last change a layout is saved, in milliseconds.
pub const SAVE_AFTER: u64 = 3000;

/// How often the workspace is to be ticked, in milliseconds.
pub const TICK_EVERY: u64 = 1000;

/// A point in time, in milliseconds since some fixed start.
#[derive(Clone, Copy, Debug, PartialEq, Eq, Structural)]
pub struct Timestamp {
    pub millis: u64,
}

impl Timestamp {
    /// The milliseconds that have passed since `earlier`; none if `earlier`
    /// is the later of the two.
    pub open spec fn elapsed_since(self, earlier: Timestamp) -> nat {
        if self.millis >= earlier.millis {
            (self.millis - earlier.millis) as nat
        } else {
            0
        }
    }

    pub fn new(millis: u64) -> (timestamp: Timestamp)
        ensures
            timestamp.millis == millis,
    {
        Timestamp { millis }
    }

    pub fn duration_since(&self, earlier: Timestamp) -> (elapsed: u64)
        ensures
            elapsed == self.elapsed_since(earlier),
    {
        if self.millis >= earlier.millis {
            self.millis - earlier.millis
        } else {
            0
        }
    }
}

/// Whether a layout last changed at `last_changed`, if it has unsaved
/// changes at all, is due to be saved at `now`.
pub open spec fn save_due(last_changed: Option<Timestamp>, now: Timestamp) -> bool {
    match last_changed {
        Some(since) => now.elapsed_since(since) >= SAVE_AFTER,
        None => false,
    }
}

/// Whether a layout is due to be saved.
pub fn is_save_due(last_changed: Option<Timestamp>, now: Timestamp) -> (due: bool)
    ensures
        due == save_due(last_changed, now),
{
    match last_changed {
        Some(since) => now.duration_since(since) >= SAVE_AFTER,
        None => false,
    }
}

} // verus!
