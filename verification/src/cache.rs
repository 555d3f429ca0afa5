//! Cache metadata: when a cached value was produced and until when it
//! remains valid, with the remaining validity computed against a caller
//! supplied clock reading.

use vstd::prelude::*;

verus! {

/// Immutable cache metadata attached to a successful response: the moments,
/// in milliseconds on the service's clock, at which the value was produced
/// and at which it stops being valid.
#[derive(Clone, Copy, Debug, PartialEq, Eq, Structural)]
pub struct Cache {
    pub cached_at_ms: u64,
    pub cached_until_ms: u64,
}

impl Cache {
    /// How much validity remains at `now_ms`: the distance to
    /// `cached_until_ms`, or zero once that moment has passed. Never
    /// negative, so an already expired value yields a zero time-to-live.
    pub open spec fn spec_time_until_elapsed(self, now_ms: u64) -> u64 {
        if now_ms < self.cached_until_ms {
            (self.cached_until_ms - now_ms) as u64
        } else {
            0
        }
    }

    /// Remaining validity at `now_ms`, in milliseconds.
    pub fn time_until_elapsed(&self, now_ms: u64) -> (remaining_ms: u64)
        ensures
            remaining_ms == self.spec_time_until_elapsed(now_ms),
    {
        if now_ms < self.cached_until_ms {
            self.cached_until_ms - now_ms
        } else {
            0
        }
    }
}

} // verus!
