//! Shared, immutable configuration handed to every actor at graph-build
//! time: the heartbeat interval and the number of beats before shutdown.

use vstd::prelude::*;

verus! {

/// Process-wide configuration. Built once at startup and shared read-only
/// by every actor in the run; no write path exists after construction.
#[derive(Clone, Copy, PartialEq, Eq, Structural, Debug)]
pub struct Config {
    /// Milliseconds between heartbeat ticks.
    pub rate_ms: u64,
    /// Number of heartbeats before the actor requests a system shutdown.
    pub beats: u64,
}

impl Config {
    /// A configuration must schedule its timer on a positive interval.
    pub open spec fn wf(self) -> bool {
        self.rate_ms >= 1
    }

    /// Builds the configuration from the two externally supplied numbers.
    pub fn new(rate_ms: u64, beats: u64) -> (c: Config)
        requires
            rate_ms >= 1,
        ensures
            c.wf(),
            c.rate_ms == rate_ms,
            c.beats == beats,
    {
        Config { rate_ms, beats }
    }
}

} // verus!
