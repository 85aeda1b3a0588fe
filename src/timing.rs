//! The phase timing record of one run.

use vstd::prelude::*;

verus! {

/// Elapsed nanoseconds of each timed phase of a run, and of the run as a whole.
#[derive(Clone, Copy, Debug, PartialEq, Eq, Structural)]
pub struct PhaseTimings {
    /// Program build and device setup.
    pub setup: u64,
    /// Both host-to-device input transfers.
    pub write: u64,
    /// Binding the arguments to the entry point.
    pub kernel_build: u64,
    /// The blocking kernel dispatch.
    pub execute: u64,
    /// The device-to-host output transfer.
    pub read: u64,
    /// From the start of the run to its end.
    pub total: u64,
}

impl PhaseTimings {
    /// Sum of the durations of the individual phases.
    pub open spec fn phase_sum(self) -> int {
        self.setup + self.write + self.kernel_build + self.execute + self.read
    }

    /// A record with every duration zero.
    pub fn zero() -> (r: PhaseTimings)
        ensures
            r.setup == 0 && r.write == 0 && r.kernel_build == 0 && r.execute == 0 && r.read == 0 && r.total == 0,
    {
        PhaseTimings { setup: 0, write: 0, kernel_build: 0, execute: 0, read: 0, total: 0 }
    }

    /// Sum of the individual phase durations, saturating at the largest `u64`.
    pub fn sum_of_phases(&self) -> (r: u64)
        ensures
            self.phase_sum() <= u64::MAX ==> r == self.phase_sum(),
            self.phase_sum() > u64::MAX ==> r == u64::MAX,
    {
        let s = self.setup as u128 + self.write as u128 + self.kernel_build as u128
            + self.execute as u128 + self.read as u128;
        if s > u64::MAX as u128 {
            u64::MAX
        } else {
            s as u64
        }
    }
}

} // verus!
