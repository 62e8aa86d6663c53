//! Split policy: decides when the current output file must roll over,
//! by accumulated byte count or by accumulated duration.

use vstd::prelude::*;

verus! {

/// Split configuration as callers of the engine hand it in: a time
/// threshold in whole seconds, or a size threshold in bytes.
pub enum PySegment {
    Time { time: u64 },
    Size { size: u64 },
}

/// Active split state for one capture session. The variant and its
/// threshold are fixed for the session; only the accumulator moves.
pub enum SplitPolicy {
    /// Accumulated seconds of media against a threshold in seconds.
    Time { threshold: u64, elapsed: u64 },
    /// Accumulated bytes written against a threshold in bytes.
    Size { threshold: u64, accumulated: u64 },
}

impl PySegment {
    /// Session-start conversion: the accumulator begins at zero.
    pub fn into_policy(self) -> (r: SplitPolicy)
        ensures
            r.accumulator() == 0,
            (self matches PySegment::Time { time } ==> r == SplitPolicy::Time {
                threshold: time,
                elapsed: 0u64,
            }),
            (self matches PySegment::Size { size } ==> r == SplitPolicy::Size {
                threshold: size,
                accumulated: 0u64,
            }),
    {
        match self {
            PySegment::Time { time } => SplitPolicy::Time { threshold: time, elapsed: 0 },
            PySegment::Size { size } => SplitPolicy::Size { threshold: size, accumulated: 0 },
        }
    }
}

impl SplitPolicy {
    /// The fixed threshold of the active variant.
    pub open spec fn threshold(self) -> u64 {
        match self {
            SplitPolicy::Time { threshold, .. } => threshold,
            SplitPolicy::Size { threshold, .. } => threshold,
        }
    }

    /// The moving accumulator of the active variant.
    pub open spec fn accumulator(self) -> u64 {
        match self {
            SplitPolicy::Time { elapsed, .. } => elapsed,
            SplitPolicy::Size { accumulated, .. } => accumulated,
        }
    }

    /// Same variant with the same threshold: what every mutation preserves.
    pub open spec fn same_config(self, other: Self) -> bool {
        match (self, other) {
            (
                SplitPolicy::Time { threshold: t1, .. },
                SplitPolicy::Time { threshold: t2, .. },
            ) => t1 == t2,
            (
                SplitPolicy::Size { threshold: t1, .. },
                SplitPolicy::Size { threshold: t2, .. },
            ) => t1 == t2,
            _ => false,
        }
    }

    /// The amount one observation adds: bytes for the size variant,
    /// seconds for the time variant.
    pub open spec fn delta_of(self, bytes_written: u64, duration_secs: u64) -> u64 {
        match self {
            SplitPolicy::Time { .. } => duration_secs,
            SplitPolicy::Size { .. } => bytes_written,
        }
    }

    /// Accumulator after one observation, saturating at the type limit.
    pub open spec fn grown(self, bytes_written: u64, duration_secs: u64) -> u64 {
        if self.accumulator() + self.delta_of(bytes_written, duration_secs) > u64::MAX {
            u64::MAX
        } else {
            (self.accumulator() + self.delta_of(bytes_written, duration_secs)) as u64
        }
    }

    /// Records one written segment and reports whether the output must
    /// roll over: true exactly when the updated accumulator reaches the
    /// threshold, in which case the accumulator is consumed back to zero.
    pub fn observe(&mut self, bytes_written: u64, duration_secs: u64) -> (roll: bool)
        ensures
            old(self).same_config(*final(self)),
            roll == (old(self).grown(bytes_written, duration_secs) >= old(self).threshold()),
            roll ==> final(self).accumulator() == 0,
            !roll ==> final(self).accumulator() == old(self).grown(
                bytes_written,
                duration_secs,
            ),
    {
        match self {
            SplitPolicy::Time { threshold, elapsed } => {
                let grown: u64 = elapsed.saturating_add(duration_secs);
                if grown >= *threshold {
                    *elapsed = 0;
                    true
                } else {
                    *elapsed = grown;
                    false
                }
            },
            SplitPolicy::Size { threshold, accumulated } => {
                let grown: u64 = accumulated.saturating_add(bytes_written);
                if grown >= *threshold {
                    *accumulated = 0;
                    true
                } else {
                    *accumulated = grown;
                    false
                }
            },
        }
    }

    /// A discontinuity forces a fresh file: the accumulator restarts at
    /// zero while the variant and threshold stay as configured.
    pub fn reset_for_discontinuity(&mut self)
        ensures
            old(self).same_config(*final(self)),
            final(self).accumulator() == 0,
    {
        match self {
            SplitPolicy::Time { elapsed, .. } => {
                *elapsed = 0;
            },
            SplitPolicy::Size { accumulated, .. } => {
                *accumulated = 0;
            },
        }
    }
}

} // verus!
