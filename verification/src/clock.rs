//! Frame pacing: decide, from the time elapsed since the last frame started,
//! whether to redraw now or how long to sleep until the next deadline.

use vstd::prelude::*;

verus! {

/// Nanoseconds in one second.
pub const NANOS_PER_SECOND: u64 = 1_000_000_000;

/// Target frame interval in whole nanoseconds: one second divided by the
/// 59.7275 Hz refresh cadence, i.e. 10^13 ns-per-10^4-seconds / 597275.
pub const TARGET_FRAME_NANOS: u64 = 10_000_000_000_000 / 597_275;

/// What the pacer tells the caller to do on one poll.
#[derive(Clone, Copy, Debug, PartialEq, Eq, Structural)]
pub enum PaceDecision {
    /// The deadline has passed: redraw now; `frame_nanos` is the realized
    /// frame interval to record.
    Fire { frame_nanos: u64 },
    /// The deadline has not passed: sleep exactly `remaining_nanos` and
    /// poll again.
    Sleep { remaining_nanos: u64 },
}

/// Decide whether to redraw. Fires exactly when the measured elapsed time
/// has reached the target interval; otherwise reports the exact remainder
/// of the interval, so that sleeping it away loses no wall-clock time:
/// `elapsed_nanos + remaining_nanos == target_nanos`.
pub fn pace(elapsed_nanos: u64, target_nanos: u64) -> (d: PaceDecision)
    ensures
        elapsed_nanos >= target_nanos ==> d == (PaceDecision::Fire {
            frame_nanos: elapsed_nanos,
        }),
        elapsed_nanos < target_nanos ==> d == (PaceDecision::Sleep {
            remaining_nanos: (target_nanos - elapsed_nanos) as u64,
        }),
        d matches PaceDecision::Sleep { remaining_nanos } ==> elapsed_nanos + remaining_nanos
            == target_nanos,
{
    if elapsed_nanos >= target_nanos {
        PaceDecision::Fire { frame_nanos: elapsed_nanos }
    } else {
        PaceDecision::Sleep { remaining_nanos: target_nanos - elapsed_nanos }
    }
}

} // verus!
