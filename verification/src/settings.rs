//! Timing configuration for the scheduler's two phases.

use vstd::prelude::*;

verus! {

/// The largest phase interval the scheduler accepts, in microseconds.
/// Keeping intervals at or below half of the `u64` range lets the jitter
/// computation round to the nearest microsecond without overflowing.
pub const MAX_INTERVAL_MICROS: u64 = 0x7fff_ffff_ffff_ffff;

/// Timing settings for the two scheduler phases. Phase 0 is the primary
/// (melee-like) action, phase 1 the secondary (ranged-like) action.
///
/// The jitter ratio is a fraction of the base interval, held in thousandths
/// so that the whole configuration is plain integers; `jitter_permille`
/// must stay below 1000 (a ratio below one).
#[derive(Clone, Copy, PartialEq, Eq, Debug)]
pub struct Settings {
    /// Base sleep interval of each phase, in microseconds.
    pub sleep_micros: [u64; 2],
    /// How many repeats each phase runs before the loop moves on.
    pub count: [u64; 2],
    /// Jitter ratio applied to each sleep, in thousandths of the base.
    pub jitter_permille: u64,
}

impl Settings {
    /// Validity: the jitter ratio is below one and the intervals leave
    /// room for jitter without overflow.
    pub open spec fn wf(self) -> bool {
        &&& self.jitter_permille < 1000
        &&& self.sleep_micros[0] <= MAX_INTERVAL_MICROS
        &&& self.sleep_micros[1] <= MAX_INTERVAL_MICROS
    }
}

impl Default for Settings {
    /// The stock configuration: a fast primary phase, a slower secondary
    /// phase, and a fifth of jitter.
    fn default() -> (s: Settings)
        ensures
            s.sleep_micros[0] == 66_666,
            s.sleep_micros[1] == 50_000,
            s.count[0] == 7,
            s.count[1] == 5,
            s.jitter_permille == 200,
            s.wf(),
    {
        Settings {
            sleep_micros: [66_666, 50_000],
            count: [7, 5],
            jitter_permille: 200,
        }
    }
}

} // verus!
