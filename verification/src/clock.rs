use vstd::prelude::*;

verus! {

/// Lower bound, in milliseconds, on the interval between two simulation
/// ticks: the clock suspends this long after every generation, bounding CPU
/// use and decoupling the simulation rate from the display refresh rate.
pub const MIN_TICK_INTERVAL_MS: u64 = 10;

/// The generations-per-second figure for a tick that took `elapsed_ms`
/// milliseconds of wall clock, update and redraw dispatch included. The
/// minimum interval is added to the measurement, so the divisor stays away
/// from zero however fast the tick completed.
pub fn generations_per_second(elapsed_ms: u64) -> (r: u64)
    requires
        elapsed_ms <= u64::MAX - MIN_TICK_INTERVAL_MS,
    ensures
        r == 1000int / (elapsed_ms + MIN_TICK_INTERVAL_MS),
{
    1000 / (elapsed_ms + MIN_TICK_INTERVAL_MS)
}

} // verus!
