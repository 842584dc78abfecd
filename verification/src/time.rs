//! Conversion of the hardware tick counter to nanoseconds.

use vstd::prelude::*;

verus! {

/// The bus clock, in cycles per second.
pub const BUS_CLOCK: u64 = 162000000;

/// The timer clock, in ticks per second: a quarter of the bus clock.
pub const TIMER_CLOCK: u64 = BUS_CLOCK / 4;

/// The nanoseconds that `ticks` ticks of the timer last, rounded down.
pub open spec fn spec_ticks_as_nanoseconds(ticks: int) -> int {
    ticks * 8000 / ((TIMER_CLOCK / 125000) as int)
}

/// Converts a reading of the tick counter to nanoseconds.
pub fn ticks_as_nanoseconds(ticks: u32) -> (nanoseconds: u64)
    ensures
        nanoseconds == spec_ticks_as_nanoseconds(ticks as int),
        nanoseconds == ticks * 8000 / 324,
{
    ticks as u64 * 8000 / (TIMER_CLOCK / 125000)
}

} // verus!
