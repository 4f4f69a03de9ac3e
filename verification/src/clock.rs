//! The clock that leases are timed by.

use vstd::prelude::*;

verus! {

/// The ticks that the clock counts in a second. The clock is built at this rate.
pub const TICKS_PER_SECOND: u64 = 1_000_000;

/// The whole seconds in a span of `ticks` clock ticks.
pub open spec fn ticks_in_secs(ticks: u64) -> u64 {
    ticks / TICKS_PER_SECOND
}

/// `embassy_time::Instant::now`: the ticks that the clock has counted so far. Nothing is
/// promised of the value: two readings may differ.
#[verifier::external_body]
pub(crate) fn clock_ticks() -> u64 {
    embassy_time::Instant::now().as_ticks()
}

/// `embassy_time::Duration::as_secs`, on the span that `embassy_time::Duration::from_ticks`
/// makes of `ticks`: the ticks divided by `embassy_time::TICK_HZ`, rounded down. With the
/// `std` clock that this crate is built with, that rate is a million ticks a second.
#[verifier::external_body]
pub(crate) fn whole_seconds(ticks: u64) -> (secs: u64)
    ensures
        secs == ticks / TICKS_PER_SECOND,
{
    embassy_time::Duration::from_ticks(ticks).as_secs()
}

} // verus!
