//! The clock that paces the TCP report queries.
use vstd::prelude::*;

verus! {

/// `std::time::Instant`, the start of the query timer; carried through,
/// nothing is claimed of it.
#[verifier::external_type_specification]
#[verifier::external_body]
pub struct ExInstant(std::time::Instant);

/// The clock that paces the TCP report queries.
pub struct Timer {
    time_last: std::time::Instant,
}

/// Calls `std::time::Instant::now`; the instant depends on the clock, so
/// nothing is claimed of it.
#[verifier::external_body]
fn instant_now() -> std::time::Instant {
    std::time::Instant::now()
}

/// Calls `std::time::Instant::elapsed`; the duration depends on the clock,
/// so nothing is claimed of it.
#[verifier::external_body]
fn instant_elapsed(t: &std::time::Instant) -> std::time::Duration {
    t.elapsed()
}

/// Calls `std::time::Duration::as_millis`, the whole milliseconds in `d`;
/// a duration is opaque here, so nothing is claimed of the number.
#[verifier::external_body]
fn duration_as_millis(d: &std::time::Duration) -> u128 {
    d.as_millis()
}

/// Milliseconds that must pass between two TCP report queries.
pub const TICK_MILLIS: u128 = 500;

/// Whether a query is due after `elapsed_ms` milliseconds.
pub fn tick_due(elapsed_ms: u128) -> (due: bool)
    ensures
        due == (elapsed_ms > TICK_MILLIS),
{
    elapsed_ms > TICK_MILLIS
}

impl Timer {
    /// A timer started now.
    pub fn new() -> Self {
        Timer { time_last: instant_now() }
    }

    /// Restarts the timer now.
    pub fn update(&mut self) {
        self.time_last = instant_now();
    }

    /// Whether more than [`TICK_MILLIS`] milliseconds have passed since the
    /// timer was last started (see [`tick_due`]).
    pub fn ticker(&self) -> bool {
        let elapsed = instant_elapsed(&self.time_last);
        tick_due(duration_as_millis(&elapsed))
    }
}

} // verus!
