//! Wall-clock timing, used by callers for frame pacing.

use vstd::prelude::*;

verus! {

/// The opaque wall-clock instant type of the standard library.
#[verifier::external_type_specification]
#[verifier::external_body]
pub struct ExSystemTime(std::time::SystemTime);

/// Relies on std::time::SystemTime::now: the current wall-clock instant.
/// Nothing can be promised of the value; the clock is outside the program.
#[verifier::external_body]
fn system_time_now() -> std::time::SystemTime {
    std::time::SystemTime::now()
}

/// A stopwatch anchored at the instant it was created or last reset.
pub struct Timer {
    pub start: std::time::SystemTime,
}

impl Timer {
    pub fn new() -> Timer {
        Timer { start: system_time_now() }
    }

    pub fn reset(&mut self) {
        self.start = system_time_now();
    }
}

} // verus!
