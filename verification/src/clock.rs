//! Suspend-inclusive elapsed time, shared by visibility and admitted consent.
//!
//! Instants are nanoseconds since boot held in a `u128`, which represents every
//! `core::time::Duration` exactly.

use vstd::prelude::*;

verus! {

/// Nanoseconds in one second.
pub const NANOS_PER_SEC: u128 = 1_000_000_000;

/// The largest representable duration (`Duration::MAX`) in nanoseconds.
pub const MAX_NANOS: u128 = 18_446_744_073_709_551_615_999_999_999;

/// `Duration::saturating_add` over nanosecond counts.
pub open spec fn saturating_add_spec(a: u128, b: u128) -> u128 {
    if a + b > MAX_NANOS { MAX_NANOS } else { (a + b) as u128 }
}

/// Adds two durations, saturating at the largest duration.
pub fn saturating_add(a: u128, b: u128) -> (r: u128)
    requires
        a <= MAX_NANOS,
        b <= MAX_NANOS,
    ensures
        r == saturating_add_spec(a, b),
        r <= MAX_NANOS,
{
    if a > MAX_NANOS - b {
        MAX_NANOS
    } else {
        a + b
    }
}

/// A whole number of seconds as nanoseconds.
pub fn secs(seconds: u64) -> (r: u128)
    ensures
        r == seconds * NANOS_PER_SEC,
        r <= MAX_NANOS,
{
    assert(seconds * NANOS_PER_SEC <= MAX_NANOS) by (nonlinear_arith)
        requires seconds <= u64::MAX;
    (seconds as u128) * NANOS_PER_SEC
}

/// Reads `CLOCK_BOOTTIME`.
///
/// Calls `rustix::time::clock_gettime(ClockId::Boottime)` and converts the
/// timespec to nanoseconds through `Duration::try_from`, which fails only for
/// a negative time; Linux never reports a negative boot time, and such a
/// report stops the process as an impossible state. Nothing is promised of
/// the value but that it is a valid duration: it depends on the machine and
/// the moment of the call.
#[verifier::external_body]
fn boot_elapsed() -> (r: u128)
    ensures
        r <= MAX_NANOS,
{
    let now = rustix::time::clock_gettime(rustix::time::ClockId::Boottime);
    core::time::Duration::try_from(now).expect("Linux boot elapsed time is nonnegative").as_nanos()
}

/// Source of elapsed time: the boot clock, or a deterministic test clock.
#[derive(Clone, Copy, Debug)]
pub enum Clock {
    /// Linux `CLOCK_BOOTTIME`, which keeps counting across suspend.
    Boot,
    /// A fake clock that reads a fixed number of whole seconds.
    Fake(u64),
}

impl Clock {
    /// Reads the current elapsed time in nanoseconds.
    pub fn now(&self) -> (r: u128)
        ensures
            r <= MAX_NANOS,
            self matches Clock::Fake(s) ==> r == s * NANOS_PER_SEC,
    {
        match self {
            Clock::Boot => boot_elapsed(),
            Clock::Fake(seconds) => secs(*seconds),
        }
    }

    /// A fake clock that starts at `seconds`.
    pub fn fake(seconds: u64) -> (r: Clock)
        ensures
            r == Clock::Fake(seconds),
    {
        Clock::Fake(seconds)
    }

    /// Moves a fake clock forward by `seconds`; the boot clock is unchanged.
    pub fn advance(&mut self, seconds: u64)
        requires
            match *old(self) {
                Clock::Fake(s) => s + seconds <= u64::MAX,
                Clock::Boot => true,
            },
        ensures
            match *old(self) {
                Clock::Fake(s) => *final(self) == Clock::Fake((s + seconds) as u64),
                Clock::Boot => *final(self) == Clock::Boot,
            },
    {
        match self {
            Clock::Fake(value) => {
                *value = *value + seconds;
            },
            Clock::Boot => {},
        }
    }
}

} // verus!
