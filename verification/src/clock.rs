//! The wall clock, in milliseconds since the Unix epoch.

use vstd::prelude::*;

verus! {

/// `web_time::SystemTime`, a reading of the wall clock: carried from one call
/// to the next and never looked into.
#[verifier::external_type_specification]
#[verifier::external_body]
pub struct ExSystemTime(web_time::SystemTime);

/// `web_time::SystemTimeError`, which says that a reading lies before the
/// time it was measured against: only its presence is used.
#[verifier::external_type_specification]
#[verifier::external_body]
pub struct ExSystemTimeError(web_time::SystemTimeError);

/// `web_time::SystemTime::now`: the clock's present reading. Nothing is
/// claimed of it: two readings may differ in either direction. In a browser
/// the crate reads `Date.now()` and stops with a panic where that is negative,
/// which nothing that this library is given can bring about or prevent.
#[verifier::external_body]
fn system_now() -> (now: web_time::SystemTime) {
    web_time::SystemTime::now()
}

/// A span of time as whole seconds and the nanoseconds beyond them.
#[derive(Debug, Clone, Copy, PartialEq, Eq, Structural)]
pub struct Elapsed {
    pub secs: u64,
    pub subsec_nanos: u32,
}

impl Elapsed {
    /// The span in nanoseconds.
    pub open spec fn nanos(self) -> nat {
        (self.secs * 1_000_000_000 + self.subsec_nanos) as nat
    }
}

/// The whole milliseconds in the time since the epoch, where there is such a
/// time; 0 where the reading lies before the epoch.
pub open spec fn epoch_millis(elapsed: Result<Elapsed, web_time::SystemTimeError>) -> nat {
    match elapsed {
        Ok(span) => span.nanos() / 1_000_000,
        Err(_) => 0,
    }
}

/// `web_time::SystemTime::duration_since` against `web_time::UNIX_EPOCH`: the
/// time from the epoch to `time`, or the crate's error where `time` lies
/// before the epoch. The duration is handed on as the two numbers that it
/// holds, read with `Duration::as_secs` and `Duration::subsec_nanos`. Nothing
/// is claimed of which of the two outcomes comes back, nor of the numbers.
#[verifier::external_body]
fn since_unix_epoch(time: &web_time::SystemTime) -> (elapsed: Result<
    Elapsed,
    web_time::SystemTimeError,
>) {
    match time.duration_since(web_time::UNIX_EPOCH) {
        Ok(span) => Ok(Elapsed { secs: span.as_secs(), subsec_nanos: span.subsec_nanos() }),
        Err(error) => Err(error),
    }
}

/// The whole milliseconds of the time since the epoch, where there is such a
/// time; 0 where the reading lies before the epoch.
pub fn millis_since_epoch(elapsed: Result<Elapsed, web_time::SystemTimeError>) -> (millis: u128)
    ensures
        millis == epoch_millis(elapsed),
{
    match elapsed {
        Ok(span) => {
            let seconds: u128 = span.secs as u128;
            let beyond: u128 = (span.subsec_nanos / 1_000_000) as u128;
            seconds * 1000 + beyond
        },
        Err(_) => 0,
    }
}

/// The present time in milliseconds since the Unix epoch, as JavaScript's
/// `Date.now()` gives it; 0 where the clock stands before the epoch. Which
/// time that is only the clock knows: the result is what [`epoch_millis`]
/// makes of one reading of it.
pub fn unix_now_ms() -> (now_ms: u128)
    ensures
        exists|elapsed: Result<Elapsed, web_time::SystemTimeError>|
            now_ms == #[trigger] epoch_millis(elapsed),
{
    let now = system_now();
    millis_since_epoch(since_unix_epoch(&now))
}

} // verus!
