//! Spans of time, and the whole seconds between two readings of the
//! monotonic clock.
use std::time::Duration;
use std::time::Instant;
use vstd::prelude::*;

verus! {

#[verifier::external_type_specification]
#[verifier::external_body]
pub struct ExInstant(Instant);

/// The time that passed from `earlier` to `later`; zero when `earlier` is
/// in fact the later of the two.
pub uninterp spec fn elapsed_between(later: Instant, earlier: Instant) -> Duration;

/// The whole seconds that `duration` holds; its fractional part is dropped.
pub uninterp spec fn whole_seconds(duration: Duration) -> u64;

/// `Instant::duration_since`: the time elapsed from `earlier` to `later`,
/// which the standard library gives as a function of the two instants.
/// Nothing is claimed here about how long that is.
#[verifier::external_body]
fn duration_since(later: &Instant, earlier: Instant) -> (elapsed: Duration)
    ensures
        elapsed == elapsed_between(*later, earlier),
{
    later.duration_since(earlier)
}

/// `Duration::as_secs`: the number of whole seconds in `duration`.
#[verifier::external_body]
fn as_secs(duration: &Duration) -> (seconds: u64)
    ensures
        seconds == whole_seconds(*duration),
{
    duration.as_secs()
}

/// `Duration::from_secs`: the span of `seconds` whole seconds.
#[verifier::external_body]
pub(crate) fn from_secs(seconds: u64) -> (duration: Duration)
    ensures
        whole_seconds(duration) == seconds,
{
    Duration::from_secs(seconds)
}

/// Whole seconds from `last_time` to `current_time`, or nothing where no
/// earlier reading exists.
pub open spec fn seconds_since(last_time: Option<Instant>, current_time: Instant) -> Option<u64> {
    match last_time {
        None => None,
        Some(earlier) => Some(whole_seconds(elapsed_between(current_time, earlier))),
    }
}

/// Measures the whole seconds from `last_time` to `current_time`.
pub fn elapsed_seconds(last_time: &Option<Instant>, current_time: &Instant) -> (seconds: Option<u64>)
    ensures
        seconds == seconds_since(*last_time, *current_time),
{
    match last_time {
        None => None,
        Some(earlier) => {
            let elapsed = duration_since(current_time, *earlier);
            Some(as_secs(&elapsed))
        },
    }
}

} // verus!
