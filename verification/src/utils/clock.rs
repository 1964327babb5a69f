//! Points in time and spans of time, as the standard library measures them.
//!
//! Nothing is stated of the clock readings: they depend on the clocks of the machine,
//! and vstd gives `Duration` no model. Times that the library reasons about are held
//! as whole nanoseconds counted from an origin.

use vstd::prelude::*;
use std::time::{Duration, Instant, SystemTime};

verus! {

#[verifier::external_type_specification]
#[verifier::external_body]
pub struct ExInstant(Instant);

#[verifier::external_type_specification]
#[verifier::external_body]
pub struct ExSystemTime(SystemTime);

/// The current instant of the monotonic clock; calls `Instant::now`.
#[verifier::external_body]
pub(crate) fn instant_now() -> Instant {
    Instant::now()
}

/// The current time of the system clock; calls `SystemTime::now`.
#[verifier::external_body]
pub(crate) fn system_time_now() -> SystemTime {
    SystemTime::now()
}

/// The Unix epoch, `SystemTime::UNIX_EPOCH`.
#[verifier::external_body]
pub(crate) fn unix_epoch() -> SystemTime {
    SystemTime::UNIX_EPOCH
}

/// The time from `earlier` to `later`, or `None` when `earlier` is the later one;
/// calls `SystemTime::duration_since`.
#[verifier::external_body]
pub(crate) fn system_time_since(later: &SystemTime, earlier: &SystemTime) -> Option<Duration> {
    later.duration_since(*earlier).ok()
}

/// The time from `earlier` to `later`, zero when `earlier` is the later one; calls
/// `Instant::duration_since`.
#[verifier::external_body]
pub(crate) fn instant_since(later: &Instant, earlier: &Instant) -> Duration {
    later.duration_since(*earlier)
}

/// The whole seconds of a duration; calls `Duration::as_secs`.
#[verifier::external_body]
pub(crate) fn duration_whole_secs(d: &Duration) -> u64 {
    d.as_secs()
}

/// A duration of whole seconds; calls `Duration::from_secs`.
#[verifier::external_body]
pub(crate) fn duration_from_secs(secs: u64) -> Duration {
    Duration::from_secs(secs)
}

/// The length of a duration in whole nanoseconds, as `Duration::as_nanos` gives it.
pub uninterp spec fn duration_ns(d: Duration) -> u128;

/// The length of a duration in whole nanoseconds; calls `Duration::as_nanos`, a
/// function of the duration alone, whose result is named `duration_ns`.
#[verifier::external_body]
pub(crate) fn duration_nanos(d: &Duration) -> (r: u128)
    ensures
        r == duration_ns(*d),
{
    d.as_nanos()
}

/// The time from `since` to `now`, both counted in nanoseconds from one origin; zero
/// when `now` is the earlier one.
pub open spec fn elapsed_ns(since: u128, now: u128) -> u128 {
    if now >= since {
        (now - since) as u128
    } else {
        0
    }
}

/// The time from `since_ns` to `now_ns`, zero when `now_ns` is the earlier one.
pub fn elapsed_between(since_ns: u128, now_ns: u128) -> (r: u128)
    ensures
        r == elapsed_ns(since_ns, now_ns),
{
    if now_ns >= since_ns {
        now_ns - since_ns
    } else {
        0
    }
}

/// The whole seconds from the Unix epoch to now, or `None` when the system clock is
/// set before the epoch.
pub(crate) fn unix_time_secs() -> Option<u64> {
    let now = system_time_now();
    match system_time_since(&now, &unix_epoch()) {
        Some(d) => Some(duration_whole_secs(&d)),
        None => None,
    }
}

} // verus!
