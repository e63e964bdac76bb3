//! The clock: milliseconds since the Unix epoch, and the window in which a
//! message's timestamp counts as fresh.

use std::time::{Duration, SystemTime, SystemTimeError, UNIX_EPOCH};
use vstd::prelude::*;

verus! {

/// The tolerance in milliseconds for the timestamp of a message, either way.
pub const MSG_VALID_TIME: u64 = 10_000;

#[verifier::external_type_specification]
#[verifier::external_body]
pub struct ExSystemTime(SystemTime);

#[verifier::external_type_specification]
#[verifier::external_body]
pub struct ExSystemTimeError(SystemTimeError);

/// `SystemTime::now` reads the system clock. Nothing is claimed of the
/// reading.
pub assume_specification[ SystemTime::now ]() -> (now: SystemTime);

/// `SystemTime::duration_since` gives the time elapsed since `earlier`, or an
/// error where `earlier` is the later of the two. Nothing is claimed of which.
pub assume_specification[ SystemTime::duration_since ](
    time: &SystemTime,
    earlier: SystemTime,
) -> (elapsed: Result<Duration, SystemTimeError>);

/// `Duration::as_secs` gives the whole seconds of a duration.
pub assume_specification[ Duration::as_secs ](duration: &Duration) -> (secs: u64);

/// `Duration::subsec_nanos` gives the part of a duration below one second in
/// nanoseconds, which is documented to be less than one billion.
pub assume_specification[ Duration::subsec_nanos ](duration: &Duration) -> (nanos: u32)
    ensures
        nanos < 1_000_000_000,
;

/// The constant `UNIX_EPOCH`: the start of 1970 in universal time.
#[verifier::external_body]
fn unix_epoch() -> (epoch: SystemTime) {
    UNIX_EPOCH
}

/// The whole milliseconds in `secs` seconds and `nanos` nanoseconds.
pub open spec fn millis_of(secs: u64, nanos: u32) -> int {
    secs * 1_000 + nanos / 1_000_000
}

/// Converts seconds and nanoseconds to whole milliseconds, and stops at
/// `u64::MAX` where the count does not fit.
pub fn to_millis(secs: u64, nanos: u32) -> (ms: u64)
    ensures
        millis_of(secs, nanos) <= u64::MAX ==> ms == millis_of(secs, nanos),
        millis_of(secs, nanos) > u64::MAX ==> ms == u64::MAX,
{
    let part: u64 = (nanos / 1_000_000) as u64;
    if secs > (u64::MAX - part) / 1_000 {
        u64::MAX
    } else {
        secs * 1_000 + part
    }
}

/// The Unix time in milliseconds, or zero where the clock stands before the
/// epoch.
pub fn systime() -> (now: u64) {
    let reading: Option<(u64, u32)> = match SystemTime::now().duration_since(unix_epoch()) {
        Ok(time) => Some((time.as_secs(), time.subsec_nanos())),
        Err(_) => None,
    };
    reading_millis(reading)
}

/// The time that a reading of the clock stands for: zero where there is
/// none, because the clock stands before the epoch; else the whole
/// milliseconds of its seconds and nanoseconds, as `to_millis` counts them.
pub open spec fn millis_of_reading(reading: Option<(u64, u32)>) -> int {
    match reading {
        None => 0,
        Some(parts) => if millis_of(parts.0, parts.1) <= u64::MAX {
            millis_of(parts.0, parts.1)
        } else {
            u64::MAX as int
        },
    }
}

/// Turns a reading of the clock, seconds and nanoseconds since the epoch if
/// there is one, into the Unix time in milliseconds.
pub fn reading_millis(reading: Option<(u64, u32)>) -> (now: u64)
    ensures
        now == millis_of_reading(reading),
{
    match reading {
        Some((secs, nanos)) => to_millis(secs, nanos),
        None => 0,
    }
}

/// A timestamp is fresh when it lies no more than `MSG_VALID_TIME`
/// milliseconds before or after the local time.
pub open spec fn fresh(msgtime: u64, now: u64) -> bool {
    now - MSG_VALID_TIME <= msgtime <= now + MSG_VALID_TIME
}

/// Tells whether a message's timestamp lies within the tolerance of `now`.
pub fn is_fresh(msgtime: u64, now: u64) -> (ok: bool)
    ensures
        ok == fresh(msgtime, now),
{
    if msgtime < now {
        now - msgtime <= MSG_VALID_TIME
    } else {
        msgtime - now <= MSG_VALID_TIME
    }
}

} // verus!
