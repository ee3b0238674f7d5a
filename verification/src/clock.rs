//! The clock: message timestamps in milliseconds since the Unix epoch.
use std::time::{Duration, SystemTime, SystemTimeError};
use vstd::prelude::*;

verus! {

/// A reading of the system clock.
#[verifier::external_type_specification]
#[verifier::external_body]
pub struct ExSystemTime(SystemTime);

/// The error for a reading that lies before the time that it is held against.
#[verifier::external_type_specification]
#[verifier::external_body]
pub struct ExSystemTimeError(SystemTimeError);

/// `SystemTime::now`: reads the system clock. Nothing is claimed of the reading.
pub assume_specification[ SystemTime::now ]() -> (now: SystemTime)
;

/// `SystemTime::duration_since`, from the Unix epoch: the time that has passed since then, or an
/// error for a reading before it. Nothing is claimed of which of the two comes.
#[verifier::external_body]
fn since_epoch(now: &SystemTime) -> (elapsed: Result<Duration, SystemTimeError>) {
    now.duration_since(std::time::UNIX_EPOCH)
}

/// `Duration::as_millis`: the whole milliseconds that a duration holds. A duration is at most
/// `u64::MAX` seconds and less than one second more. Nothing is known of what is inside a
/// duration, so no more than this bound is claimed.
pub assume_specification[ Duration::as_millis ](d: &Duration) -> (millis: u128)
    ensures
        millis <= 0xffff_ffff_ffff_ffff * 1000 + 999,
;

/// The timestamp for a number of milliseconds since the epoch: its low 64 bits.
pub fn timestamp_of_millis(millis: u128) -> (stamp: u64)
    ensures
        stamp as int == millis % 0x1_0000_0000_0000_0000,
{
    let stamp: u64 = #[verifier::truncate] (millis as u64);
    assert(millis as u64 == millis % 0x1_0000_0000_0000_0000) by (bit_vector);
    stamp
}

/// Whether `elapsed` is what may be found to have passed since the Unix epoch at the reading
/// `now`.
pub closed spec fn passed_at(now: SystemTime, elapsed: Result<Duration, SystemTimeError>) -> bool {
    call_ensures(since_epoch, (&now,), elapsed)
}

/// Whether `stamp` is the timestamp for what has passed since the epoch: the low 64 bits of its
/// whole milliseconds, and none for a reading before the epoch.
pub open spec fn stamps(
    elapsed: Result<Duration, SystemTimeError>,
    stamp: Option<u64>,
) -> bool {
    match elapsed {
        Ok(passed) => exists|millis: u128| #[trigger]
            call_ensures(Duration::as_millis, (&passed,), millis) && stamp is Some && stamp->0
                == millis % 0x1_0000_0000_0000_0000,
        Err(_) => stamp is None,
    }
}

/// Whether `stamp` is the timestamp of a reading of the clock.
pub open spec fn clock_reads(stamp: Option<u64>) -> bool {
    exists|now: SystemTime, elapsed: Result<Duration, SystemTimeError>| #[trigger]
        call_ensures(SystemTime::now, (), now) && #[trigger] passed_at(now, elapsed) && stamps(
            elapsed,
            stamp,
        )
}

/// The current time in milliseconds since the Unix epoch, unless the clock stands before that.
/// The result comes from a reading of the clock and from nothing else. Nothing is claimed of
/// which time it is: that is the clock's.
pub fn timestamp() -> (stamp: Option<u64>)
    ensures
        clock_reads(stamp),
{
    let now = SystemTime::now();
    let elapsed = since_epoch(&now);
    assert(passed_at(now, elapsed));
    match elapsed {
        Ok(passed) => Some(timestamp_of_millis(passed.as_millis())),
        Err(_) => None,
    }
}

/// What the clock gives is the low part of the whole milliseconds that had passed since the epoch
/// at some reading of it, and nothing where that reading was before the epoch.
pub proof fn law_the_time_is_read_from_the_clock(stamp: Option<u64>)
    requires
        call_ensures(timestamp, (), stamp),
    ensures
        exists|now: SystemTime, elapsed: Result<Duration, SystemTimeError>|
            {
                &&& #[trigger] call_ensures(SystemTime::now, (), now)
                &&& #[trigger] passed_at(now, elapsed)
                &&& elapsed is Err ==> stamp is None
                &&& elapsed matches Ok(passed) ==> stamp is Some && exists|millis: u128| #[trigger]
                    call_ensures(Duration::as_millis, (&passed,), millis) && stamp->0 == millis
                        % 0x1_0000_0000_0000_0000
            },
{
}

/// What has passed at a reading is what the standard library finds to have passed.
proof fn law_what_has_passed_is_found(
    now: SystemTime,
    elapsed: Result<Duration, SystemTimeError>,
)
    ensures
        passed_at(now, elapsed) <==> call_ensures(since_epoch, (&now,), elapsed),
{
}

} // verus!
