//! Reading the wall clock as seconds or nanoseconds since the UNIX epoch.

use vstd::prelude::*;
use std::time::{Duration, SystemTime, UNIX_EPOCH};
use crate::error::HamsError;

verus! {

#[verifier::external_type_specification]
#[verifier::external_body]
pub struct ExSystemTime(SystemTime);

/// `SystemTime::now`: the current time. Nothing is claimed of it.
#[verifier::external_body]
fn system_now() -> SystemTime {
    SystemTime::now()
}

/// `SystemTime::duration_since(UNIX_EPOCH)`: the time elapsed since the epoch, or
/// nothing for a time before it. Nothing more is claimed.
#[verifier::external_body]
fn since_epoch(time: &SystemTime) -> Option<Duration> {
    time.duration_since(UNIX_EPOCH).ok()
}

/// `Duration::as_secs`: the whole seconds of a duration. Nothing is claimed of the value.
#[verifier::external_body]
fn duration_secs(d: &Duration) -> u64 {
    d.as_secs()
}

/// `Duration::subsec_nanos`: the nanoseconds past the whole seconds. Claimed, as its
/// documentation states: less than one second.
#[verifier::external_body]
fn duration_subsec_nanos(d: &Duration) -> (r: u32)
    ensures
        r < 1_000_000_000,
{
    d.subsec_nanos()
}

/// The length of a duration in nanoseconds, saturating at `u64::MAX`.
pub fn duration_nanos(d: &Duration) -> u64 {
    total_nanos(duration_secs(d), duration_subsec_nanos(d))
}

/// The whole seconds of a duration.
pub fn whole_seconds(d: &Duration) -> u64 {
    duration_secs(d)
}

/// Whole seconds since the epoch of a time; `SystemTimeError` for a time before it.
pub fn epoch_seconds(time: &SystemTime) -> (r: Result<u64, HamsError>)
    ensures
        r is Ok || r == Err::<u64, HamsError>(HamsError::SystemTimeError),
{
    match since_epoch(time) {
        Some(d) => Ok(duration_secs(&d)),
        None => Err(HamsError::SystemTimeError),
    }
}

/// Seconds since the epoch as a signed count, the C `time_t`: `SystemTimeError` for a
/// time before the epoch, `TryFromIntError` past the range of `i64`.
pub fn epoch_time_t(time: &SystemTime) -> (r: Result<i64, HamsError>)
    ensures
        r matches Ok(v) ==> v >= 0,
        r is Ok || r == Err::<i64, HamsError>(HamsError::SystemTimeError)
            || r == Err::<i64, HamsError>(HamsError::TryFromIntError),
{
    match epoch_seconds(time) {
        Ok(secs) => {
            if secs <= i64::MAX as u64 {
                Ok(secs as i64)
            } else {
                Err(HamsError::TryFromIntError)
            }
        },
        Err(e) => Err(e),
    }
}

/// The current time as seconds since the epoch; a clock that cannot be read so (set
/// before 1970, or past the range of `i64`) reads as 0.
pub fn now_time_t() -> (r: i64)
    ensures
        r >= 0,
{
    match epoch_time_t(&system_now()) {
        Ok(v) => v,
        Err(_) => 0,
    }
}

/// Nanoseconds of whole seconds plus nanoseconds, saturating at `u64::MAX`.
pub open spec fn spec_total_nanos(secs: u64, nanos: u32) -> u64 {
    if secs * 1_000_000_000 + nanos <= u64::MAX {
        (secs * 1_000_000_000 + nanos) as u64
    } else {
        u64::MAX
    }
}

/// The current time as nanoseconds since the epoch, saturating at `u64::MAX`; a clock
/// set before 1970 reads as 0.
pub fn now_nanos() -> u64 {
    match since_epoch(&system_now()) {
        Some(d) => total_nanos(duration_secs(&d), duration_subsec_nanos(&d)),
        None => 0,
    }
}

/// Nanoseconds of whole seconds plus nanoseconds, saturating at `u64::MAX`.
pub fn total_nanos(secs: u64, nanos: u32) -> (r: u64)
    ensures
        r == spec_total_nanos(secs, nanos),
{
    if secs <= (u64::MAX - nanos as u64) / 1_000_000_000 {
        proof {
            assert(secs * 1_000_000_000 <= u64::MAX - nanos) by (nonlinear_arith)
                requires secs <= (u64::MAX - nanos as u64) / 1_000_000_000;
        }
        secs * 1_000_000_000 + nanos as u64
    } else {
        proof {
            assert(secs * 1_000_000_000 + nanos > u64::MAX) by (nonlinear_arith)
                requires secs > (u64::MAX - nanos as u64) / 1_000_000_000;
        }
        u64::MAX
    }
}

} // verus!
