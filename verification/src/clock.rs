//! The replay guard: a bounded freshness window on client timestamps, and
//! the server's clock.
//!
//! The rules take the server's time as a value, so that they can be checked
//! for every reading of the clock. The functions that read the clock only
//! fetch that value.

use crate::error::RegistryError;
use std::time::{Duration, SystemTime, SystemTimeError, UNIX_EPOCH};
use vstd::prelude::*;

verus! {

/// The tolerance, in seconds, between a client timestamp and server time.
pub const FRESHNESS_WINDOW: u64 = 30;

/// Whether `timestamp` lies within the freshness window around `now`, in
/// either direction. The difference is taken over the integers, so a
/// timestamp far in the future never wraps round into the window.
pub open spec fn fresh(now: u64, timestamp: u64) -> bool {
    now - timestamp < FRESHNESS_WINDOW && timestamp - now < FRESHNESS_WINDOW
}

/// Seconds since the epoch as a signed 64-bit number, in two's complement.
pub open spec fn signed(seconds: u64) -> i64 {
    if seconds <= i64::MAX {
        seconds as i64
    } else {
        (seconds - 0x1_0000_0000_0000_0000) as i64
    }
}

/// Whether a record that expires at `expires` has expired at `now`.
pub open spec fn expired(expires: i64, now: i64) -> bool {
    expires < now
}

/// `std::time::SystemTime`: a moment of the system clock, carried through
/// without looking inside.
#[verifier::external_type_specification]
#[verifier::external_body]
pub struct ExSystemTime(SystemTime);

/// `std::time::SystemTimeError`: the failure of a clock that stands before
/// the moment it is compared with, carried through without looking inside.
#[verifier::external_type_specification]
#[verifier::external_body]
pub struct ExSystemTimeError(SystemTimeError);

/// `SystemTime::now`: a reading of the system clock. Nothing is claimed of it.
pub assume_specification[ SystemTime::now ]() -> (now: SystemTime);

/// `SystemTime::duration_since`: the time elapsed since `earlier`, or an
/// error if `earlier` is later than `time`. Nothing is claimed of the amount.
pub assume_specification[ SystemTime::duration_since ](
    time: &SystemTime,
    earlier: SystemTime,
) -> (elapsed: Result<Duration, SystemTimeError>);

/// `Duration::as_secs`: the whole seconds of a duration. Nothing is claimed
/// of the amount.
pub assume_specification[ Duration::as_secs ](duration: &Duration) -> (seconds: u64);

/// `std::time::UNIX_EPOCH`: the moment from which timestamps are counted.
#[verifier::external_body]
fn unix_epoch() -> (epoch: SystemTime) {
    UNIX_EPOCH
}

/// Decides whether `timestamp` is fresh at server time `now`.
pub fn is_fresh(now: u64, timestamp: u64) -> (ok: bool)
    ensures
        ok == fresh(now, timestamp),
{
    if now >= timestamp {
        now - timestamp < FRESHNESS_WINDOW
    } else {
        timestamp - now < FRESHNESS_WINDOW
    }
}

/// Reinterprets unsigned seconds as signed seconds.
pub fn signed_seconds(seconds: u64) -> (value: i64)
    ensures
        value == signed(seconds),
{
    if seconds <= 0x7fff_ffff_ffff_ffff {
        seconds as i64
    } else {
        let above: u64 = seconds - 0x8000_0000_0000_0000;
        i64::MIN + (above as i64)
    }
}

/// Decides whether a record that expires at `expires` has expired at `now`.
pub fn is_expired(expires: i64, now: i64) -> (gone: bool)
    ensures
        gone == expired(expires, now),
{
    expires < now
}

/// Server time in whole seconds since the Unix epoch. Fails if the system
/// clock stands before the epoch.
pub fn current_timestamp() -> (now: Result<u64, SystemTimeError>) {
    match SystemTime::now().duration_since(unix_epoch()) {
        Ok(elapsed) => Ok(elapsed.as_secs()),
        Err(e) => Err(e),
    }
}

/// Server time as signed seconds since the Unix epoch, for comparison with
/// expiry times. Fails if the system clock stands before the epoch.
pub fn get_current_timestamp() -> (now: Result<i64, SystemTimeError>) {
    match current_timestamp() {
        Ok(seconds) => Ok(signed_seconds(seconds)),
        Err(e) => Err(e),
    }
}

/// What a reading of the clock makes of `timestamp`: fresh or stale at the
/// time that was read, and an internal failure where the clock could not be
/// read.
pub open spec fn freshness(reading: Result<u64, SystemTimeError>, timestamp: u64) -> Result<
    bool,
    RegistryError,
> {
    match reading {
        Ok(now) => Ok(fresh(now, timestamp)),
        Err(_) => Err(RegistryError::Internal),
    }
}

/// Judges `timestamp` by a reading of the clock.
pub fn check_timestamp_at(reading: Result<u64, SystemTimeError>, timestamp: u64) -> (ok: Result<
    bool,
    RegistryError,
>)
    ensures
        ok == freshness(reading, timestamp),
{
    match reading {
        Ok(now) => Ok(is_fresh(now, timestamp)),
        Err(_) => Err(RegistryError::Internal),
    }
}

/// Whether `timestamp` is fresh at the time of the call. A clock that cannot
/// be read is an internal failure.
pub fn check_timestamp(timestamp: u64) -> (ok: Result<bool, RegistryError>)
    ensures
        ok matches Err(e) ==> e == RegistryError::Internal,
{
    check_timestamp_at(current_timestamp(), timestamp)
}

} // verus!
