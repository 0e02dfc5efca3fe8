//! The system clock, read as a signed distance from the Unix epoch.

use vstd::prelude::*;

verus! {

#[verifier::external_type_specification]
#[verifier::external_body]
pub struct ExSystemTime(std::time::SystemTime);

/// `std::time::SystemTime::now`: the current reading of the system clock.
/// Nothing is stated of it: it is the clock's.
#[verifier::external_body]
fn system_now() -> (r: std::time::SystemTime) {
    std::time::SystemTime::now()
}

/// `SystemTime::duration_since(UNIX_EPOCH)`: how far `t` lies from the Unix
/// epoch, as whole seconds and the nanoseconds past them, and whether it
/// lies at or after the epoch (the `Ok` duration) or before it (the
/// duration carried by the error). Only that the nanoseconds stay below one
/// second is stated; the distance is the reading's.
#[verifier::external_body]
fn offset_from_epoch(t: &std::time::SystemTime) -> (r: (bool, u64, u32))
    ensures
        r.2 < 1_000_000_000,
{
    match t.duration_since(std::time::UNIX_EPOCH) {
        Ok(d) => (true, d.as_secs(), d.subsec_nanos()),
        Err(e) => (false, e.duration().as_secs(), e.duration().subsec_nanos()),
    }
}

/// Read the clock: whether it is at or after the Unix epoch, and its
/// distance from the epoch in seconds and nanoseconds.
pub fn read_clock() -> (r: (bool, u64, u32))
    ensures
        r.2 < 1_000_000_000,
{
    let now = system_now();
    offset_from_epoch(&now)
}

/// A duration of `secs` seconds and `nanos` nanoseconds in whole
/// milliseconds, as `Duration::as_millis` counts them.
pub open spec fn duration_millis(secs: u64, nanos: u32) -> nat {
    (secs * 1000 + nanos / 1_000_000) as nat
}

pub fn millis_of(secs: u64, nanos: u32) -> (r: u128)
    ensures
        r as nat == duration_millis(secs, nanos),
{
    secs as u128 * 1000 + (nanos / 1_000_000) as u128
}

/// A clock reading in milliseconds since the Unix epoch, rounded down (a
/// reading before the epoch is negative), as chrono's `timestamp_millis`
/// counts a point in time.
pub open spec fn epoch_millis_floor(after_epoch: bool, secs: u64, nanos: u32) -> int {
    if after_epoch {
        secs * 1000 + nanos / 1_000_000
    } else {
        -(secs * 1000 + (nanos + 999_999) / 1_000_000)
    }
}

/// `epoch_millis_floor` held to the `i64` range.
pub open spec fn clamp_i64(v: int) -> i64 {
    if v > i64::MAX {
        i64::MAX
    } else if v < i64::MIN {
        i64::MIN
    } else {
        v as i64
    }
}

/// A clock reading in milliseconds since the Unix epoch, rounded down and
/// held to the `i64` range.
pub fn clock_millis(after_epoch: bool, secs: u64, nanos: u32) -> (r: i64)
    ensures
        r == clamp_i64(epoch_millis_floor(after_epoch, secs, nanos)),
{
    let whole = secs as u128 * 1000;
    if after_epoch {
        let m = whole + (nanos / 1_000_000) as u128;
        if m > i64::MAX as u128 {
            i64::MAX
        } else {
            m as i64
        }
    } else {
        let m = whole + ((nanos as u64 + 999_999) / 1_000_000) as u128;
        if m >= 0x8000_0000_0000_0000u128 {
            i64::MIN
        } else {
            -(m as i64)
        }
    }
}

} // verus!
