//! Time helpers, so the rest of the server doesn't carry clock plumbing.

use vstd::prelude::*;

use crate::clock::{duration_millis, millis_of, read_clock};

verus! {

/// A millisecond count as an `i64`, when it fits.
pub fn millis_to_i64(ms: Option<u128>) -> (r: Option<i64>)
    ensures
        r == match ms {
            Some(m) => if m <= i64::MAX {
                Some(m as i64)
            } else {
                None
            },
            None => None,
        },
{
    match ms {
        Some(m) => if m <= i64::MAX as u128 {
            Some(m as i64)
        } else {
            None
        },
        None => None,
    }
}

/// The Unix timestamp in milliseconds of a clock reading (see
/// [`read_clock`]): the whole milliseconds since the epoch; `None` exactly
/// when the reading lies before the epoch or the count does not fit an `i64`.
pub open spec fn unix_ms_spec(after_epoch: bool, secs: u64, nanos: u32) -> Option<i64> {
    if after_epoch && duration_millis(secs, nanos) <= i64::MAX {
        Some(duration_millis(secs, nanos) as i64)
    } else {
        None
    }
}

pub fn unix_ms_of(after_epoch: bool, secs: u64, nanos: u32) -> (r: Option<i64>)
    ensures
        r == unix_ms_spec(after_epoch, secs, nanos),
{
    if after_epoch {
        millis_to_i64(Some(millis_of(secs, nanos)))
    } else {
        None
    }
}

/// Current Unix timestamp in milliseconds: the clock read once and taken as
/// [`unix_ms_of`] takes it, so `None` only when the clock is before the
/// Unix epoch or the count does not fit an `i64`.
pub fn now_unix_ms() -> (r: Option<i64>)
    ensures
        r matches Some(v) ==> v >= 0,
{
    let (after_epoch, secs, nanos) = read_clock();
    unix_ms_of(after_epoch, secs, nanos)
}

} // verus!
