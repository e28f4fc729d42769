//! The system clock.

use std::time::{SystemTime, UNIX_EPOCH};
use vstd::prelude::*;

verus! {

/// `SystemTime::now`, in whole seconds: `Ok` of the seconds since 1970, or `Err` of the
/// seconds by which the clock is set before 1970. Nothing is promised of the value.
#[verifier::external_body]
fn read_clock() -> Result<u64, u64> {
    match SystemTime::now().duration_since(UNIX_EPOCH) {
        Ok(since) => Ok(since.as_secs()),
        Err(before) => Err(before.duration().as_secs()),
    }
}

/// The Unix time of a clock reading, held within the range of `i64`.
pub fn unix_time(reading: Result<u64, u64>) -> (r: i64)
    ensures
        match reading {
            Ok(s) => r == if s <= i64::MAX {
                s as int
            } else {
                i64::MAX as int
            },
            Err(s) => r == if s <= i64::MAX {
                -(s as int)
            } else {
                -(i64::MAX as int)
            },
        },
{
    let limit: u64 = i64::MAX as u64;
    match reading {
        Ok(s) => if s <= limit {
            s as i64
        } else {
            i64::MAX
        },
        Err(s) => if s <= limit {
            -(s as i64)
        } else {
            -i64::MAX
        },
    }
}

/// The current Unix time in seconds.
pub fn now_secs() -> (r: i64)
    ensures
        r >= -i64::MAX,
{
    unix_time(read_clock())
}

} // verus!
