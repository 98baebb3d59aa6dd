//! Points in time.

use vstd::prelude::*;

use super::error::{Result, WhitenoiseError};

verus! {

/// The first second of the calendar, counted from the start of 1970 in UTC.
pub const FIRST_SECOND: i64 = -8334601228800;

/// The last second of the calendar, counted from the start of 1970 in UTC.
pub const LAST_SECOND: i64 = 8210266876799;

/// Calls `chrono::DateTime::from_timestamp` and
/// `chrono::DateTime::timestamp_millis`: the milliseconds of a whole second,
/// where it lies between the start of the year -262143 and the end of the year
/// 262142.
#[verifier::external_body]
fn millis_of_second(secs: i64) -> (millis: Option<i64>)
    ensures
        millis is Some <==> FIRST_SECOND <= secs <= LAST_SECOND,
        millis matches Some(ms) ==> ms == secs * 1000,
{
    chrono::DateTime::<chrono::Utc>::from_timestamp(secs, 0).map(|time| time.timestamp_millis())
}

/// The time of an event in milliseconds, where the calendar has it.
pub open spec fn event_millis(created_at: u64) -> Option<i64> {
    if created_at <= LAST_SECOND {
        Some((created_at * 1000) as i64)
    } else {
        None
    }
}

/// The time of an event, in milliseconds since the start of 1970.
pub fn timestamp_to_datetime(created_at: u64) -> (millis: Result<i64>)
    ensures
        match event_millis(created_at) {
            Some(ms) => millis == Ok::<i64, WhitenoiseError>(ms),
            None => millis == Err::<i64, WhitenoiseError>(WhitenoiseError::InvalidTimestamp),
        },
        millis is Ok <==> created_at <= 8_210_266_876_799,
        millis matches Ok(ms) ==> ms == created_at * 1000,
        millis matches Err(e) ==> e is InvalidTimestamp,
{
    if created_at > i64::MAX as u64 {
        return Err(WhitenoiseError::InvalidTimestamp);
    }
    match millis_of_second(created_at as i64) {
        Some(millis) => Ok(millis),
        None => Err(WhitenoiseError::InvalidTimestamp),
    }
}

/// The time of an event is its seconds times a thousand, up to the last second
/// of the calendar. A later second has none.
pub proof fn event_times_end_with_the_calendar(created_at: u64)
    ensures
        event_millis(created_at) is Some <==> created_at <= 8_210_266_876_799,
        event_millis(created_at) is Some ==> event_millis(created_at)->0 == created_at * 1000,
{
}

} // verus!
