//! The machine's clock and its local offset, as the `chrono` crate reads them.

use crate::calendar::seconds_in_range;
use vstd::prelude::*;

verus! {

/// Calls `chrono::Utc::now` and reads `timestamp` and
/// `timestamp_subsec_nanos` of the result. Claimed: the second lies in the
/// range of instants, and the nanoseconds are fewer than two seconds' worth.
#[verifier::external_body]
pub(crate) fn utc_now() -> (now: (i64, u32))
    ensures
        seconds_in_range(now.0 as int),
        now.1 < 2_000_000_000,
{
    let now = chrono::Utc::now();
    (now.timestamp(), now.timestamp_subsec_nanos())
}

/// Calls `chrono::Local::now` and reads the offset of the result. Claimed:
/// the offset is less than a day, east or west.
#[verifier::external_body]
pub(crate) fn local_offset_now() -> (secs: i32)
    ensures
        -86_400 < secs < 86_400,
{
    chrono::Offset::fix(chrono::Local::now().offset()).local_minus_utc()
}

/// Calls `chrono::TimeZone::offset_from_utc_datetime` on `chrono::Local`, for
/// the instant `secs`. Claimed: the offset is less than a day, east or west.
#[verifier::external_body]
pub(crate) fn local_offset_at(secs: i64) -> (offset: i32)
    requires
        seconds_in_range(secs as int),
    ensures
        -86_400 < offset < 86_400,
{
    let at = chrono::DateTime::from_timestamp(secs, 0).unwrap().naive_utc();
    chrono::Offset::fix(&chrono::TimeZone::offset_from_utc_datetime(&chrono::Local, &at))
        .local_minus_utc()
}

} // verus!
