//! Points in time that the store can hold, from the `chrono` crate.
use crate::application::Timestamp;
use sea_orm::prelude::DateTimeUtc;
use vstd::prelude::*;

verus! {

/// The first second of the calendar: the beginning of the year 262144 before our era.
pub const FIRST_SECOND: i64 = -8334601228800;

/// The last second of the calendar: the end of the year 262142.
pub const LAST_SECOND: i64 = 8210266876799;

/// `DateTime::from_timestamp`: the point in time that is so many whole seconds after the epoch,
/// if it lies in the calendar.
#[verifier::external_body]
pub(crate) fn at_second(secs: i64) -> (res: Option<Timestamp>)
    ensures
        res == (if FIRST_SECOND <= secs <= LAST_SECOND {
            Some(Timestamp { secs, nanos: 0 })
        } else {
            None
        }),
{
    DateTimeUtc::from_timestamp(secs, 0).map(
        |t| Timestamp { secs: t.timestamp(), nanos: t.timestamp_subsec_nanos() },
    )
}

/// The point in time that `DateTime<Utc>`'s `parse` reads in a text, in whole seconds after the
/// epoch and nanoseconds after that, if it reads one.
pub uninterp spec fn time_in_text(text: Seq<char>) -> Option<(i64, u32)>;

/// `DateTime<Utc>`'s `parse` reads a point in time. What it reads depends on the text alone.
#[verifier::external_body]
pub(crate) fn parse_time(text: &str) -> (res: Option<Timestamp>)
    ensures
        res == (match time_in_text(text@) {
            Some((secs, nanos)) => Some(Timestamp { secs, nanos }),
            None => None,
        }),
{
    text.parse::<DateTimeUtc>().ok().map(
        |t| Timestamp { secs: t.timestamp(), nanos: t.timestamp_subsec_nanos() },
    )
}

} // verus!
