//! Times as the library holds them: plain integers, read off a tag or fixed
//! to an instant.

use chrono::DateTime;
use chrono::Local;
use chrono::LocalResult;
use chrono::TimeZone;
use vstd::prelude::*;

verus! {

/// A point in time together with the offset of the clock it was read on.
#[derive(Debug, Clone, Copy, PartialEq, Eq, Structural)]
pub struct Instant {
    /// Whole seconds since 1970-01-01T00:00:00 UTC.
    pub timestamp: i64,
    /// Nanoseconds past `timestamp`.
    pub nanos: u32,
    /// Seconds by which the clock is ahead of UTC.
    pub offset: i32,
}

impl Instant {
    /// What the clock at `offset` shows at this instant, in seconds since
    /// 1970-01-01T00:00:00 on that clock.
    pub open spec fn wall_seconds(self) -> int {
        self.timestamp + self.offset
    }
}

/// A date tag as a file carries it: a wall-clock reading, with the offset of
/// the clock where the file records one.
#[derive(Debug, Clone, Copy, PartialEq, Eq, Structural)]
pub struct TagTime {
    /// The reading, in seconds since 1970-01-01T00:00:00 on the clock itself.
    pub wall_seconds: i64,
    /// Nanoseconds past `wall_seconds`.
    pub nanos: u32,
    /// Seconds by which the clock was ahead of UTC, if the file says.
    pub offset: Option<i32>,
}

/// What the host's time zone makes of a wall-clock reading.
#[derive(Debug, Clone, Copy, PartialEq, Eq, Structural)]
pub enum LocalTime {
    /// The reading names one instant.
    Single(Instant),
    /// The clock showed the reading twice, around a step backwards.
    Ambiguous,
    /// The clock never showed the reading, or it cannot be represented.
    Missing,
}

/// The instant of a reading taken on a clock `offset` seconds ahead of UTC,
/// where one exists within the range of the timestamp.
pub open spec fn instant_at_offset(tag: TagTime, offset: i32) -> Option<Instant> {
    if i64::MIN <= tag.wall_seconds - offset <= i64::MAX {
        Some(Instant { timestamp: (tag.wall_seconds - offset) as i64, nanos: tag.nanos, offset })
    } else {
        None
    }
}

/// The instant that a reading without offset stands for, given what the
/// host's time zone made of it: the one instant, or none where the reading
/// is ambiguous or missing.
pub open spec fn instant_of_local(local: LocalTime) -> Option<Instant> {
    match local {
        LocalTime::Single(instant) => Some(instant),
        LocalTime::Ambiguous => None,
        LocalTime::Missing => None,
    }
}

/// Whether `found` is a sound answer for `tag`: absent tags give nothing, a
/// tag with an offset gives exactly its instant, and a tag without one gives
/// at most an instant on which the local clock shows the tag's own reading.
pub open spec fn resolves_to(tag: Option<TagTime>, found: Option<Instant>) -> bool {
    match tag {
        None => found is None,
        Some(t) => match t.offset {
            Some(offset) => found == instant_at_offset(t, offset),
            None => found matches Some(instant) ==> {
                &&& instant.wall_seconds() == t.wall_seconds
                &&& instant.nanos == t.nanos
            },
        },
    }
}

/// Asks the host's time zone which instant a wall-clock reading names.
///
/// Calls `chrono::Local.from_local_datetime` on the reading, rebuilt with
/// `chrono::DateTime::from_timestamp`. The answer depends on the zone the
/// machine is set to, so nothing is claimed about which case comes back. What
/// is claimed is chrono's own guarantee for a single result: the instant is
/// the reading minus the zone's offset, with the sub-second part untouched, so
/// the local clock shows the reading at that instant.
#[verifier::external_body]
fn local_time(wall_seconds: i64, nanos: u32) -> (local: LocalTime)
    ensures
        local matches LocalTime::Single(instant) ==> {
            &&& instant.wall_seconds() == wall_seconds
            &&& instant.nanos == nanos
        },
{
    let reading = DateTime::from_timestamp(wall_seconds, nanos).map(|utc| utc.naive_utc());
    match reading.map(|naive| Local.from_local_datetime(&naive)) {
        Some(LocalResult::Single(t)) => LocalTime::Single(Instant {
            timestamp: t.timestamp(),
            nanos: t.timestamp_subsec_nanos(),
            offset: t.offset().local_minus_utc(),
        }),
        Some(LocalResult::Ambiguous(_, _)) => LocalTime::Ambiguous,
        Some(LocalResult::None) => LocalTime::Missing,
        None => LocalTime::Missing,
    }
}

/// Fixes a reading that carries its own offset to an instant.
pub fn at_offset(tag: &TagTime, offset: i32) -> (found: Option<Instant>)
    ensures
        found == instant_at_offset(*tag, offset),
{
    match tag.wall_seconds.checked_sub(offset as i64) {
        Some(timestamp) => Some(Instant { timestamp, nanos: tag.nanos, offset }),
        None => None,
    }
}

/// Picks the instant out of what the host's time zone made of a reading.
pub fn from_local(local: LocalTime) -> (found: Option<Instant>)
    ensures
        found == instant_of_local(local),
{
    match local {
        LocalTime::Single(instant) => Some(instant),
        LocalTime::Ambiguous => None,
        LocalTime::Missing => None,
    }
}

/// Turns a date tag into an instant.
///
/// A tag that carries an offset is used as it stands. A tag without one is
/// read as wall-clock time in the host's time zone, so that the hour it shows
/// is the hour the local clock shows at the instant returned; where the zone
/// gives no single instant for it, the tag counts as absent.
pub fn resolve(tag: Option<TagTime>) -> (found: Option<Instant>)
    ensures
        resolves_to(tag, found),
{
    match tag {
        None => None,
        Some(t) => match t.offset {
            Some(offset) => at_offset(&t, offset),
            None => from_local(local_time(t.wall_seconds, t.nanos)),
        },
    }
}

} // verus!
