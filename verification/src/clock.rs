//! From the calendar time of an archive member to a point in time.
//!
//! A member's time is taken as UTC. The calendar arithmetic is done by the
//! `time` crate.

use crate::archive::DosDateTime;
use crate::node::Timespec;
use vstd::prelude::*;

verus! {

/// The seconds since the Unix epoch at which the broken-down UTC time with
/// these fields falls, as `Tm::to_timespec` computes them. The fields are
/// those of `time::Tm`: years since 1900, months since January, the day of
/// the month, hours, minutes, seconds.
pub uninterp spec fn utc_seconds_of(
    tm_year: i32,
    tm_mon: i32,
    tm_mday: i32,
    tm_hour: i32,
    tm_min: i32,
    tm_sec: i32,
) -> i64;

/// The point in time that the calendar time `t` names in UTC.
pub open spec fn time_of(t: DosDateTime) -> Timespec {
    Timespec {
        sec: utc_seconds_of(
            (t.year - 1900) as i32,
            (t.month - 1) as i32,
            t.day as i32,
            t.hour as i32,
            t.minute as i32,
            t.second as i32,
        ),
        nsec: 0,
    }
}

/// The time of a member: what the archive says, or `fallback` where it says
/// nothing valid.
pub open spec fn entry_time(modified: Option<DosDateTime>, fallback: Timespec) -> Timespec {
    match modified {
        Some(t) => time_of(t),
        None => fallback,
    }
}

/// `Tm::to_timespec` on a broken-down time in UTC with no nanoseconds: the
/// seconds since the epoch, with the nanoseconds that went in.
#[verifier::external_body]
fn utc_timespec(tm_year: i32, tm_mon: i32, tm_mday: i32, tm_hour: i32, tm_min: i32, tm_sec: i32) -> (at:
    Timespec)
    ensures
        at.sec == utc_seconds_of(tm_year, tm_mon, tm_mday, tm_hour, tm_min, tm_sec),
        at.nsec == 0,
{
    let (tm_wday, tm_yday, tm_isdst, tm_utcoff, tm_nsec) = (0, 0, 0, 0, 0);
    let at = time::Tm {
        tm_sec, tm_min, tm_hour, tm_mday, tm_mon, tm_year,
        tm_wday, tm_yday, tm_isdst, tm_utcoff, tm_nsec,
    }.to_timespec();
    Timespec { sec: at.sec, nsec: at.nsec }
}

/// The point in time that the calendar time `t` names in UTC.
pub fn to_timespec(t: DosDateTime) -> (at: Timespec)
    ensures
        at == time_of(t),
{
    utc_timespec(
        t.year as i32 - 1900,
        t.month as i32 - 1,
        t.day as i32,
        t.hour as i32,
        t.minute as i32,
        t.second as i32,
    )
}

/// The time of a member: what the archive says, or `fallback` where it says
/// nothing valid.
pub fn time_of_entry(modified: Option<DosDateTime>, fallback: Timespec) -> (at: Timespec)
    ensures
        at == entry_time(modified, fallback),
{
    match modified {
        Some(t) => to_timespec(t),
        None => fallback,
    }
}

} // verus!
