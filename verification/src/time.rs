//! Timestamps of the weather services, parsed with `chrono`.
//!
//! Times are kept as civil times with the UTC offset they are expressed in;
//! where a service gives no offset, the offset of the machine's local time zone
//! is taken.
use vstd::prelude::*;
use crate::jma::CivilDate;
use chrono::{Datelike, TimeZone, Timelike};

verus! {

/// A civil (wall-clock) date and time without a time zone.
#[derive(Debug, Clone, Copy, PartialEq, Eq, Structural)]
pub struct CivilDateTime {
    pub year: i32,
    pub month: u32,
    pub day: u32,
    pub hour: u32,
    pub minute: u32,
    pub second: u32,
    pub nanosecond: u32,
}

/// A civil time together with the UTC offset (seconds east) it is expressed in.
#[derive(Debug, Clone, Copy, PartialEq, Eq, Structural)]
pub struct ZonedTime {
    pub civil: CivilDateTime,
    pub utc_offset_secs: i32,
}

/// Why a timestamp could not be read.
#[derive(Debug, Clone, Copy, PartialEq, Eq, Structural)]
pub enum TimeError {
    /// The text does not match the expected format.
    Parse,
    /// The UTC offset is a day or more.
    InvalidOffset,
    /// The wall-clock time does not occur exactly once in the local time zone
    /// (it falls in a daylight-saving gap or overlap).
    NoLocalTime,
}

/// What `chrono::NaiveDateTime::parse_from_str` yields for a text and a format.
pub uninterp spec fn naive_datetime_parse(s: Seq<char>, fmt: Seq<char>) -> Option<CivilDateTime>;

/// What `chrono::NaiveDate::parse_from_str` yields for a text and a format.
pub uninterp spec fn naive_date_parse(s: Seq<char>, fmt: Seq<char>) -> Option<CivilDate>;

/// Calls `chrono::NaiveDateTime::parse_from_str` and reads the fields of the
/// result; the result is `naive_datetime_parse` of the arguments.
#[verifier::external_body]
fn chrono_parse_datetime(s: &str, fmt: &str) -> (r: Option<CivilDateTime>)
    ensures
        r == naive_datetime_parse(s@, fmt@),
{
    match chrono::NaiveDateTime::parse_from_str(s, fmt) {
        Ok(t) => Some(CivilDateTime {
            year: t.year(),
            month: t.month(),
            day: t.day(),
            hour: t.hour(),
            minute: t.minute(),
            second: t.second(),
            nanosecond: t.nanosecond(),
        }),
        Err(_) => None,
    }
}

/// Calls `chrono::NaiveDate::parse_from_str` and reads the fields of the result;
/// the result is `naive_date_parse` of the arguments.
#[verifier::external_body]
fn chrono_parse_date(s: &str, fmt: &str) -> (r: Option<CivilDate>)
    ensures
        r == naive_date_parse(s@, fmt@),
{
    match chrono::NaiveDate::parse_from_str(s, fmt) {
        Ok(d) => Some(CivilDate { year: d.year(), month: d.month(), day: d.day() }),
        Err(_) => None,
    }
}

#[verifier::external_type_specification]
#[verifier::external_body]
pub struct ExFixedOffset(chrono::FixedOffset);

/// `chrono::FixedOffset::east_opt`: an offset exists exactly for
/// `-86_400 < secs < 86_400`.
#[verifier::external_body]
fn fixed_offset_east(secs: i32) -> (r: Option<chrono::FixedOffset>)
    ensures
        r is Some <==> -86_400 < secs < 86_400,
{
    chrono::FixedOffset::east_opt(secs)
}

/// Format of the JMA nowcast times (`20260608070000`).
pub open spec fn jma_compact_format() -> Seq<char> {
    "%Y%m%d%H%M%S"@
}

/// Reads a JMA nowcast time (`YYYYMMDDhhmmss`); the time is in UTC.
pub fn parse_jma_compact(s: &str) -> (r: Result<CivilDateTime, TimeError>)
    ensures
        r == match naive_datetime_parse(s@, jma_compact_format()) {
            Some(t) => Ok::<CivilDateTime, TimeError>(t),
            None => Err(TimeError::Parse),
        },
{
    match chrono_parse_datetime(s, "%Y%m%d%H%M%S") {
        Some(t) => Ok(t),
        None => Err(TimeError::Parse),
    }
}

/// Format of Open-Meteo's local times (`2026-06-08T18:00`).
pub open spec fn open_meteo_format() -> Seq<char> {
    "%Y-%m-%dT%H:%M"@
}

/// An Open-Meteo local time read with the location's UTC offset (UTC when the
/// offset is not given).
pub open spec fn local_with_offset(s: Seq<char>, offset: Option<i32>) -> Result<ZonedTime, TimeError> {
    let off = match offset {
        Some(o) => o,
        None => 0i32,
    };
    match naive_datetime_parse(s, open_meteo_format()) {
        None => Err(TimeError::Parse),
        Some(t) => if -86_400 < off < 86_400 {
            Ok(ZonedTime { civil: t, utc_offset_secs: off })
        } else {
            Err(TimeError::InvalidOffset)
        },
    }
}

/// Reads an Open-Meteo local time (`%Y-%m-%dT%H:%M`) in the location's UTC
/// offset, so the instant is kept whatever the user's own time zone.
pub fn parse_local_with_offset(s: &str, offset: Option<i32>) -> (r: Result<ZonedTime, TimeError>)
    ensures
        r == local_with_offset(s@, offset),
{
    let t = match chrono_parse_datetime(s, "%Y-%m-%dT%H:%M") {
        Some(t) => t,
        None => return Err(TimeError::Parse),
    };
    let off = match offset {
        Some(o) => o,
        None => 0,
    };
    match fixed_offset_east(off) {
        Some(_) => Ok(ZonedTime { civil: t, utc_offset_secs: off }),
        None => Err(TimeError::InvalidOffset),
    }
}

/// `chrono::Local.from_local_datetime(..).single()`: the offset, in seconds
/// east of UTC, of the machine's local time zone at a wall-clock time, when that
/// wall time occurs exactly once there (the civil time is first rebuilt as a
/// `chrono::NaiveDateTime`). Which offset comes back depends on the machine's
/// zone, so the contract states only what holds in every zone: an offset of
/// `chrono` lies strictly within a day. Nothing is said of when the result is
/// absent.
#[verifier::external_body]
fn local_offset_at(t: CivilDateTime) -> (r: Option<i32>)
    ensures
        r matches Some(o) ==> -86_400 < o < 86_400,
{
    let d = chrono::NaiveDate::from_ymd_opt(t.year, t.month, t.day)?;
    let ndt = d.and_hms_nano_opt(t.hour, t.minute, t.second, t.nanosecond)?;
    chrono::Local.from_local_datetime(&ndt).single().map(|dt| dt.offset().local_minus_utc())
}

/// Reads an Open-Meteo time whose offset is not known (as returned by
/// multi-location queries): the time is read in the machine's local time zone.
/// The offset found there depends on the zone; in every zone it lies within a
/// day, and a wall time the zone skips or repeats gives `NoLocalTime`.
pub fn parse_local(s: &str) -> (r: Result<ZonedTime, TimeError>)
    ensures
        naive_datetime_parse(s@, open_meteo_format()) is None ==> r == Err::<ZonedTime, TimeError>(TimeError::Parse),
        naive_datetime_parse(s@, open_meteo_format()) matches Some(t) ==> match r {
            Ok(z) => z.civil == t && -86_400 < z.utc_offset_secs < 86_400,
            Err(e) => e == TimeError::NoLocalTime,
        },
{
    let t = match chrono_parse_datetime(s, "%Y-%m-%dT%H:%M") {
        Some(t) => t,
        None => return Err(TimeError::Parse),
    };
    match local_offset_at(t) {
        Some(off) => Ok(ZonedTime { civil: t, utc_offset_secs: off }),
        None => Err(TimeError::NoLocalTime),
    }
}

/// What `chrono::DateTime::parse_from_rfc3339` yields for a text: the civil
/// time as written and its UTC offset.
pub uninterp spec fn rfc3339_parse(s: Seq<char>) -> Option<ZonedTime>;

/// Calls `chrono::DateTime::parse_from_rfc3339` and reads the written civil time
/// and its offset; the result is `rfc3339_parse` of the text.
#[verifier::external_body]
fn chrono_parse_rfc3339(s: &str) -> (r: Option<ZonedTime>)
    ensures
        r == rfc3339_parse(s@),
{
    let t = chrono::DateTime::parse_from_rfc3339(s).ok()?;
    let n = t.naive_local();
    let civil = CivilDateTime {
        year: n.year(), month: n.month(), day: n.day(),
        hour: n.hour(), minute: n.minute(), second: n.second(), nanosecond: n.nanosecond(),
    };
    Some(ZonedTime { civil, utc_offset_secs: t.offset().local_minus_utc() })
}

/// Reads an RFC 3339 timestamp (as in JMA's forecasts, `2026-06-09T00:00:00+09:00`).
pub fn parse_rfc3339(s: &str) -> (r: Result<ZonedTime, TimeError>)
    ensures
        r == match rfc3339_parse(s@) {
            Some(t) => Ok::<ZonedTime, TimeError>(t),
            None => Err(TimeError::Parse),
        },
{
    match chrono_parse_rfc3339(s) {
        Some(t) => Ok(t),
        None => Err(TimeError::Parse),
    }
}

/// The readable timestamps of a list, in order; unreadable ones are left out.
pub open spec fn readable_times(defs: Seq<String>) -> Seq<ZonedTime>
    decreases defs.len(),
{
    if defs.len() == 0 {
        seq![]
    } else {
        let rest = readable_times(defs.drop_last());
        match rfc3339_parse(defs.last()@) {
            Some(t) => rest.push(t),
            None => rest,
        }
    }
}

/// The times a JMA series is defined at, skipping any it cannot read.
pub fn time_defines(defs: &Vec<String>) -> (r: Vec<ZonedTime>)
    ensures
        r@ == readable_times(defs@),
{
    let mut out: Vec<ZonedTime> = Vec::new();
    let mut i: usize = 0;
    while i < defs.len()
        invariant
            i <= defs@.len(),
            out@ == readable_times(defs@.take(i as int)),
        decreases defs@.len() - i,
    {
        assert(defs@.take(i + 1).drop_last() =~= defs@.take(i as int));
        match chrono_parse_rfc3339(defs[i].as_str()) {
            Some(t) => out.push(t),
            None => {},
        }
        i = i + 1;
    }
    assert(defs@.take(defs@.len() as int) =~= defs@);
    out
}

/// Format of Open-Meteo's dates (`2026-06-08`).
pub open spec fn open_meteo_date_format() -> Seq<char> {
    "%Y-%m-%d"@
}

/// Reads an Open-Meteo date.
pub fn parse_date(s: &str) -> (r: Result<CivilDate, TimeError>)
    ensures
        r == match naive_date_parse(s@, open_meteo_date_format()) {
            Some(d) => Ok::<CivilDate, TimeError>(d),
            None => Err(TimeError::Parse),
        },
{
    match chrono_parse_date(s, "%Y-%m-%d") {
        Some(d) => Ok(d),
        None => Err(TimeError::Parse),
    }
}

} // verus!
