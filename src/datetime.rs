//! Turning a date or date-time property into an absolute instant.
use vstd::prelude::*;
use chrono::{Datelike, TimeZone, Timelike};
use crate::props::{Property, join_with, views_of, join_strings};

verus! {

/// A wall-clock date and time, without a zone.
#[derive(Clone, Copy, Debug, PartialEq, Eq, Structural)]
pub struct CivilDateTime {
    pub year: i32,
    pub month: u32,
    pub day: u32,
    pub hour: u32,
    pub minute: u32,
    pub second: u32,
}

/// How a wall-clock time maps to instants (seconds since the Unix epoch) in a zone.
#[derive(Clone, Copy, Debug, PartialEq, Eq, Structural)]
pub enum LocalMapping {
    /// The time does not occur (a gap, as when clocks go forward).
    Unmapped,
    Single(i64),
    /// The time occurs twice (as when clocks go back): earlier, later.
    Ambiguous(i64, i64),
}

/// Why a date-time property could not be turned into an instant.
#[derive(Clone, Copy, Debug, PartialEq, Eq, Structural)]
pub enum DateTimeError {
    /// The value does not match `YYYYMMDDTHHMMSS` (or `YYYYMMDD`).
    Malformed,
    /// The local time falls in a gap of the zone.
    NonexistentLocalTime,
    /// The local time occurs twice in the zone; the event is rejected.
    AmbiguousLocalTime,
}

pub open spec fn is_leap_year(y: int) -> bool {
    (y % 4 == 0 && y % 100 != 0) || y % 400 == 0
}

pub open spec fn days_in_month(y: int, m: int) -> int {
    if m == 2 {
        if is_leap_year(y) { 29 } else { 28 }
    } else if m == 4 || m == 6 || m == 9 || m == 11 {
        30
    } else {
        31
    }
}

impl CivilDateTime {
    /// A real calendar date and time of day within the supported years.
    pub open spec fn wf(self) -> bool {
        &&& -262143 <= self.year <= 262142
        &&& 1 <= self.month <= 12
        &&& 1 <= self.day <= days_in_month(self.year as int, self.month as int)
        &&& self.hour < 24
        &&& self.minute < 60
        &&& self.second < 60
    }
}

/// Days from 1970-01-01 to the given proleptic Gregorian date.
pub open spec fn days_from_civil(y: int, m: int, d: int) -> int {
    let yy = if m <= 2 { y - 1 } else { y };
    let era = yy / 400;
    let yoe = yy - era * 400;
    let mp = (m + 9) % 12;
    let doy = (153 * mp + 2) / 5 + d - 1;
    let doe = yoe * 365 + yoe / 4 - yoe / 100 + doy;
    era * 146097 + doe - 719468
}

/// Seconds since the Unix epoch of `dt` read as a UTC time.
pub open spec fn utc_seconds(dt: CivilDateTime) -> int {
    days_from_civil(dt.year as int, dt.month as int, dt.day as int) * 86400
        + dt.hour as int * 3600 + dt.minute as int * 60 + dt.second as int
}

/// What chrono's `NaiveDateTime::parse_from_str(s, fmt)` yields.
pub uninterp spec fn naive_parse(s: Seq<char>, fmt: Seq<char>) -> Option<CivilDateTime>;

/// Whether chrono-tz knows the zone `name`.
pub uninterp spec fn zone_known(name: Seq<char>) -> bool;

/// How chrono-tz maps the wall-clock time `dt` in the zone `name`.
pub uninterp spec fn zone_mapping(name: Seq<char>, dt: CivilDateTime) -> LocalMapping;

/// Relies on chrono's `NaiveDateTime::parse_from_str`: a result is always a
/// valid date and time.
#[verifier::external_body]
fn parse_local(s: &str, fmt: &str) -> (r: Option<CivilDateTime>)
    ensures
        r == naive_parse(s@, fmt@),
        r matches Some(dt) ==> dt.wf(),
{
    chrono::NaiveDateTime::parse_from_str(s, fmt).ok().map(|d| CivilDateTime {
        year: d.year(),
        month: d.month(),
        day: d.day(),
        hour: d.hour(),
        minute: d.minute(),
        second: d.second(),
    })
}

/// Relies on chrono-tz's `Tz::from_str` to resolve `zone` (`None` when it is
/// unknown) and on chrono's `TimeZone::from_local_datetime` to place `dt` in
/// it. The zone `UTC` is known and has offset zero.
#[verifier::external_body]
fn map_local(zone: &str, dt: CivilDateTime) -> (r: Option<LocalMapping>)
    requires
        dt.wf(),
    ensures
        r is Some <==> zone_known(zone@),
        r matches Some(m) ==> m == zone_mapping(zone@, dt),
        zone@ == "UTC"@ ==> r == Some(LocalMapping::Single(utc_seconds(dt) as i64)),
{
    let tz = match zone.parse::<chrono_tz::Tz>() {
        Ok(tz) => tz,
        Err(_) => return None,
    };
    let naive = chrono::NaiveDate::from_ymd_opt(dt.year, dt.month, dt.day).unwrap()
        .and_hms_opt(dt.hour, dt.minute, dt.second).unwrap();
    Some(match tz.from_local_datetime(&naive) {
        chrono::LocalResult::Single(t) => LocalMapping::Single(t.timestamp()),
        chrono::LocalResult::Ambiguous(a, b) => LocalMapping::Ambiguous(a.timestamp(), b.timestamp()),
        chrono::LocalResult::None => LocalMapping::Unmapped,
    })
}

/// Index of the first `TZID` parameter in `params`, if any.
pub open spec fn first_tzid(params: Seq<(String, Vec<String>)>) -> Option<int>
    decreases params.len(),
{
    if params.len() == 0 {
        None
    } else if first_tzid(params.drop_last()) is Some {
        first_tzid(params.drop_last())
    } else if params.last().0@ == "TZID"@ {
        Some(params.len() - 1)
    } else {
        None
    }
}

/// The zone a property names: its first `TZID` parameter's values joined by
/// commas, or `UTC` without one.
pub open spec fn zone_name(p: Property) -> Seq<char> {
    match p.params {
        Some(ps) => match first_tzid(ps@) {
            Some(i) => join_with(views_of(ps@[i].1@), ","@),
            None => "UTC"@,
        },
        None => "UTC"@,
    }
}

/// A date-only value (eight characters) stands for midnight of that day.
pub open spec fn with_time(v: Seq<char>) -> Seq<char> {
    if v.len() == 8 { v + "T000000"@ } else { v }
}

/// The pattern every (extended) date-time value is read with.
pub open spec fn local_pattern() -> Seq<char> {
    "%Y%m%dT%H%M%S"@
}

/// How `dt` maps in the zone called `zone`; an unknown zone, like `UTC`,
/// counts as UTC.
pub open spec fn effective_mapping(zone: Seq<char>, dt: CivilDateTime) -> LocalMapping {
    if zone != "UTC"@ && zone_known(zone) {
        zone_mapping(zone, dt)
    } else {
        LocalMapping::Single(utc_seconds(dt) as i64)
    }
}

/// The instant that the text `v`, read as local time in the zone called
/// `zone`, stands for.
pub open spec fn local_instant(v: Seq<char>, zone: Seq<char>) -> Result<Option<i64>, DateTimeError> {
    match naive_parse(v, local_pattern()) {
        None => Err(DateTimeError::Malformed),
        Some(dt) => mapping_instant(effective_mapping(zone, dt)),
    }
}

/// The one instant of a mapping; a gap or a repeated time is an error.
pub open spec fn mapping_instant(m: LocalMapping) -> Result<Option<i64>, DateTimeError> {
    match m {
        LocalMapping::Single(t) => Ok(Some(t)),
        LocalMapping::Unmapped => Err(DateTimeError::NonexistentLocalTime),
        LocalMapping::Ambiguous(_, _) => Err(DateTimeError::AmbiguousLocalTime),
    }
}

/// The instant a local time maps to, where it maps to exactly one.
pub fn mapping_to_instant(m: LocalMapping) -> (r: Result<Option<i64>, DateTimeError>)
    ensures
        r == mapping_instant(m),
{
    match m {
        LocalMapping::Single(t) => Ok(Some(t)),
        LocalMapping::Unmapped => Err(DateTimeError::NonexistentLocalTime),
        LocalMapping::Ambiguous(_, _) => Err(DateTimeError::AmbiguousLocalTime),
    }
}

/// The instant a date or date-time property stands for: absent without a
/// value, else its value read as local time in its zone.
pub open spec fn instant_of(p: Property) -> Result<Option<i64>, DateTimeError> {
    match p.value {
        None => Ok(None),
        Some(v) => local_instant(with_time(v@), zone_name(p)),
    }
}

/// A date-only value (`YYYYMMDD`) is read as midnight, `YYYYMMDDT000000`,
/// local time in the property's zone.
pub proof fn lemma_date_only_is_midnight(p: Property)
    requires
        p.value matches Some(v) && v@.len() == 8,
    ensures
        instant_of(p) == local_instant(p.value.unwrap()@ + "T000000"@, zone_name(p)),
{
}

/// Where the property names a zone that is known, its instant is the one the
/// zone gives for the local time (for UTC, the local time read as UTC).
pub proof fn lemma_known_zone_gives_its_offset(p: Property, dt: CivilDateTime)
    requires
        p.value matches Some(v) && naive_parse(with_time(v@), local_pattern()) == Some(dt),
        zone_known(zone_name(p)),
    ensures
        zone_name(p) != "UTC"@ ==> {
            &&& zone_mapping(zone_name(p), dt) matches LocalMapping::Single(t)
                ==> instant_of(p) == Ok::<Option<i64>, DateTimeError>(Some(t))
            &&& zone_mapping(zone_name(p), dt) is Unmapped
                ==> instant_of(p) == Err::<Option<i64>, DateTimeError>(DateTimeError::NonexistentLocalTime)
            &&& zone_mapping(zone_name(p), dt) is Ambiguous
                ==> instant_of(p) == Err::<Option<i64>, DateTimeError>(DateTimeError::AmbiguousLocalTime)
        },
        zone_name(p) == "UTC"@ ==> instant_of(p) == Ok::<Option<i64>, DateTimeError>(Some(utc_seconds(dt) as i64)),
{
}

/// Where the property has no `TZID`, or one that names no known zone, its
/// instant is its local time read as UTC.
pub proof fn lemma_unknown_zone_is_utc(p: Property, dt: CivilDateTime)
    requires
        p.value matches Some(v) && naive_parse(with_time(v@), local_pattern()) == Some(dt),
        zone_name(p) == "UTC"@ || !zone_known(zone_name(p)),
    ensures
        instant_of(p) == Ok::<Option<i64>, DateTimeError>(Some(utc_seconds(dt) as i64)),
{
}

/// The instant of a local time: by its mapping in the property's zone where
/// that zone was resolved (`zoned`), else by its mapping in UTC (`in_utc`).
pub fn zone_or_utc_instant(zoned: Option<LocalMapping>, in_utc: LocalMapping) -> (r: Result<Option<i64>, DateTimeError>)
    ensures
        r == mapping_instant(match zoned {
            Some(m) => m,
            None => in_utc,
        }),
{
    match zoned {
        Some(m) => mapping_to_instant(m),
        None => mapping_to_instant(in_utc),
    }
}

/// The zone named by the property's first `TZID` parameter, or `UTC`.
pub fn property_zone(p: &Property) -> (r: String)
    ensures
        r@ == zone_name(*p),
{
    match p.params.as_ref() {
        Some(ps) => {
            let mut i: usize = 0;
            let key = String::from_str("TZID");
            while i < ps.len()
                invariant
                    i <= ps.len(),
                    key@ == "TZID"@,
                    p.params == Some(*ps),
                    first_tzid(ps@.take(i as int)) is None,
                decreases ps.len() - i,
            {
                assert(ps@.take(i as int + 1).drop_last() =~= ps@.take(i as int));
                if ps[i].0.eq(&key) {
                    assert(ps@.take(i as int + 1).last() == ps@[i as int]);
                    assert(first_tzid(ps@.take(i as int + 1)) == Some(i as int));
                    proof {
                        lemma_first_tzid_stable(ps@, i as int + 1);
                    }
                    let joined = join_strings(&ps[i].1, ",");
                    return joined;
                }
                i = i + 1;
            }
            assert(ps@.take(ps.len() as int) =~= ps@);
            String::from_str("UTC")
        },
        None => String::from_str("UTC"),
    }
}

proof fn lemma_first_tzid_stable(ps: Seq<(String, Vec<String>)>, k: int)
    requires
        0 <= k <= ps.len(),
        first_tzid(ps.take(k)) is Some,
    ensures
        first_tzid(ps) == first_tzid(ps.take(k)),
    decreases ps.len() - k,
{
    if k < ps.len() {
        assert(ps.take(k + 1).drop_last() =~= ps.take(k));
        lemma_first_tzid_stable(ps, k + 1);
    } else {
        assert(ps.take(k) =~= ps);
    }
}

/// The instant a date or date-time property stands for.
pub fn ical_property_to_datetime(p: &Property) -> (r: Result<Option<i64>, DateTimeError>)
    ensures
        r == instant_of(*p),
{
    match &p.value {
        None => Ok(None),
        Some(v) => {
            let mut text = v.clone();
            if v.unicode_len() == 8 {
                text.append("T000000");
            }
            let zone = property_zone(p);
            match parse_local(text.as_str(), "%Y%m%dT%H%M%S") {
                None => Err(DateTimeError::Malformed),
                Some(dt) => {
                    let utc = String::from_str("UTC");
                    let mapped = if !zone.eq(&utc) {
                        map_local(zone.as_str(), dt)
                    } else {
                        None
                    };
                    let in_utc = match map_local("UTC", dt) {
                        Some(m) => m,
                        None => LocalMapping::Unmapped,
                    };
                    zone_or_utc_instant(mapped, in_utc)
                },
            }
        },
    }
}

} // verus!
