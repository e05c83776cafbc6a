//! The fields of one event version, taken from the event's properties.
use vstd::prelude::*;
use crate::props::{Property, first_named, named_value, find_property, property_value};
use crate::datetime::{DateTimeError, instant_of, ical_property_to_datetime};
use crate::serialize::{event_text, serialize_event};

verus! {

/// What one event contributes to a new version.
pub struct VersionRecord {
    pub summary: Option<String>,
    pub description: Option<String>,
    pub dtstart: Option<i64>,
    pub dtend: Option<i64>,
    pub raw_data: String,
    pub uid: Option<String>,
}

pub open spec fn opt_view(o: Option<String>) -> Option<Seq<char>> {
    match o {
        Some(s) => Some(s@),
        None => None,
    }
}

/// The instant of the first property named `name`; absent without one.
pub open spec fn named_instant(props: Seq<Property>, name: Seq<char>) -> Result<Option<i64>, DateTimeError> {
    match first_named(props, name) {
        Some(i) => instant_of(props[i]),
        None => Ok(None),
    }
}

/// Whether the start and end can both be read; the start's error comes first.
pub open spec fn record_error(props: Seq<Property>) -> Option<DateTimeError> {
    match named_instant(props, "DTSTART"@) {
        Err(e) => Some(e),
        Ok(_) => match named_instant(props, "DTEND"@) {
            Err(e) => Some(e),
            Ok(_) => None,
        },
    }
}

impl VersionRecord {
    /// The record holds exactly what the event's properties give.
    pub open spec fn describes(self, props: Seq<Property>) -> bool {
        &&& opt_view(self.summary) == named_value(props, "SUMMARY"@)
        &&& opt_view(self.description) == named_value(props, "DESCRIPTION"@)
        &&& opt_view(self.uid) == named_value(props, "UID"@)
        &&& named_instant(props, "DTSTART"@) == Ok::<Option<i64>, DateTimeError>(self.dtstart)
        &&& named_instant(props, "DTEND"@) == Ok::<Option<i64>, DateTimeError>(self.dtend)
        &&& self.raw_data@ == event_text(props)
    }
}

/// The instant of the first property named `name`.
pub fn named_datetime(props: &Vec<Property>, name: &str) -> (r: Result<Option<i64>, DateTimeError>)
    ensures
        r == named_instant(props@, name@),
{
    match find_property(props, name) {
        Some(i) => ical_property_to_datetime(&props[i]),
        None => Ok(None),
    }
}

/// Extracts summary, description, UID, start and end, and renders the raw
/// text; fails where the start or the end cannot be read.
pub fn extract_record(props: &Vec<Property>) -> (r: Result<VersionRecord, DateTimeError>)
    ensures
        r matches Err(e) ==> record_error(props@) == Some(e),
        r matches Ok(rec) ==> record_error(props@) is None && rec.describes(props@),
{
    let summary = property_value(props, "SUMMARY");
    let description = property_value(props, "DESCRIPTION");
    let dtstart = match named_datetime(props, "DTSTART") {
        Ok(t) => t,
        Err(e) => return Err(e),
    };
    let dtend = match named_datetime(props, "DTEND") {
        Ok(t) => t,
        Err(e) => return Err(e),
    };
    let uid = property_value(props, "UID");
    let raw_data = serialize_event(props);
    Ok(VersionRecord { summary, description, dtstart, dtend, raw_data, uid })
}

} // verus!
