//! The stored records. Instants are seconds since the Unix epoch, UTC.
use vstd::prelude::*;

verus! {

#[derive(Debug, PartialEq, Eq)]
pub struct User {
    pub id: i64,
    pub username: String,
    pub created_at: i64,
    pub updated_at: i64,
}

#[derive(Debug, PartialEq, Eq)]
pub struct Calendar {
    pub id: i64,
    pub user_id: i64,
    pub name: String,
    pub color: Option<String>,
}

#[derive(Debug, PartialEq, Eq)]
pub struct CalendarSource {
    pub id: i64,
    pub calendar_id: i64,
    pub caldav_url: Option<String>,
    pub sync_token: Option<String>,
    pub created_at: i64,
    pub updated_at: i64,
}

#[derive(Debug, PartialEq, Eq)]
pub struct CalendarShare {
    pub id: i64,
    pub calendar_id: i64,
    pub url_slug: String,
    pub created_at: i64,
    pub updated_at: i64,
}

/// The identity anchor of an event; `current_version_id` names its latest version.
#[derive(Clone, Copy, Debug, PartialEq, Eq)]
pub struct Event {
    pub id: i64,
    pub current_version_id: Option<i64>,
    pub created_at: i64,
    pub updated_at: i64,
}

/// An immutable snapshot of an event's fields.
#[derive(Debug, PartialEq, Eq)]
pub struct EventVersion {
    pub id: i64,
    pub event_id: i64,
    pub version: i32,
    pub summary: Option<String>,
    pub description: Option<String>,
    pub dtstart: Option<i64>,
    pub dtend: Option<i64>,
    pub duration: Option<String>,
    pub rrule: Option<String>,
    pub rdate: Option<String>,
    pub exdate: Option<String>,
    pub status: Option<String>,
    pub organizer: Option<String>,
    pub location: Option<String>,
    pub url: Option<String>,
    pub class: Option<String>,
    pub priority: Option<i32>,
    pub transp: Option<String>,
    pub sequence: Option<i32>,
    pub raw_data: String,
    pub created_at: i64,
    pub last_retrieved_at: i64,
}

/// Binds an external UID, within one sync domain, to an event.
#[derive(Debug, PartialEq, Eq)]
pub struct EventUid {
    pub id: i64,
    pub event_id: i64,
    pub uid: String,
    pub sync_domain: String,
    pub created_at: i64,
}

#[derive(Debug, PartialEq, Eq)]
pub struct EventAttendee {
    pub id: i64,
    pub event_version_id: i64,
    pub attendee: String,
    pub role: Option<String>,
    pub partstat: Option<String>,
    pub rsvp: Option<String>,
    pub created_at: i64,
}

#[derive(Debug, PartialEq, Eq)]
pub struct EventAlarm {
    pub id: i64,
    pub event_version_id: i64,
    pub action: String,
    pub trigger: String,
    pub description: Option<String>,
    pub created_at: i64,
}

#[derive(Debug, PartialEq, Eq)]
pub struct Freebusy {
    pub id: i64,
    pub event_version_id: i64,
    pub fbtype: String,
    pub start_time: i64,
    pub end_time: i64,
    pub created_at: i64,
}

} // verus!
