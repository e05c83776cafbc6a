//! Ingestion and versioning core for calendar data in the iCalendar format.

pub mod props;
pub mod datetime;
pub mod serialize;
pub mod ics;
pub mod models;
pub mod record;
pub mod store;
