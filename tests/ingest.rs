use calsync::datetime::{ical_property_to_datetime, mapping_to_instant, zone_or_utc_instant, DateTimeError, LocalMapping};
use calsync::ics::parse_events;
use calsync::models::Event;
use calsync::props::{find_property, join_strings, property_value, Property};
use calsync::record::extract_record;
use calsync::serialize::{render_params, serialize_event};
use calsync::store::{import_events, import_ics, next_version, plan_version, EventTarget, ImportError, Store, VersionPlan};

const MIDNIGHT_2024_01_15: i64 = 1705276800;

fn prop(name: &str, params: Option<Vec<(&str, Vec<&str>)>>, value: Option<&str>) -> Property {
    Property {
        name: name.to_string(),
        params: params.map(|ps| {
            ps.into_iter()
                .map(|(k, vs)| (k.to_string(), vs.into_iter().map(|v| v.to_string()).collect()))
                .collect()
        }),
        value: value.map(|v| v.to_string()),
    }
}

fn calendar(body: &str) -> String {
    format!("BEGIN:VCALENDAR\r\nVERSION:2.0\r\nPRODID:-//test//test//EN\r\n{}END:VCALENDAR\r\n", body)
}

const MEETING: &str = "BEGIN:VEVENT\r\nUID:abc123\r\nSUMMARY:Meeting\r\nDTSTART;TZID=America/New_York:20240115T090000\r\nDTEND;TZID=America/New_York:20240115T100000\r\nEND:VEVENT\r\n";

#[test]
fn lookup_takes_first_match_case_sensitively() {
    let props = vec![
        prop("summary", None, Some("lower")),
        prop("SUMMARY", None, Some("first")),
        prop("SUMMARY", None, Some("second")),
        prop("DESCRIPTION", None, None),
    ];
    assert_eq!(find_property(&props, "SUMMARY"), Some(1));
    assert_eq!(property_value(&props, "SUMMARY"), Some("first".to_string()));
    assert_eq!(property_value(&props, "DESCRIPTION"), None);
    assert_eq!(property_value(&props, "UID"), None);
    assert_eq!(find_property(&props, "UID"), None);
}

#[test]
fn join_puts_separator_between_parts() {
    let parts = vec!["a".to_string(), "b".to_string(), "c".to_string()];
    assert_eq!(join_strings(&parts, ","), "a,b,c");
    assert_eq!(join_strings(&Vec::new(), ","), "");
}

#[test]
fn date_only_value_is_midnight_utc() {
    let p = prop("DTSTART", None, Some("20240115"));
    assert_eq!(ical_property_to_datetime(&p), Ok(Some(MIDNIGHT_2024_01_15)));
}

#[test]
fn date_only_value_is_midnight_in_its_zone() {
    let p = prop("DTSTART", Some(vec![("TZID", vec!["America/New_York"])]), Some("20240115"));
    assert_eq!(ical_property_to_datetime(&p), Ok(Some(MIDNIGHT_2024_01_15 + 5 * 3600)));
}

#[test]
fn known_zone_applies_its_offset() {
    let p = prop("DTSTART", Some(vec![("TZID", vec!["America/New_York"])]), Some("20240115T090000"));
    assert_eq!(ical_property_to_datetime(&p), Ok(Some(MIDNIGHT_2024_01_15 + 14 * 3600)));
    let summer = prop("DTSTART", Some(vec![("TZID", vec!["Europe/Paris"])]), Some("20240715T120000"));
    assert_eq!(ical_property_to_datetime(&summer), Ok(Some(1721037600)));
}

#[test]
fn unknown_zone_falls_back_to_utc() {
    let p = prop("DTSTART", Some(vec![("TZID", vec!["Nowhere/Special"])]), Some("20240115T090000"));
    assert_eq!(ical_property_to_datetime(&p), Ok(Some(MIDNIGHT_2024_01_15 + 9 * 3600)));
    let multi = prop("DTSTART", Some(vec![("TZID", vec!["America", "New_York"])]), Some("20240115T090000"));
    assert_eq!(ical_property_to_datetime(&multi), Ok(Some(MIDNIGHT_2024_01_15 + 9 * 3600)));
}

#[test]
fn missing_value_gives_no_instant() {
    let p = prop("DTSTART", None, None);
    assert_eq!(ical_property_to_datetime(&p), Ok(None));
}

#[test]
fn malformed_value_is_rejected() {
    let p = prop("DTSTART", None, Some("NOTADATE"));
    assert_eq!(ical_property_to_datetime(&p), Err(DateTimeError::Malformed));
    let bad_month = prop("DTSTART", None, Some("20241315"));
    assert_eq!(ical_property_to_datetime(&bad_month), Err(DateTimeError::Malformed));
}

#[test]
fn daylight_saving_edges_are_rejected() {
    let gap = prop("DTSTART", Some(vec![("TZID", vec!["America/New_York"])]), Some("20240310T023000"));
    assert_eq!(ical_property_to_datetime(&gap), Err(DateTimeError::NonexistentLocalTime));
    let twice = prop("DTSTART", Some(vec![("TZID", vec!["America/New_York"])]), Some("20241103T013000"));
    assert_eq!(ical_property_to_datetime(&twice), Err(DateTimeError::AmbiguousLocalTime));
}

#[test]
fn serializer_renders_lines_in_order() {
    let props = vec![
        prop("UID", None, Some("abc123")),
        prop("DTSTART", Some(vec![("TZID", vec!["America/New_York"]), ("X", vec!["1", "2"])]), Some("20240115T090000")),
        prop("DESCRIPTION", None, None),
        prop("X-EMPTY", Some(vec![]), Some("v")),
    ];
    assert_eq!(render_params(&props[1]), "TZID=America/New_York;X=1,2");
    assert_eq!(
        serialize_event(&props),
        "BEGIN:VEVENT\r\nUID:abc123\r\nDTSTART;TZID=America/New_York;X=1,2:20240115T090000\r\nDESCRIPTION:\r\nX-EMPTY:v\r\nEND:VEVENT\r\n"
    );
    assert_eq!(serialize_event(&Vec::new()), "BEGIN:VEVENT\r\nEND:VEVENT\r\n");
}

#[test]
fn serialized_event_parses_back_to_same_properties() {
    let events = parse_events(&calendar(MEETING)).unwrap();
    assert_eq!(events.len(), 1);
    let raw = serialize_event(&events[0]);
    let again = parse_events(&calendar(&raw)).unwrap();
    assert_eq!(again.len(), 1);
    assert_eq!(again[0], events[0]);
    assert_eq!(events[0][2].params, Some(vec![("TZID".to_string(), vec!["America/New_York".to_string()])]));
}

#[test]
fn malformed_text_is_refused() {
    assert_eq!(parse_events("BEGIN:VEVENT\r\nEND:VCALENDAR\r\n"), None);
    let mut store = Store::new();
    assert_eq!(import_ics(&mut store, "1", "BEGIN:VCALENDAR\r\nBEGIN:VEVENT\r\n", 0), Err(ImportError::Syntax));
    assert_eq!(store.events.len(), 0);
}

#[test]
fn record_holds_extracted_fields() {
    let events = parse_events(&calendar(MEETING)).unwrap();
    let rec = extract_record(&events[0]).unwrap_or_else(|_| panic!("record"));
    assert_eq!(rec.summary, Some("Meeting".to_string()));
    assert_eq!(rec.description, None);
    assert_eq!(rec.uid, Some("abc123".to_string()));
    assert_eq!(rec.dtstart, Some(1705327200));
    assert_eq!(rec.dtend, Some(1705330800));
    assert_eq!(rec.raw_data, MEETING);
}

#[test]
fn import_creates_event_version_and_uid() {
    let mut store = Store::new();
    let ids = import_ics(&mut store, "7", &calendar(MEETING), 100).unwrap();
    assert_eq!(ids, vec![1]);
    assert_eq!(store.events, vec![Event { id: 1, current_version_id: Some(1), created_at: 100, updated_at: 100 }]);
    assert_eq!(store.versions.len(), 1);
    let v = &store.versions[0];
    assert_eq!(v.event_id, 1);
    assert_eq!(v.version, 1);
    assert_eq!(v.summary, Some("Meeting".to_string()));
    assert_eq!(v.dtstart, Some(1705327200));
    assert_eq!(v.dtend, Some(1705330800));
    assert_eq!(v.raw_data, MEETING);
    assert_eq!(store.uids.len(), 1);
    assert_eq!(store.uids[0].uid, "abc123");
    assert_eq!(store.uids[0].sync_domain, "7");
    assert_eq!(store.uids[0].event_id, 1);
}

#[test]
fn date_only_start_imports_as_midnight_utc() {
    let mut store = Store::new();
    let body = "BEGIN:VEVENT\r\nUID:d1\r\nDTSTART:20240115\r\nEND:VEVENT\r\n";
    import_ics(&mut store, "1", &calendar(body), 0).unwrap();
    assert_eq!(store.versions[0].dtstart, Some(MIDNIGHT_2024_01_15));
    assert_eq!(store.versions[0].dtend, None);
}

#[test]
fn unparsable_start_leaves_nothing_behind() {
    let mut store = Store::new();
    let body = "BEGIN:VEVENT\r\nUID:bad\r\nSUMMARY:Broken\r\nDTSTART:NOTADATE\r\nEND:VEVENT\r\n";
    assert_eq!(
        import_ics(&mut store, "1", &calendar(body), 0),
        Err(ImportError::DateTime(DateTimeError::Malformed))
    );
    assert_eq!(store.events.len(), 0);
    assert_eq!(store.versions.len(), 0);
    assert_eq!(store.uids.len(), 0);
}

#[test]
fn failing_event_keeps_earlier_ones() {
    let mut store = Store::new();
    let body = format!("{}BEGIN:VEVENT\r\nUID:bad\r\nDTEND:NOTADATE\r\nEND:VEVENT\r\n", MEETING);
    assert!(import_ics(&mut store, "1", &calendar(&body), 0).is_err());
    assert_eq!(store.events.len(), 1);
    assert_eq!(store.versions.len(), 1);
    assert_eq!(store.uids.len(), 1);
}

#[test]
fn reimport_appends_version_to_same_event() {
    let mut store = Store::new();
    import_ics(&mut store, "7", &calendar(MEETING), 100).unwrap();
    let ids = import_ics(&mut store, "7", &calendar(MEETING), 200).unwrap();
    assert_eq!(ids, vec![2]);
    assert_eq!(store.events.len(), 1);
    assert_eq!(store.uids.len(), 1);
    assert_eq!(store.versions.len(), 2);
    assert_eq!(store.versions[1].event_id, 1);
    assert_eq!(store.versions[1].version, 2);
    assert_eq!(store.events[0], Event { id: 1, current_version_id: Some(2), created_at: 100, updated_at: 200 });
}

#[test]
fn same_uid_in_other_domain_is_another_event() {
    let mut store = Store::new();
    import_ics(&mut store, "7", &calendar(MEETING), 0).unwrap();
    import_ics(&mut store, "8", &calendar(MEETING), 0).unwrap();
    assert_eq!(store.events.len(), 2);
    assert_eq!(store.uids.len(), 2);
    assert_eq!(store.versions[1].version, 1);
}

#[test]
fn events_without_uid_are_always_new() {
    let mut store = Store::new();
    let body = "BEGIN:VEVENT\r\nSUMMARY:Anon\r\nEND:VEVENT\r\n";
    import_ics(&mut store, "1", &calendar(body), 0).unwrap();
    import_ics(&mut store, "1", &calendar(body), 0).unwrap();
    assert_eq!(store.events.len(), 2);
    assert_eq!(store.uids.len(), 0);
}

#[test]
fn version_numbers_count_up() {
    assert_eq!(next_version(None), Some(1));
    assert_eq!(next_version(Some(4)), Some(5));
    assert_eq!(next_version(Some(i32::MAX)), None);
}


#[test]
fn events_import_in_order_without_parsing() {
    let mut store = Store::new();
    let events = vec![
        vec![prop("UID", None, Some("u1")), prop("DTSTART", None, Some("20240115"))],
        vec![prop("SUMMARY", None, Some("no uid"))],
        vec![prop("UID", None, Some("u1")), prop("SUMMARY", None, Some("again"))],
    ];
    let ids = import_events(&mut store, "d", &events, 5).unwrap();
    assert_eq!(ids, vec![1, 2, 3]);
    assert_eq!(store.events.len(), 2);
    assert_eq!(store.versions[2].event_id, 1);
    assert_eq!(store.versions[2].version, 2);
    assert_eq!(store.versions[2].summary, Some("again".to_string()));
    assert_eq!(store.events[0].current_version_id, Some(3));
    assert_eq!(store.versions[1].raw_data, "BEGIN:VEVENT\r\nSUMMARY:no uid\r\nEND:VEVENT\r\n");
}

#[test]
fn mapping_gives_instant_only_when_single() {
    assert_eq!(mapping_to_instant(LocalMapping::Single(42)), Ok(Some(42)));
    assert_eq!(mapping_to_instant(LocalMapping::Unmapped), Err(DateTimeError::NonexistentLocalTime));
    assert_eq!(mapping_to_instant(LocalMapping::Ambiguous(1, 2)), Err(DateTimeError::AmbiguousLocalTime));
}

#[test]
fn resolved_zone_wins_over_utc() {
    assert_eq!(zone_or_utc_instant(Some(LocalMapping::Single(7)), LocalMapping::Single(9)), Ok(Some(7)));
    assert_eq!(zone_or_utc_instant(None, LocalMapping::Single(9)), Ok(Some(9)));
    assert_eq!(
        zone_or_utc_instant(Some(LocalMapping::Ambiguous(1, 2)), LocalMapping::Single(9)),
        Err(DateTimeError::AmbiguousLocalTime)
    );
}

#[test]
fn plan_reuses_known_event_or_creates_one() {
    assert_eq!(
        plan_version(true, None),
        Some(VersionPlan { target: EventTarget::New, version: 1, bind_uid: true })
    );
    assert_eq!(
        plan_version(false, None),
        Some(VersionPlan { target: EventTarget::New, version: 1, bind_uid: false })
    );
    assert_eq!(
        plan_version(true, Some((12, 3))),
        Some(VersionPlan { target: EventTarget::Existing(12), version: 4, bind_uid: false })
    );
    assert_eq!(plan_version(true, Some((12, i32::MAX))), None);
}
