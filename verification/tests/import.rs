use gnomon::ical_import::days_from_civil;
use gnomon::ical_source::{extract_ical_refresh_interval_secs, translate_icalendar};
use gnomon::import_value::{ImportRecord, ImportValue};
use gnomon::jscal_source::translate_jscalendar;

fn get_field<'a>(record: &'a ImportRecord, name: &str) -> &'a ImportValue {
    record.get(name).unwrap()
}

fn has_field(record: &ImportRecord, name: &str) -> bool {
    record.contains_key(name)
}

/// Helper to extract the calendar record and its entries from an iCal result.
fn split_ical_result(result: &ImportValue) -> (&ImportRecord, Vec<&ImportRecord>) {
    let calendars = match result {
        ImportValue::List(items) => items,
        _ => panic!("expected list, got {result:?}"),
    };
    assert_eq!(calendars.len(), 1, "expected singleton list");
    let cal = match &calendars[0] {
        ImportValue::Record(r) => r,
        _ => panic!("expected record"),
    };
    assert_eq!(
        get_field(cal, "type"),
        &ImportValue::String("calendar".into()),
    );
    let entries: Vec<&ImportRecord> = match get_field(cal, "entries") {
        ImportValue::List(items) => items
            .iter()
            .map(|item| match item {
                ImportValue::Record(r) => r,
                _ => panic!("expected record"),
            })
            .collect(),
        _ => panic!("expected entries list"),
    };
    (cal, entries)
}

// ── iCalendar tests ──────────────────────────────────────

#[test]
fn ical_minimal_event() {
    let ics = "\
BEGIN:VCALENDAR\r\n\
VERSION:2.0\r\n\
PRODID:-//Test//Test//EN\r\n\
BEGIN:VEVENT\r\n\
UID:test-uid-123\r\n\
SUMMARY:Team Meeting\r\n\
DTSTART:20260315T140000\r\n\
DURATION:PT1H30M\r\n\
END:VEVENT\r\n\
END:VCALENDAR\r\n";

    let result = translate_icalendar(ics).unwrap();
    let (cal, entries) = split_ical_result(&result);

    // Calendar record.
    assert_eq!(
        get_field(cal, "prod_id"),
        &ImportValue::String("-//Test//Test//EN".into())
    );

    // Event record.
    assert_eq!(entries.len(), 1);
    let rec = entries[0];
    assert_eq!(get_field(rec, "type"), &ImportValue::String("event".into()));
    assert_eq!(
        get_field(rec, "uid"),
        &ImportValue::String("test-uid-123".into())
    );
    assert_eq!(
        get_field(rec, "title"),
        &ImportValue::String("Team Meeting".into())
    );
    assert!(has_field(rec, "start"));
    assert!(has_field(rec, "duration"));

    // Check start datetime structure.
    match get_field(rec, "start") {
        ImportValue::Record(dt) => {
            match get_field(dt, "date") {
                ImportValue::Record(d) => {
                    assert_eq!(get_field(d, "year"), &ImportValue::Integer(2026));
                    assert_eq!(get_field(d, "month"), &ImportValue::Integer(3));
                    assert_eq!(get_field(d, "day"), &ImportValue::Integer(15));
                }
                _ => panic!("expected date record"),
            }
            match get_field(dt, "time") {
                ImportValue::Record(t) => {
                    assert_eq!(get_field(t, "hour"), &ImportValue::Integer(14));
                    assert_eq!(get_field(t, "minute"), &ImportValue::Integer(0));
                }
                _ => panic!("expected time record"),
            }
        }
        _ => panic!("expected start record"),
    }

    // Check duration structure.
    match get_field(rec, "duration") {
        ImportValue::Record(dur) => {
            assert_eq!(get_field(dur, "hours"), &ImportValue::Integer(1));
            assert_eq!(get_field(dur, "minutes"), &ImportValue::Integer(30));
        }
        _ => panic!("expected duration record"),
    }
}

#[test]
fn ical_minimal_todo() {
    let ics = "\
BEGIN:VCALENDAR\r\n\
VERSION:2.0\r\n\
PRODID:-//Test//Test//EN\r\n\
BEGIN:VTODO\r\n\
UID:todo-1\r\n\
SUMMARY:Buy groceries\r\n\
DUE:20260320T170000\r\n\
PERCENT-COMPLETE:25\r\n\
END:VTODO\r\n\
END:VCALENDAR\r\n";

    let result = translate_icalendar(ics).unwrap();
    let (_cal, entries) = split_ical_result(&result);
    assert_eq!(entries.len(), 1);
    let rec = entries[0];
    assert_eq!(get_field(rec, "type"), &ImportValue::String("task".into()));
    assert_eq!(get_field(rec, "uid"), &ImportValue::String("todo-1".into()));
    assert_eq!(
        get_field(rec, "title"),
        &ImportValue::String("Buy groceries".into())
    );
    assert!(has_field(rec, "due"));
    assert_eq!(
        get_field(rec, "percent_complete"),
        &ImportValue::Integer(25)
    );
}

#[test]
fn ical_parse_error() {
    let result = translate_icalendar("not valid icalendar");
    assert!(result.is_err());
}

#[test]
fn ical_event_with_dtend() {
    let ics = "\
BEGIN:VCALENDAR\r\n\
VERSION:2.0\r\n\
PRODID:-//Test//Test//EN\r\n\
BEGIN:VEVENT\r\n\
UID:dtend-test\r\n\
SUMMARY:Meeting\r\n\
DTSTART:20260315T140000\r\n\
DTEND:20260315T153000\r\n\
END:VEVENT\r\n\
END:VCALENDAR\r\n";

    let result = translate_icalendar(ics).unwrap();
    let (_cal, entries) = split_ical_result(&result);
    let rec = entries[0];
    // Duration should be computed from DTEND - DTSTART = 1h30m.
    match get_field(rec, "duration") {
        ImportValue::Record(dur) => {
            assert_eq!(get_field(dur, "hours"), &ImportValue::Integer(1));
            assert_eq!(get_field(dur, "minutes"), &ImportValue::Integer(30));
            assert_eq!(get_field(dur, "seconds"), &ImportValue::Integer(0));
        }
        _ => panic!("expected duration record"),
    }
}

#[test]
fn ical_vcalendar_properties() {
    let ics = "\
BEGIN:VCALENDAR\r\n\
VERSION:2.0\r\n\
PRODID:-//Acme//Calendar//EN\r\n\
NAME:Work Calendar\r\n\
COLOR:indigo\r\n\
BEGIN:VEVENT\r\n\
UID:e1\r\n\
SUMMARY:Test\r\n\
DTSTART:20260101T000000\r\n\
END:VEVENT\r\n\
END:VCALENDAR\r\n";

    let result = translate_icalendar(ics).unwrap();
    let (cal, _entries) = split_ical_result(&result);
    assert_eq!(
        get_field(cal, "prod_id"),
        &ImportValue::String("-//Acme//Calendar//EN".into())
    );
    assert_eq!(
        get_field(cal, "name"),
        &ImportValue::String("Work Calendar".into())
    );
    assert_eq!(
        get_field(cal, "color"),
        &ImportValue::String("indigo".into())
    );
}

#[test]
fn ical_x_properties_on_event() {
    let ics = "\
BEGIN:VCALENDAR\r\n\
VERSION:2.0\r\n\
PRODID:-//Test//Test//EN\r\n\
BEGIN:VEVENT\r\n\
UID:xprop-test\r\n\
SUMMARY:Test Event\r\n\
DTSTART:20260101T000000\r\n\
X-CUSTOM-FIELD:hello world\r\n\
END:VEVENT\r\n\
END:VCALENDAR\r\n";

    let result = translate_icalendar(ics).unwrap();
    let (_cal, entries) = split_ical_result(&result);
    let rec = entries[0];
    assert_eq!(
        get_field(rec, "x_custom_field"),
        &ImportValue::String("hello world".into())
    );
}

#[test]
fn ical_expanded_event_properties() {
    let ics = "\
BEGIN:VCALENDAR\r\n\
VERSION:2.0\r\n\
PRODID:-//Test//Test//EN\r\n\
BEGIN:VEVENT\r\n\
UID:expanded-1\r\n\
SUMMARY:Full Event\r\n\
DTSTART:20260315T140000\r\n\
DTSTAMP:20260101T120000Z\r\n\
CREATED:20260101T100000Z\r\n\
LAST-MODIFIED:20260102T080000Z\r\n\
CLASS:CONFIDENTIAL\r\n\
TRANSP:TRANSPARENT\r\n\
SEQUENCE:3\r\n\
GEO:48.856614;2.352222\r\n\
URL:https://example.com/event\r\n\
ORGANIZER:mailto:boss@example.com\r\n\
COMMENT:First comment\r\n\
COMMENT:Second comment\r\n\
ATTENDEE:mailto:alice@example.com\r\n\
ATTENDEE:mailto:bob@example.com\r\n\
END:VEVENT\r\n\
END:VCALENDAR\r\n";

    let result = translate_icalendar(ics).unwrap();
    let (_cal, entries) = split_ical_result(&result);
    let rec = entries[0];

    assert!(has_field(rec, "dtstamp"));
    assert!(has_field(rec, "created"));
    assert!(has_field(rec, "last_modified"));

    assert_eq!(
        get_field(rec, "class"),
        &ImportValue::String("confidential".into())
    );
    assert_eq!(
        get_field(rec, "transparency"),
        &ImportValue::String("transparent".into())
    );
    assert_eq!(get_field(rec, "sequence"), &ImportValue::SignedInteger(3));
    assert_eq!(
        get_field(rec, "url"),
        &ImportValue::String("https://example.com/event".into())
    );
    assert_eq!(
        get_field(rec, "organizer"),
        &ImportValue::String("mailto:boss@example.com".into())
    );

    // GEO.
    match get_field(rec, "geo") {
        ImportValue::Record(geo) => {
            assert!(has_field(geo, "latitude"));
            assert!(has_field(geo, "longitude"));
        }
        _ => panic!("expected geo record"),
    }

    // Comments.
    match get_field(rec, "comments") {
        ImportValue::List(items) => {
            assert_eq!(items.len(), 2);
            assert_eq!(items[0], ImportValue::String("First comment".into()));
            assert_eq!(items[1], ImportValue::String("Second comment".into()));
        }
        _ => panic!("expected comments list"),
    }

    // Attendees.
    match get_field(rec, "attendees") {
        ImportValue::List(items) => {
            assert_eq!(items.len(), 2);
            assert_eq!(
                items[0],
                ImportValue::String("mailto:alice@example.com".into())
            );
        }
        _ => panic!("expected attendees list"),
    }
}

#[test]
fn ical_rrule_event() {
    let ics = "\
BEGIN:VCALENDAR\r\n\
VERSION:2.0\r\n\
PRODID:-//Test//Test//EN\r\n\
BEGIN:VEVENT\r\n\
UID:rrule-1\r\n\
SUMMARY:Weekly Meeting\r\n\
DTSTART:20260315T140000\r\n\
RRULE:FREQ=WEEKLY;COUNT=10;BYDAY=MO,WE,FR\r\n\
END:VEVENT\r\n\
END:VCALENDAR\r\n";

    let result = translate_icalendar(ics).unwrap();
    let (_cal, entries) = split_ical_result(&result);
    let rec = entries[0];

    assert!(has_field(rec, "recur"));
    match get_field(rec, "recur") {
        ImportValue::Record(rrule) => {
            assert_eq!(
                get_field(rrule, "frequency"),
                &ImportValue::String("weekly".into())
            );
            assert_eq!(get_field(rrule, "count"), &ImportValue::Integer(10));
            assert!(has_field(rrule, "by_day"));
        }
        _ => panic!("expected recur record"),
    }
}

#[test]
fn ical_todo_completed() {
    let ics = "\
BEGIN:VCALENDAR\r\n\
VERSION:2.0\r\n\
PRODID:-//Test//Test//EN\r\n\
BEGIN:VTODO\r\n\
UID:todo-completed-1\r\n\
SUMMARY:Done task\r\n\
STATUS:COMPLETED\r\n\
COMPLETED:20260301T120000Z\r\n\
END:VTODO\r\n\
END:VCALENDAR\r\n";

    let result = translate_icalendar(ics).unwrap();
    let (_cal, entries) = split_ical_result(&result);
    let rec = entries[0];
    assert_eq!(
        get_field(rec, "status"),
        &ImportValue::String("completed".into())
    );
    assert!(has_field(rec, "completed"));
}

// ── JSCalendar tests ─────────────────────────────────────

#[test]
fn jscal_minimal_event() {
    let json = r#"{
        "@type": "Event",
        "uid": "jscal-uid-1",
        "updated": "2020-01-02T18:23:04Z",
        "title": "Lunch",
        "start": "2026-03-15T12:00:00",
        "duration": "PT1H"
    }"#;

    let result = translate_jscalendar(json).unwrap();
    let rec = match &result {
        ImportValue::Record(r) => r,
        _ => panic!("expected record"),
    };
    assert_eq!(get_field(rec, "type"), &ImportValue::String("event".into()));
    assert_eq!(
        get_field(rec, "uid"),
        &ImportValue::String("jscal-uid-1".into())
    );
    assert_eq!(
        get_field(rec, "title"),
        &ImportValue::String("Lunch".into())
    );
    // start should be desugared to datetime record.
    match get_field(rec, "start") {
        ImportValue::Record(dt) => {
            assert!(has_field(dt, "date"));
            assert!(has_field(dt, "time"));
        }
        _ => panic!("expected start record"),
    }
    // duration should be desugared.
    match get_field(rec, "duration") {
        ImportValue::Record(dur) => {
            assert_eq!(get_field(dur, "hours"), &ImportValue::Integer(1));
        }
        _ => panic!("expected duration record"),
    }
}

#[test]
fn jscal_task() {
    let json = r#"{
        "@type": "Task",
        "uid": "task-1",
        "updated": "2020-01-02T18:23:04Z",
        "title": "Do laundry",
        "due": "2026-03-20T18:00:00"
    }"#;

    let result = translate_jscalendar(json).unwrap();
    let rec = match &result {
        ImportValue::Record(r) => r,
        _ => panic!("expected record"),
    };
    assert_eq!(get_field(rec, "type"), &ImportValue::String("task".into()));
    assert_eq!(get_field(rec, "uid"), &ImportValue::String("task-1".into()));
    assert!(has_field(rec, "due"));
}

#[test]
fn jscal_passthrough_unknown_fields() {
    let json = r#"{
        "@type": "Event",
        "uid": "e1",
        "updated": "2020-01-02T18:23:04Z",
        "title": "Test",
        "start": "2026-01-01T00:00:00",
        "example.com:customField": "custom value",
        "example.com:nestedObj": { "a": 1, "b": true }
    }"#;

    let result = translate_jscalendar(json).unwrap();
    let rec = match &result {
        ImportValue::Record(r) => r,
        _ => panic!("expected record"),
    };
    assert_eq!(
        get_field(rec, "example.com:customField"),
        &ImportValue::String("custom value".into())
    );
    match get_field(rec, "example.com:nestedObj") {
        ImportValue::Record(nested) => {
            assert_eq!(get_field(nested, "a"), &ImportValue::Integer(1));
            assert_eq!(get_field(nested, "b"), &ImportValue::Bool(true));
        }
        _ => panic!("expected nested record"),
    }
}

#[test]
fn jscal_array_of_objects() {
    let json = r#"[
        { "@type": "Event", "uid": "e1", "updated": "2020-01-02T18:23:04Z", "title": "A", "start": "2026-01-01T00:00:00" },
        { "@type": "Event", "uid": "e2", "updated": "2020-01-02T18:23:04Z", "title": "B", "start": "2026-01-01T00:00:00" }
    ]"#;

    let result = translate_jscalendar(json).unwrap();
    match &result {
        ImportValue::List(items) => assert_eq!(items.len(), 2),
        _ => panic!("expected list"),
    }
}

#[test]
fn jscal_parse_error() {
    let result = translate_jscalendar("not json{");
    assert!(result.is_err());
}

#[test]
fn ical_event_priority() {
    let ics = "\
BEGIN:VCALENDAR\r\n\
VERSION:2.0\r\n\
PRODID:-//Test//EN\r\n\
BEGIN:VEVENT\r\n\
UID:prio-ev1\r\n\
SUMMARY:Priority Event\r\n\
DTSTART:20260315T120000\r\n\
DURATION:PT1H\r\n\
PRIORITY:1\r\n\
END:VEVENT\r\n\
END:VCALENDAR\r\n";

    let result = translate_icalendar(ics).unwrap();
    let (_, entries) = split_ical_result(&result);
    assert_eq!(entries.len(), 1);
    assert_eq!(*get_field(entries[0], "priority"), ImportValue::Integer(1));
}

#[test]
fn jscal_event_priority() {
    let json = r#"{
        "@type": "Event",
        "uid": "prio-js-1",
        "title": "Priority Event",
        "start": "2026-03-15T12:00:00",
        "duration": "PT1H",
        "priority": 3
    }"#;

    let result = translate_jscalendar(json).unwrap();
    match &result {
        ImportValue::Record(r) => {
            assert_eq!(*get_field(r, "priority"), ImportValue::Integer(3));
        }
        _ => panic!("expected record"),
    }
}

// ── days_from_civil / compute_duration_from_endpoints accuracy tests ──

#[test]
fn days_from_civil_known_values() {
    // Consecutive days differ by 1.
    assert_eq!(days_from_civil(2000, 3, 2) - days_from_civil(2000, 3, 1), 1);
    // 1970-01-01 to 2000-03-01 = 11017 days.
    assert_eq!(
        days_from_civil(2000, 3, 1) - days_from_civil(1970, 1, 1),
        11017
    );
    // Full year (non-leap): 2025-01-01 to 2026-01-01 = 365 days.
    assert_eq!(
        days_from_civil(2026, 1, 1) - days_from_civil(2025, 1, 1),
        365
    );
    // Full year (leap): 2024-01-01 to 2025-01-01 = 366 days.
    assert_eq!(
        days_from_civil(2025, 1, 1) - days_from_civil(2024, 1, 1),
        366
    );
}

#[test]
fn days_from_civil_month_lengths() {
    // Jan has 31 days: 2026-01-01 to 2026-02-01 = 31 days.
    let jan1 = days_from_civil(2026, 1, 1);
    let feb1 = days_from_civil(2026, 2, 1);
    assert_eq!(feb1 - jan1, 31);

    // Feb 2026 is not a leap year: 2026-02-01 to 2026-03-01 = 28 days.
    let mar1 = days_from_civil(2026, 3, 1);
    assert_eq!(mar1 - feb1, 28);

    // Feb 2024 IS a leap year: 2024-02-01 to 2024-03-01 = 29 days.
    let feb1_leap = days_from_civil(2024, 2, 1);
    let mar1_leap = days_from_civil(2024, 3, 1);
    assert_eq!(mar1_leap - feb1_leap, 29);
}

#[test]
fn duration_across_month_boundary_non_leap() {
    // 2026-01-31 00:00 to 2026-03-01 00:00 = 29 days (Jan has 31, Feb has 28).
    let ics = "\
BEGIN:VCALENDAR\r\n\
VERSION:2.0\r\n\
PRODID:-//Test//Test//EN\r\n\
BEGIN:VEVENT\r\n\
UID:cross-month-1\r\n\
SUMMARY:Cross Month\r\n\
DTSTART:20260131T000000\r\n\
DTEND:20260301T000000\r\n\
END:VEVENT\r\n\
END:VCALENDAR\r\n";

    let result = translate_icalendar(ics).unwrap();
    let (_cal, entries) = split_ical_result(&result);
    let rec = entries[0];
    match get_field(rec, "duration") {
        ImportValue::Record(dur) => {
            assert_eq!(get_field(dur, "days"), &ImportValue::Integer(29));
            assert_eq!(get_field(dur, "hours"), &ImportValue::Integer(0));
            assert_eq!(get_field(dur, "minutes"), &ImportValue::Integer(0));
            assert_eq!(get_field(dur, "seconds"), &ImportValue::Integer(0));
        }
        _ => panic!("expected duration record"),
    }
}

#[test]
fn duration_across_month_boundary_leap_year() {
    // 2024-01-31 00:00 to 2024-03-01 00:00 = 30 days (Jan has 31, Feb has 29 in leap year).
    let ics = "\
BEGIN:VCALENDAR\r\n\
VERSION:2.0\r\n\
PRODID:-//Test//Test//EN\r\n\
BEGIN:VEVENT\r\n\
UID:cross-month-leap\r\n\
SUMMARY:Leap Year Cross Month\r\n\
DTSTART:20240131T000000\r\n\
DTEND:20240301T000000\r\n\
END:VEVENT\r\n\
END:VCALENDAR\r\n";

    let result = translate_icalendar(ics).unwrap();
    let (_cal, entries) = split_ical_result(&result);
    let rec = entries[0];
    match get_field(rec, "duration") {
        ImportValue::Record(dur) => {
            assert_eq!(get_field(dur, "days"), &ImportValue::Integer(30));
            assert_eq!(get_field(dur, "hours"), &ImportValue::Integer(0));
            assert_eq!(get_field(dur, "minutes"), &ImportValue::Integer(0));
            assert_eq!(get_field(dur, "seconds"), &ImportValue::Integer(0));
        }
        _ => panic!("expected duration record"),
    }
}

#[test]
fn duration_multi_day_with_time() {
    // 2026-03-15 14:00:00 to 2026-03-17 09:30:00 = 1 day, 19h, 30m.
    let ics = "\
BEGIN:VCALENDAR\r\n\
VERSION:2.0\r\n\
PRODID:-//Test//Test//EN\r\n\
BEGIN:VEVENT\r\n\
UID:multi-day-time\r\n\
SUMMARY:Multi-Day\r\n\
DTSTART:20260315T140000\r\n\
DTEND:20260317T093000\r\n\
END:VEVENT\r\n\
END:VCALENDAR\r\n";

    let result = translate_icalendar(ics).unwrap();
    let (_cal, entries) = split_ical_result(&result);
    let rec = entries[0];
    match get_field(rec, "duration") {
        ImportValue::Record(dur) => {
            assert_eq!(get_field(dur, "days"), &ImportValue::Integer(1));
            assert_eq!(get_field(dur, "hours"), &ImportValue::Integer(19));
            assert_eq!(get_field(dur, "minutes"), &ImportValue::Integer(30));
            assert_eq!(get_field(dur, "seconds"), &ImportValue::Integer(0));
        }
        _ => panic!("expected duration record"),
    }
}

#[test]
fn ical_refresh_interval_of_first_calendar() {
    let with = |line: &str| {
        format!(
            "BEGIN:VCALENDAR\r\nVERSION:2.0\r\nPRODID:-//T//T//EN\r\n{}END:VCALENDAR\r\n",
            line
        )
    };
    let hour = with("REFRESH-INTERVAL;VALUE=DURATION:PT1H\r\n");
    assert_eq!(extract_ical_refresh_interval_secs(&hour), Some(3600));
    let week = with("REFRESH-INTERVAL;VALUE=DURATION:P1W1DT2M3S\r\n");
    assert_eq!(extract_ical_refresh_interval_secs(&week), Some(604_800 + 86_400 + 123));
    let negative = with("REFRESH-INTERVAL;VALUE=DURATION:-PT1H\r\n");
    assert_eq!(extract_ical_refresh_interval_secs(&negative), None);
    assert_eq!(extract_ical_refresh_interval_secs(&with("")), None);
    assert_eq!(extract_ical_refresh_interval_secs("not a calendar"), None);
    let two = format!("{}{}", with(""), hour);
    assert_eq!(extract_ical_refresh_interval_secs(&two), None);
}

fn month(n: u64) -> ImportValue {
    let mut r = ImportRecord::new();
    r.insert("leap".to_string(), ImportValue::Bool(false));
    r.insert("month".to_string(), ImportValue::Integer(n));
    ImportValue::Record(r)
}

#[test]
fn ical_rrule_by_sets_as_lists() {
    let ics = "\
BEGIN:VCALENDAR\r\n\
VERSION:2.0\r\n\
PRODID:-//Test//Test//EN\r\n\
BEGIN:VEVENT\r\n\
UID:rrule-2\r\n\
DTSTART:20260315T140000\r\n\
RRULE:FREQ=YEARLY;INTERVAL=2;BYMONTH=1,6;BYHOUR=9,17\r\n\
END:VEVENT\r\n\
END:VCALENDAR\r\n";

    let result = translate_icalendar(ics).unwrap();
    let (_cal, entries) = split_ical_result(&result);
    match get_field(entries[0], "recur") {
        ImportValue::Record(rrule) => {
            assert_eq!(get_field(rrule, "frequency"), &ImportValue::String("yearly".into()));
            assert_eq!(get_field(rrule, "interval"), &ImportValue::Integer(2));
            assert_eq!(
                get_field(rrule, "by_month"),
                &ImportValue::List(vec![month(1), month(6)])
            );
            assert_eq!(
                get_field(rrule, "by_hour"),
                &ImportValue::List(vec![ImportValue::Integer(9), ImportValue::Integer(17)])
            );
            assert!(!has_field(rrule, "by_minute"));
        }
        _ => panic!("expected recur record"),
    }
}

#[test]
fn jscal_group_gives_its_entries() {
    let json = r#"{
        "@type": "Group", "uid": "g1",
        "entries": [
            { "@type": "Event", "uid": "e1", "updated": "2020-01-02T18:23:04Z", "title": "A", "start": "2026-01-01T00:00:00" },
            { "@type": "Task", "uid": "t1", "updated": "2020-01-02T18:23:04Z", "title": "B" }
        ]
    }"#;
    match translate_jscalendar(json).unwrap() {
        ImportValue::List(items) => {
            assert_eq!(items.len(), 2);
            match &items[0] {
                ImportValue::Record(r) => assert_eq!(get_field(r, "uid"), &ImportValue::String("e1".into())),
                _ => panic!("expected record"),
            }
            match &items[1] {
                ImportValue::Record(r) => assert_eq!(get_field(r, "uid"), &ImportValue::String("t1".into())),
                _ => panic!("expected record"),
            }
        }
        _ => panic!("expected list"),
    }
    let bad = r#"{ "@type": "Group", "entries": 5 }"#;
    let e = translate_jscalendar(bad).unwrap_err();
    assert!(e.starts_with("JSCalendar parse error: "));
}
