use gnomon::export_values::DtZone;
use gnomon::ical_export::{
    build_event, build_todo, emit_icalendar, handle_x_properties, import_value_to_ical_value,
    IcalEntryOut, RecordKind, XOut,
};
use gnomon::ical_import::{
    IcalClass, IcalFreq, IcalPriority, IcalStatus, IcalTransp, PlainAttachment, PlainDate,
    PlainDtod, PlainDuration, PlainTime,
};
use gnomon::import_value::{ImportRecord, ImportValue};

fn rec(fields: Vec<(&str, ImportValue)>) -> ImportRecord {
    let mut r = ImportRecord::new();
    for (k, v) in fields {
        r.insert(k.to_string(), v);
    }
    r
}

fn num(n: u64) -> ImportValue {
    ImportValue::Integer(n)
}

fn text(s: &str) -> ImportValue {
    ImportValue::String(s.to_string())
}

fn start(y: u64, mo: u64, d: u64, h: u64, mi: u64, s: u64) -> ImportValue {
    ImportValue::Record(rec(vec![
        ("date", ImportValue::Record(rec(vec![("year", num(y)), ("month", num(mo)), ("day", num(d))]))),
        ("time", ImportValue::Record(rec(vec![("hour", num(h)), ("minute", num(mi)), ("second", num(s))]))),
    ]))
}

fn cal(prod_id: &str) -> ImportRecord {
    rec(vec![("type", text("calendar")), ("prod_id", text(prod_id))])
}

#[test]
fn plain_empty_calendar() {
    let mut warnings = Vec::new();
    let out = emit_icalendar(&cal("-//Test//Test//EN"), &[], &mut warnings).unwrap();
    assert_eq!(out.version, "2.0");
    assert_eq!(out.prod_id, "-//Test//Test//EN");
    assert!(out.components.is_empty());
    assert!(out.x_properties.is_empty());
    assert!(warnings.is_empty());
    let out = emit_icalendar(&rec(vec![("type", text("calendar"))]), &[], &mut warnings).unwrap();
    assert_eq!(out.prod_id, "-//gnomon//EN");
}

#[test]
fn plain_minimal_event() {
    let duration = ImportValue::Record(rec(vec![
        ("weeks", num(0)),
        ("days", num(0)),
        ("hours", num(1)),
        ("minutes", num(30)),
        ("seconds", num(0)),
    ]));
    let entry = ImportValue::Record(rec(vec![
        ("type", text("event")),
        ("uid", text("test-event-uid")),
        ("title", text("Team Meeting")),
        ("start", start(2026, 3, 15, 14, 0, 0)),
        ("duration", duration),
    ]));
    let mut warnings = Vec::new();
    let out = emit_icalendar(&cal("-//Test//Test//EN"), &[entry], &mut warnings).unwrap();
    assert_eq!(out.components.len(), 1);
    let IcalEntryOut::Event(e) = &out.components[0] else { panic!("expected an event") };
    assert_eq!(e.uid.as_deref(), Some("test-event-uid"));
    assert_eq!(e.summary.as_deref(), Some("Team Meeting"));
    assert_eq!(
        e.dtstart,
        Some((
            PlainDtod::DateTime(
                PlainDate { year: 2026, month: 3, day: 15 },
                PlainTime { hour: 14, minute: 0, second: 0 }
            ),
            DtZone::Floating
        ))
    );
    assert_eq!(
        e.duration,
        Some(PlainDuration { positive: true, weeks: 0, days: 0, hours: 1, minutes: 30, seconds: 0 })
    );
    assert!(warnings.is_empty());
}

#[test]
fn plain_minimal_task() {
    let entry = ImportValue::Record(rec(vec![
        ("type", text("task")),
        ("uid", text("test-task-uid")),
        ("title", text("Buy groceries")),
        ("percent_complete", num(75)),
    ]));
    let other = ImportValue::Record(rec(vec![("type", text("journal"))]));
    let mut warnings = Vec::new();
    let out = emit_icalendar(&cal("-//Test//Test//EN"), &[other, entry, num(3)], &mut warnings).unwrap();
    assert_eq!(out.components.len(), 1);
    let IcalEntryOut::Todo(t) = &out.components[0] else { panic!("expected a task") };
    assert_eq!(t.uid.as_deref(), Some("test-task-uid"));
    assert_eq!(t.summary.as_deref(), Some("Buy groceries"));
    assert_eq!(t.percent_complete, Some(75));
}

#[test]
fn plain_status_priority_and_class() {
    let r = rec(vec![
        ("status", text("confirmed")),
        ("priority", num(1)),
        ("class", text("confidential")),
        ("transparency", text("transparent")),
        ("color", text("DarkBlue")),
        ("geo", ImportValue::Record(rec(vec![("latitude", text("37.7749")), ("longitude", text("-122.4194"))]))),
    ]);
    let mut warnings = Vec::new();
    let e = build_event(&r, &mut warnings);
    assert_eq!(e.status, Some(IcalStatus::Confirmed));
    assert_eq!(e.priority, Some(IcalPriority::A1));
    assert_eq!(e.class, Some(IcalClass::Confidential));
    assert_eq!(e.transp, Some(IcalTransp::Transparent));
    assert_eq!(e.color.as_deref(), Some("DarkBlue"));
    assert_eq!(e.geo, Some(("37.7749".to_string(), "-122.4194".to_string())));
    let e = build_event(&rec(vec![("color", text("not-a-color"))]), &mut warnings);
    assert_eq!(e.color, None);
    assert!(warnings.is_empty());
}

#[test]
fn plain_weekly_rule() {
    let recur = ImportValue::Record(rec(vec![
        ("frequency", text("weekly")),
        ("count", num(10)),
        ("by_day", ImportValue::List(vec![text("monday"), text("wednesday")])),
    ]));
    let r = rec(vec![("start", start(2026, 1, 5, 9, 0, 0)), ("recur", recur)]);
    let e = build_event(&r, &mut Vec::new());
    let rule = e.rrule.unwrap();
    assert_eq!(rule.freq, IcalFreq::Weekly);
    assert_eq!(rule.by_day.unwrap().len(), 2);
}

#[test]
fn plain_dates_use_the_time_zone() {
    let r = rec(vec![
        ("start", start(2026, 3, 15, 14, 0, 0)),
        ("time_zone", text("America/New_York")),
        ("exdates", ImportValue::List(vec![start(2026, 3, 22, 14, 0, 0), text("bad")])),
        (
            "rdates",
            ImportValue::List(vec![
                start(2026, 4, 1, 14, 0, 0),
                ImportValue::Record(rec(vec![("year", num(2026)), ("month", num(5)), ("day", num(1))])),
            ]),
        ),
    ]);
    let e = build_event(&r, &mut Vec::new());
    assert_eq!(e.dtstart.unwrap().1, DtZone::Zoned("America/New_York".to_string()));
    let ex = e.exdates.unwrap();
    assert_eq!(ex.len(), 1);
    assert_eq!(ex[0].1, DtZone::Zoned("America/New_York".to_string()));
    assert_eq!(
        e.rdate_times,
        Some(vec![(
            PlainDate { year: 2026, month: 4, day: 1 },
            PlainTime { hour: 14, minute: 0, second: 0 },
            false
        )])
    );
    assert_eq!(e.rdate_dates, Some(vec![PlainDate { year: 2026, month: 5, day: 1 }]));
    let utc = build_event(
        &rec(vec![("start", start(2026, 3, 15, 14, 0, 0)), ("time_zone", text("UTC"))]),
        &mut Vec::new(),
    );
    assert_eq!(utc.dtstart.unwrap().1, DtZone::Utc);
}

#[test]
fn plain_negative_duration() {
    let duration = ImportValue::Record(rec(vec![("weeks", num(0)), ("days", ImportValue::SignedInteger(-1))]));
    let e = build_event(&rec(vec![("duration", duration)]), &mut Vec::new());
    assert_eq!(
        e.duration,
        Some(PlainDuration { positive: false, weeks: 0, days: 1, hours: 0, minutes: 0, seconds: 0 })
    );
}

#[test]
fn plain_lists() {
    let r = rec(vec![
        ("categories", ImportValue::List(vec![text("work"), num(1), text("meeting")])),
        ("attendees", ImportValue::List(vec![text("mailto:a@example.com")])),
        ("comments", ImportValue::List(vec![num(1)])),
        ("resources", ImportValue::List(vec![ImportValue::List(vec![text("projector")]), ImportValue::List(vec![])])),
        ("attachments", ImportValue::List(vec![text("https://example.com/a.pdf"), text("nope")])),
        ("request_statuses", ImportValue::List(vec![text("2.0;Success"), text("9.9;Bad")])),
    ]);
    let t = build_todo(&r, &mut Vec::new());
    assert_eq!(t.categories, Some(vec!["work".to_string(), "meeting".to_string()]));
    assert_eq!(t.attendees, Some(vec!["mailto:a@example.com".to_string()]));
    assert_eq!(t.comments, None);
    assert_eq!(t.resources, Some(vec![vec!["projector".to_string()]]));
    assert_eq!(t.attachments, Some(vec![PlainAttachment::Uri("https://example.com/a.pdf".to_string())]));
    let rs = t.request_statuses.unwrap();
    assert_eq!(rs.len(), 1);
    assert_eq!((rs[0].class, rs[0].major), (2, 0));
}

#[test]
fn plain_x_properties_and_warnings() {
    let r = rec(vec![
        ("type", text("event")),
        ("title", text("T")),
        ("x_custom_field", text("hello")),
        ("mystery", num(7)),
        ("duration", num(1)),
    ]);
    let mut warnings = Vec::new();
    let e = build_event(&r, &mut warnings);
    assert_eq!(
        e.x_properties,
        vec![
            ("MYSTERY".to_string(), XOut::Integer(7)),
            ("X-CUSTOM-FIELD".to_string(), XOut::Text("hello".to_string())),
        ]
    );
    assert_eq!(warnings, vec!["unrecognised non-extension field 'mystery' on event record".to_string()]);
    let mut warnings = Vec::new();
    let t = build_todo(&r, &mut warnings);
    assert_eq!(t.x_properties.len(), 3);
    assert_eq!(warnings.len(), 2);
    assert_eq!(warnings[1], "unrecognised non-extension field 'mystery' on task record");
}

#[test]
fn plain_calendar_properties() {
    let calendar = rec(vec![
        ("type", text("calendar")),
        ("uid", text("cal-1")),
        ("name", text("My Cal")),
        ("entries", ImportValue::List(vec![])),
        ("x_owner", text("me")),
        ("odd", ImportValue::Bool(true)),
    ]);
    let mut warnings = Vec::new();
    let out = emit_icalendar(&calendar, &[], &mut warnings).unwrap();
    assert_eq!(out.uid.as_deref(), Some("cal-1"));
    assert_eq!(out.name.as_deref(), Some("My Cal"));
    assert_eq!(
        out.x_properties,
        vec![
            ("ODD".to_string(), XOut::Boolean(true)),
            ("X-OWNER".to_string(), XOut::Text("me".to_string())),
        ]
    );
    assert_eq!(warnings, vec!["unrecognised non-extension field 'odd' on calendar record".to_string()]);
}

#[test]
fn extension_values() {
    assert_eq!(import_value_to_ical_value(&num(5_000_000_000)), XOut::Integer(i32::MAX));
    assert_eq!(import_value_to_ical_value(&ImportValue::SignedInteger(-5_000_000_000)), XOut::Integer(i32::MIN));
    assert_eq!(import_value_to_ical_value(&ImportValue::Undefined), XOut::Text(String::new()));
    assert_eq!(
        import_value_to_ical_value(&ImportValue::List(vec![num(1)])),
        XOut::Json(ImportValue::List(vec![num(1)]))
    );
    let mut warnings = Vec::new();
    let xs = handle_x_properties(&rec(vec![("x_a", num(1)), ("uid", text("u"))]), RecordKind::Task, &mut warnings);
    assert_eq!(xs, vec![("X-A".to_string(), XOut::Integer(1))]);
    assert!(warnings.is_empty());
}

#[test]
fn plain_round_trip_event_fields() {
    let ics = "\
BEGIN:VCALENDAR\r\n\
VERSION:2.0\r\n\
PRODID:-//Roundtrip//Test//EN\r\n\
BEGIN:VEVENT\r\n\
UID:roundtrip-uid-42\r\n\
SUMMARY:Roundtrip Test\r\n\
DESCRIPTION:An event for round-trip testing\r\n\
DTSTART;TZID=America/New_York:20260315T140000\r\n\
DURATION:PT2H\r\n\
STATUS:CONFIRMED\r\n\
PRIORITY:3\r\n\
LOCATION:Conference Room A\r\n\
END:VEVENT\r\n\
END:VCALENDAR\r\n";
    let imported = gnomon::ical_source::translate_icalendar(ics).unwrap();
    let ImportValue::List(calendars) = imported else { panic!("expected list") };
    let ImportValue::Record(cal_rec) = &calendars[0] else { panic!("expected record") };
    let Some(ImportValue::List(entries)) = cal_rec.get("entries") else { panic!("expected entries") };
    let mut warnings = Vec::new();
    let out = emit_icalendar(cal_rec, entries, &mut warnings).unwrap();
    assert_eq!(out.prod_id, "-//Roundtrip//Test//EN");
    let IcalEntryOut::Event(e) = &out.components[0] else { panic!("expected an event") };
    assert_eq!(e.uid.as_deref(), Some("roundtrip-uid-42"));
    assert_eq!(e.summary.as_deref(), Some("Roundtrip Test"));
    assert_eq!(e.description.as_deref(), Some("An event for round-trip testing"));
    assert_eq!(e.location.as_deref(), Some("Conference Room A"));
    assert_eq!(e.status, Some(IcalStatus::Confirmed));
    assert_eq!(e.priority, Some(IcalPriority::A3));
    assert_eq!(e.dtstart.as_ref().unwrap().1, DtZone::Zoned("America/New_York".to_string()));
    assert!(warnings.is_empty(), "{:?}", warnings);
}

#[test]
fn plain_empty_uid_is_accepted() {
    let mut warnings = Vec::new();
    let calendar = rec(vec![("type", text("calendar")), ("uid", text(""))]);
    let entry = ImportValue::Record(rec(vec![("type", text("event")), ("uid", text(""))]));
    let out = emit_icalendar(&calendar, &[entry], &mut warnings).unwrap();
    assert_eq!(out.uid, Some(String::new()));
    assert_eq!(out.components.len(), 1);
}
