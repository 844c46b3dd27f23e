use gnomon::ical_import::{IcalFreq, IcalPriority, PlainDate, PlainTime};
use gnomon::import_value::{ImportRecord, ImportValue};
use gnomon::jscal_export::{
    build_event, build_task, collect_vendor_properties, emit_jscalendar, js_record_to_rrule,
    DurationOut, JsEntry, JsKindOut, JsRole,
};

fn rec(fields: Vec<(&str, ImportValue)>) -> ImportRecord {
    let mut r = ImportRecord::new();
    for (k, v) in fields {
        r.insert(k.to_string(), v);
    }
    r
}

fn num(n: u64) -> ImportValue {
    ImportValue::Integer(n)
}

fn text(s: &str) -> ImportValue {
    ImportValue::String(s.to_string())
}

fn datetime(y: u64, mo: u64, d: u64, h: u64, mi: u64, s: u64) -> ImportValue {
    ImportValue::Record(rec(vec![
        ("date", ImportValue::Record(rec(vec![("year", num(y)), ("month", num(mo)), ("day", num(d))]))),
        ("time", ImportValue::Record(rec(vec![("hour", num(h)), ("minute", num(mi)), ("second", num(s))]))),
    ]))
}

fn duration(w: u64, d: u64, h: u64, m: u64, s: u64) -> ImportValue {
    ImportValue::Record(rec(vec![
        ("weeks", num(w)),
        ("days", num(d)),
        ("hours", num(h)),
        ("minutes", num(m)),
        ("seconds", num(s)),
    ]))
}

fn make_cal(uid: &str) -> ImportRecord {
    rec(vec![("type", text("calendar")), ("uid", text(uid))])
}

const EVENT_UID: &str = "a8df6573-0474-496d-8496-033ad45d7fea";
const CAL_UID: &str = "550e8400-e29b-41d4-a716-446655440000";

fn event_with(extra: Vec<(&str, ImportValue)>) -> ImportValue {
    let mut fields = vec![
        ("type", text("event")),
        ("uid", text(EVENT_UID)),
        ("start", datetime(2026, 1, 1, 0, 0, 0)),
    ];
    fields.extend(extra);
    ImportValue::Record(rec(fields))
}

#[test]
fn unknown_non_vendor_field_warns() {
    let cal = make_cal(CAL_UID);
    let event = event_with(vec![("transparency", text("opaque"))]);
    let mut warnings = vec![];
    emit_jscalendar(&cal, &[event], &mut warnings).unwrap();
    assert!(
        warnings.iter().any(|w| w.contains("transparency") && w.contains("event")),
        "should warn about unrecognised non-vendor field: {:?}",
        warnings
    );
}

#[test]
fn vendor_prefixed_fields_no_warning() {
    let cal = make_cal(CAL_UID);
    let event = event_with(vec![("com.example:custom", text("vendor-value"))]);
    let mut warnings = vec![];
    emit_jscalendar(&cal, &[event], &mut warnings).unwrap();
    assert!(warnings.is_empty(), "vendor-prefixed fields should not warn: {:?}", warnings);
}

#[test]
fn group_of_one_event() {
    let event = event_with(vec![
        ("title", text("Standup")),
        ("start", datetime(2026, 3, 12, 9, 0, 0)),
        ("duration", duration(0, 0, 1, 0, 0)),
        ("time_zone", text("America/New_York")),
    ]);
    let g = emit_jscalendar(&make_cal(CAL_UID), &[event], &mut vec![]).unwrap();
    assert_eq!(g.uid, CAL_UID);
    assert_eq!(g.entries.len(), 1);
    let JsEntry::Event(e) = &g.entries[0] else { panic!("expected an event") };
    assert_eq!(e.uid, EVENT_UID);
    assert_eq!(e.title.as_deref(), Some("Standup"));
    assert_eq!(
        e.start,
        Some((PlainDate { year: 2026, month: 3, day: 12 }, PlainTime { hour: 9, minute: 0, second: 0 }))
    );
    assert_eq!(e.duration, Some(DurationOut::Exact { hours: 1, minutes: 0, seconds: 0 }));
    assert_eq!(e.time_zone.as_deref(), Some("America/New_York"));
}

#[test]
fn group_needs_a_uid() {
    let mut warnings = vec!["earlier".to_string()];
    let err = emit_jscalendar(&rec(vec![("type", text("calendar"))]), &[], &mut warnings).err().unwrap();
    assert_eq!(err, "missing required 'uid' field");
    let err = emit_jscalendar(&make_cal(""), &[], &mut warnings).err().unwrap();
    assert_eq!(err, "invalid uid '': expected at least one character");
    assert_eq!(warnings, vec!["earlier".to_string()]);
}

#[test]
fn failing_entries_become_warnings() {
    let no_start = ImportValue::Record(rec(vec![("type", text("event")), ("uid", text("e1"))]));
    let journal = ImportValue::Record(rec(vec![("type", text("journal")), ("uid", text("j1"))]));
    let task = ImportValue::Record(rec(vec![
        ("type", text("task")),
        ("uid", text("t1")),
        ("due", datetime(2026, 3, 15, 17, 0, 0)),
        ("estimated_duration", duration(1, 2, 0, 0, 0)),
        ("percent_complete", num(50)),
        ("progress", text("in-process")),
    ]));
    let mut warnings = vec![];
    let g = emit_jscalendar(&make_cal(CAL_UID), &[no_start, journal, num(1), task], &mut warnings).unwrap();
    assert_eq!(
        warnings,
        vec!["event missing required 'start' field".to_string(), "unknown entry type: journal".to_string()]
    );
    assert_eq!(g.entries.len(), 1);
    let JsEntry::Task(t) = &g.entries[0] else { panic!("expected a task") };
    assert_eq!(t.uid, "t1");
    assert_eq!(t.percent_complete, Some(50));
    assert_eq!(t.progress.as_deref(), Some("in-process"));
    assert_eq!(t.duration, Some(DurationOut::Nominal { weeks: 1, days: 2, time: None }));
    assert_eq!(
        t.due,
        Some((PlainDate { year: 2026, month: 3, day: 15 }, PlainTime { hour: 17, minute: 0, second: 0 }))
    );
}

#[test]
fn entry_without_type_is_an_event() {
    let r = rec(vec![("uid", text("x")), ("start", datetime(2026, 1, 1, 8, 0, 0))]);
    let g = emit_jscalendar(&make_cal(CAL_UID), &[ImportValue::Record(r)], &mut vec![]).unwrap();
    assert!(matches!(g.entries[0], JsEntry::Event(_)));
}

#[test]
fn metadata_fields() {
    let r = rec(vec![
        ("uid", text("x")),
        ("start", datetime(2026, 1, 1, 8, 0, 0)),
        ("created", datetime(2025, 12, 1, 10, 0, 0)),
        ("last_modified", datetime(2025, 12, 2, 11, 0, 0)),
        ("sequence", num(3)),
        ("priority", num(5)),
        ("method", text("request")),
        ("show_without_time", ImportValue::Bool(true)),
        ("categories", ImportValue::List(vec![text("a"), text("b"), text("a")])),
        ("color", text("#ff0000")),
        ("locale", text("en-US")),
    ]);
    let e = build_event(&r, &mut vec![]).unwrap();
    assert_eq!(e.created.unwrap().0, PlainDate { year: 2025, month: 12, day: 1 });
    assert_eq!(e.updated.unwrap().0, PlainDate { year: 2025, month: 12, day: 2 });
    assert_eq!(e.sequence, Some(3));
    assert_eq!(e.priority, Some(IcalPriority::B2));
    assert_eq!(e.method.as_deref(), Some("request"));
    assert_eq!(e.show_without_time, Some(true));
    assert_eq!(e.categories, Some(vec!["a".to_string(), "b".to_string()]));
    assert_eq!(e.color.as_deref(), Some("#ff0000"));
    assert_eq!(e.locale.as_deref(), Some("en-US"));
    let e = build_event(&rec(vec![("uid", text("x")), ("start", datetime(2026, 1, 1, 8, 0, 0)), ("color", text("nope"))]), &mut vec![]).unwrap();
    assert_eq!(e.color, None);
}

#[test]
fn participants_from_organizer_and_attendees() {
    let r = rec(vec![
        ("uid", text("x")),
        ("start", datetime(2026, 1, 1, 0, 0, 0)),
        ("organizer", text("mailto:org@example.com")),
        ("attendees", ImportValue::List(vec![text("mailto:att@example.com"), text("Bob")])),
    ]);
    let e = build_event(&r, &mut vec![]).unwrap();
    let ps = e.participants.unwrap();
    assert_eq!(ps.len(), 3);
    assert_eq!(ps[0].0, "1");
    assert_eq!(ps[0].1.email.as_deref(), Some("org@example.com"));
    assert_eq!(ps[0].1.role, Some(JsRole::Owner));
    assert_eq!(ps[1].0, "2");
    assert_eq!(ps[1].1.role, Some(JsRole::Attendee));
    assert_eq!(ps[2].1.name.as_deref(), Some("Bob"));
}

#[test]
fn links_locations_and_relations() {
    let r = rec(vec![
        ("uid", text("x")),
        ("start", datetime(2026, 1, 1, 0, 0, 0)),
        ("url", text("https://example.com/event")),
        ("attachments", ImportValue::List(vec![text("https://example.com/a.pdf"), text("no uri")])),
        ("location", text("Room 1")),
        ("geo", ImportValue::Record(rec(vec![("latitude", text("37.5")), ("longitude", text("-122.25"))]))),
        ("related_to", ImportValue::List(vec![text("b9ef7684"), text(""), text("b9ef7684")])),
        ("reply_to", ImportValue::Record(rec(vec![("imip", text("mailto:reply@example.com")), ("web", text("bad"))]))),
        ("request_statuses", ImportValue::List(vec![text("x;bad"), text("2.0;Success;extra")])),
    ]);
    let e = build_event(&r, &mut vec![]).unwrap();
    let links = e.links.unwrap();
    assert_eq!(
        links,
        vec![
            ("1".to_string(), "https://example.com/event".to_string()),
            ("2".to_string(), "https://example.com/a.pdf".to_string())
        ]
    );
    let locs = e.locations.unwrap();
    assert_eq!(locs.len(), 1);
    assert_eq!(locs[0].0, "1");
    assert_eq!(locs[0].1.name.as_deref(), Some("Room 1"));
    assert_eq!(locs[0].1.coordinates.as_deref(), Some("geo:37.5,-122.25"));
    assert_eq!(e.related_to, Some(vec![("b9ef7684".to_string(), vec![])]));
    let reply = e.reply_to.unwrap();
    assert_eq!(reply.imip.as_deref(), Some("mailto:reply@example.com"));
    assert_eq!(reply.web, None);
    let rs = e.request_status.unwrap();
    assert_eq!((rs.class, rs.major, rs.minor), (2, 0, None));
    assert_eq!(rs.description, "Success");
    assert_eq!(rs.exception_data.as_deref(), Some("extra"));
}

#[test]
fn js_rules() {
    let rule = rec(vec![
        ("frequency", text("weekly")),
        ("interval", num(2)),
        ("count", num(10)),
        ("by_day", ImportValue::List(vec![text("MO"), text("friday")])),
        ("by_hour", ImportValue::List(vec![num(9), ImportValue::SignedInteger(10)])),
    ]);
    let p = js_record_to_rrule(&rule).unwrap();
    assert_eq!(p.freq, IcalFreq::Weekly);
    assert_eq!(p.interval, Some(2));
    assert_eq!(p.by_day.unwrap().len(), 2);
    let hours = p.by_hour.unwrap();
    assert!(hours[9] && !hours[10]);
    let r = rec(vec![("uid", text("x")), ("start", datetime(2026, 1, 1, 0, 0, 0)), ("recur", ImportValue::Record(rule))]);
    let e = build_event(&r, &mut vec![]).unwrap();
    assert_eq!(e.recurrence_rules.unwrap().len(), 1);
}

#[test]
fn vendor_properties_kept() {
    let r = rec(vec![("uid", text("x")), ("com.example:thing", num(1)), ("odd", text("y"))]);
    let mut warnings = vec![];
    let vs = collect_vendor_properties(&r, JsKindOut::Task, &mut warnings);
    assert_eq!(vs, vec![("com.example:thing".to_string(), num(1)), ("odd".to_string(), text("y"))]);
    assert_eq!(warnings, vec!["unrecognised non-vendor field 'odd' on task record".to_string()]);
    let t = build_task(&r, &mut vec![]).unwrap();
    assert_eq!(t.vendor.len(), 2);
}

#[test]
fn plain_round_trip_js_event() {
    let json = r#"{
        "@type": "Event",
        "uid": "a8df6573-0474-496d-8496-033ad45d7fea",
        "title": "Standup",
        "description": "Daily",
        "start": "2026-03-12T09:00:00",
        "duration": "PT1H",
        "timeZone": "America/New_York"
    }"#;
    let imported = gnomon::jscal_source::translate_jscalendar(json).unwrap();
    let ImportValue::Record(r) = imported else { panic!("expected a record") };
    let mut warnings = vec![];
    let e = build_event(&r, &mut warnings).unwrap();
    assert_eq!(e.uid, "a8df6573-0474-496d-8496-033ad45d7fea");
    assert_eq!(e.title.as_deref(), Some("Standup"));
    assert_eq!(e.description.as_deref(), Some("Daily"));
    assert_eq!(e.time_zone.as_deref(), Some("America/New_York"));
    assert_eq!(
        e.start,
        Some((PlainDate { year: 2026, month: 3, day: 12 }, PlainTime { hour: 9, minute: 0, second: 0 }))
    );
    assert!(warnings.is_empty(), "{:?}", warnings);
}

fn err_of<T>(r: Result<T, String>) -> String {
    match r {
        Ok(_) => panic!("expected an error"),
        Err(e) => e,
    }
}

#[test]
fn uid_error_comes_before_the_color_is_read() {
    let cut = "#a\u{e9}\u{e9}a";
    let mut warnings = vec!["w0".to_string()];
    let task = || rec(vec![("type", text("task")), ("color", text(cut))]);
    assert_eq!(err_of(build_task(&task(), &mut warnings)), "missing required 'uid' field");
    let event = rec(vec![("uid", text("e1")), ("color", text(cut))]);
    assert_eq!(err_of(build_event(&event, &mut warnings)), "event missing required 'start' field");
    let calendar = rec(vec![("type", text("calendar")), ("color", text(cut))]);
    let entries = vec![ImportValue::Record(task())];
    assert_eq!(err_of(emit_jscalendar(&calendar, &entries, &mut warnings)), "missing required 'uid' field");
    assert_eq!(warnings, vec!["w0".to_string()]);
    let calendar = rec(vec![("type", text("calendar")), ("uid", text("g"))]);
    match emit_jscalendar(&calendar, &entries, &mut warnings) {
        Ok(group) => assert!(group.entries.is_empty()),
        Err(_) => panic!("expected a group"),
    }
    assert_eq!(warnings, vec!["w0".to_string(), "missing required 'uid' field".to_string()]);
}
