use gnomon::export_values::{
    import_value_to_attachment, import_value_to_dtstart, import_value_to_priority,
    record_to_rrule, record_to_signed_duration, record_to_utc_datetime, str_to_class,
    str_to_request_status, str_to_status, str_to_transp, str_to_weekday, DtZone,
};
use gnomon::ical_import::{
    IcalClass, IcalFreq, IcalPriority, IcalStatus, IcalTransp, IcalWeekday, PlainAttachment,
    PlainDate, PlainDtod, PlainDuration, PlainTermination, PlainTime, PlainWeekdayNum,
};
use gnomon::import_value::{ImportRecord, ImportValue};

fn rec(fields: Vec<(&str, ImportValue)>) -> ImportRecord {
    let mut r = ImportRecord::new();
    for (k, v) in fields {
        r.insert(k.to_string(), v);
    }
    r
}

fn num(n: u64) -> ImportValue {
    ImportValue::Integer(n)
}

fn signed(n: i64) -> ImportValue {
    ImportValue::SignedInteger(n)
}

fn text(s: &str) -> ImportValue {
    ImportValue::String(s.to_string())
}

fn date(y: u64, m: u64, d: u64) -> ImportValue {
    ImportValue::Record(rec(vec![("year", num(y)), ("month", num(m)), ("day", num(d))]))
}

fn time(h: u64, mi: u64, s: u64) -> ImportValue {
    ImportValue::Record(rec(vec![("hour", num(h)), ("minute", num(mi)), ("second", num(s))]))
}

fn datetime(d: ImportValue, t: ImportValue) -> ImportValue {
    ImportValue::Record(rec(vec![("date", d), ("time", t)]))
}

#[test]
fn utc_datetime_read_back() {
    let v = datetime(date(2026, 3, 15), time(14, 30, 0));
    assert_eq!(
        record_to_utc_datetime(&v),
        Some((
            PlainDate { year: 2026, month: 3, day: 15 },
            PlainTime { hour: 14, minute: 30, second: 0 }
        ))
    );
}

#[test]
fn utc_datetime_rejects_invalid_dates() {
    assert_eq!(record_to_utc_datetime(&datetime(date(2026, 13, 1), time(9, 0, 0))), None);
    assert_eq!(record_to_utc_datetime(&datetime(date(2026, 2, 29), time(9, 0, 0))), None);
    assert_eq!(record_to_utc_datetime(&datetime(date(2024, 2, 29), time(24, 0, 0))), None);
    assert!(record_to_utc_datetime(&datetime(date(2024, 2, 29), time(23, 59, 60))).is_some());
    assert_eq!(record_to_utc_datetime(&text("2026-03-15")), None);
}

#[test]
fn dtstart_zones() {
    let v = datetime(date(2026, 1, 1), time(9, 0, 0));
    let (d, z) = import_value_to_dtstart(&v, Some("utc")).unwrap();
    assert_eq!(
        d,
        PlainDtod::DateTime(
            PlainDate { year: 2026, month: 1, day: 1 },
            PlainTime { hour: 9, minute: 0, second: 0 }
        )
    );
    assert_eq!(z, DtZone::Utc);
    let (_, z) = import_value_to_dtstart(&v, Some("Z")).unwrap();
    assert_eq!(z, DtZone::Utc);
    let (_, z) = import_value_to_dtstart(&v, Some("Europe/Paris")).unwrap();
    assert_eq!(z, DtZone::Zoned("Europe/Paris".to_string()));
    let (_, z) = import_value_to_dtstart(&v, None).unwrap();
    assert_eq!(z, DtZone::Floating);
}

#[test]
fn dtstart_date_only() {
    let (d, z) = import_value_to_dtstart(&date(2026, 12, 25), Some("utc")).unwrap();
    assert_eq!(d, PlainDtod::Date(PlainDate { year: 2026, month: 12, day: 25 }));
    assert_eq!(z, DtZone::Floating);
    let wrapped = ImportValue::Record(rec(vec![("date", date(2026, 12, 25))]));
    let (d, _) = import_value_to_dtstart(&wrapped, None).unwrap();
    assert_eq!(d, PlainDtod::Date(PlainDate { year: 2026, month: 12, day: 25 }));
    assert_eq!(import_value_to_dtstart(&num(3), None), None);
}

#[test]
fn signed_duration_read_back() {
    let v = ImportValue::Record(rec(vec![
        ("weeks", num(0)),
        ("days", signed(-1)),
        ("hours", signed(-2)),
        ("minutes", num(0)),
        ("seconds", num(0)),
    ]));
    assert_eq!(
        record_to_signed_duration(&v),
        Some(PlainDuration {
            positive: false,
            weeks: 0,
            days: 1,
            hours: 2,
            minutes: 0,
            seconds: 0
        })
    );
    let v = ImportValue::Record(rec(vec![("hours", num(1)), ("minutes", num(30))]));
    assert_eq!(
        record_to_signed_duration(&v),
        Some(PlainDuration {
            positive: true,
            weeks: 0,
            days: 0,
            hours: 1,
            minutes: 30,
            seconds: 0
        })
    );
    assert_eq!(record_to_signed_duration(&text("1h")), None);
}

#[test]
fn enumeration_names() {
    assert_eq!(str_to_status("confirmed"), Some(IcalStatus::Confirmed));
    assert_eq!(str_to_status("needs-action"), Some(IcalStatus::NeedsAction));
    assert_eq!(str_to_status("CONFIRMED"), None);
    assert_eq!(str_to_transp("transparent"), IcalTransp::Transparent);
    assert_eq!(str_to_transp("anything"), IcalTransp::Opaque);
    assert_eq!(str_to_weekday("friday"), Some(IcalWeekday::Friday));
    assert_eq!(str_to_weekday("fri"), None);
    assert_eq!(str_to_class("private"), IcalClass::Private);
    assert_eq!(str_to_class("x-secret"), IcalClass::Unknown("X-SECRET".to_string()));
}

#[test]
fn priority_numbers() {
    assert_eq!(import_value_to_priority(&num(1)), IcalPriority::A1);
    assert_eq!(import_value_to_priority(&num(5)), IcalPriority::B2);
    assert_eq!(import_value_to_priority(&num(9)), IcalPriority::C3);
    assert_eq!(import_value_to_priority(&num(0)), IcalPriority::Zero);
    assert_eq!(import_value_to_priority(&num(10)), IcalPriority::Zero);
    assert_eq!(import_value_to_priority(&text("high")), IcalPriority::Zero);
}

#[test]
fn attachments() {
    assert_eq!(
        import_value_to_attachment(&text("https://example.com/a.pdf")),
        Some(PlainAttachment::Uri("https://example.com/a.pdf".to_string()))
    );
    assert_eq!(import_value_to_attachment(&text("not a uri")), None);
    let inline = ImportValue::Record(rec(vec![
        ("encoding", text("base64")),
        ("data", text("aGVs bG8=")),
    ]));
    assert_eq!(
        import_value_to_attachment(&inline),
        Some(PlainAttachment::Binary(b"hello".to_vec()))
    );
    let broken = ImportValue::Record(rec(vec![("data", text("a"))]));
    assert_eq!(import_value_to_attachment(&broken), None);
}

#[test]
fn request_statuses() {
    let s = str_to_request_status("2.0;Success").unwrap();
    assert_eq!((s.class, s.major, s.minor), (2, 0, None));
    assert_eq!(s.description, "Success");
    assert_eq!(s.exception_data, None);
    let s = str_to_request_status("3.1.4;Bad value;DTSTART").unwrap();
    assert_eq!((s.class, s.major, s.minor), (3, 1, Some(4)));
    assert_eq!(s.description, "Bad value");
    assert_eq!(s.exception_data, Some("DTSTART".to_string()));
    assert!(str_to_request_status("6.0;Unknown").is_none());
    assert!(str_to_request_status("2.0").is_none());
    assert!(str_to_request_status("2;Success").is_none());
    assert!(str_to_request_status("x.0;Success").is_none());
}

#[test]
fn weekly_rule_read_back() {
    let by_day = ImportValue::List(vec![
        text("monday"),
        ImportValue::Record(rec(vec![("day", text("friday")), ("ordinal", signed(-1))])),
        text("someday"),
    ]);
    let r = rec(vec![
        ("frequency", text("weekly")),
        ("interval", num(2)),
        ("count", num(10)),
        ("week_start", text("sunday")),
        ("by_day", by_day),
        ("by_month_day", ImportValue::List(vec![num(1)])),
    ]);
    let rule = record_to_rrule(&r).unwrap();
    assert_eq!(rule.freq, IcalFreq::Weekly);
    assert_eq!(rule.interval, Some(2));
    assert_eq!(rule.termination, Some(PlainTermination::Count(10)));
    assert_eq!(rule.week_start, Some(IcalWeekday::Sunday));
    assert_eq!(
        rule.by_day,
        Some(vec![
            PlainWeekdayNum { weekday: IcalWeekday::Monday, ordinal: None },
            PlainWeekdayNum { weekday: IcalWeekday::Friday, ordinal: Some((false, 1)) },
        ])
    );
    assert_eq!(rule.by_month_day, None);
    assert_eq!(rule.by_second, None);
}

#[test]
fn yearly_rule_read_back() {
    let r = rec(vec![
        ("frequency", text("yearly")),
        ("interval", num(0)),
        ("until", date(2030, 1, 1)),
        ("by_month", ImportValue::List(vec![num(0), num(12), num(13)])),
        ("by_week_no", ImportValue::List(vec![num(1), signed(-1), num(54)])),
        ("by_year_day", ImportValue::List(vec![num(100), signed(-400), signed(-1)])),
        ("by_month_day", ImportValue::List(vec![num(0), num(40)])),
    ]);
    let rule = record_to_rrule(&r).unwrap();
    assert_eq!(rule.freq, IcalFreq::Yearly);
    assert_eq!(rule.interval, None);
    assert_eq!(
        rule.termination,
        Some(PlainTermination::Until(PlainDtod::Date(PlainDate { year: 2030, month: 1, day: 1 })))
    );
    let months = rule.by_month.unwrap();
    assert!(months[11]);
    assert_eq!(months.iter().filter(|b| **b).count(), 1);
    let (pos, neg) = rule.by_week_no.unwrap();
    assert!(pos[0] && neg[0]);
    assert_eq!(pos.iter().filter(|b| **b).count() + neg.iter().filter(|b| **b).count(), 2);
    assert_eq!(rule.by_year_day, Some(vec![100, -1]));
    assert_eq!(rule.by_month_day, None);
}

#[test]
fn rule_needs_known_frequency() {
    assert!(record_to_rrule(&rec(vec![("frequency", text("fortnightly"))])).is_none());
    assert!(record_to_rrule(&rec(vec![("interval", num(2))])).is_none());
    let daily = record_to_rrule(&rec(vec![
        ("frequency", text("daily")),
        ("count", text("ten")),
        ("by_year_day", ImportValue::List(vec![num(1)])),
    ]))
    .unwrap();
    assert_eq!(daily.freq, IcalFreq::Daily);
    assert_eq!(daily.termination, None);
    assert_eq!(daily.by_year_day, None);
}
