use gnomon::desugar::{
    desugar_date, desugar_datetime, desugar_duration, desugar_every, desugar_month_day,
    desugar_time, make_record, EveryExpr, SyntaxKind,
};
use gnomon::export::{calendar_to_import_values, record_to_import_record, value_to_import_value};
use gnomon::import::import_value_to_value;
use gnomon::import_value::{ImportRecord, ImportValue};
use gnomon::input::{Database, SourceFile};
use gnomon::interned::{DeclId, DeclKind, FieldName, FieldPath};
use gnomon::rrule::{record_to_datetime, record_to_rule, Frequency, Termination, Weekday};
use gnomon::types::{Blame, Blamed, Calendar, Record, Value};

fn test_blame() -> Blame {
    let mut db = Database::new();
    let source = SourceFile::new(&mut db, "test.gnomon".to_string(), String::new());
    Blame { decl: DeclId::new(source, 0, DeclKind::Event), path: FieldPath::root() }
}

fn get_field(record: &Record, name: &str) -> Value {
    match &record.get_str(name).unwrap().value {
        Value::String(s) => Value::String(s.clone()),
        Value::Integer(n) => Value::Integer(*n),
        Value::SignedInteger(n) => Value::SignedInteger(*n),
        Value::Bool(b) => Value::Bool(*b),
        Value::Undefined => Value::Undefined,
        Value::Name(s) => Value::Name(s.clone()),
        Value::Path(s) => Value::Path(s.clone()),
        Value::Record(r) => Value::Record(gnomon::types::copy_record(r)),
        Value::List(items) => Value::List(
            items
                .iter()
                .map(|b| Blamed { value: gnomon::types::copy_value(&b.value), blame: b.blame.clone() })
                .collect(),
        ),
    }
}

// ── Desugaring ───────────────────────────────────────────────

#[test]
fn date_desugar() {
    let blame = test_blame();
    let value = desugar_date("2026-03-15", &blame).unwrap();
    match value {
        Value::Record(r) => {
            assert_eq!(get_field(&r, "year"), Value::Integer(2026));
            assert_eq!(get_field(&r, "month"), Value::Integer(3));
            assert_eq!(get_field(&r, "day"), Value::Integer(15));
        }
        _ => panic!("expected Record"),
    }
}

#[test]
fn month_day_desugar() {
    let blame = test_blame();
    let value = desugar_month_day("03-15", &blame).unwrap();
    match value {
        Value::Record(r) => {
            assert_eq!(get_field(&r, "month"), Value::Integer(3));
            assert_eq!(get_field(&r, "day"), Value::Integer(15));
        }
        _ => panic!("expected Record"),
    }
}

#[test]
fn time_desugar() {
    let blame = test_blame();
    let value = desugar_time("14:30:59", &blame).unwrap();
    match value {
        Value::Record(r) => {
            assert_eq!(get_field(&r, "hour"), Value::Integer(14));
            assert_eq!(get_field(&r, "minute"), Value::Integer(30));
            assert_eq!(get_field(&r, "second"), Value::Integer(59));
        }
        _ => panic!("expected Record"),
    }
}

#[test]
fn time_desugar_no_seconds() {
    let blame = test_blame();
    let value = desugar_time("14:30", &blame).unwrap();
    match value {
        Value::Record(r) => {
            assert_eq!(get_field(&r, "second"), Value::Integer(0));
        }
        _ => panic!("expected Record"),
    }
}

#[test]
fn datetime_desugar() {
    let blame = test_blame();
    let value = desugar_datetime("2026-03-15T14:30:00", &blame).unwrap();
    match value {
        Value::Record(r) => {
            match get_field(&r, "date") {
                Value::Record(date) => {
                    assert_eq!(get_field(&date, "year"), Value::Integer(2026));
                }
                _ => panic!("expected date Record"),
            }
            match get_field(&r, "time") {
                Value::Record(time) => {
                    assert_eq!(get_field(&time, "hour"), Value::Integer(14));
                }
                _ => panic!("expected time Record"),
            }
        }
        _ => panic!("expected Record"),
    }
}

#[test]
fn duration_desugar_positive() {
    let blame = test_blame();
    let value = desugar_duration("1h30m", &blame).unwrap();
    match value {
        Value::Record(r) => {
            assert_eq!(get_field(&r, "hours"), Value::Integer(1));
            assert_eq!(get_field(&r, "minutes"), Value::Integer(30));
            assert_eq!(get_field(&r, "weeks"), Value::Integer(0));
        }
        _ => panic!("expected Record"),
    }
}

#[test]
fn duration_desugar_negative() {
    let blame = test_blame();
    let value = desugar_duration("-2w3d", &blame).unwrap();
    match value {
        Value::Record(r) => {
            assert_eq!(get_field(&r, "weeks"), Value::SignedInteger(-2));
            assert_eq!(get_field(&r, "days"), Value::SignedInteger(-3));
            assert_eq!(get_field(&r, "hours"), Value::SignedInteger(0));
        }
        _ => panic!("expected Record"),
    }
}

fn every(day_kw: bool, year_kw: bool, month_day: Option<&str>, weekday: Option<SyntaxKind>) -> EveryExpr {
    EveryExpr {
        day_kw,
        year_kw,
        month_day: month_day.map(|s| s.to_string()),
        weekday,
        until_kw: false,
        until_datetime: None,
        until_date: None,
        until_count: None,
    }
}

#[test]
fn every_day_desugar() {
    let blame = test_blame();
    let value = desugar_every(&every(true, false, None, None), &blame).unwrap();
    match value {
        Value::Record(r) => {
            assert_eq!(get_field(&r, "frequency"), Value::String("daily".into()));
        }
        _ => panic!("expected Record"),
    }
}

#[test]
fn every_weekday_desugar() {
    let blame = test_blame();
    let value = desugar_every(&every(false, false, None, Some(SyntaxKind::MondayKw)), &blame).unwrap();
    match value {
        Value::Record(r) => {
            assert_eq!(get_field(&r, "frequency"), Value::String("weekly".into()));
            match get_field(&r, "by_day") {
                Value::List(items) => {
                    assert_eq!(items.len(), 1);
                    match &items[0].value {
                        Value::Record(nday) => {
                            assert_eq!(get_field(nday, "day"), Value::String("monday".into()));
                        }
                        _ => panic!("expected N-day record"),
                    }
                }
                _ => panic!("expected list"),
            }
        }
        _ => panic!("expected Record"),
    }
}

#[test]
fn every_year_on_month_day_desugar() {
    let blame = test_blame();
    let value = desugar_every(&every(false, true, Some("03-15"), None), &blame).unwrap();
    match value {
        Value::Record(r) => {
            assert_eq!(get_field(&r, "frequency"), Value::String("yearly".into()));
            match get_field(&r, "by_year_day") {
                Value::List(items) => {
                    assert_eq!(items.len(), 1);
                    assert_eq!(items[0].value, Value::Integer(74));
                }
                _ => panic!("expected list"),
            }
        }
        _ => panic!("expected Record"),
    }
}

// ── Records ──────────────────────────────────────────────────

#[test]
fn record_iteration_is_alphabetical() {
    let blame = test_blame();
    let mut record = Record::new();
    record.insert(FieldName::new("zebra".to_string()), Blamed { value: Value::Integer(3), blame: blame.clone() });
    record.insert(FieldName::new("apple".to_string()), Blamed { value: Value::Integer(1), blame: blame.clone() });
    record.insert(FieldName::new("mango".to_string()), Blamed { value: Value::Integer(2), blame: blame.clone() });
    let keys: Vec<&str> = record.iter().iter().map(|(k, _)| k.text().as_str()).collect();
    assert_eq!(keys, vec!["apple", "mango", "zebra"]);
}

#[test]
fn record_insert_replaces_duplicate() {
    let blame = test_blame();
    let mut record = Record::new();
    let name = FieldName::new("key".to_string());
    record.insert(name.clone(), Blamed { value: Value::Integer(1), blame: blame.clone() });
    record.insert(name.clone(), Blamed { value: Value::Integer(2), blame: blame.clone() });
    assert_eq!(record.len(), 1);
    assert_eq!(record.get(&name).unwrap().value, Value::Integer(2));
}

// ── Export to plain values ───────────────────────────────────

#[test]
fn convert_simple_record() {
    let blame = test_blame();
    let mut record = Record::new();
    record.insert(
        FieldName::new("name".to_string()),
        Blamed { value: Value::String("hello".to_string()), blame: blame.clone() },
    );
    record.insert(FieldName::new("count".to_string()), Blamed { value: Value::Integer(42), blame: blame.clone() });
    let import_record = record_to_import_record(&record);
    assert_eq!(import_record.get("name"), Some(&ImportValue::String("hello".to_string())));
    assert_eq!(import_record.get("count"), Some(&ImportValue::Integer(42)));
}

#[test]
fn convert_name_to_string() {
    let val = Value::Name("meeting".to_string());
    assert_eq!(value_to_import_value(&val), ImportValue::String("meeting".to_string()));
}

#[test]
fn convert_calendar_round_trip_structure() {
    let blame = test_blame();
    let mut props = Record::new();
    props.insert(FieldName::new("uid".to_string()), Blamed { value: Value::String("cal-1".to_string()), blame: blame.clone() });
    props.insert(FieldName::new("type".to_string()), Blamed { value: Value::String("calendar".to_string()), blame: blame.clone() });
    let mut entry = Record::new();
    entry.insert(FieldName::new("type".to_string()), Blamed { value: Value::String("event".to_string()), blame: blame.clone() });
    entry.insert(FieldName::new("title".to_string()), Blamed { value: Value::String("Standup".to_string()), blame: blame.clone() });
    let calendar = Calendar {
        properties: props,
        entries: vec![Blamed { value: entry, blame: blame.clone() }],
        foreign_import: false,
    };
    let (cal_record, entries) = calendar_to_import_values(&calendar);
    assert_eq!(cal_record.get("uid"), Some(&ImportValue::String("cal-1".to_string())));
    assert_eq!(entries.len(), 1);
    if let ImportValue::Record(ref entry_record) = entries[0] {
        assert_eq!(entry_record.get("title"), Some(&ImportValue::String("Standup".to_string())));
    } else {
        panic!("expected record entry");
    }
}

// ── Recurrence rules ─────────────────────────────────────────

fn make_datetime_record(blame: &Blame, year: u64, month: u64, day: u64, hour: u64, minute: u64, second: u64) -> Record {
    let date_fields: Vec<(&str, Value)> = vec![
        ("year", Value::Integer(year)),
        ("month", Value::Integer(month)),
        ("day", Value::Integer(day)),
    ];
    let time_fields: Vec<(&str, Value)> = vec![
        ("hour", Value::Integer(hour)),
        ("minute", Value::Integer(minute)),
        ("second", Value::Integer(second)),
    ];
    let fields: Vec<(&str, Value)> = vec![
        ("date", Value::Record(make_record(date_fields, blame))),
        ("time", Value::Record(make_record(time_fields, blame))),
    ];
    make_record(fields, blame)
}

#[test]
fn datetime_record_conversion() {
    let blame = test_blame();
    let record = make_datetime_record(&blame, 2026, 3, 15, 14, 30, 0);
    let dt = record_to_datetime(&record).unwrap();
    assert_eq!(dt.year, 2026);
    assert_eq!(dt.month, 3);
    assert_eq!(dt.day, 15);
    assert_eq!(dt.hour, 14);
    assert_eq!(dt.minute, 30);
    assert_eq!(dt.second, 0);
}

#[test]
fn simple_daily_rule_conversion() {
    let blame = test_blame();
    let fields: Vec<(&str, Value)> = vec![("frequency", Value::String("daily".into()))];
    let record = make_record(fields, &blame);
    let rule = record_to_rule(&record).unwrap();
    assert_eq!(rule.frequency, Frequency::Daily);
    assert_eq!(rule.interval, 1);
    assert!(matches!(rule.termination, Termination::Unbounded));
}

#[test]
fn weekly_rule_with_by_day() {
    let blame = test_blame();
    let nday_fields: Vec<(&str, Value)> = vec![("day", Value::String("monday".into()))];
    let nday_record = make_record(nday_fields, &blame);
    let fields: Vec<(&str, Value)> = vec![
        ("frequency", Value::String("weekly".into())),
        ("by_day", Value::List(vec![Blamed { value: Value::Record(nday_record), blame: blame.clone() }])),
    ];
    let record = make_record(fields, &blame);
    let rule = record_to_rule(&record).unwrap();
    assert_eq!(rule.frequency, Frequency::Weekly);
    assert_eq!(rule.by_day.len(), 1);
    assert_eq!(rule.by_day[0].day, Weekday::Monday);
    assert_eq!(rule.by_day[0].nth, None);
}

#[test]
fn rule_with_count_termination() {
    let blame = test_blame();
    let fields: Vec<(&str, Value)> = vec![
        ("frequency", Value::String("daily".into())),
        ("termination", Value::Integer(5)),
    ];
    let record = make_record(fields, &blame);
    let rule = record_to_rule(&record).unwrap();
    assert_eq!(rule.termination, Termination::Count(5));
}

#[test]
fn rule_with_until_termination() {
    let blame = test_blame();
    let until_record = make_datetime_record(&blame, 2026, 1, 10, 0, 0, 0);
    let fields: Vec<(&str, Value)> = vec![
        ("frequency", Value::String("daily".into())),
        ("termination", Value::Record(until_record)),
    ];
    let record = make_record(fields, &blame);
    let rule = record_to_rule(&record).unwrap();
    match rule.termination {
        Termination::Until(dt) => {
            assert_eq!(dt.year, 2026);
            assert_eq!(dt.month, 1);
            assert_eq!(dt.day, 10);
        }
        other => panic!("expected Until, got: {other:?}"),
    }
}

#[test]
fn invalid_frequency_error() {
    let blame = test_blame();
    let fields: Vec<(&str, Value)> = vec![("frequency", Value::String("biweekly".into()))];
    let record = make_record(fields, &blame);
    let err = record_to_rule(&record).unwrap_err();
    assert!(err.contains("invalid frequency"), "got: {err}");
}

#[test]
fn duration_desugar_most_negative() {
    let blame = test_blame();
    let value = desugar_duration("-9223372036854775808w", &blame).unwrap();
    match value {
        Value::Record(r) => {
            assert_eq!(get_field(&r, "weeks"), Value::SignedInteger(i64::MIN));
            assert_eq!(get_field(&r, "days"), Value::SignedInteger(0));
            assert_eq!(get_field(&r, "seconds"), Value::SignedInteger(0));
        }
        _ => panic!("expected Record"),
    }
}

#[test]
fn plain_value_reads_back_after_import() {
    let mut inner = ImportRecord::new();
    inner.insert("b".to_string(), ImportValue::Integer(2));
    inner.insert("a".to_string(), ImportValue::String("x".to_string()));
    let mut outer = ImportRecord::new();
    outer.insert("list".to_string(), ImportValue::List(vec![ImportValue::Record(inner), ImportValue::Bool(true)]));
    outer.insert("n".to_string(), ImportValue::SignedInteger(-3));
    let build = || {
        let mut inner = ImportRecord::new();
        inner.insert("a".to_string(), ImportValue::String("x".to_string()));
        inner.insert("b".to_string(), ImportValue::Integer(2));
        let mut outer = ImportRecord::new();
        outer.insert("n".to_string(), ImportValue::SignedInteger(-3));
        outer.insert("list".to_string(), ImportValue::List(vec![ImportValue::Record(inner), ImportValue::Bool(true)]));
        ImportValue::Record(outer)
    };
    let back = value_to_import_value(&import_value_to_value(ImportValue::Record(outer), &test_blame()));
    assert_eq!(back, build());
}
