use gnomon::desugar::desugar_datetime;
use gnomon::input::{Database, SourceFile};
use gnomon::interned::{DeclId, DeclKind, FieldName, FieldPath};
use gnomon::merge::validate_calendar;
use gnomon::queries::Severity;
use gnomon::types::{Blame, Blamed, Record, Value};

const CAL_UID: &str = "f47ac10b-58cc-4372-a567-0e02b2c3d479";

fn blame(source: SourceFile, index: usize, kind: DeclKind) -> Blame {
    Blame { decl: DeclId::new(source, index, kind), path: FieldPath::root() }
}

fn record(fields: Vec<(&str, Value)>, b: &Blame) -> Value {
    let mut r = Record::new();
    for (k, v) in fields {
        r.insert(FieldName::new(k.to_string()), Blamed { value: v, blame: b.clone() });
    }
    Value::Record(r)
}

fn calendar(uid: &str, b: &Blame) -> Value {
    record(vec![("type", Value::String("calendar".into())), ("uid", Value::String(uid.into()))], b)
}

fn event(name: &str, extra: Vec<(&str, Value)>, b: &Blame) -> Value {
    let mut fields = vec![
        ("type", Value::String("event".into())),
        ("name", Value::Name(name.into())),
        ("start", desugar_datetime("2026-03-01T14:30", b).unwrap()),
        ("title", Value::String("Standup".into())),
    ];
    fields.extend(extra);
    record(fields, b)
}

fn decls(items: Vec<(Value, Blame)>) -> Value {
    Value::List(items.into_iter().map(|(value, blame)| Blamed { value, blame }).collect())
}

fn messages(db: &Database, source: SourceFile, value: Value) -> (bool, Vec<(String, Severity)>, usize) {
    let r = validate_calendar(db, source, value, vec![], vec![]);
    let msgs = r.diagnostics.iter().map(|d| (d.message.clone(), d.severity)).collect();
    (r.has_errors, msgs, r.calendars.len())
}

#[test]
fn missing_calendar_is_an_error() {
    let mut db = Database::new();
    let src = SourceFile::new(&mut db, "a.gnomon".into(), String::new());
    let b = blame(src, 0, DeclKind::Event);
    let (errors, msgs, _) = messages(&db, src, decls(vec![(event("a", vec![], &b), b.clone())]));
    assert!(errors);
    assert!(msgs.iter().any(|(m, _)| m.contains("no calendar record")));
}

#[test]
fn empty_list_is_an_error() {
    let mut db = Database::new();
    let src = SourceFile::new(&mut db, "empty.gnomon".into(), String::new());
    let (errors, msgs, n) = messages(&db, src, decls(vec![]));
    assert!(errors);
    assert_eq!(n, 0);
    assert!(msgs.iter().any(|(m, _)| m.contains("no calendar record")));
}

#[test]
fn two_calendars_are_both_kept() {
    let mut db = Database::new();
    let src = SourceFile::new(&mut db, "a.gnomon".into(), String::new());
    let b0 = blame(src, 0, DeclKind::Calendar);
    let b1 = blame(src, 1, DeclKind::Calendar);
    let (_, _, n) = messages(&db, src, decls(vec![(calendar("a", &b0), b0.clone()), (calendar("b", &b1), b1.clone())]));
    assert_eq!(n, 2);
}

#[test]
fn repeated_name_is_reported() {
    let mut db = Database::new();
    let src = SourceFile::new(&mut db, "a.gnomon".into(), String::new());
    let b0 = blame(src, 0, DeclKind::Calendar);
    let b1 = blame(src, 1, DeclKind::Event);
    let b2 = blame(src, 2, DeclKind::Event);
    let value = decls(vec![
        (calendar(CAL_UID, &b0), b0.clone()),
        (event("meeting", vec![], &b1), b1.clone()),
        (event("meeting", vec![], &b2), b2.clone()),
    ]);
    let (errors, msgs, _) = messages(&db, src, value);
    assert!(errors);
    assert!(msgs.iter().any(|(m, _)| m.contains("name @meeting already defined")));
}

fn entry_uid(db: &Database, src: SourceFile, value: Value) -> Value {
    let r = validate_calendar(db, src, value, vec![], vec![]);
    assert!(!r.has_errors, "unexpected errors: {:?}", r.diagnostics);
    let entry = &r.calendars[0].entries[0].value;
    gnomon::types::copy_value(&entry.get_str("uid").expect("entry should have a uid").value)
}

#[test]
fn uid_is_derived_and_deterministic() {
    let mut db = Database::new();
    let a = SourceFile::new(&mut db, "a.gnomon".into(), String::new());
    let b = SourceFile::new(&mut db, "b.gnomon".into(), String::new());
    let mk = |src: SourceFile| {
        let b0 = blame(src, 0, DeclKind::Calendar);
        let b1 = blame(src, 1, DeclKind::Event);
        decls(vec![(calendar(CAL_UID, &b0), b0.clone()), (event("meeting", vec![], &b1), b1.clone())])
    };
    let u1 = entry_uid(&db, a, mk(a));
    let u2 = entry_uid(&db, b, mk(b));
    assert_eq!(u1, u2);
    match u1 {
        Value::String(s) => assert_eq!(s.len(), 36),
        other => panic!("expected string uid, got: {other:?}"),
    }
}

#[test]
fn explicit_uid_is_kept() {
    let mut db = Database::new();
    let src = SourceFile::new(&mut db, "a.gnomon".into(), String::new());
    let b0 = blame(src, 0, DeclKind::Calendar);
    let b1 = blame(src, 1, DeclKind::Event);
    let value = decls(vec![
        (calendar(CAL_UID, &b0), b0.clone()),
        (event("meeting", vec![("uid", Value::String("custom-uid".into()))], &b1), b1.clone()),
    ]);
    assert_eq!(entry_uid(&db, src, value), Value::String("custom-uid".into()));
}

#[test]
fn non_uuid_calendar_uid_warns() {
    let mut db = Database::new();
    let src = SourceFile::new(&mut db, "a.gnomon".into(), String::new());
    let b0 = blame(src, 0, DeclKind::Calendar);
    let b1 = blame(src, 1, DeclKind::Event);
    let value = decls(vec![
        (calendar("not-a-uuid", &b0), b0.clone()),
        (event("meeting", vec![("uid", Value::String("explicit-uid".into()))], &b1), b1.clone()),
    ]);
    let (errors, msgs, _) = messages(&db, src, value);
    assert!(!errors, "unexpected errors: {msgs:?}");
    assert!(msgs.iter().any(|(m, s)| m.contains("not a valid UUID") && *s == Severity::Warning));
}

fn all_messages(db: &Database, src: SourceFile, items: Vec<(Value, Blame)>) -> Vec<String> {
    validate_calendar(db, src, decls(items), vec![], vec![]).diagnostics.iter().map(|d| d.message.clone()).collect()
}

#[test]
fn shape_calendar_missing_uid() {
    let mut db = Database::new();
    let src = SourceFile::new(&mut db, "a.gnomon".into(), String::new());
    let b0 = blame(src, 0, DeclKind::Calendar);
    let cal = record(vec![("type", Value::String("calendar".into()))], &b0);
    let msgs = all_messages(&db, src, vec![(cal, b0.clone())]);
    assert!(msgs.iter().any(|d| d.contains("missing required field `uid`")), "{msgs:?}");
}

#[test]
fn shape_event_missing_start_and_task_missing_name() {
    let mut db = Database::new();
    let src = SourceFile::new(&mut db, "a.gnomon".into(), String::new());
    let b0 = blame(src, 0, DeclKind::Calendar);
    let b1 = blame(src, 1, DeclKind::Event);
    let b2 = blame(src, 2, DeclKind::Task);
    let ev = record(vec![("type", Value::String("event".into())), ("name", Value::Name("foo".into()))], &b1);
    let task = record(vec![("type", Value::String("task".into())), ("title", Value::String("no name".into()))], &b2);
    let msgs = all_messages(&db, src, vec![(calendar(CAL_UID, &b0), b0.clone()), (ev, b1.clone()), (task, b2.clone())]);
    assert!(msgs.iter().any(|d| d.contains("event: missing required field `start`")), "{msgs:?}");
    assert!(msgs.iter().any(|d| d.contains("must have either `name` or `uid`")), "{msgs:?}");
}

#[test]
fn shape_priority_type_and_range() {
    let mut db = Database::new();
    let src = SourceFile::new(&mut db, "a.gnomon".into(), String::new());
    let b0 = blame(src, 0, DeclKind::Calendar);
    let b1 = blame(src, 1, DeclKind::Event);
    let b2 = blame(src, 2, DeclKind::Event);
    let wrong_type = event("a", vec![("priority", Value::String("high".into()))], &b1);
    let out_of_range = event("b", vec![("priority", Value::Integer(10))], &b2);
    let msgs = all_messages(&db, src, vec![(calendar(CAL_UID, &b0), b0.clone()), (wrong_type, b1.clone()), (out_of_range, b2.clone())]);
    assert!(msgs.iter().any(|d| d.contains("priority") && d.contains("unsigned integer")), "{msgs:?}");
    assert!(msgs.iter().any(|d| d.contains("priority") && d.contains("0..=9")), "{msgs:?}");
}

#[test]
fn shape_valid_calendar_has_no_diagnostics() {
    let mut db = Database::new();
    let src = SourceFile::new(&mut db, "a.gnomon".into(), String::new());
    let b0 = blame(src, 0, DeclKind::Calendar);
    let b1 = blame(src, 1, DeclKind::Event);
    let cal = record(
        vec![
            ("type", Value::String("calendar".into())),
            ("uid", Value::String(CAL_UID.into())),
            ("custom_field", Value::String("hello".into())),
        ],
        &b0,
    );
    let msgs = all_messages(&db, src, vec![(cal, b0.clone()), (event("standup", vec![], &b1), b1.clone())]);
    assert!(msgs.is_empty(), "{msgs:?}");
}
