use gnomon::input::{Database, SourceFile};
use gnomon::interned::{DeclId, DeclKind, FieldName, FieldPath};
use gnomon::render::RenderWithDb;
use gnomon::types::{Blame, Blamed, Record, Value};

fn blame() -> Blame {
    let mut db = Database::new();
    let source = SourceFile::new(&mut db, "render.gnomon".to_string(), String::new());
    Blame { decl: DeclId::new(source, 0, DeclKind::Calendar), path: FieldPath::root() }
}

fn record(fields: Vec<(&str, Value)>) -> Value {
    let mut r = Record::new();
    for (k, v) in fields {
        r.insert(FieldName::new(k.to_string()), Blamed { value: v, blame: blame() });
    }
    Value::Record(r)
}

fn list(items: Vec<Value>) -> Value {
    Value::List(items.into_iter().map(|v| Blamed { value: v, blame: blame() }).collect())
}

fn render(v: &Value) -> String {
    let db = Database::new();
    v.render(&db).text
}

#[test]
fn render_empty_calendar() {
    let v = list(vec![record(vec![("type", Value::String("calendar".into()))])]);
    assert_eq!(render(&v), "[{\n    type: \"calendar\",\n}]");
}

#[test]
fn render_calendar_with_fields() {
    let v = list(vec![record(vec![
        ("uid", Value::String("test-cal".into())),
        ("name", Value::String("My Cal".into())),
        ("type", Value::String("calendar".into())),
    ])]);
    assert_eq!(
        render(&v),
        "[{\n    name: \"My Cal\",\n    type: \"calendar\",\n    uid: \"test-cal\",\n}]"
    );
}

#[test]
fn render_short_list_inline() {
    let v = list(vec![record(vec![
        ("keywords", list(vec![Value::String("work".into()), Value::String("meeting".into())])),
        ("type", Value::String("calendar".into())),
    ])]);
    assert_eq!(
        render(&v),
        "[{\n    keywords: [\"work\", \"meeting\"],\n    type: \"calendar\",\n}]"
    );
}

#[test]
fn render_nested_records_and_names() {
    let start = record(vec![
        (
            "date",
            record(vec![
                ("year", Value::Integer(2026)),
                ("month", Value::Integer(3)),
                ("day", Value::Integer(15)),
            ]),
        ),
        (
            "time",
            record(vec![
                ("hour", Value::Integer(17)),
                ("minute", Value::Integer(0)),
                ("second", Value::Integer(0)),
            ]),
        ),
    ]);
    let v = list(vec![record(vec![
        ("due", start),
        ("name", Value::Name("review".into())),
        ("title", Value::String("Code review".into())),
        ("type", Value::String("task".into())),
    ])]);
    let expected = "[{\n    due: {\n        date: {\n            day: 15,\n            month: 3,\n            year: 2026,\n        },\n        time: {\n            hour: 17,\n            minute: 0,\n            second: 0,\n        },\n    },\n    name: @review,\n    title: \"Code review\",\n    type: \"task\",\n}]";
    assert_eq!(render(&v), expected);
}

#[test]
fn render_booleans_integers_and_undefined() {
    let v = list(vec![record(vec![
        ("show_without_time", Value::Bool(true)),
        ("priority", Value::Integer(5)),
        ("optional", Value::Undefined),
        ("offset", Value::SignedInteger(-3)),
        ("type", Value::String("calendar".into())),
    ])]);
    assert_eq!(
        render(&v),
        "[{\n    offset: -3,\n    optional: undefined,\n    priority: 5,\n    show_without_time: true,\n    type: \"calendar\",\n}]"
    );
}

#[test]
fn render_fields_in_alphabetical_order() {
    let v = list(vec![record(vec![
        ("z_last", Value::Integer(3)),
        ("m_middle", Value::Integer(2)),
        ("a_first", Value::Integer(1)),
        ("type", Value::String("calendar".into())),
    ])]);
    assert_eq!(
        render(&v),
        "[{\n    a_first: 1,\n    m_middle: 2,\n    type: \"calendar\",\n    z_last: 3,\n}]"
    );
}

#[test]
fn render_string_escapes_like_debug() {
    assert_eq!(render(&Value::String("a\"b\n".into())), "\"a\\\"b\\n\"");
}

#[test]
fn render_empty_containers() {
    assert_eq!(render(&list(vec![])), "[]");
    assert_eq!(render(&record(vec![])), "{}");
}
