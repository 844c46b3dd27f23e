use gnomon::cache::{
    cache_key, content_file_name, is_expired, is_fresh, is_meta_file_name, lookup_outcome,
    meta_file_name, meta_stem, new_cache_meta, CacheLookup, CacheMeta,
};
use gnomon::emit_fields::{
    as_str, base64_decode, field_name_to_x_property, get_bool, get_i64, get_str, get_string_set,
    get_u64, import_value_to_i32, import_value_to_i64, import_value_to_u64,
};
use gnomon::ical_import::base64_encode;
use gnomon::import_value::{ImportRecord, ImportValue};
use gnomon::input::{Database, SourceFile};
use gnomon::interned::{DeclId, DeclKind, FieldName, FieldPath};
use gnomon::lower::{
    access_field, access_index, cache_format_hint, concat_lists, format_for_fetched,
    format_for_local, infer_format_from_content_type, infer_format_from_source, lookup_binding,
    merge_records, values_equal, EvalOptions, ImportFormat,
};
use gnomon::types::{Blame, Blamed, Record, Value};

fn blame_at(index: usize) -> Blame {
    let mut db = Database::new();
    let source = SourceFile::new(&mut db, "ops.gnomon".to_string(), String::new());
    Blame { decl: DeclId::new(source, index, DeclKind::Expr), path: FieldPath::root() }
}

fn list(items: Vec<Value>, index: usize) -> Value {
    Value::List(items.into_iter().map(|v| Blamed { value: v, blame: blame_at(index) }).collect())
}

fn record(fields: Vec<(&str, Value)>, index: usize) -> Value {
    let mut r = Record::new();
    for (k, v) in fields {
        r.insert(FieldName::new(k.to_string()), Blamed { value: v, blame: blame_at(index) });
    }
    Value::Record(r)
}

// ── Equality ─────────────────────────────────────────────────

#[test]
fn equality_ignores_blame_of_items() {
    let a = list(vec![Value::Integer(1), Value::Integer(2)], 0);
    let b = list(vec![Value::Integer(1), Value::Integer(2)], 7);
    assert!(values_equal(&a, &b));
    assert!(values_equal(&b, &a));
}

#[test]
fn equality_distinguishes_kinds_and_values() {
    assert!(!values_equal(&Value::Integer(1), &Value::SignedInteger(1)));
    assert!(!values_equal(&Value::String("a".into()), &Value::Name("a".into())));
    assert!(values_equal(&Value::Undefined, &Value::Undefined));
    assert!(!values_equal(&list(vec![Value::Integer(1)], 0), &list(vec![Value::Integer(1), Value::Integer(2)], 0)));
    let r1 = record(vec![("a", Value::Bool(true))], 0);
    let r2 = record(vec![("a", Value::Bool(true))], 3);
    let r3 = record(vec![("b", Value::Bool(true))], 0);
    assert!(values_equal(&r1, &r2));
    assert!(!values_equal(&r1, &r3));
}

#[test]
fn concatenated_lists_equal_literal_list() {
    let joined = concat_lists(list(vec![Value::Integer(1)], 0), list(vec![Value::Integer(2)], 1)).unwrap();
    assert!(values_equal(&joined, &list(vec![Value::Integer(1), Value::Integer(2)], 2)));
}

// ── Operators ────────────────────────────────────────────────

#[test]
fn concat_requires_two_lists() {
    let err = concat_lists(Value::Integer(1), list(vec![], 0)).unwrap_err();
    assert_eq!(err, "++ requires two lists, got unsigned integer and list");
    let err = concat_lists(list(vec![], 0), Value::String("x".into())).unwrap_err();
    assert_eq!(err, "++ requires two lists, got list and string");
}

#[test]
fn merge_right_wins() {
    let a = record(vec![("x", Value::Integer(1)), ("y", Value::Integer(2))], 0);
    let b = record(vec![("y", Value::Integer(20)), ("z", Value::Integer(30))], 1);
    match merge_records(a, b).unwrap() {
        Value::Record(r) => {
            assert_eq!(r.len(), 3);
            assert_eq!(r.get_str("x").unwrap().value, Value::Integer(1));
            assert_eq!(r.get_str("y").unwrap().value, Value::Integer(20));
            assert_eq!(r.get_str("z").unwrap().value, Value::Integer(30));
        }
        _ => panic!("expected record"),
    }
}

#[test]
fn merge_requires_two_records() {
    let err = merge_records(record(vec![], 0), Value::Bool(true)).unwrap_err();
    assert_eq!(err, "// requires two records, got record and boolean");
}

#[test]
fn field_access_on_record_and_other() {
    let r = record(vec![("title", Value::String("Standup".into()))], 0);
    assert_eq!(access_field(&r, "title").unwrap(), Value::String("Standup".into()));
    assert_eq!(access_field(&r, "missing").unwrap(), Value::Undefined);
    assert_eq!(
        access_field(&Value::Integer(3), "title").unwrap_err(),
        "cannot access field `title` on non-record"
    );
}

#[test]
fn index_access_in_and_out_of_range() {
    let l = list(vec![Value::Integer(10), Value::Integer(20)], 0);
    assert_eq!(access_index(&l, &Value::Integer(1)), Value::Integer(20));
    assert_eq!(access_index(&l, &Value::Integer(2)), Value::Undefined);
    assert_eq!(access_index(&l, &Value::SignedInteger(0)), Value::Undefined);
    assert_eq!(access_index(&Value::Integer(0), &Value::Integer(0)), Value::Undefined);
}

#[test]
fn bindings_shadow_outer_ones() {
    let env = vec![
        ("x".to_string(), Value::Integer(1)),
        ("y".to_string(), Value::Integer(2)),
        ("x".to_string(), Value::Integer(3)),
    ];
    assert_eq!(lookup_binding(&env, "x").unwrap(), Value::Integer(3));
    assert_eq!(lookup_binding(&env, "y").unwrap(), Value::Integer(2));
    assert_eq!(lookup_binding(&env, "z").unwrap_err(), "undefined variable `z`");
}

// ── Import formats ───────────────────────────────────────────

#[test]
fn formats_from_content_type() {
    assert_eq!(infer_format_from_content_type("text/calendar; charset=utf-8"), ImportFormat::ICalendar);
    assert_eq!(infer_format_from_content_type("application/json"), ImportFormat::JSCalendar);
    assert_eq!(infer_format_from_content_type("application/jscalendar+json"), ImportFormat::JSCalendar);
    assert_eq!(infer_format_from_content_type("text/plain"), ImportFormat::Gnomon);
    assert_eq!(infer_format_from_content_type(""), ImportFormat::Gnomon);
}

#[test]
fn formats_from_source_and_defaults() {
    assert_eq!(infer_format_from_source(ImportFormat::Infer, "work.ics"), ImportFormat::ICalendar);
    assert_eq!(infer_format_from_source(ImportFormat::Infer, "feed.json"), ImportFormat::JSCalendar);
    assert_eq!(infer_format_from_source(ImportFormat::Infer, "other.gnomon"), ImportFormat::Infer);
    assert_eq!(infer_format_from_source(ImportFormat::Gnomon, "work.ics"), ImportFormat::Gnomon);
    assert_eq!(format_for_fetched(ImportFormat::Infer, "text/calendar"), ImportFormat::ICalendar);
    assert_eq!(format_for_fetched(ImportFormat::JSCalendar, "text/calendar"), ImportFormat::JSCalendar);
    assert_eq!(format_for_local(ImportFormat::Infer), ImportFormat::Gnomon);
    assert_eq!(cache_format_hint(ImportFormat::ICalendar), "icalendar");
    assert_eq!(cache_format_hint(ImportFormat::JSCalendar), "jscalendar");
    assert_eq!(cache_format_hint(ImportFormat::Infer), "gnomon");
    assert!(!EvalOptions::default().force_refresh);
}

// ── Cache decisions ──────────────────────────────────────────

#[test]
fn cache_key_is_url_namespace_uuid_v5() {
    assert_eq!(cache_key("https://example.com/cal.ics"), cache_key("https://example.com/cal.ics"));
    assert_ne!(cache_key("https://example.com/a"), cache_key("https://example.com/b"));
    // The version-5 UUID of this URL in the URL namespace.
    assert_eq!(cache_key("http://python.org/"), "4c565f0d-3f5a-5890-b41b-20cf47701c5e");
}

#[test]
fn cache_file_names() {
    assert_eq!(meta_file_name("k"), "k.meta.json");
    assert_eq!(content_file_name("k"), "k.content");
    assert!(is_meta_file_name("abc.meta.json"));
    assert!(!is_meta_file_name("abc.content"));
    assert_eq!(meta_stem("abc.meta.json"), Some("abc".to_string()));
    assert_eq!(meta_stem("abc.meta.json.meta.json"), Some("abc".to_string()));
    assert_eq!(meta_stem("abc.content"), None);
}

#[test]
fn cache_freshness_and_expiry() {
    assert!(is_fresh(1000, None, 1000 + 86_399));
    assert!(!is_fresh(1000, None, 1000 + 86_400));
    assert!(is_fresh(1000, Some(60), 1059));
    assert!(!is_fresh(1000, Some(60), 1060));
    assert!(is_fresh(1000, Some(60), 10));
    assert!(!is_expired(0, 2_591_999));
    assert!(is_expired(0, 2_592_000));
    assert!(!is_expired(5000, 10));
}

#[test]
fn cache_lookup_outcomes() {
    let meta = || CacheMeta {
        url: "u".to_string(),
        fetched_at: 100,
        content_type: "text/calendar".to_string(),
        refresh_interval_secs: Some(10),
    };
    match lookup_outcome(Some(meta()), 105, Some("BODY".to_string())) {
        CacheLookup::Hit { content, content_type } => {
            assert_eq!(content, "BODY");
            assert_eq!(content_type, "text/calendar");
        }
        CacheLookup::Miss => panic!("expected hit"),
    }
    assert!(matches!(lookup_outcome(Some(meta()), 110, Some("BODY".to_string())), CacheLookup::Miss));
    assert!(matches!(lookup_outcome(Some(meta()), 105, None), CacheLookup::Miss));
    assert!(matches!(lookup_outcome(None, 105, Some("BODY".to_string())), CacheLookup::Miss));
}

#[test]
fn cache_meta_records_refresh_interval_of_icalendar_only() {
    let ics = "BEGIN:VCALENDAR\r\nVERSION:2.0\r\nPRODID:-//T//T//EN\r\nREFRESH-INTERVAL;VALUE=DURATION:PT1H\r\nEND:VCALENDAR\r\n";
    let m = new_cache_meta("https://x/y.ics", ics, "text/calendar", "icalendar", 42);
    assert_eq!(m.url, "https://x/y.ics");
    assert_eq!(m.fetched_at, 42);
    assert_eq!(m.content_type, "text/calendar");
    assert_eq!(m.refresh_interval_secs, Some(3600));
    let m = new_cache_meta("https://x/y.ics", ics, "text/calendar", "gnomon", 42);
    assert_eq!(m.refresh_interval_secs, None);
}

// ── Reading plain values for output ──────────────────────────

fn plain(fields: Vec<(&str, ImportValue)>) -> ImportRecord {
    let mut r = ImportRecord::new();
    for (k, v) in fields {
        r.insert(k.to_string(), v);
    }
    r
}

#[test]
fn plain_value_conversions() {
    assert_eq!(as_str(&ImportValue::String("a".into())), Some("a"));
    assert_eq!(as_str(&ImportValue::Integer(1)), None);
    assert_eq!(import_value_to_u64(&ImportValue::SignedInteger(5)), Some(5));
    assert_eq!(import_value_to_u64(&ImportValue::SignedInteger(-5)), None);
    assert_eq!(import_value_to_i64(&ImportValue::Integer(u64::MAX)), None);
    assert_eq!(import_value_to_i64(&ImportValue::Integer(7)), Some(7));
    assert_eq!(import_value_to_i32(&ImportValue::Integer(1 << 31)), None);
    assert_eq!(import_value_to_i32(&ImportValue::SignedInteger(-(1 << 31))), Some(i32::MIN));
    assert_eq!(import_value_to_i32(&ImportValue::SignedInteger(-(1 << 31) - 1)), None);
}

#[test]
fn plain_field_getters() {
    let r = plain(vec![
        ("s", ImportValue::String("text".into())),
        ("n", ImportValue::Integer(9)),
        ("i", ImportValue::SignedInteger(-9)),
        ("b", ImportValue::Bool(true)),
        (
            "tags",
            ImportValue::List(vec![
                ImportValue::String("x".into()),
                ImportValue::Integer(1),
                ImportValue::String("y".into()),
                ImportValue::String("x".into()),
            ]),
        ),
        ("none", ImportValue::List(vec![ImportValue::Integer(1)])),
    ]);
    assert_eq!(get_str(&r, "s"), Some("text"));
    assert_eq!(get_str(&r, "n"), None);
    assert_eq!(get_u64(&r, "n"), Some(9));
    assert_eq!(get_u64(&r, "i"), None);
    assert_eq!(get_i64(&r, "i"), Some(-9));
    assert_eq!(get_i64(&r, "n"), Some(9));
    assert_eq!(get_bool(&r, "b"), Some(true));
    assert_eq!(get_bool(&r, "missing"), None);
    assert_eq!(get_string_set(&r, "tags"), Some(vec!["x".to_string(), "y".to_string()]));
    assert_eq!(get_string_set(&r, "none"), None);
    assert_eq!(get_string_set(&r, "s"), None);
}

#[test]
fn x_property_names() {
    assert_eq!(field_name_to_x_property("x_foo_bar"), "X-FOO-BAR");
    assert_eq!(field_name_to_x_property("plain"), "PLAIN");
}

#[test]
fn base64_decode_known_values() {
    assert_eq!(base64_decode("aGVsbG8="), Some(b"hello".to_vec()));
    assert_eq!(base64_decode("aGVs\r\nbG8="), Some(b"hello".to_vec()));
    assert_eq!(base64_decode("TWFu"), Some(b"Man".to_vec()));
    assert_eq!(base64_decode("TQ=="), Some(b"M".to_vec()));
    assert_eq!(base64_decode(""), Some(vec![]));
    assert_eq!(base64_decode("T"), None);
    assert_eq!(base64_decode("T$=="), None);
}

#[test]
fn base64_round_trip() {
    for data in [vec![], vec![0u8], vec![255u8, 0], b"any carnal pleas".to_vec(), (0..=255u8).collect::<Vec<u8>>()] {
        let encoded = base64_encode(&data);
        assert_eq!(base64_decode(&encoded), Some(data));
    }
}


#[test]
fn import_cycles_are_reported() {
    let stack = vec!["/cal/a.gnomon".to_string(), "/cal/b.gnomon".to_string()];
    assert_eq!(
        gnomon::lower::circular_import(&stack, "/cal/a.gnomon"),
        Some("circular import detected: /cal/a.gnomon".to_string())
    );
    assert_eq!(gnomon::lower::circular_import(&stack, "/cal/c.gnomon"), None);
    assert_eq!(gnomon::lower::circular_import(&Vec::new(), "/cal/a.gnomon"), None);
}
