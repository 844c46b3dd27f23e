use gnomon::desugar::EveryExpr;
use gnomon::input::{Database, SourceFile};
use gnomon::interned::{DeclId, DeclKind, FieldPath};
use gnomon::lower::ImportFormat;
use gnomon::lowering::{evaluate_repl_input, LowerCtx};
use gnomon::queries::TextRange;
use gnomon::syntax::{
    BinaryExpr, BinaryOp, EventExpr, Expr, FieldAccessExpr, FieldExpr, IndexExpr, LetBinding,
    LetExpr, LiteralKind, LiteralToken, RecordExpr, ShortDt, SourceFileExpr, SpannedText,
    StringToken, TaskExpr,
};
use gnomon::types::{Record, Value};

fn range(start: u32, end: u32) -> TextRange {
    TextRange { start, end }
}

fn lit(kind: LiteralKind, text: &str) -> Expr {
    Expr::Literal(Some(LiteralToken { kind, text: text.to_string(), range: range(0, text.len() as u32) }))
}

fn num(n: u64) -> Expr {
    lit(LiteralKind::Integer, &n.to_string())
}

fn string(s: &str) -> Expr {
    lit(LiteralKind::String, &format!("\"{s}\""))
}

fn record(fields: Vec<(&str, Expr)>) -> RecordExpr {
    RecordExpr {
        fields: fields.into_iter().map(|(k, v)| FieldExpr { name: Some(k.to_string()), value: Some(v) }).collect(),
    }
}

fn ident(name: &str) -> Expr {
    Expr::Ident(Some(SpannedText { text: name.to_string(), range: range(5, 5 + name.len() as u32) }))
}

fn binary(lhs: Expr, op: BinaryOp, rhs: Expr) -> Expr {
    Expr::Binary(BinaryExpr { lhs: Some(Box::new(lhs)), op: Some((op, range(3, 5))), rhs: Some(Box::new(rhs)) })
}

fn let_in(name: &str, bound: Expr, body: Expr) -> Expr {
    Expr::Let(LetExpr { name: Some(name.to_string()), bound: Some(Box::new(bound)), body: Some(Box::new(body)) })
}

fn file(bindings: Vec<(&str, Expr)>, body: Vec<Expr>) -> SourceFileExpr {
    SourceFileExpr {
        bindings: bindings
            .into_iter()
            .map(|(n, v)| LetBinding { name: Some(n.to_string()), value: Some(v) })
            .collect(),
        body,
    }
}

fn eval(f: &SourceFileExpr) -> (Value, Vec<String>) {
    let mut db = Database::new();
    let source = SourceFile::new(&mut db, "test.gnomon".to_string(), String::new());
    let mut ctx = LowerCtx::new(source);
    let v = ctx.lower_source_file(f);
    (v, ctx.diagnostics.iter().map(|d| d.message.clone()).collect())
}

fn single_decl(v: &Value) -> &Record {
    match v {
        Value::List(items) => {
            assert_eq!(items.len(), 1);
            match &items[0].value {
                Value::Record(r) => r,
                other => panic!("expected record, got {other:?}"),
            }
        }
        other => panic!("expected list, got {other:?}"),
    }
}

fn field<'a>(r: &'a Record, name: &str) -> &'a Value {
    &r.get_str(name).unwrap().value
}

#[test]
fn lowering_empty_file_is_empty_list() {
    let (v, d) = eval(&file(vec![], vec![]));
    assert_eq!(v, Value::List(vec![]));
    assert!(d.is_empty());
}

#[test]
fn lowering_calendar_gets_type() {
    let (v, _) = eval(&file(vec![], vec![Expr::Calendar(Some(record(vec![("uid", string("test-cal"))])))]));
    let r = single_decl(&v);
    assert_eq!(field(r, "uid"), &Value::String("test-cal".into()));
    assert_eq!(field(r, "type"), &Value::String("calendar".into()));
}

#[test]
fn lowering_event_short_form_with_body() {
    let ev = EventExpr {
        name: Some("@meeting".to_string()),
        start: Some(ShortDt { datetime: Some("2026-03-01T14:30".to_string()), date: None, time: None }),
        duration: Some("1h30m".to_string()),
        title: Some(StringToken { triple: false, text: "\"Standup\"".to_string() }),
        body: Some(record(vec![("priority", num(5))])),
    };
    let (v, d) = eval(&file(vec![], vec![Expr::Event(ev)]));
    assert!(d.is_empty(), "{d:?}");
    let r = single_decl(&v);
    assert_eq!(field(r, "name"), &Value::Name("meeting".into()));
    assert_eq!(field(r, "title"), &Value::String("Standup".into()));
    assert_eq!(field(r, "priority"), &Value::Integer(5));
    assert_eq!(field(r, "type"), &Value::String("event".into()));
    assert!(matches!(field(r, "start"), Value::Record(_)));
    match field(r, "duration") {
        Value::Record(dur) => {
            assert_eq!(field(dur, "hours"), &Value::Integer(1));
            assert_eq!(field(dur, "minutes"), &Value::Integer(30));
        }
        other => panic!("expected duration record, got {other:?}"),
    }
}

#[test]
fn lowering_task_short_form_date_plus_time() {
    let t = TaskExpr {
        name: Some("@review".to_string()),
        due: Some(ShortDt { datetime: None, date: Some("2026-03-15".to_string()), time: Some("17:00".to_string()) }),
        title: Some(StringToken { triple: true, text: "\"\"\"Code review\"\"\"".to_string() }),
        body: None,
    };
    let (v, _) = eval(&file(vec![], vec![Expr::Task(t)]));
    let r = single_decl(&v);
    assert_eq!(field(r, "type"), &Value::String("task".into()));
    assert_eq!(field(r, "title"), &Value::String("Code review".into()));
    match field(r, "due") {
        Value::Record(dt) => {
            assert!(dt.get_str("date").is_some());
            assert!(dt.get_str("time").is_some());
        }
        other => panic!("expected due record, got {other:?}"),
    }
}

#[test]
fn lowering_declarations_are_blamed_by_position() {
    let (v, _) = eval(&file(
        vec![],
        vec![
            Expr::Calendar(Some(record(vec![("uid", string("a"))]))),
            Expr::Calendar(Some(record(vec![("uid", string("b"))]))),
        ],
    ));
    match &v {
        Value::List(items) => {
            assert_eq!(items[0].blame.decl.index, 0);
            assert_eq!(items[1].blame.decl.index, 1);
            assert_eq!(items[1].blame.decl.kind, DeclKind::Calendar);
            match &items[0].value {
                Value::Record(r) => assert_eq!(r.get_str("uid").unwrap().blame.path.0.len(), 1),
                _ => panic!("expected record"),
            }
        }
        _ => panic!("expected list"),
    }
}

#[test]
fn lowering_let_bindings_nest_and_shadow() {
    let e = let_in("x", num(1), let_in("y", ident("x"), let_in("x", num(3), Expr::Record(record(vec![("a", ident("x")), ("b", ident("y"))])))));
    let (v, d) = eval(&file(vec![], vec![e]));
    assert!(d.is_empty());
    match &v {
        Value::Record(r) => {
            assert_eq!(field(r, "a"), &Value::Integer(3));
            assert_eq!(field(r, "b"), &Value::Integer(1));
        }
        other => panic!("expected record, got {other:?}"),
    }
}

#[test]
fn lowering_file_level_let_used_in_body() {
    let (v, _) = eval(&file(vec![("x", num(42))], vec![Expr::Record(record(vec![("count", ident("x"))]))]));
    match &v {
        Value::Record(r) => assert_eq!(field(r, "count"), &Value::Integer(42)),
        other => panic!("expected record, got {other:?}"),
    }
}

#[test]
fn lowering_undefined_variable_is_reported() {
    let (v, d) = eval(&file(vec![], vec![ident("nope")]));
    assert_eq!(v, Value::Undefined);
    assert_eq!(d, vec!["undefined variable `nope`".to_string()]);
}

#[test]
fn lowering_operators() {
    let list = |xs: Vec<u64>| Expr::List(xs.into_iter().map(num).collect());
    let (v, _) = eval(&file(vec![], vec![binary(binary(list(vec![1]), BinaryOp::Concat, list(vec![2])), BinaryOp::Eq, list(vec![1, 2]))]));
    assert_eq!(v, Value::Bool(true));
    let (v, _) = eval(&file(vec![], vec![binary(num(1), BinaryOp::NotEq, num(1))]));
    assert_eq!(v, Value::Bool(false));
    let (v, _) = eval(&file(vec![], vec![binary(
        Expr::Record(record(vec![("a", num(1))])),
        BinaryOp::Merge,
        binary(Expr::Record(record(vec![("a", num(2))])), BinaryOp::Merge, Expr::Record(record(vec![("a", num(3)), ("b", num(4))]))),
    )]));
    match &v {
        Value::Record(r) => {
            assert_eq!(field(r, "a"), &Value::Integer(3));
            assert_eq!(field(r, "b"), &Value::Integer(4));
        }
        other => panic!("expected record, got {other:?}"),
    }
    let (v, d) = eval(&file(vec![], vec![binary(num(1), BinaryOp::Concat, list(vec![2]))]));
    assert_eq!(v, Value::Undefined);
    assert_eq!(d, vec!["++ requires two lists, got unsigned integer and list".to_string()]);
}

#[test]
fn lowering_field_and_index_access() {
    let fa = Expr::FieldAccess(FieldAccessExpr {
        target: Some(Box::new(Expr::Record(record(vec![("x", num(42))])))),
        field: Some(SpannedText { text: "x".to_string(), range: range(8, 9) }),
    });
    assert_eq!(eval(&file(vec![], vec![fa])).0, Value::Integer(42));
    let bad = Expr::FieldAccess(FieldAccessExpr {
        target: Some(Box::new(num(1))),
        field: Some(SpannedText { text: "x".to_string(), range: range(2, 3) }),
    });
    let (v, d) = eval(&file(vec![], vec![bad]));
    assert_eq!(v, Value::Undefined);
    assert_eq!(d, vec!["cannot access field `x` on non-record".to_string()]);
    let ix = Expr::Index(IndexExpr {
        target: Some(Box::new(Expr::List(vec![num(10), num(20), num(30)]))),
        index: Some(Box::new(num(1))),
    });
    assert_eq!(eval(&file(vec![], vec![ix])).0, Value::Integer(20));
}

#[test]
fn lowering_literals_and_every() {
    let (v, _) = eval(&file(vec![], vec![Expr::Paren(Some(Box::new(num(42))))]));
    assert_eq!(v, Value::Integer(42));
    let (v, _) = eval(&file(vec![], vec![lit(LiteralKind::SignedInteger, "-7")]));
    assert_eq!(v, Value::SignedInteger(-7));
    let (v, _) = eval(&file(vec![], vec![lit(LiteralKind::Atom, "#confirmed")]));
    assert_eq!(v, Value::String("confirmed".into()));
    let (v, _) = eval(&file(vec![], vec![lit(LiteralKind::Uri, "<https://example.com>")]));
    assert_eq!(v, Value::String("https://example.com".into()));
    let (v, d) = eval(&file(vec![], vec![lit(LiteralKind::Other("IDENT".into()), "x")]));
    assert_eq!(v, Value::Undefined);
    assert_eq!(d, vec!["unexpected literal token kind: IDENT".to_string()]);
    let every = EveryExpr {
        day_kw: true,
        year_kw: false,
        month_day: None,
        weekday: None,
        until_kw: false,
        until_datetime: None,
        until_date: None,
        until_count: None,
    };
    let (v, _) = eval(&file(vec![], vec![Expr::Record(record(vec![("rrule", Expr::Every(every))]))]));
    match &v {
        Value::Record(r) => match field(r, "rrule") {
            Value::Record(rule) => assert_eq!(field(rule, "frequency"), &Value::String("daily".into())),
            other => panic!("expected rule record, got {other:?}"),
        },
        other => panic!("expected record, got {other:?}"),
    }
}

#[test]
fn lowering_list_items_blamed_by_index() {
    let mut db = Database::new();
    let source = SourceFile::new(&mut db, "t.gnomon".to_string(), String::new());
    let mut ctx = LowerCtx::new(source);
    let decl = DeclId::new(source, 0, DeclKind::Expr);
    let v = ctx.lower_top_expr(&Expr::List(vec![num(1), num(2)]), decl, &FieldPath::root());
    match &v {
        Value::List(items) => assert_eq!(items[1].blame.path, FieldPath::root().index(1)),
        other => panic!("expected list, got {other:?}"),
    }
}

#[test]
fn lowering_foreign_import_reports_parse_errors() {
    let mut db = Database::new();
    let source = SourceFile::new(&mut db, "t.gnomon".to_string(), String::new());
    let mut ctx = LowerCtx::new(source);
    let v = ctx.import_foreign(ImportFormat::JSCalendar, "not json{", range(0, 4));
    assert_eq!(v, Value::Undefined);
    assert_eq!(ctx.diagnostics.len(), 1);
    assert!(ctx.diagnostics[0].message.starts_with("JSCalendar JSON parse error: "));
    let ics = "BEGIN:VCALENDAR\r\nVERSION:2.0\r\nPRODID:-//T//T//EN\r\nEND:VCALENDAR\r\n";
    let v = ctx.import_foreign(ImportFormat::ICalendar, ics, range(0, 4));
    assert!(matches!(v, Value::List(_)));
    assert_eq!(ctx.diagnostics.len(), 1);
}

#[test]
fn lowering_repl_input_sees_and_extends_bindings() {
    let mut db = Database::new();
    let source = SourceFile::new(&mut db, "repl".to_string(), String::new());
    let env = vec![("x".to_string(), Value::Integer(1))];
    let input = file(vec![("y", ident("x"))], vec![ident("y")]);
    let r = evaluate_repl_input(source, &input, &env);
    assert_eq!(r.value, Value::Integer(1));
    assert!(r.diagnostics.is_empty());
    assert_eq!(r.new_bindings, vec![("y".to_string(), Value::Integer(1))]);
}
