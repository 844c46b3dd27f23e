//! Lowering a syntax tree to a value: literals to values, records and
//! lists with every part blamed on its declaration and path, `let`
//! bindings in scope, operators, and the short forms of events and tasks.
//! The diagnostics lowering reports come with the value.
use vstd::prelude::*;

use crate::desugar::{
    desugar_date, desugar_date_and_time, desugar_datetime, desugar_duration, desugar_every,
    desugar_month_day, desugar_time, owned, spec_desugar_date, spec_desugar_date_and_time, spec_desugar_datetime, spec_desugar_duration,
    spec_desugar_every, spec_desugar_month_day, spec_desugar_time,
};
use crate::input::SourceFile;
use crate::interned::{FieldName, FieldPath};
use crate::literals::{eval_atom, eval_integer, eval_name, eval_signed_integer, eval_string, eval_triple_string, eval_uri};
use crate::queries::Diagnostic;
use crate::shape::push_diag;
use crate::text::{from_chars, push_str, str_eq, to_chars};
use crate::types::{copy_value, Blame, Blamed, Record, Value};
use crate::interned::{DeclId, DeclKind, SegView};
use crate::keyed::{key_insert, key_lookup};
use crate::literals::{spec_dedent, spec_process_escapes, triple_inner};
use crate::ical_source::ical_parse_failure;
use crate::jscal_source::json_parse_failure;
use crate::lower::{merge_fields, value_eq, ImportFormat};
use crate::queries::{Severity, TextRange};
use crate::shape::{diags_view, view_type_name, DiagView};
use crate::syntax::{
    expr_ok, fields_ok, items_ok, literal_ok, opt_expr_ok, opt_name_ok, opt_string_token_ok,
    string_token_ok, BinaryExpr, FieldAccessExpr, IndexExpr, LetExpr, RecordExpr, BinaryOp, EventExpr, Expr, FieldExpr, LetBinding, LiteralKind, LiteralToken, ShortDt,
    SourceFileExpr, StringToken, TaskExpr,
};
use crate::text::{spec_parse_i64, spec_parse_u64};
use crate::types::{BlameView, RecordView, ValueView};

verus! {

broadcast use {crate::types::lemma_value_view_unfold, crate::import_value::lemma_import_view_unfold};

/// The bindings in scope, innermost last.
pub type EnvView = Seq<(Seq<char>, ValueView)>;

/// The value bound to `name` by the innermost binding that names it.
pub open spec fn env_get(env: EnvView, name: Seq<char>) -> Option<ValueView>
    decreases env.len(),
{
    if env.len() == 0 {
        None
    } else if env.last().0 == name {
        Some(env.last().1)
    } else {
        env_get(env.drop_last(), name)
    }
}

/// An error at a range of a file.
pub open spec fn error_in(source: SourceFile, range: TextRange, message: Seq<char>) -> DiagView {
    DiagView { source, range, severity: Severity::Error, message }
}

pub open spec fn blame_at(decl: DeclId, path: Seq<SegView>) -> BlameView {
    BlameView { decl, path }
}


// ── Literals ───────────────────────────────────────────────────

/// The text of a string token: escapes processed, and a triple-quoted one
/// dedented.
pub open spec fn string_token_text(t: StringToken) -> Seq<char> {
    if t.triple {
        spec_dedent(spec_process_escapes(triple_inner(t.text@)))
    } else {
        spec_process_escapes(t.text@.subrange(1, t.text@.len() - 1))
    }
}

/// The value of a literal token blamed on `b`; `None` when the token does
/// not denote a value.
pub open spec fn literal_value(t: LiteralToken, b: BlameView) -> Option<ValueView> {
    let s = t.text@;
    match t.kind {
        LiteralKind::Integer => match spec_parse_u64(s) {
            Some(n) => Some(ValueView::Integer(n)),
            None => None,
        },
        LiteralKind::SignedInteger => match spec_parse_i64(s) {
            Some(n) => Some(ValueView::SignedInteger(n)),
            None => None,
        },
        LiteralKind::String => Some(ValueView::String(spec_process_escapes(s.subrange(1, s.len() - 1)))),
        LiteralKind::TripleString => Some(ValueView::String(spec_dedent(spec_process_escapes(triple_inner(s))))),
        LiteralKind::True => Some(ValueView::Bool(true)),
        LiteralKind::False => Some(ValueView::Bool(false)),
        LiteralKind::Undefined => Some(ValueView::Undefined),
        LiteralKind::Name => Some(ValueView::Name(s.skip(1))),
        LiteralKind::Date => spec_desugar_date(s, b),
        LiteralKind::MonthDay => spec_desugar_month_day(s, b),
        LiteralKind::Time => spec_desugar_time(s, b),
        LiteralKind::DateTime => spec_desugar_datetime(s, b),
        LiteralKind::Duration => spec_desugar_duration(s, b),
        LiteralKind::Uri => Some(ValueView::String(s.subrange(1, s.len() - 1))),
        LiteralKind::Atom => Some(ValueView::String(s.skip(1))),
        LiteralKind::Path => Some(ValueView::Path(s)),
        LiteralKind::Other(_) => None,
    }
}

/// The diagnostics of a literal: one for a token of no literal kind.
pub open spec fn literal_diags(source: SourceFile, t: LiteralToken) -> Seq<DiagView> {
    match t.kind {
        LiteralKind::Other(k) => seq![error_in(source, t.range, "unexpected literal token kind: "@ + k@)],
        _ => seq![],
    }
}

/// The date-time of a short form: its date-time token, or its date and
/// time tokens together.
pub open spec fn short_dt_value(dt: ShortDt, b: BlameView) -> Option<ValueView> {
    match dt.datetime {
        Some(s) => spec_desugar_datetime(s@, b),
        None => match dt.date {
            Some(d) => match dt.time {
                Some(t) => spec_desugar_date_and_time(d@, t@, b),
                None => None,
            },
            None => None,
        },
    }
}

// ── Expressions ────────────────────────────────────────────────

/// What lowering gives: a value and the diagnostics reported on the way.
pub type Lowered = (ValueView, Seq<DiagView>);

pub open spec fn undefined_lowered() -> Lowered {
    (ValueView::Undefined, seq![])
}

/// The message of `++` applied to something other than two lists.
pub open spec fn concat_message(l: ValueView, r: ValueView) -> Seq<char> {
    "++ requires two lists, got "@ + view_type_name(l) + " and "@ + view_type_name(r)
}

/// The message of `//` applied to something other than two records.
pub open spec fn merge_message(l: ValueView, r: ValueView) -> Seq<char> {
    "// requires two records, got "@ + view_type_name(l) + " and "@ + view_type_name(r)
}

/// A binary operator applied to two lowered operands.
pub open spec fn binary_lowered(
    source: SourceFile,
    op: Option<(BinaryOp, TextRange)>,
    l: Lowered,
    r: Lowered,
) -> Lowered {
    let d = l.1 + r.1;
    match op {
        Some((o, range)) => match o {
            BinaryOp::Concat => match (l.0, r.0) {
                (ValueView::List(a), ValueView::List(b)) => (ValueView::List(a + b), d),
                _ => (ValueView::Undefined, d.push(error_in(source, range, concat_message(l.0, r.0)))),
            },
            BinaryOp::Merge => match (l.0, r.0) {
                (ValueView::Record(a), ValueView::Record(b)) => (ValueView::Record(merge_fields(a, b)), d),
                _ => (ValueView::Undefined, d.push(error_in(source, range, merge_message(l.0, r.0)))),
            },
            BinaryOp::Eq => (ValueView::Bool(value_eq(l.0, r.0)), d),
            BinaryOp::NotEq => (ValueView::Bool(!value_eq(l.0, r.0)), d),
            BinaryOp::Other => (ValueView::Undefined, d),
        },
        None => (ValueView::Undefined, d),
    }
}

/// `target[index]` on lowered operands.
pub open spec fn index_value(t: ValueView, i: ValueView) -> ValueView {
    match t {
        ValueView::List(items) => match i {
            ValueView::Integer(n) => if n < items.len() {
                items[n as int].0
            } else {
                ValueView::Undefined
            },
            _ => ValueView::Undefined,
        },
        _ => ValueView::Undefined,
    }
}

/// The field `type` set to `kind` on a declaration's record.
pub open spec fn typed(fields: RecordView, kind: Seq<char>, decl: DeclId, path: Seq<SegView>) -> RecordView {
    key_insert(fields, "type"@, (ValueView::String(kind), blame_at(decl, path.push(SegView::Field("type"@)))))
}

/// Lowering an expression of `source`, in the scope `env`, as part
/// `path` of declaration `decl`.
pub open spec fn lower_expr(source: SourceFile, e: Expr, env: EnvView, decl: DeclId, path: Seq<SegView>) -> Lowered
    decreases e, 1nat,
{
    match e {
        Expr::Literal(t) => match t {
            Some(tok) => (
                match literal_value(tok, blame_at(decl, path)) {
                    Some(v) => v,
                    None => ValueView::Undefined,
                },
                literal_diags(source, tok),
            ),
            None => undefined_lowered(),
        },
        Expr::Record(r) => {
            let (fs, d) = lower_fields(source, r.fields@, env, decl, path);
            (ValueView::Record(fs), d)
        },
        Expr::List(items) => {
            let (vs, d) = lower_items(source, items@, env, decl, path);
            (ValueView::List(vs), d)
        },
        Expr::Every(ev) => (
            match spec_desugar_every(ev, blame_at(decl, path)) {
                Some(v) => v,
                None => ValueView::Undefined,
            },
            seq![],
        ),
        Expr::Paren(inner) => lower_opt(source, inner, env, decl, path),
        Expr::Ident(t) => match t {
            Some(tok) => match env_get(env, tok.text@) {
                Some(v) => (v, seq![]),
                None => (
                    ValueView::Undefined,
                    seq![error_in(source, tok.range, "undefined variable `"@ + tok.text@ + "`"@)],
                ),
            },
            None => undefined_lowered(),
        },
        Expr::Let(l) => {
            let bound = lower_opt(source, l.bound, env, decl, path);
            let name = match l.name {
                Some(n) => n@,
                None => Seq::empty(),
            };
            let body = lower_opt(source, l.body, env.push((name, bound.0)), decl, path);
            (body.0, bound.1 + body.1)
        },
        Expr::Binary(b) => binary_lowered(
            source,
            b.op,
            lower_opt(source, b.lhs, env, decl, path),
            lower_opt(source, b.rhs, env, decl, path),
        ),
        Expr::FieldAccess(f) => match f.target {
            Some(t) => {
                let target = lower_expr(source, *t, env, decl, path);
                match f.field {
                    Some(name) => match target.0 {
                        ValueView::Record(fs) => (
                            match key_lookup(fs, name.text@) {
                                Some(b) => b.0,
                                None => ValueView::Undefined,
                            },
                            target.1,
                        ),
                        _ => (
                            ValueView::Undefined,
                            target.1.push(
                                error_in(
                                    source,
                                    name.range,
                                    "cannot access field `"@ + name.text@ + "` on non-record"@,
                                ),
                            ),
                        ),
                    },
                    None => (ValueView::Undefined, target.1),
                }
            },
            None => undefined_lowered(),
        },
        Expr::Index(ix) => match ix.target {
            Some(t) => {
                let target = lower_expr(source, *t, env, decl, path);
                match ix.index {
                    Some(i) => {
                        let index = lower_expr(source, *i, env, decl, path);
                        (index_value(target.0, index.0), target.1 + index.1)
                    },
                    None => (ValueView::Undefined, target.1),
                }
            },
            None => undefined_lowered(),
        },
        Expr::Import(imp) => (imp.value@, diags_view(imp.diagnostics@)),
        Expr::Calendar(body) => {
            let (fs, d) = match body {
                Some(r) => lower_fields(source, r.fields@, env, decl, path),
                None => (Seq::empty(), seq![]),
            };
            (ValueView::Record(typed(fs, "calendar"@, decl, path)), d)
        },
        Expr::Event(ev) => {
            let (fs, d) = lower_event(source, ev, env, decl);
            (ValueView::Record(typed(fs, "event"@, decl, path)), d)
        },
        Expr::Task(t) => {
            let (fs, d) = lower_task(source, t, env, decl);
            (ValueView::Record(typed(fs, "task"@, decl, path)), d)
        },
    }
}

/// Lowering an optional part: undefined when the parser left it out.
pub open spec fn lower_opt(
    source: SourceFile,
    e: Option<Box<Expr>>,
    env: EnvView,
    decl: DeclId,
    path: Seq<SegView>,
) -> Lowered
    decreases e, 0nat,
{
    match e {
        Some(b) => lower_expr(source, *b, env, decl, path),
        None => undefined_lowered(),
    }
}

/// Lowering the items of a list, each at its index under `path`.
pub open spec fn lower_items(
    source: SourceFile,
    items: Seq<Expr>,
    env: EnvView,
    decl: DeclId,
    path: Seq<SegView>,
) -> (Seq<(ValueView, BlameView)>, Seq<DiagView>)
    decreases items, 0nat,
{
    if items.len() == 0 {
        (seq![], seq![])
    } else {
        proof {
            broadcast use vstd::seq::axiom_seq_index_decreases;

            assert(decreases_to!(items => items.last()));
        }
        let (vs, d) = lower_items(source, items.drop_last(), env, decl, path);
        let p = path.push(SegView::Index((items.len() - 1) as usize));
        let (v, vd) = lower_expr(source, items.last(), env, decl, p);
        (vs.push((v, blame_at(decl, p))), d + vd)
    }
}

/// Lowering the fields of a record expression in turn, each at its name
/// under `path`; a field the parser left incomplete is skipped.
pub open spec fn lower_fields(
    source: SourceFile,
    fields: Seq<FieldExpr>,
    env: EnvView,
    decl: DeclId,
    path: Seq<SegView>,
) -> (RecordView, Seq<DiagView>)
    decreases fields, 0nat,
{
    if fields.len() == 0 {
        (seq![], seq![])
    } else {
        proof {
            broadcast use vstd::seq::axiom_seq_index_decreases;

            assert(decreases_to!(fields => fields.last()));
        }
        let (r, d) = lower_fields(source, fields.drop_last(), env, decl, path);
        let f = fields.last();
        match f.name {
            Some(n) => match f.value {
                Some(v) => {
                    let p = path.push(SegView::Field(n@));
                    let (x, xd) = lower_expr(source, v, env, decl, p);
                    (key_insert(r, n@, (x, blame_at(decl, p))), d + xd)
                },
                None => (r, d),
            },
            None => (r, d),
        }
    }
}

/// A field of a short form at the root of its declaration.
pub open spec fn root_field(fs: RecordView, name: Seq<char>, v: ValueView, decl: DeclId) -> RecordView {
    key_insert(fs, name, (v, blame_at(decl, seq![SegView::Field(name)])))
}

/// A field of a short form, where there is a value for it.
pub open spec fn opt_root_field(fs: RecordView, name: Seq<char>, v: Option<ValueView>, decl: DeclId) -> RecordView {
    match v {
        Some(x) => root_field(fs, name, x, decl),
        None => fs,
    }
}

/// The date-time of a short form, where it has one that desugars.
pub open spec fn short_dt_of(dt: Option<ShortDt>, name: Seq<char>, decl: DeclId) -> Option<ValueView> {
    match dt {
        Some(x) => short_dt_value(x, blame_at(decl, seq![SegView::Field(name)])),
        None => None,
    }
}

/// The title of a short form.
pub open spec fn title_of(t: Option<StringToken>) -> Option<ValueView> {
    match t {
        Some(s) => Some(ValueView::String(string_token_text(s))),
        None => None,
    }
}

/// The body of a declaration merged over `fs`, with its diagnostics.
pub open spec fn with_body(
    source: SourceFile,
    fs: RecordView,
    body: Option<crate::syntax::RecordExpr>,
    env: EnvView,
    decl: DeclId,
) -> (RecordView, Seq<DiagView>)
    decreases body, 0nat,
{
    match body {
        Some(r) => {
            let (b, d) = lower_fields(source, r.fields@, env, decl, seq![]);
            (merge_fields(fs, b), d)
        },
        None => (fs, seq![]),
    }
}

/// The fields of an event: in the short form its name, start, duration
/// and title, then its body's fields; otherwise its body's.
pub open spec fn lower_event(source: SourceFile, ev: EventExpr, env: EnvView, decl: DeclId) -> (RecordView, Seq<DiagView>)
    decreases ev, 0nat,
{
    match ev.name {
        Some(n) => {
            let f0 = root_field(Seq::empty(), "name"@, ValueView::Name(n@.skip(1)), decl);
            let f1 = opt_root_field(f0, "start"@, short_dt_of(ev.start, "start"@, decl), decl);
            let dur = match ev.duration {
                Some(t) => spec_desugar_duration(t@, blame_at(decl, seq![SegView::Field("duration"@)])),
                None => None,
            };
            let f2 = opt_root_field(f1, "duration"@, dur, decl);
            let f3 = opt_root_field(f2, "title"@, title_of(ev.title), decl);
            with_body(source, f3, ev.body, env, decl)
        },
        None => with_body(source, Seq::empty(), ev.body, env, decl),
    }
}

/// The fields of a task: in the short form its name, due date-time and
/// title, then its body's fields; otherwise its body's.
pub open spec fn lower_task(source: SourceFile, t: TaskExpr, env: EnvView, decl: DeclId) -> (RecordView, Seq<DiagView>)
    decreases t, 0nat,
{
    match t.name {
        Some(n) => {
            let f0 = root_field(Seq::empty(), "name"@, ValueView::Name(n@.skip(1)), decl);
            let f1 = opt_root_field(f0, "due"@, short_dt_of(t.due, "due"@, decl), decl);
            let f2 = opt_root_field(f1, "title"@, title_of(t.title), decl);
            with_body(source, f2, t.body, env, decl)
        },
        None => with_body(source, Seq::empty(), t.body, env, decl),
    }
}


// ── Lowering ───────────────────────────────────────────────────

/// The bindings in scope as their mathematical form.
pub open spec fn env_view(env: Seq<(String, Value)>) -> EnvView {
    env.map_values(|b: (String, Value)| (b.0@, b.1@))
}

/// The state of lowering one file: the file, the `let` bindings in scope
/// (innermost last) and the diagnostics reported so far.
pub struct LowerCtx {
    pub source: SourceFile,
    pub env: Vec<(String, Value)>,
    pub diagnostics: Vec<Diagnostic>,
}

/// The string for a literal kind's text, for a literal token.
fn string_of(t: &StringToken) -> (r: String)
    requires
        string_token_ok(*t),
    ensures
        r@ == string_token_text(*t),
{
    if t.triple {
        eval_triple_string(t.text.as_str())
    } else {
        eval_string(t.text.as_str())
    }
}

fn blame_of(decl: DeclId, path: &FieldPath) -> (b: Blame)
    ensures
        b@ == blame_at(decl, path@),
{
    Blame { decl, path: path.clone() }
}

/// The value of a literal token blamed on `blame`.
fn literal_of(t: &LiteralToken, blame: &Blame) -> (r: Option<Value>)
    requires
        literal_ok(*t),
    ensures
        match r {
            Some(v) => literal_value(*t, blame@) == Some(v@),
            None => literal_value(*t, blame@) is None,
        },
{
    let s = t.text.as_str();
    match &t.kind {
        LiteralKind::Integer => match eval_integer(s) {
            Some(n) => Some(Value::Integer(n)),
            None => None,
        },
        LiteralKind::SignedInteger => match eval_signed_integer(s) {
            Some(n) => Some(Value::SignedInteger(n)),
            None => None,
        },
        LiteralKind::String => Some(Value::String(eval_string(s))),
        LiteralKind::TripleString => Some(Value::String(eval_triple_string(s))),
        LiteralKind::True => Some(Value::Bool(true)),
        LiteralKind::False => Some(Value::Bool(false)),
        LiteralKind::Undefined => Some(Value::Undefined),
        LiteralKind::Name => Some(Value::Name(eval_name(s))),
        LiteralKind::Date => desugar_date(s, blame),
        LiteralKind::MonthDay => desugar_month_day(s, blame),
        LiteralKind::Time => desugar_time(s, blame),
        LiteralKind::DateTime => desugar_datetime(s, blame),
        LiteralKind::Duration => desugar_duration(s, blame),
        LiteralKind::Uri => Some(Value::String(eval_uri(s))),
        LiteralKind::Atom => Some(Value::String(eval_atom(s))),
        LiteralKind::Path => Some(Value::Path(owned(s))),
        LiteralKind::Other(_) => None,
    }
}

/// The date-time of a short form.
fn short_dt_of_exec(dt: &ShortDt, blame: &Blame) -> (r: Option<Value>)
    ensures
        match r {
            Some(v) => short_dt_value(*dt, blame@) == Some(v@),
            None => short_dt_value(*dt, blame@) is None,
        },
{
    match &dt.datetime {
        Some(s) => desugar_datetime(s.as_str(), blame),
        None => match &dt.date {
            Some(d) => match &dt.time {
                Some(t) => desugar_date_and_time(d.as_str(), t.as_str(), blame),
                None => None,
            },
            None => None,
        },
    }
}

fn error_diag(source: SourceFile, range: TextRange, message: Vec<char>) -> (d: Diagnostic)
    ensures
        d@ == error_in(source, range, message@),
{
    Diagnostic { source, range, severity: Severity::Error, message: from_chars(message.as_slice()) }
}

/// The name of a value's type, as both forms of it say.
proof fn lemma_type_names(v: Value)
    ensures
        crate::types::spec_type_name(v) == view_type_name(v@),
{
}

/// What a step of lowering does: the file stays, the bindings in scope are
/// as before, the result is `l`'s value and `l`'s diagnostics are added.
pub open spec fn lowers(before: LowerCtx, after: LowerCtx, r: ValueView, l: Lowered) -> bool {
    &&& after.source == before.source
    &&& after.env@ == before.env@
    &&& r == l.0
    &&& diags_view(after.diagnostics@) == diags_view(before.diagnostics@) + l.1
}

impl LowerCtx {
    /// A fresh lowering of `source`: no bindings, no diagnostics.
    pub fn new(source: SourceFile) -> (c: LowerCtx)
        ensures
            c.source == source,
            c.env@.len() == 0,
            c.diagnostics@.len() == 0,
    {
        LowerCtx { source, env: Vec::new(), diagnostics: Vec::new() }
    }

    fn emit(&mut self, range: TextRange, message: Vec<char>)
        ensures
            final(self).source == old(self).source,
            final(self).env@ == old(self).env@,
            diags_view(final(self).diagnostics@) == diags_view(old(self).diagnostics@).push(
                error_in(old(self).source, range, message@),
            ),
    {
        let d = error_diag(self.source, range, message);
        push_diag(&mut self.diagnostics, d);
    }

    /// The value bound to `name` by the innermost binding in scope.
    fn lookup(&self, name: &str) -> (r: Option<Value>)
        ensures
            match env_get(env_view(self.env@), name@) {
                Some(v) => r matches Some(x) && x@ == v,
                None => r is None,
            },
    {
        let mut i: usize = self.env.len();
        assert(self.env@.take(i as int) =~= self.env@);
        while i > 0
            invariant
                i <= self.env@.len(),
                env_get(env_view(self.env@.take(i as int)), name@) == env_get(env_view(self.env@), name@),
            decreases i,
        {
            let ghost t = self.env@.take(i as int);
            assert(env_view(t).drop_last() =~= env_view(self.env@.take(i - 1)));
            if str_eq(self.env[i - 1].0.as_str(), name) {
                return Some(copy_value(&self.env[i - 1].1));
            }
            i = i - 1;
        }
        assert(env_view(self.env@.take(0)) =~= Seq::<(Seq<char>, ValueView)>::empty());
        None
    }

    /// Lowers a literal token.
    pub fn lower_literal(&mut self, t: &LiteralToken, decl: DeclId, path: &FieldPath) -> (r: Value)
        requires
            literal_ok(*t),
        ensures
            lowers(
                *old(self),
                *final(self),
                r@,
                lower_expr(old(self).source, Expr::Literal(Some(*t)), env_view(old(self).env@), decl, path@),
            ),
    {
        let ghost before = diags_view(self.diagnostics@);
        let blame = blame_of(decl, path);
        let v = match literal_of(t, &blame) {
            Some(v) => v,
            None => Value::Undefined,
        };
        if let LiteralKind::Other(k) = &t.kind {
            let mut m = to_chars("unexpected literal token kind: ");
            push_str(&mut m, k.as_str());
            proof {
                reveal_strlit("unexpected literal token kind: ");
            }
            self.emit(t.range, m);
            assert(diags_view(self.diagnostics@) =~= before + literal_diags(self.source, *t));
        } else {
            assert(diags_view(self.diagnostics@) =~= diags_view(self.diagnostics@) + Seq::<DiagView>::empty());
        }
        v
    }

    /// Lowers an expression of the file as part `path` of declaration `decl`.
    pub fn lower_top_expr(&mut self, e: &Expr, decl: DeclId, path: &FieldPath) -> (r: Value)
        requires
            expr_ok(*e),
        ensures
            lowers(
                *old(self),
                *final(self),
                r@,
                lower_expr(old(self).source, *e, env_view(old(self).env@), decl, path@),
            ),
        decreases e, 1nat,
    {
        let ghost before = diags_view(self.diagnostics@);
        match e {
            Expr::Literal(t) => match t {
                Some(tok) => self.lower_literal(tok, decl, path),
                None => {
                    assert(diags_view(self.diagnostics@) =~= diags_view(self.diagnostics@) + Seq::<DiagView>::empty());
                    Value::Undefined
                },
            },
            Expr::Record(r) => Value::Record(self.lower_record(&r.fields, decl, path)),
            Expr::List(items) => self.lower_list(items, decl, path),
            Expr::Every(ev) => {
                let b = blame_of(decl, path);
                assert(diags_view(self.diagnostics@) =~= diags_view(self.diagnostics@) + Seq::<DiagView>::empty());
                match desugar_every(ev, &b) {
                    Some(v) => v,
                    None => Value::Undefined,
                }
            },
            Expr::Paren(inner) => self.lower_opt(inner, decl, path),
            Expr::Ident(t) => match t {
                Some(tok) => match self.lookup(tok.text.as_str()) {
                    Some(v) => {
                        assert(diags_view(self.diagnostics@) =~= diags_view(self.diagnostics@) + Seq::<DiagView>::empty());
                        v
                    },
                    None => {
                        let mut m = to_chars("undefined variable `");
                        push_str(&mut m, tok.text.as_str());
                        push_str(&mut m, "`");
                        proof {
                            reveal_strlit("undefined variable `");
                            reveal_strlit("`");
                        }
                        self.emit(tok.range, m);
                        assert(diags_view(self.diagnostics@) =~= before + lower_expr(
                            self.source,
                            *e,
                            env_view(self.env@),
                            decl,
                            path@,
                        ).1);
                        Value::Undefined
                    },
                },
                None => {
                    assert(diags_view(self.diagnostics@) =~= diags_view(self.diagnostics@) + Seq::<DiagView>::empty());
                    Value::Undefined
                },
            },
            Expr::Let(l) => self.lower_let(l, decl, path),
            Expr::Binary(b) => self.lower_binary(b, decl, path),
            Expr::FieldAccess(f) => self.lower_field_access(f, decl, path),
            Expr::Index(ix) => self.lower_index(ix, decl, path),
            Expr::Import(imp) => {
                let ghost before = diags_view(self.diagnostics@);
                let ghost src = self.source;
                let ghost env0 = self.env@;
                for i in 0..imp.diagnostics.len()
                    invariant
                        self.source == src,
                        self.env@ == env0,
                        diags_view(self.diagnostics@) == before + diags_view(imp.diagnostics@.take(i as int)),
                {
                    let ghost mid = diags_view(self.diagnostics@);
                    push_diag(&mut self.diagnostics, imp.diagnostics[i].clone());
                    assert(diags_view(imp.diagnostics@.take(i + 1)) =~= diags_view(imp.diagnostics@.take(i as int)).push(imp.diagnostics@[i as int]@));
                }
                assert(imp.diagnostics@.take(imp.diagnostics@.len() as int) =~= imp.diagnostics@);
                copy_value(&imp.value)
            },
            Expr::Calendar(body) => {
                let ghost env0 = env_view(self.env@);
                let fields = match body {
                    Some(r) => self.lower_record(&r.fields, decl, path),
                    None => {
                        assert(diags_view(self.diagnostics@) =~= diags_view(self.diagnostics@) + Seq::<DiagView>::empty());
                        Record::new()
                    },
                };
                Value::Record(with_type(fields, "calendar", decl, path))
            },
            Expr::Event(ev) => {
                let fields = self.lower_event_fields(ev, decl);
                Value::Record(with_type(fields, "event", decl, path))
            },
            Expr::Task(t) => {
                let fields = self.lower_task_fields(t, decl);
                Value::Record(with_type(fields, "task", decl, path))
            },
        }
    }

    /// Lowers an optional part: undefined where the parser left it out.
    fn lower_opt(&mut self, e: &Option<Box<Expr>>, decl: DeclId, path: &FieldPath) -> (r: Value)
        requires
            opt_expr_ok(*e),
        ensures
            lowers(*old(self), *final(self), r@, lower_opt(old(self).source, *e, env_view(old(self).env@), decl, path@)),
        decreases e, 0nat,
    {
        match e {
            Some(b) => self.lower_top_expr(b, decl, path),
            None => {
                assert(diags_view(self.diagnostics@) =~= diags_view(self.diagnostics@) + Seq::<DiagView>::empty());
                Value::Undefined
            },
        }
    }

    fn lower_let(&mut self, l: &LetExpr, decl: DeclId, path: &FieldPath) -> (r: Value)
        requires
            opt_expr_ok(l.bound),
            opt_expr_ok(l.body),
        ensures
            lowers(
                *old(self),
                *final(self),
                r@,
                lower_expr(old(self).source, Expr::Let(*l), env_view(old(self).env@), decl, path@),
            ),
        decreases l, 0nat,
    {
        let ghost env0 = self.env@;
        let ghost before = diags_view(self.diagnostics@);
        let ghost lb = lower_opt(self.source, l.bound, env_view(env0), decl, path@);
        let bound = self.lower_opt(&l.bound, decl, path);
        let name = match &l.name {
            Some(n) => n.clone(),
            None => String::new(),
        };
        proof {
            assert(env_view(env0.push((name, bound))) =~= env_view(env0).push((name@, bound@)));
        }
        let ghost name_v = name@;
        self.env.push((name, bound));
        let ghost lr = lower_opt(self.source, l.body, env_view(self.env@), decl, path@);
        let body = self.lower_opt(&l.body, decl, path);
        self.env.pop();
        assert(self.env@ =~= env0);
        assert(diags_view(self.diagnostics@) =~= before + (lb.1 + lr.1));
        body
    }

    fn lower_binary(&mut self, b: &BinaryExpr, decl: DeclId, path: &FieldPath) -> (r: Value)
        requires
            opt_expr_ok(b.lhs),
            opt_expr_ok(b.rhs),
        ensures
            lowers(
                *old(self),
                *final(self),
                r@,
                lower_expr(old(self).source, Expr::Binary(*b), env_view(old(self).env@), decl, path@),
            ),
        decreases b, 0nat,
    {
        let ghost before = diags_view(self.diagnostics@);
        let ghost ll = lower_opt(self.source, b.lhs, env_view(self.env@), decl, path@);
        let ghost lr = lower_opt(self.source, b.rhs, env_view(self.env@), decl, path@);
        let lhs = self.lower_opt(&b.lhs, decl, path);
        let rhs = self.lower_opt(&b.rhs, decl, path);
        assert(diags_view(self.diagnostics@) =~= before + (ll.1 + lr.1));
        match &b.op {
            Some((op, range)) => match op {
                BinaryOp::Concat => {
                    proof {
                        lemma_type_names(lhs);
                        lemma_type_names(rhs);
                        reveal_strlit("++ requires two lists, got ");
                        reveal_strlit(" and ");
                    }
                    match crate::lower::concat_lists(lhs, rhs) {
                        Ok(v) => v,
                        Err(m) => {
                            self.emit(*range, to_chars(m.as_str()));
                            assert(diags_view(self.diagnostics@) =~= before + (ll.1 + lr.1).push(
                                error_in(self.source, *range, concat_message(ll.0, lr.0)),
                            ));
                            Value::Undefined
                        },
                    }
                },
                BinaryOp::Merge => {
                    proof {
                        lemma_type_names(lhs);
                        lemma_type_names(rhs);
                        reveal_strlit("// requires two records, got ");
                        reveal_strlit(" and ");
                    }
                    match crate::lower::merge_records(lhs, rhs) {
                        Ok(v) => v,
                        Err(m) => {
                            self.emit(*range, to_chars(m.as_str()));
                            assert(diags_view(self.diagnostics@) =~= before + (ll.1 + lr.1).push(
                                error_in(self.source, *range, merge_message(ll.0, lr.0)),
                            ));
                            Value::Undefined
                        },
                    }
                },
                BinaryOp::Eq => Value::Bool(crate::lower::values_equal(&lhs, &rhs)),
                BinaryOp::NotEq => Value::Bool(!crate::lower::values_equal(&lhs, &rhs)),
                BinaryOp::Other => Value::Undefined,
            },
            None => Value::Undefined,
        }
    }

    fn lower_field_access(&mut self, f: &FieldAccessExpr, decl: DeclId, path: &FieldPath) -> (r: Value)
        requires
            opt_expr_ok(f.target),
        ensures
            lowers(
                *old(self),
                *final(self),
                r@,
                lower_expr(old(self).source, Expr::FieldAccess(*f), env_view(old(self).env@), decl, path@),
            ),
        decreases f, 0nat,
    {
        match &f.target {
            None => {
                assert(diags_view(self.diagnostics@) =~= diags_view(self.diagnostics@) + Seq::<DiagView>::empty());
                Value::Undefined
            },
            Some(t) => {
                let target = self.lower_top_expr(t, decl, path);
                match &f.field {
                    None => Value::Undefined,
                    Some(name) => match crate::lower::access_field(&target, name.text.as_str()) {
                        Ok(v) => v,
                        Err(m) => {
                            self.emit(name.range, to_chars(m.as_str()));
                            Value::Undefined
                        },
                    },
                }
            },
        }
    }

    fn lower_index(&mut self, ix: &IndexExpr, decl: DeclId, path: &FieldPath) -> (r: Value)
        requires
            opt_expr_ok(ix.target),
            opt_expr_ok(ix.index),
        ensures
            lowers(
                *old(self),
                *final(self),
                r@,
                lower_expr(old(self).source, Expr::Index(*ix), env_view(old(self).env@), decl, path@),
            ),
        decreases ix, 0nat,
    {
        let ghost before = diags_view(self.diagnostics@);
        match &ix.target {
            None => {
                assert(diags_view(self.diagnostics@) =~= diags_view(self.diagnostics@) + Seq::<DiagView>::empty());
                Value::Undefined
            },
            Some(t) => {
                let ghost lt = lower_expr(self.source, **t, env_view(self.env@), decl, path@);
                let target = self.lower_top_expr(t, decl, path);
                match &ix.index {
                    None => Value::Undefined,
                    Some(i) => {
                        let ghost li = lower_expr(self.source, **i, env_view(self.env@), decl, path@);
                        let index = self.lower_top_expr(i, decl, path);
                        assert(diags_view(self.diagnostics@) =~= before + (lt.1 + li.1));
                        crate::lower::access_index(&target, &index)
                    },
                }
            },
        }
    }

    /// Lowers the items of a list expression.
    pub fn lower_list(&mut self, items: &Vec<Expr>, decl: DeclId, path: &FieldPath) -> (r: Value)
        requires
            items_ok(items@),
        ensures
            lowers(
                *old(self),
                *final(self),
                r@,
                lower_expr(old(self).source, Expr::List(*items), env_view(old(self).env@), decl, path@),
            ),
        decreases items, 0nat,
    {
        let ghost src = self.source;
        let ghost env0 = self.env@;
        let ghost before = diags_view(self.diagnostics@);
        let mut out: Vec<Blamed<Value>> = Vec::new();
        proof {
            lemma_items_ok_each(items@);
            assert(items@.take(0) =~= Seq::<Expr>::empty());
        }
        for i in 0..items.len()
            invariant
                self.source == src,
                self.env@ == env0,
                forall|k: int| 0 <= k < items@.len() ==> expr_ok(#[trigger] items@[k]),
                ({
                    let l = lower_items(src, items@.take(i as int), env_view(env0), decl, path@);
                    &&& (Value::List(out))@->List_0 == l.0
                    &&& diags_view(self.diagnostics@) == before + l.1
                }),
        {
            proof {
                broadcast use vstd::std_specs::vec::axiom_vec_decreases_to_view;
                broadcast use vstd::seq::axiom_seq_index_decreases;

                assert(decreases_to!(*items => items@));
                assert(decreases_to!(items@ => items@[i as int]));
                assert(items@.take(i + 1).drop_last() =~= items@.take(i as int));
                assert(items@.take(i + 1).last() == items@[i as int]);
                crate::types::lemma_list_view(out);
            }
            let p = path.index(i);
            let ghost prev = (Value::List(out))@->List_0;
            let v = self.lower_top_expr(&items[i], decl, &p);
            let b = blame_of(decl, &p);
            out.push(Blamed { value: v, blame: b });
            proof {
                crate::types::lemma_list_view(out);
                assert((Value::List(out))@->List_0 =~= prev.push((v@, b@)));
            }
        }
        assert(items@.take(items@.len() as int) =~= items@);
        Value::List(out)
    }

    /// Lowers the fields of a record expression in turn.
    pub fn lower_record(&mut self, fields: &Vec<FieldExpr>, decl: DeclId, path: &FieldPath) -> (r: Record)
        requires
            fields_ok(fields@),
        ensures
            ({
                let l = lower_fields(old(self).source, fields@, env_view(old(self).env@), decl, path@);
                lowers(*old(self), *final(self), ValueView::Record(r@), (ValueView::Record(l.0), l.1))
            }),
        decreases fields, 0nat,
    {
        let ghost src = self.source;
        let ghost env0 = self.env@;
        let ghost before = diags_view(self.diagnostics@);
        let mut out = Record::new();
        proof {
            lemma_fields_ok_each(fields@);
            assert(fields@.take(0) =~= Seq::<FieldExpr>::empty());
        }
        for i in 0..fields.len()
            invariant
                self.source == src,
                self.env@ == env0,
                forall|k: int| 0 <= k < fields@.len() ==> field_ok(#[trigger] fields@[k]),
                ({
                    let l = lower_fields(src, fields@.take(i as int), env_view(env0), decl, path@);
                    &&& out@ == l.0
                    &&& diags_view(self.diagnostics@) == before + l.1
                }),
        {
            proof {
                assert(fields@.take(i + 1).drop_last() =~= fields@.take(i as int));
                assert(fields@.take(i + 1).last() == fields@[i as int]);
            }
            let f = &fields[i];
            if let Some(n) = &f.name {
                if let Some(v) = &f.value {
                    proof {
                        broadcast use vstd::std_specs::vec::axiom_vec_decreases_to_view;
                        broadcast use vstd::seq::axiom_seq_index_decreases;

                        assert(decreases_to!(*fields => fields@));
                        assert(decreases_to!(fields@ => fields@[i as int]));
                    }
                    let name = FieldName::new(n.clone());
                    let p = path.field(name.clone());
                    let x = self.lower_top_expr(v, decl, &p);
                    let b = blame_of(decl, &p);
                    out.insert(name, Blamed { value: x, blame: b });
                } else {
                    assert(diags_view(self.diagnostics@) =~= before + lower_fields(src, fields@.take(i + 1), env_view(env0), decl, path@).1);
                }
            } else {
                assert(diags_view(self.diagnostics@) =~= before + lower_fields(src, fields@.take(i + 1), env_view(env0), decl, path@).1);
            }
        }
        assert(fields@.take(fields@.len() as int) =~= fields@);
        out
    }

    /// The body of a declaration lowered and merged over `fs`.
    fn lower_body(&mut self, fs: Record, body: &Option<RecordExpr>, decl: DeclId) -> (r: Record)
        requires
            match *body {
                Some(b) => fields_ok(b.fields@),
                None => true,
            },
        ensures
            ({
                let l = with_body(old(self).source, fs@, *body, env_view(old(self).env@), decl);
                lowers(*old(self), *final(self), ValueView::Record(r@), (ValueView::Record(l.0), l.1))
            }),
        decreases body, 0nat,
    {
        match body {
            Some(rec) => {
                let root = FieldPath::root();
                let b = self.lower_record(&rec.fields, decl, &root);
                match crate::lower::merge_records(Value::Record(fs), Value::Record(b)) {
                    Ok(Value::Record(m)) => m,
                    _ => {
                        assert(false);
                        Record::new()
                    },
                }
            },
            None => {
                assert(diags_view(self.diagnostics@) =~= diags_view(self.diagnostics@) + Seq::<DiagView>::empty());
                fs
            },
        }
    }

    /// Lowers an event declaration to its fields.
    pub fn lower_event_fields(&mut self, ev: &EventExpr, decl: DeclId) -> (r: Record)
        requires
            expr_ok(Expr::Event(*ev)),
        ensures
            ({
                let l = lower_event(old(self).source, *ev, env_view(old(self).env@), decl);
                lowers(*old(self), *final(self), ValueView::Record(r@), (ValueView::Record(l.0), l.1))
            }),
        decreases ev, 0nat,
    {
        match &ev.name {
            Some(n) => {
                let mut fs = Record::new();
                root_insert(&mut fs, "name", Value::Name(eval_name(n.as_str())), decl);
                let start = match &ev.start {
                    Some(dt) => short_dt_of_exec(dt, &root_blame(decl, "start")),
                    None => None,
                };
                opt_root_insert(&mut fs, "start", start, decl);
                let dur = match &ev.duration {
                    Some(t) => desugar_duration(t.as_str(), &root_blame(decl, "duration")),
                    None => None,
                };
                opt_root_insert(&mut fs, "duration", dur, decl);
                let title = match &ev.title {
                    Some(t) => Some(Value::String(string_of(t))),
                    None => None,
                };
                opt_root_insert(&mut fs, "title", title, decl);
                self.lower_body(fs, &ev.body, decl)
            },
            None => self.lower_body(Record::new(), &ev.body, decl),
        }
    }

    /// Lowers a task declaration to its fields.
    pub fn lower_task_fields(&mut self, t: &TaskExpr, decl: DeclId) -> (r: Record)
        requires
            expr_ok(Expr::Task(*t)),
        ensures
            ({
                let l = lower_task(old(self).source, *t, env_view(old(self).env@), decl);
                lowers(*old(self), *final(self), ValueView::Record(r@), (ValueView::Record(l.0), l.1))
            }),
        decreases t, 0nat,
    {
        match &t.name {
            Some(n) => {
                let mut fs = Record::new();
                root_insert(&mut fs, "name", Value::Name(eval_name(n.as_str())), decl);
                let due = match &t.due {
                    Some(dt) => short_dt_of_exec(dt, &root_blame(decl, "due")),
                    None => None,
                };
                opt_root_insert(&mut fs, "due", due, decl);
                let title = match &t.title {
                    Some(s) => Some(Value::String(string_of(s))),
                    None => None,
                };
                opt_root_insert(&mut fs, "title", title, decl);
                self.lower_body(fs, &t.body, decl)
            },
            None => self.lower_body(Record::new(), &t.body, decl),
        }
    }
}

/// A field of a record expression whose value is as the lexer delivers it.
pub open spec fn field_ok(f: FieldExpr) -> bool {
    match f.value {
        Some(v) => expr_ok(v),
        None => true,
    }
}

proof fn lemma_items_ok_each(items: Seq<Expr>)
    requires
        items_ok(items),
    ensures
        forall|k: int| 0 <= k < items.len() ==> expr_ok(#[trigger] items[k]),
    decreases items.len(),
{
    if items.len() > 0 {
        lemma_items_ok_each(items.drop_last());
        assert forall|k: int| 0 <= k < items.len() implies expr_ok(#[trigger] items[k]) by {
            if k < items.len() - 1 {
                assert(items.drop_last()[k] == items[k]);
            }
        }
    }
}

proof fn lemma_fields_ok_each(fields: Seq<FieldExpr>)
    requires
        fields_ok(fields),
    ensures
        forall|k: int| 0 <= k < fields.len() ==> field_ok(#[trigger] fields[k]),
    decreases fields.len(),
{
    if fields.len() > 0 {
        lemma_fields_ok_each(fields.drop_last());
        assert forall|k: int| 0 <= k < fields.len() implies field_ok(#[trigger] fields[k]) by {
            if k < fields.len() - 1 {
                assert(fields.drop_last()[k] == fields[k]);
            }
        }
    }
}

/// The blame of a short-form field at the root of its declaration.
fn root_blame(decl: DeclId, name: &str) -> (b: Blame)
    ensures
        b@ == blame_at(decl, seq![SegView::Field(name@)]),
{
    let root = FieldPath::root();
    let p = root.field(FieldName::new(owned(name)));
    assert(p@ =~= seq![SegView::Field(name@)]);
    Blame { decl, path: p }
}

fn root_insert(fs: &mut Record, name: &str, v: Value, decl: DeclId)
    ensures
        final(fs)@ == root_field(old(fs)@, name@, v@, decl),
{
    let b = root_blame(decl, name);
    fs.insert(FieldName::new(owned(name)), Blamed { value: v, blame: b });
}

fn opt_root_insert(fs: &mut Record, name: &str, v: Option<Value>, decl: DeclId)
    ensures
        final(fs)@ == opt_root_field(old(fs)@, name@, match v {
            Some(x) => Some(x@),
            None => None,
        }, decl),
{
    if let Some(x) = v {
        root_insert(fs, name, x, decl);
    }
}

fn with_type(mut fs: Record, kind: &str, decl: DeclId, path: &FieldPath) -> (r: Record)
    ensures
        r@ == typed(fs@, kind@, decl, path@),
{
    proof {
        reveal_strlit("type");
    }
    let ty = FieldName::new(owned("type"));
    let p = path.field(ty.clone());
    fs.insert(ty, Blamed { value: Value::String(owned(kind)), blame: Blame { decl, path: p } });
    fs
}

// ── Files ──────────────────────────────────────────────────────

/// Whether an expression is a declaration: a calendar, event or task.
pub open spec fn is_decl(e: Expr) -> bool {
    e is Calendar || e is Event || e is Task
}

/// The kind of declaration an expression makes.
pub open spec fn decl_kind_of(e: Expr) -> DeclKind {
    match e {
        Expr::Calendar(_) => DeclKind::Calendar,
        Expr::Event(_) => DeclKind::Event,
        Expr::Task(_) => DeclKind::Task,
        _ => DeclKind::Expr,
    }
}

/// The declaration of a file-level expression at `index`.
pub open spec fn file_decl(source: SourceFile, index: int, kind: DeclKind) -> DeclId {
    DeclId { source, index: index as usize, kind }
}

/// The bindings in scope after the file-level `let`s, each lowered in the
/// scope of those before it; a binding the parser left unnamed is skipped.
pub open spec fn bind_all(source: SourceFile, bs: Seq<LetBinding>, env: EnvView) -> (EnvView, Seq<DiagView>)
    decreases bs.len(),
{
    if bs.len() == 0 {
        (env, seq![])
    } else {
        let (e0, d0) = bind_all(source, bs.drop_last(), env);
        let b = bs.last();
        match b.name {
            Some(n) => {
                let l = match b.value {
                    Some(x) => lower_expr(source, x, e0, file_decl(source, 0, DeclKind::Expr), seq![]),
                    None => undefined_lowered(),
                };
                (e0.push((n@, l.0)), d0 + l.1)
            },
            None => (e0, d0),
        }
    }
}

/// The declarations of a file, each blamed on its own position and kind.
pub open spec fn lower_decls(source: SourceFile, es: Seq<Expr>, env: EnvView) -> (Seq<(ValueView, BlameView)>, Seq<DiagView>)
    decreases es.len(),
{
    if es.len() == 0 {
        (seq![], seq![])
    } else {
        let (vs, d) = lower_decls(source, es.drop_last(), env);
        let decl = file_decl(source, es.len() - 1, decl_kind_of(es.last()));
        let l = lower_expr(source, es.last(), env, decl, seq![]);
        (vs.push((l.0, blame_at(decl, seq![]))), d + l.1)
    }
}

/// A file lowered: after its bindings, an empty body is the empty list, a
/// body of declarations the list of their records, and otherwise the value
/// of its first expression.
pub open spec fn lower_source(source: SourceFile, f: SourceFileExpr, env: EnvView) -> Lowered {
    let (benv, bd) = bind_all(source, f.bindings@, env);
    let body = f.body@;
    if body.len() == 0 {
        (ValueView::List(seq![]), bd)
    } else if is_decl(body[0]) {
        let (vs, dd) = lower_decls(source, body, benv);
        (ValueView::List(vs), bd + dd)
    } else {
        let l = lower_expr(source, body[0], benv, file_decl(source, 0, DeclKind::Expr), seq![]);
        (l.0, bd + l.1)
    }
}

/// Every token of a file is as the lexer delivers it.
pub open spec fn file_ok(f: SourceFileExpr) -> bool {
    &&& forall|i: int| 0 <= i < f.bindings@.len() ==> match (#[trigger] f.bindings@[i]).value {
        Some(x) => expr_ok(x),
        None => true,
    }
    &&& forall|i: int| 0 <= i < f.body@.len() ==> expr_ok(#[trigger] f.body@[i])
}

/// The kind of declaration an expression makes.
pub fn decl_kind_for_expr(e: &Expr) -> (k: DeclKind)
    ensures
        k == decl_kind_of(*e),
{
    match e {
        Expr::Calendar(_) => DeclKind::Calendar,
        Expr::Event(_) => DeclKind::Event,
        Expr::Task(_) => DeclKind::Task,
        _ => DeclKind::Expr,
    }
}

impl LowerCtx {
    /// Lowers a source file: its `let` bindings enter the scope, then its
    /// body is lowered in it.
    pub fn lower_source_file(&mut self, file: &SourceFileExpr) -> (r: Value)
        requires
            file_ok(*file),
        ensures
            final(self).source == old(self).source,
            env_view(final(self).env@) == bind_all(old(self).source, file.bindings@, env_view(old(self).env@)).0,
            ({
                let l = lower_source(old(self).source, *file, env_view(old(self).env@));
                &&& r@ == l.0
                &&& diags_view(final(self).diagnostics@) == diags_view(old(self).diagnostics@) + l.1
            }),
    {
        let ghost src = self.source;
        let ghost env_start = env_view(self.env@);
        let ghost before = diags_view(self.diagnostics@);
        let root = FieldPath::root();
        assert(file.bindings@.take(0) =~= Seq::<LetBinding>::empty());
        for i in 0..file.bindings.len()
            invariant
                self.source == src,
                file_ok(*file),
                root@ == Seq::<SegView>::empty(),
                ({
                    let b = bind_all(src, file.bindings@.take(i as int), env_start);
                    &&& env_view(self.env@) == b.0
                    &&& diags_view(self.diagnostics@) == before + b.1
                }),
        {
            assert(file.bindings@.take(i + 1).drop_last() =~= file.bindings@.take(i as int));
            assert(file.bindings@.take(i + 1).last() == file.bindings@[i as int]);
            let b = &file.bindings[i];
            if let Some(n) = &b.name {
                let ghost env_before = self.env@;
                let ghost d_before = diags_view(self.diagnostics@);
                let decl = DeclId::new(self.source, 0, DeclKind::Expr);
                let v = match &b.value {
                    Some(x) => self.lower_top_expr(x, decl, &root),
                    None => {
                        assert(diags_view(self.diagnostics@) =~= diags_view(self.diagnostics@) + Seq::<DiagView>::empty());
                        Value::Undefined
                    },
                };
                let ghost l = match file.bindings@[i as int].value {
                    Some(x) => lower_expr(src, x, env_view(env_before), file_decl(src, 0, DeclKind::Expr), seq![]),
                    None => undefined_lowered(),
                };
                assert(diags_view(self.diagnostics@) =~= before + (bind_all(src, file.bindings@.take(i as int), env_start).1 + l.1));
                let ghost vv = v@;
                self.env.push((n.clone(), v));
                assert(env_view(self.env@) =~= env_view(env_before).push((n@, vv)));
            }
        }
        assert(file.bindings@.take(file.bindings@.len() as int) =~= file.bindings@);
        let ghost benv = env_view(self.env@);
        let ghost bd = diags_view(self.diagnostics@).skip(before.len() as int);
        assert(diags_view(self.diagnostics@) =~= before + bd);
        if file.body.len() == 0 {
            let empty: Vec<Blamed<Value>> = Vec::new();
            proof {
                crate::types::lemma_list_view(empty);
            }
            let r = Value::List(empty);
            assert(r@->List_0 =~= Seq::<(ValueView, BlameView)>::empty());
            return r;
        }
        let first_is_decl = match &file.body[0] {
            Expr::Calendar(_) | Expr::Event(_) | Expr::Task(_) => true,
            _ => false,
        };
        if first_is_decl {
            let mut items: Vec<Blamed<Value>> = Vec::new();
            assert(file.body@.take(0) =~= Seq::<Expr>::empty());
            for i in 0..file.body.len()
                invariant
                    self.source == src,
                    env_view(self.env@) == benv,
                    file_ok(*file),
                    root@ == Seq::<SegView>::empty(),
                    ({
                        let l = lower_decls(src, file.body@.take(i as int), benv);
                        &&& (Value::List(items))@->List_0 == l.0
                        &&& diags_view(self.diagnostics@) == before + bd + l.1
                    }),
            {
                assert(file.body@.take(i + 1).drop_last() =~= file.body@.take(i as int));
                assert(file.body@.take(i + 1).last() == file.body@[i as int]);
                proof {
                    crate::types::lemma_list_view(items);
                }
                let ghost prev = (Value::List(items))@->List_0;
                let ghost d_before = diags_view(self.diagnostics@);
                let decl = DeclId::new(self.source, i, decl_kind_for_expr(&file.body[i]));
                let ghost env_now = self.env@;
                let v = self.lower_top_expr(&file.body[i], decl, &root);
                let b = blame_of(decl, &root);
                proof {
                    let l = lower_expr(src, file.body@[i as int], benv, decl, seq![]);
                    assert(diags_view(self.diagnostics@) =~= before + bd + (lower_decls(src, file.body@.take(i as int), benv).1 + l.1));
                }
                items.push(Blamed { value: v, blame: b });
                proof {
                    crate::types::lemma_list_view(items);
                    assert((Value::List(items))@->List_0 =~= prev.push((v@, b@)));
                }
            }
            assert(file.body@.take(file.body@.len() as int) =~= file.body@);
            assert(before + bd + lower_decls(src, file.body@, benv).1 =~= before + (bd + lower_decls(src, file.body@, benv).1));
            Value::List(items)
        } else {
            let decl = DeclId::new(self.source, 0, DeclKind::Expr);
            let v = self.lower_top_expr(&file.body[0], decl, &root);
            proof {
                let l = lower_expr(src, file.body@[0], benv, decl, seq![]);
                assert(diags_view(self.diagnostics@) =~= before + (bd + l.1));
            }
            v
        }
    }
}

impl LowerCtx {
    /// Reads the text of an imported iCalendar or JSCalendar document as a
    /// value blamed on the file's first expression; where it cannot be
    /// read, reports the reason at `range` and gives undefined.
    pub fn import_foreign(&mut self, format: ImportFormat, content: &str, range: TextRange) -> (r: Value)
        requires
            format == ImportFormat::ICalendar || format == ImportFormat::JSCalendar,
        ensures
            final(self).source == old(self).source,
            final(self).env@ == old(self).env@,
            format == ImportFormat::ICalendar ==> match ical_parse_failure(content@) {
                Some(m) => r@ is Undefined && diags_view(final(self).diagnostics@) == diags_view(
                    old(self).diagnostics@,
                ).push(error_in(old(self).source, range, "iCalendar parse error: "@ + m)),
                None => r@ is List && final(self).diagnostics@ == old(self).diagnostics@,
            },
            format == ImportFormat::JSCalendar ==> match json_parse_failure(content@) {
                Some(m) => r@ is Undefined && diags_view(final(self).diagnostics@) == diags_view(
                    old(self).diagnostics@,
                ).push(error_in(old(self).source, range, "JSCalendar JSON parse error: "@ + m)),
                None => ((r@ is List || r@ is Record) && final(self).diagnostics@ == old(self).diagnostics@)
                    || (r@ is Undefined && diags_view(final(self).diagnostics@).len() == diags_view(
                    old(self).diagnostics@,
                ).len() + 1),
            },
    {
        let decl = DeclId::new(self.source, 0, DeclKind::Expr);
        let root = FieldPath::root();
        let blame = blame_of(decl, &root);
        let result = if format == ImportFormat::ICalendar {
            crate::import::translate_icalendar(content, &blame)
        } else {
            crate::import::translate_jscalendar(content, &blame)
        };
        match result {
            Ok(v) => {
                proof {
                    if format == ImportFormat::ICalendar {
                        let iv = choose|iv: crate::import_value::ImportView|
                            (iv is List && v@ == crate::import::import_to_value(iv, blame@));
                        assert(v@ is List);
                    } else {
                        let iv = choose|iv: crate::import_value::ImportView|
                            ((iv is List || iv is Record) && v@ == crate::import::import_to_value(iv, blame@));
                        assert(v@ is List || v@ is Record);
                    }
                }
                v
            },
            Err(m) => {
                self.emit(range, to_chars(m.as_str()));
                Value::Undefined
            },
        }
    }
}

// ── Interactive input ──────────────────────────────────────────

impl LowerCtx {
    /// Brings the bindings of earlier inputs into scope, in order.
    pub fn seed_env(&mut self, bindings: &[(String, Value)])
        ensures
            final(self).source == old(self).source,
            final(self).diagnostics@ == old(self).diagnostics@,
            env_view(final(self).env@) == env_view(old(self).env@) + env_view(bindings@),
    {
        let ghost start = env_view(self.env@);
        let ghost src = self.source;
        let ghost diags = self.diagnostics@;
        assert(env_view(bindings@.take(0)) =~= Seq::<(Seq<char>, ValueView)>::empty());
        assert(start + env_view(bindings@.take(0)) =~= start);
        for i in 0..bindings.len()
            invariant
                self.source == src,
                self.diagnostics@ == diags,
                env_view(self.env@) == start + env_view(bindings@.take(i as int)),
        {
            let b = &bindings[i];
            let ghost before = self.env@;
            self.env.push((b.0.clone(), copy_value(&b.1)));
            assert(env_view(bindings@.take(i + 1)) =~= env_view(bindings@.take(i as int)).push((b.0@, b.1@)));
            assert(env_view(self.env@) =~= env_view(before).push((b.0@, b.1@)));
        }
        assert(bindings@.take(bindings@.len() as int) =~= bindings@);
    }

    /// The number of bindings in scope.
    pub fn env_len(&self) -> (n: usize)
        ensures
            n == self.env@.len(),
    {
        self.env.len()
    }

    /// Copies of the bindings from position `start` on.
    pub fn env_slice_from(&self, start: usize) -> (r: Vec<(String, Value)>)
        requires
            start <= self.env@.len(),
        ensures
            env_view(r@) == env_view(self.env@).skip(start as int),
    {
        let mut out: Vec<(String, Value)> = Vec::new();
        let mut i = start;
        assert(env_view(out@) =~= env_view(self.env@).skip(start as int).take(0));
        while i < self.env.len()
            invariant
                start <= i <= self.env@.len(),
                env_view(out@) == env_view(self.env@).skip(start as int).take(i - start),
            decreases self.env@.len() - i,
        {
            let b = &self.env[i];
            let ghost before = out@;
            out.push((b.0.clone(), copy_value(&b.1)));
            assert(env_view(out@) =~= env_view(before).push((b.0@, b.1@)));
            assert(env_view(self.env@).skip(start as int).take(i + 1 - start) =~= env_view(self.env@).skip(
                start as int,
            ).take(i - start).push((b.0@, b.1@)));
            i = i + 1;
        }
        assert(env_view(self.env@).skip(start as int).take(i - start) =~= env_view(self.env@).skip(start as int));
        out
    }
}

/// What evaluating one interactive input gives: its value, its
/// diagnostics, and the bindings it introduced.
pub struct ReplEvalResult {
    pub value: Value,
    pub diagnostics: Vec<Diagnostic>,
    pub new_bindings: Vec<(String, Value)>,
}

/// Lowers one interactive input of `source` in the scope of the bindings of
/// earlier inputs; gives back its value, its diagnostics and the bindings
/// it added.
pub fn evaluate_repl_input(source: SourceFile, file: &SourceFileExpr, env: &[(String, Value)]) -> (r: ReplEvalResult)
    requires
        file_ok(*file),
    ensures
        ({
            let l = lower_source(source, *file, env_view(env@));
            &&& r.value@ == l.0
            &&& diags_view(r.diagnostics@) == l.1
            &&& env_view(r.new_bindings@) == bind_all(source, file.bindings@, env_view(env@)).0.skip(
                env@.len() as int,
            )
        }),
{
    let mut ctx = LowerCtx::new(source);
    ctx.seed_env(env);
    assert(env_view(ctx.env@) =~= env_view(env@));
    let before = ctx.env_len();
    assert(diags_view(ctx.diagnostics@) =~= Seq::<DiagView>::empty());
    let value = ctx.lower_source_file(file);
    proof {
        lemma_bind_all_extends(source, file.bindings@, env_view(env@));
    }
    let new_bindings = ctx.env_slice_from(before);
    assert(diags_view(ctx.diagnostics@) =~= Seq::<DiagView>::empty() + lower_source(source, *file, env_view(env@)).1);
    ReplEvalResult { value, diagnostics: ctx.diagnostics, new_bindings }
}

proof fn lemma_bind_all_extends(source: SourceFile, bs: Seq<LetBinding>, env: EnvView)
    ensures
        bind_all(source, bs, env).0.len() >= env.len(),
    decreases bs.len(),
{
    if bs.len() > 0 {
        lemma_bind_all_extends(source, bs.drop_last(), env);
    }
}

// ── Laws ───────────────────────────────────────────────────────

/// The fields of a lowered record expression are in name order, whatever
/// the order in which the source lists them.
pub proof fn lemma_lowered_fields_sorted(
    source: SourceFile,
    fields: Seq<FieldExpr>,
    env: EnvView,
    decl: DeclId,
    path: Seq<SegView>,
)
    ensures
        crate::keyed::keys_sorted(lower_fields(source, fields, env, decl, path).0),
    decreases fields.len(),
{
    if fields.len() > 0 {
        lemma_lowered_fields_sorted(source, fields.drop_last(), env, decl, path);
        let r = lower_fields(source, fields.drop_last(), env, decl, path).0;
        let f = fields.last();
        if let Some(n) = f.name {
            if let Some(v) = f.value {
                let p = path.push(SegView::Field(n@));
                let x = lower_expr(source, v, env, decl, p).0;
                crate::keyed::lemma_insert_sorted(r, n@, (x, blame_at(decl, p)));
            }
        }
    }
}

/// A `let` binds its name in its body: `let x = e in x` is `e`, with the
/// diagnostics of `e`.
pub proof fn lemma_let_binds(
    source: SourceFile,
    name: String,
    bound: Expr,
    range: TextRange,
    env: EnvView,
    decl: DeclId,
    path: Seq<SegView>,
)
    ensures
        ({
            let body = Expr::Ident(Some(crate::syntax::SpannedText { text: name, range }));
            let e = Expr::Let(LetExpr { name: Some(name), bound: Some(Box::new(bound)), body: Some(Box::new(body)) });
            let b = lower_expr(source, bound, env, decl, path);
            &&& lower_expr(source, e, env, decl, path).0 == b.0
            &&& lower_expr(source, e, env, decl, path).1 == b.1
        }),
{
    let body = Expr::Ident(Some(crate::syntax::SpannedText { text: name, range }));
    let b = lower_expr(source, bound, env, decl, path);
    let env2 = env.push((name@, b.0));
    assert(env_get(env2, name@) == Some(b.0));
    assert(lower_opt(source, Some(Box::new(body)), env2, decl, path) == (b.0, Seq::<DiagView>::empty()));
    assert(lower_opt(source, Some(Box::new(bound)), env, decl, path) == b);
    assert(b.1 + Seq::<DiagView>::empty() =~= b.1);
}
} // verus!
