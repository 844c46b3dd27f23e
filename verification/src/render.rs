//! Rendering values, records and calendars as indented text.
use vstd::prelude::*;

use crate::input::Database;
use crate::interned::{DeclId, DeclKind, FieldName, FieldPath, PathSegment, SegView};
use crate::text::{
    i64_to_dec, push_chars, push_str, spec_int_to_dec, spec_nat_to_dec, to_chars, u64_to_dec,
};
use crate::types::{
    Blame, BlameView, Blamed, Calendar, Record, RecordView, Value, ValueView,
};

verus! {

broadcast use {crate::types::lemma_value_view_unfold, crate::import_value::lemma_import_view_unfold};

// ── Quoted strings ─────────────────────────────────────────────

/// The text that `Debug` formatting gives for a string: quoted, with
/// quotes, backslashes and characters that are not printable escaped.
pub uninterp spec fn debug_text(s: Seq<char>) -> Seq<char>;

/// Formats a string with std's `Debug` for `str` (`{:?}`); the result
/// depends on the string alone.
#[verifier::external_body]
fn debug_string(s: &str) -> (r: String)
    ensures
        r@ == debug_text(s@),
{
    format!("{s:?}")
}

// ── Text helpers ───────────────────────────────────────────────

pub open spec fn spaces(n: nat) -> Seq<char> {
    Seq::new(n, |i: int| ' ')
}

/// The pieces one after another.
pub open spec fn concat(parts: Seq<Seq<char>>) -> Seq<char>
    decreases parts.len(),
{
    if parts.len() == 0 {
        Seq::empty()
    } else {
        concat(parts.drop_last()) + parts.last()
    }
}

/// The pieces separated by `", "`.
pub open spec fn join_comma(parts: Seq<Seq<char>>) -> Seq<char>
    decreases parts.len(),
{
    if parts.len() == 0 {
        Seq::empty()
    } else if parts.len() == 1 {
        parts[0]
    } else {
        join_comma(parts.drop_last()) + ", "@ + parts.last()
    }
}

proof fn lemma_concat_step(parts: Seq<Seq<char>>, i: int)
    requires
        0 <= i < parts.len(),
    ensures
        concat(parts.take(i + 1)) == concat(parts.take(i)) + parts[i],
{
    assert(parts.take(i + 1).drop_last() =~= parts.take(i));
}

proof fn lemma_join_step(parts: Seq<Seq<char>>, i: int)
    requires
        0 <= i < parts.len(),
    ensures
        join_comma(parts.take(i + 1)) == if i == 0 {
            parts[0]
        } else {
            join_comma(parts.take(i)) + ", "@ + parts[i]
        },
{
    assert(parts.take(i + 1).drop_last() =~= parts.take(i));
}

fn write_indent(out: &mut Vec<char>, n: usize)
    ensures
        final(out)@ == old(out)@ + spaces(n as nat),
{
    let ghost start = out@;
    for i in 0..n
        invariant
            out@ == start + spaces(i as nat),
    {
        out.push(' ');
        assert(out@ =~= start + spaces((i + 1) as nat));
    }
}

// ── Values ─────────────────────────────────────────────────────

/// How deeply records nest inside a value.
pub open spec fn nesting(v: ValueView) -> nat
    decreases v, 1nat,
{
    match v {
        ValueView::Record(r) => 1 + max_of(field_nestings(r)),
        ValueView::List(items) => max_of(item_nestings(items)),
        _ => 0,
    }
}

pub open spec fn field_nestings(r: RecordView) -> Seq<nat>
    decreases r, 0nat,
{
    Seq::new(
        r.len(),
        |i: int|
            {
                if 0 <= i < r.len() {
                    proof {
                        broadcast use vstd::seq::axiom_seq_index_decreases;

                        assert(decreases_to!(r => r[i]));
                    }
                    nesting(r[i].1.0)
                } else {
                    0
                }
            },
    )
}

pub open spec fn item_nestings(items: Seq<(ValueView, BlameView)>) -> Seq<nat>
    decreases items, 0nat,
{
    Seq::new(
        items.len(),
        |i: int|
            {
                if 0 <= i < items.len() {
                    proof {
                        broadcast use vstd::seq::axiom_seq_index_decreases;

                        assert(decreases_to!(items => items[i]));
                    }
                    nesting(items[i].0)
                } else {
                    0
                }
            },
    )
}

/// The largest element, or 0.
pub open spec fn max_of(s: Seq<nat>) -> nat
    decreases s.len(),
{
    if s.len() == 0 {
        0
    } else {
        let m = max_of(s.drop_last());
        if m < s.last() {
            s.last()
        } else {
            m
        }
    }
}

proof fn lemma_max_of(s: Seq<nat>, i: int)
    requires
        0 <= i < s.len(),
    ensures
        s[i] <= max_of(s),
    decreases s.len(),
{
    if i < s.len() - 1 {
        lemma_max_of(s.drop_last(), i);
    }
}

/// The text of a value, its nested records indented from `indent`.
pub open spec fn render_value(v: ValueView, indent: nat) -> Seq<char>
    decreases v, 1nat,
{
    match v {
        ValueView::String(s) => debug_text(s),
        ValueView::Integer(n) => spec_nat_to_dec(n as nat),
        ValueView::SignedInteger(n) => spec_int_to_dec(n as int),
        ValueView::Bool(b) => if b {
            "true"@
        } else {
            "false"@
        },
        ValueView::Undefined => "undefined"@,
        ValueView::Name(n) => "@"@ + n,
        ValueView::Path(p) => p,
        ValueView::Record(r) => if r.len() == 0 {
            "{}"@
        } else {
            "{\n"@ + concat(field_lines(r, indent)) + spaces(indent) + "}"@
        },
        ValueView::List(items) => "["@ + join_comma(item_texts(items, indent)) + "]"@,
    }
}

/// One line per field: indented name, value and a comma.
pub open spec fn field_lines(r: RecordView, indent: nat) -> Seq<Seq<char>>
    decreases r, 0nat,
{
    Seq::new(
        r.len(),
        |i: int|
            {
                if 0 <= i < r.len() {
                    proof {
                        broadcast use vstd::seq::axiom_seq_index_decreases;

                        assert(decreases_to!(r => r[i]));
                    }
                    spaces(indent + 4) + r[i].0 + ": "@ + render_value(r[i].1.0, indent + 4)
                        + ",\n"@
                } else {
                    Seq::empty()
                }
            },
    )
}

/// The text of each item of a list.
pub open spec fn item_texts(items: Seq<(ValueView, BlameView)>, indent: nat) -> Seq<Seq<char>>
    decreases items, 0nat,
{
    Seq::new(
        items.len(),
        |i: int|
            {
                if 0 <= i < items.len() {
                    proof {
                        broadcast use vstd::seq::axiom_seq_index_decreases;

                        assert(decreases_to!(items => items[i]));
                    }
                    render_value(items[i].0, indent)
                } else {
                    Seq::empty()
                }
            },
    )
}

/// Whether a value can be rendered from `indent` without the indentation
/// overflowing a machine word.
pub open spec fn fits(v: ValueView, indent: nat) -> bool {
    indent + 4 * nesting(v) <= usize::MAX
}

fn write_value(out: &mut Vec<char>, value: &Value, indent: usize)
    requires
        fits(value@, indent as nat),
    ensures
        final(out)@ == old(out)@ + render_value(value@, indent as nat),
    decreases value,
{
    let ghost start = out@;
    match value {
        Value::String(s) => {
            let d = debug_string(s.as_str());
            push_str(out, d.as_str());
        },
        Value::Integer(n) => push_chars(out, &u64_to_dec(*n)),
        Value::SignedInteger(n) => push_chars(out, &i64_to_dec(*n)),
        Value::Bool(b) => if *b {
            push_str(out, "true");
        } else {
            push_str(out, "false");
        },
        Value::Undefined => push_str(out, "undefined"),
        Value::Name(n) => {
            push_str(out, "@");
            push_str(out, n.as_str());
            assert(out@ =~= start + ("@"@ + n@));
        },
        Value::Path(p) => push_str(out, p.as_str()),
        Value::Record(r) => write_record(out, r, indent),
        Value::List(items) => {
            proof {
                crate::types::lemma_list_view(*items);
            }
            let ghost iv = value@->List_0;
            let ghost texts = item_texts(iv, indent as nat);
            push_str(out, "[");
            assert(texts.take(0) =~= Seq::<Seq<char>>::empty());
            #[verifier::loop_isolation(false)]
            for i in 0..items.len()
                invariant
                    out@ == start + "["@ + join_comma(texts.take(i as int)),
            {
                proof {
                    broadcast use vstd::std_specs::vec::axiom_vec_decreases_to_view;
                    broadcast use vstd::seq::axiom_seq_index_decreases;

                    assert(decreases_to!(*items => items@));
                    assert(decreases_to!(items@ => items@[i as int]));
                    lemma_join_step(texts, i as int);
                    lemma_max_of(item_nestings(iv), i as int);
                    assert(item_nestings(iv)[i as int] == nesting(items@[i as int].value@));
                }
                let ghost before = out@;
                if i > 0 {
                    push_str(out, ", ");
                }
                write_value(out, &items[i].value, indent);
                assert(texts[i as int] == render_value(items@[i as int].value@, indent as nat));
                assert(out@ =~= start + "["@ + join_comma(texts.take(i + 1)));
            }
            push_str(out, "]");
            assert(texts.take(items@.len() as int) =~= texts);
            assert(out@ =~= start + render_value(value@, indent as nat));
        },
    }
}

fn write_record(out: &mut Vec<char>, record: &Record, indent: usize)
    requires
        fits(ValueView::Record(record@), indent as nat),
    ensures
        final(out)@ == old(out)@ + render_value(ValueView::Record(record@), indent as nat),
    decreases record,
{
    proof {
        crate::types::lemma_record_view(*record);
    }
    let ghost start = out@;
    if record.0.len() == 0 {
        push_str(out, "{}");
        return;
    }
    let ghost lines = field_lines(record@, indent as nat);
    push_str(out, "{\n");
    assert(lines.take(0) =~= Seq::<Seq<char>>::empty());
    #[verifier::loop_isolation(false)]
    for i in 0..record.0.len()
        invariant
            out@ == start + "{\n"@ + concat(lines.take(i as int)),
    {
        proof {
            broadcast use vstd::std_specs::vec::axiom_vec_decreases_to_view;
            broadcast use vstd::seq::axiom_seq_index_decreases;

            assert(decreases_to!(record.0 => record.0@));
            assert(decreases_to!(record.0@ => record.0@[i as int]));
            lemma_concat_step(lines, i as int);
            lemma_max_of(field_nestings(record@), i as int);
        }
        let ghost before = out@;
        let e = &record.0[i];
        write_indent(out, indent + 4);
        push_str(out, e.0.text.as_str());
        push_str(out, ": ");
        write_value(out, &e.1.value, indent + 4);
        push_str(out, ",\n");
        assert(out@ =~= before + lines[i as int]);
        assert(out@ =~= start + "{\n"@ + concat(lines.take(i + 1)));
    }
    write_indent(out, indent);
    push_str(out, "}");
    assert(lines.take(record@.len() as int) =~= lines);
    assert(out@ =~= start + render_value(ValueView::Record(record@), indent as nat));
}

// ── Record lists and calendars ─────────────────────────────────

/// The text of a list of records, one per line, indented from `indent`.
pub open spec fn render_record_list(items: Seq<(RecordView, BlameView)>, indent: nat) -> Seq<char> {
    if items.len() == 0 {
        "[]"@
    } else {
        "[\n"@ + concat(
            Seq::new(
                items.len(),
                |i: int|
                    spaces(indent + 4) + render_value(ValueView::Record(items[i].0), indent + 4)
                        + ",\n"@,
            ),
        ) + spaces(indent) + "]"@
    }
}

fn write_record_list(out: &mut Vec<char>, items: &Vec<Blamed<Record>>, indent: usize)
    requires
        forall|i: int|
            0 <= i < items@.len() ==> fits(ValueView::Record(#[trigger] items@[i].value@), (indent + 4) as nat),
    ensures
        final(out)@ == old(out)@ + render_record_list(crate::shape::entries_view(items@), indent as nat),
{
    let ghost start = out@;
    let ghost ev = crate::shape::entries_view(items@);
    if items.len() == 0 {
        push_str(out, "[]");
        return;
    }
    let ghost lines = Seq::new(
        ev.len(),
        |i: int|
            spaces((indent + 4) as nat) + render_value(ValueView::Record(ev[i].0), (indent + 4) as nat) + ",\n"@,
    );
    push_str(out, "[\n");
    assert(lines.take(0) =~= Seq::<Seq<char>>::empty());
    assert(fits(ValueView::Record(items@[0].value@), (indent + 4) as nat));
    for i in 0..items.len()
        invariant
            ev == crate::shape::entries_view(items@),
            lines.len() == items@.len(),
            forall|j: int| 0 <= j < lines.len() ==> #[trigger] lines[j] == spaces((indent + 4) as nat) + render_value(ValueView::Record(ev[j].0), (indent + 4) as nat) + ",\n"@,
            forall|j: int|
                0 <= j < items@.len() ==> fits(ValueView::Record(#[trigger] items@[j].value@), (indent + 4) as nat),
            indent + 4 <= usize::MAX,
            out@ == start + "[\n"@ + concat(lines.take(i as int)),
    {
        proof {
            lemma_concat_step(lines, i as int);
        }
        let ghost before = out@;
        write_indent(out, indent + 4);
        write_record(out, &items[i].value, indent + 4);
        push_str(out, ",\n");
        assert(out@ =~= before + lines[i as int]);
        assert(out@ =~= start + "[\n"@ + concat(lines.take(i + 1)));
    }
    write_indent(out, indent);
    push_str(out, "]");
    assert(lines.take(items@.len() as int) =~= lines);
    assert(out@ =~= start + render_record_list(ev, indent as nat));
}

// ── Rendering ──────────────────────────────────────────────────

/// Rendered text.
pub struct Rendered {
    pub text: String,
}

impl Rendered {
    /// The rendered text.
    pub fn as_str(&self) -> (s: &str)
        ensures
            s@ == self.text@,
    {
        self.text.as_str()
    }
}

fn rendered(out: Vec<char>) -> (r: Rendered)
    ensures
        r.text@ == out@,
{
    Rendered { text: crate::text::from_chars(out.as_slice()) }
}

/// Rendering as text, with the database for names.
pub trait RenderWithDb {
    /// Whether this value can be rendered within machine limits.
    spec fn renderable(&self) -> bool;

    /// The text this value renders to.
    spec fn rendering(&self) -> Seq<char>;

    fn render(&self, db: &Database) -> (r: Rendered)
        requires
            self.renderable(),
        ensures
            r.text@ == self.rendering(),
    ;
}

impl RenderWithDb for FieldName {
    open spec fn renderable(&self) -> bool {
        true
    }

    open spec fn rendering(&self) -> Seq<char> {
        self.text@
    }

    fn render(&self, db: &Database) -> (r: Rendered) {
        Rendered { text: self.text.clone() }
    }
}

pub open spec fn decl_kind_text(k: DeclKind) -> Seq<char> {
    match k {
        DeclKind::Calendar => "Calendar"@,
        DeclKind::Event => "Event"@,
        DeclKind::Task => "Task"@,
        DeclKind::Expr => "Expr"@,
    }
}

fn kind_text(k: DeclKind) -> (s: &'static str)
    ensures
        s@ == decl_kind_text(k),
{
    proof {
        reveal_strlit("Calendar");
        reveal_strlit("Event");
        reveal_strlit("Task");
        reveal_strlit("Expr");
    }
    match k {
        DeclKind::Calendar => "Calendar",
        DeclKind::Event => "Event",
        DeclKind::Task => "Task",
        DeclKind::Expr => "Expr",
    }
}

impl RenderWithDb for DeclKind {
    open spec fn renderable(&self) -> bool {
        true
    }

    open spec fn rendering(&self) -> Seq<char> {
        decl_kind_text(*self)
    }

    fn render(&self, db: &Database) -> (r: Rendered) {
        rendered(to_chars(kind_text(*self)))
    }
}

pub open spec fn decl_text(d: DeclId) -> Seq<char> {
    decl_kind_text(d.kind) + "#"@ + spec_nat_to_dec(d.index as nat)
}

fn write_decl(out: &mut Vec<char>, d: DeclId)
    ensures
        final(out)@ == old(out)@ + decl_text(d),
{
    let ghost start = out@;
    push_str(out, kind_text(d.kind));
    push_str(out, "#");
    push_chars(out, &u64_to_dec(d.index as u64));
    assert(out@ =~= start + decl_text(d));
}

impl RenderWithDb for DeclId {
    open spec fn renderable(&self) -> bool {
        true
    }

    open spec fn rendering(&self) -> Seq<char> {
        decl_text(*self)
    }

    fn render(&self, db: &Database) -> (r: Rendered) {
        let mut out: Vec<char> = Vec::new();
        write_decl(&mut out, *self);
        assert(out@ =~= decl_text(*self));
        rendered(out)
    }
}

pub open spec fn segment_text(s: SegView) -> Seq<char> {
    match s {
        SegView::Field(n) => n,
        SegView::Index(i) => "["@ + spec_nat_to_dec(i as nat) + "]"@,
    }
}

fn write_segment(out: &mut Vec<char>, s: &PathSegment)
    ensures
        final(out)@ == old(out)@ + segment_text(s@),
{
    let ghost start = out@;
    match s {
        PathSegment::Field(n) => push_str(out, n.text.as_str()),
        PathSegment::Index(i) => {
            push_str(out, "[");
            push_chars(out, &u64_to_dec(*i as u64));
            push_str(out, "]");
            assert(out@ =~= start + segment_text(s@));
        },
    }
}

impl RenderWithDb for PathSegment {
    open spec fn renderable(&self) -> bool {
        true
    }

    open spec fn rendering(&self) -> Seq<char> {
        segment_text(self@)
    }

    fn render(&self, db: &Database) -> (r: Rendered) {
        let mut out: Vec<char> = Vec::new();
        write_segment(&mut out, self);
        assert(out@ =~= segment_text(self@));
        rendered(out)
    }
}

/// A path: its segments in order, a dot before every field but the first
/// segment.
pub open spec fn path_text(p: Seq<SegView>) -> Seq<char> {
    concat(
        Seq::new(
            p.len(),
            |i: int|
                if i > 0 && p[i] is Field {
                    "."@ + segment_text(p[i])
                } else {
                    segment_text(p[i])
                },
        ),
    )
}

fn write_path(out: &mut Vec<char>, p: &FieldPath)
    ensures
        final(out)@ == old(out)@ + path_text(p@),
{
    let ghost start = out@;
    let ghost parts = Seq::new(
        p@.len(),
        |i: int|
            if i > 0 && p@[i] is Field {
                "."@ + segment_text(p@[i])
            } else {
                segment_text(p@[i])
            },
    );
    assert(parts.take(0) =~= Seq::<Seq<char>>::empty());
    for i in 0..p.0.len()
        invariant
            p@.len() == p.0@.len(),
            forall|j: int| 0 <= j < p.0@.len() ==> #[trigger] p@[j] == p.0@[j]@,
            parts.len() == p@.len(),
            forall|j: int|
                0 <= j < parts.len() ==> #[trigger] parts[j] == if j > 0 && p@[j] is Field {
                    "."@ + segment_text(p@[j])
                } else {
                    segment_text(p@[j])
                },
            out@ == start + concat(parts.take(i as int)),
    {
        proof {
            lemma_concat_step(parts, i as int);
        }
        let ghost before = out@;
        if i > 0 && matches!(p.0[i], PathSegment::Field(_)) {
            push_str(out, ".");
        }
        write_segment(out, &p.0[i]);
        assert(out@ =~= before + parts[i as int]);
        assert(out@ =~= start + concat(parts.take(i + 1)));
    }
    assert(parts.take(p@.len() as int) =~= parts);
}

impl RenderWithDb for FieldPath {
    open spec fn renderable(&self) -> bool {
        true
    }

    open spec fn rendering(&self) -> Seq<char> {
        path_text(self@)
    }

    fn render(&self, db: &Database) -> (r: Rendered) {
        let mut out: Vec<char> = Vec::new();
        write_path(&mut out, self);
        assert(out@ =~= path_text(self@));
        rendered(out)
    }
}

impl RenderWithDb for Value {
    open spec fn renderable(&self) -> bool {
        fits(self@, 0)
    }

    open spec fn rendering(&self) -> Seq<char> {
        render_value(self@, 0)
    }

    fn render(&self, db: &Database) -> (r: Rendered) {
        let mut out: Vec<char> = Vec::new();
        write_value(&mut out, self, 0);
        assert(out@ =~= render_value(self@, 0));
        rendered(out)
    }
}

impl RenderWithDb for Record {
    open spec fn renderable(&self) -> bool {
        fits(ValueView::Record(self@), 0)
    }

    open spec fn rendering(&self) -> Seq<char> {
        render_value(ValueView::Record(self@), 0)
    }

    fn render(&self, db: &Database) -> (r: Rendered) {
        let mut out: Vec<char> = Vec::new();
        write_record(&mut out, self, 0);
        assert(out@ =~= render_value(ValueView::Record(self@), 0));
        rendered(out)
    }
}

impl<T: RenderWithDb> RenderWithDb for Blamed<T> {
    open spec fn renderable(&self) -> bool {
        self.value.renderable()
    }

    open spec fn rendering(&self) -> Seq<char> {
        self.value.rendering()
    }

    fn render(&self, db: &Database) -> (r: Rendered) {
        self.value.render(db)
    }
}

impl RenderWithDb for Blame {
    open spec fn renderable(&self) -> bool {
        true
    }

    open spec fn rendering(&self) -> Seq<char> {
        decl_text(self.decl) + "@"@ + path_text(self.path@)
    }

    fn render(&self, db: &Database) -> (r: Rendered) {
        let mut out: Vec<char> = Vec::new();
        write_decl(&mut out, self.decl);
        push_str(&mut out, "@");
        write_path(&mut out, &self.path);
        assert(out@ =~= decl_text(self.decl) + "@"@ + path_text(self.path@));
        rendered(out)
    }
}

impl RenderWithDb for String {
    open spec fn renderable(&self) -> bool {
        true
    }

    open spec fn rendering(&self) -> Seq<char> {
        debug_text(self@)
    }

    fn render(&self, db: &Database) -> (r: Rendered) {
        Rendered { text: debug_string(self.as_str()) }
    }
}

/// The text of a calendar: its properties and its entries.
pub open spec fn render_calendar(c: crate::types::CalendarView) -> Seq<char> {
    "Calendar {\n    properties: "@ + render_value(ValueView::Record(c.properties), 4)
        + ",\n    entries: "@ + render_record_list(c.entries, 4) + ",\n}"@
}

impl RenderWithDb for Calendar {
    open spec fn renderable(&self) -> bool {
        &&& fits(ValueView::Record(self.properties@), 4)
        &&& forall|i: int|
            0 <= i < self.entries@.len() ==> fits(ValueView::Record(#[trigger] self.entries@[i].value@), 8)
    }

    open spec fn rendering(&self) -> Seq<char> {
        render_calendar(self@)
    }

    fn render(&self, db: &Database) -> (r: Rendered) {
        let mut out: Vec<char> = Vec::new();
        push_str(&mut out, "Calendar {\n    properties: ");
        write_record(&mut out, &self.properties, 4);
        push_str(&mut out, ",\n    entries: ");
        write_record_list(&mut out, &self.entries, 4);
        push_str(&mut out, ",\n}");
        assert(crate::shape::entries_view(self.entries@) =~= self@.entries);
        assert(out@ =~= render_calendar(self@));
        rendered(out)
    }
}

} // verus!
