//! Merging evaluated values into calendars: flattening into records,
//! checking that names are unique, deriving entry UIDs, and collecting every
//! diagnostic of the check.
use vstd::prelude::*;

use crate::desugar::owned;
use crate::input::{Database, SourceFile};
use crate::interned::{DeclId, DeclKind, FieldName, FieldPath};
use crate::keyed::key_insert;
use crate::queries::{Diagnostic, Severity, TextRange};
use crate::rrule::{field_of, spec_recurrences_errors, validate_entry_recurrences};
use crate::shape::{
    check_calendar_shape, diags_view, entries_view, error, error_at, push_diag,
    spec_check_calendar_shape, DiagView,
};
use crate::text::{from_chars, push_str, str_eq, to_chars};
use crate::types::{
    copy_record, lemma_list_view, Blame, BlameView, Blamed, Calendar, CalendarView, Record,
    RecordView, Value, ValueView,
};

verus! {

broadcast use {crate::types::lemma_value_view_unfold, crate::import_value::lemma_import_view_unfold};

// ── UUIDs ──────────────────────────────────────────────────────

/// The 128-bit value of the UUID that `uuid::Uuid::parse_str` reads from
/// this text, or `None` where it reports an error.
pub uninterp spec fn uuid_parse(text: Seq<char>) -> Option<u128>;

/// The hyphenated text of the name-based (SHA-1, version 5) UUID that
/// `uuid::Uuid::new_v5` derives from a namespace and the UTF-8 bytes of a
/// name.
pub uninterp spec fn uuid_v5(namespace: u128, name: Seq<char>) -> Seq<char>;

/// Calls `uuid::Uuid::parse_str`, which reads a UUID in any of its usual
/// text forms; its result depends on the text alone. The UUID is handed back
/// as its 128-bit value (`as_u128`).
#[verifier::external_body]
fn parse_uuid(text: &str) -> (r: Option<u128>)
    ensures
        r == uuid_parse(text@),
{
    match uuid::Uuid::parse_str(text) {
        Ok(u) => Some(u.as_u128()),
        Err(_) => None,
    }
}

/// Calls `uuid::Uuid::new_v5` on the UUID with this 128-bit value
/// (`from_u128`) and the UTF-8 bytes of `name`, and returns the result's
/// display text; the result depends on the two arguments alone.
#[verifier::external_body]
pub(crate) fn uuid_v5_text(namespace: u128, name: &str) -> (r: String)
    ensures
        r@ == uuid_v5(namespace, name@),
{
    uuid::Uuid::new_v5(&uuid::Uuid::from_u128(namespace), name.as_bytes()).to_string()
}

// ── UID derivation ─────────────────────────────────────────────

/// A warning about `source` with no particular range.
pub open spec fn warning_at(source: SourceFile, message: Seq<char>) -> DiagView {
    DiagView { source, range: TextRange { start: 0, end: 0 }, severity: Severity::Warning, message }
}

/// The name from which an entry's UID is derived: none when the entry has a
/// `uid`, or its `name` is missing or not a name.
pub open spec fn spec_uid_source(rec: RecordView) -> Option<Seq<char>> {
    if field_of(rec, "uid"@) is Some {
        None
    } else {
        match field_of(rec, "name"@) {
            Some(ValueView::Name(n)) => Some(n),
            _ => None,
        }
    }
}

/// An entry with its derived UID, blamed on the entry itself.
pub open spec fn spec_derive_entry(e: (RecordView, BlameView), namespace: u128) -> (
    RecordView,
    BlameView,
) {
    match spec_uid_source(e.0) {
        Some(n) => (key_insert(e.0, "uid"@, (ValueView::String(uuid_v5(namespace, n)), e.1)), e.1),
        None => e,
    }
}

/// The calendar with the UIDs of its entries derived in `namespace`.
pub open spec fn spec_with_uids(cal: CalendarView, namespace: u128) -> CalendarView {
    CalendarView {
        properties: cal.properties,
        entries: cal.entries.map_values(|e: (RecordView, BlameView)| spec_derive_entry(e, namespace)),
        foreign_import: cal.foreign_import,
    }
}

/// UID derivation: the calendar afterwards, and its diagnostics. Nothing
/// happens unless the calendar's `uid` is a string; one that is not a UUID
/// gives a warning and nothing else.
pub open spec fn spec_derive_uids(cal: CalendarView, root: SourceFile) -> (
    CalendarView,
    Seq<DiagView>,
) {
    match field_of(cal.properties, "uid"@) {
        Some(ValueView::String(s)) => match uuid_parse(s) {
            Some(ns) => (spec_with_uids(cal, ns), seq![]),
            None => (
                cal,
                seq![
                    warning_at(
                        root,
                        "calendar uid \""@ + s
                            + "\" is not a valid UUID; cannot derive entry UIDs"@,
                    ),
                ],
            ),
        },
        _ => (cal, seq![]),
    }
}

/// The name from which an entry's UID would be derived.
pub fn uid_source(rec: &Record) -> (r: Option<&String>)
    ensures
        match r {
            Some(n) => spec_uid_source(rec@) == Some(n@),
            None => spec_uid_source(rec@) is None,
        },
{
    if rec.get_str("uid").is_some() {
        return None;
    }
    match rec.get_str("name") {
        Some(b) => match &b.value {
            Value::Name(n) => Some(n),
            _ => None,
        },
        None => None,
    }
}

fn derive_entry(entry: Blamed<Record>, namespace: u128) -> (r: Blamed<Record>)
    ensures
        r@ == spec_derive_entry(entry@, namespace),
{
    let uid = match uid_source(&entry.value) {
        Some(n) => uuid_v5_text(namespace, n.as_str()),
        None => return entry,
    };
    let mut entry = entry;
    let blame = entry.blame.clone();
    entry.value.insert(FieldName::new(owned("uid")), Blamed { value: Value::String(uid), blame });
    entry
}

/// Derives a UID in `namespace` for every entry that has a name and no UID.
pub fn derive_entry_uids(calendar: &mut Calendar, namespace: u128)
    ensures
        final(calendar)@ == spec_with_uids(old(calendar)@, namespace),
{
    let ghost before = calendar@;
    let mut old_entries: Vec<Blamed<Record>> = Vec::new();
    std::mem::swap(&mut old_entries, &mut calendar.entries);
    let ghost orig = old_entries@;
    let mut out: Vec<Blamed<Record>> = Vec::new();
    for e in it: old_entries.into_iter()
        invariant
            it.seq() == orig,
            out@.len() == it.index(),
            forall|j: int| 0 <= j < it.index() ==> #[trigger] out@[j]@ == spec_derive_entry(orig[j]@, namespace),
    {
        out.push(derive_entry(e, namespace));
    }
    calendar.entries = out;
    assert(calendar@.entries =~= spec_with_uids(before, namespace).entries);
}

/// Derives UIDs for the entries of a calendar that omit one, using the
/// calendar's `uid` as the UUID namespace and each entry's `name` as the
/// key. A calendar `uid` that is not a UUID gives a warning instead.
pub fn derive_uids(calendar: &mut Calendar, root_source: SourceFile, diagnostics: &mut Vec<Diagnostic>)
    ensures
        final(calendar)@ == spec_derive_uids(old(calendar)@, root_source).0,
        diags_view(final(diagnostics)@) == diags_view(old(diagnostics)@) + spec_derive_uids(
            old(calendar)@,
            root_source,
        ).1,
{
    let ghost start = diags_view(diagnostics@);
    let namespace = match calendar.properties.get_str("uid") {
        Some(b) => match &b.value {
            Value::String(s) => match parse_uuid(s.as_str()) {
                Some(ns) => ns,
                None => {
                    let mut m = to_chars("calendar uid \"");
                    push_str(&mut m, s.as_str());
                    push_str(&mut m, "\" is not a valid UUID; cannot derive entry UIDs");
                    let d = Diagnostic {
                        source: root_source,
                        range: TextRange::empty(),
                        severity: Severity::Warning,
                        message: from_chars(m.as_slice()),
                    };
                    push_diag(diagnostics, d);
                    assert(diags_view(diagnostics@) =~= start + spec_derive_uids(
                        calendar@,
                        root_source,
                    ).1);
                    return;
                },
            },
            _ => {
                assert(diags_view(diagnostics@) =~= start + Seq::<DiagView>::empty());
                return;
            },
        },
        None => {
            assert(diags_view(diagnostics@) =~= start + Seq::<DiagView>::empty());
            return;
        },
    };
    derive_entry_uids(calendar, namespace);
    assert(diags_view(diagnostics@) =~= start + Seq::<DiagView>::empty());
}

// ── Name collisions ────────────────────────────────────────────

/// The path of a registered file; empty for a handle the database does not
/// hold.
pub open spec fn path_text(db: Database, s: SourceFile) -> Seq<char> {
    if s.id < db.files@.len() {
        db.files@[s.id as int].0@
    } else {
        Seq::empty()
    }
}

fn path_of(db: &Database, s: SourceFile) -> (r: String)
    ensures
        r@ == path_text(*db, s),
{
    if s.id < db.files.len() {
        db.files[s.id].0.clone()
    } else {
        String::new()
    }
}

/// The names seen so far, each with the file that first defined it.
pub open spec fn seen_view(v: Seq<(String, SourceFile)>) -> Seq<(Seq<char>, SourceFile)> {
    Seq::new(v.len(), |i: int| (v[i].0@, v[i].1))
}

/// The file recorded for a name.
pub open spec fn seen_lookup(seen: Seq<(Seq<char>, SourceFile)>, name: Seq<char>) -> Option<
    SourceFile,
>
    decreases seen.len(),
{
    if seen.len() == 0 {
        None
    } else if seen.last().0 == name {
        Some(seen.last().1)
    } else {
        seen_lookup(seen.drop_last(), name)
    }
}

fn lookup_seen(seen: &Vec<(String, SourceFile)>, name: &String) -> (r: Option<SourceFile>)
    ensures
        r == seen_lookup(seen_view(seen@), name@),
{
    let ghost sv = seen_view(seen@);
    let mut i = seen.len();
    assert(sv.take(i as int) =~= sv);
    while i > 0
        invariant
            i <= seen@.len(),
            sv == seen_view(seen@),
            seen_lookup(sv.take(i as int), name@) == seen_lookup(sv, name@),
        decreases i,
    {
        assert(sv.take(i as int).drop_last() =~= sv.take(i - 1));
        if str_eq(seen[i - 1].0.as_str(), name.as_str()) {
            return Some(seen[i - 1].1);
        }
        i = i - 1;
    }
    None
}

/// A name defined twice is an error at the second definition; a new name
/// is recorded with its file.
pub open spec fn spec_name_collision(
    rec: RecordView,
    source: SourceFile,
    seen: Seq<(Seq<char>, SourceFile)>,
    db: Database,
) -> (Seq<(Seq<char>, SourceFile)>, Seq<DiagView>) {
    match field_of(rec, "name"@) {
        Some(ValueView::Name(n)) => match seen_lookup(seen, n) {
            Some(first) => (
                seen,
                seq![
                    error_at(
                        source,
                        "name @"@ + n + " already defined in "@ + path_text(db, first),
                    ),
                ],
            ),
            None => (seen.push((n, source)), seq![]),
        },
        _ => (seen, seq![]),
    }
}

/// Checks that the name of a record, if it has one, was not defined before.
pub fn check_name_collision(
    db: &Database,
    record: &Record,
    source: SourceFile,
    seen_names: &mut Vec<(String, SourceFile)>,
    diagnostics: &mut Vec<Diagnostic>,
    has_errors: &mut bool,
)
    ensures
        seen_view(final(seen_names)@) == spec_name_collision(
            record@,
            source,
            seen_view(old(seen_names)@),
            *db,
        ).0,
        diags_view(final(diagnostics)@) == diags_view(old(diagnostics)@) + spec_name_collision(
            record@,
            source,
            seen_view(old(seen_names)@),
            *db,
        ).1,
        *final(has_errors) == (*old(has_errors) || spec_name_collision(
            record@,
            source,
            seen_view(old(seen_names)@),
            *db,
        ).1.len() > 0),
{
    let ghost start = diags_view(diagnostics@);
    let ghost seen0 = seen_view(seen_names@);
    if let Some(b) = record.get_str("name") {
        if let Value::Name(name) = &b.value {
            match lookup_seen(seen_names, name) {
                Some(first) => {
                    *has_errors = true;
                    let mut m = to_chars("name @");
                    push_str(&mut m, name.as_str());
                    push_str(&mut m, " already defined in ");
                    let p = path_of(db, first);
                    push_str(&mut m, p.as_str());
                    push_diag(diagnostics, error(source, m));
                },
                None => {
                    seen_names.push((name.clone(), source));
                    assert(seen_view(seen_names@) =~= seen0.push((name@, source)));
                },
            }
        }
    }
    assert(diags_view(diagnostics@) =~= start + spec_name_collision(record@, source, seen0, *db).1);
}

// ── Flattening ─────────────────────────────────────────────────

/// The blame of a record that holds no field to take one from.
pub open spec fn default_blame(source: SourceFile) -> BlameView {
    BlameView {
        decl: DeclId { source, index: 0, kind: DeclKind::Calendar },
        path: Seq::empty(),
    }
}

/// The records among some blamed values, in order, each with its blame.
pub open spec fn record_items(items: Seq<(ValueView, BlameView)>) -> Seq<(RecordView, BlameView)>
    decreases items.len(),
{
    if items.len() == 0 {
        seq![]
    } else {
        let p = record_items(items.drop_last());
        match items.last().0 {
            ValueView::Record(r) => p.push((r, items.last().1)),
            _ => p,
        }
    }
}

/// A value as records to validate: a record is one, blamed like its first
/// field; the records of a list, in order; nothing else gives any.
pub open spec fn spec_flatten(source: SourceFile, v: ValueView) -> Seq<(RecordView, BlameView)> {
    match v {
        ValueView::Record(r) => seq![
            (r, if r.len() > 0 {
                r[0].1.1
            } else {
                default_blame(source)
            }),
        ],
        ValueView::List(items) => record_items(items),
        _ => seq![],
    }
}

pub open spec fn pairs_view(v: Seq<(Record, Blame)>) -> Seq<(RecordView, BlameView)> {
    Seq::new(v.len(), |i: int| (v[i].0@, v[i].1@))
}

/// Flattens a value into the records to validate, with their blames.
pub fn flatten_to_records(source: SourceFile, value: Value) -> (r: Vec<(Record, Blame)>)
    ensures
        pairs_view(r@) == spec_flatten(source, value@),
{
    let ghost v = value@;
    match value {
        Value::Record(r) => {
            proof {
                crate::types::lemma_record_view(r);
            }
            let blame = if r.0.len() > 0 {
                r.0[0].1.blame.clone()
            } else {
                Blame { decl: DeclId::new(source, 0, DeclKind::Calendar), path: FieldPath::root() }
            };
            let mut out: Vec<(Record, Blame)> = Vec::new();
            out.push((r, blame));
            assert(pairs_view(out@) =~= spec_flatten(source, v));
            out
        },
        Value::List(items) => {
            proof {
                lemma_list_view(items);
            }
            let ghost iv = v->List_0;
            let mut out: Vec<(Record, Blame)> = Vec::new();
            assert(iv.take(0) =~= Seq::<(ValueView, BlameView)>::empty());
            assert(pairs_view(out@) =~= Seq::<(RecordView, BlameView)>::empty());
            for item in it: items.into_iter()
                invariant
                    iv.len() == it.seq().len(),
                    forall|j: int| 0 <= j < iv.len() ==> #[trigger] iv[j] == it.seq()[j]@,
                    pairs_view(out@) == record_items(iv.take(it.index() as int)),
            {
                let ghost k = it.index() as int;
                assert(iv.take(k + 1).drop_last() =~= iv.take(k));
                let ghost before = pairs_view(out@);
                let Blamed { value, blame } = item;
                match value {
                    Value::Record(r) => {
                        out.push((r, blame));
                        assert(pairs_view(out@) =~= before.push((iv[k].0->Record_0, iv[k].1)));
                    },
                    _ => {},
                }
            }
            assert(iv.take(iv.len() as int) =~= iv);
            out
        },
        _ => {
            let out: Vec<(Record, Blame)> = Vec::new();
            assert(pairs_view(out@) =~= Seq::<(RecordView, BlameView)>::empty());
            out
        },
    }
}

// ── Validation ─────────────────────────────────────────────────

/// Result of validating a calendar.
pub struct CheckResult {
    pub calendars: Vec<Calendar>,
    /// All diagnostics: syntax, evaluation and check-level.
    pub diagnostics: Vec<Diagnostic>,
    pub has_errors: bool,
}

/// The mathematical form of a check result.
#[verifier::ext_equal]
pub struct CheckView {
    pub calendars: Seq<CalendarView>,
    pub diagnostics: Seq<DiagView>,
    pub has_errors: bool,
}

pub open spec fn calendars_view(v: Seq<Calendar>) -> Seq<CalendarView> {
    Seq::new(v.len(), |i: int| v[i]@)
}

impl View for CheckResult {
    type V = CheckView;

    open spec fn view(&self) -> CheckView {
        CheckView {
            calendars: calendars_view(self.calendars@),
            diagnostics: diags_view(self.diagnostics@),
            has_errors: self.has_errors,
        }
    }
}

/// Whether some diagnostic is an error.
pub open spec fn any_error(ds: Seq<DiagView>) -> bool {
    exists|i: int| 0 <= i < ds.len() && #[trigger] ds[i].severity == Severity::Error
}

proof fn lemma_any_error_concat(a: Seq<DiagView>, b: Seq<DiagView>)
    ensures
        any_error(a + b) == (any_error(a) || any_error(b)),
{
    if any_error(a + b) {
        let i = choose|i: int| 0 <= i < (a + b).len() && #[trigger] (a + b)[i].severity == Severity::Error;
        if i < a.len() {
            assert(a[i].severity == Severity::Error);
        } else {
            assert(b[i - a.len()].severity == Severity::Error);
        }
    }
    if any_error(a) {
        let i = choose|i: int| 0 <= i < a.len() && #[trigger] a[i].severity == Severity::Error;
        assert((a + b)[i].severity == Severity::Error);
    }
    if any_error(b) {
        let i = choose|i: int| 0 <= i < b.len() && #[trigger] b[i].severity == Severity::Error;
        assert((a + b)[a.len() + i].severity == Severity::Error);
    }
}

/// Appends diagnostics, noting whether any is an error.
fn absorb(diagnostics: &mut Vec<Diagnostic>, has_errors: &mut bool, ds: Vec<Diagnostic>)
    ensures
        diags_view(final(diagnostics)@) == diags_view(old(diagnostics)@) + diags_view(ds@),
        *final(has_errors) == (*old(has_errors) || any_error(diags_view(ds@))),
{
    let ghost start = diags_view(diagnostics@);
    let ghost dv = diags_view(ds@);
    let ghost flag = *has_errors;
    assert(dv.take(0) =~= Seq::<DiagView>::empty());
    assert(start + dv.take(0) =~= start);
    for d in it: ds.into_iter()
        invariant
            it.seq() == ds@,
            dv == diags_view(ds@),
            diags_view(diagnostics@) == start + dv.take(it.index() as int),
            *has_errors == (flag || any_error(dv.take(it.index() as int))),
    {
        let ghost k = it.index() as int;
        proof {
            assert(dv.take(k + 1) =~= dv.take(k) + seq![dv[k]]);
            lemma_any_error_concat(dv.take(k), seq![dv[k]]);
            assert(any_error(seq![dv[k]]) == (dv[k].severity == Severity::Error)) by {
                if dv[k].severity == Severity::Error {
                    assert(seq![dv[k]][0].severity == Severity::Error);
                }
            }
        }
        if matches!(d.severity, Severity::Error) {
            *has_errors = true;
        }
        push_diag(diagnostics, d);
        assert(diags_view(diagnostics@) =~= start + dv.take(k + 1));
    }
    assert(dv.take(dv.len() as int) =~= dv);
}

/// What kind of record a top-level record is, by its `type`.
pub enum RecordKind {
    Entry,
    Calendar,
    Other,
}

pub open spec fn spec_record_kind(rec: RecordView) -> RecordKind {
    match field_of(rec, "type"@) {
        Some(ValueView::String(s)) => if s == "event"@ || s == "task"@ {
            RecordKind::Entry
        } else if s == "calendar"@ {
            RecordKind::Calendar
        } else {
            RecordKind::Other
        },
        _ => RecordKind::Other,
    }
}

fn record_kind(rec: &Record) -> (k: RecordKind)
    ensures
        k == spec_record_kind(rec@),
{
    match rec.get_str("type") {
        Some(b) => match &b.value {
            Value::String(s) => if str_eq(s.as_str(), "event") || str_eq(s.as_str(), "task") {
                RecordKind::Entry
            } else if str_eq(s.as_str(), "calendar") {
                RecordKind::Calendar
            } else {
                RecordKind::Other
            },
            _ => RecordKind::Other,
        },
        None => RecordKind::Other,
    }
}

/// The state of merging records into calendars.
#[verifier::ext_equal]
pub struct MergeState {
    pub calendars: Seq<CalendarView>,
    pub loose: Seq<(RecordView, BlameView)>,
    pub seen: Seq<(Seq<char>, SourceFile)>,
    pub diags: Seq<DiagView>,
    pub has_errors: bool,
}

/// The records among the items of a calendar's `entries`, each checked for
/// a name collision against the calendar's file: the entries, the names
/// seen afterwards, and the diagnostics.
pub open spec fn spec_nested_entries(
    items: Seq<(ValueView, BlameView)>,
    source: SourceFile,
    seen: Seq<(Seq<char>, SourceFile)>,
    db: Database,
) -> (Seq<(RecordView, BlameView)>, Seq<(Seq<char>, SourceFile)>, Seq<DiagView>)
    decreases items.len(),
{
    if items.len() == 0 {
        (seq![], seen, seq![])
    } else {
        let p = spec_nested_entries(items.drop_last(), source, seen, db);
        match items.last().0 {
            ValueView::Record(r) => {
                let c = spec_name_collision(r, source, p.1, db);
                (p.0.push((r, items.last().1)), c.0, p.2 + c.1)
            },
            _ => p,
        }
    }
}

pub open spec fn spec_calendar_entries(
    rec: RecordView,
    source: SourceFile,
    seen: Seq<(Seq<char>, SourceFile)>,
    db: Database,
) -> (Seq<(RecordView, BlameView)>, Seq<(Seq<char>, SourceFile)>, Seq<DiagView>) {
    match field_of(rec, "entries"@) {
        Some(ValueView::List(items)) => spec_nested_entries(items, source, seen, db),
        _ => (seq![], seen, seq![]),
    }
}

/// One record merged into the state: an event or task is a loose entry; a
/// calendar brings its nested entries; anything else is an error.
pub open spec fn spec_merge_step(st: MergeState, rb: (RecordView, BlameView), db: Database) -> MergeState {
    let rec = rb.0;
    let source = rb.1.decl.source;
    match spec_record_kind(rec) {
        RecordKind::Entry => {
            let c = spec_name_collision(rec, source, st.seen, db);
            MergeState {
                calendars: st.calendars,
                loose: st.loose.push(rb),
                seen: c.0,
                diags: st.diags + c.1,
                has_errors: st.has_errors || c.1.len() > 0,
            }
        },
        RecordKind::Calendar => {
            let n = spec_calendar_entries(rec, source, st.seen, db);
            MergeState {
                calendars: st.calendars.push(
                    CalendarView {
                        properties: rec,
                        entries: n.0,
                        foreign_import: rb.1.decl.kind != DeclKind::Calendar,
                    },
                ),
                loose: st.loose,
                seen: n.1,
                diags: st.diags + n.2,
                has_errors: st.has_errors || n.2.len() > 0,
            }
        },
        RecordKind::Other => MergeState {
            calendars: st.calendars,
            loose: st.loose,
            seen: st.seen,
            diags: st.diags.push(error_at(source, "record has no recognized type field"@)),
            has_errors: true,
        },
    }
}

/// The records merged in order.
pub open spec fn spec_merge(recs: Seq<(RecordView, BlameView)>, st: MergeState, db: Database) -> MergeState
    decreases recs.len(),
{
    if recs.len() == 0 {
        st
    } else {
        spec_merge_step(spec_merge(recs.drop_last(), st, db), recs.last(), db)
    }
}

pub const AMBIGUOUS_ENTRIES: &'static str = "top-level event/task records are ambiguous when multiple calendars exist; nest them inside a calendar's entries field instead";

/// Loose entries join the only calendar; with several calendars they are an
/// error.
pub open spec fn spec_distribute(st: MergeState, root: SourceFile) -> MergeState {
    if st.loose.len() > 0 && st.calendars.len() == 1 {
        MergeState {
            calendars: seq![
                CalendarView {
                    properties: st.calendars[0].properties,
                    entries: st.calendars[0].entries + st.loose,
                    foreign_import: st.calendars[0].foreign_import,
                },
            ],
            loose: seq![],
            seen: st.seen,
            diags: st.diags,
            has_errors: st.has_errors,
        }
    } else if st.loose.len() > 0 && st.calendars.len() > 1 {
        MergeState {
            calendars: st.calendars,
            loose: st.loose,
            seen: st.seen,
            diags: st.diags.push(error_at(root, AMBIGUOUS_ENTRIES@)),
            has_errors: true,
        }
    } else {
        st
    }
}

/// No calendar at all is an error.
pub open spec fn spec_require_calendar(st: MergeState, root: SourceFile) -> MergeState {
    if st.calendars.len() == 0 {
        MergeState {
            calendars: st.calendars,
            loose: st.loose,
            seen: st.seen,
            diags: st.diags.push(error_at(root, "no calendar record found"@)),
            has_errors: true,
        }
    } else {
        st
    }
}

/// One calendar after UID derivation, with the diagnostics of derivation,
/// shape and recurrence checks, and whether any of them is an error.
pub open spec fn spec_finish_calendar(cal: CalendarView, root: SourceFile) -> (
    CalendarView,
    Seq<DiagView>,
    bool,
) {
    let d = spec_derive_uids(cal, root);
    let c = d.0;
    let shape = spec_check_calendar_shape(c.properties, c.entries, root);
    let recur = spec_recurrences_errors(c.entries, c.entries.len());
    (c, d.1 + shape + recur, any_error(shape) || recur.len() > 0)
}

/// Every calendar finished in order.
pub open spec fn spec_finish(cals: Seq<CalendarView>, root: SourceFile) -> (
    Seq<CalendarView>,
    Seq<DiagView>,
    bool,
)
    decreases cals.len(),
{
    if cals.len() == 0 {
        (seq![], seq![], false)
    } else {
        let p = spec_finish(cals.drop_last(), root);
        let f = spec_finish_calendar(cals.last(), root);
        (p.0.push(f.0), p.1 + f.1, p.2 || f.2)
    }
}

/// What validating a value as a calendar gives: the diagnostics handed in
/// first, then those of merging, then those of each calendar.
pub open spec fn spec_validate_calendar(
    db: Database,
    root: SourceFile,
    value: ValueView,
    syntax: Seq<DiagView>,
    eval: Seq<DiagView>,
) -> CheckView {
    let initial = syntax + eval;
    let st0 = MergeState {
        calendars: seq![],
        loose: seq![],
        seen: seq![],
        diags: initial,
        has_errors: any_error(initial),
    };
    let st = spec_require_calendar(
        spec_distribute(spec_merge(spec_flatten(root, value), st0, db), root),
        root,
    );
    let f = spec_finish(st.calendars, root);
    CheckView { calendars: f.0, diagnostics: st.diags + f.1, has_errors: st.has_errors || f.2 }
}

/// The state of a merge in progress.
struct Merger {
    calendars: Vec<Calendar>,
    loose: Vec<Blamed<Record>>,
    seen: Vec<(String, SourceFile)>,
    diagnostics: Vec<Diagnostic>,
    has_errors: bool,
}

impl View for Merger {
    type V = MergeState;

    closed spec fn view(&self) -> MergeState {
        MergeState {
            calendars: calendars_view(self.calendars@),
            loose: entries_view(self.loose@),
            seen: seen_view(self.seen@),
            diags: diags_view(self.diagnostics@),
            has_errors: self.has_errors,
        }
    }
}

fn nested_entries(
    db: &Database,
    record: &Record,
    source: SourceFile,
    seen_names: &mut Vec<(String, SourceFile)>,
    diagnostics: &mut Vec<Diagnostic>,
    has_errors: &mut bool,
) -> (r: Vec<Blamed<Record>>)
    ensures
        entries_view(r@) == spec_calendar_entries(record@, source, seen_view(old(seen_names)@), *db).0,
        seen_view(final(seen_names)@) == spec_calendar_entries(
            record@,
            source,
            seen_view(old(seen_names)@),
            *db,
        ).1,
        diags_view(final(diagnostics)@) == diags_view(old(diagnostics)@) + spec_calendar_entries(
            record@,
            source,
            seen_view(old(seen_names)@),
            *db,
        ).2,
        *final(has_errors) == (*old(has_errors) || spec_calendar_entries(
            record@,
            source,
            seen_view(old(seen_names)@),
            *db,
        ).2.len() > 0),
{
    let ghost start = diags_view(diagnostics@);
    let ghost seen0 = seen_view(seen_names@);
    let ghost flag = *has_errors;
    let mut out: Vec<Blamed<Record>> = Vec::new();
    assert(entries_view(out@) =~= Seq::<(RecordView, BlameView)>::empty());
    assert(start + Seq::<DiagView>::empty() =~= start);
    let b = match record.get_str("entries") {
        Some(b) => b,
        None => return out,
    };
    let items = match crate::rrule::list_items(b) {
        Some(items) => items,
        None => return out,
    };
    let ghost iv = b.value@->List_0;
    assert(iv.take(0) =~= Seq::<(ValueView, BlameView)>::empty());
    for i in 0..items.len()
        invariant
            iv == b.value@->List_0,
            iv.len() == items@.len(),
            forall|j: int| 0 <= j < items@.len() ==> #[trigger] iv[j] == (items@[j].value@, items@[j].blame@),
            entries_view(out@) == spec_nested_entries(iv.take(i as int), source, seen0, *db).0,
            seen_view(seen_names@) == spec_nested_entries(iv.take(i as int), source, seen0, *db).1,
            diags_view(diagnostics@) == start + spec_nested_entries(iv.take(i as int), source, seen0, *db).2,
            *has_errors == (flag || spec_nested_entries(iv.take(i as int), source, seen0, *db).2.len() > 0),
    {
        let ghost p = spec_nested_entries(iv.take(i as int), source, seen0, *db);
        assert(iv.take(i + 1).drop_last() =~= iv.take(i as int));
        let ghost before = entries_view(out@);
        if let Value::Record(r) = &items[i].value {
            let ghost d0 = diags_view(diagnostics@);
            check_name_collision(db, r, source, seen_names, diagnostics, has_errors);
            let copy = copy_record(r);
            out.push(Blamed { value: copy, blame: items[i].blame.clone() });
            assert(entries_view(out@) =~= before.push((r@, items@[i as int].blame@)));
            let ghost c = spec_name_collision(r@, source, p.1, *db);
            assert(diags_view(diagnostics@) =~= start + (p.2 + c.1));
        }
    }
    assert(iv.take(items@.len() as int) =~= iv);
    out
}

/// Merges one record into the state.
fn merge_record(db: &Database, m: &mut Merger, record: Record, blame: Blame)
    ensures
        final(m)@ == spec_merge_step(old(m)@, (record@, blame@), *db),
{
    let ghost st = m@;
    let ghost rb = (record@, blame@);
    let source = blame.decl.source;
    match record_kind(&record) {
        RecordKind::Entry => {
            check_name_collision(
                db,
                &record,
                source,
                &mut m.seen,
                &mut m.diagnostics,
                &mut m.has_errors,
            );
            m.loose.push(Blamed { value: record, blame });
            assert(m@.loose =~= st.loose.push(rb));
            assert(m@ =~= spec_merge_step(st, rb, *db));
        },
        RecordKind::Calendar => {
            let foreign_import = !matches!(blame.decl.kind, DeclKind::Calendar);
            let entries = nested_entries(
                db,
                &record,
                source,
                &mut m.seen,
                &mut m.diagnostics,
                &mut m.has_errors,
            );
            let ghost props = record@;
            m.calendars.push(Calendar { properties: record, entries, foreign_import });
            assert(m@.calendars =~= st.calendars.push(
                CalendarView {
                    properties: props,
                    entries: spec_calendar_entries(props, source, st.seen, *db).0,
                    foreign_import,
                },
            ));
            assert(m@ =~= spec_merge_step(st, rb, *db));
        },
        RecordKind::Other => {
            m.has_errors = true;
            push_diag(&mut m.diagnostics, error(source, to_chars("record has no recognized type field")));
            assert(m@ =~= spec_merge_step(st, rb, *db));
        },
    }
}

fn distribute(m: &mut Merger, root: SourceFile)
    ensures
        final(m)@ == spec_require_calendar(spec_distribute(old(m)@, root), root),
{
    let ghost st = m@;
    if m.loose.len() > 0 {
        if m.calendars.len() == 1 {
            let mut c = match m.calendars.pop() {
                Some(c) => c,
                None => return,
            };
            let ghost cv = c@;
            assert(cv == st.calendars[0]);
            c.entries.append(&mut m.loose);
            assert(c@.entries =~= cv.entries + st.loose);
            m.calendars.push(c);
            assert(m@.loose =~= Seq::<(RecordView, BlameView)>::empty());
            assert(m@.calendars =~= spec_distribute(st, root).calendars);
            assert(m@ =~= spec_distribute(st, root));
        } else if m.calendars.len() > 1 {
            m.has_errors = true;
            push_diag(&mut m.diagnostics, error(root, to_chars(AMBIGUOUS_ENTRIES)));
            assert(m@ =~= spec_distribute(st, root));
        } else {
            assert(m@ =~= spec_distribute(st, root));
        }
    } else {
        assert(m@ =~= spec_distribute(st, root));
    }
    let ghost st1 = m@;
    if m.calendars.len() == 0 {
        m.has_errors = true;
        push_diag(&mut m.diagnostics, error(root, to_chars("no calendar record found")));
    }
    assert(m@ =~= spec_require_calendar(st1, root));
}

fn finish_calendar(
    calendar: &mut Calendar,
    root: SourceFile,
    diagnostics: &mut Vec<Diagnostic>,
    has_errors: &mut bool,
)
    ensures
        final(calendar)@ == spec_finish_calendar(old(calendar)@, root).0,
        diags_view(final(diagnostics)@) == diags_view(old(diagnostics)@) + spec_finish_calendar(
            old(calendar)@,
            root,
        ).1,
        *final(has_errors) == (*old(has_errors) || spec_finish_calendar(old(calendar)@, root).2),
{
    let ghost start = diags_view(diagnostics@);
    let ghost flag = *has_errors;
    let ghost cal0 = calendar@;
    let ghost d = spec_derive_uids(cal0, root);
    derive_uids(calendar, root, diagnostics);
    let shape = check_calendar_shape(calendar, root);
    let ghost sv = diags_view(shape@);
    absorb(diagnostics, has_errors, shape);
    let ghost flag2 = *has_errors;
    validate_entry_recurrences(calendar, diagnostics, has_errors);
    let ghost rv = spec_recurrences_errors(entries_view(calendar.entries@), calendar.entries@.len());
    assert(entries_view(calendar.entries@) =~= calendar@.entries);
    assert(diags_view(diagnostics@) =~= start + (d.1 + sv + rv));
}

fn finish_all(calendars: Vec<Calendar>, root: SourceFile, diagnostics: &mut Vec<Diagnostic>, has_errors: &mut bool) -> (r: Vec<Calendar>)
    ensures
        calendars_view(r@) == spec_finish(calendars_view(calendars@), root).0,
        diags_view(final(diagnostics)@) == diags_view(old(diagnostics)@) + spec_finish(
            calendars_view(calendars@),
            root,
        ).1,
        *final(has_errors) == (*old(has_errors) || spec_finish(calendars_view(calendars@), root).2),
{
    let ghost start = diags_view(diagnostics@);
    let ghost flag = *has_errors;
    let ghost cv = calendars_view(calendars@);
    let mut out: Vec<Calendar> = Vec::new();
    assert(cv.take(0) =~= Seq::<CalendarView>::empty());
    assert(calendars_view(out@) =~= Seq::<CalendarView>::empty());
    assert(start + Seq::<DiagView>::empty() =~= start);
    for c in it: calendars.into_iter()
        invariant
            it.seq() == calendars@,
            cv == calendars_view(calendars@),
            calendars_view(out@) == spec_finish(cv.take(it.index() as int), root).0,
            diags_view(diagnostics@) == start + spec_finish(cv.take(it.index() as int), root).1,
            *has_errors == (flag || spec_finish(cv.take(it.index() as int), root).2),
    {
        let ghost k = it.index() as int;
        let ghost p = spec_finish(cv.take(k), root);
        assert(cv.take(k + 1).drop_last() =~= cv.take(k));
        let mut c = c;
        let ghost before = calendars_view(out@);
        finish_calendar(&mut c, root, diagnostics, has_errors);
        let ghost f = spec_finish_calendar(cv[k], root);
        out.push(c);
        assert(calendars_view(out@) =~= before.push(f.0));
        assert(diags_view(diagnostics@) =~= start + (p.1 + f.1));
    }
    assert(cv.take(cv.len() as int) =~= cv);
    out
}

/// Validates an evaluated value as a calendar.
///
/// Takes the root source file (for diagnostic attribution), the evaluated
/// value, the syntax diagnostics of the root file and the diagnostics of
/// evaluation. Flattens the value into records, checks uniqueness
/// constraints (calendars, names), derives UIDs, runs shape-checking and
/// validates recurrence rules.
pub fn validate_calendar(
    db: &Database,
    root_source: SourceFile,
    value: Value,
    syntax_diagnostics: Vec<Diagnostic>,
    eval_diagnostics: Vec<Diagnostic>,
) -> (r: CheckResult)
    ensures
        r@ == spec_validate_calendar(
            *db,
            root_source,
            value@,
            diags_view(syntax_diagnostics@),
            diags_view(eval_diagnostics@),
        ),
{
    let ghost syn = diags_view(syntax_diagnostics@);
    let ghost ev = diags_view(eval_diagnostics@);
    let mut m = Merger {
        calendars: Vec::new(),
        loose: Vec::new(),
        seen: Vec::new(),
        diagnostics: Vec::new(),
        has_errors: false,
    };
    absorb(&mut m.diagnostics, &mut m.has_errors, syntax_diagnostics);
    absorb(&mut m.diagnostics, &mut m.has_errors, eval_diagnostics);
    proof {
        lemma_any_error_concat(syn, ev);
        assert(Seq::<DiagView>::empty() + syn + ev =~= syn + ev);
    }
    let ghost st0 = MergeState {
        calendars: seq![],
        loose: seq![],
        seen: seq![],
        diags: syn + ev,
        has_errors: any_error(syn + ev),
    };
    assert(m@ =~= st0);
    let records = flatten_to_records(root_source, value);
    let ghost rv = pairs_view(records@);
    assert(rv.take(0) =~= Seq::<(RecordView, BlameView)>::empty());
    for rb in it: records.into_iter()
        invariant
            it.seq() == records@,
            rv == pairs_view(records@),
            m@ == spec_merge(rv.take(it.index() as int), st0, *db),
    {
        let ghost k = it.index() as int;
        assert(rv.take(k + 1).drop_last() =~= rv.take(k));
        let (record, blame) = rb;
        merge_record(db, &mut m, record, blame);
    }
    assert(rv.take(rv.len() as int) =~= rv);
    distribute(&mut m, root_source);
    let ghost st = m@;
    let Merger { calendars, loose: _, seen: _, mut diagnostics, mut has_errors } = m;
    let finished = finish_all(calendars, root_source, &mut diagnostics, &mut has_errors);
    let r = CheckResult { calendars: finished, diagnostics, has_errors };
    assert(r@ =~= spec_validate_calendar(*db, root_source, value@, syn, ev));
    r
}


proof fn lemma_merge_keeps_no_calendar(recs: Seq<(RecordView, BlameView)>, st: MergeState, db: Database)
    requires
        st.calendars.len() == 0,
        forall|i: int| 0 <= i < recs.len() ==> spec_record_kind((#[trigger] recs[i]).0) != RecordKind::Calendar,
    ensures
        spec_merge(recs, st, db).calendars.len() == 0,
    decreases recs.len(),
{
    if recs.len() > 0 {
        assert forall|i: int| 0 <= i < recs.drop_last().len() implies spec_record_kind(
            (#[trigger] recs.drop_last()[i]).0,
        ) != RecordKind::Calendar by {
            assert(recs.drop_last()[i] == recs[i]);
        }
        lemma_merge_keeps_no_calendar(recs.drop_last(), st, db);
        assert(spec_record_kind(recs[recs.len() - 1].0) != RecordKind::Calendar);
    }
}

/// A value with no calendar record fails the check: no calendar comes out,
/// errors are reported, and one of them says that no calendar was found.
pub proof fn lemma_no_calendar_is_an_error(
    db: Database,
    root: SourceFile,
    value: ValueView,
    syntax: Seq<DiagView>,
    eval: Seq<DiagView>,
)
    requires
        forall|i: int|
            0 <= i < spec_flatten(root, value).len() ==> spec_record_kind(
                (#[trigger] spec_flatten(root, value)[i]).0,
            ) != RecordKind::Calendar,
    ensures
        spec_validate_calendar(db, root, value, syntax, eval).has_errors,
        spec_validate_calendar(db, root, value, syntax, eval).calendars.len() == 0,
        spec_validate_calendar(db, root, value, syntax, eval).diagnostics.contains(
            error_at(root, "no calendar record found"@),
        ),
{
    let initial = syntax + eval;
    let st0 = MergeState {
        calendars: seq![],
        loose: seq![],
        seen: seq![],
        diags: initial,
        has_errors: any_error(initial),
    };
    let m = spec_merge(spec_flatten(root, value), st0, db);
    lemma_merge_keeps_no_calendar(spec_flatten(root, value), st0, db);
    let st = spec_require_calendar(spec_distribute(m, root), root);
    assert(st.diags.last() == error_at(root, "no calendar record found"@));
    let r = spec_validate_calendar(db, root, value, syntax, eval);
    assert(r.diagnostics == st.diags + Seq::<DiagView>::empty());
    assert(st.diags + Seq::<DiagView>::empty() =~= st.diags);
    assert(r.diagnostics[st.diags.len() - 1] == error_at(root, "no calendar record found"@));
}
// ── Whether a result has errors ────────────────────────────────

/// Every diagnostic is an error.
pub open spec fn all_errors(ds: Seq<DiagView>) -> bool {
    forall|i: int| 0 <= i < ds.len() ==> #[trigger] ds[i].severity == Severity::Error
}

proof fn lemma_all_errors_any(ds: Seq<DiagView>)
    requires
        all_errors(ds),
    ensures
        any_error(ds) == (ds.len() > 0),
{
    if ds.len() > 0 {
        assert(ds[0].severity == Severity::Error);
    }
}

proof fn lemma_all_errors_concat(a: Seq<DiagView>, b: Seq<DiagView>)
    requires
        all_errors(a),
        all_errors(b),
    ensures
        all_errors(a + b),
{
    assert forall|i: int| 0 <= i < (a + b).len() implies #[trigger] (a + b)[i].severity == Severity::Error by {
        if i < a.len() {
            assert((a + b)[i] == a[i]);
        } else {
            assert((a + b)[i] == b[i - a.len()]);
        }
    }
}

proof fn lemma_any_error_push_error(ds: Seq<DiagView>, d: DiagView)
    requires
        d.severity == Severity::Error,
    ensures
        any_error(ds.push(d)),
{
    assert(ds.push(d)[ds.len() as int].severity == Severity::Error);
}

proof fn lemma_nested_entries_errors(
    items: Seq<(ValueView, BlameView)>,
    source: SourceFile,
    seen: Seq<(Seq<char>, SourceFile)>,
    db: Database,
)
    ensures
        all_errors(spec_nested_entries(items, source, seen, db).2),
    decreases items.len(),
{
    if items.len() > 0 {
        lemma_nested_entries_errors(items.drop_last(), source, seen, db);
        let p = spec_nested_entries(items.drop_last(), source, seen, db);
        match items.last().0 {
            ValueView::Record(r) => {
                let c = spec_name_collision(r, source, p.1, db);
                lemma_all_errors_concat(p.2, c.1);
            },
            _ => {},
        }
    }
}

/// A step of merging keeps the flag equal to whether some diagnostic is an
/// error.
proof fn lemma_merge_step_flag(st: MergeState, rb: (RecordView, BlameView), db: Database)
    requires
        st.has_errors == any_error(st.diags),
    ensures
        spec_merge_step(st, rb, db).has_errors == any_error(spec_merge_step(st, rb, db).diags),
{
    let rec = rb.0;
    let source = rb.1.decl.source;
    match spec_record_kind(rec) {
        RecordKind::Entry => {
            let c = spec_name_collision(rec, source, st.seen, db);
            lemma_all_errors_any(c.1);
            lemma_any_error_concat(st.diags, c.1);
        },
        RecordKind::Calendar => {
            let n = spec_calendar_entries(rec, source, st.seen, db);
            match field_of(rec, "entries"@) {
                Some(ValueView::List(items)) => lemma_nested_entries_errors(items, source, st.seen, db),
                _ => {},
            }
            lemma_all_errors_any(n.2);
            lemma_any_error_concat(st.diags, n.2);
        },
        RecordKind::Other => {
            lemma_any_error_push_error(st.diags, error_at(source, "record has no recognized type field"@));
        },
    }
}

proof fn lemma_merge_flag(recs: Seq<(RecordView, BlameView)>, st: MergeState, db: Database)
    requires
        st.has_errors == any_error(st.diags),
    ensures
        spec_merge(recs, st, db).has_errors == any_error(spec_merge(recs, st, db).diags),
    decreases recs.len(),
{
    if recs.len() > 0 {
        lemma_merge_flag(recs.drop_last(), st, db);
        lemma_merge_step_flag(spec_merge(recs.drop_last(), st, db), recs.last(), db);
    }
}

proof fn lemma_recurrences_errors(entries: Seq<(RecordView, BlameView)>, n: nat)
    ensures
        all_errors(spec_recurrences_errors(entries, n)),
    decreases n,
{
    if n > 0 {
        lemma_recurrences_errors(entries, (n - 1) as nat);
        let e = crate::rrule::spec_recurrence_errors(entries[n - 1].0, entries[n - 1].1.decl.source);
        lemma_all_errors_concat(spec_recurrences_errors(entries, (n - 1) as nat), e);
    }
}

proof fn lemma_finish_flag(cals: Seq<CalendarView>, root: SourceFile)
    ensures
        spec_finish(cals, root).2 == any_error(spec_finish(cals, root).1),
    decreases cals.len(),
{
    if cals.len() > 0 {
        lemma_finish_flag(cals.drop_last(), root);
        let p = spec_finish(cals.drop_last(), root);
        let cal = cals.last();
        let d = spec_derive_uids(cal, root);
        let c = d.0;
        let shape = spec_check_calendar_shape(c.properties, c.entries, root);
        let recur = spec_recurrences_errors(c.entries, c.entries.len());
        lemma_recurrences_errors(c.entries, c.entries.len());
        lemma_all_errors_any(recur);
        assert(!any_error(d.1));
        lemma_any_error_concat(d.1, shape);
        lemma_any_error_concat(d.1 + shape, recur);
        lemma_any_error_concat(p.1, d.1 + shape + recur);
    }
}

/// A validation result has errors exactly when some diagnostic is an
/// error: warnings, such as the one for a calendar `uid` that is not a
/// UUID, never set it.
pub proof fn lemma_has_errors_iff_error_diagnostic(
    db: Database,
    root: SourceFile,
    value: ValueView,
    syntax: Seq<DiagView>,
    eval: Seq<DiagView>,
)
    ensures
        spec_validate_calendar(db, root, value, syntax, eval).has_errors == any_error(
            spec_validate_calendar(db, root, value, syntax, eval).diagnostics,
        ),
{
    let initial = syntax + eval;
    let st0 = MergeState {
        calendars: seq![],
        loose: seq![],
        seen: seq![],
        diags: initial,
        has_errors: any_error(initial),
    };
    let m = spec_merge(spec_flatten(root, value), st0, db);
    lemma_merge_flag(spec_flatten(root, value), st0, db);
    let dst = spec_distribute(m, root);
    if m.loose.len() > 0 && m.calendars.len() > 1 {
        lemma_any_error_push_error(m.diags, error_at(root, AMBIGUOUS_ENTRIES@));
    }
    let st = spec_require_calendar(dst, root);
    if dst.calendars.len() == 0 {
        lemma_any_error_push_error(dst.diags, error_at(root, "no calendar record found"@));
    }
    let f = spec_finish(st.calendars, root);
    lemma_finish_flag(st.calendars, root);
    lemma_any_error_concat(st.diags, f.1);
}

// ── Flattening as a filter ─────────────────────────────────────

/// An item's record with the item's blame, if the item is a record.
pub open spec fn record_of_item(it: (ValueView, BlameView)) -> Option<(RecordView, BlameView)> {
    match it.0 {
        ValueView::Record(r) => Some((r, it.1)),
        _ => None,
    }
}

proof fn lemma_record_items_filter_map(items: Seq<(ValueView, BlameView)>)
    ensures
        record_items(items) == items.filter_map(|it: (ValueView, BlameView)| record_of_item(it)),
    decreases items.len(),
{
    if items.len() > 0 {
        lemma_record_items_filter_map(items.drop_last());
        let p = record_items(items.drop_last());
        match items.last().0 {
            ValueView::Record(r) => {
                assert(p.push((r, items.last().1)) =~= p + seq![(r, items.last().1)]);
            },
            _ => {},
        }
    }
}

/// A list flattens to the records among its items, in order, each with
/// its blame; the other items are skipped. A value that is neither a record
/// nor a list gives none.
pub proof fn lemma_flatten_filters_records(source: SourceFile, v: ValueView)
    ensures
        v matches ValueView::List(items) ==> spec_flatten(source, v) == items.filter_map(
            |it: (ValueView, BlameView)| record_of_item(it),
        ),
        !(v is List) && !(v is Record) ==> spec_flatten(source, v).len() == 0,
{
    match v {
        ValueView::List(items) => lemma_record_items_filter_map(items),
        _ => {},
    }
}

} // verus!
