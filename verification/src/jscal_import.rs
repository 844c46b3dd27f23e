//! Translating JSCalendar objects, given as plain data, into plain records.
use vstd::prelude::*;

use crate::desugar::owned;
use crate::ical_entries::{
    dt_entry, duration_entry, str_entry, strings_entry, strings_view,
};
use crate::ical_import::{
    fields_view, opt_entry, priority_number, priority_to_u64, translate_datetime,
    translate_signed_duration, values_view, IcalPriority, PlainDate, PlainDuration, PlainTime,
};
use crate::import_value::{
    import_record_of, make_import_record, ImportRecord, ImportRecordView, ImportValue, ImportView,
};
use crate::keyed::key_insert;

verus! {

broadcast use {crate::types::lemma_value_view_unfold, crate::import_value::lemma_import_view_unfold};

// ── JSON ───────────────────────────────────────────────────────

/// A JSON value. A number comes with its value as unsigned and as signed
/// integer, where it is one, and its text.
pub enum PlainJson {
    Null,
    Bool(bool),
    Number(Option<u64>, Option<i64>, String),
    Str(String),
    Array(Vec<PlainJson>),
    Object(Vec<(String, PlainJson)>),
}

/// A JSON value as a plain value: null is undefined, a number an unsigned
/// integer where it is one, else a signed one, else its text, arrays lists, objects records with each member inserted in
/// turn.
pub open spec fn json_value(j: PlainJson) -> ImportView
    decreases j, 1nat,
{
    match j {
        PlainJson::Null => ImportView::Undefined,
        PlainJson::Bool(b) => ImportView::Bool(b),
        PlainJson::Number(u, i, t) => match (u, i) {
            (Some(n), _) => ImportView::Integer(n),
            (None, Some(n)) => ImportView::SignedInteger(n),
            (None, None) => ImportView::String(t@),
        },
        PlainJson::Str(s) => ImportView::String(s@),
        PlainJson::Array(items) => ImportView::List(json_items(items@)),
        PlainJson::Object(members) => ImportView::Record(import_record_of(json_members(members@))),
    }
}

pub open spec fn json_items(items: Seq<PlainJson>) -> Seq<ImportView>
    decreases items, 0nat,
{
    Seq::new(
        items.len(),
        |i: int|
            {
                if 0 <= i < items.len() {
                    proof {
                        broadcast use vstd::seq::axiom_seq_index_decreases;

                        assert(decreases_to!(items => items[i]));
                    }
                    json_value(items[i])
                } else {
                    ImportView::Undefined
                }
            },
    )
}

pub open spec fn json_members(members: Seq<(String, PlainJson)>) -> Seq<(Seq<char>, ImportView)>
    decreases members, 0nat,
{
    Seq::new(
        members.len(),
        |i: int|
            {
                if 0 <= i < members.len() {
                    proof {
                        broadcast use vstd::seq::axiom_seq_index_decreases;

                        assert(decreases_to!(members => members[i]));
                    }
                    (members[i].0@, json_value(members[i].1))
                } else {
                    (Seq::empty(), ImportView::Undefined)
                }
            },
    )
}

/// Translates a JSON value into a plain value.
pub fn translate_json_value(j: &PlainJson) -> (r: ImportValue)
    ensures
        r@ == json_value(*j),
    decreases j,
{
    match j {
        PlainJson::Null => ImportValue::Undefined,
        PlainJson::Bool(b) => ImportValue::Bool(*b),
        PlainJson::Number(u, i, t) => match (u, i) {
            (Some(n), _) => ImportValue::Integer(*n),
            (None, Some(n)) => ImportValue::SignedInteger(*n),
            (None, None) => ImportValue::String(t.clone()),
        },
        PlainJson::Str(s) => ImportValue::String(s.clone()),
        PlainJson::Array(items) => {
            let mut out: Vec<ImportValue> = Vec::new();
            #[verifier::loop_isolation(false)]
            for i in 0..items.len()
                invariant
                    out@.len() == i,
                    forall|k: int| 0 <= k < i ==> (#[trigger] out@[k])@ == json_value(items@[k]),
            {
                proof {
                    broadcast use vstd::std_specs::vec::axiom_vec_decreases_to_view;
                    broadcast use vstd::seq::axiom_seq_index_decreases;

                    assert(decreases_to!(*items => items@));
                    assert(decreases_to!(items@ => items@[i as int]));
                }
                out.push(translate_json_value(&items[i]));
            }
            proof {
                crate::import_value::lemma_import_list_view(out);
            }
            let l = ImportValue::List(out);
            assert(l@->List_0 =~= json_items(items@));
            l
        },
        PlainJson::Object(members) => {
            let ghost mv = json_members(members@);
            let mut record = ImportRecord::new();
            assert(mv.take(0) =~= Seq::<(Seq<char>, ImportView)>::empty());
            #[verifier::loop_isolation(false)]
            for i in 0..members.len()
                invariant
                    mv == json_members(members@),
                    record@ == import_record_of(mv.take(i as int)),
            {
                proof {
                    broadcast use vstd::std_specs::vec::axiom_vec_decreases_to_view;
                    broadcast use vstd::seq::axiom_seq_index_decreases;

                    assert(decreases_to!(*members => members@));
                    assert(decreases_to!(members@ => members@[i as int]));
                }
                assert(mv.take(i + 1).drop_last() =~= mv.take(i as int));
                let v = translate_json_value(&members[i].1);
                record.insert(members[i].0.clone(), v);
            }
            assert(mv.take(members@.len() as int) =~= mv);
            ImportValue::Record(record)
        },
    }
}

// ── Events and tasks ───────────────────────────────────────────

/// The properties of a JSCalendar event or task that translation reads.
pub struct JsEntryData {
    pub uid: String,
    pub start: Option<(PlainDate, PlainTime)>,
    pub due: Option<(PlainDate, PlainTime)>,
    pub title: Option<String>,
    pub description: Option<String>,
    /// An event's duration, or a task's estimated duration.
    pub duration: Option<PlainDuration>,
    pub percent_complete: Option<u8>,
    pub progress: Option<String>,
    pub time_zone: Option<String>,
    pub status: Option<String>,
    pub priority: Option<IcalPriority>,
    pub color: Option<String>,
    pub locale: Option<String>,
    pub privacy: Option<String>,
    pub free_busy_status: Option<String>,
    pub show_without_time: Option<bool>,
    pub categories: Option<Vec<String>>,
    pub keywords: Option<Vec<String>>,
    /// Vendor properties, by name.
    pub vendor: Vec<(String, PlainJson)>,
}

/// What kind of JSCalendar object an entry is.
#[derive(Debug, Clone, Copy, PartialEq, Eq)]
pub enum JsKind {
    Event,
    Task,
    /// A kind this library does not know.
    Other,
}

pub open spec fn priority_entry(d: JsEntryData) -> Seq<(Seq<char>, ImportView)> {
    opt_entry("priority"@, match d.priority {
        Some(p) => Some(ImportView::Integer(priority_number(p))),
        None => None,
    })
}

pub open spec fn bool_entry(name: Seq<char>, o: Option<bool>) -> Seq<(Seq<char>, ImportView)> {
    opt_entry(name, match o {
        Some(b) => Some(ImportView::Bool(b)),
        None => None,
    })
}

pub open spec fn percent_entry(d: JsEntryData) -> Seq<(Seq<char>, ImportView)> {
    opt_entry("percent_complete"@, match d.percent_complete {
        Some(p) => Some(ImportView::Integer(p as u64)),
        None => None,
    })
}

/// The shared tail of event and task records.
pub open spec fn shared_tail(d: JsEntryData) -> Seq<(Seq<char>, ImportView)> {
    str_entry("color"@, d.color) + str_entry("locale"@, d.locale) + str_entry(
        "privacy"@,
        d.privacy,
    ) + str_entry("free_busy_status"@, d.free_busy_status) + bool_entry(
        "show_without_time"@,
        d.show_without_time,
    ) + strings_entry("categories"@, d.categories) + strings_entry("keywords"@, d.keywords)
}

/// The entries of an event record, in order.
pub open spec fn js_event_fields(d: JsEntryData) -> Seq<(Seq<char>, ImportView)> {
    seq![("type"@, ImportView::String("event"@)), ("uid"@, ImportView::String(d.uid@))] + dt_entry(
        "start"@,
        d.start,
    ) + str_entry("title"@, d.title) + str_entry("description"@, d.description) + duration_entry(
        "duration"@,
        d.duration,
    ) + str_entry("time_zone"@, d.time_zone) + str_entry("status"@, d.status) + priority_entry(d)
        + shared_tail(d)
}

/// The entries of a task record, in order.
pub open spec fn js_task_fields(d: JsEntryData) -> Seq<(Seq<char>, ImportView)> {
    seq![("type"@, ImportView::String("task"@)), ("uid"@, ImportView::String(d.uid@))] + str_entry(
        "title"@,
        d.title,
    ) + str_entry("description"@, d.description) + dt_entry("start"@, d.start) + dt_entry(
        "due"@,
        d.due,
    ) + duration_entry("estimated_duration"@, d.duration) + percent_entry(d) + str_entry(
        "progress"@,
        d.progress,
    ) + str_entry("time_zone"@, d.time_zone) + priority_entry(d) + shared_tail(d)
}

/// The record with each vendor property inserted in turn.
pub open spec fn with_vendor(rec: ImportRecordView, vs: Seq<(String, PlainJson)>) -> ImportRecordView
    decreases vs.len(),
{
    if vs.len() == 0 {
        rec
    } else {
        key_insert(with_vendor(rec, vs.drop_last()), vs.last().0@, json_value(vs.last().1))
    }
}

/// An entry as a record: an event or task with its vendor properties last,
/// or `{ type: "unknown" }`.
pub open spec fn js_entry_record(kind: JsKind, d: JsEntryData) -> ImportRecordView {
    match kind {
        JsKind::Event => with_vendor(import_record_of(js_event_fields(d)), d.vendor@),
        JsKind::Task => with_vendor(import_record_of(js_task_fields(d)), d.vendor@),
        JsKind::Other => import_record_of(seq![("type"@, ImportView::String("unknown"@))]),
    }
}

type Fields = Vec<(&'static str, ImportValue)>;

fn push_str_entry(fields: &mut Fields, name: &'static str, o: &Option<String>)
    ensures
        fields_view(final(fields)@) == fields_view(old(fields)@) + str_entry(name@, *o),
{
    crate::ical_import::push_entry(fields, name, match o {
        Some(s) => Some(ImportValue::String(s.clone())),
        None => None,
    });
}

fn push_dt_entry(fields: &mut Fields, name: &'static str, o: Option<(PlainDate, PlainTime)>)
    ensures
        fields_view(final(fields)@) == fields_view(old(fields)@) + dt_entry(name@, o),
{
    crate::ical_import::push_entry(fields, name, match o {
        Some(x) => Some(translate_datetime(x.0, x.1)),
        None => None,
    });
}

fn push_duration_entry(fields: &mut Fields, name: &'static str, o: Option<PlainDuration>)
    ensures
        fields_view(final(fields)@) == fields_view(old(fields)@) + duration_entry(name@, o),
{
    crate::ical_import::push_entry(fields, name, match o {
        Some(x) => Some(translate_signed_duration(x)),
        None => None,
    });
}

fn push_strings_entry(fields: &mut Fields, name: &'static str, o: &Option<Vec<String>>)
    ensures
        fields_view(final(fields)@) == fields_view(old(fields)@) + strings_entry(name@, *o),
{
    let ghost start = fields_view(fields@);
    match o {
        Some(v) => {
            let mut out: Vec<ImportValue> = Vec::new();
            for i in 0..v.len()
                invariant
                    out@.len() == i,
                    forall|j: int| 0 <= j < i ==> (#[trigger] out@[j])@ == ImportView::String(v@[j]@),
            {
                out.push(ImportValue::String(v[i].clone()));
            }
            assert(values_view(out@) =~= strings_view(v@));
            crate::ical_import::push_list(fields, name, out);
        },
        None => {
            assert(fields_view(fields@) =~= start + strings_entry(name@, *o));
        },
    }
}

fn push_priority_entry(fields: &mut Fields, d: &JsEntryData)
    ensures
        fields_view(final(fields)@) == fields_view(old(fields)@) + priority_entry(*d),
{
    crate::ical_import::push_entry(fields, "priority", match d.priority {
        Some(p) => Some(ImportValue::Integer(priority_to_u64(p))),
        None => None,
    });
}

fn push_shared_tail(fields: &mut Fields, d: &JsEntryData)
    ensures
        fields_view(final(fields)@) == fields_view(old(fields)@) + shared_tail(*d),
{
    let ghost start = fields_view(fields@);
    push_str_entry(fields, "color", &d.color);
    push_str_entry(fields, "locale", &d.locale);
    push_str_entry(fields, "privacy", &d.privacy);
    push_str_entry(fields, "free_busy_status", &d.free_busy_status);
    crate::ical_import::push_entry(fields, "show_without_time", match d.show_without_time {
        Some(b) => Some(ImportValue::Bool(b)),
        None => None,
    });
    push_strings_entry(fields, "categories", &d.categories);
    push_strings_entry(fields, "keywords", &d.keywords);
    assert(fields_view(fields@) =~= start + shared_tail(*d));
}

/// Inserts vendor properties into a record, each under its name.
fn append_vendor(record: &mut ImportRecord, vs: &Vec<(String, PlainJson)>)
    ensures
        final(record)@ == with_vendor(old(record)@, vs@),
{
    let ghost start = record@;
    assert(vs@.take(0) =~= Seq::<(String, PlainJson)>::empty());
    for i in 0..vs.len()
        invariant
            record@ == with_vendor(start, vs@.take(i as int)),
    {
        assert(vs@.take(i + 1).drop_last() =~= vs@.take(i as int));
        let v = translate_json_value(&vs[i].1);
        record.insert(vs[i].0.clone(), v);
    }
    assert(vs@.take(vs@.len() as int) =~= vs@);
}

/// Translates a JSCalendar event into a record.
pub fn translate_js_event(d: &JsEntryData) -> (r: ImportRecord)
    ensures
        r@ == js_entry_record(JsKind::Event, *d),
{
    let mut fields: Fields = Vec::new();
    fields.push(("type", ImportValue::String(owned("event"))));
    fields.push(("uid", ImportValue::String(d.uid.clone())));
    assert(fields_view(fields@) =~= seq![
        ("type"@, ImportView::String("event"@)),
        ("uid"@, ImportView::String(d.uid@)),
    ]);
    push_dt_entry(&mut fields, "start", d.start);
    push_str_entry(&mut fields, "title", &d.title);
    push_str_entry(&mut fields, "description", &d.description);
    push_duration_entry(&mut fields, "duration", d.duration);
    push_str_entry(&mut fields, "time_zone", &d.time_zone);
    push_str_entry(&mut fields, "status", &d.status);
    push_priority_entry(&mut fields, d);
    push_shared_tail(&mut fields, d);
    let mut record = make_import_record(fields);
    append_vendor(&mut record, &d.vendor);
    record
}

/// Translates a JSCalendar task into a record.
pub fn translate_js_task(d: &JsEntryData) -> (r: ImportRecord)
    ensures
        r@ == js_entry_record(JsKind::Task, *d),
{
    let mut fields: Fields = Vec::new();
    fields.push(("type", ImportValue::String(owned("task"))));
    fields.push(("uid", ImportValue::String(d.uid.clone())));
    assert(fields_view(fields@) =~= seq![
        ("type"@, ImportView::String("task"@)),
        ("uid"@, ImportView::String(d.uid@)),
    ]);
    push_str_entry(&mut fields, "title", &d.title);
    push_str_entry(&mut fields, "description", &d.description);
    push_dt_entry(&mut fields, "start", d.start);
    push_dt_entry(&mut fields, "due", d.due);
    push_duration_entry(&mut fields, "estimated_duration", d.duration);
    crate::ical_import::push_entry(&mut fields, "percent_complete", match d.percent_complete {
        Some(p) => Some(ImportValue::Integer(p as u64)),
        None => None,
    });
    push_str_entry(&mut fields, "progress", &d.progress);
    push_str_entry(&mut fields, "time_zone", &d.time_zone);
    push_priority_entry(&mut fields, d);
    push_shared_tail(&mut fields, d);
    let mut record = make_import_record(fields);
    append_vendor(&mut record, &d.vendor);
    record
}

/// Translates an entry of the given kind into a record.
pub fn translate_task_or_event(kind: JsKind, d: &JsEntryData) -> (r: ImportRecord)
    ensures
        r@ == js_entry_record(kind, *d),
{
    match kind {
        JsKind::Event => translate_js_event(d),
        JsKind::Task => translate_js_task(d),
        JsKind::Other => {
            let fields = vec![("type", ImportValue::String(owned("unknown")))];
            let r = make_import_record(fields);
            assert(crate::import_value::import_fields_view(fields@) =~= seq![
                ("type"@, ImportView::String("unknown"@)),
            ]);
            r
        },
    }
}

/// The result of a document: the records of an array as a list; those of a
/// single object as the one record, or a list when it held other than one.
pub open spec fn jscal_result(is_array: bool, items: Seq<ImportView>) -> ImportView {
    if !is_array && items.len() == 1 {
        items[0]
    } else {
        ImportView::List(items)
    }
}

/// Shapes the records of a document into its result.
pub fn shape_jscal_result(is_array: bool, items: Vec<ImportValue>) -> (r: ImportValue)
    ensures
        r@ == jscal_result(is_array, values_view(items@)),
{
    let mut items = items;
    if !is_array && items.len() == 1 {
        match items.pop() {
            Some(v) => v,
            None => ImportValue::Undefined,
        }
    } else {
        proof {
            crate::import_value::lemma_import_list_view(items);
        }
        let l = ImportValue::List(items);
        assert(l@->List_0 =~= values_view(items@));
        l
    }
}

} // verus!
