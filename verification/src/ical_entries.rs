//! Translating iCalendar calendars, events and tasks, given as plain data,
//! into plain records.
use vstd::prelude::*;

use crate::desugar::owned;
use crate::ical_import::{
    attachment_value, base64, base64_encode, class_text, compute_duration_from_endpoints,
    date_value, datetime_value, dtod_value, duration_value, endpoints_duration, fields_view,
    geo_value, list_entry, opt_entry, opt_view, priority_number, priority_to_u64,
    request_status_text, rrule_value, status_text, time_value, transp_text, translate_attachment,
    translate_class, translate_date, translate_datetime, translate_datetime_or_date,
    translate_geo, translate_request_status, translate_rrule, translate_signed_duration,
    translate_status, translate_time, translate_transp, values_view, IcalClass, IcalPriority,
    IcalStatus, IcalTransp, PlainAttachment, PlainDate, PlainDtod, PlainDuration,
    PlainRequestStatus, PlainRRule, PlainTime,
};
use crate::import_value::{
    import_record_of, make_import_record, ImportRecord, ImportRecordView, ImportValue, ImportView,
};
use crate::keyed::key_insert;
use crate::text::{from_chars, push_chars, push_str, spec_nat_to_dec, to_chars, u64_to_dec};

verus! {

broadcast use {crate::types::lemma_value_view_unfold, crate::import_value::lemma_import_view_unfold};

// ── Extension property values ──────────────────────────────────

/// The value of an extension (`X-`) property.
#[derive(Debug, Clone, PartialEq, Eq)]
pub enum PlainXValue {
    Text(String),
    Integer(i32),
    Boolean(bool),
    DateTime(PlainDate, PlainTime),
    Date(PlainDate),
    Duration(PlainDuration),
    Uri(String),
    CalAddress(String),
    /// A floating-point number, as its decimal text.
    Float(String),
    Binary(Vec<u8>),
    Recur(PlainRRule),
    Time(PlainTime),
    /// A UTC offset: whether it is east of UTC, hours and minutes.
    UtcOffset(bool, u8, u8),
    /// A period, by its start.
    Period(PlainDate, PlainTime),
    /// A value of a type this library does not know, as written.
    Other(String),
}

/// A number with at least two digits.
pub open spec fn two_digits(n: nat) -> Seq<char> {
    if n < 10 {
        "0"@ + spec_nat_to_dec(n)
    } else {
        spec_nat_to_dec(n)
    }
}

fn push_two_digits(out: &mut Vec<char>, n: u8)
    ensures
        final(out)@ == old(out)@ + two_digits(n as nat),
{
    let ghost start = out@;
    if n < 10 {
        push_str(out, "0");
    }
    push_chars(out, &u64_to_dec(n as u64));
    assert(out@ =~= start + two_digits(n as nat));
}

pub open spec fn x_value(v: PlainXValue) -> ImportView {
    match v {
        PlainXValue::Text(s) => ImportView::String(s@),
        PlainXValue::Integer(i) => ImportView::SignedInteger(i as i64),
        PlainXValue::Boolean(b) => ImportView::Bool(b),
        PlainXValue::DateTime(d, t) => datetime_value(d, t),
        PlainXValue::Date(d) => date_value(d),
        PlainXValue::Duration(d) => duration_value(d),
        PlainXValue::Uri(u) => ImportView::String(u@),
        PlainXValue::CalAddress(u) => ImportView::String(u@),
        PlainXValue::Float(f) => ImportView::String(f@),
        PlainXValue::Binary(b) => ImportView::String(base64(b@)),
        PlainXValue::Recur(r) => rrule_value(r),
        PlainXValue::Time(t) => time_value(t),
        PlainXValue::UtcOffset(east, h, m) => ImportView::String(
            (if east {
                "+"@
            } else {
                "-"@
            }) + two_digits(h as nat) + ":"@ + two_digits(m as nat),
        ),
        PlainXValue::Period(d, t) => datetime_value(d, t),
        PlainXValue::Other(s) => ImportView::String(s@),
    }
}

/// Translates the value of an extension property.
pub fn translate_ical_value(v: &PlainXValue) -> (r: ImportValue)
    ensures
        r@ == x_value(*v),
{
    match v {
        PlainXValue::Text(s) => ImportValue::String(s.clone()),
        PlainXValue::Integer(i) => ImportValue::SignedInteger(*i as i64),
        PlainXValue::Boolean(b) => ImportValue::Bool(*b),
        PlainXValue::DateTime(d, t) => translate_datetime(*d, *t),
        PlainXValue::Date(d) => translate_date(*d),
        PlainXValue::Duration(d) => translate_signed_duration(*d),
        PlainXValue::Uri(u) => ImportValue::String(u.clone()),
        PlainXValue::CalAddress(u) => ImportValue::String(u.clone()),
        PlainXValue::Float(f) => ImportValue::String(f.clone()),
        PlainXValue::Binary(b) => ImportValue::String(base64_encode(b.as_slice())),
        PlainXValue::Recur(r) => translate_rrule(r),
        PlainXValue::Time(t) => translate_time(*t),
        PlainXValue::UtcOffset(east, h, m) => {
            let mut out = if *east {
                to_chars("+")
            } else {
                to_chars("-")
            };
            push_two_digits(&mut out, *h);
            push_str(&mut out, ":");
            push_two_digits(&mut out, *m);
            ImportValue::String(from_chars(out.as_slice()))
        },
        PlainXValue::Period(d, t) => translate_datetime(*d, *t),
        PlainXValue::Other(s) => ImportValue::String(s.clone()),
    }
}

/// The field name of an extension property: lowercase, hyphens as
/// underscores.
pub open spec fn x_field_name(lower: Seq<char>) -> Seq<char> {
    lower.map_values(|c: char| if c == '-' {
        '_'
    } else {
        c
    })
}

/// The record with each extension property inserted in turn.
pub open spec fn with_x_properties(
    rec: ImportRecordView,
    xs: Seq<(Seq<char>, PlainXValue)>,
) -> ImportRecordView
    decreases xs.len(),
{
    if xs.len() == 0 {
        rec
    } else {
        let last = xs.last();
        key_insert(
            with_x_properties(rec, xs.drop_last()),
            x_field_name(crate::ical_import::lowercase(last.0)),
            x_value(last.1),
        )
    }
}

pub open spec fn x_props_view(xs: Seq<(String, PlainXValue)>) -> Seq<(Seq<char>, PlainXValue)> {
    Seq::new(xs.len(), |i: int| (xs[i].0@, xs[i].1))
}

/// Appends extension properties to a record, each under its field name.
pub fn append_x_properties(record: &mut ImportRecord, xs: &Vec<(String, PlainXValue)>)
    ensures
        final(record)@ == with_x_properties(old(record)@, x_props_view(xs@)),
{
    let ghost start = record@;
    let ghost xv = x_props_view(xs@);
    assert(xv.take(0) =~= Seq::<(Seq<char>, PlainXValue)>::empty());
    for i in 0..xs.len()
        invariant
            xv == x_props_view(xs@),
            record@ == with_x_properties(start, xv.take(i as int)),
    {
        assert(xv.take(i + 1).drop_last() =~= xv.take(i as int));
        let lower = crate::ical_import::to_lowercase(xs[i].0.as_str());
        let mut name: Vec<char> = Vec::new();
        let lc = to_chars(lower.as_str());
        for j in 0..lc.len()
            invariant
                name@ == x_field_name(lc@.take(j as int)),
        {
            let c = lc[j];
            name.push(if c == '-' {
                '_'
            } else {
                c
            });
            assert(name@ =~= x_field_name(lc@.take(j + 1)));
        }
        assert(lc@.take(lc@.len() as int) =~= lc@);
        record.insert(from_chars(name.as_slice()), translate_ical_value(&xs[i].1));
    }
    assert(xv.take(xv.len() as int) =~= xv);
}

// ── Events and tasks ───────────────────────────────────────────

/// The properties of an event or a task that translation reads. Properties
/// that occur several times are given per occurrence.
pub struct IcalComponent {
    pub uid: Option<String>,
    pub summary: Option<String>,
    pub description: Option<String>,
    pub dtstart: Option<PlainDtod>,
    /// The `TZID` parameter of the start.
    pub dtstart_tz: Option<String>,
    pub duration: Option<PlainDuration>,
    pub dtend: Option<PlainDtod>,
    pub due: Option<PlainDtod>,
    pub percent_complete: Option<u8>,
    pub status: Option<IcalStatus>,
    pub priority: Option<IcalPriority>,
    pub location: Option<String>,
    pub color: Option<String>,
    pub categories: Option<Vec<Vec<String>>>,
    pub dtstamp: Option<(PlainDate, PlainTime)>,
    pub class: Option<IcalClass>,
    pub created: Option<(PlainDate, PlainTime)>,
    /// Latitude and longitude, as decimal texts.
    pub geo: Option<(String, String)>,
    pub last_modified: Option<(PlainDate, PlainTime)>,
    pub organizer: Option<String>,
    pub sequence: Option<i32>,
    pub transp: Option<IcalTransp>,
    pub url: Option<String>,
    pub completed: Option<(PlainDate, PlainTime)>,
    pub recurrence_id: Option<PlainDtod>,
    /// The first recurrence rule.
    pub rrule: Option<PlainRRule>,
    pub rdates: Option<Vec<Vec<PlainDtod>>>,
    pub exdates: Option<Vec<PlainDtod>>,
    pub attachments: Option<Vec<PlainAttachment>>,
    pub attendees: Option<Vec<String>>,
    pub comments: Option<Vec<String>>,
    pub contacts: Option<Vec<String>>,
    pub related_to: Option<Vec<String>>,
    pub resources: Option<Vec<Vec<String>>>,
    pub images: Option<Vec<PlainAttachment>>,
    pub conferences: Option<Vec<String>>,
    pub request_statuses: Option<Vec<PlainRequestStatus>>,
    /// Extension properties: name as written, value.
    pub x_properties: Vec<(String, PlainXValue)>,
}

pub open spec fn flatten<A>(v: Seq<Seq<A>>) -> Seq<A>
    decreases v.len(),
{
    if v.len() == 0 {
        seq![]
    } else {
        flatten(v.drop_last()) + v.last()
    }
}

pub open spec fn strings_view(v: Seq<String>) -> Seq<ImportView> {
    v.map_values(|s: String| ImportView::String(s@))
}

pub open spec fn nested_strings_view(v: Seq<Vec<String>>) -> Seq<Seq<ImportView>> {
    v.map_values(|w: Vec<String>| strings_view(w@))
}

pub open spec fn str_entry(name: Seq<char>, o: Option<String>) -> Seq<(Seq<char>, ImportView)> {
    opt_entry(name, match o {
        Some(s) => Some(ImportView::String(s@)),
        None => None,
    })
}

pub closed spec fn dtod_entry(name: Seq<char>, o: Option<PlainDtod>) -> Seq<(Seq<char>, ImportView)> {
    opt_entry(name, match o {
        Some(x) => Some(dtod_value(x)),
        None => None,
    })
}

pub open spec fn dt_entry(name: Seq<char>, o: Option<(PlainDate, PlainTime)>) -> Seq<(Seq<char>, ImportView)> {
    opt_entry(name, match o {
        Some(x) => Some(datetime_value(x.0, x.1)),
        None => None,
    })
}

pub open spec fn duration_entry(name: Seq<char>, o: Option<PlainDuration>) -> Seq<(Seq<char>, ImportView)> {
    opt_entry(name, match o {
        Some(x) => Some(duration_value(x)),
        None => None,
    })
}

pub open spec fn strings_entry(name: Seq<char>, o: Option<Vec<String>>) -> Seq<(Seq<char>, ImportView)> {
    match o {
        Some(v) => list_entry(name, strings_view(v@)),
        None => seq![],
    }
}

/// The strings of every occurrence, one list.
pub closed spec fn flat_strings_entry(name: Seq<char>, o: Option<Vec<Vec<String>>>) -> Seq<(Seq<char>, ImportView)> {
    match o {
        Some(v) => list_entry(name, flatten(nested_strings_view(v@))),
        None => seq![],
    }
}

/// One list of strings per occurrence.
pub closed spec fn nested_strings_entry(name: Seq<char>, o: Option<Vec<Vec<String>>>) -> Seq<(Seq<char>, ImportView)> {
    match o {
        Some(v) => list_entry(
            name,
            nested_strings_view(v@).map_values(|w: Seq<ImportView>| ImportView::List(w)),
        ),
        None => seq![],
    }
}

pub open spec fn dtods_view(v: Seq<PlainDtod>) -> Seq<ImportView> {
    v.map_values(|x: PlainDtod| dtod_value(x))
}

pub closed spec fn dtods_entry(name: Seq<char>, o: Option<Vec<PlainDtod>>) -> Seq<(Seq<char>, ImportView)> {
    match o {
        Some(v) => list_entry(name, dtods_view(v@)),
        None => seq![],
    }
}

pub closed spec fn flat_dtods_entry(name: Seq<char>, o: Option<Vec<Vec<PlainDtod>>>) -> Seq<(Seq<char>, ImportView)> {
    match o {
        Some(v) => list_entry(name, flatten(v@.map_values(|w: Vec<PlainDtod>| dtods_view(w@)))),
        None => seq![],
    }
}

pub closed spec fn attachments_entry(name: Seq<char>, o: Option<Vec<PlainAttachment>>) -> Seq<(Seq<char>, ImportView)> {
    match o {
        Some(v) => list_entry(name, v@.map_values(|a: PlainAttachment| attachment_value(a))),
        None => seq![],
    }
}

pub closed spec fn request_statuses_entry(o: Option<Vec<PlainRequestStatus>>) -> Seq<(Seq<char>, ImportView)> {
    match o {
        Some(v) => list_entry(
            "request_statuses"@,
            v@.map_values(|rs: PlainRequestStatus| ImportView::String(request_status_text(rs))),
        ),
        None => seq![],
    }
}

/// The start with its time zone, present only with a start.
pub closed spec fn start_entries(d: IcalComponent) -> Seq<(Seq<char>, ImportView)> {
    match d.dtstart {
        Some(s) => seq![("start"@, dtod_value(s))] + str_entry("time_zone"@, d.dtstart_tz),
        None => seq![],
    }
}

/// An event's duration: its `DURATION`, or else the time from its start to
/// its end when both have a time of day.
pub closed spec fn event_duration_entry(d: IcalComponent) -> Seq<(Seq<char>, ImportView)> {
    match d.duration {
        Some(x) => seq![("duration"@, duration_value(x))],
        None => match (d.dtstart, d.dtend) {
            (Some(s), Some(e)) => opt_entry("duration"@, endpoints_duration(s, e)),
            _ => seq![],
        },
    }
}

pub closed spec fn status_entry(d: IcalComponent) -> Seq<(Seq<char>, ImportView)> {
    opt_entry("status"@, match d.status {
        Some(s) => Some(ImportView::String(status_text(s))),
        None => None,
    })
}

pub open spec fn priority_entry(d: IcalComponent) -> Seq<(Seq<char>, ImportView)> {
    opt_entry("priority"@, match d.priority {
        Some(p) => Some(ImportView::Integer(priority_number(p))),
        None => None,
    })
}

pub closed spec fn class_entry(d: IcalComponent) -> Seq<(Seq<char>, ImportView)> {
    opt_entry("class"@, match d.class {
        Some(c) => Some(ImportView::String(class_text(c))),
        None => None,
    })
}

pub closed spec fn geo_entry(d: IcalComponent) -> Seq<(Seq<char>, ImportView)> {
    opt_entry("geo"@, match d.geo {
        Some(g) => Some(geo_value(g.0@, g.1@)),
        None => None,
    })
}

pub closed spec fn sequence_entry(d: IcalComponent) -> Seq<(Seq<char>, ImportView)> {
    opt_entry("sequence"@, match d.sequence {
        Some(n) => Some(ImportView::SignedInteger(n as i64)),
        None => None,
    })
}

pub closed spec fn transp_entry(d: IcalComponent) -> Seq<(Seq<char>, ImportView)> {
    opt_entry("transparency"@, match d.transp {
        Some(t) => Some(ImportView::String(transp_text(t))),
        None => None,
    })
}

pub closed spec fn rrule_entry(d: IcalComponent) -> Seq<(Seq<char>, ImportView)> {
    opt_entry("recur"@, match d.rrule {
        Some(r) => Some(rrule_value(r)),
        None => None,
    })
}

pub open spec fn percent_entry(d: IcalComponent) -> Seq<(Seq<char>, ImportView)> {
    opt_entry("percent_complete"@, match d.percent_complete {
        Some(p) => Some(ImportView::Integer(p as u64)),
        None => None,
    })
}

/// The entries of an event record, in order.
pub open spec fn event_fields(d: IcalComponent) -> Seq<(Seq<char>, ImportView)> {
    seq![("type"@, ImportView::String("event"@))] + str_entry("uid"@, d.uid) + str_entry(
        "title"@,
        d.summary,
    ) + str_entry("description"@, d.description) + start_entries(d) + event_duration_entry(d)
        + status_entry(d) + priority_entry(d) + str_entry("location"@, d.location) + str_entry(
        "color"@,
        d.color,
    ) + flat_strings_entry("categories"@, d.categories) + dt_entry("dtstamp"@, d.dtstamp)
        + class_entry(d) + dt_entry("created"@, d.created) + geo_entry(d) + dt_entry(
        "last_modified"@,
        d.last_modified,
    ) + str_entry("organizer"@, d.organizer) + sequence_entry(d) + transp_entry(d) + str_entry(
        "url"@,
        d.url,
    ) + dtod_entry("recurrence_id"@, d.recurrence_id) + rrule_entry(d) + flat_dtods_entry(
        "rdates"@,
        d.rdates,
    ) + dtods_entry("exdates"@, d.exdates) + attachments_entry("attachments"@, d.attachments)
        + strings_entry("attendees"@, d.attendees) + strings_entry("comments"@, d.comments)
        + strings_entry("contacts"@, d.contacts) + strings_entry("related_to"@, d.related_to)
        + nested_strings_entry("resources"@, d.resources) + attachments_entry("images"@, d.images)
        + strings_entry("conferences"@, d.conferences) + request_statuses_entry(d.request_statuses)
}

/// The entries of a task record, in order.
pub open spec fn todo_fields(d: IcalComponent) -> Seq<(Seq<char>, ImportView)> {
    seq![("type"@, ImportView::String("task"@))] + str_entry("uid"@, d.uid) + str_entry(
        "title"@,
        d.summary,
    ) + str_entry("description"@, d.description) + dtod_entry("due"@, d.due) + start_entries(d)
        + duration_entry("estimated_duration"@, d.duration) + percent_entry(d) + status_entry(d)
        + priority_entry(d) + str_entry("location"@, d.location) + str_entry("color"@, d.color)
        + flat_strings_entry("categories"@, d.categories) + dt_entry("dtstamp"@, d.dtstamp)
        + class_entry(d) + dt_entry("created"@, d.created) + geo_entry(d) + dt_entry(
        "last_modified"@,
        d.last_modified,
    ) + str_entry("organizer"@, d.organizer) + sequence_entry(d) + str_entry("url"@, d.url)
        + dt_entry("completed"@, d.completed) + dtod_entry("recurrence_id"@, d.recurrence_id)
        + rrule_entry(d) + flat_dtods_entry("rdates"@, d.rdates) + dtods_entry(
        "exdates"@,
        d.exdates,
    ) + attachments_entry("attachments"@, d.attachments) + strings_entry(
        "attendees"@,
        d.attendees,
    ) + strings_entry("comments"@, d.comments) + strings_entry("contacts"@, d.contacts)
        + strings_entry("related_to"@, d.related_to) + nested_strings_entry(
        "resources"@,
        d.resources,
    ) + attachments_entry("images"@, d.images) + strings_entry("conferences"@, d.conferences)
        + request_statuses_entry(d.request_statuses)
}

/// An event as a record, its extension properties last.
pub open spec fn event_record(d: IcalComponent) -> ImportRecordView {
    with_x_properties(import_record_of(event_fields(d)), x_props_view(d.x_properties@))
}

/// A task as a record, its extension properties last.
pub open spec fn todo_record(d: IcalComponent) -> ImportRecordView {
    with_x_properties(import_record_of(todo_fields(d)), x_props_view(d.x_properties@))
}

type Fields = Vec<(&'static str, ImportValue)>;

fn push_str_entry(fields: &mut Fields, name: &'static str, o: &Option<String>)
    ensures
        fields_view(final(fields)@) == fields_view(old(fields)@) + str_entry(name@, *o),
{
    crate::ical_import::push_entry(fields, name, match o {
        Some(s) => Some(ImportValue::String(s.clone())),
        None => None,
    });
}

fn push_dtod_entry(fields: &mut Fields, name: &'static str, o: Option<PlainDtod>)
    ensures
        fields_view(final(fields)@) == fields_view(old(fields)@) + dtod_entry(name@, o),
{
    crate::ical_import::push_entry(fields, name, match o {
        Some(x) => Some(translate_datetime_or_date(x)),
        None => None,
    });
}

fn push_dt_entry(fields: &mut Fields, name: &'static str, o: Option<(PlainDate, PlainTime)>)
    ensures
        fields_view(final(fields)@) == fields_view(old(fields)@) + dt_entry(name@, o),
{
    crate::ical_import::push_entry(fields, name, match o {
        Some(x) => Some(translate_datetime(x.0, x.1)),
        None => None,
    });
}

fn push_duration_entry(fields: &mut Fields, name: &'static str, o: Option<PlainDuration>)
    ensures
        fields_view(final(fields)@) == fields_view(old(fields)@) + duration_entry(name@, o),
{
    crate::ical_import::push_entry(fields, name, match o {
        Some(x) => Some(translate_signed_duration(x)),
        None => None,
    });
}

fn string_values(v: &Vec<String>) -> (r: Vec<ImportValue>)
    ensures
        values_view(r@) == strings_view(v@),
{
    let mut out: Vec<ImportValue> = Vec::new();
    for i in 0..v.len()
        invariant
            out@.len() == i,
            forall|j: int| 0 <= j < i ==> (#[trigger] out@[j])@ == ImportView::String(v@[j]@),
    {
        out.push(ImportValue::String(v[i].clone()));
    }
    assert(values_view(out@) =~= strings_view(v@));
    out
}

fn push_strings_entry(fields: &mut Fields, name: &'static str, o: &Option<Vec<String>>)
    ensures
        fields_view(final(fields)@) == fields_view(old(fields)@) + strings_entry(name@, *o),
{
    let ghost start = fields_view(fields@);
    match o {
        Some(v) => crate::ical_import::push_list(fields, name, string_values(v)),
        None => {
            assert(fields_view(fields@) =~= start + strings_entry(name@, *o));
        },
    }
}

fn push_flat_strings_entry(fields: &mut Fields, name: &'static str, o: &Option<Vec<Vec<String>>>)
    ensures
        fields_view(final(fields)@) == fields_view(old(fields)@) + flat_strings_entry(name@, *o),
{
    let ghost start = fields_view(fields@);
    match o {
        Some(v) => {
            let ghost nv = nested_strings_view(v@);
            let mut out: Vec<ImportValue> = Vec::new();
            assert(nv.take(0) =~= Seq::<Seq<ImportView>>::empty());
            assert(values_view(out@) =~= Seq::<ImportView>::empty());
            for i in 0..v.len()
                invariant
                    nv == nested_strings_view(v@),
                    values_view(out@) == flatten(nv.take(i as int)),
            {
                assert(nv.take(i + 1).drop_last() =~= nv.take(i as int));
                let ghost before = values_view(out@);
                let mut more = string_values(&v[i]);
                let ghost mv = values_view(more@);
                out.append(&mut more);
                assert(values_view(out@) =~= before + mv);
            }
            assert(nv.take(v@.len() as int) =~= nv);
            crate::ical_import::push_list(fields, name, out);
        },
        None => {
            assert(fields_view(fields@) =~= start + flat_strings_entry(name@, *o));
        },
    }
}

fn push_nested_strings_entry(fields: &mut Fields, name: &'static str, o: &Option<Vec<Vec<String>>>)
    ensures
        fields_view(final(fields)@) == fields_view(old(fields)@) + nested_strings_entry(name@, *o),
{
    let ghost start = fields_view(fields@);
    match o {
        Some(v) => {
            let mut out: Vec<ImportValue> = Vec::new();
            for i in 0..v.len()
                invariant
                    out@.len() == i,
                    forall|j: int|
                        0 <= j < i ==> (#[trigger] out@[j])@ == ImportView::List(strings_view(v@[j]@)),
            {
                let items = string_values(&v[i]);
                proof {
                    crate::import_value::lemma_import_list_view(items);
                }
                let l = ImportValue::List(items);
                assert(l@->List_0 =~= strings_view(v@[i as int]@));
                out.push(l);
            }
            assert(values_view(out@) =~= nested_strings_view(v@).map_values(
                |w: Seq<ImportView>| ImportView::List(w),
            ));
            crate::ical_import::push_list(fields, name, out);
        },
        None => {
            assert(fields_view(fields@) =~= start + nested_strings_entry(name@, *o));
        },
    }
}

fn dtod_values(v: &Vec<PlainDtod>) -> (r: Vec<ImportValue>)
    ensures
        values_view(r@) == dtods_view(v@),
{
    let mut out: Vec<ImportValue> = Vec::new();
    for i in 0..v.len()
        invariant
            out@.len() == i,
            forall|j: int| 0 <= j < i ==> (#[trigger] out@[j])@ == dtod_value(v@[j]),
    {
        out.push(translate_datetime_or_date(v[i]));
    }
    assert(values_view(out@) =~= dtods_view(v@));
    out
}

fn push_dtods_entry(fields: &mut Fields, name: &'static str, o: &Option<Vec<PlainDtod>>)
    ensures
        fields_view(final(fields)@) == fields_view(old(fields)@) + dtods_entry(name@, *o),
{
    let ghost start = fields_view(fields@);
    match o {
        Some(v) => crate::ical_import::push_list(fields, name, dtod_values(v)),
        None => {
            assert(fields_view(fields@) =~= start + dtods_entry(name@, *o));
        },
    }
}

fn push_flat_dtods_entry(fields: &mut Fields, name: &'static str, o: &Option<Vec<Vec<PlainDtod>>>)
    ensures
        fields_view(final(fields)@) == fields_view(old(fields)@) + flat_dtods_entry(name@, *o),
{
    let ghost start = fields_view(fields@);
    match o {
        Some(v) => {
            let ghost nv = v@.map_values(|w: Vec<PlainDtod>| dtods_view(w@));
            let mut out: Vec<ImportValue> = Vec::new();
            assert(nv.take(0) =~= Seq::<Seq<ImportView>>::empty());
            assert(values_view(out@) =~= Seq::<ImportView>::empty());
            for i in 0..v.len()
                invariant
                    nv == v@.map_values(|w: Vec<PlainDtod>| dtods_view(w@)),
                    values_view(out@) == flatten(nv.take(i as int)),
            {
                assert(nv.take(i + 1).drop_last() =~= nv.take(i as int));
                let ghost before = values_view(out@);
                let mut more = dtod_values(&v[i]);
                let ghost mv = values_view(more@);
                out.append(&mut more);
                assert(values_view(out@) =~= before + mv);
            }
            assert(nv.take(v@.len() as int) =~= nv);
            crate::ical_import::push_list(fields, name, out);
        },
        None => {
            assert(fields_view(fields@) =~= start + flat_dtods_entry(name@, *o));
        },
    }
}

fn push_attachments_entry(fields: &mut Fields, name: &'static str, o: &Option<Vec<PlainAttachment>>)
    ensures
        fields_view(final(fields)@) == fields_view(old(fields)@) + attachments_entry(name@, *o),
{
    let ghost start = fields_view(fields@);
    match o {
        Some(v) => {
            let mut out: Vec<ImportValue> = Vec::new();
            for i in 0..v.len()
                invariant
                    out@.len() == i,
                    forall|j: int| 0 <= j < i ==> (#[trigger] out@[j])@ == attachment_value(v@[j]),
            {
                out.push(translate_attachment(&v[i]));
            }
            assert(values_view(out@) =~= v@.map_values(|a: PlainAttachment| attachment_value(a)));
            crate::ical_import::push_list(fields, name, out);
        },
        None => {
            assert(fields_view(fields@) =~= start + attachments_entry(name@, *o));
        },
    }
}

fn push_request_statuses_entry(fields: &mut Fields, o: &Option<Vec<PlainRequestStatus>>)
    ensures
        fields_view(final(fields)@) == fields_view(old(fields)@) + request_statuses_entry(*o),
{
    let ghost start = fields_view(fields@);
    match o {
        Some(v) => {
            let mut out: Vec<ImportValue> = Vec::new();
            for i in 0..v.len()
                invariant
                    out@.len() == i,
                    forall|j: int|
                        0 <= j < i ==> (#[trigger] out@[j])@ == ImportView::String(request_status_text(v@[j])),
            {
                out.push(translate_request_status(&v[i]));
            }
            assert(values_view(out@) =~= v@.map_values(
                |rs: PlainRequestStatus| ImportView::String(request_status_text(rs)),
            ));
            crate::ical_import::push_list(fields, "request_statuses", out);
        },
        None => {
            assert(fields_view(fields@) =~= start + request_statuses_entry(*o));
        },
    }
}

fn push_start_entries(fields: &mut Fields, d: &IcalComponent)
    ensures
        fields_view(final(fields)@) == fields_view(old(fields)@) + start_entries(*d),
{
    let ghost start = fields_view(fields@);
    match d.dtstart {
        Some(st) => {
            fields.push(("start", translate_datetime_or_date(st)));
            let ghost mid = fields_view(fields@);
            push_str_entry(fields, "time_zone", &d.dtstart_tz);
            assert(fields_view(fields@) =~= start + start_entries(*d));
        },
        None => {
            assert(fields_view(fields@) =~= start + start_entries(*d));
        },
    }
}

fn push_event_duration(fields: &mut Fields, d: &IcalComponent)
    ensures
        fields_view(final(fields)@) == fields_view(old(fields)@) + event_duration_entry(*d),
{
    let ghost start = fields_view(fields@);
    match d.duration {
        Some(x) => {
            fields.push(("duration", translate_signed_duration(x)));
            assert(fields_view(fields@) =~= start + event_duration_entry(*d));
        },
        None => match (d.dtstart, d.dtend) {
            (Some(s), Some(e)) => {
                crate::ical_import::push_entry(fields, "duration", compute_duration_from_endpoints(s, e));
            },
            _ => {
                assert(fields_view(fields@) =~= start + event_duration_entry(*d));
            },
        },
    }
}

fn push_status(fields: &mut Fields, d: &IcalComponent)
    ensures
        fields_view(final(fields)@) == fields_view(old(fields)@) + status_entry(*d),
{
    crate::ical_import::push_entry(fields, "status", match d.status {
        Some(st) => Some(translate_status(st)),
        None => None,
    });
}

fn push_priority(fields: &mut Fields, d: &IcalComponent)
    ensures
        fields_view(final(fields)@) == fields_view(old(fields)@) + priority_entry(*d),
{
    crate::ical_import::push_entry(fields, "priority", match d.priority {
        Some(p) => Some(ImportValue::Integer(priority_to_u64(p))),
        None => None,
    });
}

fn push_class(fields: &mut Fields, d: &IcalComponent)
    ensures
        fields_view(final(fields)@) == fields_view(old(fields)@) + class_entry(*d),
{
    crate::ical_import::push_entry(fields, "class", match &d.class {
        Some(c) => Some(translate_class(c)),
        None => None,
    });
}

fn push_geo(fields: &mut Fields, d: &IcalComponent)
    ensures
        fields_view(final(fields)@) == fields_view(old(fields)@) + geo_entry(*d),
{
    crate::ical_import::push_entry(fields, "geo", match &d.geo {
        Some(g) => Some(translate_geo(&g.0, &g.1)),
        None => None,
    });
}

fn push_sequence(fields: &mut Fields, d: &IcalComponent)
    ensures
        fields_view(final(fields)@) == fields_view(old(fields)@) + sequence_entry(*d),
{
    crate::ical_import::push_entry(fields, "sequence", match d.sequence {
        Some(n) => Some(ImportValue::SignedInteger(n as i64)),
        None => None,
    });
}

fn push_transp(fields: &mut Fields, d: &IcalComponent)
    ensures
        fields_view(final(fields)@) == fields_view(old(fields)@) + transp_entry(*d),
{
    crate::ical_import::push_entry(fields, "transparency", match d.transp {
        Some(t) => Some(translate_transp(t)),
        None => None,
    });
}

fn push_recur(fields: &mut Fields, d: &IcalComponent)
    ensures
        fields_view(final(fields)@) == fields_view(old(fields)@) + rrule_entry(*d),
{
    crate::ical_import::push_entry(fields, "recur", match &d.rrule {
        Some(r) => Some(translate_rrule(r)),
        None => None,
    });
}

fn push_percent_complete(fields: &mut Fields, d: &IcalComponent)
    ensures
        fields_view(final(fields)@) == fields_view(old(fields)@) + percent_entry(*d),
{
    crate::ical_import::push_entry(fields, "percent_complete", match d.percent_complete {
        Some(p) => Some(ImportValue::Integer(p as u64)),
        None => None,
    });
}

fn event_entries_head(d: &IcalComponent) -> (fields: Fields)
    ensures
        fields_view(fields@) == seq![("type"@, ImportView::String("event"@))] + str_entry(
            "uid"@,
            d.uid,
        ) + str_entry("title"@, d.summary) + str_entry("description"@, d.description)
            + start_entries(*d) + event_duration_entry(*d) + status_entry(*d) + priority_entry(*d)
            + str_entry("location"@, d.location) + str_entry("color"@, d.color) + flat_strings_entry(
            "categories"@,
            d.categories,
        ) + dt_entry("dtstamp"@, d.dtstamp) + class_entry(*d) + dt_entry("created"@, d.created)
            + geo_entry(*d) + dt_entry("last_modified"@, d.last_modified) + str_entry(
            "organizer"@,
            d.organizer,
        ) + sequence_entry(*d) + transp_entry(*d) + str_entry("url"@, d.url),
{
    let mut fields: Fields = Vec::new();
    fields.push(("type", ImportValue::String(owned("event"))));
    assert(fields_view(fields@) =~= seq![("type"@, ImportView::String("event"@))]);
    push_str_entry(&mut fields, "uid", &d.uid);
    push_str_entry(&mut fields, "title", &d.summary);
    push_str_entry(&mut fields, "description", &d.description);
    push_start_entries(&mut fields, d);
    push_event_duration(&mut fields, d);
    push_status(&mut fields, d);
    push_priority(&mut fields, d);
    push_str_entry(&mut fields, "location", &d.location);
    push_str_entry(&mut fields, "color", &d.color);
    push_flat_strings_entry(&mut fields, "categories", &d.categories);
    push_dt_entry(&mut fields, "dtstamp", d.dtstamp);
    push_class(&mut fields, d);
    push_dt_entry(&mut fields, "created", d.created);
    push_geo(&mut fields, d);
    push_dt_entry(&mut fields, "last_modified", d.last_modified);
    push_str_entry(&mut fields, "organizer", &d.organizer);
    push_sequence(&mut fields, d);
    push_transp(&mut fields, d);
    push_str_entry(&mut fields, "url", &d.url);
    fields
}

/// Pushes the entries events and tasks share from the recurrence id on.
fn push_entries_tail(fields: &mut Fields, d: &IcalComponent)
    ensures
        fields_view(final(fields)@) == fields_view(old(fields)@) + dtod_entry(
            "recurrence_id"@,
            d.recurrence_id,
        ) + rrule_entry(*d) + flat_dtods_entry("rdates"@, d.rdates) + dtods_entry(
            "exdates"@,
            d.exdates,
        ) + attachments_entry("attachments"@, d.attachments) + strings_entry(
            "attendees"@,
            d.attendees,
        ) + strings_entry("comments"@, d.comments) + strings_entry("contacts"@, d.contacts)
            + strings_entry("related_to"@, d.related_to) + nested_strings_entry(
            "resources"@,
            d.resources,
        ) + attachments_entry("images"@, d.images) + strings_entry("conferences"@, d.conferences)
            + request_statuses_entry(d.request_statuses),
{
    push_dtod_entry(fields, "recurrence_id", d.recurrence_id);
    push_recur(fields, d);
    push_flat_dtods_entry(fields, "rdates", &d.rdates);
    push_dtods_entry(fields, "exdates", &d.exdates);
    push_attachments_entry(fields, "attachments", &d.attachments);
    push_strings_entry(fields, "attendees", &d.attendees);
    push_strings_entry(fields, "comments", &d.comments);
    push_strings_entry(fields, "contacts", &d.contacts);
    push_strings_entry(fields, "related_to", &d.related_to);
    push_nested_strings_entry(fields, "resources", &d.resources);
    push_attachments_entry(fields, "images", &d.images);
    push_strings_entry(fields, "conferences", &d.conferences);
    push_request_statuses_entry(fields, &d.request_statuses);
}

/// Translates an event into a record.
pub fn translate_ical_event(d: &IcalComponent) -> (r: ImportRecord)
    ensures
        r@ == event_record(*d),
{
    let mut fields = event_entries_head(d);
    push_entries_tail(&mut fields, d);
    let mut record = make_import_record(fields);
    append_x_properties(&mut record, &d.x_properties);
    record
}

fn todo_entries_head(d: &IcalComponent) -> (fields: Fields)
    ensures
        fields_view(fields@) == seq![("type"@, ImportView::String("task"@))] + str_entry(
            "uid"@,
            d.uid,
        ) + str_entry("title"@, d.summary) + str_entry("description"@, d.description)
            + dtod_entry("due"@, d.due) + start_entries(*d) + duration_entry(
            "estimated_duration"@,
            d.duration,
        ) + percent_entry(*d) + status_entry(*d) + priority_entry(*d) + str_entry(
            "location"@,
            d.location,
        ) + str_entry("color"@, d.color) + flat_strings_entry("categories"@, d.categories)
            + dt_entry("dtstamp"@, d.dtstamp) + class_entry(*d) + dt_entry("created"@, d.created)
            + geo_entry(*d) + dt_entry("last_modified"@, d.last_modified) + str_entry(
            "organizer"@,
            d.organizer,
        ) + sequence_entry(*d) + str_entry("url"@, d.url) + dt_entry("completed"@, d.completed),
{
    let mut fields: Fields = Vec::new();
    fields.push(("type", ImportValue::String(owned("task"))));
    assert(fields_view(fields@) =~= seq![("type"@, ImportView::String("task"@))]);
    push_str_entry(&mut fields, "uid", &d.uid);
    push_str_entry(&mut fields, "title", &d.summary);
    push_str_entry(&mut fields, "description", &d.description);
    push_dtod_entry(&mut fields, "due", d.due);
    push_start_entries(&mut fields, d);
    push_duration_entry(&mut fields, "estimated_duration", d.duration);
    push_percent_complete(&mut fields, d);
    push_status(&mut fields, d);
    push_priority(&mut fields, d);
    push_str_entry(&mut fields, "location", &d.location);
    push_str_entry(&mut fields, "color", &d.color);
    push_flat_strings_entry(&mut fields, "categories", &d.categories);
    push_dt_entry(&mut fields, "dtstamp", d.dtstamp);
    push_class(&mut fields, d);
    push_dt_entry(&mut fields, "created", d.created);
    push_geo(&mut fields, d);
    push_dt_entry(&mut fields, "last_modified", d.last_modified);
    push_str_entry(&mut fields, "organizer", &d.organizer);
    push_sequence(&mut fields, d);
    push_str_entry(&mut fields, "url", &d.url);
    push_dt_entry(&mut fields, "completed", d.completed);
    fields
}

/// Translates a task into a record.
pub fn translate_ical_todo(d: &IcalComponent) -> (r: ImportRecord)
    ensures
        r@ == todo_record(*d),
{
    let mut fields = todo_entries_head(d);
    push_entries_tail(&mut fields, d);
    let mut record = make_import_record(fields);
    append_x_properties(&mut record, &d.x_properties);
    record
}

// ── Calendars ──────────────────────────────────────────────────

/// The calendar-level properties that translation reads.
pub struct IcalCalendarData {
    pub prod_id: String,
    pub uid: Option<String>,
    pub names: Option<Vec<String>>,
    pub descriptions: Option<Vec<String>>,
    pub color: Option<String>,
    pub url: Option<String>,
    pub categories: Option<Vec<Vec<String>>>,
    pub last_modified: Option<(PlainDate, PlainTime)>,
    pub refresh_interval: Option<PlainDuration>,
    pub source: Option<String>,
    pub x_properties: Vec<(String, PlainXValue)>,
}

/// A component of a calendar: an event, a task, or another kind that
/// translation leaves out.
pub enum IcalEntry {
    Event(IcalComponent),
    Todo(IcalComponent),
    Other,
}

/// The first of several strings, if any.
pub open spec fn first_entry(name: Seq<char>, o: Option<Vec<String>>) -> Seq<(Seq<char>, ImportView)> {
    match o {
        Some(v) => if v@.len() > 0 {
            seq![(name, ImportView::String(v@[0]@))]
        } else {
            seq![]
        },
        None => seq![],
    }
}

/// The entries of a calendar record, in order.
pub open spec fn calendar_fields(c: IcalCalendarData) -> Seq<(Seq<char>, ImportView)> {
    seq![("type"@, ImportView::String("calendar"@)), ("prod_id"@, ImportView::String(c.prod_id@))]
        + str_entry("uid"@, c.uid) + first_entry("name"@, c.names) + first_entry(
        "description"@,
        c.descriptions,
    ) + str_entry("color"@, c.color) + str_entry("url"@, c.url) + flat_strings_entry(
        "categories"@,
        c.categories,
    ) + dt_entry("last_modified"@, c.last_modified) + duration_entry(
        "refresh_interval"@,
        c.refresh_interval,
    ) + str_entry("source"@, c.source)
}

/// A calendar's own properties as a record, its extension properties last.
pub open spec fn calendar_record(c: IcalCalendarData) -> ImportRecordView {
    with_x_properties(import_record_of(calendar_fields(c)), x_props_view(c.x_properties@))
}

fn push_first_entry(fields: &mut Fields, name: &'static str, o: &Option<Vec<String>>)
    ensures
        fields_view(final(fields)@) == fields_view(old(fields)@) + first_entry(name@, *o),
{
    let ghost start = fields_view(fields@);
    match o {
        Some(v) => if v.len() > 0 {
            fields.push((name, ImportValue::String(v[0].clone())));
            assert(fields_view(fields@) =~= start + first_entry(name@, *o));
        } else {
            assert(fields_view(fields@) =~= start + first_entry(name@, *o));
        },
        None => {
            assert(fields_view(fields@) =~= start + first_entry(name@, *o));
        },
    }
}

/// Translates a calendar's own properties into a record.
pub fn translate_vcalendar_properties(c: &IcalCalendarData) -> (r: ImportRecord)
    ensures
        r@ == calendar_record(*c),
{
    let mut fields: Fields = Vec::new();
    fields.push(("type", ImportValue::String(owned("calendar"))));
    fields.push(("prod_id", ImportValue::String(c.prod_id.clone())));
    assert(fields_view(fields@) =~= seq![
        ("type"@, ImportView::String("calendar"@)),
        ("prod_id"@, ImportView::String(c.prod_id@)),
    ]);
    push_str_entry(&mut fields, "uid", &c.uid);
    push_first_entry(&mut fields, "name", &c.names);
    push_first_entry(&mut fields, "description", &c.descriptions);
    push_str_entry(&mut fields, "color", &c.color);
    push_str_entry(&mut fields, "url", &c.url);
    push_flat_strings_entry(&mut fields, "categories", &c.categories);
    push_dt_entry(&mut fields, "last_modified", c.last_modified);
    push_duration_entry(&mut fields, "refresh_interval", c.refresh_interval);
    push_str_entry(&mut fields, "source", &c.source);
    let mut record = make_import_record(fields);
    append_x_properties(&mut record, &c.x_properties);
    record
}

/// The records of the events and tasks among some components, in order.
pub open spec fn entry_records(es: Seq<IcalEntry>) -> Seq<ImportView>
    decreases es.len(),
{
    if es.len() == 0 {
        seq![]
    } else {
        let p = entry_records(es.drop_last());
        match es.last() {
            IcalEntry::Event(d) => p.push(ImportView::Record(event_record(d))),
            IcalEntry::Todo(d) => p.push(ImportView::Record(todo_record(d))),
            IcalEntry::Other => p,
        }
    }
}

/// A calendar as a record: its own properties, and under `entries` its
/// events and tasks.
pub open spec fn icalendar_record(c: IcalCalendarData, es: Seq<IcalEntry>) -> ImportView {
    ImportView::Record(key_insert(calendar_record(c), "entries"@, ImportView::List(entry_records(es))))
}

pub open spec fn icalendar_value(cals: Seq<(IcalCalendarData, Vec<IcalEntry>)>) -> ImportView {
    ImportView::List(cals.map_values(|c: (IcalCalendarData, Vec<IcalEntry>)| icalendar_record(c.0, c.1@)))
}

/// Translates one calendar with its components.
pub fn translate_calendar_parts(c: &IcalCalendarData, es: &Vec<IcalEntry>) -> (r: ImportValue)
    ensures
        r@ == icalendar_record(*c, es@),
{
    let mut record = translate_vcalendar_properties(c);
    let mut entries: Vec<ImportValue> = Vec::new();
    assert(es@.take(0) =~= Seq::<IcalEntry>::empty());
    assert(values_view(entries@) =~= Seq::<ImportView>::empty());
    for i in 0..es.len()
        invariant
            values_view(entries@) == entry_records(es@.take(i as int)),
    {
        assert(es@.take(i + 1).drop_last() =~= es@.take(i as int));
        let ghost before = values_view(entries@);
        match &es[i] {
            IcalEntry::Event(d) => {
                entries.push(ImportValue::Record(translate_ical_event(d)));
                assert(values_view(entries@) =~= before.push(ImportView::Record(event_record(*d))));
            },
            IcalEntry::Todo(d) => {
                entries.push(ImportValue::Record(translate_ical_todo(d)));
                assert(values_view(entries@) =~= before.push(ImportView::Record(todo_record(*d))));
            },
            IcalEntry::Other => {},
        }
    }
    assert(es@.take(es@.len() as int) =~= es@);
    proof {
        crate::import_value::lemma_import_list_view(entries);
    }
    let l = ImportValue::List(entries);
    assert(l@->List_0 =~= entry_records(es@));
    record.insert(owned("entries"), l);
    ImportValue::Record(record)
}

/// Translates calendars, each with its components, into a list of calendar
/// records.
pub fn translate_calendars(cals: &Vec<(IcalCalendarData, Vec<IcalEntry>)>) -> (r: ImportValue)
    ensures
        r@ == icalendar_value(cals@),
{
    let mut out: Vec<ImportValue> = Vec::new();
    for i in 0..cals.len()
        invariant
            out@.len() == i,
            forall|j: int| 0 <= j < i ==> (#[trigger] out@[j])@ == icalendar_record(cals@[j].0, cals@[j].1@),
    {
        out.push(translate_calendar_parts(&cals[i].0, &cals[i].1));
    }
    proof {
        crate::import_value::lemma_import_list_view(out);
    }
    let l = ImportValue::List(out);
    assert(l@->List_0 =~= cals@.map_values(
        |c: (IcalCalendarData, Vec<IcalEntry>)| icalendar_record(c.0, c.1@),
    ));
    l
}

// ── Names of the entries ───────────────────────────────────────

/// Every entry is named `n`.
pub open spec fn all_named(s: Seq<(Seq<char>, ImportView)>, n: Seq<char>) -> bool {
    forall|i: int| 0 <= i < s.len() ==> #[trigger] s[i].0 == n
}

/// The entries of each part of a record are under that part's name.
pub proof fn lemma_entry_names(d: IcalComponent)
    ensures
        forall|i: int|
            0 <= i < start_entries(d).len() ==> #[trigger] start_entries(d)[i].0 == "start"@
                || start_entries(d)[i].0 == "time_zone"@,
        all_named(event_duration_entry(d), "duration"@),
        all_named(status_entry(d), "status"@),
        all_named(class_entry(d), "class"@),
        all_named(geo_entry(d), "geo"@),
        all_named(sequence_entry(d), "sequence"@),
        all_named(transp_entry(d), "transparency"@),
        all_named(rrule_entry(d), "recur"@),
        all_named(request_statuses_entry(d.request_statuses), "request_statuses"@),
{
}

/// The entries of a named part are under that name.
pub proof fn lemma_named_entries(name: Seq<char>, d: IcalComponent)
    ensures
        all_named(dtod_entry(name, d.recurrence_id), name),
        all_named(dtods_entry(name, d.exdates), name),
        all_named(flat_dtods_entry(name, d.rdates), name),
        all_named(attachments_entry(name, d.attachments), name),
        all_named(attachments_entry(name, d.images), name),
        all_named(flat_strings_entry(name, d.categories), name),
        all_named(nested_strings_entry(name, d.resources), name),
{
}

/// The entry of a task's due date is under `due`.
pub proof fn lemma_named_due(d: IcalComponent)
    ensures
        all_named(dtod_entry("due"@, d.due), "due"@),
{
}

} // verus!
