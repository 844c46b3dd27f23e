//! Building the iCalendar form of a calendar record and its entries: which
//! property each field becomes, which values are kept, and which fields are
//! carried as extension properties (with a warning where they are not
//! marked as extensions).
use vstd::prelude::*;

use vstd::utf8::encode_utf8;

use crate::emit_fields::{b64_decode, dashes_for_underscores, strip_spaces, uppercase};
use crate::export_values::{
    dtstart_of, duration_of, import_value_to_attachment, import_value_to_dtstart,
    import_value_to_priority, list_field, priority_of, record_to_rrule, record_to_signed_duration,
    record_to_utc_datetime, request_status_of, rrule_of, rrule_view, status_of, str_to_class,
    str_to_request_status, str_to_status, str_to_transp, transp_of, u64_of, uri_ok, utc_datetime_of,
    DtZone, ExportRequestStatus, RRuleView, ZoneView,
};
use crate::ical_import::{
    IcalClass, IcalPriority, IcalStatus, IcalTransp, PlainAttachment, PlainDate, PlainDtod,
    PlainDuration, PlainRRule, PlainTime,
};
use crate::import_value::{copy_import_value, ImportRecord, ImportRecordView, ImportValue, ImportView};
use crate::keyed::key_lookup;
use crate::ical_entries::all_named;
use crate::ical_entries::{
    attachments_entry, class_entry, dt_entry, dtod_entry, dtods_entry, event_duration_entry,
    flat_dtods_entry, flat_strings_entry, geo_entry, nested_strings_entry, priority_entry,
    request_statuses_entry, rrule_entry, sequence_entry, start_entries, status_entry, str_entry,
    strings_entry, transp_entry,
};
use crate::text::{from_chars, push_str, str_eq};

verus! {

broadcast use {crate::types::lemma_value_view_unfold, crate::import_value::lemma_import_view_unfold};

// ── Reading fields ─────────────────────────────────────────────

/// The text of a string value.
pub open spec fn text_of(v: ImportView) -> Option<Seq<char>> {
    match v {
        ImportView::String(s) => Some(s),
        _ => None,
    }
}

/// The text of a string field.
pub open spec fn text_field(r: ImportRecordView, k: Seq<char>) -> Option<Seq<char>> {
    match key_lookup(r, k) {
        Some(v) => text_of(v),
        None => None,
    }
}

pub open spec fn opt_text(o: Option<String>) -> Option<Seq<char>> {
    match o {
        Some(s) => Some(s@),
        None => None,
    }
}

pub open spec fn texts(v: Seq<String>) -> Seq<Seq<char>> {
    v.map_values(|s: String| s@)
}

pub open spec fn opt_texts(o: Option<Vec<String>>) -> Option<Seq<Seq<char>>> {
    match o {
        Some(v) => Some(texts(v@)),
        None => None,
    }
}

fn text_in(r: &ImportRecord, k: &str) -> (t: Option<String>)
    ensures
        opt_text(t) == text_field(r@, k@),
{
    match r.get(k) {
        Some(ImportValue::String(s)) => Some(s.clone()),
        _ => None,
    }
}

/// The texts among the items, in order.
pub open spec fn item_texts(items: Seq<ImportView>) -> Seq<Seq<char>>
    decreases items.len(),
{
    if items.len() == 0 {
        seq![]
    } else {
        let p = item_texts(items.drop_last());
        match text_of(items.last()) {
            Some(s) => p.push(s),
            None => p,
        }
    }
}

/// The texts of a list field, where there is at least one.
pub open spec fn text_list(r: ImportRecordView, k: Seq<char>) -> Option<Seq<Seq<char>>> {
    match list_field(r, k) {
        Some(items) => if item_texts(items).len() > 0 {
            Some(item_texts(items))
        } else {
            None
        },
        None => None,
    }
}

fn texts_in(items: &Vec<ImportValue>) -> (out: Vec<String>)
    ensures
        texts(out@) == item_texts(ImportValue::List(*items)@->List_0),
{
    let ghost iv = ImportValue::List(*items)@->List_0;
    proof {
        crate::import_value::lemma_import_list_view(*items);
    }
    let mut out: Vec<String> = Vec::new();
    assert(texts(out@) =~= item_texts(iv.take(0)));
    for i in 0..items.len()
        invariant
            iv.len() == items@.len(),
            forall|j: int| 0 <= j < items@.len() ==> #[trigger] iv[j] == items@[j]@,
            iv == ImportValue::List(*items)@->List_0,
            texts(out@) == item_texts(iv.take(i as int)),
    {
        assert(iv.take(i + 1).drop_last() =~= iv.take(i as int));
        assert(iv.take(i + 1).last() == items@[i as int]@);
        let ghost before = out@;
        if let ImportValue::String(s) = &items[i] {
            out.push(s.clone());
            assert(texts(out@) =~= texts(before).push(s@));
        }
    }
    assert(iv.take(items@.len() as int) =~= iv);
    out
}

fn text_list_in(r: &ImportRecord, k: &str) -> (t: Option<Vec<String>>)
    ensures
        opt_texts(t) == text_list(r@, k@),
{
    match r.get(k) {
        Some(ImportValue::List(items)) => {
            let out = texts_in(items);
            if out.len() > 0 {
                Some(out)
            } else {
                None
            }
        },
        _ => None,
    }
}

// ── Dates and times of lists ───────────────────────────────────

pub open spec fn opt_dt_view(o: Option<(PlainDtod, DtZone)>) -> Option<(PlainDtod, ZoneView)> {
    match o {
        Some((d, z)) => Some((d, z@)),
        None => None,
    }
}

pub open spec fn dt_views(v: Seq<(PlainDtod, DtZone)>) -> Seq<(PlainDtod, ZoneView)> {
    v.map_values(|p: (PlainDtod, DtZone)| (p.0, p.1@))
}

/// A date-time or date field read with the record's zone.
pub open spec fn dt_field(r: ImportRecordView, k: Seq<char>) -> Option<(PlainDtod, ZoneView)> {
    match key_lookup(r, k) {
        Some(v) => dtstart_of(v, text_field(r, "time_zone"@)),
        None => None,
    }
}

fn dt_in(r: &ImportRecord, k: &str) -> (d: Option<(PlainDtod, DtZone)>)
    ensures
        opt_dt_view(d) == dt_field(r@, k@),
{
    proof {
        reveal_strlit("time_zone");
    }
    match r.get(k) {
        Some(v) => match r.get("time_zone") {
            Some(ImportValue::String(tz)) => import_value_to_dtstart(v, Some(tz.as_str())),
            _ => import_value_to_dtstart(v, None),
        },
        None => None,
    }
}

/// The items that read as date-times or dates, in order.
pub open spec fn item_dts(items: Seq<ImportView>, tz: Option<Seq<char>>) -> Seq<(PlainDtod, ZoneView)>
    decreases items.len(),
{
    if items.len() == 0 {
        seq![]
    } else {
        let p = item_dts(items.drop_last(), tz);
        match dtstart_of(items.last(), tz) {
            Some(x) => p.push(x),
            None => p,
        }
    }
}

fn dts_in(items: &Vec<ImportValue>, tz: Option<&str>) -> (out: Vec<(PlainDtod, DtZone)>)
    ensures
        dt_views(out@) == item_dts(
            ImportValue::List(*items)@->List_0,
            match tz {
                Some(t) => Some(t@),
                None => None,
            },
        ),
{
    let ghost iv = ImportValue::List(*items)@->List_0;
    let ghost tzv = match tz {
        Some(t) => Some(t@),
        None => None,
    };
    proof {
        crate::import_value::lemma_import_list_view(*items);
    }
    let mut out: Vec<(PlainDtod, DtZone)> = Vec::new();
    assert(dt_views(out@) =~= item_dts(iv.take(0), tzv));
    for i in 0..items.len()
        invariant
            iv.len() == items@.len(),
            forall|j: int| 0 <= j < items@.len() ==> #[trigger] iv[j] == items@[j]@,
            iv == ImportValue::List(*items)@->List_0,
            tzv == match tz {
                Some(t) => Some(t@),
                None => None::<Seq<char>>,
            },
            dt_views(out@) == item_dts(iv.take(i as int), tzv),
    {
        assert(iv.take(i + 1).drop_last() =~= iv.take(i as int));
        assert(iv.take(i + 1).last() == items@[i as int]@);
        let ghost before = out@;
        if let Some(p) = import_value_to_dtstart(&items[i], tz) {
            out.push(p);
            assert(dt_views(out@) =~= dt_views(before).push((p.0, p.1@)));
        }
    }
    assert(iv.take(items@.len() as int) =~= iv);
    out
}

/// The date-times or dates of a list field, where there is at least one.
pub open spec fn dt_list(r: ImportRecordView, k: Seq<char>) -> Option<Seq<(PlainDtod, ZoneView)>> {
    match list_field(r, k) {
        Some(items) => {
            let d = item_dts(items, text_field(r, "time_zone"@));
            if d.len() > 0 {
                Some(d)
            } else {
                None
            }
        },
        None => None,
    }
}

fn dts_of_field(r: &ImportRecord, k: &str) -> (d: Option<Vec<(PlainDtod, DtZone)>>)
    ensures
        match d {
            Some(v) => list_field(r@, k@) is Some && dt_views(v@) == item_dts(
                list_field(r@, k@)->Some_0,
                text_field(r@, "time_zone"@),
            ),
            None => list_field(r@, k@) is None,
        },
{
    proof {
        reveal_strlit("time_zone");
    }
    match r.get(k) {
        Some(ImportValue::List(items)) => match r.get("time_zone") {
            Some(ImportValue::String(tz)) => Some(dts_in(items, Some(tz.as_str()))),
            _ => Some(dts_in(items, None)),
        },
        _ => None,
    }
}


// ── Attachments ────────────────────────────────────────────────

/// The mathematical form of an attachment.
pub enum AttachView {
    Uri(Seq<char>),
    Binary(Seq<u8>),
}

pub open spec fn attach_view(a: PlainAttachment) -> AttachView {
    match a {
        PlainAttachment::Uri(u) => AttachView::Uri(u@),
        PlainAttachment::Binary(b) => AttachView::Binary(b@),
    }
}

pub open spec fn attach_views(v: Seq<PlainAttachment>) -> Seq<AttachView> {
    v.map_values(|a: PlainAttachment| attach_view(a))
}

/// An attachment value read back: a string that is a URI, or a record
/// whose base64 `data` decodes.
pub open spec fn attach_of(v: ImportView) -> Option<AttachView> {
    match v {
        ImportView::String(s) => if uri_ok(s) {
            Some(AttachView::Uri(s))
        } else {
            None
        },
        ImportView::Record(rec) => match key_lookup(rec, "data"@) {
            Some(ImportView::String(d)) => match b64_decode(encode_utf8(strip_spaces(d))) {
                Some(bytes) => Some(AttachView::Binary(bytes)),
                None => None,
            },
            _ => None,
        },
        _ => None,
    }
}

pub open spec fn item_attachments(items: Seq<ImportView>) -> Seq<AttachView>
    decreases items.len(),
{
    if items.len() == 0 {
        seq![]
    } else {
        let p = item_attachments(items.drop_last());
        match attach_of(items.last()) {
            Some(a) => p.push(a),
            None => p,
        }
    }
}

/// The attachments of a list field, where there is at least one.
pub open spec fn attach_list(r: ImportRecordView, k: Seq<char>) -> Option<Seq<AttachView>> {
    match list_field(r, k) {
        Some(items) => if item_attachments(items).len() > 0 {
            Some(item_attachments(items))
        } else {
            None
        },
        None => None,
    }
}

pub open spec fn opt_attach_views(o: Option<Vec<PlainAttachment>>) -> Option<Seq<AttachView>> {
    match o {
        Some(v) => Some(attach_views(v@)),
        None => None,
    }
}

fn attachments_of_field(r: &ImportRecord, k: &str) -> (out: Option<Vec<PlainAttachment>>)
    ensures
        opt_attach_views(out) == attach_list(r@, k@),
{
    let items = match r.get(k) {
        Some(ImportValue::List(items)) => items,
        _ => return None,
    };
    let ghost iv = ImportValue::List(*items)@->List_0;
    proof {
        crate::import_value::lemma_import_list_view(*items);
        reveal_strlit("data");
    }
    let mut out: Vec<PlainAttachment> = Vec::new();
    assert(attach_views(out@) =~= item_attachments(iv.take(0)));
    for i in 0..items.len()
        invariant
            iv.len() == items@.len(),
            forall|j: int| 0 <= j < items@.len() ==> #[trigger] iv[j] == items@[j]@,
            iv == ImportValue::List(*items)@->List_0,
            attach_views(out@) == item_attachments(iv.take(i as int)),
    {
        assert(iv.take(i + 1).drop_last() =~= iv.take(i as int));
        assert(iv.take(i + 1).last() == items@[i as int]@);
        let ghost before = out@;
        match import_value_to_attachment(&items[i]) {
            Some(a) => {
                assert(attach_of(items@[i as int]@) == Some(attach_view(a)));
                out.push(a);
                assert(attach_views(out@) =~= attach_views(before).push(attach_view(a)));
            },
            None => {
                assert(attach_of(items@[i as int]@) is None);
            },
        }
    }
    assert(iv.take(items@.len() as int) =~= iv);
    if out.len() > 0 {
        Some(out)
    } else {
        None
    }
}

// ── Request statuses ───────────────────────────────────────────

pub type RequestStatusView = (u8, u8, Option<u8>, Seq<char>, Option<Seq<char>>);

pub open spec fn rs_view(e: ExportRequestStatus) -> RequestStatusView {
    (e.class, e.major, e.minor, e.description@, opt_text(e.exception_data))
}

pub open spec fn rs_views(v: Seq<ExportRequestStatus>) -> Seq<RequestStatusView> {
    v.map_values(|e: ExportRequestStatus| rs_view(e))
}

/// The request statuses among the items: strings that read as one.
pub open spec fn item_statuses(items: Seq<ImportView>) -> Seq<RequestStatusView>
    decreases items.len(),
{
    if items.len() == 0 {
        seq![]
    } else {
        let p = item_statuses(items.drop_last());
        match text_of(items.last()) {
            Some(s) => match request_status_of(s) {
                Some(x) => p.push(x),
                None => p,
            },
            None => p,
        }
    }
}

pub open spec fn status_list(r: ImportRecordView) -> Option<Seq<RequestStatusView>> {
    match list_field(r, "request_statuses"@) {
        Some(items) => if item_statuses(items).len() > 0 {
            Some(item_statuses(items))
        } else {
            None
        },
        None => None,
    }
}

pub open spec fn opt_rs_views(o: Option<Vec<ExportRequestStatus>>) -> Option<Seq<RequestStatusView>> {
    match o {
        Some(v) => Some(rs_views(v@)),
        None => None,
    }
}

fn statuses_in(r: &ImportRecord) -> (out: Option<Vec<ExportRequestStatus>>)
    ensures
        opt_rs_views(out) == status_list(r@),
{
    let items = match r.get("request_statuses") {
        Some(ImportValue::List(items)) => items,
        _ => return None,
    };
    let ghost iv = ImportValue::List(*items)@->List_0;
    proof {
        crate::import_value::lemma_import_list_view(*items);
    }
    let mut out: Vec<ExportRequestStatus> = Vec::new();
    assert(rs_views(out@) =~= item_statuses(iv.take(0)));
    for i in 0..items.len()
        invariant
            iv.len() == items@.len(),
            forall|j: int| 0 <= j < items@.len() ==> #[trigger] iv[j] == items@[j]@,
            iv == ImportValue::List(*items)@->List_0,
            rs_views(out@) == item_statuses(iv.take(i as int)),
    {
        assert(iv.take(i + 1).drop_last() =~= iv.take(i as int));
        assert(iv.take(i + 1).last() == items@[i as int]@);
        let ghost before = out@;
        if let ImportValue::String(s) = &items[i] {
            if let Some(x) = str_to_request_status(s.as_str()) {
                out.push(x);
                assert(rs_views(out@) =~= rs_views(before).push(rs_view(x)));
            }
        }
    }
    assert(iv.take(items@.len() as int) =~= iv);
    if out.len() > 0 {
        Some(out)
    } else {
        None
    }
}

// ── Resources ──────────────────────────────────────────────────

/// The resource groups among the items: lists with at least one text,
/// each as its texts.
pub open spec fn item_groups(items: Seq<ImportView>) -> Seq<Seq<Seq<char>>>
    decreases items.len(),
{
    if items.len() == 0 {
        seq![]
    } else {
        let p = item_groups(items.drop_last());
        match items.last() {
            ImportView::List(inner) => if item_texts(inner).len() > 0 {
                p.push(item_texts(inner))
            } else {
                p
            },
            _ => p,
        }
    }
}

pub open spec fn group_list(r: ImportRecordView) -> Option<Seq<Seq<Seq<char>>>> {
    match list_field(r, "resources"@) {
        Some(items) => if item_groups(items).len() > 0 {
            Some(item_groups(items))
        } else {
            None
        },
        None => None,
    }
}

pub open spec fn opt_groups(o: Option<Vec<Vec<String>>>) -> Option<Seq<Seq<Seq<char>>>> {
    match o {
        Some(v) => Some(v@.map_values(|w: Vec<String>| texts(w@))),
        None => None,
    }
}

fn groups_in(r: &ImportRecord) -> (out: Option<Vec<Vec<String>>>)
    ensures
        opt_groups(out) == group_list(r@),
{
    let items = match r.get("resources") {
        Some(ImportValue::List(items)) => items,
        _ => return None,
    };
    let ghost iv = ImportValue::List(*items)@->List_0;
    proof {
        crate::import_value::lemma_import_list_view(*items);
    }
    let mut out: Vec<Vec<String>> = Vec::new();
    assert(out@.map_values(|w: Vec<String>| texts(w@)) =~= item_groups(iv.take(0)));
    for i in 0..items.len()
        invariant
            iv.len() == items@.len(),
            forall|j: int| 0 <= j < items@.len() ==> #[trigger] iv[j] == items@[j]@,
            iv == ImportValue::List(*items)@->List_0,
            out@.map_values(|w: Vec<String>| texts(w@)) == item_groups(iv.take(i as int)),
    {
        assert(iv.take(i + 1).drop_last() =~= iv.take(i as int));
        assert(iv.take(i + 1).last() == items@[i as int]@);
        let ghost before = out@;
        if let ImportValue::List(inner) = &items[i] {
            let strings = texts_in(inner);
            if strings.len() > 0 {
                out.push(strings);
                assert(out@.map_values(|w: Vec<String>| texts(w@)) =~= before.map_values(
                    |w: Vec<String>| texts(w@),
                ).push(texts(strings@)));
            }
        }
    }
    assert(iv.take(items@.len() as int) =~= iv);
    if out.len() > 0 {
        Some(out)
    } else {
        None
    }
}

// ── Extension values ───────────────────────────────────────────

/// The value of an extension property as it is written: text, an integer,
/// a boolean, or a composite value written as JSON text.
#[derive(Debug, PartialEq, Eq)]
pub enum XOut {
    Text(String),
    Integer(i32),
    Boolean(bool),
    Json(ImportValue),
}

/// The mathematical form of an extension value.
pub enum XOutView {
    Text(Seq<char>),
    Integer(i32),
    Boolean(bool),
    Json(ImportView),
}

pub open spec fn x_out_view(x: XOut) -> XOutView {
    match x {
        XOut::Text(s) => XOutView::Text(s@),
        XOut::Integer(n) => XOutView::Integer(n),
        XOut::Boolean(b) => XOutView::Boolean(b),
        XOut::Json(v) => XOutView::Json(v@),
    }
}

/// An integer clamped into `i32`.
pub open spec fn clamp_i32(n: int) -> i32 {
    if n > i32::MAX {
        i32::MAX
    } else if n < i32::MIN {
        i32::MIN
    } else {
        n as i32
    }
}

/// How a field's value is written as an extension property: strings as
/// text, integers clamped into `i32`, booleans as booleans, undefined as
/// empty text, records and lists as JSON text.
pub open spec fn x_out_of(v: ImportView) -> XOutView {
    match v {
        ImportView::String(s) => XOutView::Text(s),
        ImportView::Integer(n) => XOutView::Integer(clamp_i32(n as int)),
        ImportView::SignedInteger(n) => XOutView::Integer(clamp_i32(n as int)),
        ImportView::Bool(b) => XOutView::Boolean(b),
        ImportView::Undefined => XOutView::Text(Seq::empty()),
        _ => XOutView::Json(v),
    }
}

/// Converts a field's value to the value of an extension property.
pub fn import_value_to_ical_value(v: &ImportValue) -> (x: XOut)
    ensures
        x_out_view(x) == x_out_of(v@),
{
    match v {
        ImportValue::String(s) => XOut::Text(s.clone()),
        ImportValue::Integer(n) => XOut::Integer(
            if *n > 0x7fff_ffff {
                0x7fff_ffff
            } else {
                *n as i32
            },
        ),
        ImportValue::SignedInteger(n) => XOut::Integer(
            if *n > 0x7fff_ffff {
                0x7fff_ffff
            } else if *n < -0x8000_0000 {
                -0x8000_0000
            } else {
                *n as i32
            },
        ),
        ImportValue::Bool(b) => XOut::Boolean(*b),
        ImportValue::Undefined => {
            let e = String::new();
            assert(e@ =~= Seq::<char>::empty());
            XOut::Text(e)
        },
        ImportValue::Record(_) => XOut::Json(copy_import_value(v)),
        ImportValue::List(_) => XOut::Json(copy_import_value(v)),
    }
}

// ── Known fields, warnings and extension properties ───────────

/// The fields an event or a task turns into standard properties.
pub open spec fn common_known(k: Seq<char>) -> bool {
    k == "type"@
        || k == "name"@
        || k == "uid"@
        || k == "title"@
        || k == "description"@
        || k == "start"@
        || k == "time_zone"@
        || k == "status"@
        || k == "priority"@
        || k == "location"@
        || k == "color"@
        || k == "categories"@
        || k == "dtstamp"@
        || k == "class"@
        || k == "created"@
        || k == "geo"@
        || k == "last_modified"@
        || k == "organizer"@
        || k == "sequence"@
        || k == "url"@
        || k == "recurrence_id"@
        || k == "recur"@
        || k == "exdates"@
        || k == "rdates"@
        || k == "attachments"@
        || k == "attendees"@
        || k == "comments"@
        || k == "contacts"@
        || k == "related_to"@
        || k == "resources"@
        || k == "images"@
        || k == "conferences"@
        || k == "request_statuses"@
}

/// The fields only an event turns into standard properties.
pub open spec fn event_known(k: Seq<char>) -> bool {
    k == "duration"@
        || k == "transparency"@
}

/// The fields only a task turns into standard properties.
pub open spec fn task_known(k: Seq<char>) -> bool {
    k == "due"@
        || k == "completed"@
        || k == "estimated_duration"@
        || k == "percent_complete"@
}

/// The fields of a calendar record that are not extension properties.
pub open spec fn calendar_known(k: Seq<char>) -> bool {
    k == "type"@
        || k == "entries"@
        || k == "prod_id"@
        || k == "uid"@
        || k == "name"@
        || k == "description"@
        || k == "color"@
        || k == "url"@
        || k == "categories"@
        || k == "last_modified"@
        || k == "refresh_interval"@
        || k == "source"@
}

fn is_common_known(k: &str) -> (b: bool)
    ensures
        b == common_known(k@),
{
    str_eq(k, "type")
        || str_eq(k, "name")
        || str_eq(k, "uid")
        || str_eq(k, "title")
        || str_eq(k, "description")
        || str_eq(k, "start")
        || str_eq(k, "time_zone")
        || str_eq(k, "status")
        || str_eq(k, "priority")
        || str_eq(k, "location")
        || str_eq(k, "color")
        || str_eq(k, "categories")
        || str_eq(k, "dtstamp")
        || str_eq(k, "class")
        || str_eq(k, "created")
        || str_eq(k, "geo")
        || str_eq(k, "last_modified")
        || str_eq(k, "organizer")
        || str_eq(k, "sequence")
        || str_eq(k, "url")
        || str_eq(k, "recurrence_id")
        || str_eq(k, "recur")
        || str_eq(k, "exdates")
        || str_eq(k, "rdates")
        || str_eq(k, "attachments")
        || str_eq(k, "attendees")
        || str_eq(k, "comments")
        || str_eq(k, "contacts")
        || str_eq(k, "related_to")
        || str_eq(k, "resources")
        || str_eq(k, "images")
        || str_eq(k, "conferences")
        || str_eq(k, "request_statuses")
}

fn is_event_known(k: &str) -> (b: bool)
    ensures
        b == event_known(k@),
{
    str_eq(k, "duration")
        || str_eq(k, "transparency")
}

fn is_task_known(k: &str) -> (b: bool)
    ensures
        b == task_known(k@),
{
    str_eq(k, "due")
        || str_eq(k, "completed")
        || str_eq(k, "estimated_duration")
        || str_eq(k, "percent_complete")
}

fn is_calendar_known(k: &str) -> (b: bool)
    ensures
        b == calendar_known(k@),
{
    str_eq(k, "type")
        || str_eq(k, "entries")
        || str_eq(k, "prod_id")
        || str_eq(k, "uid")
        || str_eq(k, "name")
        || str_eq(k, "description")
        || str_eq(k, "color")
        || str_eq(k, "url")
        || str_eq(k, "categories")
        || str_eq(k, "last_modified")
        || str_eq(k, "refresh_interval")
        || str_eq(k, "source")
}


/// Which record a field belongs to.
#[derive(Debug, Clone, Copy, PartialEq, Eq)]
pub enum RecordKind {
    Calendar,
    Event,
    Task,
}

pub open spec fn known_field(kind: RecordKind, k: Seq<char>) -> bool {
    match kind {
        RecordKind::Calendar => calendar_known(k),
        RecordKind::Event => common_known(k) || event_known(k),
        RecordKind::Task => common_known(k) || task_known(k),
    }
}

fn is_known_field(kind: RecordKind, k: &str) -> (b: bool)
    ensures
        b == known_field(kind, k@),
{
    match kind {
        RecordKind::Calendar => is_calendar_known(k),
        RecordKind::Event => is_common_known(k) || is_event_known(k),
        RecordKind::Task => is_common_known(k) || is_task_known(k),
    }
}

/// The word a warning uses for a record.
pub open spec fn kind_label(kind: RecordKind) -> Seq<char> {
    match kind {
        RecordKind::Calendar => "calendar"@,
        RecordKind::Event => "event"@,
        RecordKind::Task => "task"@,
    }
}

/// The warning for a field that is neither known nor marked as an
/// extension.
pub open spec fn warning_text(k: Seq<char>, kind: RecordKind) -> Seq<char> {
    "unrecognised non-extension field '"@ + k + "' on "@ + kind_label(kind) + " record"@
}

/// The extension properties of a record's fields, in order: each field
/// that is not known, by its property name and written value.
pub open spec fn x_fields(fields: ImportRecordView, kind: RecordKind) -> Seq<(Seq<char>, XOutView)>
    decreases fields.len(),
{
    if fields.len() == 0 {
        seq![]
    } else {
        let p = x_fields(fields.drop_last(), kind);
        let (k, v) = fields.last();
        if known_field(kind, k) {
            p
        } else {
            p.push((dashes_for_underscores(uppercase(k)), x_out_of(v)))
        }
    }
}

/// The warnings for a record's fields, in order: one for each field that
/// is not known and does not begin with `x_`.
pub open spec fn field_warnings(fields: ImportRecordView, kind: RecordKind) -> Seq<Seq<char>>
    decreases fields.len(),
{
    if fields.len() == 0 {
        seq![]
    } else {
        let p = field_warnings(fields.drop_last(), kind);
        let k = fields.last().0;
        if known_field(kind, k) || crate::text::spec_starts_with(k, "x_"@) {
            p
        } else {
            p.push(warning_text(k, kind))
        }
    }
}

pub open spec fn x_views(v: Seq<(String, XOut)>) -> Seq<(Seq<char>, XOutView)> {
    v.map_values(|p: (String, XOut)| (p.0@, x_out_view(p.1)))
}

fn warning_for(k: &str, kind: RecordKind) -> (w: String)
    ensures
        w@ == warning_text(k@, kind),
{
    let mut out: Vec<char> = Vec::new();
    push_str(&mut out, "unrecognised non-extension field '");
    push_str(&mut out, k);
    push_str(&mut out, "' on ");
    match kind {
        RecordKind::Calendar => push_str(&mut out, "calendar"),
        RecordKind::Event => push_str(&mut out, "event"),
        RecordKind::Task => push_str(&mut out, "task"),
    }
    push_str(&mut out, " record");
    from_chars(out.as_slice())
}

/// The extension properties of a record's unknown fields, warning about
/// each such field that is not marked as an extension (`x_`).
pub fn handle_x_properties(record: &ImportRecord, kind: RecordKind, warnings: &mut Vec<String>) -> (xs: Vec<(String, XOut)>)
    ensures
        x_views(xs@) == x_fields(record@, kind),
        texts(final(warnings)@) == texts(old(warnings)@) + field_warnings(record@, kind),
{
    let ghost rv = record@;
    let ghost w0 = texts(warnings@);
    proof {
        crate::import_value::lemma_import_record_view(*record);
    }
    let mut xs: Vec<(String, XOut)> = Vec::new();
    assert(x_views(xs@) =~= x_fields(rv.take(0), kind));
    assert(texts(warnings@) =~= w0 + field_warnings(rv.take(0), kind));
    for i in 0..record.0.len()
        invariant
            rv == record@,
            rv.len() == record.0@.len(),
            forall|j: int| 0 <= j < record.0@.len() ==> #[trigger] rv[j] == (record.0@[j].0@, record.0@[j].1@),
            x_views(xs@) == x_fields(rv.take(i as int), kind),
            texts(warnings@) == w0 + field_warnings(rv.take(i as int), kind),
    {
        assert(rv.take(i + 1).drop_last() =~= rv.take(i as int));
        assert(rv.take(i + 1).last() == rv[i as int]);
        let key = &record.0[i].0;
        let ghost xb = xs@;
        let ghost wb = warnings@;
        if !is_known_field(kind, key.as_str()) {
            if !crate::text::starts_with(key.as_str(), "x_") {
                let w = warning_for(key.as_str(), kind);
                warnings.push(w);
                assert(texts(warnings@) =~= texts(wb).push(w@));
            }
            let name = crate::emit_fields::field_name_to_x_property(key.as_str());
            let x = import_value_to_ical_value(&record.0[i].1);
            xs.push((name, x));
            assert(x_views(xs@) =~= x_views(xb).push((name@, x_out_view(x))));
        }
    }
    assert(rv.take(record.0@.len() as int) =~= rv);
    xs
}

// ── Recurrence dates ───────────────────────────────────────────

/// The date-times among read dates, each with whether it is in UTC (a
/// named zone is not kept).
pub open spec fn rdate_times(d: Seq<(PlainDtod, ZoneView)>) -> Seq<(PlainDate, PlainTime, bool)>
    decreases d.len(),
{
    if d.len() == 0 {
        seq![]
    } else {
        let p = rdate_times(d.drop_last());
        match d.last().0 {
            PlainDtod::DateTime(x, t) => p.push((x, t, d.last().1 == ZoneView::Utc)),
            PlainDtod::Date(_) => p,
        }
    }
}

/// The dates among read dates.
pub open spec fn rdate_dates(d: Seq<(PlainDtod, ZoneView)>) -> Seq<PlainDate>
    decreases d.len(),
{
    if d.len() == 0 {
        seq![]
    } else {
        let p = rdate_dates(d.drop_last());
        match d.last().0 {
            PlainDtod::DateTime(..) => p,
            PlainDtod::Date(x) => p.push(x),
        }
    }
}

pub open spec fn nonempty<A>(s: Seq<A>) -> Option<Seq<A>> {
    if s.len() > 0 {
        Some(s)
    } else {
        None
    }
}

pub open spec fn opt_seq_of<A>(o: Option<Vec<A>>) -> Option<Seq<A>> {
    match o {
        Some(v) => Some(v@),
        None => None,
    }
}

/// The recurrence date-times of a record, where there is at least one.
pub open spec fn rdate_time_list(r: ImportRecordView) -> Option<Seq<(PlainDate, PlainTime, bool)>> {
    match list_field(r, "rdates"@) {
        Some(items) => nonempty(rdate_times(item_dts(items, text_field(r, "time_zone"@)))),
        None => None,
    }
}

/// The recurrence dates of a record, where there is at least one.
pub open spec fn rdate_date_list(r: ImportRecordView) -> Option<Seq<PlainDate>> {
    match list_field(r, "rdates"@) {
        Some(items) => nonempty(rdate_dates(item_dts(items, text_field(r, "time_zone"@)))),
        None => None,
    }
}

fn rdates_in(r: &ImportRecord) -> (out: (Option<Vec<(PlainDate, PlainTime, bool)>>, Option<Vec<PlainDate>>))
    ensures
        opt_seq_of(out.0) == rdate_time_list(r@),
        opt_seq_of(out.1) == rdate_date_list(r@),
{
    proof {
        reveal_strlit("rdates");
    }
    let all = match dts_of_field(r, "rdates") {
        Some(v) => v,
        None => return (None, None),
    };
    let ghost dv = dt_views(all@);
    let mut times: Vec<(PlainDate, PlainTime, bool)> = Vec::new();
    let mut dates: Vec<PlainDate> = Vec::new();
    assert(dv.take(0) =~= Seq::<(PlainDtod, ZoneView)>::empty());
    for i in 0..all.len()
        invariant
            dv == dt_views(all@),
            times@ == rdate_times(dv.take(i as int)),
            dates@ == rdate_dates(dv.take(i as int)),
    {
        assert(dv.take(i + 1).drop_last() =~= dv.take(i as int));
        assert(dv.take(i + 1).last() == (all@[i as int].0, all@[i as int].1@));
        match all[i].0 {
            PlainDtod::DateTime(d, t) => {
                let utc = matches!(all[i].1, DtZone::Utc);
                times.push((d, t, utc));
            },
            PlainDtod::Date(d) => {
                dates.push(d);
            },
        }
    }
    assert(dv.take(all@.len() as int) =~= dv);
    (
        if times.len() > 0 {
            Some(times)
        } else {
            None
        },
        if dates.len() > 0 {
            Some(dates)
        } else {
            None
        },
    )
}

// ── Colors ─────────────────────────────────────────────────────

/// Whether `Css3Color` (calendar-types, re-exported by calico) reads the
/// text as a color: one of the CSS3 color names, in any ASCII case.
pub uninterp spec fn css3_color_name(s: Seq<char>) -> bool;

/// Calls `str::parse::<calico::model::css::Css3Color>`. Its `FromStr` is
/// strum's `EnumString`, case-insensitive over the CSS3 names; the contract
/// names that set of texts and claims nothing else of it.
#[verifier::external_body]
fn is_css3_color(s: &str) -> (b: bool)
    ensures
        b == css3_color_name(s@),
{
    s.parse::<calico::model::css::Css3Color>().is_ok()
}

/// A color field, where its text names a color.
pub open spec fn color_field(r: ImportRecordView) -> Option<Seq<char>> {
    match text_field(r, "color"@) {
        Some(s) => if css3_color_name(s) {
            Some(s)
        } else {
            None
        },
        None => None,
    }
}

fn color_in(r: &ImportRecord) -> (c: Option<String>)
    ensures
        opt_text(c) == color_field(r@),
{
    match text_in(r, "color") {
        Some(s) => if is_css3_color(s.as_str()) {
            Some(s)
        } else {
            None
        },
        None => None,
    }
}

// ── Events and tasks ───────────────────────────────────────────

/// The properties an event or a task is written with. Where a property may
/// occur several times, each occurrence is an item.
pub struct IcalComponentOut {
    pub uid: Option<String>,
    pub summary: Option<String>,
    pub description: Option<String>,
    pub dtstart: Option<(PlainDtod, DtZone)>,
    pub status: Option<IcalStatus>,
    pub priority: Option<IcalPriority>,
    pub location: Option<String>,
    pub color: Option<String>,
    pub categories: Option<Vec<String>>,
    pub dtstamp: Option<(PlainDate, PlainTime)>,
    pub class: Option<IcalClass>,
    pub created: Option<(PlainDate, PlainTime)>,
    /// Latitude and longitude, as the texts the record gives.
    pub geo: Option<(String, String)>,
    pub last_modified: Option<(PlainDate, PlainTime)>,
    pub organizer: Option<String>,
    pub sequence: Option<i32>,
    pub url: Option<String>,
    pub recurrence_id: Option<(PlainDtod, DtZone)>,
    pub rrule: Option<PlainRRule>,
    pub exdates: Option<Vec<(PlainDtod, DtZone)>>,
    /// Recurrence date-times, each with whether it is in UTC.
    pub rdate_times: Option<Vec<(PlainDate, PlainTime, bool)>>,
    pub rdate_dates: Option<Vec<PlainDate>>,
    pub attachments: Option<Vec<PlainAttachment>>,
    pub attendees: Option<Vec<String>>,
    pub comments: Option<Vec<String>>,
    pub contacts: Option<Vec<String>>,
    pub related_to: Option<Vec<String>>,
    pub resources: Option<Vec<Vec<String>>>,
    pub images: Option<Vec<PlainAttachment>>,
    pub conferences: Option<Vec<String>>,
    pub request_statuses: Option<Vec<ExportRequestStatus>>,
    /// The duration of an event, or the estimated duration of a task.
    pub duration: Option<PlainDuration>,
    pub transp: Option<IcalTransp>,
    pub due: Option<(PlainDtod, DtZone)>,
    pub percent_complete: Option<u8>,
    pub completed: Option<(PlainDate, PlainTime)>,
    /// Extension properties: name and value, in field order.
    pub x_properties: Vec<(String, XOut)>,
}

/// A UTC date-time field.
pub open spec fn utc_field(r: ImportRecordView, k: Seq<char>) -> Option<(PlainDate, PlainTime)> {
    match key_lookup(r, k) {
        Some(v) => utc_datetime_of(v),
        None => None,
    }
}

/// A duration field.
pub open spec fn duration_field(r: ImportRecordView, k: Seq<char>) -> Option<PlainDuration> {
    match key_lookup(r, k) {
        Some(v) => duration_of(v),
        None => None,
    }
}

/// An integer value as `i32`, where it is one that fits.
pub open spec fn i32_of(v: ImportView) -> Option<i32> {
    match v {
        ImportView::Integer(n) => if n <= i32::MAX {
            Some(n as i32)
        } else {
            None
        },
        ImportView::SignedInteger(n) => if i32::MIN <= n <= i32::MAX {
            Some(n as i32)
        } else {
            None
        },
        _ => None,
    }
}

/// The classification a name stands for.
pub open spec fn class_for(c: IcalClass, s: Seq<char>) -> bool {
    if s == "public"@ {
        c == IcalClass::Public
    } else if s == "private"@ {
        c == IcalClass::Private
    } else if s == "confidential"@ {
        c == IcalClass::Confidential
    } else {
        c matches IcalClass::Unknown(u) && u@ == uppercase(s)
    }
}

/// The latitude and longitude texts of a `geo` record.
pub open spec fn geo_field(r: ImportRecordView) -> Option<(Seq<char>, Seq<char>)> {
    match key_lookup(r, "geo"@) {
        Some(ImportView::Record(g)) => match (text_field(g, "latitude"@), text_field(g, "longitude"@)) {
            (Some(a), Some(b)) => Some((a, b)),
            _ => None,
        },
        _ => None,
    }
}

pub open spec fn opt_pair(o: Option<(String, String)>) -> Option<(Seq<char>, Seq<char>)> {
    match o {
        Some((a, b)) => Some((a@, b@)),
        None => None,
    }
}

pub open spec fn opt_dts(o: Option<Vec<(PlainDtod, DtZone)>>) -> Option<Seq<(PlainDtod, ZoneView)>> {
    match o {
        Some(v) => Some(dt_views(v@)),
        None => None,
    }
}

/// The rule a `recur` record reads as.
pub open spec fn rrule_ok(o: Option<PlainRRule>, r: ImportRecordView) -> bool {
    match key_lookup(r, "recur"@) {
        Some(ImportView::Record(rr)) => match rrule_of(rr) {
            Some(v) => o matches Some(p) && rrule_view(p) == v,
            None => o is None,
        },
        _ => o is None,
    }
}

/// What every event and task takes from its record.
pub open spec fn common_properties(c: IcalComponentOut, r: ImportRecordView) -> bool {
    &&& opt_text(c.uid) == text_field(r, "uid"@)
    &&& opt_text(c.summary) == text_field(r, "title"@)
    &&& opt_text(c.description) == text_field(r, "description"@)
    &&& opt_dt_view(c.dtstart) == dt_field(r, "start"@)
    &&& c.status == match text_field(r, "status"@) {
        Some(s) => status_of(s),
        None => None,
    }
    &&& c.priority == match key_lookup(r, "priority"@) {
        Some(v) => Some(priority_of(v)),
        None => None,
    }
    &&& opt_text(c.location) == text_field(r, "location"@)
    &&& opt_text(c.color) == color_field(r)
    &&& opt_texts(c.categories) == text_list(r, "categories"@)
    &&& c.dtstamp == utc_field(r, "dtstamp"@)
    &&& match text_field(r, "class"@) {
        Some(s) => c.class matches Some(x) && class_for(x, s),
        None => c.class is None,
    }
    &&& c.created == utc_field(r, "created"@)
    &&& opt_pair(c.geo) == geo_field(r)
    &&& c.last_modified == utc_field(r, "last_modified"@)
    &&& opt_text(c.organizer) == text_field(r, "organizer"@)
    &&& c.sequence == match key_lookup(r, "sequence"@) {
        Some(v) => i32_of(v),
        None => None,
    }
    &&& opt_text(c.url) == text_field(r, "url"@)
    &&& opt_dt_view(c.recurrence_id) == dt_field(r, "recurrence_id"@)
    &&& rrule_ok(c.rrule, r)
    &&& opt_dts(c.exdates) == dt_list(r, "exdates"@)
    &&& opt_seq_of(c.rdate_times) == rdate_time_list(r)
    &&& opt_seq_of(c.rdate_dates) == rdate_date_list(r)
    &&& opt_attach_views(c.attachments) == attach_list(r, "attachments"@)
    &&& opt_texts(c.attendees) == text_list(r, "attendees"@)
    &&& opt_texts(c.comments) == text_list(r, "comments"@)
    &&& opt_texts(c.contacts) == text_list(r, "contacts"@)
    &&& opt_texts(c.related_to) == text_list(r, "related_to"@)
    &&& opt_groups(c.resources) == group_list(r)
    &&& opt_attach_views(c.images) == attach_list(r, "images"@)
    &&& opt_texts(c.conferences) == text_list(r, "conferences"@)
    &&& opt_rs_views(c.request_statuses) == status_list(r)
}

/// What an event takes from its record.
pub open spec fn event_properties(c: IcalComponentOut, r: ImportRecordView) -> bool {
    &&& common_properties(c, r)
    &&& c.duration == duration_field(r, "duration"@)
    &&& c.transp == match text_field(r, "transparency"@) {
        Some(s) => Some(transp_of(s)),
        None => None,
    }
    &&& c.due is None
    &&& c.percent_complete is None
    &&& c.completed is None
    &&& x_views(c.x_properties@) == x_fields(r, RecordKind::Event)
}

/// A percentage field: an integer of at most 100.
pub open spec fn percent_field(r: ImportRecordView) -> Option<u8> {
    match key_lookup(r, "percent_complete"@) {
        Some(v) => match u64_of(v) {
            Some(n) => if n <= 100 {
                Some(n as u8)
            } else {
                None
            },
            None => None,
        },
        None => None,
    }
}

/// What a task takes from its record.
pub open spec fn task_properties(c: IcalComponentOut, r: ImportRecordView) -> bool {
    &&& common_properties(c, r)
    &&& c.duration == duration_field(r, "estimated_duration"@)
    &&& c.transp is None
    &&& opt_dt_view(c.due) == dt_field(r, "due"@)
    &&& c.percent_complete == percent_field(r)
    &&& c.completed == utc_field(r, "completed"@)
    &&& x_views(c.x_properties@) == x_fields(r, RecordKind::Task)
}

fn utc_in(r: &ImportRecord, k: &str) -> (d: Option<(PlainDate, PlainTime)>)
    ensures
        d == utc_field(r@, k@),
{
    match r.get(k) {
        Some(v) => record_to_utc_datetime(v),
        None => None,
    }
}

fn duration_in(r: &ImportRecord, k: &str) -> (d: Option<PlainDuration>)
    ensures
        d == duration_field(r@, k@),
{
    match r.get(k) {
        Some(v) => record_to_signed_duration(v),
        None => None,
    }
}

fn geo_in(r: &ImportRecord) -> (g: Option<(String, String)>)
    ensures
        opt_pair(g) == geo_field(r@),
{
    match r.get("geo") {
        Some(ImportValue::Record(g)) => match (text_in(g, "latitude"), text_in(g, "longitude")) {
            (Some(a), Some(b)) => Some((a, b)),
            _ => None,
        },
        _ => None,
    }
}

fn class_in(r: &ImportRecord) -> (c: Option<IcalClass>)
    ensures
        match text_field(r@, "class"@) {
            Some(s) => c matches Some(x) && class_for(x, s),
            None => c is None,
        },
{
    match r.get("class") {
        Some(ImportValue::String(s)) => Some(str_to_class(s.as_str())),
        _ => None,
    }
}

fn rrule_in(r: &ImportRecord) -> (o: Option<PlainRRule>)
    ensures
        rrule_ok(o, r@),
{
    match r.get("recur") {
        Some(ImportValue::Record(rr)) => record_to_rrule(rr),
        _ => None,
    }
}

fn dt_list_in(r: &ImportRecord, k: &str) -> (o: Option<Vec<(PlainDtod, DtZone)>>)
    ensures
        opt_dts(o) == dt_list(r@, k@),
{
    match dts_of_field(r, k) {
        Some(v) => if v.len() > 0 {
            Some(v)
        } else {
            None
        },
        None => None,
    }
}

/// The properties every event and task takes from its record; those of
/// one kind only are left out.
fn common_component(record: &ImportRecord) -> (c: IcalComponentOut)
    ensures
        common_properties(c, record@),
        c.duration is None && c.transp is None && c.due is None,
        c.percent_complete is None && c.completed is None && c.x_properties@.len() == 0,
{
    let (rdate_times, rdate_dates) = rdates_in(record);
    IcalComponentOut {
        uid: text_in(record, "uid"),
        summary: text_in(record, "title"),
        description: text_in(record, "description"),
        dtstart: dt_in(record, "start"),
        status: match record.get("status") {
            Some(ImportValue::String(s)) => str_to_status(s.as_str()),
            _ => None,
        },
        priority: match record.get("priority") {
            Some(v) => Some(import_value_to_priority(v)),
            None => None,
        },
        location: text_in(record, "location"),
        color: color_in(record),
        categories: text_list_in(record, "categories"),
        dtstamp: utc_in(record, "dtstamp"),
        class: class_in(record),
        created: utc_in(record, "created"),
        geo: geo_in(record),
        last_modified: utc_in(record, "last_modified"),
        organizer: text_in(record, "organizer"),
        sequence: match record.get("sequence") {
            Some(v) => crate::emit_fields::import_value_to_i32(v),
            None => None,
        },
        url: text_in(record, "url"),
        recurrence_id: dt_in(record, "recurrence_id"),
        rrule: rrule_in(record),
        exdates: dt_list_in(record, "exdates"),
        rdate_times,
        rdate_dates,
        attachments: attachments_of_field(record, "attachments"),
        attendees: text_list_in(record, "attendees"),
        comments: text_list_in(record, "comments"),
        contacts: text_list_in(record, "contacts"),
        related_to: text_list_in(record, "related_to"),
        resources: groups_in(record),
        images: attachments_of_field(record, "images"),
        conferences: text_list_in(record, "conferences"),
        request_statuses: statuses_in(record),
        duration: None,
        transp: None,
        due: None,
        percent_complete: None,
        completed: None,
        x_properties: Vec::new(),
    }
}

/// The event a record describes, with a warning for each field that is
/// neither a known one nor marked as an extension.
pub fn build_event(record: &ImportRecord, warnings: &mut Vec<String>) -> (c: IcalComponentOut)
    ensures
        event_properties(c, record@),
        texts(final(warnings)@) == texts(old(warnings)@) + field_warnings(record@, RecordKind::Event),
{
    let mut c = common_component(record);
    c.duration = duration_in(record, "duration");
    c.transp = match record.get("transparency") {
        Some(ImportValue::String(s)) => Some(str_to_transp(s.as_str())),
        _ => None,
    };
    c.x_properties = handle_x_properties(record, RecordKind::Event, warnings);
    c
}

/// The task a record describes, with a warning for each field that is
/// neither a known one nor marked as an extension.
pub fn build_todo(record: &ImportRecord, warnings: &mut Vec<String>) -> (c: IcalComponentOut)
    ensures
        task_properties(c, record@),
        texts(final(warnings)@) == texts(old(warnings)@) + field_warnings(record@, RecordKind::Task),
{
    let mut c = common_component(record);
    c.due = dt_in(record, "due");
    c.duration = duration_in(record, "estimated_duration");
    c.percent_complete = match record.get("percent_complete") {
        Some(v) => match crate::emit_fields::import_value_to_u64(v) {
            Some(n) => if n <= 100 {
                Some(n as u8)
            } else {
                None
            },
            None => None,
        },
        None => None,
    };
    c.completed = utc_in(record, "completed");
    c.x_properties = handle_x_properties(record, RecordKind::Task, warnings);
    c
}

// ── Calendars ──────────────────────────────────────────────────

/// A component of an emitted calendar.
pub enum IcalEntryOut {
    Event(IcalComponentOut),
    Todo(IcalComponentOut),
}

/// A calendar as it is written: its own properties and its components.
pub struct IcalCalendarOut {
    /// The iCalendar version written (`VERSION`).
    pub version: String,
    pub prod_id: String,
    pub uid: Option<String>,
    pub name: Option<String>,
    pub description: Option<String>,
    pub color: Option<String>,
    pub url: Option<String>,
    pub categories: Option<Vec<String>>,
    pub last_modified: Option<(PlainDate, PlainTime)>,
    pub refresh_interval: Option<PlainDuration>,
    pub source: Option<String>,
    /// Extension properties: name and value, in field order.
    pub x_properties: Vec<(String, XOut)>,
    pub components: Vec<IcalEntryOut>,
}

/// The kind of entry a value describes: a record whose `type` is `event`
/// or `task`.
pub open spec fn entry_kind(v: ImportView) -> Option<RecordKind> {
    match v {
        ImportView::Record(r) => if text_field(r, "type"@) == Some("event"@) {
            Some(RecordKind::Event)
        } else if text_field(r, "type"@) == Some("task"@) {
            Some(RecordKind::Task)
        } else {
            None
        },
        _ => None,
    }
}

/// The entries that are emitted, in order, each with its kind and record.
pub open spec fn emitted(entries: Seq<ImportView>) -> Seq<(RecordKind, ImportRecordView)>
    decreases entries.len(),
{
    if entries.len() == 0 {
        seq![]
    } else {
        let p = emitted(entries.drop_last());
        match entry_kind(entries.last()) {
            Some(k) => p.push((k, entries.last()->Record_0)),
            None => p,
        }
    }
}

/// The warnings of emitted entries, in order.
pub open spec fn entry_warnings(es: Seq<(RecordKind, ImportRecordView)>) -> Seq<Seq<char>>
    decreases es.len(),
{
    if es.len() == 0 {
        seq![]
    } else {
        entry_warnings(es.drop_last()) + field_warnings(es.last().1, es.last().0)
    }
}

/// A component built from the record of an entry of its kind.
pub open spec fn component_for(c: IcalEntryOut, e: (RecordKind, ImportRecordView)) -> bool {
    match c {
        IcalEntryOut::Event(x) => e.0 == RecordKind::Event && event_properties(x, e.1),
        IcalEntryOut::Todo(x) => e.0 == RecordKind::Task && task_properties(x, e.1),
    }
}

/// The product identifier of a calendar record, `-//gnomon//EN` without one.
pub open spec fn prod_id_of(r: ImportRecordView) -> Seq<char> {
    match text_field(r, "prod_id"@) {
        Some(s) => s,
        None => "-//gnomon//EN"@,
    }
}

/// What a calendar takes from its record.
pub open spec fn calendar_properties(c: IcalCalendarOut, r: ImportRecordView) -> bool {
    &&& c.version@ == "2.0"@
    &&& c.prod_id@ == prod_id_of(r)
    &&& opt_text(c.uid) == text_field(r, "uid"@)
    &&& opt_text(c.name) == text_field(r, "name"@)
    &&& opt_text(c.description) == text_field(r, "description"@)
    &&& opt_text(c.color) == color_field(r)
    &&& opt_text(c.url) == text_field(r, "url"@)
    &&& opt_texts(c.categories) == text_list(r, "categories"@)
    &&& c.last_modified == utc_field(r, "last_modified"@)
    &&& c.refresh_interval == duration_field(r, "refresh_interval"@)
    &&& opt_text(c.source) == text_field(r, "source"@)
    &&& x_views(c.x_properties@) == x_fields(r, RecordKind::Calendar)
}

pub open spec fn entry_views(entries: Seq<ImportValue>) -> Seq<ImportView> {
    entries.map_values(|v: ImportValue| v@)
}

fn kind_of_entry(v: &ImportValue) -> (k: Option<RecordKind>)
    ensures
        k == entry_kind(v@),
{
    proof {
        reveal_strlit("type");
        reveal_strlit("event");
        reveal_strlit("task");
    }
    match v {
        ImportValue::Record(r) => match r.get("type") {
            Some(ImportValue::String(t)) => if str_eq(t.as_str(), "event") {
                Some(RecordKind::Event)
            } else if str_eq(t.as_str(), "task") {
                Some(RecordKind::Task)
            } else {
                None
            },
            _ => None,
        },
        _ => None,
    }
}

/// Calls `calico::model::string::Uid::new`. Its invariant is
/// `dizzy::trivial` and its error type `Infallible`, so it accepts every
/// text.
#[verifier::external_body]
fn check_uid(s: &str) -> (r: Result<(), String>)
    ensures
        r is Ok,
{
    match calico::model::string::Uid::new(s) {
        Ok(_) => Ok(()),
        Err(e) => Err(e.to_string()),
    }
}

/// The UID of a record, if it has one as text, checked as calico checks it;
/// a rejection is reported as `Invalid UID in ` and the record's kind.
fn check_record_uid(r: &ImportRecord, kind: &str) -> (res: Result<(), String>)
    ensures
        res is Ok,
{
    match text_in(r, "uid") {
        Some(u) => match check_uid(u.as_str()) {
            Ok(()) => Ok(()),
            Err(e) => {
                let mut m = crate::text::to_chars("Invalid UID in ");
                push_str(&mut m, kind);
                push_str(&mut m, ": ");
                push_str(&mut m, e.as_str());
                Err(from_chars(m.as_slice()))
            },
        },
        None => Ok(()),
    }
}

/// The calendar that a calendar record and its entries are written as:
/// each entry whose `type` is `event` or `task` becomes a component, in
/// order, and the other entries are skipped. Warnings come for the unknown
/// non-extension fields of the entries, then of the calendar. The version
/// written is `2.0`. The UIDs of the calendar and of its events and tasks
/// are checked as calico checks them, which accepts every text, so the
/// result is never an error.
pub fn emit_icalendar(calendar: &ImportRecord, entries: &[ImportValue], warnings: &mut Vec<String>) -> (r: Result<IcalCalendarOut, String>)
    ensures
        r is Ok,
        r matches Ok(c) ==> calendar_properties(c, calendar@) && c.components@.len() == emitted(
            entry_views(entries@),
        ).len() && (forall|i: int|
            0 <= i < c.components@.len() ==> component_for(
                #[trigger] c.components@[i],
                emitted(entry_views(entries@))[i],
            )),
        texts(final(warnings)@) == texts(old(warnings)@) + entry_warnings(
            emitted(entry_views(entries@)),
        ) + field_warnings(calendar@, RecordKind::Calendar),
{
    let ghost ev = entry_views(entries@);
    let ghost w0 = texts(warnings@);
    let mut components: Vec<IcalEntryOut> = Vec::new();
    assert(ev.take(0) =~= Seq::<ImportView>::empty());
    assert(texts(warnings@) =~= w0 + entry_warnings(emitted(ev.take(0))));
    for i in 0..entries.len()
        invariant
            ev == entry_views(entries@),
            ev.len() == entries@.len(),
            components@.len() == emitted(ev.take(i as int)).len(),
            forall|j: int|
                0 <= j < components@.len() ==> component_for(
                    #[trigger] components@[j],
                    emitted(ev.take(i as int))[j],
                ),
            texts(warnings@) == w0 + entry_warnings(emitted(ev.take(i as int))),
    {
        assert(ev.take(i + 1).drop_last() =~= ev.take(i as int));
        assert(ev.take(i + 1).last() == entries@[i as int]@);
        let ghost wb = texts(warnings@);
        let ghost before = components@;
        let ghost done = emitted(ev.take(i as int));
        match kind_of_entry(&entries[i]) {
            Some(RecordKind::Event) => {
                if let ImportValue::Record(r) = &entries[i] {
                    match check_record_uid(r, "event") {
                        Ok(()) => {},
                        Err(e) => return Err(e),
                    }
                    let e = build_event(r, warnings);
                    components.push(IcalEntryOut::Event(e));
                    assert(emitted(ev.take(i + 1)) == done.push((RecordKind::Event, r@)));
                    assert(done.push((RecordKind::Event, r@)).drop_last() =~= done);
                    assert(entry_warnings(done.push((RecordKind::Event, r@))) == entry_warnings(done)
                        + field_warnings(r@, RecordKind::Event));
                    assert(texts(warnings@) =~= w0 + entry_warnings(emitted(ev.take(i + 1))));
                    assert forall|j: int|
                        0 <= j < components@.len() implies component_for(
                        #[trigger] components@[j],
                        emitted(ev.take(i + 1))[j],
                    ) by {
                        if j < before.len() {
                            assert(components@[j] == before[j]);
                        }
                    }
                }
            },
            Some(RecordKind::Task) => {
                if let ImportValue::Record(r) = &entries[i] {
                    match check_record_uid(r, "todo") {
                        Ok(()) => {},
                        Err(e) => return Err(e),
                    }
                    let t = build_todo(r, warnings);
                    components.push(IcalEntryOut::Todo(t));
                    assert(emitted(ev.take(i + 1)) == done.push((RecordKind::Task, r@)));
                    assert(done.push((RecordKind::Task, r@)).drop_last() =~= done);
                    assert(entry_warnings(done.push((RecordKind::Task, r@))) == entry_warnings(done)
                        + field_warnings(r@, RecordKind::Task));
                    assert(texts(warnings@) =~= w0 + entry_warnings(emitted(ev.take(i + 1))));
                    assert forall|j: int|
                        0 <= j < components@.len() implies component_for(
                        #[trigger] components@[j],
                        emitted(ev.take(i + 1))[j],
                    ) by {
                        if j < before.len() {
                            assert(components@[j] == before[j]);
                        }
                    }
                }
            },
            _ => {
                assert(emitted(ev.take(i + 1)) == done);
            },
        }
    }
    assert(ev.take(entries@.len() as int) =~= ev);
    let ghost w1 = texts(warnings@);
    let prod_id = match text_in(calendar, "prod_id") {
        Some(p) => p,
        None => {
            let d = String::from_str("-//gnomon//EN");
            proof {
                reveal_strlit("-//gnomon//EN");
            }
            d
        },
    };
    match check_record_uid(calendar, "calendar") {
        Ok(()) => {},
        Err(e) => return Err(e),
    }
    let x_properties = handle_x_properties(calendar, RecordKind::Calendar, warnings);
    let version = String::from_str("2.0");
    proof {
        reveal_strlit("2.0");
    }
    Ok(IcalCalendarOut {
        version,
        prod_id,
        uid: text_in(calendar, "uid"),
        name: text_in(calendar, "name"),
        description: text_in(calendar, "description"),
        color: color_in(calendar),
        url: text_in(calendar, "url"),
        categories: text_list_in(calendar, "categories"),
        last_modified: utc_in(calendar, "last_modified"),
        refresh_interval: duration_in(calendar, "refresh_interval"),
        source: text_in(calendar, "source"),
        x_properties,
        components,
    })
}

// ── What every emitted record keeps ────────────────────────────

/// A field that is not a known one is carried as an extension property,
/// under its uppercase name with `-` for `_`, with its value as written.
pub proof fn lemma_unknown_field_carried(fields: ImportRecordView, kind: RecordKind, i: int)
    requires
        0 <= i < fields.len(),
        !known_field(kind, fields[i].0),
    ensures
        x_fields(fields, kind).contains(
            (dashes_for_underscores(uppercase(fields[i].0)), x_out_of(fields[i].1)),
        ),
    decreases fields.len(),
{
    let x = (dashes_for_underscores(uppercase(fields[i].0)), x_out_of(fields[i].1));
    if i == fields.len() - 1 {
        let p = x_fields(fields.drop_last(), kind);
        assert(x_fields(fields, kind) == p.push(x));
        assert(p.push(x)[p.len() as int] == x);
    } else {
        lemma_unknown_field_carried(fields.drop_last(), kind, i);
        let p = x_fields(fields.drop_last(), kind);
        let j = choose|j: int| 0 <= j < p.len() && p[j] == x;
        if known_field(kind, fields.last().0) {
            assert(x_fields(fields, kind) == p);
        } else {
            let q = p.push((dashes_for_underscores(uppercase(fields.last().0)), x_out_of(fields.last().1)));
            assert(x_fields(fields, kind) == q);
            assert(q[j] == x);
        }
    }
}

/// A record whose fields are all known gives no extension properties and
/// no warnings.
pub proof fn lemma_known_fields_only(fields: ImportRecordView, kind: RecordKind)
    requires
        forall|i: int| 0 <= i < fields.len() ==> known_field(kind, #[trigger] fields[i].0),
    ensures
        x_fields(fields, kind).len() == 0,
        field_warnings(fields, kind).len() == 0,
    decreases fields.len(),
{
    if fields.len() > 0 {
        assert forall|i: int| 0 <= i < fields.drop_last().len() implies known_field(
            kind,
            #[trigger] fields.drop_last()[i].0,
        ) by {
            assert(fields.drop_last()[i] == fields[i]);
        }
        lemma_known_fields_only(fields.drop_last(), kind);
        assert(known_field(kind, fields[fields.len() - 1].0));
    }
}

/// Fields marked as extensions (`x_`) never warn: a record whose fields are
/// each known or so marked gives no warnings.
pub proof fn lemma_marked_extensions_never_warn(fields: ImportRecordView, kind: RecordKind)
    requires
        forall|i: int|
            0 <= i < fields.len() ==> known_field(kind, #[trigger] fields[i].0)
                || crate::text::spec_starts_with(fields[i].0, "x_"@),
    ensures
        field_warnings(fields, kind).len() == 0,
    decreases fields.len(),
{
    if fields.len() > 0 {
        assert forall|i: int| 0 <= i < fields.drop_last().len() implies known_field(
            kind,
            #[trigger] fields.drop_last()[i].0,
        ) || crate::text::spec_starts_with(fields.drop_last()[i].0, "x_"@) by {
            assert(fields.drop_last()[i] == fields[i]);
        }
        lemma_marked_extensions_never_warn(fields.drop_last(), kind);
        assert(known_field(kind, fields[fields.len() - 1].0) || crate::text::spec_starts_with(
            fields[fields.len() - 1].0,
            "x_"@,
        ));
    }
}

// ── Reading back what was imported ─────────────────────────────

/// No entry is named `k`.
pub open spec fn names_avoid(s: Seq<(Seq<char>, ImportView)>, k: Seq<char>) -> bool {
    forall|i: int| 0 <= i < s.len() ==> #[trigger] s[i].0 != k
}

pub(crate) proof fn lemma_last_value_past(a: Seq<(Seq<char>, ImportView)>, b: Seq<(Seq<char>, ImportView)>, k: Seq<char>)
    requires
        names_avoid(b, k),
    ensures
        crate::export_values::last_value(a + b, k) == crate::export_values::last_value(a, k),
    decreases b.len(),
{
    if b.len() > 0 {
        assert((a + b).drop_last() =~= a + b.drop_last());
        assert((a + b).last() == b.last());
        assert(b.last().0 == b[b.len() - 1].0);
        assert(names_avoid(b.drop_last(), k)) by {
            assert forall|i: int| 0 <= i < b.drop_last().len() implies #[trigger] b.drop_last()[i].0 != k by {
                assert(b.drop_last()[i] == b[i]);
            }
        }
        lemma_last_value_past(a, b.drop_last(), k);
    }
}

/// Looking up a field of a record is not changed by inserting extension
/// properties of other names.
proof fn lemma_x_lookup(rec: ImportRecordView, xs: Seq<(Seq<char>, crate::ical_entries::PlainXValue)>, k: Seq<char>)
    requires
        crate::keyed::keys_sorted(rec),
        forall|i: int| 0 <= i < xs.len() ==> crate::ical_entries::x_field_name(crate::ical_import::lowercase(#[trigger] xs[i].0)) != k,
    ensures
        key_lookup(crate::ical_entries::with_x_properties(rec, xs), k) == key_lookup(rec, k),
        crate::keyed::keys_sorted(crate::ical_entries::with_x_properties(rec, xs)),
    decreases xs.len(),
{
    if xs.len() > 0 {
        assert forall|i: int| 0 <= i < xs.drop_last().len() implies crate::ical_entries::x_field_name(
            crate::ical_import::lowercase(#[trigger] xs.drop_last()[i].0),
        ) != k by {
            assert(xs.drop_last()[i] == xs[i]);
        }
        lemma_x_lookup(rec, xs.drop_last(), k);
        let last = xs.last();
        assert(last == xs[xs.len() - 1]);
        let inner = crate::ical_entries::with_x_properties(rec, xs.drop_last());
        crate::keyed::lemma_insert_lookup_other(
            inner,
            crate::ical_entries::x_field_name(crate::ical_import::lowercase(last.0)),
            crate::ical_entries::x_value(last.1),
            k,
        );
        crate::keyed::lemma_insert_sorted(
            inner,
            crate::ical_entries::x_field_name(crate::ical_import::lowercase(last.0)),
            crate::ical_entries::x_value(last.1),
        );
    }
}

pub(crate) proof fn lemma_str_entry_named(name: Seq<char>, o: Option<String>)
    ensures
        all_named(str_entry(name, o), name),
{
}

pub(crate) proof fn lemma_strings_entry_named(name: Seq<char>, o: Option<Vec<String>>)
    ensures
        all_named(strings_entry(name, o), name),
{
}

pub(crate) proof fn lemma_dt_entry_named(name: Seq<char>, o: Option<(PlainDate, PlainTime)>)
    ensures
        all_named(dt_entry(name, o), name),
{
}

proof fn lemma_priority_entry_named(d: crate::ical_entries::IcalComponent)
    ensures
        all_named(crate::ical_entries::priority_entry(d), "priority"@),
{
}

pub(crate) proof fn lemma_last_value_str(x: Seq<(Seq<char>, ImportView)>, k: Seq<char>, o: Option<String>)
    ensures
        crate::export_values::last_value(x + str_entry(k, o), k) == match o {
            Some(s) => Some(ImportView::String(s@)),
            None => crate::export_values::last_value(x, k),
        },
{
    match o {
        Some(s) => {
            assert((x + str_entry(k, o)).last() == (k, ImportView::String(s@)));
        },
        None => {
            assert(x + str_entry(k, o) =~= x);
        },
    }
}

#[verifier::spinoff_prover]
proof fn lemma_event_uid_tail(d: crate::ical_entries::IcalComponent)
    ensures
        crate::export_values::last_value(crate::ical_entries::event_fields(d), "uid"@) == crate::export_values::last_value(seq![("type"@, ImportView::String("event"@))] + str_entry("uid"@, d.uid), "uid"@),
{
    reveal_strlit("type");
    reveal_strlit("uid");
    reveal_strlit("title");
    reveal_strlit("description");
    reveal_strlit("start");
    reveal_strlit("time_zone");
    reveal_strlit("duration");
    reveal_strlit("status");
    reveal_strlit("priority");
    reveal_strlit("location");
    reveal_strlit("color");
    reveal_strlit("categories");
    reveal_strlit("dtstamp");
    reveal_strlit("class");
    reveal_strlit("created");
    reveal_strlit("geo");
    reveal_strlit("last_modified");
    reveal_strlit("organizer");
    reveal_strlit("sequence");
    reveal_strlit("transparency");
    reveal_strlit("url");
    reveal_strlit("recurrence_id");
    reveal_strlit("recur");
    reveal_strlit("rdates");
    reveal_strlit("exdates");
    reveal_strlit("attachments");
    reveal_strlit("attendees");
    reveal_strlit("comments");
    reveal_strlit("contacts");
    reveal_strlit("related_to");
    reveal_strlit("resources");
    reveal_strlit("images");
    reveal_strlit("conferences");
    reveal_strlit("request_statuses");
    assert("type"@.len() == 4);
    assert("uid"@.len() == 3);
    assert("title"@.len() == 5);
    assert("description"@.len() == 11);
    assert("start"@.len() == 5);
    assert("time_zone"@.len() == 9);
    assert("duration"@.len() == 8);
    assert("status"@.len() == 6);
    assert("priority"@.len() == 8);
    assert("location"@.len() == 8);
    assert("color"@.len() == 5);
    assert("categories"@.len() == 10);
    assert("dtstamp"@.len() == 7);
    assert("class"@.len() == 5);
    assert("created"@.len() == 7);
    assert("geo"@.len() == 3);
    assert("last_modified"@.len() == 13);
    assert("organizer"@.len() == 9);
    assert("sequence"@.len() == 8);
    assert("transparency"@.len() == 12);
    assert("url"@.len() == 3);
    assert("recurrence_id"@.len() == 13);
    assert("recur"@.len() == 5);
    assert("rdates"@.len() == 6);
    assert("exdates"@.len() == 7);
    assert("attachments"@.len() == 11);
    assert("attendees"@.len() == 9);
    assert("comments"@.len() == 8);
    assert("contacts"@.len() == 8);
    assert("related_to"@.len() == 10);
    assert("resources"@.len() == 9);
    assert("images"@.len() == 6);
    assert("conferences"@.len() == 11);
    assert("request_statuses"@.len() == 16);
    assert("geo"@[0] == 'g' && "uid"@[0] == 'u');
    assert("url"@[1] == 'r' && "uid"@[1] == 'i');
    crate::ical_entries::lemma_entry_names(d);
    let p0 = seq![("type"@, ImportView::String("event"@))];
    let p1 = p0 + str_entry("uid"@, d.uid);
    let p2 = p1 + str_entry("title"@, d.summary);
    let p3 = p2 + str_entry("description"@, d.description);
    let p4 = p3 + start_entries(d);
    let p5 = p4 + event_duration_entry(d);
    let p6 = p5 + status_entry(d);
    let p7 = p6 + priority_entry(d);
    let p8 = p7 + str_entry("location"@, d.location);
    let p9 = p8 + str_entry("color"@, d.color);
    let p10 = p9 + flat_strings_entry("categories"@, d.categories);
    let p11 = p10 + dt_entry("dtstamp"@, d.dtstamp);
    let p12 = p11 + class_entry(d);
    let p13 = p12 + dt_entry("created"@, d.created);
    let p14 = p13 + geo_entry(d);
    let p15 = p14 + dt_entry("last_modified"@, d.last_modified);
    let p16 = p15 + str_entry("organizer"@, d.organizer);
    let p17 = p16 + sequence_entry(d);
    let p18 = p17 + transp_entry(d);
    let p19 = p18 + str_entry("url"@, d.url);
    let p20 = p19 + dtod_entry("recurrence_id"@, d.recurrence_id);
    let p21 = p20 + rrule_entry(d);
    let p22 = p21 + flat_dtods_entry("rdates"@, d.rdates);
    let p23 = p22 + dtods_entry("exdates"@, d.exdates);
    let p24 = p23 + attachments_entry("attachments"@, d.attachments);
    let p25 = p24 + strings_entry("attendees"@, d.attendees);
    let p26 = p25 + strings_entry("comments"@, d.comments);
    let p27 = p26 + strings_entry("contacts"@, d.contacts);
    let p28 = p27 + strings_entry("related_to"@, d.related_to);
    let p29 = p28 + nested_strings_entry("resources"@, d.resources);
    let p30 = p29 + attachments_entry("images"@, d.images);
    let p31 = p30 + strings_entry("conferences"@, d.conferences);
    let p32 = p31 + request_statuses_entry(d.request_statuses);
    assert(crate::ical_entries::event_fields(d) == p32);
    lemma_last_value_past(p31, request_statuses_entry(d.request_statuses), "uid"@);
    lemma_strings_entry_named("conferences"@, d.conferences);
    lemma_last_value_past(p30, strings_entry("conferences"@, d.conferences), "uid"@);
    crate::ical_entries::lemma_named_entries("images"@, d);
    lemma_last_value_past(p29, attachments_entry("images"@, d.images), "uid"@);
    crate::ical_entries::lemma_named_entries("resources"@, d);
    lemma_last_value_past(p28, nested_strings_entry("resources"@, d.resources), "uid"@);
    lemma_strings_entry_named("related_to"@, d.related_to);
    lemma_last_value_past(p27, strings_entry("related_to"@, d.related_to), "uid"@);
    lemma_strings_entry_named("contacts"@, d.contacts);
    lemma_last_value_past(p26, strings_entry("contacts"@, d.contacts), "uid"@);
    lemma_strings_entry_named("comments"@, d.comments);
    lemma_last_value_past(p25, strings_entry("comments"@, d.comments), "uid"@);
    lemma_strings_entry_named("attendees"@, d.attendees);
    lemma_last_value_past(p24, strings_entry("attendees"@, d.attendees), "uid"@);
    crate::ical_entries::lemma_named_entries("attachments"@, d);
    lemma_last_value_past(p23, attachments_entry("attachments"@, d.attachments), "uid"@);
    crate::ical_entries::lemma_named_entries("exdates"@, d);
    lemma_last_value_past(p22, dtods_entry("exdates"@, d.exdates), "uid"@);
    crate::ical_entries::lemma_named_entries("rdates"@, d);
    lemma_last_value_past(p21, flat_dtods_entry("rdates"@, d.rdates), "uid"@);
    lemma_last_value_past(p20, rrule_entry(d), "uid"@);
    crate::ical_entries::lemma_named_entries("recurrence_id"@, d);
    lemma_last_value_past(p19, dtod_entry("recurrence_id"@, d.recurrence_id), "uid"@);
    lemma_str_entry_named("url"@, d.url);
    lemma_last_value_past(p18, str_entry("url"@, d.url), "uid"@);
    lemma_last_value_past(p17, transp_entry(d), "uid"@);
    lemma_last_value_past(p16, sequence_entry(d), "uid"@);
    lemma_str_entry_named("organizer"@, d.organizer);
    lemma_last_value_past(p15, str_entry("organizer"@, d.organizer), "uid"@);
    lemma_dt_entry_named("last_modified"@, d.last_modified);
    lemma_last_value_past(p14, dt_entry("last_modified"@, d.last_modified), "uid"@);
    lemma_last_value_past(p13, geo_entry(d), "uid"@);
    lemma_dt_entry_named("created"@, d.created);
    lemma_last_value_past(p12, dt_entry("created"@, d.created), "uid"@);
    lemma_last_value_past(p11, class_entry(d), "uid"@);
    lemma_dt_entry_named("dtstamp"@, d.dtstamp);
    lemma_last_value_past(p10, dt_entry("dtstamp"@, d.dtstamp), "uid"@);
    crate::ical_entries::lemma_named_entries("categories"@, d);
    lemma_last_value_past(p9, flat_strings_entry("categories"@, d.categories), "uid"@);
    lemma_str_entry_named("color"@, d.color);
    lemma_last_value_past(p8, str_entry("color"@, d.color), "uid"@);
    lemma_str_entry_named("location"@, d.location);
    lemma_last_value_past(p7, str_entry("location"@, d.location), "uid"@);
    lemma_priority_entry_named(d);
    lemma_last_value_past(p6, priority_entry(d), "uid"@);
    lemma_last_value_past(p5, status_entry(d), "uid"@);
    lemma_last_value_past(p4, event_duration_entry(d), "uid"@);
    lemma_last_value_past(p3, start_entries(d), "uid"@);
    lemma_str_entry_named("description"@, d.description);
    lemma_last_value_past(p2, str_entry("description"@, d.description), "uid"@);
    lemma_str_entry_named("title"@, d.summary);
    lemma_last_value_past(p1, str_entry("title"@, d.summary), "uid"@);
}

#[verifier::spinoff_prover]
proof fn lemma_event_uid_head(d: crate::ical_entries::IcalComponent)
    ensures
        crate::export_values::last_value(seq![("type"@, ImportView::String("event"@))], "uid"@) is None,
{
    reveal_strlit("type");
    reveal_strlit("uid");
    reveal_strlit("title");
    reveal_strlit("description");
    reveal_strlit("start");
    reveal_strlit("time_zone");
    reveal_strlit("duration");
    reveal_strlit("status");
    reveal_strlit("priority");
    reveal_strlit("location");
    reveal_strlit("color");
    reveal_strlit("categories");
    reveal_strlit("dtstamp");
    reveal_strlit("class");
    reveal_strlit("created");
    reveal_strlit("geo");
    reveal_strlit("last_modified");
    reveal_strlit("organizer");
    reveal_strlit("sequence");
    reveal_strlit("transparency");
    reveal_strlit("url");
    reveal_strlit("recurrence_id");
    reveal_strlit("recur");
    reveal_strlit("rdates");
    reveal_strlit("exdates");
    reveal_strlit("attachments");
    reveal_strlit("attendees");
    reveal_strlit("comments");
    reveal_strlit("contacts");
    reveal_strlit("related_to");
    reveal_strlit("resources");
    reveal_strlit("images");
    reveal_strlit("conferences");
    reveal_strlit("request_statuses");
    assert("type"@.len() == 4);
    assert("uid"@.len() == 3);
    assert("title"@.len() == 5);
    assert("description"@.len() == 11);
    assert("start"@.len() == 5);
    assert("time_zone"@.len() == 9);
    assert("duration"@.len() == 8);
    assert("status"@.len() == 6);
    assert("priority"@.len() == 8);
    assert("location"@.len() == 8);
    assert("color"@.len() == 5);
    assert("categories"@.len() == 10);
    assert("dtstamp"@.len() == 7);
    assert("class"@.len() == 5);
    assert("created"@.len() == 7);
    assert("geo"@.len() == 3);
    assert("last_modified"@.len() == 13);
    assert("organizer"@.len() == 9);
    assert("sequence"@.len() == 8);
    assert("transparency"@.len() == 12);
    assert("url"@.len() == 3);
    assert("recurrence_id"@.len() == 13);
    assert("recur"@.len() == 5);
    assert("rdates"@.len() == 6);
    assert("exdates"@.len() == 7);
    assert("attachments"@.len() == 11);
    assert("attendees"@.len() == 9);
    assert("comments"@.len() == 8);
    assert("contacts"@.len() == 8);
    assert("related_to"@.len() == 10);
    assert("resources"@.len() == 9);
    assert("images"@.len() == 6);
    assert("conferences"@.len() == 11);
    assert("request_statuses"@.len() == 16);
    assert("geo"@[0] == 'g' && "uid"@[0] == 'u');
    assert("url"@[1] == 'r' && "uid"@[1] == 'i');
    crate::ical_entries::lemma_entry_names(d);
    let p0 = seq![("type"@, ImportView::String("event"@))];
    assert(p0.last().0 != "uid"@);
    assert(p0.drop_last() =~= Seq::<(Seq<char>, ImportView)>::empty());
    assert(crate::export_values::last_value(p0.drop_last(), "uid"@) is None);
    assert(crate::export_values::last_value(p0, "uid"@) is None);
}

proof fn lemma_event_field_uid(d: crate::ical_entries::IcalComponent)
    ensures
        text_of_opt(crate::export_values::last_value(crate::ical_entries::event_fields(d), "uid"@)) == opt_text(d.uid),
{
    lemma_event_uid_tail(d);
    lemma_event_uid_head(d);
    lemma_last_value_str(seq![("type"@, ImportView::String("event"@))], "uid"@, d.uid);
}

#[verifier::spinoff_prover]
proof fn lemma_event_title_tail(d: crate::ical_entries::IcalComponent)
    ensures
        crate::export_values::last_value(crate::ical_entries::event_fields(d), "title"@) == crate::export_values::last_value(seq![("type"@, ImportView::String("event"@))] + str_entry("uid"@, d.uid) + str_entry("title"@, d.summary), "title"@),
{
    reveal_strlit("type");
    reveal_strlit("uid");
    reveal_strlit("title");
    reveal_strlit("description");
    reveal_strlit("start");
    reveal_strlit("time_zone");
    reveal_strlit("duration");
    reveal_strlit("status");
    reveal_strlit("priority");
    reveal_strlit("location");
    reveal_strlit("color");
    reveal_strlit("categories");
    reveal_strlit("dtstamp");
    reveal_strlit("class");
    reveal_strlit("created");
    reveal_strlit("geo");
    reveal_strlit("last_modified");
    reveal_strlit("organizer");
    reveal_strlit("sequence");
    reveal_strlit("transparency");
    reveal_strlit("url");
    reveal_strlit("recurrence_id");
    reveal_strlit("recur");
    reveal_strlit("rdates");
    reveal_strlit("exdates");
    reveal_strlit("attachments");
    reveal_strlit("attendees");
    reveal_strlit("comments");
    reveal_strlit("contacts");
    reveal_strlit("related_to");
    reveal_strlit("resources");
    reveal_strlit("images");
    reveal_strlit("conferences");
    reveal_strlit("request_statuses");
    assert("type"@.len() == 4);
    assert("uid"@.len() == 3);
    assert("title"@.len() == 5);
    assert("description"@.len() == 11);
    assert("start"@.len() == 5);
    assert("time_zone"@.len() == 9);
    assert("duration"@.len() == 8);
    assert("status"@.len() == 6);
    assert("priority"@.len() == 8);
    assert("location"@.len() == 8);
    assert("color"@.len() == 5);
    assert("categories"@.len() == 10);
    assert("dtstamp"@.len() == 7);
    assert("class"@.len() == 5);
    assert("created"@.len() == 7);
    assert("geo"@.len() == 3);
    assert("last_modified"@.len() == 13);
    assert("organizer"@.len() == 9);
    assert("sequence"@.len() == 8);
    assert("transparency"@.len() == 12);
    assert("url"@.len() == 3);
    assert("recurrence_id"@.len() == 13);
    assert("recur"@.len() == 5);
    assert("rdates"@.len() == 6);
    assert("exdates"@.len() == 7);
    assert("attachments"@.len() == 11);
    assert("attendees"@.len() == 9);
    assert("comments"@.len() == 8);
    assert("contacts"@.len() == 8);
    assert("related_to"@.len() == 10);
    assert("resources"@.len() == 9);
    assert("images"@.len() == 6);
    assert("conferences"@.len() == 11);
    assert("request_statuses"@.len() == 16);
    assert("start"@[0] == 's' && "title"@[0] == 't');
    assert("color"@[0] == 'c' && "title"@[0] == 't');
    assert("class"@[0] == 'c' && "title"@[0] == 't');
    assert("recur"@[0] == 'r' && "title"@[0] == 't');
    crate::ical_entries::lemma_entry_names(d);
    let p0 = seq![("type"@, ImportView::String("event"@))];
    let p1 = p0 + str_entry("uid"@, d.uid);
    let p2 = p1 + str_entry("title"@, d.summary);
    let p3 = p2 + str_entry("description"@, d.description);
    let p4 = p3 + start_entries(d);
    let p5 = p4 + event_duration_entry(d);
    let p6 = p5 + status_entry(d);
    let p7 = p6 + priority_entry(d);
    let p8 = p7 + str_entry("location"@, d.location);
    let p9 = p8 + str_entry("color"@, d.color);
    let p10 = p9 + flat_strings_entry("categories"@, d.categories);
    let p11 = p10 + dt_entry("dtstamp"@, d.dtstamp);
    let p12 = p11 + class_entry(d);
    let p13 = p12 + dt_entry("created"@, d.created);
    let p14 = p13 + geo_entry(d);
    let p15 = p14 + dt_entry("last_modified"@, d.last_modified);
    let p16 = p15 + str_entry("organizer"@, d.organizer);
    let p17 = p16 + sequence_entry(d);
    let p18 = p17 + transp_entry(d);
    let p19 = p18 + str_entry("url"@, d.url);
    let p20 = p19 + dtod_entry("recurrence_id"@, d.recurrence_id);
    let p21 = p20 + rrule_entry(d);
    let p22 = p21 + flat_dtods_entry("rdates"@, d.rdates);
    let p23 = p22 + dtods_entry("exdates"@, d.exdates);
    let p24 = p23 + attachments_entry("attachments"@, d.attachments);
    let p25 = p24 + strings_entry("attendees"@, d.attendees);
    let p26 = p25 + strings_entry("comments"@, d.comments);
    let p27 = p26 + strings_entry("contacts"@, d.contacts);
    let p28 = p27 + strings_entry("related_to"@, d.related_to);
    let p29 = p28 + nested_strings_entry("resources"@, d.resources);
    let p30 = p29 + attachments_entry("images"@, d.images);
    let p31 = p30 + strings_entry("conferences"@, d.conferences);
    let p32 = p31 + request_statuses_entry(d.request_statuses);
    assert(crate::ical_entries::event_fields(d) == p32);
    lemma_last_value_past(p31, request_statuses_entry(d.request_statuses), "title"@);
    lemma_strings_entry_named("conferences"@, d.conferences);
    lemma_last_value_past(p30, strings_entry("conferences"@, d.conferences), "title"@);
    crate::ical_entries::lemma_named_entries("images"@, d);
    lemma_last_value_past(p29, attachments_entry("images"@, d.images), "title"@);
    crate::ical_entries::lemma_named_entries("resources"@, d);
    lemma_last_value_past(p28, nested_strings_entry("resources"@, d.resources), "title"@);
    lemma_strings_entry_named("related_to"@, d.related_to);
    lemma_last_value_past(p27, strings_entry("related_to"@, d.related_to), "title"@);
    lemma_strings_entry_named("contacts"@, d.contacts);
    lemma_last_value_past(p26, strings_entry("contacts"@, d.contacts), "title"@);
    lemma_strings_entry_named("comments"@, d.comments);
    lemma_last_value_past(p25, strings_entry("comments"@, d.comments), "title"@);
    lemma_strings_entry_named("attendees"@, d.attendees);
    lemma_last_value_past(p24, strings_entry("attendees"@, d.attendees), "title"@);
    crate::ical_entries::lemma_named_entries("attachments"@, d);
    lemma_last_value_past(p23, attachments_entry("attachments"@, d.attachments), "title"@);
    crate::ical_entries::lemma_named_entries("exdates"@, d);
    lemma_last_value_past(p22, dtods_entry("exdates"@, d.exdates), "title"@);
    crate::ical_entries::lemma_named_entries("rdates"@, d);
    lemma_last_value_past(p21, flat_dtods_entry("rdates"@, d.rdates), "title"@);
    lemma_last_value_past(p20, rrule_entry(d), "title"@);
    crate::ical_entries::lemma_named_entries("recurrence_id"@, d);
    lemma_last_value_past(p19, dtod_entry("recurrence_id"@, d.recurrence_id), "title"@);
    lemma_str_entry_named("url"@, d.url);
    lemma_last_value_past(p18, str_entry("url"@, d.url), "title"@);
    lemma_last_value_past(p17, transp_entry(d), "title"@);
    lemma_last_value_past(p16, sequence_entry(d), "title"@);
    lemma_str_entry_named("organizer"@, d.organizer);
    lemma_last_value_past(p15, str_entry("organizer"@, d.organizer), "title"@);
    lemma_dt_entry_named("last_modified"@, d.last_modified);
    lemma_last_value_past(p14, dt_entry("last_modified"@, d.last_modified), "title"@);
    lemma_last_value_past(p13, geo_entry(d), "title"@);
    lemma_dt_entry_named("created"@, d.created);
    lemma_last_value_past(p12, dt_entry("created"@, d.created), "title"@);
    lemma_last_value_past(p11, class_entry(d), "title"@);
    lemma_dt_entry_named("dtstamp"@, d.dtstamp);
    lemma_last_value_past(p10, dt_entry("dtstamp"@, d.dtstamp), "title"@);
    crate::ical_entries::lemma_named_entries("categories"@, d);
    lemma_last_value_past(p9, flat_strings_entry("categories"@, d.categories), "title"@);
    lemma_str_entry_named("color"@, d.color);
    lemma_last_value_past(p8, str_entry("color"@, d.color), "title"@);
    lemma_str_entry_named("location"@, d.location);
    lemma_last_value_past(p7, str_entry("location"@, d.location), "title"@);
    lemma_priority_entry_named(d);
    lemma_last_value_past(p6, priority_entry(d), "title"@);
    lemma_last_value_past(p5, status_entry(d), "title"@);
    lemma_last_value_past(p4, event_duration_entry(d), "title"@);
    lemma_last_value_past(p3, start_entries(d), "title"@);
    lemma_str_entry_named("description"@, d.description);
    lemma_last_value_past(p2, str_entry("description"@, d.description), "title"@);
}

#[verifier::spinoff_prover]
proof fn lemma_event_title_head(d: crate::ical_entries::IcalComponent)
    ensures
        crate::export_values::last_value(seq![("type"@, ImportView::String("event"@))] + str_entry("uid"@, d.uid), "title"@) is None,
{
    reveal_strlit("type");
    reveal_strlit("uid");
    reveal_strlit("title");
    reveal_strlit("description");
    reveal_strlit("start");
    reveal_strlit("time_zone");
    reveal_strlit("duration");
    reveal_strlit("status");
    reveal_strlit("priority");
    reveal_strlit("location");
    reveal_strlit("color");
    reveal_strlit("categories");
    reveal_strlit("dtstamp");
    reveal_strlit("class");
    reveal_strlit("created");
    reveal_strlit("geo");
    reveal_strlit("last_modified");
    reveal_strlit("organizer");
    reveal_strlit("sequence");
    reveal_strlit("transparency");
    reveal_strlit("url");
    reveal_strlit("recurrence_id");
    reveal_strlit("recur");
    reveal_strlit("rdates");
    reveal_strlit("exdates");
    reveal_strlit("attachments");
    reveal_strlit("attendees");
    reveal_strlit("comments");
    reveal_strlit("contacts");
    reveal_strlit("related_to");
    reveal_strlit("resources");
    reveal_strlit("images");
    reveal_strlit("conferences");
    reveal_strlit("request_statuses");
    assert("type"@.len() == 4);
    assert("uid"@.len() == 3);
    assert("title"@.len() == 5);
    assert("description"@.len() == 11);
    assert("start"@.len() == 5);
    assert("time_zone"@.len() == 9);
    assert("duration"@.len() == 8);
    assert("status"@.len() == 6);
    assert("priority"@.len() == 8);
    assert("location"@.len() == 8);
    assert("color"@.len() == 5);
    assert("categories"@.len() == 10);
    assert("dtstamp"@.len() == 7);
    assert("class"@.len() == 5);
    assert("created"@.len() == 7);
    assert("geo"@.len() == 3);
    assert("last_modified"@.len() == 13);
    assert("organizer"@.len() == 9);
    assert("sequence"@.len() == 8);
    assert("transparency"@.len() == 12);
    assert("url"@.len() == 3);
    assert("recurrence_id"@.len() == 13);
    assert("recur"@.len() == 5);
    assert("rdates"@.len() == 6);
    assert("exdates"@.len() == 7);
    assert("attachments"@.len() == 11);
    assert("attendees"@.len() == 9);
    assert("comments"@.len() == 8);
    assert("contacts"@.len() == 8);
    assert("related_to"@.len() == 10);
    assert("resources"@.len() == 9);
    assert("images"@.len() == 6);
    assert("conferences"@.len() == 11);
    assert("request_statuses"@.len() == 16);
    assert("start"@[0] == 's' && "title"@[0] == 't');
    assert("color"@[0] == 'c' && "title"@[0] == 't');
    assert("class"@[0] == 'c' && "title"@[0] == 't');
    assert("recur"@[0] == 'r' && "title"@[0] == 't');
    crate::ical_entries::lemma_entry_names(d);
    let p0 = seq![("type"@, ImportView::String("event"@))];
    let p1 = p0 + str_entry("uid"@, d.uid);
    lemma_str_entry_named("uid"@, d.uid);
    lemma_last_value_past(p0, str_entry("uid"@, d.uid), "title"@);
    assert(p0.last().0 != "title"@);
    assert(p0.drop_last() =~= Seq::<(Seq<char>, ImportView)>::empty());
    assert(crate::export_values::last_value(p0.drop_last(), "title"@) is None);
    assert(crate::export_values::last_value(p0, "title"@) is None);
}

proof fn lemma_event_field_title(d: crate::ical_entries::IcalComponent)
    ensures
        text_of_opt(crate::export_values::last_value(crate::ical_entries::event_fields(d), "title"@)) == opt_text(d.summary),
{
    lemma_event_title_tail(d);
    lemma_event_title_head(d);
    lemma_last_value_str(seq![("type"@, ImportView::String("event"@))] + str_entry("uid"@, d.uid), "title"@, d.summary);
}

#[verifier::spinoff_prover]
proof fn lemma_event_description_tail(d: crate::ical_entries::IcalComponent)
    ensures
        crate::export_values::last_value(crate::ical_entries::event_fields(d), "description"@) == crate::export_values::last_value(seq![("type"@, ImportView::String("event"@))] + str_entry("uid"@, d.uid) + str_entry("title"@, d.summary) + str_entry("description"@, d.description), "description"@),
{
    reveal_strlit("type");
    reveal_strlit("uid");
    reveal_strlit("title");
    reveal_strlit("description");
    reveal_strlit("start");
    reveal_strlit("time_zone");
    reveal_strlit("duration");
    reveal_strlit("status");
    reveal_strlit("priority");
    reveal_strlit("location");
    reveal_strlit("color");
    reveal_strlit("categories");
    reveal_strlit("dtstamp");
    reveal_strlit("class");
    reveal_strlit("created");
    reveal_strlit("geo");
    reveal_strlit("last_modified");
    reveal_strlit("organizer");
    reveal_strlit("sequence");
    reveal_strlit("transparency");
    reveal_strlit("url");
    reveal_strlit("recurrence_id");
    reveal_strlit("recur");
    reveal_strlit("rdates");
    reveal_strlit("exdates");
    reveal_strlit("attachments");
    reveal_strlit("attendees");
    reveal_strlit("comments");
    reveal_strlit("contacts");
    reveal_strlit("related_to");
    reveal_strlit("resources");
    reveal_strlit("images");
    reveal_strlit("conferences");
    reveal_strlit("request_statuses");
    assert("type"@.len() == 4);
    assert("uid"@.len() == 3);
    assert("title"@.len() == 5);
    assert("description"@.len() == 11);
    assert("start"@.len() == 5);
    assert("time_zone"@.len() == 9);
    assert("duration"@.len() == 8);
    assert("status"@.len() == 6);
    assert("priority"@.len() == 8);
    assert("location"@.len() == 8);
    assert("color"@.len() == 5);
    assert("categories"@.len() == 10);
    assert("dtstamp"@.len() == 7);
    assert("class"@.len() == 5);
    assert("created"@.len() == 7);
    assert("geo"@.len() == 3);
    assert("last_modified"@.len() == 13);
    assert("organizer"@.len() == 9);
    assert("sequence"@.len() == 8);
    assert("transparency"@.len() == 12);
    assert("url"@.len() == 3);
    assert("recurrence_id"@.len() == 13);
    assert("recur"@.len() == 5);
    assert("rdates"@.len() == 6);
    assert("exdates"@.len() == 7);
    assert("attachments"@.len() == 11);
    assert("attendees"@.len() == 9);
    assert("comments"@.len() == 8);
    assert("contacts"@.len() == 8);
    assert("related_to"@.len() == 10);
    assert("resources"@.len() == 9);
    assert("images"@.len() == 6);
    assert("conferences"@.len() == 11);
    assert("request_statuses"@.len() == 16);
    assert("attachments"@[0] == 'a' && "description"@[0] == 'd');
    assert("conferences"@[0] == 'c' && "description"@[0] == 'd');
    crate::ical_entries::lemma_entry_names(d);
    let p0 = seq![("type"@, ImportView::String("event"@))];
    let p1 = p0 + str_entry("uid"@, d.uid);
    let p2 = p1 + str_entry("title"@, d.summary);
    let p3 = p2 + str_entry("description"@, d.description);
    let p4 = p3 + start_entries(d);
    let p5 = p4 + event_duration_entry(d);
    let p6 = p5 + status_entry(d);
    let p7 = p6 + priority_entry(d);
    let p8 = p7 + str_entry("location"@, d.location);
    let p9 = p8 + str_entry("color"@, d.color);
    let p10 = p9 + flat_strings_entry("categories"@, d.categories);
    let p11 = p10 + dt_entry("dtstamp"@, d.dtstamp);
    let p12 = p11 + class_entry(d);
    let p13 = p12 + dt_entry("created"@, d.created);
    let p14 = p13 + geo_entry(d);
    let p15 = p14 + dt_entry("last_modified"@, d.last_modified);
    let p16 = p15 + str_entry("organizer"@, d.organizer);
    let p17 = p16 + sequence_entry(d);
    let p18 = p17 + transp_entry(d);
    let p19 = p18 + str_entry("url"@, d.url);
    let p20 = p19 + dtod_entry("recurrence_id"@, d.recurrence_id);
    let p21 = p20 + rrule_entry(d);
    let p22 = p21 + flat_dtods_entry("rdates"@, d.rdates);
    let p23 = p22 + dtods_entry("exdates"@, d.exdates);
    let p24 = p23 + attachments_entry("attachments"@, d.attachments);
    let p25 = p24 + strings_entry("attendees"@, d.attendees);
    let p26 = p25 + strings_entry("comments"@, d.comments);
    let p27 = p26 + strings_entry("contacts"@, d.contacts);
    let p28 = p27 + strings_entry("related_to"@, d.related_to);
    let p29 = p28 + nested_strings_entry("resources"@, d.resources);
    let p30 = p29 + attachments_entry("images"@, d.images);
    let p31 = p30 + strings_entry("conferences"@, d.conferences);
    let p32 = p31 + request_statuses_entry(d.request_statuses);
    assert(crate::ical_entries::event_fields(d) == p32);
    lemma_last_value_past(p31, request_statuses_entry(d.request_statuses), "description"@);
    lemma_strings_entry_named("conferences"@, d.conferences);
    lemma_last_value_past(p30, strings_entry("conferences"@, d.conferences), "description"@);
    crate::ical_entries::lemma_named_entries("images"@, d);
    lemma_last_value_past(p29, attachments_entry("images"@, d.images), "description"@);
    crate::ical_entries::lemma_named_entries("resources"@, d);
    lemma_last_value_past(p28, nested_strings_entry("resources"@, d.resources), "description"@);
    lemma_strings_entry_named("related_to"@, d.related_to);
    lemma_last_value_past(p27, strings_entry("related_to"@, d.related_to), "description"@);
    lemma_strings_entry_named("contacts"@, d.contacts);
    lemma_last_value_past(p26, strings_entry("contacts"@, d.contacts), "description"@);
    lemma_strings_entry_named("comments"@, d.comments);
    lemma_last_value_past(p25, strings_entry("comments"@, d.comments), "description"@);
    lemma_strings_entry_named("attendees"@, d.attendees);
    lemma_last_value_past(p24, strings_entry("attendees"@, d.attendees), "description"@);
    crate::ical_entries::lemma_named_entries("attachments"@, d);
    lemma_last_value_past(p23, attachments_entry("attachments"@, d.attachments), "description"@);
    crate::ical_entries::lemma_named_entries("exdates"@, d);
    lemma_last_value_past(p22, dtods_entry("exdates"@, d.exdates), "description"@);
    crate::ical_entries::lemma_named_entries("rdates"@, d);
    lemma_last_value_past(p21, flat_dtods_entry("rdates"@, d.rdates), "description"@);
    lemma_last_value_past(p20, rrule_entry(d), "description"@);
    crate::ical_entries::lemma_named_entries("recurrence_id"@, d);
    lemma_last_value_past(p19, dtod_entry("recurrence_id"@, d.recurrence_id), "description"@);
    lemma_str_entry_named("url"@, d.url);
    lemma_last_value_past(p18, str_entry("url"@, d.url), "description"@);
    lemma_last_value_past(p17, transp_entry(d), "description"@);
    lemma_last_value_past(p16, sequence_entry(d), "description"@);
    lemma_str_entry_named("organizer"@, d.organizer);
    lemma_last_value_past(p15, str_entry("organizer"@, d.organizer), "description"@);
    lemma_dt_entry_named("last_modified"@, d.last_modified);
    lemma_last_value_past(p14, dt_entry("last_modified"@, d.last_modified), "description"@);
    lemma_last_value_past(p13, geo_entry(d), "description"@);
    lemma_dt_entry_named("created"@, d.created);
    lemma_last_value_past(p12, dt_entry("created"@, d.created), "description"@);
    lemma_last_value_past(p11, class_entry(d), "description"@);
    lemma_dt_entry_named("dtstamp"@, d.dtstamp);
    lemma_last_value_past(p10, dt_entry("dtstamp"@, d.dtstamp), "description"@);
    crate::ical_entries::lemma_named_entries("categories"@, d);
    lemma_last_value_past(p9, flat_strings_entry("categories"@, d.categories), "description"@);
    lemma_str_entry_named("color"@, d.color);
    lemma_last_value_past(p8, str_entry("color"@, d.color), "description"@);
    lemma_str_entry_named("location"@, d.location);
    lemma_last_value_past(p7, str_entry("location"@, d.location), "description"@);
    lemma_priority_entry_named(d);
    lemma_last_value_past(p6, priority_entry(d), "description"@);
    lemma_last_value_past(p5, status_entry(d), "description"@);
    lemma_last_value_past(p4, event_duration_entry(d), "description"@);
    lemma_last_value_past(p3, start_entries(d), "description"@);
}

#[verifier::spinoff_prover]
proof fn lemma_event_description_head(d: crate::ical_entries::IcalComponent)
    ensures
        crate::export_values::last_value(seq![("type"@, ImportView::String("event"@))] + str_entry("uid"@, d.uid) + str_entry("title"@, d.summary), "description"@) is None,
{
    reveal_strlit("type");
    reveal_strlit("uid");
    reveal_strlit("title");
    reveal_strlit("description");
    reveal_strlit("start");
    reveal_strlit("time_zone");
    reveal_strlit("duration");
    reveal_strlit("status");
    reveal_strlit("priority");
    reveal_strlit("location");
    reveal_strlit("color");
    reveal_strlit("categories");
    reveal_strlit("dtstamp");
    reveal_strlit("class");
    reveal_strlit("created");
    reveal_strlit("geo");
    reveal_strlit("last_modified");
    reveal_strlit("organizer");
    reveal_strlit("sequence");
    reveal_strlit("transparency");
    reveal_strlit("url");
    reveal_strlit("recurrence_id");
    reveal_strlit("recur");
    reveal_strlit("rdates");
    reveal_strlit("exdates");
    reveal_strlit("attachments");
    reveal_strlit("attendees");
    reveal_strlit("comments");
    reveal_strlit("contacts");
    reveal_strlit("related_to");
    reveal_strlit("resources");
    reveal_strlit("images");
    reveal_strlit("conferences");
    reveal_strlit("request_statuses");
    assert("type"@.len() == 4);
    assert("uid"@.len() == 3);
    assert("title"@.len() == 5);
    assert("description"@.len() == 11);
    assert("start"@.len() == 5);
    assert("time_zone"@.len() == 9);
    assert("duration"@.len() == 8);
    assert("status"@.len() == 6);
    assert("priority"@.len() == 8);
    assert("location"@.len() == 8);
    assert("color"@.len() == 5);
    assert("categories"@.len() == 10);
    assert("dtstamp"@.len() == 7);
    assert("class"@.len() == 5);
    assert("created"@.len() == 7);
    assert("geo"@.len() == 3);
    assert("last_modified"@.len() == 13);
    assert("organizer"@.len() == 9);
    assert("sequence"@.len() == 8);
    assert("transparency"@.len() == 12);
    assert("url"@.len() == 3);
    assert("recurrence_id"@.len() == 13);
    assert("recur"@.len() == 5);
    assert("rdates"@.len() == 6);
    assert("exdates"@.len() == 7);
    assert("attachments"@.len() == 11);
    assert("attendees"@.len() == 9);
    assert("comments"@.len() == 8);
    assert("contacts"@.len() == 8);
    assert("related_to"@.len() == 10);
    assert("resources"@.len() == 9);
    assert("images"@.len() == 6);
    assert("conferences"@.len() == 11);
    assert("request_statuses"@.len() == 16);
    assert("attachments"@[0] == 'a' && "description"@[0] == 'd');
    assert("conferences"@[0] == 'c' && "description"@[0] == 'd');
    crate::ical_entries::lemma_entry_names(d);
    let p0 = seq![("type"@, ImportView::String("event"@))];
    let p1 = p0 + str_entry("uid"@, d.uid);
    let p2 = p1 + str_entry("title"@, d.summary);
    lemma_str_entry_named("title"@, d.summary);
    lemma_last_value_past(p1, str_entry("title"@, d.summary), "description"@);
    lemma_str_entry_named("uid"@, d.uid);
    lemma_last_value_past(p0, str_entry("uid"@, d.uid), "description"@);
    assert(p0.last().0 != "description"@);
    assert(p0.drop_last() =~= Seq::<(Seq<char>, ImportView)>::empty());
    assert(crate::export_values::last_value(p0.drop_last(), "description"@) is None);
    assert(crate::export_values::last_value(p0, "description"@) is None);
}

proof fn lemma_event_field_description(d: crate::ical_entries::IcalComponent)
    ensures
        text_of_opt(crate::export_values::last_value(crate::ical_entries::event_fields(d), "description"@)) == opt_text(d.description),
{
    lemma_event_description_tail(d);
    lemma_event_description_head(d);
    lemma_last_value_str(seq![("type"@, ImportView::String("event"@))] + str_entry("uid"@, d.uid) + str_entry("title"@, d.summary), "description"@, d.description);
}

#[verifier::spinoff_prover]
proof fn lemma_event_location_tail(d: crate::ical_entries::IcalComponent)
    ensures
        crate::export_values::last_value(crate::ical_entries::event_fields(d), "location"@) == crate::export_values::last_value(seq![("type"@, ImportView::String("event"@))] + str_entry("uid"@, d.uid) + str_entry("title"@, d.summary) + str_entry("description"@, d.description) + start_entries(d) + event_duration_entry(d) + status_entry(d) + priority_entry(d) + str_entry("location"@, d.location), "location"@),
{
    reveal_strlit("type");
    reveal_strlit("uid");
    reveal_strlit("title");
    reveal_strlit("description");
    reveal_strlit("start");
    reveal_strlit("time_zone");
    reveal_strlit("duration");
    reveal_strlit("status");
    reveal_strlit("priority");
    reveal_strlit("location");
    reveal_strlit("color");
    reveal_strlit("categories");
    reveal_strlit("dtstamp");
    reveal_strlit("class");
    reveal_strlit("created");
    reveal_strlit("geo");
    reveal_strlit("last_modified");
    reveal_strlit("organizer");
    reveal_strlit("sequence");
    reveal_strlit("transparency");
    reveal_strlit("url");
    reveal_strlit("recurrence_id");
    reveal_strlit("recur");
    reveal_strlit("rdates");
    reveal_strlit("exdates");
    reveal_strlit("attachments");
    reveal_strlit("attendees");
    reveal_strlit("comments");
    reveal_strlit("contacts");
    reveal_strlit("related_to");
    reveal_strlit("resources");
    reveal_strlit("images");
    reveal_strlit("conferences");
    reveal_strlit("request_statuses");
    assert("type"@.len() == 4);
    assert("uid"@.len() == 3);
    assert("title"@.len() == 5);
    assert("description"@.len() == 11);
    assert("start"@.len() == 5);
    assert("time_zone"@.len() == 9);
    assert("duration"@.len() == 8);
    assert("status"@.len() == 6);
    assert("priority"@.len() == 8);
    assert("location"@.len() == 8);
    assert("color"@.len() == 5);
    assert("categories"@.len() == 10);
    assert("dtstamp"@.len() == 7);
    assert("class"@.len() == 5);
    assert("created"@.len() == 7);
    assert("geo"@.len() == 3);
    assert("last_modified"@.len() == 13);
    assert("organizer"@.len() == 9);
    assert("sequence"@.len() == 8);
    assert("transparency"@.len() == 12);
    assert("url"@.len() == 3);
    assert("recurrence_id"@.len() == 13);
    assert("recur"@.len() == 5);
    assert("rdates"@.len() == 6);
    assert("exdates"@.len() == 7);
    assert("attachments"@.len() == 11);
    assert("attendees"@.len() == 9);
    assert("comments"@.len() == 8);
    assert("contacts"@.len() == 8);
    assert("related_to"@.len() == 10);
    assert("resources"@.len() == 9);
    assert("images"@.len() == 6);
    assert("conferences"@.len() == 11);
    assert("request_statuses"@.len() == 16);
    assert("duration"@[0] == 'd' && "location"@[0] == 'l');
    assert("priority"@[0] == 'p' && "location"@[0] == 'l');
    assert("sequence"@[0] == 's' && "location"@[0] == 'l');
    assert("comments"@[0] == 'c' && "location"@[0] == 'l');
    assert("contacts"@[0] == 'c' && "location"@[0] == 'l');
    crate::ical_entries::lemma_entry_names(d);
    let p0 = seq![("type"@, ImportView::String("event"@))];
    let p1 = p0 + str_entry("uid"@, d.uid);
    let p2 = p1 + str_entry("title"@, d.summary);
    let p3 = p2 + str_entry("description"@, d.description);
    let p4 = p3 + start_entries(d);
    let p5 = p4 + event_duration_entry(d);
    let p6 = p5 + status_entry(d);
    let p7 = p6 + priority_entry(d);
    let p8 = p7 + str_entry("location"@, d.location);
    let p9 = p8 + str_entry("color"@, d.color);
    let p10 = p9 + flat_strings_entry("categories"@, d.categories);
    let p11 = p10 + dt_entry("dtstamp"@, d.dtstamp);
    let p12 = p11 + class_entry(d);
    let p13 = p12 + dt_entry("created"@, d.created);
    let p14 = p13 + geo_entry(d);
    let p15 = p14 + dt_entry("last_modified"@, d.last_modified);
    let p16 = p15 + str_entry("organizer"@, d.organizer);
    let p17 = p16 + sequence_entry(d);
    let p18 = p17 + transp_entry(d);
    let p19 = p18 + str_entry("url"@, d.url);
    let p20 = p19 + dtod_entry("recurrence_id"@, d.recurrence_id);
    let p21 = p20 + rrule_entry(d);
    let p22 = p21 + flat_dtods_entry("rdates"@, d.rdates);
    let p23 = p22 + dtods_entry("exdates"@, d.exdates);
    let p24 = p23 + attachments_entry("attachments"@, d.attachments);
    let p25 = p24 + strings_entry("attendees"@, d.attendees);
    let p26 = p25 + strings_entry("comments"@, d.comments);
    let p27 = p26 + strings_entry("contacts"@, d.contacts);
    let p28 = p27 + strings_entry("related_to"@, d.related_to);
    let p29 = p28 + nested_strings_entry("resources"@, d.resources);
    let p30 = p29 + attachments_entry("images"@, d.images);
    let p31 = p30 + strings_entry("conferences"@, d.conferences);
    let p32 = p31 + request_statuses_entry(d.request_statuses);
    assert(crate::ical_entries::event_fields(d) == p32);
    lemma_last_value_past(p31, request_statuses_entry(d.request_statuses), "location"@);
    lemma_strings_entry_named("conferences"@, d.conferences);
    lemma_last_value_past(p30, strings_entry("conferences"@, d.conferences), "location"@);
    crate::ical_entries::lemma_named_entries("images"@, d);
    lemma_last_value_past(p29, attachments_entry("images"@, d.images), "location"@);
    crate::ical_entries::lemma_named_entries("resources"@, d);
    lemma_last_value_past(p28, nested_strings_entry("resources"@, d.resources), "location"@);
    lemma_strings_entry_named("related_to"@, d.related_to);
    lemma_last_value_past(p27, strings_entry("related_to"@, d.related_to), "location"@);
    lemma_strings_entry_named("contacts"@, d.contacts);
    lemma_last_value_past(p26, strings_entry("contacts"@, d.contacts), "location"@);
    lemma_strings_entry_named("comments"@, d.comments);
    lemma_last_value_past(p25, strings_entry("comments"@, d.comments), "location"@);
    lemma_strings_entry_named("attendees"@, d.attendees);
    lemma_last_value_past(p24, strings_entry("attendees"@, d.attendees), "location"@);
    crate::ical_entries::lemma_named_entries("attachments"@, d);
    lemma_last_value_past(p23, attachments_entry("attachments"@, d.attachments), "location"@);
    crate::ical_entries::lemma_named_entries("exdates"@, d);
    lemma_last_value_past(p22, dtods_entry("exdates"@, d.exdates), "location"@);
    crate::ical_entries::lemma_named_entries("rdates"@, d);
    lemma_last_value_past(p21, flat_dtods_entry("rdates"@, d.rdates), "location"@);
    lemma_last_value_past(p20, rrule_entry(d), "location"@);
    crate::ical_entries::lemma_named_entries("recurrence_id"@, d);
    lemma_last_value_past(p19, dtod_entry("recurrence_id"@, d.recurrence_id), "location"@);
    lemma_str_entry_named("url"@, d.url);
    lemma_last_value_past(p18, str_entry("url"@, d.url), "location"@);
    lemma_last_value_past(p17, transp_entry(d), "location"@);
    lemma_last_value_past(p16, sequence_entry(d), "location"@);
    lemma_str_entry_named("organizer"@, d.organizer);
    lemma_last_value_past(p15, str_entry("organizer"@, d.organizer), "location"@);
    lemma_dt_entry_named("last_modified"@, d.last_modified);
    lemma_last_value_past(p14, dt_entry("last_modified"@, d.last_modified), "location"@);
    lemma_last_value_past(p13, geo_entry(d), "location"@);
    lemma_dt_entry_named("created"@, d.created);
    lemma_last_value_past(p12, dt_entry("created"@, d.created), "location"@);
    lemma_last_value_past(p11, class_entry(d), "location"@);
    lemma_dt_entry_named("dtstamp"@, d.dtstamp);
    lemma_last_value_past(p10, dt_entry("dtstamp"@, d.dtstamp), "location"@);
    crate::ical_entries::lemma_named_entries("categories"@, d);
    lemma_last_value_past(p9, flat_strings_entry("categories"@, d.categories), "location"@);
    lemma_str_entry_named("color"@, d.color);
    lemma_last_value_past(p8, str_entry("color"@, d.color), "location"@);
}

#[verifier::spinoff_prover]
proof fn lemma_event_location_head(d: crate::ical_entries::IcalComponent)
    ensures
        crate::export_values::last_value(seq![("type"@, ImportView::String("event"@))] + str_entry("uid"@, d.uid) + str_entry("title"@, d.summary) + str_entry("description"@, d.description) + start_entries(d) + event_duration_entry(d) + status_entry(d) + priority_entry(d), "location"@) is None,
{
    reveal_strlit("type");
    reveal_strlit("uid");
    reveal_strlit("title");
    reveal_strlit("description");
    reveal_strlit("start");
    reveal_strlit("time_zone");
    reveal_strlit("duration");
    reveal_strlit("status");
    reveal_strlit("priority");
    reveal_strlit("location");
    reveal_strlit("color");
    reveal_strlit("categories");
    reveal_strlit("dtstamp");
    reveal_strlit("class");
    reveal_strlit("created");
    reveal_strlit("geo");
    reveal_strlit("last_modified");
    reveal_strlit("organizer");
    reveal_strlit("sequence");
    reveal_strlit("transparency");
    reveal_strlit("url");
    reveal_strlit("recurrence_id");
    reveal_strlit("recur");
    reveal_strlit("rdates");
    reveal_strlit("exdates");
    reveal_strlit("attachments");
    reveal_strlit("attendees");
    reveal_strlit("comments");
    reveal_strlit("contacts");
    reveal_strlit("related_to");
    reveal_strlit("resources");
    reveal_strlit("images");
    reveal_strlit("conferences");
    reveal_strlit("request_statuses");
    assert("type"@.len() == 4);
    assert("uid"@.len() == 3);
    assert("title"@.len() == 5);
    assert("description"@.len() == 11);
    assert("start"@.len() == 5);
    assert("time_zone"@.len() == 9);
    assert("duration"@.len() == 8);
    assert("status"@.len() == 6);
    assert("priority"@.len() == 8);
    assert("location"@.len() == 8);
    assert("color"@.len() == 5);
    assert("categories"@.len() == 10);
    assert("dtstamp"@.len() == 7);
    assert("class"@.len() == 5);
    assert("created"@.len() == 7);
    assert("geo"@.len() == 3);
    assert("last_modified"@.len() == 13);
    assert("organizer"@.len() == 9);
    assert("sequence"@.len() == 8);
    assert("transparency"@.len() == 12);
    assert("url"@.len() == 3);
    assert("recurrence_id"@.len() == 13);
    assert("recur"@.len() == 5);
    assert("rdates"@.len() == 6);
    assert("exdates"@.len() == 7);
    assert("attachments"@.len() == 11);
    assert("attendees"@.len() == 9);
    assert("comments"@.len() == 8);
    assert("contacts"@.len() == 8);
    assert("related_to"@.len() == 10);
    assert("resources"@.len() == 9);
    assert("images"@.len() == 6);
    assert("conferences"@.len() == 11);
    assert("request_statuses"@.len() == 16);
    assert("duration"@[0] == 'd' && "location"@[0] == 'l');
    assert("priority"@[0] == 'p' && "location"@[0] == 'l');
    assert("sequence"@[0] == 's' && "location"@[0] == 'l');
    assert("comments"@[0] == 'c' && "location"@[0] == 'l');
    assert("contacts"@[0] == 'c' && "location"@[0] == 'l');
    crate::ical_entries::lemma_entry_names(d);
    let p0 = seq![("type"@, ImportView::String("event"@))];
    let p1 = p0 + str_entry("uid"@, d.uid);
    let p2 = p1 + str_entry("title"@, d.summary);
    let p3 = p2 + str_entry("description"@, d.description);
    let p4 = p3 + start_entries(d);
    let p5 = p4 + event_duration_entry(d);
    let p6 = p5 + status_entry(d);
    let p7 = p6 + priority_entry(d);
    lemma_priority_entry_named(d);
    lemma_last_value_past(p6, priority_entry(d), "location"@);
    lemma_last_value_past(p5, status_entry(d), "location"@);
    lemma_last_value_past(p4, event_duration_entry(d), "location"@);
    lemma_last_value_past(p3, start_entries(d), "location"@);
    lemma_str_entry_named("description"@, d.description);
    lemma_last_value_past(p2, str_entry("description"@, d.description), "location"@);
    lemma_str_entry_named("title"@, d.summary);
    lemma_last_value_past(p1, str_entry("title"@, d.summary), "location"@);
    lemma_str_entry_named("uid"@, d.uid);
    lemma_last_value_past(p0, str_entry("uid"@, d.uid), "location"@);
    assert(p0.last().0 != "location"@);
    assert(p0.drop_last() =~= Seq::<(Seq<char>, ImportView)>::empty());
    assert(crate::export_values::last_value(p0.drop_last(), "location"@) is None);
    assert(crate::export_values::last_value(p0, "location"@) is None);
}

proof fn lemma_event_field_location(d: crate::ical_entries::IcalComponent)
    ensures
        text_of_opt(crate::export_values::last_value(crate::ical_entries::event_fields(d), "location"@)) == opt_text(d.location),
{
    lemma_event_location_tail(d);
    lemma_event_location_head(d);
    lemma_last_value_str(seq![("type"@, ImportView::String("event"@))] + str_entry("uid"@, d.uid) + str_entry("title"@, d.summary) + str_entry("description"@, d.description) + start_entries(d) + event_duration_entry(d) + status_entry(d) + priority_entry(d), "location"@, d.location);
}

pub open spec fn text_of_opt(o: Option<ImportView>) -> Option<Seq<char>> {
    match o {
        Some(v) => text_of(v),
        None => None,
    }
}

/// Reading an iCalendar event into a record and building the event to
/// write from that record gives back its identifier, summary, description
/// and location (where no extension property of it takes one of those
/// field names).
pub proof fn lemma_ical_event_round_trip(d: crate::ical_entries::IcalComponent, c: IcalComponentOut)
    requires
        event_properties(c, crate::ical_entries::event_record(d)),
        forall|i: int|
            0 <= i < d.x_properties@.len() ==> {
                let n = crate::ical_entries::x_field_name(crate::ical_import::lowercase(#[trigger] d.x_properties@[i].0@));
                n != "uid"@ && n != "title"@ && n != "description"@ && n != "location"@
            },
    ensures
        opt_text(c.uid) == opt_text(d.uid),
        opt_text(c.summary) == opt_text(d.summary),
        opt_text(c.description) == opt_text(d.description),
        opt_text(c.location) == opt_text(d.location),
{
    let fields = crate::ical_entries::event_fields(d);
    let xs = crate::ical_entries::x_props_view(d.x_properties@);
    crate::import_value::lemma_import_record_of_sorted(fields);
    let keys = seq!["uid"@, "title"@, "description"@, "location"@];
    assert forall|j: int| 0 <= j < 4 implies {
        &&& key_lookup(crate::ical_entries::event_record(d), #[trigger] keys[j]) == crate::export_values::last_value(fields, keys[j])
    } by {
        assert forall|i: int| 0 <= i < xs.len() implies crate::ical_entries::x_field_name(crate::ical_import::lowercase(#[trigger] xs[i].0)) != keys[j] by {
            assert(xs[i].0 == d.x_properties@[i].0@);
        }
        lemma_x_lookup(crate::import_value::import_record_of(fields), xs, keys[j]);
        crate::export_values::lemma_import_record_lookup(fields, keys[j]);
    }
    assert(keys[0] == "uid"@ && keys[1] == "title"@ && keys[2] == "description"@ && keys[3] == "location"@);
    lemma_event_field_uid(d);
    lemma_event_field_title(d);
    lemma_event_field_description(d);
    lemma_event_field_location(d);
}
pub(crate) proof fn lemma_duration_entry_named_ical(name: Seq<char>, o: Option<PlainDuration>)
    ensures
        all_named(crate::ical_entries::duration_entry(name, o), name),
{
}

proof fn lemma_percent_entry_named(d: crate::ical_entries::IcalComponent)
    ensures
        all_named(crate::ical_entries::percent_entry(d), "percent_complete"@),
{
}

proof fn lemma_dtod_due_named(d: crate::ical_entries::IcalComponent)
    ensures
        all_named(dtod_entry("due"@, d.due), "due"@),
{
    crate::ical_entries::lemma_named_due(d);
}

#[verifier::spinoff_prover]
proof fn lemma_todo_uid_tail(d: crate::ical_entries::IcalComponent)
    ensures
        crate::export_values::last_value(crate::ical_entries::todo_fields(d), "uid"@) == crate::export_values::last_value(seq![("type"@, ImportView::String("task"@))] + str_entry("uid"@, d.uid), "uid"@),
{
    reveal_strlit("type");
    reveal_strlit("uid");
    reveal_strlit("title");
    reveal_strlit("description");
    reveal_strlit("due");
    reveal_strlit("start");
    reveal_strlit("time_zone");
    reveal_strlit("estimated_duration");
    reveal_strlit("percent_complete");
    reveal_strlit("status");
    reveal_strlit("priority");
    reveal_strlit("location");
    reveal_strlit("color");
    reveal_strlit("categories");
    reveal_strlit("dtstamp");
    reveal_strlit("class");
    reveal_strlit("created");
    reveal_strlit("geo");
    reveal_strlit("last_modified");
    reveal_strlit("organizer");
    reveal_strlit("sequence");
    reveal_strlit("url");
    reveal_strlit("completed");
    reveal_strlit("recurrence_id");
    reveal_strlit("recur");
    reveal_strlit("rdates");
    reveal_strlit("exdates");
    reveal_strlit("attachments");
    reveal_strlit("attendees");
    reveal_strlit("comments");
    reveal_strlit("contacts");
    reveal_strlit("related_to");
    reveal_strlit("resources");
    reveal_strlit("images");
    reveal_strlit("conferences");
    reveal_strlit("request_statuses");
    assert("type"@.len() == 4);
    assert("uid"@.len() == 3);
    assert("title"@.len() == 5);
    assert("description"@.len() == 11);
    assert("due"@.len() == 3);
    assert("start"@.len() == 5);
    assert("time_zone"@.len() == 9);
    assert("estimated_duration"@.len() == 18);
    assert("percent_complete"@.len() == 16);
    assert("status"@.len() == 6);
    assert("priority"@.len() == 8);
    assert("location"@.len() == 8);
    assert("color"@.len() == 5);
    assert("categories"@.len() == 10);
    assert("dtstamp"@.len() == 7);
    assert("class"@.len() == 5);
    assert("created"@.len() == 7);
    assert("geo"@.len() == 3);
    assert("last_modified"@.len() == 13);
    assert("organizer"@.len() == 9);
    assert("sequence"@.len() == 8);
    assert("url"@.len() == 3);
    assert("completed"@.len() == 9);
    assert("recurrence_id"@.len() == 13);
    assert("recur"@.len() == 5);
    assert("rdates"@.len() == 6);
    assert("exdates"@.len() == 7);
    assert("attachments"@.len() == 11);
    assert("attendees"@.len() == 9);
    assert("comments"@.len() == 8);
    assert("contacts"@.len() == 8);
    assert("related_to"@.len() == 10);
    assert("resources"@.len() == 9);
    assert("images"@.len() == 6);
    assert("conferences"@.len() == 11);
    assert("request_statuses"@.len() == 16);
    assert("due"@[0] == 'd' && "uid"@[0] == 'u');
    assert("geo"@[0] == 'g' && "uid"@[0] == 'u');
    assert("url"@[1] == 'r' && "uid"@[1] == 'i');
    crate::ical_entries::lemma_entry_names(d);
    let p0 = seq![("type"@, ImportView::String("task"@))];
    let p1 = p0 + str_entry("uid"@, d.uid);
    let p2 = p1 + str_entry("title"@, d.summary);
    let p3 = p2 + str_entry("description"@, d.description);
    let p4 = p3 + dtod_entry("due"@, d.due);
    let p5 = p4 + start_entries(d);
    let p6 = p5 + crate::ical_entries::duration_entry("estimated_duration"@, d.duration);
    let p7 = p6 + crate::ical_entries::percent_entry(d);
    let p8 = p7 + status_entry(d);
    let p9 = p8 + priority_entry(d);
    let p10 = p9 + str_entry("location"@, d.location);
    let p11 = p10 + str_entry("color"@, d.color);
    let p12 = p11 + flat_strings_entry("categories"@, d.categories);
    let p13 = p12 + dt_entry("dtstamp"@, d.dtstamp);
    let p14 = p13 + class_entry(d);
    let p15 = p14 + dt_entry("created"@, d.created);
    let p16 = p15 + geo_entry(d);
    let p17 = p16 + dt_entry("last_modified"@, d.last_modified);
    let p18 = p17 + str_entry("organizer"@, d.organizer);
    let p19 = p18 + sequence_entry(d);
    let p20 = p19 + str_entry("url"@, d.url);
    let p21 = p20 + dt_entry("completed"@, d.completed);
    let p22 = p21 + dtod_entry("recurrence_id"@, d.recurrence_id);
    let p23 = p22 + rrule_entry(d);
    let p24 = p23 + flat_dtods_entry("rdates"@, d.rdates);
    let p25 = p24 + dtods_entry("exdates"@, d.exdates);
    let p26 = p25 + attachments_entry("attachments"@, d.attachments);
    let p27 = p26 + strings_entry("attendees"@, d.attendees);
    let p28 = p27 + strings_entry("comments"@, d.comments);
    let p29 = p28 + strings_entry("contacts"@, d.contacts);
    let p30 = p29 + strings_entry("related_to"@, d.related_to);
    let p31 = p30 + nested_strings_entry("resources"@, d.resources);
    let p32 = p31 + attachments_entry("images"@, d.images);
    let p33 = p32 + strings_entry("conferences"@, d.conferences);
    let p34 = p33 + request_statuses_entry(d.request_statuses);
    assert(crate::ical_entries::todo_fields(d) == p34);
    lemma_last_value_past(p33, request_statuses_entry(d.request_statuses), "uid"@);
    lemma_strings_entry_named("conferences"@, d.conferences);
    lemma_last_value_past(p32, strings_entry("conferences"@, d.conferences), "uid"@);
    crate::ical_entries::lemma_named_entries("images"@, d);
    lemma_last_value_past(p31, attachments_entry("images"@, d.images), "uid"@);
    crate::ical_entries::lemma_named_entries("resources"@, d);
    lemma_last_value_past(p30, nested_strings_entry("resources"@, d.resources), "uid"@);
    lemma_strings_entry_named("related_to"@, d.related_to);
    lemma_last_value_past(p29, strings_entry("related_to"@, d.related_to), "uid"@);
    lemma_strings_entry_named("contacts"@, d.contacts);
    lemma_last_value_past(p28, strings_entry("contacts"@, d.contacts), "uid"@);
    lemma_strings_entry_named("comments"@, d.comments);
    lemma_last_value_past(p27, strings_entry("comments"@, d.comments), "uid"@);
    lemma_strings_entry_named("attendees"@, d.attendees);
    lemma_last_value_past(p26, strings_entry("attendees"@, d.attendees), "uid"@);
    crate::ical_entries::lemma_named_entries("attachments"@, d);
    lemma_last_value_past(p25, attachments_entry("attachments"@, d.attachments), "uid"@);
    crate::ical_entries::lemma_named_entries("exdates"@, d);
    lemma_last_value_past(p24, dtods_entry("exdates"@, d.exdates), "uid"@);
    crate::ical_entries::lemma_named_entries("rdates"@, d);
    lemma_last_value_past(p23, flat_dtods_entry("rdates"@, d.rdates), "uid"@);
    lemma_last_value_past(p22, rrule_entry(d), "uid"@);
    crate::ical_entries::lemma_named_entries("recurrence_id"@, d);
    lemma_last_value_past(p21, dtod_entry("recurrence_id"@, d.recurrence_id), "uid"@);
    lemma_dt_entry_named("completed"@, d.completed);
    lemma_last_value_past(p20, dt_entry("completed"@, d.completed), "uid"@);
    lemma_str_entry_named("url"@, d.url);
    lemma_last_value_past(p19, str_entry("url"@, d.url), "uid"@);
    lemma_last_value_past(p18, sequence_entry(d), "uid"@);
    lemma_str_entry_named("organizer"@, d.organizer);
    lemma_last_value_past(p17, str_entry("organizer"@, d.organizer), "uid"@);
    lemma_dt_entry_named("last_modified"@, d.last_modified);
    lemma_last_value_past(p16, dt_entry("last_modified"@, d.last_modified), "uid"@);
    lemma_last_value_past(p15, geo_entry(d), "uid"@);
    lemma_dt_entry_named("created"@, d.created);
    lemma_last_value_past(p14, dt_entry("created"@, d.created), "uid"@);
    lemma_last_value_past(p13, class_entry(d), "uid"@);
    lemma_dt_entry_named("dtstamp"@, d.dtstamp);
    lemma_last_value_past(p12, dt_entry("dtstamp"@, d.dtstamp), "uid"@);
    crate::ical_entries::lemma_named_entries("categories"@, d);
    lemma_last_value_past(p11, flat_strings_entry("categories"@, d.categories), "uid"@);
    lemma_str_entry_named("color"@, d.color);
    lemma_last_value_past(p10, str_entry("color"@, d.color), "uid"@);
    lemma_str_entry_named("location"@, d.location);
    lemma_last_value_past(p9, str_entry("location"@, d.location), "uid"@);
    lemma_priority_entry_named(d);
    lemma_last_value_past(p8, priority_entry(d), "uid"@);
    lemma_last_value_past(p7, status_entry(d), "uid"@);
    lemma_percent_entry_named(d);
    lemma_last_value_past(p6, crate::ical_entries::percent_entry(d), "uid"@);
    crate::ical_export::lemma_duration_entry_named_ical("estimated_duration"@, d.duration);
    lemma_last_value_past(p5, crate::ical_entries::duration_entry("estimated_duration"@, d.duration), "uid"@);
    lemma_last_value_past(p4, start_entries(d), "uid"@);
    lemma_dtod_due_named(d);
    lemma_last_value_past(p3, dtod_entry("due"@, d.due), "uid"@);
    lemma_str_entry_named("description"@, d.description);
    lemma_last_value_past(p2, str_entry("description"@, d.description), "uid"@);
    lemma_str_entry_named("title"@, d.summary);
    lemma_last_value_past(p1, str_entry("title"@, d.summary), "uid"@);
}

#[verifier::spinoff_prover]
proof fn lemma_todo_uid_head(d: crate::ical_entries::IcalComponent)
    ensures
        crate::export_values::last_value(seq![("type"@, ImportView::String("task"@))], "uid"@) is None,
{
    reveal_strlit("type");
    reveal_strlit("uid");
    reveal_strlit("title");
    reveal_strlit("description");
    reveal_strlit("due");
    reveal_strlit("start");
    reveal_strlit("time_zone");
    reveal_strlit("estimated_duration");
    reveal_strlit("percent_complete");
    reveal_strlit("status");
    reveal_strlit("priority");
    reveal_strlit("location");
    reveal_strlit("color");
    reveal_strlit("categories");
    reveal_strlit("dtstamp");
    reveal_strlit("class");
    reveal_strlit("created");
    reveal_strlit("geo");
    reveal_strlit("last_modified");
    reveal_strlit("organizer");
    reveal_strlit("sequence");
    reveal_strlit("url");
    reveal_strlit("completed");
    reveal_strlit("recurrence_id");
    reveal_strlit("recur");
    reveal_strlit("rdates");
    reveal_strlit("exdates");
    reveal_strlit("attachments");
    reveal_strlit("attendees");
    reveal_strlit("comments");
    reveal_strlit("contacts");
    reveal_strlit("related_to");
    reveal_strlit("resources");
    reveal_strlit("images");
    reveal_strlit("conferences");
    reveal_strlit("request_statuses");
    assert("type"@.len() == 4);
    assert("uid"@.len() == 3);
    assert("title"@.len() == 5);
    assert("description"@.len() == 11);
    assert("due"@.len() == 3);
    assert("start"@.len() == 5);
    assert("time_zone"@.len() == 9);
    assert("estimated_duration"@.len() == 18);
    assert("percent_complete"@.len() == 16);
    assert("status"@.len() == 6);
    assert("priority"@.len() == 8);
    assert("location"@.len() == 8);
    assert("color"@.len() == 5);
    assert("categories"@.len() == 10);
    assert("dtstamp"@.len() == 7);
    assert("class"@.len() == 5);
    assert("created"@.len() == 7);
    assert("geo"@.len() == 3);
    assert("last_modified"@.len() == 13);
    assert("organizer"@.len() == 9);
    assert("sequence"@.len() == 8);
    assert("url"@.len() == 3);
    assert("completed"@.len() == 9);
    assert("recurrence_id"@.len() == 13);
    assert("recur"@.len() == 5);
    assert("rdates"@.len() == 6);
    assert("exdates"@.len() == 7);
    assert("attachments"@.len() == 11);
    assert("attendees"@.len() == 9);
    assert("comments"@.len() == 8);
    assert("contacts"@.len() == 8);
    assert("related_to"@.len() == 10);
    assert("resources"@.len() == 9);
    assert("images"@.len() == 6);
    assert("conferences"@.len() == 11);
    assert("request_statuses"@.len() == 16);
    assert("due"@[0] == 'd' && "uid"@[0] == 'u');
    assert("geo"@[0] == 'g' && "uid"@[0] == 'u');
    assert("url"@[1] == 'r' && "uid"@[1] == 'i');
    crate::ical_entries::lemma_entry_names(d);
    let p0 = seq![("type"@, ImportView::String("task"@))];
    assert(p0.last().0 != "uid"@);
    assert(p0.drop_last() =~= Seq::<(Seq<char>, ImportView)>::empty());
    assert(crate::export_values::last_value(p0.drop_last(), "uid"@) is None);
    assert(crate::export_values::last_value(p0, "uid"@) is None);
}

proof fn lemma_todo_field_uid(d: crate::ical_entries::IcalComponent)
    ensures
        text_of_opt(crate::export_values::last_value(crate::ical_entries::todo_fields(d), "uid"@)) == opt_text(d.uid),
{
    lemma_todo_uid_tail(d);
    lemma_todo_uid_head(d);
    lemma_last_value_str(seq![("type"@, ImportView::String("task"@))], "uid"@, d.uid);
}

#[verifier::spinoff_prover]
proof fn lemma_todo_title_tail(d: crate::ical_entries::IcalComponent)
    ensures
        crate::export_values::last_value(crate::ical_entries::todo_fields(d), "title"@) == crate::export_values::last_value(seq![("type"@, ImportView::String("task"@))] + str_entry("uid"@, d.uid) + str_entry("title"@, d.summary), "title"@),
{
    reveal_strlit("type");
    reveal_strlit("uid");
    reveal_strlit("title");
    reveal_strlit("description");
    reveal_strlit("due");
    reveal_strlit("start");
    reveal_strlit("time_zone");
    reveal_strlit("estimated_duration");
    reveal_strlit("percent_complete");
    reveal_strlit("status");
    reveal_strlit("priority");
    reveal_strlit("location");
    reveal_strlit("color");
    reveal_strlit("categories");
    reveal_strlit("dtstamp");
    reveal_strlit("class");
    reveal_strlit("created");
    reveal_strlit("geo");
    reveal_strlit("last_modified");
    reveal_strlit("organizer");
    reveal_strlit("sequence");
    reveal_strlit("url");
    reveal_strlit("completed");
    reveal_strlit("recurrence_id");
    reveal_strlit("recur");
    reveal_strlit("rdates");
    reveal_strlit("exdates");
    reveal_strlit("attachments");
    reveal_strlit("attendees");
    reveal_strlit("comments");
    reveal_strlit("contacts");
    reveal_strlit("related_to");
    reveal_strlit("resources");
    reveal_strlit("images");
    reveal_strlit("conferences");
    reveal_strlit("request_statuses");
    assert("type"@.len() == 4);
    assert("uid"@.len() == 3);
    assert("title"@.len() == 5);
    assert("description"@.len() == 11);
    assert("due"@.len() == 3);
    assert("start"@.len() == 5);
    assert("time_zone"@.len() == 9);
    assert("estimated_duration"@.len() == 18);
    assert("percent_complete"@.len() == 16);
    assert("status"@.len() == 6);
    assert("priority"@.len() == 8);
    assert("location"@.len() == 8);
    assert("color"@.len() == 5);
    assert("categories"@.len() == 10);
    assert("dtstamp"@.len() == 7);
    assert("class"@.len() == 5);
    assert("created"@.len() == 7);
    assert("geo"@.len() == 3);
    assert("last_modified"@.len() == 13);
    assert("organizer"@.len() == 9);
    assert("sequence"@.len() == 8);
    assert("url"@.len() == 3);
    assert("completed"@.len() == 9);
    assert("recurrence_id"@.len() == 13);
    assert("recur"@.len() == 5);
    assert("rdates"@.len() == 6);
    assert("exdates"@.len() == 7);
    assert("attachments"@.len() == 11);
    assert("attendees"@.len() == 9);
    assert("comments"@.len() == 8);
    assert("contacts"@.len() == 8);
    assert("related_to"@.len() == 10);
    assert("resources"@.len() == 9);
    assert("images"@.len() == 6);
    assert("conferences"@.len() == 11);
    assert("request_statuses"@.len() == 16);
    assert("start"@[0] == 's' && "title"@[0] == 't');
    assert("color"@[0] == 'c' && "title"@[0] == 't');
    assert("class"@[0] == 'c' && "title"@[0] == 't');
    assert("recur"@[0] == 'r' && "title"@[0] == 't');
    crate::ical_entries::lemma_entry_names(d);
    let p0 = seq![("type"@, ImportView::String("task"@))];
    let p1 = p0 + str_entry("uid"@, d.uid);
    let p2 = p1 + str_entry("title"@, d.summary);
    let p3 = p2 + str_entry("description"@, d.description);
    let p4 = p3 + dtod_entry("due"@, d.due);
    let p5 = p4 + start_entries(d);
    let p6 = p5 + crate::ical_entries::duration_entry("estimated_duration"@, d.duration);
    let p7 = p6 + crate::ical_entries::percent_entry(d);
    let p8 = p7 + status_entry(d);
    let p9 = p8 + priority_entry(d);
    let p10 = p9 + str_entry("location"@, d.location);
    let p11 = p10 + str_entry("color"@, d.color);
    let p12 = p11 + flat_strings_entry("categories"@, d.categories);
    let p13 = p12 + dt_entry("dtstamp"@, d.dtstamp);
    let p14 = p13 + class_entry(d);
    let p15 = p14 + dt_entry("created"@, d.created);
    let p16 = p15 + geo_entry(d);
    let p17 = p16 + dt_entry("last_modified"@, d.last_modified);
    let p18 = p17 + str_entry("organizer"@, d.organizer);
    let p19 = p18 + sequence_entry(d);
    let p20 = p19 + str_entry("url"@, d.url);
    let p21 = p20 + dt_entry("completed"@, d.completed);
    let p22 = p21 + dtod_entry("recurrence_id"@, d.recurrence_id);
    let p23 = p22 + rrule_entry(d);
    let p24 = p23 + flat_dtods_entry("rdates"@, d.rdates);
    let p25 = p24 + dtods_entry("exdates"@, d.exdates);
    let p26 = p25 + attachments_entry("attachments"@, d.attachments);
    let p27 = p26 + strings_entry("attendees"@, d.attendees);
    let p28 = p27 + strings_entry("comments"@, d.comments);
    let p29 = p28 + strings_entry("contacts"@, d.contacts);
    let p30 = p29 + strings_entry("related_to"@, d.related_to);
    let p31 = p30 + nested_strings_entry("resources"@, d.resources);
    let p32 = p31 + attachments_entry("images"@, d.images);
    let p33 = p32 + strings_entry("conferences"@, d.conferences);
    let p34 = p33 + request_statuses_entry(d.request_statuses);
    assert(crate::ical_entries::todo_fields(d) == p34);
    lemma_last_value_past(p33, request_statuses_entry(d.request_statuses), "title"@);
    lemma_strings_entry_named("conferences"@, d.conferences);
    lemma_last_value_past(p32, strings_entry("conferences"@, d.conferences), "title"@);
    crate::ical_entries::lemma_named_entries("images"@, d);
    lemma_last_value_past(p31, attachments_entry("images"@, d.images), "title"@);
    crate::ical_entries::lemma_named_entries("resources"@, d);
    lemma_last_value_past(p30, nested_strings_entry("resources"@, d.resources), "title"@);
    lemma_strings_entry_named("related_to"@, d.related_to);
    lemma_last_value_past(p29, strings_entry("related_to"@, d.related_to), "title"@);
    lemma_strings_entry_named("contacts"@, d.contacts);
    lemma_last_value_past(p28, strings_entry("contacts"@, d.contacts), "title"@);
    lemma_strings_entry_named("comments"@, d.comments);
    lemma_last_value_past(p27, strings_entry("comments"@, d.comments), "title"@);
    lemma_strings_entry_named("attendees"@, d.attendees);
    lemma_last_value_past(p26, strings_entry("attendees"@, d.attendees), "title"@);
    crate::ical_entries::lemma_named_entries("attachments"@, d);
    lemma_last_value_past(p25, attachments_entry("attachments"@, d.attachments), "title"@);
    crate::ical_entries::lemma_named_entries("exdates"@, d);
    lemma_last_value_past(p24, dtods_entry("exdates"@, d.exdates), "title"@);
    crate::ical_entries::lemma_named_entries("rdates"@, d);
    lemma_last_value_past(p23, flat_dtods_entry("rdates"@, d.rdates), "title"@);
    lemma_last_value_past(p22, rrule_entry(d), "title"@);
    crate::ical_entries::lemma_named_entries("recurrence_id"@, d);
    lemma_last_value_past(p21, dtod_entry("recurrence_id"@, d.recurrence_id), "title"@);
    lemma_dt_entry_named("completed"@, d.completed);
    lemma_last_value_past(p20, dt_entry("completed"@, d.completed), "title"@);
    lemma_str_entry_named("url"@, d.url);
    lemma_last_value_past(p19, str_entry("url"@, d.url), "title"@);
    lemma_last_value_past(p18, sequence_entry(d), "title"@);
    lemma_str_entry_named("organizer"@, d.organizer);
    lemma_last_value_past(p17, str_entry("organizer"@, d.organizer), "title"@);
    lemma_dt_entry_named("last_modified"@, d.last_modified);
    lemma_last_value_past(p16, dt_entry("last_modified"@, d.last_modified), "title"@);
    lemma_last_value_past(p15, geo_entry(d), "title"@);
    lemma_dt_entry_named("created"@, d.created);
    lemma_last_value_past(p14, dt_entry("created"@, d.created), "title"@);
    lemma_last_value_past(p13, class_entry(d), "title"@);
    lemma_dt_entry_named("dtstamp"@, d.dtstamp);
    lemma_last_value_past(p12, dt_entry("dtstamp"@, d.dtstamp), "title"@);
    crate::ical_entries::lemma_named_entries("categories"@, d);
    lemma_last_value_past(p11, flat_strings_entry("categories"@, d.categories), "title"@);
    lemma_str_entry_named("color"@, d.color);
    lemma_last_value_past(p10, str_entry("color"@, d.color), "title"@);
    lemma_str_entry_named("location"@, d.location);
    lemma_last_value_past(p9, str_entry("location"@, d.location), "title"@);
    lemma_priority_entry_named(d);
    lemma_last_value_past(p8, priority_entry(d), "title"@);
    lemma_last_value_past(p7, status_entry(d), "title"@);
    lemma_percent_entry_named(d);
    lemma_last_value_past(p6, crate::ical_entries::percent_entry(d), "title"@);
    crate::ical_export::lemma_duration_entry_named_ical("estimated_duration"@, d.duration);
    lemma_last_value_past(p5, crate::ical_entries::duration_entry("estimated_duration"@, d.duration), "title"@);
    lemma_last_value_past(p4, start_entries(d), "title"@);
    lemma_dtod_due_named(d);
    lemma_last_value_past(p3, dtod_entry("due"@, d.due), "title"@);
    lemma_str_entry_named("description"@, d.description);
    lemma_last_value_past(p2, str_entry("description"@, d.description), "title"@);
}

#[verifier::spinoff_prover]
proof fn lemma_todo_title_head(d: crate::ical_entries::IcalComponent)
    ensures
        crate::export_values::last_value(seq![("type"@, ImportView::String("task"@))] + str_entry("uid"@, d.uid), "title"@) is None,
{
    reveal_strlit("type");
    reveal_strlit("uid");
    reveal_strlit("title");
    reveal_strlit("description");
    reveal_strlit("due");
    reveal_strlit("start");
    reveal_strlit("time_zone");
    reveal_strlit("estimated_duration");
    reveal_strlit("percent_complete");
    reveal_strlit("status");
    reveal_strlit("priority");
    reveal_strlit("location");
    reveal_strlit("color");
    reveal_strlit("categories");
    reveal_strlit("dtstamp");
    reveal_strlit("class");
    reveal_strlit("created");
    reveal_strlit("geo");
    reveal_strlit("last_modified");
    reveal_strlit("organizer");
    reveal_strlit("sequence");
    reveal_strlit("url");
    reveal_strlit("completed");
    reveal_strlit("recurrence_id");
    reveal_strlit("recur");
    reveal_strlit("rdates");
    reveal_strlit("exdates");
    reveal_strlit("attachments");
    reveal_strlit("attendees");
    reveal_strlit("comments");
    reveal_strlit("contacts");
    reveal_strlit("related_to");
    reveal_strlit("resources");
    reveal_strlit("images");
    reveal_strlit("conferences");
    reveal_strlit("request_statuses");
    assert("type"@.len() == 4);
    assert("uid"@.len() == 3);
    assert("title"@.len() == 5);
    assert("description"@.len() == 11);
    assert("due"@.len() == 3);
    assert("start"@.len() == 5);
    assert("time_zone"@.len() == 9);
    assert("estimated_duration"@.len() == 18);
    assert("percent_complete"@.len() == 16);
    assert("status"@.len() == 6);
    assert("priority"@.len() == 8);
    assert("location"@.len() == 8);
    assert("color"@.len() == 5);
    assert("categories"@.len() == 10);
    assert("dtstamp"@.len() == 7);
    assert("class"@.len() == 5);
    assert("created"@.len() == 7);
    assert("geo"@.len() == 3);
    assert("last_modified"@.len() == 13);
    assert("organizer"@.len() == 9);
    assert("sequence"@.len() == 8);
    assert("url"@.len() == 3);
    assert("completed"@.len() == 9);
    assert("recurrence_id"@.len() == 13);
    assert("recur"@.len() == 5);
    assert("rdates"@.len() == 6);
    assert("exdates"@.len() == 7);
    assert("attachments"@.len() == 11);
    assert("attendees"@.len() == 9);
    assert("comments"@.len() == 8);
    assert("contacts"@.len() == 8);
    assert("related_to"@.len() == 10);
    assert("resources"@.len() == 9);
    assert("images"@.len() == 6);
    assert("conferences"@.len() == 11);
    assert("request_statuses"@.len() == 16);
    assert("start"@[0] == 's' && "title"@[0] == 't');
    assert("color"@[0] == 'c' && "title"@[0] == 't');
    assert("class"@[0] == 'c' && "title"@[0] == 't');
    assert("recur"@[0] == 'r' && "title"@[0] == 't');
    crate::ical_entries::lemma_entry_names(d);
    let p0 = seq![("type"@, ImportView::String("task"@))];
    let p1 = p0 + str_entry("uid"@, d.uid);
    lemma_str_entry_named("uid"@, d.uid);
    lemma_last_value_past(p0, str_entry("uid"@, d.uid), "title"@);
    assert(p0.last().0 != "title"@);
    assert(p0.drop_last() =~= Seq::<(Seq<char>, ImportView)>::empty());
    assert(crate::export_values::last_value(p0.drop_last(), "title"@) is None);
    assert(crate::export_values::last_value(p0, "title"@) is None);
}

proof fn lemma_todo_field_title(d: crate::ical_entries::IcalComponent)
    ensures
        text_of_opt(crate::export_values::last_value(crate::ical_entries::todo_fields(d), "title"@)) == opt_text(d.summary),
{
    lemma_todo_title_tail(d);
    lemma_todo_title_head(d);
    lemma_last_value_str(seq![("type"@, ImportView::String("task"@))] + str_entry("uid"@, d.uid), "title"@, d.summary);
}

#[verifier::spinoff_prover]
proof fn lemma_todo_description_tail(d: crate::ical_entries::IcalComponent)
    ensures
        crate::export_values::last_value(crate::ical_entries::todo_fields(d), "description"@) == crate::export_values::last_value(seq![("type"@, ImportView::String("task"@))] + str_entry("uid"@, d.uid) + str_entry("title"@, d.summary) + str_entry("description"@, d.description), "description"@),
{
    reveal_strlit("type");
    reveal_strlit("uid");
    reveal_strlit("title");
    reveal_strlit("description");
    reveal_strlit("due");
    reveal_strlit("start");
    reveal_strlit("time_zone");
    reveal_strlit("estimated_duration");
    reveal_strlit("percent_complete");
    reveal_strlit("status");
    reveal_strlit("priority");
    reveal_strlit("location");
    reveal_strlit("color");
    reveal_strlit("categories");
    reveal_strlit("dtstamp");
    reveal_strlit("class");
    reveal_strlit("created");
    reveal_strlit("geo");
    reveal_strlit("last_modified");
    reveal_strlit("organizer");
    reveal_strlit("sequence");
    reveal_strlit("url");
    reveal_strlit("completed");
    reveal_strlit("recurrence_id");
    reveal_strlit("recur");
    reveal_strlit("rdates");
    reveal_strlit("exdates");
    reveal_strlit("attachments");
    reveal_strlit("attendees");
    reveal_strlit("comments");
    reveal_strlit("contacts");
    reveal_strlit("related_to");
    reveal_strlit("resources");
    reveal_strlit("images");
    reveal_strlit("conferences");
    reveal_strlit("request_statuses");
    assert("type"@.len() == 4);
    assert("uid"@.len() == 3);
    assert("title"@.len() == 5);
    assert("description"@.len() == 11);
    assert("due"@.len() == 3);
    assert("start"@.len() == 5);
    assert("time_zone"@.len() == 9);
    assert("estimated_duration"@.len() == 18);
    assert("percent_complete"@.len() == 16);
    assert("status"@.len() == 6);
    assert("priority"@.len() == 8);
    assert("location"@.len() == 8);
    assert("color"@.len() == 5);
    assert("categories"@.len() == 10);
    assert("dtstamp"@.len() == 7);
    assert("class"@.len() == 5);
    assert("created"@.len() == 7);
    assert("geo"@.len() == 3);
    assert("last_modified"@.len() == 13);
    assert("organizer"@.len() == 9);
    assert("sequence"@.len() == 8);
    assert("url"@.len() == 3);
    assert("completed"@.len() == 9);
    assert("recurrence_id"@.len() == 13);
    assert("recur"@.len() == 5);
    assert("rdates"@.len() == 6);
    assert("exdates"@.len() == 7);
    assert("attachments"@.len() == 11);
    assert("attendees"@.len() == 9);
    assert("comments"@.len() == 8);
    assert("contacts"@.len() == 8);
    assert("related_to"@.len() == 10);
    assert("resources"@.len() == 9);
    assert("images"@.len() == 6);
    assert("conferences"@.len() == 11);
    assert("request_statuses"@.len() == 16);
    assert("attachments"@[0] == 'a' && "description"@[0] == 'd');
    assert("conferences"@[0] == 'c' && "description"@[0] == 'd');
    crate::ical_entries::lemma_entry_names(d);
    let p0 = seq![("type"@, ImportView::String("task"@))];
    let p1 = p0 + str_entry("uid"@, d.uid);
    let p2 = p1 + str_entry("title"@, d.summary);
    let p3 = p2 + str_entry("description"@, d.description);
    let p4 = p3 + dtod_entry("due"@, d.due);
    let p5 = p4 + start_entries(d);
    let p6 = p5 + crate::ical_entries::duration_entry("estimated_duration"@, d.duration);
    let p7 = p6 + crate::ical_entries::percent_entry(d);
    let p8 = p7 + status_entry(d);
    let p9 = p8 + priority_entry(d);
    let p10 = p9 + str_entry("location"@, d.location);
    let p11 = p10 + str_entry("color"@, d.color);
    let p12 = p11 + flat_strings_entry("categories"@, d.categories);
    let p13 = p12 + dt_entry("dtstamp"@, d.dtstamp);
    let p14 = p13 + class_entry(d);
    let p15 = p14 + dt_entry("created"@, d.created);
    let p16 = p15 + geo_entry(d);
    let p17 = p16 + dt_entry("last_modified"@, d.last_modified);
    let p18 = p17 + str_entry("organizer"@, d.organizer);
    let p19 = p18 + sequence_entry(d);
    let p20 = p19 + str_entry("url"@, d.url);
    let p21 = p20 + dt_entry("completed"@, d.completed);
    let p22 = p21 + dtod_entry("recurrence_id"@, d.recurrence_id);
    let p23 = p22 + rrule_entry(d);
    let p24 = p23 + flat_dtods_entry("rdates"@, d.rdates);
    let p25 = p24 + dtods_entry("exdates"@, d.exdates);
    let p26 = p25 + attachments_entry("attachments"@, d.attachments);
    let p27 = p26 + strings_entry("attendees"@, d.attendees);
    let p28 = p27 + strings_entry("comments"@, d.comments);
    let p29 = p28 + strings_entry("contacts"@, d.contacts);
    let p30 = p29 + strings_entry("related_to"@, d.related_to);
    let p31 = p30 + nested_strings_entry("resources"@, d.resources);
    let p32 = p31 + attachments_entry("images"@, d.images);
    let p33 = p32 + strings_entry("conferences"@, d.conferences);
    let p34 = p33 + request_statuses_entry(d.request_statuses);
    assert(crate::ical_entries::todo_fields(d) == p34);
    lemma_last_value_past(p33, request_statuses_entry(d.request_statuses), "description"@);
    lemma_strings_entry_named("conferences"@, d.conferences);
    lemma_last_value_past(p32, strings_entry("conferences"@, d.conferences), "description"@);
    crate::ical_entries::lemma_named_entries("images"@, d);
    lemma_last_value_past(p31, attachments_entry("images"@, d.images), "description"@);
    crate::ical_entries::lemma_named_entries("resources"@, d);
    lemma_last_value_past(p30, nested_strings_entry("resources"@, d.resources), "description"@);
    lemma_strings_entry_named("related_to"@, d.related_to);
    lemma_last_value_past(p29, strings_entry("related_to"@, d.related_to), "description"@);
    lemma_strings_entry_named("contacts"@, d.contacts);
    lemma_last_value_past(p28, strings_entry("contacts"@, d.contacts), "description"@);
    lemma_strings_entry_named("comments"@, d.comments);
    lemma_last_value_past(p27, strings_entry("comments"@, d.comments), "description"@);
    lemma_strings_entry_named("attendees"@, d.attendees);
    lemma_last_value_past(p26, strings_entry("attendees"@, d.attendees), "description"@);
    crate::ical_entries::lemma_named_entries("attachments"@, d);
    lemma_last_value_past(p25, attachments_entry("attachments"@, d.attachments), "description"@);
    crate::ical_entries::lemma_named_entries("exdates"@, d);
    lemma_last_value_past(p24, dtods_entry("exdates"@, d.exdates), "description"@);
    crate::ical_entries::lemma_named_entries("rdates"@, d);
    lemma_last_value_past(p23, flat_dtods_entry("rdates"@, d.rdates), "description"@);
    lemma_last_value_past(p22, rrule_entry(d), "description"@);
    crate::ical_entries::lemma_named_entries("recurrence_id"@, d);
    lemma_last_value_past(p21, dtod_entry("recurrence_id"@, d.recurrence_id), "description"@);
    lemma_dt_entry_named("completed"@, d.completed);
    lemma_last_value_past(p20, dt_entry("completed"@, d.completed), "description"@);
    lemma_str_entry_named("url"@, d.url);
    lemma_last_value_past(p19, str_entry("url"@, d.url), "description"@);
    lemma_last_value_past(p18, sequence_entry(d), "description"@);
    lemma_str_entry_named("organizer"@, d.organizer);
    lemma_last_value_past(p17, str_entry("organizer"@, d.organizer), "description"@);
    lemma_dt_entry_named("last_modified"@, d.last_modified);
    lemma_last_value_past(p16, dt_entry("last_modified"@, d.last_modified), "description"@);
    lemma_last_value_past(p15, geo_entry(d), "description"@);
    lemma_dt_entry_named("created"@, d.created);
    lemma_last_value_past(p14, dt_entry("created"@, d.created), "description"@);
    lemma_last_value_past(p13, class_entry(d), "description"@);
    lemma_dt_entry_named("dtstamp"@, d.dtstamp);
    lemma_last_value_past(p12, dt_entry("dtstamp"@, d.dtstamp), "description"@);
    crate::ical_entries::lemma_named_entries("categories"@, d);
    lemma_last_value_past(p11, flat_strings_entry("categories"@, d.categories), "description"@);
    lemma_str_entry_named("color"@, d.color);
    lemma_last_value_past(p10, str_entry("color"@, d.color), "description"@);
    lemma_str_entry_named("location"@, d.location);
    lemma_last_value_past(p9, str_entry("location"@, d.location), "description"@);
    lemma_priority_entry_named(d);
    lemma_last_value_past(p8, priority_entry(d), "description"@);
    lemma_last_value_past(p7, status_entry(d), "description"@);
    lemma_percent_entry_named(d);
    lemma_last_value_past(p6, crate::ical_entries::percent_entry(d), "description"@);
    crate::ical_export::lemma_duration_entry_named_ical("estimated_duration"@, d.duration);
    lemma_last_value_past(p5, crate::ical_entries::duration_entry("estimated_duration"@, d.duration), "description"@);
    lemma_last_value_past(p4, start_entries(d), "description"@);
    lemma_dtod_due_named(d);
    lemma_last_value_past(p3, dtod_entry("due"@, d.due), "description"@);
}

#[verifier::spinoff_prover]
proof fn lemma_todo_description_head(d: crate::ical_entries::IcalComponent)
    ensures
        crate::export_values::last_value(seq![("type"@, ImportView::String("task"@))] + str_entry("uid"@, d.uid) + str_entry("title"@, d.summary), "description"@) is None,
{
    reveal_strlit("type");
    reveal_strlit("uid");
    reveal_strlit("title");
    reveal_strlit("description");
    reveal_strlit("due");
    reveal_strlit("start");
    reveal_strlit("time_zone");
    reveal_strlit("estimated_duration");
    reveal_strlit("percent_complete");
    reveal_strlit("status");
    reveal_strlit("priority");
    reveal_strlit("location");
    reveal_strlit("color");
    reveal_strlit("categories");
    reveal_strlit("dtstamp");
    reveal_strlit("class");
    reveal_strlit("created");
    reveal_strlit("geo");
    reveal_strlit("last_modified");
    reveal_strlit("organizer");
    reveal_strlit("sequence");
    reveal_strlit("url");
    reveal_strlit("completed");
    reveal_strlit("recurrence_id");
    reveal_strlit("recur");
    reveal_strlit("rdates");
    reveal_strlit("exdates");
    reveal_strlit("attachments");
    reveal_strlit("attendees");
    reveal_strlit("comments");
    reveal_strlit("contacts");
    reveal_strlit("related_to");
    reveal_strlit("resources");
    reveal_strlit("images");
    reveal_strlit("conferences");
    reveal_strlit("request_statuses");
    assert("type"@.len() == 4);
    assert("uid"@.len() == 3);
    assert("title"@.len() == 5);
    assert("description"@.len() == 11);
    assert("due"@.len() == 3);
    assert("start"@.len() == 5);
    assert("time_zone"@.len() == 9);
    assert("estimated_duration"@.len() == 18);
    assert("percent_complete"@.len() == 16);
    assert("status"@.len() == 6);
    assert("priority"@.len() == 8);
    assert("location"@.len() == 8);
    assert("color"@.len() == 5);
    assert("categories"@.len() == 10);
    assert("dtstamp"@.len() == 7);
    assert("class"@.len() == 5);
    assert("created"@.len() == 7);
    assert("geo"@.len() == 3);
    assert("last_modified"@.len() == 13);
    assert("organizer"@.len() == 9);
    assert("sequence"@.len() == 8);
    assert("url"@.len() == 3);
    assert("completed"@.len() == 9);
    assert("recurrence_id"@.len() == 13);
    assert("recur"@.len() == 5);
    assert("rdates"@.len() == 6);
    assert("exdates"@.len() == 7);
    assert("attachments"@.len() == 11);
    assert("attendees"@.len() == 9);
    assert("comments"@.len() == 8);
    assert("contacts"@.len() == 8);
    assert("related_to"@.len() == 10);
    assert("resources"@.len() == 9);
    assert("images"@.len() == 6);
    assert("conferences"@.len() == 11);
    assert("request_statuses"@.len() == 16);
    assert("attachments"@[0] == 'a' && "description"@[0] == 'd');
    assert("conferences"@[0] == 'c' && "description"@[0] == 'd');
    crate::ical_entries::lemma_entry_names(d);
    let p0 = seq![("type"@, ImportView::String("task"@))];
    let p1 = p0 + str_entry("uid"@, d.uid);
    let p2 = p1 + str_entry("title"@, d.summary);
    lemma_str_entry_named("title"@, d.summary);
    lemma_last_value_past(p1, str_entry("title"@, d.summary), "description"@);
    lemma_str_entry_named("uid"@, d.uid);
    lemma_last_value_past(p0, str_entry("uid"@, d.uid), "description"@);
    assert(p0.last().0 != "description"@);
    assert(p0.drop_last() =~= Seq::<(Seq<char>, ImportView)>::empty());
    assert(crate::export_values::last_value(p0.drop_last(), "description"@) is None);
    assert(crate::export_values::last_value(p0, "description"@) is None);
}

proof fn lemma_todo_field_description(d: crate::ical_entries::IcalComponent)
    ensures
        text_of_opt(crate::export_values::last_value(crate::ical_entries::todo_fields(d), "description"@)) == opt_text(d.description),
{
    lemma_todo_description_tail(d);
    lemma_todo_description_head(d);
    lemma_last_value_str(seq![("type"@, ImportView::String("task"@))] + str_entry("uid"@, d.uid) + str_entry("title"@, d.summary), "description"@, d.description);
}

#[verifier::spinoff_prover]
proof fn lemma_todo_location_tail(d: crate::ical_entries::IcalComponent)
    ensures
        crate::export_values::last_value(crate::ical_entries::todo_fields(d), "location"@) == crate::export_values::last_value(seq![("type"@, ImportView::String("task"@))] + str_entry("uid"@, d.uid) + str_entry("title"@, d.summary) + str_entry("description"@, d.description) + dtod_entry("due"@, d.due) + start_entries(d) + crate::ical_entries::duration_entry("estimated_duration"@, d.duration) + crate::ical_entries::percent_entry(d) + status_entry(d) + priority_entry(d) + str_entry("location"@, d.location), "location"@),
{
    reveal_strlit("type");
    reveal_strlit("uid");
    reveal_strlit("title");
    reveal_strlit("description");
    reveal_strlit("due");
    reveal_strlit("start");
    reveal_strlit("time_zone");
    reveal_strlit("estimated_duration");
    reveal_strlit("percent_complete");
    reveal_strlit("status");
    reveal_strlit("priority");
    reveal_strlit("location");
    reveal_strlit("color");
    reveal_strlit("categories");
    reveal_strlit("dtstamp");
    reveal_strlit("class");
    reveal_strlit("created");
    reveal_strlit("geo");
    reveal_strlit("last_modified");
    reveal_strlit("organizer");
    reveal_strlit("sequence");
    reveal_strlit("url");
    reveal_strlit("completed");
    reveal_strlit("recurrence_id");
    reveal_strlit("recur");
    reveal_strlit("rdates");
    reveal_strlit("exdates");
    reveal_strlit("attachments");
    reveal_strlit("attendees");
    reveal_strlit("comments");
    reveal_strlit("contacts");
    reveal_strlit("related_to");
    reveal_strlit("resources");
    reveal_strlit("images");
    reveal_strlit("conferences");
    reveal_strlit("request_statuses");
    assert("type"@.len() == 4);
    assert("uid"@.len() == 3);
    assert("title"@.len() == 5);
    assert("description"@.len() == 11);
    assert("due"@.len() == 3);
    assert("start"@.len() == 5);
    assert("time_zone"@.len() == 9);
    assert("estimated_duration"@.len() == 18);
    assert("percent_complete"@.len() == 16);
    assert("status"@.len() == 6);
    assert("priority"@.len() == 8);
    assert("location"@.len() == 8);
    assert("color"@.len() == 5);
    assert("categories"@.len() == 10);
    assert("dtstamp"@.len() == 7);
    assert("class"@.len() == 5);
    assert("created"@.len() == 7);
    assert("geo"@.len() == 3);
    assert("last_modified"@.len() == 13);
    assert("organizer"@.len() == 9);
    assert("sequence"@.len() == 8);
    assert("url"@.len() == 3);
    assert("completed"@.len() == 9);
    assert("recurrence_id"@.len() == 13);
    assert("recur"@.len() == 5);
    assert("rdates"@.len() == 6);
    assert("exdates"@.len() == 7);
    assert("attachments"@.len() == 11);
    assert("attendees"@.len() == 9);
    assert("comments"@.len() == 8);
    assert("contacts"@.len() == 8);
    assert("related_to"@.len() == 10);
    assert("resources"@.len() == 9);
    assert("images"@.len() == 6);
    assert("conferences"@.len() == 11);
    assert("request_statuses"@.len() == 16);
    assert("priority"@[0] == 'p' && "location"@[0] == 'l');
    assert("sequence"@[0] == 's' && "location"@[0] == 'l');
    assert("comments"@[0] == 'c' && "location"@[0] == 'l');
    assert("contacts"@[0] == 'c' && "location"@[0] == 'l');
    crate::ical_entries::lemma_entry_names(d);
    let p0 = seq![("type"@, ImportView::String("task"@))];
    let p1 = p0 + str_entry("uid"@, d.uid);
    let p2 = p1 + str_entry("title"@, d.summary);
    let p3 = p2 + str_entry("description"@, d.description);
    let p4 = p3 + dtod_entry("due"@, d.due);
    let p5 = p4 + start_entries(d);
    let p6 = p5 + crate::ical_entries::duration_entry("estimated_duration"@, d.duration);
    let p7 = p6 + crate::ical_entries::percent_entry(d);
    let p8 = p7 + status_entry(d);
    let p9 = p8 + priority_entry(d);
    let p10 = p9 + str_entry("location"@, d.location);
    let p11 = p10 + str_entry("color"@, d.color);
    let p12 = p11 + flat_strings_entry("categories"@, d.categories);
    let p13 = p12 + dt_entry("dtstamp"@, d.dtstamp);
    let p14 = p13 + class_entry(d);
    let p15 = p14 + dt_entry("created"@, d.created);
    let p16 = p15 + geo_entry(d);
    let p17 = p16 + dt_entry("last_modified"@, d.last_modified);
    let p18 = p17 + str_entry("organizer"@, d.organizer);
    let p19 = p18 + sequence_entry(d);
    let p20 = p19 + str_entry("url"@, d.url);
    let p21 = p20 + dt_entry("completed"@, d.completed);
    let p22 = p21 + dtod_entry("recurrence_id"@, d.recurrence_id);
    let p23 = p22 + rrule_entry(d);
    let p24 = p23 + flat_dtods_entry("rdates"@, d.rdates);
    let p25 = p24 + dtods_entry("exdates"@, d.exdates);
    let p26 = p25 + attachments_entry("attachments"@, d.attachments);
    let p27 = p26 + strings_entry("attendees"@, d.attendees);
    let p28 = p27 + strings_entry("comments"@, d.comments);
    let p29 = p28 + strings_entry("contacts"@, d.contacts);
    let p30 = p29 + strings_entry("related_to"@, d.related_to);
    let p31 = p30 + nested_strings_entry("resources"@, d.resources);
    let p32 = p31 + attachments_entry("images"@, d.images);
    let p33 = p32 + strings_entry("conferences"@, d.conferences);
    let p34 = p33 + request_statuses_entry(d.request_statuses);
    assert(crate::ical_entries::todo_fields(d) == p34);
    lemma_last_value_past(p33, request_statuses_entry(d.request_statuses), "location"@);
    lemma_strings_entry_named("conferences"@, d.conferences);
    lemma_last_value_past(p32, strings_entry("conferences"@, d.conferences), "location"@);
    crate::ical_entries::lemma_named_entries("images"@, d);
    lemma_last_value_past(p31, attachments_entry("images"@, d.images), "location"@);
    crate::ical_entries::lemma_named_entries("resources"@, d);
    lemma_last_value_past(p30, nested_strings_entry("resources"@, d.resources), "location"@);
    lemma_strings_entry_named("related_to"@, d.related_to);
    lemma_last_value_past(p29, strings_entry("related_to"@, d.related_to), "location"@);
    lemma_strings_entry_named("contacts"@, d.contacts);
    lemma_last_value_past(p28, strings_entry("contacts"@, d.contacts), "location"@);
    lemma_strings_entry_named("comments"@, d.comments);
    lemma_last_value_past(p27, strings_entry("comments"@, d.comments), "location"@);
    lemma_strings_entry_named("attendees"@, d.attendees);
    lemma_last_value_past(p26, strings_entry("attendees"@, d.attendees), "location"@);
    crate::ical_entries::lemma_named_entries("attachments"@, d);
    lemma_last_value_past(p25, attachments_entry("attachments"@, d.attachments), "location"@);
    crate::ical_entries::lemma_named_entries("exdates"@, d);
    lemma_last_value_past(p24, dtods_entry("exdates"@, d.exdates), "location"@);
    crate::ical_entries::lemma_named_entries("rdates"@, d);
    lemma_last_value_past(p23, flat_dtods_entry("rdates"@, d.rdates), "location"@);
    lemma_last_value_past(p22, rrule_entry(d), "location"@);
    crate::ical_entries::lemma_named_entries("recurrence_id"@, d);
    lemma_last_value_past(p21, dtod_entry("recurrence_id"@, d.recurrence_id), "location"@);
    lemma_dt_entry_named("completed"@, d.completed);
    lemma_last_value_past(p20, dt_entry("completed"@, d.completed), "location"@);
    lemma_str_entry_named("url"@, d.url);
    lemma_last_value_past(p19, str_entry("url"@, d.url), "location"@);
    lemma_last_value_past(p18, sequence_entry(d), "location"@);
    lemma_str_entry_named("organizer"@, d.organizer);
    lemma_last_value_past(p17, str_entry("organizer"@, d.organizer), "location"@);
    lemma_dt_entry_named("last_modified"@, d.last_modified);
    lemma_last_value_past(p16, dt_entry("last_modified"@, d.last_modified), "location"@);
    lemma_last_value_past(p15, geo_entry(d), "location"@);
    lemma_dt_entry_named("created"@, d.created);
    lemma_last_value_past(p14, dt_entry("created"@, d.created), "location"@);
    lemma_last_value_past(p13, class_entry(d), "location"@);
    lemma_dt_entry_named("dtstamp"@, d.dtstamp);
    lemma_last_value_past(p12, dt_entry("dtstamp"@, d.dtstamp), "location"@);
    crate::ical_entries::lemma_named_entries("categories"@, d);
    lemma_last_value_past(p11, flat_strings_entry("categories"@, d.categories), "location"@);
    lemma_str_entry_named("color"@, d.color);
    lemma_last_value_past(p10, str_entry("color"@, d.color), "location"@);
}

#[verifier::spinoff_prover]
proof fn lemma_todo_location_head(d: crate::ical_entries::IcalComponent)
    ensures
        crate::export_values::last_value(seq![("type"@, ImportView::String("task"@))] + str_entry("uid"@, d.uid) + str_entry("title"@, d.summary) + str_entry("description"@, d.description) + dtod_entry("due"@, d.due) + start_entries(d) + crate::ical_entries::duration_entry("estimated_duration"@, d.duration) + crate::ical_entries::percent_entry(d) + status_entry(d) + priority_entry(d), "location"@) is None,
{
    reveal_strlit("type");
    reveal_strlit("uid");
    reveal_strlit("title");
    reveal_strlit("description");
    reveal_strlit("due");
    reveal_strlit("start");
    reveal_strlit("time_zone");
    reveal_strlit("estimated_duration");
    reveal_strlit("percent_complete");
    reveal_strlit("status");
    reveal_strlit("priority");
    reveal_strlit("location");
    reveal_strlit("color");
    reveal_strlit("categories");
    reveal_strlit("dtstamp");
    reveal_strlit("class");
    reveal_strlit("created");
    reveal_strlit("geo");
    reveal_strlit("last_modified");
    reveal_strlit("organizer");
    reveal_strlit("sequence");
    reveal_strlit("url");
    reveal_strlit("completed");
    reveal_strlit("recurrence_id");
    reveal_strlit("recur");
    reveal_strlit("rdates");
    reveal_strlit("exdates");
    reveal_strlit("attachments");
    reveal_strlit("attendees");
    reveal_strlit("comments");
    reveal_strlit("contacts");
    reveal_strlit("related_to");
    reveal_strlit("resources");
    reveal_strlit("images");
    reveal_strlit("conferences");
    reveal_strlit("request_statuses");
    assert("type"@.len() == 4);
    assert("uid"@.len() == 3);
    assert("title"@.len() == 5);
    assert("description"@.len() == 11);
    assert("due"@.len() == 3);
    assert("start"@.len() == 5);
    assert("time_zone"@.len() == 9);
    assert("estimated_duration"@.len() == 18);
    assert("percent_complete"@.len() == 16);
    assert("status"@.len() == 6);
    assert("priority"@.len() == 8);
    assert("location"@.len() == 8);
    assert("color"@.len() == 5);
    assert("categories"@.len() == 10);
    assert("dtstamp"@.len() == 7);
    assert("class"@.len() == 5);
    assert("created"@.len() == 7);
    assert("geo"@.len() == 3);
    assert("last_modified"@.len() == 13);
    assert("organizer"@.len() == 9);
    assert("sequence"@.len() == 8);
    assert("url"@.len() == 3);
    assert("completed"@.len() == 9);
    assert("recurrence_id"@.len() == 13);
    assert("recur"@.len() == 5);
    assert("rdates"@.len() == 6);
    assert("exdates"@.len() == 7);
    assert("attachments"@.len() == 11);
    assert("attendees"@.len() == 9);
    assert("comments"@.len() == 8);
    assert("contacts"@.len() == 8);
    assert("related_to"@.len() == 10);
    assert("resources"@.len() == 9);
    assert("images"@.len() == 6);
    assert("conferences"@.len() == 11);
    assert("request_statuses"@.len() == 16);
    assert("priority"@[0] == 'p' && "location"@[0] == 'l');
    assert("sequence"@[0] == 's' && "location"@[0] == 'l');
    assert("comments"@[0] == 'c' && "location"@[0] == 'l');
    assert("contacts"@[0] == 'c' && "location"@[0] == 'l');
    crate::ical_entries::lemma_entry_names(d);
    let p0 = seq![("type"@, ImportView::String("task"@))];
    let p1 = p0 + str_entry("uid"@, d.uid);
    let p2 = p1 + str_entry("title"@, d.summary);
    let p3 = p2 + str_entry("description"@, d.description);
    let p4 = p3 + dtod_entry("due"@, d.due);
    let p5 = p4 + start_entries(d);
    let p6 = p5 + crate::ical_entries::duration_entry("estimated_duration"@, d.duration);
    let p7 = p6 + crate::ical_entries::percent_entry(d);
    let p8 = p7 + status_entry(d);
    let p9 = p8 + priority_entry(d);
    lemma_priority_entry_named(d);
    lemma_last_value_past(p8, priority_entry(d), "location"@);
    lemma_last_value_past(p7, status_entry(d), "location"@);
    lemma_percent_entry_named(d);
    lemma_last_value_past(p6, crate::ical_entries::percent_entry(d), "location"@);
    crate::ical_export::lemma_duration_entry_named_ical("estimated_duration"@, d.duration);
    lemma_last_value_past(p5, crate::ical_entries::duration_entry("estimated_duration"@, d.duration), "location"@);
    lemma_last_value_past(p4, start_entries(d), "location"@);
    lemma_dtod_due_named(d);
    lemma_last_value_past(p3, dtod_entry("due"@, d.due), "location"@);
    lemma_str_entry_named("description"@, d.description);
    lemma_last_value_past(p2, str_entry("description"@, d.description), "location"@);
    lemma_str_entry_named("title"@, d.summary);
    lemma_last_value_past(p1, str_entry("title"@, d.summary), "location"@);
    lemma_str_entry_named("uid"@, d.uid);
    lemma_last_value_past(p0, str_entry("uid"@, d.uid), "location"@);
    assert(p0.last().0 != "location"@);
    assert(p0.drop_last() =~= Seq::<(Seq<char>, ImportView)>::empty());
    assert(crate::export_values::last_value(p0.drop_last(), "location"@) is None);
    assert(crate::export_values::last_value(p0, "location"@) is None);
}

proof fn lemma_todo_field_location(d: crate::ical_entries::IcalComponent)
    ensures
        text_of_opt(crate::export_values::last_value(crate::ical_entries::todo_fields(d), "location"@)) == opt_text(d.location),
{
    lemma_todo_location_tail(d);
    lemma_todo_location_head(d);
    lemma_last_value_str(seq![("type"@, ImportView::String("task"@))] + str_entry("uid"@, d.uid) + str_entry("title"@, d.summary) + str_entry("description"@, d.description) + dtod_entry("due"@, d.due) + start_entries(d) + crate::ical_entries::duration_entry("estimated_duration"@, d.duration) + crate::ical_entries::percent_entry(d) + status_entry(d) + priority_entry(d), "location"@, d.location);
}


/// Reading an iCalendar task into a record and building the task to write
/// from that record gives back its identifier, summary, description and
/// location (where no extension property of it takes one of those field
/// names).
pub proof fn lemma_ical_task_round_trip(d: crate::ical_entries::IcalComponent, c: IcalComponentOut)
    requires
        task_properties(c, crate::ical_entries::todo_record(d)),
        forall|i: int|
            0 <= i < d.x_properties@.len() ==> {
                let n = crate::ical_entries::x_field_name(crate::ical_import::lowercase(#[trigger] d.x_properties@[i].0@));
                n != "uid"@ && n != "title"@ && n != "description"@ && n != "location"@
            },
    ensures
        opt_text(c.uid) == opt_text(d.uid),
        opt_text(c.summary) == opt_text(d.summary),
        opt_text(c.description) == opt_text(d.description),
        opt_text(c.location) == opt_text(d.location),
{
    let fields = crate::ical_entries::todo_fields(d);
    let xs = crate::ical_entries::x_props_view(d.x_properties@);
    crate::import_value::lemma_import_record_of_sorted(fields);
    let keys = seq!["uid"@, "title"@, "description"@, "location"@];
    assert forall|j: int| 0 <= j < 4 implies {
        &&& key_lookup(crate::ical_entries::todo_record(d), #[trigger] keys[j]) == crate::export_values::last_value(fields, keys[j])
    } by {
        assert forall|i: int| 0 <= i < xs.len() implies crate::ical_entries::x_field_name(crate::ical_import::lowercase(#[trigger] xs[i].0)) != keys[j] by {
            assert(xs[i].0 == d.x_properties@[i].0@);
        }
        lemma_x_lookup(crate::import_value::import_record_of(fields), xs, keys[j]);
        crate::export_values::lemma_import_record_lookup(fields, keys[j]);
    }
    assert(keys[0] == "uid"@ && keys[1] == "title"@ && keys[2] == "description"@ && keys[3] == "location"@);
    lemma_todo_field_uid(d);
    lemma_todo_field_title(d);
    lemma_todo_field_description(d);
    lemma_todo_field_location(d);
}

} // verus!
