//! Reading JSCalendar documents with `serde_json` and `jscalendar`, and the
//! data that translation reads from them.
use vstd::prelude::*;

use jscalendar::json::TryFromJson;
use jscalendar::model::object::{Group as JsGroup, TaskOrEvent};
use jscalendar::model::time::Duration as JsDuration;
use serde_json::Value as Json;

use crate::ical_import::{IcalPriority, PlainDate, PlainDuration, PlainTime};
use crate::ical_source::{plain_datetime, plain_priority};
use crate::import_value::{ImportValue, ImportView};
use crate::jscal_import::{
    js_entry_record, jscal_result, shape_jscal_result, translate_task_or_event, JsEntryData, JsKind,
    PlainJson,
};
use crate::text::{from_chars, push_str, str_eq, to_chars};

verus! {

broadcast use {crate::types::lemma_value_view_unfold, crate::import_value::lemma_import_view_unfold};

#[verifier::external_type_specification]
#[verifier::external_body]
pub struct ExJson(Json);

#[verifier::external_type_specification]
#[verifier::external_body]
pub struct ExLocal(jscalendar::model::time::Local);

#[verifier::external_type_specification]
#[verifier::external_body]
pub struct ExDuration(JsDuration);

/// Parsed JSCalendar events and tasks. (`jscalendar`'s object types are
/// generic over its JSON trait, whose declaration Verus refuses; they are
/// held here out of sight.)
#[verifier::external_body]
pub struct JsParsed {
    entries: Vec<TaskOrEvent<Json>>,
}

/// The texts of strings.
pub open spec fn texts(v: Seq<String>) -> Seq<Seq<char>> {
    v.map_values(|t: String| t@)
}

/// Whether `v` holds the vendor properties `m`, each once, in some order.
pub open spec fn vendor_read(v: Seq<(String, PlainJson)>, m: Map<Seq<char>, PlainJson>) -> bool {
    let names = v.map_values(|e: (String, PlainJson)| e.0@);
    &&& names.no_duplicates()
    &&& names.to_set() == m.dom()
    &&& forall|j: int| 0 <= j < v.len() ==> m[#[trigger] v[j].0@] == v[j].1
}

/// Whether an optional list of strings holds the set `o`, each once, in some
/// order.
pub open spec fn set_read(v: Option<Vec<String>>, o: Option<Set<Seq<char>>>) -> bool {
    match o {
        Some(set) => v matches Some(w) && texts(w@).no_duplicates() && texts(w@).to_set() == set,
        None => v is None,
    }
}

/// What `serde_json::from_str` makes of a document: a JSON value, or the
/// text of the error it reports.
pub uninterp spec fn json_parse(content: Seq<char>) -> Result<Json, Seq<char>>;

/// Whether a document fails to parse as JSON, and if so the text of the
/// error.
pub open spec fn json_parse_failure(content: Seq<char>) -> Option<Seq<char>> {
    match json_parse(content) {
        Ok(_) => None,
        Err(e) => Some(e),
    }
}

/// Calls `serde_json::from_str` for a `serde_json::Value`; a failure is
/// handed back as the error's display text. The outcome depends on the
/// text alone.
#[verifier::external_body]
fn parse_json(content: &str) -> (r: Result<Json, String>)
    ensures
        r is Ok <==> json_parse(content@) is Ok,
        r matches Ok(v) ==> json_parse(content@)->Ok_0 == v,
        r matches Err(e) ==> json_parse(content@)->Err_0 == e@,
{
    match serde_json::from_str::<Json>(content) {
        Ok(v) => Ok(v),
        Err(e) => Err(e.to_string()),
    }
}

/// The shape of a document's top-level JSON value.
pub enum JsonTop {
    Array,
    Object,
    Other,
}

/// What `json_top` reads, for these arguments.
pub uninterp spec fn json_top_of(v: Json) -> JsonTop;

/// Tells a `serde_json::Value` array or object from the rest.
#[verifier::external_body]
fn json_top(v: &Json) -> (r: JsonTop)
    ensures
        r == json_top_of(*v),
{
    match v {
        Json::Array(_) => JsonTop::Array,
        Json::Object(_) => JsonTop::Object,
        _ => JsonTop::Other,
    }
}

/// What `json_elements` reads, for these arguments.
pub uninterp spec fn json_elements_of(v: Json) -> Seq<Json>;

/// The elements of a `serde_json::Value` array (copies); none for other
/// values.
#[verifier::external_body]
fn json_elements(v: &Json) -> (r: Vec<Json>)
    ensures
        r@ == json_elements_of(*v),
{
    match v {
        Json::Array(a) => a.clone(),
        _ => Vec::new(),
    }
}

/// What `json_type_tag` reads, for these arguments.
pub uninterp spec fn json_type_tag_of(v: Json) -> Option<String>;

/// The `@type` member of a `serde_json::Value` object, when it is a string.
#[verifier::external_body]
fn json_type_tag(v: &Json) -> (r: Option<String>)
    ensures
        r == json_type_tag_of(*v),
{
    match v.as_object() {
        Some(o) => o.get("@type").and_then(|t| t.as_str()).map(|t| t.to_string()),
        None => None,
    }
}

/// What `parse_group` reads, for these arguments.
pub uninterp spec fn parse_group_of(v: Json) -> Result<JsParsed, Seq<char>>;

/// Calls `jscalendar`'s `Group::try_from_json` and keeps the group's
/// entries; a failure is handed back as the error's display text.
#[verifier::external_body]
fn parse_group(v: Json) -> (r: Result<JsParsed, String>)
    ensures
        r is Ok <==> parse_group_of(v) is Ok,
        r matches Ok(p) ==> parse_group_of(v)->Ok_0 == p,
        r matches Err(e) ==> parse_group_of(v)->Err_0 == e@,
{
    match JsGroup::<Json>::try_from_json(v) {
        Ok(g) => Ok(JsParsed { entries: g.entries().clone() }),
        Err(e) => Err(e.to_string()),
    }
}

/// What `parse_task_or_event` reads, for these arguments.
pub uninterp spec fn parse_task_or_event_of(v: Json) -> Result<JsParsed, Seq<char>>;

/// Calls `jscalendar`'s `TaskOrEvent::try_from_json`; a failure is handed
/// back as the error's display text.
#[verifier::external_body]
fn parse_task_or_event(v: Json) -> (r: Result<JsParsed, String>)
    ensures
        r is Ok <==> parse_task_or_event_of(v) is Ok,
        r matches Ok(p) ==> parse_task_or_event_of(v)->Ok_0 == p,
        r matches Err(e) ==> parse_task_or_event_of(v)->Err_0 == e@,
{
    match TaskOrEvent::<Json>::try_from_json(v) {
        Ok(t) => Ok(JsParsed { entries: vec![t] }),
        Err(e) => Err(e.to_string()),
    }
}

/// What `js_count` reads, for these arguments.
pub uninterp spec fn js_count_of(p: JsParsed) -> usize;

/// The number of parsed entries.
#[verifier::external_body]
fn js_count(p: &JsParsed) -> (r: usize)
    ensures
        r == js_count_of(*p),
{
    p.entries.len()
}

/// What `js_kind` reads, for these arguments.
pub uninterp spec fn js_kind_of(p: JsParsed, i: usize) -> JsKind;

/// Whether entry `i` is an event, a task, or another kind.
#[verifier::external_body]
fn js_kind(p: &JsParsed, i: usize) -> (r: JsKind)
    ensures
        r == js_kind_of(*p, i),
{
    match p.entries.get(i) {
        Some(TaskOrEvent::Event(_)) => JsKind::Event,
        Some(TaskOrEvent::Task(_)) => JsKind::Task,
        _ => JsKind::Other,
    }
}

/// Reads a `serde_json::Value` as plain data: a number as what `as_u64`
/// and `as_i64` give and its display text.
#[verifier::external_body]
fn plain_json(v: &Json) -> PlainJson {
    match v {
        Json::Null => PlainJson::Null,
        Json::Bool(b) => PlainJson::Bool(*b),
        Json::Number(n) => PlainJson::Number(n.as_u64(), n.as_i64(), n.to_string()),
        Json::String(s) => PlainJson::Str(s.clone()),
        Json::Array(a) => PlainJson::Array(a.iter().map(plain_json).collect()),
        Json::Object(o) => PlainJson::Object(o.iter().map(|(k, x)| (k.clone(), plain_json(x))).collect()),
    }
}

/// Reads a `jscalendar` (unsigned) duration: weeks and days of a nominal
/// one, hours, minutes and seconds of its exact part (zero where absent).
#[verifier::external_body]
fn plain_duration_unsigned(d: &JsDuration) -> PlainDuration {
    let (weeks, days, exact) = match d {
        JsDuration::Nominal(nom) => (nom.weeks, nom.days, nom.exact),
        JsDuration::Exact(e) => (0, 0, Some(*e)),
    };
    match exact {
        Some(e) => PlainDuration { positive: true, weeks, days, hours: e.hours, minutes: e.minutes, seconds: e.seconds },
        None => PlainDuration { positive: true, weeks, days, hours: 0, minutes: 0, seconds: 0 },
    }
}

/// What `js_uid` reads, for these arguments.
pub uninterp spec fn js_uid_of(p: JsParsed, i: usize) -> Seq<char>;

/// Reads the text of its uid from entry `i` of parsed JSCalendar objects (through the
/// accessor of `jscalendar`'s `Event` or `Task` of that name).
#[verifier::external_body]
fn js_uid(p: &JsParsed, i: usize) -> (r: String)
    ensures
        r@ == js_uid_of(*p, i),
{
    match p.entries.get(i) {
        Some(TaskOrEvent::Event(e)) => e.uid().as_str().to_string(),
        Some(TaskOrEvent::Task(t)) => t.uid().as_str().to_string(),
        _ => String::new(),
    }
}

/// What `js_start` reads, for these arguments.
pub uninterp spec fn js_start_of(p: JsParsed, i: usize) -> Option<(PlainDate, PlainTime)>;

/// Reads its start date and time from entry `i` of parsed JSCalendar objects (through the
/// accessor of `jscalendar`'s `Event` or `Task` of that name).
#[verifier::external_body]
fn js_start(p: &JsParsed, i: usize) -> (r: Option<(PlainDate, PlainTime)>)
    ensures
        r == js_start_of(*p, i),
{
    match p.entries.get(i) {
        Some(TaskOrEvent::Event(e)) => Some(plain_datetime(e.start())),
        Some(TaskOrEvent::Task(t)) => t.start().map(|d| plain_datetime(d)),
        _ => None,
    }
}

/// What `js_due` reads, for these arguments.
pub uninterp spec fn js_due_of(p: JsParsed, i: usize) -> Option<(PlainDate, PlainTime)>;

/// Reads a task's due date and time from entry `i` of parsed JSCalendar objects (through the
/// accessor of `jscalendar`'s `Event` or `Task` of that name).
#[verifier::external_body]
fn js_due(p: &JsParsed, i: usize) -> (r: Option<(PlainDate, PlainTime)>)
    ensures
        r == js_due_of(*p, i),
{
    match p.entries.get(i) {
        Some(TaskOrEvent::Event(e)) => None,
        Some(TaskOrEvent::Task(t)) => t.due().map(|d| plain_datetime(d)),
        _ => None,
    }
}

/// What `js_title` reads, for these arguments.
pub uninterp spec fn js_title_of(p: JsParsed, i: usize) -> Option<String>;

/// Reads its title from entry `i` of parsed JSCalendar objects (through the
/// accessor of `jscalendar`'s `Event` or `Task` of that name).
#[verifier::external_body]
fn js_title(p: &JsParsed, i: usize) -> (r: Option<String>)
    ensures
        r == js_title_of(*p, i),
{
    match p.entries.get(i) {
        Some(TaskOrEvent::Event(e)) => e.title().cloned(),
        Some(TaskOrEvent::Task(t)) => t.title().cloned(),
        _ => None,
    }
}

/// What `js_description` reads, for these arguments.
pub uninterp spec fn js_description_of(p: JsParsed, i: usize) -> Option<String>;

/// Reads its description from entry `i` of parsed JSCalendar objects (through the
/// accessor of `jscalendar`'s `Event` or `Task` of that name).
#[verifier::external_body]
fn js_description(p: &JsParsed, i: usize) -> (r: Option<String>)
    ensures
        r == js_description_of(*p, i),
{
    match p.entries.get(i) {
        Some(TaskOrEvent::Event(e)) => e.description().cloned(),
        Some(TaskOrEvent::Task(t)) => t.description().cloned(),
        _ => None,
    }
}

/// What `js_duration` reads, for these arguments.
pub uninterp spec fn js_duration_of(p: JsParsed, i: usize) -> Option<PlainDuration>;

/// Reads an event's duration or a task's estimated duration from entry `i` of parsed JSCalendar objects (through the
/// accessor of `jscalendar`'s `Event` or `Task` of that name).
#[verifier::external_body]
fn js_duration(p: &JsParsed, i: usize) -> (r: Option<PlainDuration>)
    ensures
        r == js_duration_of(*p, i),
{
    match p.entries.get(i) {
        Some(TaskOrEvent::Event(e)) => e.duration().map(|d| plain_duration_unsigned(d)),
        Some(TaskOrEvent::Task(t)) => t.estimated_duration().map(|d| plain_duration_unsigned(d)),
        _ => None,
    }
}

/// What `js_percent_complete` reads, for these arguments.
pub uninterp spec fn js_percent_complete_of(p: JsParsed, i: usize) -> Option<u8>;

/// Reads a task's percentage complete from entry `i` of parsed JSCalendar objects (through the
/// accessor of `jscalendar`'s `Event` or `Task` of that name).
#[verifier::external_body]
fn js_percent_complete(p: &JsParsed, i: usize) -> (r: Option<u8>)
    ensures
        r == js_percent_complete_of(*p, i),
{
    match p.entries.get(i) {
        Some(TaskOrEvent::Event(e)) => None,
        Some(TaskOrEvent::Task(t)) => t.percent_complete().map(|p| p.get()),
        _ => None,
    }
}

/// What `js_progress` reads, for these arguments.
pub uninterp spec fn js_progress_of(p: JsParsed, i: usize) -> Option<String>;

/// Reads a task's progress as displayed from entry `i` of parsed JSCalendar objects (through the
/// accessor of `jscalendar`'s `Event` or `Task` of that name).
#[verifier::external_body]
fn js_progress(p: &JsParsed, i: usize) -> (r: Option<String>)
    ensures
        r == js_progress_of(*p, i),
{
    match p.entries.get(i) {
        Some(TaskOrEvent::Event(e)) => None,
        Some(TaskOrEvent::Task(t)) => t.progress().map(|p| p.to_string()),
        _ => None,
    }
}

/// What `js_time_zone` reads, for these arguments.
pub uninterp spec fn js_time_zone_of(p: JsParsed, i: usize) -> Option<String>;

/// Reads its time zone from entry `i` of parsed JSCalendar objects (through the
/// accessor of `jscalendar`'s `Event` or `Task` of that name).
#[verifier::external_body]
fn js_time_zone(p: &JsParsed, i: usize) -> (r: Option<String>)
    ensures
        r == js_time_zone_of(*p, i),
{
    match p.entries.get(i) {
        Some(TaskOrEvent::Event(e)) => e.time_zone().cloned(),
        Some(TaskOrEvent::Task(t)) => t.time_zone().cloned(),
        _ => None,
    }
}

/// What `js_status` reads, for these arguments.
pub uninterp spec fn js_status_of(p: JsParsed, i: usize) -> Option<String>;

/// Reads an event's status as displayed from entry `i` of parsed JSCalendar objects (through the
/// accessor of `jscalendar`'s `Event` or `Task` of that name).
#[verifier::external_body]
fn js_status(p: &JsParsed, i: usize) -> (r: Option<String>)
    ensures
        r == js_status_of(*p, i),
{
    match p.entries.get(i) {
        Some(TaskOrEvent::Event(e)) => e.status().map(|s| s.to_string()),
        Some(TaskOrEvent::Task(t)) => None,
        _ => None,
    }
}

/// What `js_priority` reads, for these arguments.
pub uninterp spec fn js_priority_of(p: JsParsed, i: usize) -> Option<IcalPriority>;

/// Reads its priority from entry `i` of parsed JSCalendar objects (through the
/// accessor of `jscalendar`'s `Event` or `Task` of that name).
#[verifier::external_body]
fn js_priority(p: &JsParsed, i: usize) -> (r: Option<IcalPriority>)
    ensures
        r == js_priority_of(*p, i),
{
    match p.entries.get(i) {
        Some(TaskOrEvent::Event(e)) => e.priority().map(|p| plain_priority(p)),
        Some(TaskOrEvent::Task(t)) => t.priority().map(|p| plain_priority(p)),
        _ => None,
    }
}

/// What `js_color` reads, for these arguments.
pub uninterp spec fn js_color_of(p: JsParsed, i: usize) -> Option<String>;

/// Reads its color as displayed from entry `i` of parsed JSCalendar objects (through the
/// accessor of `jscalendar`'s `Event` or `Task` of that name).
#[verifier::external_body]
fn js_color(p: &JsParsed, i: usize) -> (r: Option<String>)
    ensures
        r == js_color_of(*p, i),
{
    match p.entries.get(i) {
        Some(TaskOrEvent::Event(e)) => e.color().map(|c| c.to_string()),
        Some(TaskOrEvent::Task(t)) => t.color().map(|c| c.to_string()),
        _ => None,
    }
}

/// What `js_locale` reads, for these arguments.
pub uninterp spec fn js_locale_of(p: JsParsed, i: usize) -> Option<String>;

/// Reads its locale as displayed from entry `i` of parsed JSCalendar objects (through the
/// accessor of `jscalendar`'s `Event` or `Task` of that name).
#[verifier::external_body]
fn js_locale(p: &JsParsed, i: usize) -> (r: Option<String>)
    ensures
        r == js_locale_of(*p, i),
{
    match p.entries.get(i) {
        Some(TaskOrEvent::Event(e)) => e.locale().map(|l| l.to_string()),
        Some(TaskOrEvent::Task(t)) => t.locale().map(|l| l.to_string()),
        _ => None,
    }
}

/// What `js_privacy` reads, for these arguments.
pub uninterp spec fn js_privacy_of(p: JsParsed, i: usize) -> Option<String>;

/// Reads its privacy as displayed from entry `i` of parsed JSCalendar objects (through the
/// accessor of `jscalendar`'s `Event` or `Task` of that name).
#[verifier::external_body]
fn js_privacy(p: &JsParsed, i: usize) -> (r: Option<String>)
    ensures
        r == js_privacy_of(*p, i),
{
    match p.entries.get(i) {
        Some(TaskOrEvent::Event(e)) => e.privacy().map(|p| p.to_string()),
        Some(TaskOrEvent::Task(t)) => t.privacy().map(|p| p.to_string()),
        _ => None,
    }
}

/// What `js_free_busy_status` reads, for these arguments.
pub uninterp spec fn js_free_busy_status_of(p: JsParsed, i: usize) -> Option<String>;

/// Reads its free/busy status as displayed from entry `i` of parsed JSCalendar objects (through the
/// accessor of `jscalendar`'s `Event` or `Task` of that name).
#[verifier::external_body]
fn js_free_busy_status(p: &JsParsed, i: usize) -> (r: Option<String>)
    ensures
        r == js_free_busy_status_of(*p, i),
{
    match p.entries.get(i) {
        Some(TaskOrEvent::Event(e)) => e.free_busy_status().map(|f| f.to_string()),
        Some(TaskOrEvent::Task(t)) => t.free_busy_status().map(|f| f.to_string()),
        _ => None,
    }
}

/// What `js_show_without_time` reads, for these arguments.
pub uninterp spec fn js_show_without_time_of(p: JsParsed, i: usize) -> Option<bool>;

/// Reads its show-without-time flag from entry `i` of parsed JSCalendar objects (through the
/// accessor of `jscalendar`'s `Event` or `Task` of that name).
#[verifier::external_body]
fn js_show_without_time(p: &JsParsed, i: usize) -> (r: Option<bool>)
    ensures
        r == js_show_without_time_of(*p, i),
{
    match p.entries.get(i) {
        Some(TaskOrEvent::Event(e)) => e.show_without_time().copied(),
        Some(TaskOrEvent::Task(t)) => t.show_without_time().copied(),
        _ => None,
    }
}

/// The categories of entry `i`, as a set.
pub uninterp spec fn js_categories_of(p: JsParsed, i: usize) -> Option<Set<Seq<char>>>;

/// Reads its categories from entry `i` of parsed JSCalendar objects (through the
/// accessor of `jscalendar`'s `Event` or `Task` of that name), in the order
/// its hash set hands them out, which is left unsaid; the set is named.
#[verifier::external_body]
fn js_categories(p: &JsParsed, i: usize) -> (r: Option<Vec<String>>)
    ensures
        r is Some <==> js_categories_of(*p, i) is Some,
        r matches Some(v) ==> texts(v@).no_duplicates() && texts(v@).to_set() == js_categories_of(*p, i)->Some_0,
{
    match p.entries.get(i) {
        Some(TaskOrEvent::Event(e)) => e.categories().map(|c| c.iter().cloned().collect()),
        Some(TaskOrEvent::Task(t)) => t.categories().map(|c| c.iter().cloned().collect()),
        _ => None,
    }
}

/// The keywords of entry `i`, as a set.
pub uninterp spec fn js_keywords_of(p: JsParsed, i: usize) -> Option<Set<Seq<char>>>;

/// Reads its keywords from entry `i` of parsed JSCalendar objects (through the
/// accessor of `jscalendar`'s `Event` or `Task` of that name), in the order
/// its hash set hands them out, which is left unsaid; the set is named.
#[verifier::external_body]
fn js_keywords(p: &JsParsed, i: usize) -> (r: Option<Vec<String>>)
    ensures
        r is Some <==> js_keywords_of(*p, i) is Some,
        r matches Some(v) ==> texts(v@).no_duplicates() && texts(v@).to_set() == js_keywords_of(*p, i)->Some_0,
{
    match p.entries.get(i) {
        Some(TaskOrEvent::Event(e)) => e.keywords().map(|k| k.iter().cloned().collect()),
        Some(TaskOrEvent::Task(t)) => t.keywords().map(|k| k.iter().cloned().collect()),
        _ => None,
    }
}

/// The vendor properties of entry `i`, by name.
pub uninterp spec fn js_vendor_of(p: JsParsed, i: usize) -> Map<Seq<char>, PlainJson>;

/// Reads its vendor properties, each name with its value, from entry `i` of
/// parsed JSCalendar objects (through the accessor of `jscalendar`'s `Event`
/// or `Task` of that name), in the order of its hash map, which is left
/// unsaid; the map is named.
#[verifier::external_body]
fn js_vendor(p: &JsParsed, i: usize) -> (r: Vec<(String, PlainJson)>)
    ensures
        vendor_read(r@, js_vendor_of(*p, i)),
{
    match p.entries.get(i) {
        Some(TaskOrEvent::Event(e)) => e.vendor_property_iter().map(|(k, v)| (k.to_string(), plain_json(v))).collect(),
        Some(TaskOrEvent::Task(t)) => t.vendor_property_iter().map(|(k, v)| (k.to_string(), plain_json(v))).collect(),
        _ => Vec::new(),
    }
}

/// Whether `d` holds the data of entry `i` of parsed objects as
/// `jscalendar` reads them.
pub open spec fn entry_data_read(d: JsEntryData, p: JsParsed, i: usize) -> bool {
    &&& d.uid@ == js_uid_of(p, i)
    &&& d.start == js_start_of(p, i)
    &&& d.due == js_due_of(p, i)
    &&& d.title == js_title_of(p, i)
    &&& d.description == js_description_of(p, i)
    &&& d.duration == js_duration_of(p, i)
    &&& d.percent_complete == js_percent_complete_of(p, i)
    &&& d.progress == js_progress_of(p, i)
    &&& d.time_zone == js_time_zone_of(p, i)
    &&& d.status == js_status_of(p, i)
    &&& d.priority == js_priority_of(p, i)
    &&& d.color == js_color_of(p, i)
    &&& d.locale == js_locale_of(p, i)
    &&& d.privacy == js_privacy_of(p, i)
    &&& d.free_busy_status == js_free_busy_status_of(p, i)
    &&& d.show_without_time == js_show_without_time_of(p, i)
    &&& set_read(d.categories, js_categories_of(p, i))
    &&& set_read(d.keywords, js_keywords_of(p, i))
    &&& vendor_read(d.vendor@, js_vendor_of(p, i))
}

/// The data of entry `i` of parsed objects.
fn entry_data(p: &JsParsed, i: usize) -> (r: JsEntryData)
    ensures
        entry_data_read(r, *p, i),
{
    JsEntryData {
        uid: js_uid(p, i),
        start: js_start(p, i),
        due: js_due(p, i),
        title: js_title(p, i),
        description: js_description(p, i),
        duration: js_duration(p, i),
        percent_complete: js_percent_complete(p, i),
        progress: js_progress(p, i),
        time_zone: js_time_zone(p, i),
        status: js_status(p, i),
        priority: js_priority(p, i),
        color: js_color(p, i),
        locale: js_locale(p, i),
        privacy: js_privacy(p, i),
        free_busy_status: js_free_busy_status(p, i),
        show_without_time: js_show_without_time(p, i),
        categories: js_categories(p, i),
        keywords: js_keywords(p, i),
        vendor: js_vendor(p, i),
    }
}

fn parse_error(e: String) -> (r: String)
    ensures
        r@ == "JSCalendar parse error: "@ + e@,
{
    let mut m = to_chars("JSCalendar parse error: ");
    push_str(&mut m, e.as_str());
    from_chars(m.as_slice())
}

/// Whether a top-level JSON value's `@type` names a group.
pub open spec fn is_group_tag(t: Option<String>) -> bool {
    t matches Some(s) && s@ == "Group"@
}

/// What `jscalendar` makes of a top-level JSON value: a group's entries,
/// or a single event or task, or the text of the error it reports.
pub open spec fn js_parse(json: Json) -> Result<JsParsed, Seq<char>> {
    if is_group_tag(json_type_tag_of(json)) {
        parse_group_of(json)
    } else {
        parse_task_or_event_of(json)
    }
}

/// The record of entry `j` of parsed objects, read as `d`.
pub open spec fn entry_record_read(v: ImportView, p: JsParsed, j: int) -> bool {
    exists|d: JsEntryData| #[trigger] entry_data_read(d, p, j as usize)
        && v == ImportView::Record(js_entry_record(js_kind_of(p, j as usize), d))
}

/// Whether `after` is `before` followed by the records of the entries of
/// `p`, in order.
pub open spec fn records_appended(before: Seq<ImportValue>, after: Seq<ImportValue>, p: JsParsed) -> bool {
    &&& after.len() == before.len() + js_count_of(p)
    &&& forall|j: int| 0 <= j < before.len() ==> #[trigger] after[j] == before[j]
    &&& forall|j: int| 0 <= j < js_count_of(p) ==> entry_record_read(#[trigger] after[before.len() + j]@, p, j)
}

/// Parses one top-level JSON value as a JSCalendar object and appends the
/// records of its events and tasks; a group gives those of its entries.
/// Fails, appending nothing, with `JSCalendar parse error: ` and the
/// error exactly when the value is not a valid group, event or task.
fn translate_jscal_top_level(json: Json, out: &mut Vec<ImportValue>) -> (r: Result<(), String>)
    requires
        forall|j: int| 0 <= j < old(out)@.len() ==> (#[trigger] old(out)@[j])@ is Record,
    ensures
        forall|j: int| 0 <= j < final(out)@.len() ==> (#[trigger] final(out)@[j])@ is Record,
        r is Ok <==> js_parse(json) is Ok,
        r matches Err(e) ==> e@ == "JSCalendar parse error: "@ + js_parse(json)->Err_0 && final(out)@
            == old(out)@,
        r is Ok ==> records_appended(old(out)@, final(out)@, js_parse(json)->Ok_0),
{
    let ghost before = out@;
    let is_group = match json_type_tag(&json) {
        Some(t) => str_eq(t.as_str(), "Group"),
        None => false,
    };
    let parsed = if is_group {
        parse_group(json)
    } else {
        parse_task_or_event(json)
    };
    let parsed = match parsed {
        Ok(p) => p,
        Err(e) => return Err(parse_error(e)),
    };
    let n = js_count(&parsed);
    for i in 0..n
        invariant
            n == js_count_of(parsed),
            forall|j: int| 0 <= j < out@.len() ==> (#[trigger] out@[j])@ is Record,
            out@.len() == before.len() + i,
            forall|j: int| 0 <= j < before.len() ==> #[trigger] out@[j] == before[j],
            forall|j: int| 0 <= j < i ==> entry_record_read(#[trigger] out@[before.len() + j]@, parsed, j),
    {
        let kind = js_kind(&parsed, i);
        let data = entry_data(&parsed, i);
        out.push(ImportValue::Record(translate_task_or_event(kind, &data)));
        assert(entry_data_read(data, parsed, i));
    }
    Ok(())
}

/// The top-level values of a document: an array's elements, or the value
/// itself.
pub open spec fn js_tops(j: Json) -> Seq<Json> {
    if json_top_of(j) == JsonTop::Array {
        json_elements_of(j)
    } else {
        seq![j]
    }
}

/// Whether `items` are the records of the entries of the top-level values
/// `tops`, value by value and entry by entry.
pub open spec fn tops_records(tops: Seq<Json>, items: Seq<ImportValue>) -> bool
    decreases tops.len(),
{
    if tops.len() == 0 {
        items.len() == 0
    } else {
        let p = js_parse(tops.last())->Ok_0;
        let k = items.len() - js_count_of(p);
        &&& js_parse(tops.last()) is Ok
        &&& 0 <= k
        &&& tops_records(tops.drop_last(), items.take(k))
        &&& records_appended(items.take(k), items, p)
    }
}

/// Whether every top-level value parses as a group, event or task.
pub open spec fn tops_parse(tops: Seq<Json>) -> bool {
    forall|i: int| 0 <= i < tops.len() ==> (#[trigger] js_parse(tops[i])) is Ok
}

/// Whether `e` is the error of the first top-level value that does not
/// parse.
pub open spec fn first_top_error(tops: Seq<Json>, e: Seq<char>) -> bool {
    exists|k: int| 0 <= k < tops.len() && tops_parse(tops.take(k)) && #[trigger] js_parse(tops[k]) is Err
        && e == "JSCalendar parse error: "@ + js_parse(tops[k])->Err_0
}

proof fn lemma_tops_step(tops: Seq<Json>, i: int, before: Seq<ImportValue>, after: Seq<ImportValue>)
    requires
        0 <= i < tops.len(),
        tops_records(tops.take(i), before),
        js_parse(tops[i]) is Ok,
        records_appended(before, after, js_parse(tops[i])->Ok_0),
    ensures
        tops_records(tops.take(i + 1), after),
{
    let t = tops.take(i + 1);
    let p = js_parse(tops[i])->Ok_0;
    assert(t.last() == tops[i]);
    assert(t.drop_last() =~= tops.take(i));
    assert(after.take(before.len() as int) =~= before);
}

/// Translates a JSCalendar document into plain values: a single object to
/// its record, an array to a list of records; groups give their entries.
///
/// Fails with `JSCalendar JSON parse error: ` and the error exactly when
/// the text is not JSON; with an error when the top level is neither an
/// object nor an array, or an object is not a valid event, task or group.
pub fn translate_jscalendar(content: &str) -> (r: Result<ImportValue, String>)
    ensures
        json_parse_failure(content@) is Some ==> (r matches Err(e) && e@
            == "JSCalendar JSON parse error: "@ + json_parse_failure(content@)->Some_0),
        r matches Ok(v) ==> v@ is List || v@ is Record,
        json_parse(content@) matches Ok(j) ==> {
            let tops = js_tops(j);
            &&& json_top_of(j) == JsonTop::Other ==> (r matches Err(e)
                && e@ == "JSCalendar: expected a JSON object or array at top level"@)
            &&& json_top_of(j) != JsonTop::Other ==> (r is Ok <==> tops_parse(tops))
            &&& json_top_of(j) != JsonTop::Other ==> (r matches Err(e) ==> first_top_error(tops, e@))
            &&& r matches Ok(v) ==> exists|items: Seq<ImportValue>| #[trigger] tops_records(tops, items)
                && v@ == jscal_result(json_top_of(j) == JsonTop::Array, crate::ical_import::values_view(items))
        },
{
    let json = match parse_json(content) {
        Ok(j) => j,
        Err(e) => {
            let mut m = to_chars("JSCalendar JSON parse error: ");
            push_str(&mut m, e.as_str());
            return Err(from_chars(m.as_slice()));
        },
    };
    let ghost j = json;
    let is_array = match json_top(&json) {
        JsonTop::Array => true,
        JsonTop::Object => false,
        JsonTop::Other => {
            proof {
                reveal_strlit("JSCalendar: expected a JSON object or array at top level");
            }
            return Err(crate::desugar::owned("JSCalendar: expected a JSON object or array at top level"));
        },
    };
    let ghost tops = js_tops(j);
    let mut items: Vec<ImportValue> = Vec::new();
    if is_array {
        let elements = json_elements(&json);
        assert(tops == elements@);
        for element in it: elements.into_iter()
            invariant
                it.seq() == elements@,
                tops == elements@,
                tops == js_tops(j),
                json_parse(content@) is Ok,
                json_parse(content@)->Ok_0 == j,
                json_top_of(j) == JsonTop::Array,
                json_parse_failure(content@) is None,
                forall|j: int| 0 <= j < items@.len() ==> (#[trigger] items@[j])@ is Record,
                tops_parse(tops.take(it.index() as int)),
                tops_records(tops.take(it.index() as int), items@),
        {
            let ghost before = items@;
            let ghost i = it.index() as int;
            match translate_jscal_top_level(element, &mut items) {
                Ok(()) => {
                    proof {
                        lemma_tops_step(tops, i, before, items@);
                        assert forall|x: int| 0 <= x < i + 1 implies (#[trigger] js_parse(tops.take(i + 1)[x])) is Ok by {
                            if x < i {
                                assert(tops.take(i + 1)[x] == tops.take(i)[x]);
                            }
                        }
                    }
                },
                Err(e) => {
                    proof {
                        assert(!tops_parse(tops));
                        assert(first_top_error(tops, e@));
                    }
                    return Err(e);
                },
            }
        }
        assert(tops.take(elements@.len() as int) =~= tops);
    } else {
        let ghost before = items@;
        match translate_jscal_top_level(json, &mut items) {
            Ok(()) => {
                proof {
                    lemma_tops_step(tops, 0, before, items@);
                    assert(tops.take(1) =~= tops);
                }
            },
            Err(e) => {
                proof {
                    assert(first_top_error(tops, e@));
                }
                return Err(e);
            },
        }
    }
    let ghost iv = crate::ical_import::values_view(items@);
    let ghost iseq = items@;
    let r = shape_jscal_result(is_array, items);
    assert(!is_array && iv.len() == 1 ==> iv[0] is Record);
    assert(tops_records(tops, iseq));
    Ok(r)
}

} // verus!
