//! Reading iCalendar text with `calico`, and the data that translation
//! reads from its model.
//!
//! Each function here marked as trusted calls one function of `calico` (or
//! reads one part of its model) and hands back plain data. What it reads is
//! given a name, as a function of its arguments; translation is stated over
//! those names.
use vstd::prelude::*;
use vstd::multiset::Multiset;

use calico::model::component::{
    Calendar as ICalCalendar, CalendarComponent, Event as ICalEvent, Todo as ICalTodo,
};
use calico::model::primitive::{
    Attachment, ClassValue, DateTimeOrDate, Duration, Priority, RDateSeq, RequestStatus, Sign,
    SignedDuration, Status, TimeTransparency, Token, Utc, Value as ICalValue,
};
use calico::model::rrule::{FreqByRules, RRule};
use calico::model::primitive::Weekday as CalWeekday;

use crate::ical_entries::{
    icalendar_value, translate_calendars, IcalCalendarData, IcalComponent, IcalEntry, PlainXValue,
};
use crate::ical_import::{
    IcalClass, IcalFreq, IcalPriority, IcalStatus, IcalTransp, IcalWeekday, PlainAttachment,
    PlainDate, PlainDtod, PlainDuration, PlainRequestStatus, PlainRRule, PlainTermination,
    PlainTime, PlainWeekdayNum,
};
use crate::ical_import::duration_seconds;
use crate::import_value::{ImportValue, ImportView};
use crate::text::{from_chars, push_str, to_chars};

verus! {

broadcast use {crate::types::lemma_value_view_unfold, crate::import_value::lemma_import_view_unfold};

#[verifier::external_type_specification]
#[verifier::external_body]
pub struct ExICalCalendar(ICalCalendar);

#[verifier::external_type_specification]
#[verifier::external_body]
pub struct ExICalEvent(calico::model::component::Event);

#[verifier::external_type_specification]
#[verifier::external_body]
pub struct ExICalTodo(calico::model::component::Todo);

#[verifier::external_type_specification]
#[verifier::external_body]
pub struct ExRRule(calico::model::rrule::RRule);

#[verifier::external_type_specification]
#[verifier::external_body]
#[verifier::reject_recursive_types(M)]
pub struct ExDateTimeOrDate<M>(calico::model::primitive::DateTimeOrDate<M>);

#[verifier::external_type_specification]
#[verifier::external_body]
#[verifier::reject_recursive_types(M)]
pub struct ExDateTime<M>(calico::model::primitive::DateTime<M>);

#[verifier::external_type_specification]
#[verifier::external_body]
pub struct ExUtc(calico::model::primitive::Utc);

#[verifier::external_type_specification]
#[verifier::external_body]
pub struct ExTimeFormat(calico::model::primitive::TimeFormat);

#[verifier::external_type_specification]
#[verifier::external_body]
pub struct ExSignedDuration(calico::model::primitive::SignedDuration);

#[verifier::external_type_specification]
#[verifier::external_body]
pub struct ExStatus(calico::model::primitive::Status);

#[verifier::external_type_specification]
#[verifier::external_body]
pub struct ExPriority(calico::model::primitive::Priority);

#[verifier::external_type_specification]
#[verifier::external_body]
#[verifier::reject_recursive_types(T)]
#[verifier::reject_recursive_types(S)]
pub struct ExToken<T, S>(calico::model::primitive::Token<T, S>);

#[verifier::external_type_specification]
#[verifier::external_body]
pub struct ExClassValue(calico::model::primitive::ClassValue);

#[verifier::external_type_specification]
#[verifier::external_body]
pub struct ExTimeTransparency(calico::model::primitive::TimeTransparency);

#[verifier::external_type_specification]
#[verifier::external_body]
pub struct ExAttachment(calico::model::primitive::Attachment);

#[verifier::external_type_specification]
#[verifier::external_body]
pub struct ExRequestStatus(calico::model::primitive::RequestStatus);

#[verifier::external_type_specification]
#[verifier::external_body]
#[verifier::reject_recursive_types(M)]
pub struct ExRDateSeq<M>(calico::model::primitive::RDateSeq<M>);

#[verifier::external_type_specification]
#[verifier::external_body]
#[verifier::reject_recursive_types(S)]
pub struct ExICalValue<S>(ICalValue<S>);

// ── Primitive values ───────────────────────────────────────────

/// Reads a calico date-time or date (`DateTimeOrDate`) as plain numbers.
#[verifier::external_body]
fn plain_dtod(x: &DateTimeOrDate) -> PlainDtod {
    match x {
        DateTimeOrDate::DateTime(dt) => {
            let (d, t) = plain_datetime(dt);
            PlainDtod::DateTime(d, t)
        },
        DateTimeOrDate::Date(d) => PlainDtod::Date(PlainDate {
            year: d.year().get(),
            month: d.month().number().get(),
            day: d.day() as u8,
        }),
    }
}

/// Reads a calico `DateTime` as plain numbers: year, month and day from
/// `date.year().get()`, `date.month().number().get()` and `date.day()`, hour,
/// minute and second from the time.
#[verifier::external_body]
pub(crate) fn plain_datetime<M>(dt: &calico::model::primitive::DateTime<M>) -> (PlainDate, PlainTime) {
    let date = PlainDate {
        year: dt.date.year().get(),
        month: dt.date.month().number().get(),
        day: dt.date.day() as u8,
    };
    let time = PlainTime {
        hour: dt.time.hour() as u8,
        minute: dt.time.minute() as u8,
        second: dt.time.second() as u8,
    };
    (date, time)
}

/// Reads a calico `SignedDuration`: its sign, and weeks and days of a
/// nominal duration, hours, minutes and seconds of its exact part (zero
/// where absent).
#[verifier::external_body]
fn plain_duration(sd: &SignedDuration) -> PlainDuration {
    let positive = sd.sign == Sign::Pos;
    let (weeks, days, exact) = match &sd.duration {
        Duration::Nominal(nom) => (nom.weeks, nom.days, nom.exact),
        Duration::Exact(e) => (0, 0, Some(*e)),
    };
    match exact {
        Some(e) => PlainDuration { positive, weeks, days, hours: e.hours, minutes: e.minutes, seconds: e.seconds },
        None => PlainDuration { positive, weeks, days, hours: 0, minutes: 0, seconds: 0 },
    }
}

/// Reads a calico `Status` as the variant of the same name.
#[verifier::external_body]
fn plain_status(s: &Status) -> IcalStatus {
    match s {
        Status::Tentative => IcalStatus::Tentative,
        Status::Confirmed => IcalStatus::Confirmed,
        Status::Cancelled => IcalStatus::Cancelled,
        Status::NeedsAction => IcalStatus::NeedsAction,
        Status::Completed => IcalStatus::Completed,
        Status::InProcess => IcalStatus::InProcess,
        Status::Draft => IcalStatus::Draft,
        Status::Final => IcalStatus::Final,
        _ => IcalStatus::Other,
    }
}

/// Reads a calico `Priority` as the variant of the same name.
#[verifier::external_body]
pub(crate) fn plain_priority(p: &Priority) -> IcalPriority {
    match p {
        Priority::Zero => IcalPriority::Zero,
        Priority::A1 => IcalPriority::A1,
        Priority::A2 => IcalPriority::A2,
        Priority::A3 => IcalPriority::A3,
        Priority::B1 => IcalPriority::B1,
        Priority::B2 => IcalPriority::B2,
        Priority::B3 => IcalPriority::B3,
        Priority::C1 => IcalPriority::C1,
        Priority::C2 => IcalPriority::C2,
        Priority::C3 => IcalPriority::C3,
    }
}

/// Reads a calico classification token as the variant of the same name.
#[verifier::external_body]
fn plain_class(t: &Token<ClassValue, String>) -> IcalClass {
    match t {
        Token::Known(ClassValue::Public) => IcalClass::Public,
        Token::Known(ClassValue::Private) => IcalClass::Private,
        Token::Known(ClassValue::Confidential) => IcalClass::Confidential,
        Token::Known(_) => IcalClass::OtherKnown,
        Token::Unknown(s) => IcalClass::Unknown(s.clone()),
    }
}

/// Reads a calico `TimeTransparency` as the variant of the same name.
#[verifier::external_body]
fn plain_transp(t: &TimeTransparency) -> IcalTransp {
    match t {
        TimeTransparency::Opaque => IcalTransp::Opaque,
        TimeTransparency::Transparent => IcalTransp::Transparent,
        _ => IcalTransp::Other,
    }
}

/// Reads a calico `Attachment`: the text of a URI, or the bytes.
#[verifier::external_body]
fn plain_attachment(a: &Attachment) -> PlainAttachment {
    match a {
        Attachment::Uri(u) => PlainAttachment::Uri(u.as_str().to_string()),
        Attachment::Binary(b) => PlainAttachment::Binary(b.clone()),
    }
}

/// Reads a calico `RequestStatus`: class number, major and minor numbers,
/// description.
#[verifier::external_body]
fn plain_request_status(rs: &RequestStatus) -> PlainRequestStatus {
    PlainRequestStatus {
        class: rs.code.class.as_u8(),
        major: rs.code.major,
        minor: rs.code.minor,
        description: rs.description.to_string(),
    }
}

/// Reads a calico `RDateSeq`: its date-times or dates, or the start of each
/// of its periods.
#[verifier::external_body]
fn plain_rdates(seq: &RDateSeq) -> Vec<PlainDtod> {
    match seq {
        RDateSeq::DateTime(dts) => dts.iter().map(|dt| plain_dtod(&DateTimeOrDate::DateTime(*dt))).collect(),
        RDateSeq::Date(ds) => ds.iter().map(|d| plain_dtod(&DateTimeOrDate::Date(*d))).collect(),
        RDateSeq::Period(ps) => ps.iter().map(|p| match p {
            calico::model::primitive::Period::Explicit { start, .. } => plain_dtod(&DateTimeOrDate::DateTime(*start)),
            calico::model::primitive::Period::Start { start, .. } => plain_dtod(&DateTimeOrDate::DateTime(*start)),
        }).collect(),
    }
}

// ── Events and tasks ───────────────────────────────────────────

/// What `event_uid` reads, for these arguments.
pub uninterp spec fn event_uid_of(c: ICalEvent) -> Option<String>;

/// Calls `Event::uid` of `calico` and hands back the text of its value, when the
/// property is present.
#[verifier::external_body]
fn event_uid(c: &calico::model::component::Event) -> (r: Option<String>)
    ensures
        r == event_uid_of(*c),
{
    match c.uid() {
        Some(p) => Some(p.value.as_str().to_string()),
        None => None,
    }
}

/// What `event_summary` reads, for these arguments.
pub uninterp spec fn event_summary_of(c: ICalEvent) -> Option<String>;

/// Calls `Event::summary` of `calico` and hands back its text, when the
/// property is present.
#[verifier::external_body]
fn event_summary(c: &calico::model::component::Event) -> (r: Option<String>)
    ensures
        r == event_summary_of(*c),
{
    match c.summary() {
        Some(p) => Some(p.value.clone()),
        None => None,
    }
}

/// What `event_description` reads, for these arguments.
pub uninterp spec fn event_description_of(c: ICalEvent) -> Option<String>;

/// Calls `Event::description` of `calico` and hands back its text, when the
/// property is present.
#[verifier::external_body]
fn event_description(c: &calico::model::component::Event) -> (r: Option<String>)
    ensures
        r == event_description_of(*c),
{
    match c.description() {
        Some(p) => Some(p.value.clone()),
        None => None,
    }
}

/// What `event_dtstart` reads, for these arguments.
pub uninterp spec fn event_dtstart_of(c: ICalEvent) -> Option<PlainDtod>;

/// Calls `Event::dtstart` of `calico` and hands back its date or date-time, when the
/// property is present.
#[verifier::external_body]
fn event_dtstart(c: &calico::model::component::Event) -> (r: Option<PlainDtod>)
    ensures
        r == event_dtstart_of(*c),
{
    match c.dtstart() {
        Some(p) => Some(plain_dtod(&p.value)),
        None => None,
    }
}

/// What `event_duration` reads, for these arguments.
pub uninterp spec fn event_duration_of(c: ICalEvent) -> Option<PlainDuration>;

/// Calls `Event::duration` of `calico` and hands back its duration, when the
/// property is present.
#[verifier::external_body]
fn event_duration(c: &calico::model::component::Event) -> (r: Option<PlainDuration>)
    ensures
        r == event_duration_of(*c),
{
    match c.duration() {
        Some(p) => Some(plain_duration(&p.value)),
        None => None,
    }
}

/// What `event_status` reads, for these arguments.
pub uninterp spec fn event_status_of(c: ICalEvent) -> Option<IcalStatus>;

/// Calls `Event::status` of `calico` and hands back its status, when the
/// property is present.
#[verifier::external_body]
fn event_status(c: &calico::model::component::Event) -> (r: Option<IcalStatus>)
    ensures
        r == event_status_of(*c),
{
    match c.status() {
        Some(p) => Some(plain_status(&p.value)),
        None => None,
    }
}

/// What `event_priority` reads, for these arguments.
pub uninterp spec fn event_priority_of(c: ICalEvent) -> Option<IcalPriority>;

/// Calls `Event::priority` of `calico` and hands back its priority, when the
/// property is present.
#[verifier::external_body]
fn event_priority(c: &calico::model::component::Event) -> (r: Option<IcalPriority>)
    ensures
        r == event_priority_of(*c),
{
    match c.priority() {
        Some(p) => Some(plain_priority(&p.value)),
        None => None,
    }
}

/// What `event_location` reads, for these arguments.
pub uninterp spec fn event_location_of(c: ICalEvent) -> Option<String>;

/// Calls `Event::location` of `calico` and hands back its text, when the
/// property is present.
#[verifier::external_body]
fn event_location(c: &calico::model::component::Event) -> (r: Option<String>)
    ensures
        r == event_location_of(*c),
{
    match c.location() {
        Some(p) => Some(p.value.clone()),
        None => None,
    }
}

/// What `event_color` reads, for these arguments.
pub uninterp spec fn event_color_of(c: ICalEvent) -> Option<String>;

/// Calls `Event::color` of `calico` and hands back its value as displayed, when the
/// property is present.
#[verifier::external_body]
fn event_color(c: &calico::model::component::Event) -> (r: Option<String>)
    ensures
        r == event_color_of(*c),
{
    match c.color() {
        Some(p) => Some(p.value.to_string()),
        None => None,
    }
}

/// What `event_categories` reads, for these arguments.
pub uninterp spec fn event_categories_of(c: ICalEvent) -> Option<Vec<Vec<String>>>;

/// Calls `Event::categories` of `calico` and hands back the texts of each occurrence, when the
/// property is present.
#[verifier::external_body]
fn event_categories(c: &calico::model::component::Event) -> (r: Option<Vec<Vec<String>>>)
    ensures
        r == event_categories_of(*c),
{
    match c.categories() {
        Some(ps) => Some(ps.iter().map(|p| p.value.clone()).collect()),
        None => None,
    }
}

/// What `event_dtstamp` reads, for these arguments.
pub uninterp spec fn event_dtstamp_of(c: ICalEvent) -> Option<(PlainDate, PlainTime)>;

/// Calls `Event::dtstamp` of `calico` and hands back its UTC date and time, when the
/// property is present.
#[verifier::external_body]
fn event_dtstamp(c: &calico::model::component::Event) -> (r: Option<(PlainDate, PlainTime)>)
    ensures
        r == event_dtstamp_of(*c),
{
    match c.dtstamp() {
        Some(p) => Some(plain_datetime(&p.value)),
        None => None,
    }
}

/// What `event_class` reads, for these arguments.
pub uninterp spec fn event_class_of(c: ICalEvent) -> Option<IcalClass>;

/// Calls `Event::class` of `calico` and hands back its classification, when the
/// property is present.
#[verifier::external_body]
fn event_class(c: &calico::model::component::Event) -> (r: Option<IcalClass>)
    ensures
        r == event_class_of(*c),
{
    match c.class() {
        Some(p) => Some(plain_class(&p.value)),
        None => None,
    }
}

/// What `event_created` reads, for these arguments.
pub uninterp spec fn event_created_of(c: ICalEvent) -> Option<(PlainDate, PlainTime)>;

/// Calls `Event::created` of `calico` and hands back its UTC date and time, when the
/// property is present.
#[verifier::external_body]
fn event_created(c: &calico::model::component::Event) -> (r: Option<(PlainDate, PlainTime)>)
    ensures
        r == event_created_of(*c),
{
    match c.created() {
        Some(p) => Some(plain_datetime(&p.value)),
        None => None,
    }
}

/// What `event_geo` reads, for these arguments.
pub uninterp spec fn event_geo_of(c: ICalEvent) -> Option<(String, String)>;

/// Calls `Event::geo` of `calico` and hands back the decimal texts of its latitude and longitude, when the
/// property is present.
#[verifier::external_body]
fn event_geo(c: &calico::model::component::Event) -> (r: Option<(String, String)>)
    ensures
        r == event_geo_of(*c),
{
    match c.geo() {
        Some(p) => Some((p.value.lat.to_string(), p.value.lon.to_string())),
        None => None,
    }
}

/// What `event_last_modified` reads, for these arguments.
pub uninterp spec fn event_last_modified_of(c: ICalEvent) -> Option<(PlainDate, PlainTime)>;

/// Calls `Event::last_modified` of `calico` and hands back its UTC date and time, when the
/// property is present.
#[verifier::external_body]
fn event_last_modified(c: &calico::model::component::Event) -> (r: Option<(PlainDate, PlainTime)>)
    ensures
        r == event_last_modified_of(*c),
{
    match c.last_modified() {
        Some(p) => Some(plain_datetime(&p.value)),
        None => None,
    }
}

/// What `event_organizer` reads, for these arguments.
pub uninterp spec fn event_organizer_of(c: ICalEvent) -> Option<String>;

/// Calls `Event::organizer` of `calico` and hands back the text of its value, when the
/// property is present.
#[verifier::external_body]
fn event_organizer(c: &calico::model::component::Event) -> (r: Option<String>)
    ensures
        r == event_organizer_of(*c),
{
    match c.organizer() {
        Some(p) => Some(p.value.as_str().to_string()),
        None => None,
    }
}

/// What `event_sequence` reads, for these arguments.
pub uninterp spec fn event_sequence_of(c: ICalEvent) -> Option<i32>;

/// Calls `Event::sequence` of `calico` and hands back its value, when the
/// property is present.
#[verifier::external_body]
fn event_sequence(c: &calico::model::component::Event) -> (r: Option<i32>)
    ensures
        r == event_sequence_of(*c),
{
    match c.sequence() {
        Some(p) => Some(p.value),
        None => None,
    }
}

/// What `event_url` reads, for these arguments.
pub uninterp spec fn event_url_of(c: ICalEvent) -> Option<String>;

/// Calls `Event::url` of `calico` and hands back the text of its value, when the
/// property is present.
#[verifier::external_body]
fn event_url(c: &calico::model::component::Event) -> (r: Option<String>)
    ensures
        r == event_url_of(*c),
{
    match c.url() {
        Some(p) => Some(p.value.as_str().to_string()),
        None => None,
    }
}

/// What `event_recurrence_id` reads, for these arguments.
pub uninterp spec fn event_recurrence_id_of(c: ICalEvent) -> Option<PlainDtod>;

/// Calls `Event::recurrence_id` of `calico` and hands back its date or date-time, when the
/// property is present.
#[verifier::external_body]
fn event_recurrence_id(c: &calico::model::component::Event) -> (r: Option<PlainDtod>)
    ensures
        r == event_recurrence_id_of(*c),
{
    match c.recurrence_id() {
        Some(p) => Some(plain_dtod(&p.value)),
        None => None,
    }
}

/// What `event_rdate` reads, for these arguments.
pub uninterp spec fn event_rdate_of(c: ICalEvent) -> Option<Vec<Vec<PlainDtod>>>;

/// Calls `Event::rdate` of `calico` and hands back the dates of each occurrence (periods by their start), when the
/// property is present.
#[verifier::external_body]
fn event_rdate(c: &calico::model::component::Event) -> (r: Option<Vec<Vec<PlainDtod>>>)
    ensures
        r == event_rdate_of(*c),
{
    match c.rdate() {
        Some(ps) => Some(ps.iter().map(|p| plain_rdates(&p.value)).collect()),
        None => None,
    }
}

/// What `event_exdate` reads, for these arguments.
pub uninterp spec fn event_exdate_of(c: ICalEvent) -> Option<Vec<PlainDtod>>;

/// Calls `Event::exdate` of `calico` and hands back the date or date-time of each occurrence, when the
/// property is present.
#[verifier::external_body]
fn event_exdate(c: &calico::model::component::Event) -> (r: Option<Vec<PlainDtod>>)
    ensures
        r == event_exdate_of(*c),
{
    match c.exdate() {
        Some(ps) => Some(ps.iter().map(|p| plain_dtod(&p.value)).collect()),
        None => None,
    }
}

/// What `event_attach` reads, for these arguments.
pub uninterp spec fn event_attach_of(c: ICalEvent) -> Option<Vec<PlainAttachment>>;

/// Calls `Event::attach` of `calico` and hands back each occurrence as a URI or bytes, when the
/// property is present.
#[verifier::external_body]
fn event_attach(c: &calico::model::component::Event) -> (r: Option<Vec<PlainAttachment>>)
    ensures
        r == event_attach_of(*c),
{
    match c.attach() {
        Some(ps) => Some(ps.iter().map(|p| plain_attachment(&p.value)).collect()),
        None => None,
    }
}

/// What `event_attendee` reads, for these arguments.
pub uninterp spec fn event_attendee_of(c: ICalEvent) -> Option<Vec<String>>;

/// Calls `Event::attendee` of `calico` and hands back the text of each occurrence, when the
/// property is present.
#[verifier::external_body]
fn event_attendee(c: &calico::model::component::Event) -> (r: Option<Vec<String>>)
    ensures
        r == event_attendee_of(*c),
{
    match c.attendee() {
        Some(ps) => Some(ps.iter().map(|p| p.value.as_str().to_string()).collect()),
        None => None,
    }
}

/// What `event_comment` reads, for these arguments.
pub uninterp spec fn event_comment_of(c: ICalEvent) -> Option<Vec<String>>;

/// Calls `Event::comment` of `calico` and hands back the text of each occurrence, when the
/// property is present.
#[verifier::external_body]
fn event_comment(c: &calico::model::component::Event) -> (r: Option<Vec<String>>)
    ensures
        r == event_comment_of(*c),
{
    match c.comment() {
        Some(ps) => Some(ps.iter().map(|p| p.value.clone()).collect()),
        None => None,
    }
}

/// What `event_contact` reads, for these arguments.
pub uninterp spec fn event_contact_of(c: ICalEvent) -> Option<Vec<String>>;

/// Calls `Event::contact` of `calico` and hands back the text of each occurrence, when the
/// property is present.
#[verifier::external_body]
fn event_contact(c: &calico::model::component::Event) -> (r: Option<Vec<String>>)
    ensures
        r == event_contact_of(*c),
{
    match c.contact() {
        Some(ps) => Some(ps.iter().map(|p| p.value.clone()).collect()),
        None => None,
    }
}

/// What `event_related_to` reads, for these arguments.
pub uninterp spec fn event_related_to_of(c: ICalEvent) -> Option<Vec<String>>;

/// Calls `Event::related_to` of `calico` and hands back the text of each occurrence, when the
/// property is present.
#[verifier::external_body]
fn event_related_to(c: &calico::model::component::Event) -> (r: Option<Vec<String>>)
    ensures
        r == event_related_to_of(*c),
{
    match c.related_to() {
        Some(ps) => Some(ps.iter().map(|p| p.value.as_str().to_string()).collect()),
        None => None,
    }
}

/// What `event_resources` reads, for these arguments.
pub uninterp spec fn event_resources_of(c: ICalEvent) -> Option<Vec<Vec<String>>>;

/// Calls `Event::resources` of `calico` and hands back the texts of each occurrence, when the
/// property is present.
#[verifier::external_body]
fn event_resources(c: &calico::model::component::Event) -> (r: Option<Vec<Vec<String>>>)
    ensures
        r == event_resources_of(*c),
{
    match c.resources() {
        Some(ps) => Some(ps.iter().map(|p| p.value.clone()).collect()),
        None => None,
    }
}

/// What `event_image` reads, for these arguments.
pub uninterp spec fn event_image_of(c: ICalEvent) -> Option<Vec<PlainAttachment>>;

/// Calls `Event::image` of `calico` and hands back each occurrence as a URI or bytes, when the
/// property is present.
#[verifier::external_body]
fn event_image(c: &calico::model::component::Event) -> (r: Option<Vec<PlainAttachment>>)
    ensures
        r == event_image_of(*c),
{
    match c.image() {
        Some(ps) => Some(ps.iter().map(|p| plain_attachment(&p.value)).collect()),
        None => None,
    }
}

/// What `event_conference` reads, for these arguments.
pub uninterp spec fn event_conference_of(c: ICalEvent) -> Option<Vec<String>>;

/// Calls `Event::conference` of `calico` and hands back the text of each occurrence, when the
/// property is present.
#[verifier::external_body]
fn event_conference(c: &calico::model::component::Event) -> (r: Option<Vec<String>>)
    ensures
        r == event_conference_of(*c),
{
    match c.conference() {
        Some(ps) => Some(ps.iter().map(|p| p.value.as_str().to_string()).collect()),
        None => None,
    }
}

/// What `event_request_status` reads, for these arguments.
pub uninterp spec fn event_request_status_of(c: ICalEvent) -> Option<Vec<PlainRequestStatus>>;

/// Calls `Event::request_status` of `calico` and hands back the parts of each occurrence, when the
/// property is present.
#[verifier::external_body]
fn event_request_status(c: &calico::model::component::Event) -> (r: Option<Vec<PlainRequestStatus>>)
    ensures
        r == event_request_status_of(*c),
{
    match c.request_status() {
        Some(ps) => Some(ps.iter().map(|p| plain_request_status(&p.value)).collect()),
        None => None,
    }
}

/// What `event_dtend` reads, for these arguments.
pub uninterp spec fn event_dtend_of(c: ICalEvent) -> Option<PlainDtod>;

/// Calls `Event::dtend` of `calico` and hands back its date or date-time, when the
/// property is present.
#[verifier::external_body]
fn event_dtend(c: &calico::model::component::Event) -> (r: Option<PlainDtod>)
    ensures
        r == event_dtend_of(*c),
{
    match c.dtend() {
        Some(p) => Some(plain_dtod(&p.value)),
        None => None,
    }
}

/// What `event_transp` reads, for these arguments.
pub uninterp spec fn event_transp_of(c: ICalEvent) -> Option<IcalTransp>;

/// Calls `Event::transp` of `calico` and hands back its transparency, when the
/// property is present.
#[verifier::external_body]
fn event_transp(c: &calico::model::component::Event) -> (r: Option<IcalTransp>)
    ensures
        r == event_transp_of(*c),
{
    match c.transp() {
        Some(p) => Some(plain_transp(&p.value)),
        None => None,
    }
}

/// What `todo_uid` reads, for these arguments.
pub uninterp spec fn todo_uid_of(c: ICalTodo) -> Option<String>;

/// Calls `Todo::uid` of `calico` and hands back the text of its value, when the
/// property is present.
#[verifier::external_body]
fn todo_uid(c: &calico::model::component::Todo) -> (r: Option<String>)
    ensures
        r == todo_uid_of(*c),
{
    match c.uid() {
        Some(p) => Some(p.value.as_str().to_string()),
        None => None,
    }
}

/// What `todo_summary` reads, for these arguments.
pub uninterp spec fn todo_summary_of(c: ICalTodo) -> Option<String>;

/// Calls `Todo::summary` of `calico` and hands back its text, when the
/// property is present.
#[verifier::external_body]
fn todo_summary(c: &calico::model::component::Todo) -> (r: Option<String>)
    ensures
        r == todo_summary_of(*c),
{
    match c.summary() {
        Some(p) => Some(p.value.clone()),
        None => None,
    }
}

/// What `todo_description` reads, for these arguments.
pub uninterp spec fn todo_description_of(c: ICalTodo) -> Option<String>;

/// Calls `Todo::description` of `calico` and hands back its text, when the
/// property is present.
#[verifier::external_body]
fn todo_description(c: &calico::model::component::Todo) -> (r: Option<String>)
    ensures
        r == todo_description_of(*c),
{
    match c.description() {
        Some(p) => Some(p.value.clone()),
        None => None,
    }
}

/// What `todo_dtstart` reads, for these arguments.
pub uninterp spec fn todo_dtstart_of(c: ICalTodo) -> Option<PlainDtod>;

/// Calls `Todo::dtstart` of `calico` and hands back its date or date-time, when the
/// property is present.
#[verifier::external_body]
fn todo_dtstart(c: &calico::model::component::Todo) -> (r: Option<PlainDtod>)
    ensures
        r == todo_dtstart_of(*c),
{
    match c.dtstart() {
        Some(p) => Some(plain_dtod(&p.value)),
        None => None,
    }
}

/// What `todo_duration` reads, for these arguments.
pub uninterp spec fn todo_duration_of(c: ICalTodo) -> Option<PlainDuration>;

/// Calls `Todo::duration` of `calico` and hands back its duration, when the
/// property is present.
#[verifier::external_body]
fn todo_duration(c: &calico::model::component::Todo) -> (r: Option<PlainDuration>)
    ensures
        r == todo_duration_of(*c),
{
    match c.duration() {
        Some(p) => Some(plain_duration(&p.value)),
        None => None,
    }
}

/// What `todo_status` reads, for these arguments.
pub uninterp spec fn todo_status_of(c: ICalTodo) -> Option<IcalStatus>;

/// Calls `Todo::status` of `calico` and hands back its status, when the
/// property is present.
#[verifier::external_body]
fn todo_status(c: &calico::model::component::Todo) -> (r: Option<IcalStatus>)
    ensures
        r == todo_status_of(*c),
{
    match c.status() {
        Some(p) => Some(plain_status(&p.value)),
        None => None,
    }
}

/// What `todo_priority` reads, for these arguments.
pub uninterp spec fn todo_priority_of(c: ICalTodo) -> Option<IcalPriority>;

/// Calls `Todo::priority` of `calico` and hands back its priority, when the
/// property is present.
#[verifier::external_body]
fn todo_priority(c: &calico::model::component::Todo) -> (r: Option<IcalPriority>)
    ensures
        r == todo_priority_of(*c),
{
    match c.priority() {
        Some(p) => Some(plain_priority(&p.value)),
        None => None,
    }
}

/// What `todo_location` reads, for these arguments.
pub uninterp spec fn todo_location_of(c: ICalTodo) -> Option<String>;

/// Calls `Todo::location` of `calico` and hands back its text, when the
/// property is present.
#[verifier::external_body]
fn todo_location(c: &calico::model::component::Todo) -> (r: Option<String>)
    ensures
        r == todo_location_of(*c),
{
    match c.location() {
        Some(p) => Some(p.value.clone()),
        None => None,
    }
}

/// What `todo_color` reads, for these arguments.
pub uninterp spec fn todo_color_of(c: ICalTodo) -> Option<String>;

/// Calls `Todo::color` of `calico` and hands back its value as displayed, when the
/// property is present.
#[verifier::external_body]
fn todo_color(c: &calico::model::component::Todo) -> (r: Option<String>)
    ensures
        r == todo_color_of(*c),
{
    match c.color() {
        Some(p) => Some(p.value.to_string()),
        None => None,
    }
}

/// What `todo_categories` reads, for these arguments.
pub uninterp spec fn todo_categories_of(c: ICalTodo) -> Option<Vec<Vec<String>>>;

/// Calls `Todo::categories` of `calico` and hands back the texts of each occurrence, when the
/// property is present.
#[verifier::external_body]
fn todo_categories(c: &calico::model::component::Todo) -> (r: Option<Vec<Vec<String>>>)
    ensures
        r == todo_categories_of(*c),
{
    match c.categories() {
        Some(ps) => Some(ps.iter().map(|p| p.value.clone()).collect()),
        None => None,
    }
}

/// What `todo_dtstamp` reads, for these arguments.
pub uninterp spec fn todo_dtstamp_of(c: ICalTodo) -> Option<(PlainDate, PlainTime)>;

/// Calls `Todo::dtstamp` of `calico` and hands back its UTC date and time, when the
/// property is present.
#[verifier::external_body]
fn todo_dtstamp(c: &calico::model::component::Todo) -> (r: Option<(PlainDate, PlainTime)>)
    ensures
        r == todo_dtstamp_of(*c),
{
    match c.dtstamp() {
        Some(p) => Some(plain_datetime(&p.value)),
        None => None,
    }
}

/// What `todo_class` reads, for these arguments.
pub uninterp spec fn todo_class_of(c: ICalTodo) -> Option<IcalClass>;

/// Calls `Todo::class` of `calico` and hands back its classification, when the
/// property is present.
#[verifier::external_body]
fn todo_class(c: &calico::model::component::Todo) -> (r: Option<IcalClass>)
    ensures
        r == todo_class_of(*c),
{
    match c.class() {
        Some(p) => Some(plain_class(&p.value)),
        None => None,
    }
}

/// What `todo_created` reads, for these arguments.
pub uninterp spec fn todo_created_of(c: ICalTodo) -> Option<(PlainDate, PlainTime)>;

/// Calls `Todo::created` of `calico` and hands back its UTC date and time, when the
/// property is present.
#[verifier::external_body]
fn todo_created(c: &calico::model::component::Todo) -> (r: Option<(PlainDate, PlainTime)>)
    ensures
        r == todo_created_of(*c),
{
    match c.created() {
        Some(p) => Some(plain_datetime(&p.value)),
        None => None,
    }
}

/// What `todo_geo` reads, for these arguments.
pub uninterp spec fn todo_geo_of(c: ICalTodo) -> Option<(String, String)>;

/// Calls `Todo::geo` of `calico` and hands back the decimal texts of its latitude and longitude, when the
/// property is present.
#[verifier::external_body]
fn todo_geo(c: &calico::model::component::Todo) -> (r: Option<(String, String)>)
    ensures
        r == todo_geo_of(*c),
{
    match c.geo() {
        Some(p) => Some((p.value.lat.to_string(), p.value.lon.to_string())),
        None => None,
    }
}

/// What `todo_last_modified` reads, for these arguments.
pub uninterp spec fn todo_last_modified_of(c: ICalTodo) -> Option<(PlainDate, PlainTime)>;

/// Calls `Todo::last_modified` of `calico` and hands back its UTC date and time, when the
/// property is present.
#[verifier::external_body]
fn todo_last_modified(c: &calico::model::component::Todo) -> (r: Option<(PlainDate, PlainTime)>)
    ensures
        r == todo_last_modified_of(*c),
{
    match c.last_modified() {
        Some(p) => Some(plain_datetime(&p.value)),
        None => None,
    }
}

/// What `todo_organizer` reads, for these arguments.
pub uninterp spec fn todo_organizer_of(c: ICalTodo) -> Option<String>;

/// Calls `Todo::organizer` of `calico` and hands back the text of its value, when the
/// property is present.
#[verifier::external_body]
fn todo_organizer(c: &calico::model::component::Todo) -> (r: Option<String>)
    ensures
        r == todo_organizer_of(*c),
{
    match c.organizer() {
        Some(p) => Some(p.value.as_str().to_string()),
        None => None,
    }
}

/// What `todo_sequence` reads, for these arguments.
pub uninterp spec fn todo_sequence_of(c: ICalTodo) -> Option<i32>;

/// Calls `Todo::sequence` of `calico` and hands back its value, when the
/// property is present.
#[verifier::external_body]
fn todo_sequence(c: &calico::model::component::Todo) -> (r: Option<i32>)
    ensures
        r == todo_sequence_of(*c),
{
    match c.sequence() {
        Some(p) => Some(p.value),
        None => None,
    }
}

/// What `todo_url` reads, for these arguments.
pub uninterp spec fn todo_url_of(c: ICalTodo) -> Option<String>;

/// Calls `Todo::url` of `calico` and hands back the text of its value, when the
/// property is present.
#[verifier::external_body]
fn todo_url(c: &calico::model::component::Todo) -> (r: Option<String>)
    ensures
        r == todo_url_of(*c),
{
    match c.url() {
        Some(p) => Some(p.value.as_str().to_string()),
        None => None,
    }
}

/// What `todo_recurrence_id` reads, for these arguments.
pub uninterp spec fn todo_recurrence_id_of(c: ICalTodo) -> Option<PlainDtod>;

/// Calls `Todo::recurrence_id` of `calico` and hands back its date or date-time, when the
/// property is present.
#[verifier::external_body]
fn todo_recurrence_id(c: &calico::model::component::Todo) -> (r: Option<PlainDtod>)
    ensures
        r == todo_recurrence_id_of(*c),
{
    match c.recurrence_id() {
        Some(p) => Some(plain_dtod(&p.value)),
        None => None,
    }
}

/// What `todo_rdate` reads, for these arguments.
pub uninterp spec fn todo_rdate_of(c: ICalTodo) -> Option<Vec<Vec<PlainDtod>>>;

/// Calls `Todo::rdate` of `calico` and hands back the dates of each occurrence (periods by their start), when the
/// property is present.
#[verifier::external_body]
fn todo_rdate(c: &calico::model::component::Todo) -> (r: Option<Vec<Vec<PlainDtod>>>)
    ensures
        r == todo_rdate_of(*c),
{
    match c.rdate() {
        Some(ps) => Some(ps.iter().map(|p| plain_rdates(&p.value)).collect()),
        None => None,
    }
}

/// What `todo_exdate` reads, for these arguments.
pub uninterp spec fn todo_exdate_of(c: ICalTodo) -> Option<Vec<PlainDtod>>;

/// Calls `Todo::exdate` of `calico` and hands back the date or date-time of each occurrence, when the
/// property is present.
#[verifier::external_body]
fn todo_exdate(c: &calico::model::component::Todo) -> (r: Option<Vec<PlainDtod>>)
    ensures
        r == todo_exdate_of(*c),
{
    match c.exdate() {
        Some(ps) => Some(ps.iter().map(|p| plain_dtod(&p.value)).collect()),
        None => None,
    }
}

/// What `todo_attach` reads, for these arguments.
pub uninterp spec fn todo_attach_of(c: ICalTodo) -> Option<Vec<PlainAttachment>>;

/// Calls `Todo::attach` of `calico` and hands back each occurrence as a URI or bytes, when the
/// property is present.
#[verifier::external_body]
fn todo_attach(c: &calico::model::component::Todo) -> (r: Option<Vec<PlainAttachment>>)
    ensures
        r == todo_attach_of(*c),
{
    match c.attach() {
        Some(ps) => Some(ps.iter().map(|p| plain_attachment(&p.value)).collect()),
        None => None,
    }
}

/// What `todo_attendee` reads, for these arguments.
pub uninterp spec fn todo_attendee_of(c: ICalTodo) -> Option<Vec<String>>;

/// Calls `Todo::attendee` of `calico` and hands back the text of each occurrence, when the
/// property is present.
#[verifier::external_body]
fn todo_attendee(c: &calico::model::component::Todo) -> (r: Option<Vec<String>>)
    ensures
        r == todo_attendee_of(*c),
{
    match c.attendee() {
        Some(ps) => Some(ps.iter().map(|p| p.value.as_str().to_string()).collect()),
        None => None,
    }
}

/// What `todo_comment` reads, for these arguments.
pub uninterp spec fn todo_comment_of(c: ICalTodo) -> Option<Vec<String>>;

/// Calls `Todo::comment` of `calico` and hands back the text of each occurrence, when the
/// property is present.
#[verifier::external_body]
fn todo_comment(c: &calico::model::component::Todo) -> (r: Option<Vec<String>>)
    ensures
        r == todo_comment_of(*c),
{
    match c.comment() {
        Some(ps) => Some(ps.iter().map(|p| p.value.clone()).collect()),
        None => None,
    }
}

/// What `todo_contact` reads, for these arguments.
pub uninterp spec fn todo_contact_of(c: ICalTodo) -> Option<Vec<String>>;

/// Calls `Todo::contact` of `calico` and hands back the text of each occurrence, when the
/// property is present.
#[verifier::external_body]
fn todo_contact(c: &calico::model::component::Todo) -> (r: Option<Vec<String>>)
    ensures
        r == todo_contact_of(*c),
{
    match c.contact() {
        Some(ps) => Some(ps.iter().map(|p| p.value.clone()).collect()),
        None => None,
    }
}

/// What `todo_related_to` reads, for these arguments.
pub uninterp spec fn todo_related_to_of(c: ICalTodo) -> Option<Vec<String>>;

/// Calls `Todo::related_to` of `calico` and hands back the text of each occurrence, when the
/// property is present.
#[verifier::external_body]
fn todo_related_to(c: &calico::model::component::Todo) -> (r: Option<Vec<String>>)
    ensures
        r == todo_related_to_of(*c),
{
    match c.related_to() {
        Some(ps) => Some(ps.iter().map(|p| p.value.as_str().to_string()).collect()),
        None => None,
    }
}

/// What `todo_resources` reads, for these arguments.
pub uninterp spec fn todo_resources_of(c: ICalTodo) -> Option<Vec<Vec<String>>>;

/// Calls `Todo::resources` of `calico` and hands back the texts of each occurrence, when the
/// property is present.
#[verifier::external_body]
fn todo_resources(c: &calico::model::component::Todo) -> (r: Option<Vec<Vec<String>>>)
    ensures
        r == todo_resources_of(*c),
{
    match c.resources() {
        Some(ps) => Some(ps.iter().map(|p| p.value.clone()).collect()),
        None => None,
    }
}

/// What `todo_image` reads, for these arguments.
pub uninterp spec fn todo_image_of(c: ICalTodo) -> Option<Vec<PlainAttachment>>;

/// Calls `Todo::image` of `calico` and hands back each occurrence as a URI or bytes, when the
/// property is present.
#[verifier::external_body]
fn todo_image(c: &calico::model::component::Todo) -> (r: Option<Vec<PlainAttachment>>)
    ensures
        r == todo_image_of(*c),
{
    match c.image() {
        Some(ps) => Some(ps.iter().map(|p| plain_attachment(&p.value)).collect()),
        None => None,
    }
}

/// What `todo_conference` reads, for these arguments.
pub uninterp spec fn todo_conference_of(c: ICalTodo) -> Option<Vec<String>>;

/// Calls `Todo::conference` of `calico` and hands back the text of each occurrence, when the
/// property is present.
#[verifier::external_body]
fn todo_conference(c: &calico::model::component::Todo) -> (r: Option<Vec<String>>)
    ensures
        r == todo_conference_of(*c),
{
    match c.conference() {
        Some(ps) => Some(ps.iter().map(|p| p.value.as_str().to_string()).collect()),
        None => None,
    }
}

/// What `todo_request_status` reads, for these arguments.
pub uninterp spec fn todo_request_status_of(c: ICalTodo) -> Option<Vec<PlainRequestStatus>>;

/// Calls `Todo::request_status` of `calico` and hands back the parts of each occurrence, when the
/// property is present.
#[verifier::external_body]
fn todo_request_status(c: &calico::model::component::Todo) -> (r: Option<Vec<PlainRequestStatus>>)
    ensures
        r == todo_request_status_of(*c),
{
    match c.request_status() {
        Some(ps) => Some(ps.iter().map(|p| plain_request_status(&p.value)).collect()),
        None => None,
    }
}

/// What `todo_due` reads, for these arguments.
pub uninterp spec fn todo_due_of(c: ICalTodo) -> Option<PlainDtod>;

/// Calls `Todo::due` of `calico` and hands back its date or date-time, when the
/// property is present.
#[verifier::external_body]
fn todo_due(c: &calico::model::component::Todo) -> (r: Option<PlainDtod>)
    ensures
        r == todo_due_of(*c),
{
    match c.due() {
        Some(p) => Some(plain_dtod(&p.value)),
        None => None,
    }
}

/// What `todo_percent_complete` reads, for these arguments.
pub uninterp spec fn todo_percent_complete_of(c: ICalTodo) -> Option<u8>;

/// Calls `Todo::percent_complete` of `calico` and hands back its percentage, when the
/// property is present.
#[verifier::external_body]
fn todo_percent_complete(c: &calico::model::component::Todo) -> (r: Option<u8>)
    ensures
        r == todo_percent_complete_of(*c),
{
    match c.percent_complete() {
        Some(p) => Some(p.value.get()),
        None => None,
    }
}

/// What `todo_completed` reads, for these arguments.
pub uninterp spec fn todo_completed_of(c: ICalTodo) -> Option<(PlainDate, PlainTime)>;

/// Calls `Todo::completed` of `calico` and hands back its UTC date and time, when the
/// property is present.
#[verifier::external_body]
fn todo_completed(c: &calico::model::component::Todo) -> (r: Option<(PlainDate, PlainTime)>)
    ensures
        r == todo_completed_of(*c),
{
    match c.completed() {
        Some(p) => Some(plain_datetime(&p.value)),
        None => None,
    }
}


/// What `event_dtstart_tz` reads, for these arguments.
pub uninterp spec fn event_dtstart_tz_of(c: ICalEvent) -> Option<String>;

/// Calls `Event::dtstart` of `calico` and hands back the text of the
/// start's `TZID` parameter, when there is one.
#[verifier::external_body]
fn event_dtstart_tz(c: &calico::model::component::Event) -> (r: Option<String>)
    ensures
        r == event_dtstart_tz_of(*c),
{
    match c.dtstart() {
        Some(p) => p.params.tz_id().map(|tz| tz.as_str().to_string()),
        None => None,
    }
}

/// What `event_first_rrule` reads, for these arguments.
pub uninterp spec fn event_first_rrule_of(c: ICalEvent) -> Option<RRule>;

/// Calls `Event::rrule` of `calico` and hands back its first rule, when
/// the property is present.
#[verifier::external_body]
fn event_first_rrule(c: &calico::model::component::Event) -> (r: Option<&RRule>)
    ensures
        rule_of(r) == event_first_rrule_of(*c),
{
    match c.rrule() {
        Some(ps) => ps.first().map(|p| &p.value),
        None => None,
    }
}

/// The extension properties of an event, each occurrence with its name.
pub uninterp spec fn event_x_properties_of(c: ICalEvent) -> Multiset<(Seq<char>, ICalValue<String>)>;

/// Calls `x_property_iter` of a calico `Event` and hands back each
/// extension property's name and value, occurrence by occurrence. The
/// names come in the order of a hash map, which is left unsaid; what the
/// list holds is named.
#[verifier::external_body]
fn event_x_properties(c: &calico::model::component::Event) -> (r: Vec<(String, &ICalValue<String>)>)
    ensures
        raw_x_view(r@).to_multiset() == event_x_properties_of(*c),
{
    c.x_property_iter()
        .flat_map(|(k, props)| props.iter().map(move |p| (k.as_str().to_string(), &p.value)))
        .collect()
}

/// What `todo_dtstart_tz` reads, for these arguments.
pub uninterp spec fn todo_dtstart_tz_of(c: ICalTodo) -> Option<String>;

/// Calls `Todo::dtstart` of `calico` and hands back the text of the
/// start's `TZID` parameter, when there is one.
#[verifier::external_body]
fn todo_dtstart_tz(c: &calico::model::component::Todo) -> (r: Option<String>)
    ensures
        r == todo_dtstart_tz_of(*c),
{
    match c.dtstart() {
        Some(p) => p.params.tz_id().map(|tz| tz.as_str().to_string()),
        None => None,
    }
}

/// What `todo_first_rrule` reads, for these arguments.
pub uninterp spec fn todo_first_rrule_of(c: ICalTodo) -> Option<RRule>;

/// Calls `Todo::rrule` of `calico` and hands back its first rule, when
/// the property is present.
#[verifier::external_body]
fn todo_first_rrule(c: &calico::model::component::Todo) -> (r: Option<&RRule>)
    ensures
        rule_of(r) == todo_first_rrule_of(*c),
{
    match c.rrule() {
        Some(ps) => ps.first().map(|p| &p.value),
        None => None,
    }
}

/// The extension properties of a task, each occurrence with its name.
pub uninterp spec fn todo_x_properties_of(c: ICalTodo) -> Multiset<(Seq<char>, ICalValue<String>)>;

/// Calls `x_property_iter` of a calico `Todo` and hands back each
/// extension property's name and value, occurrence by occurrence. The
/// names come in the order of a hash map, which is left unsaid; what the
/// list holds is named.
#[verifier::external_body]
fn todo_x_properties(c: &calico::model::component::Todo) -> (r: Vec<(String, &ICalValue<String>)>)
    ensures
        raw_x_view(r@).to_multiset() == todo_x_properties_of(*c),
{
    c.x_property_iter()
        .flat_map(|(k, props)| props.iter().map(move |p| (k.as_str().to_string(), &p.value)))
        .collect()
}

/// The extension properties of a calendar, each occurrence with its name.
pub uninterp spec fn calendar_x_properties_of(c: ICalCalendar) -> Multiset<(Seq<char>, ICalValue<String>)>;

/// Calls `x_property_iter` of a calico `Calendar` and hands back each
/// extension property's name and value, occurrence by occurrence. The
/// names come in the order of a hash map, which is left unsaid; what the
/// list holds is named.
#[verifier::external_body]
fn calendar_x_properties(c: &ICalCalendar) -> (r: Vec<(String, &ICalValue<String>)>)
    ensures
        raw_x_view(r@).to_multiset() == calendar_x_properties_of(*c),
{
    c.x_property_iter()
        .flat_map(|(k, props)| props.iter().map(move |p| (k.as_str().to_string(), &p.value)))
        .collect()
}

/// What `plain_x_text` reads, for these arguments.
pub uninterp spec fn plain_x_text_of(v: ICalValue<String>) -> Option<PlainXValue>;

/// Reads an extension property's value (a calico `Value<String>`) of a
/// text, URI, address, binary or unknown kind as plain data; other kinds
/// give `None`.
#[verifier::external_body]
fn plain_x_text(v: &ICalValue<String>) -> (r: Option<PlainXValue>)
    ensures
        r == plain_x_text_of(*v),
{
    match v {
        ICalValue::Text(s) => Some(PlainXValue::Text(s.clone())),
        ICalValue::Uri(u) => Some(PlainXValue::Uri(u.as_str().to_string())),
        ICalValue::CalAddress(u) => Some(PlainXValue::CalAddress(u.as_str().to_string())),
        ICalValue::Binary(b) => Some(PlainXValue::Binary(b.clone())),
        ICalValue::Other { value, .. } => Some(PlainXValue::Other(value.clone())),
        _ => None,
    }
}

/// What `plain_x_number` reads, for these arguments.
pub uninterp spec fn plain_x_number_of(v: ICalValue<String>) -> Option<PlainXValue>;

/// Reads an extension property's value of an integer, boolean or float
/// kind as plain data (a float as its decimal text); other kinds give
/// `None`.
#[verifier::external_body]
fn plain_x_number(v: &ICalValue<String>) -> (r: Option<PlainXValue>)
    ensures
        r == plain_x_number_of(*v),
{
    match v {
        ICalValue::Integer(i) => Some(PlainXValue::Integer(*i)),
        ICalValue::Boolean(b) => Some(PlainXValue::Boolean(*b)),
        ICalValue::Float(f) => Some(PlainXValue::Float(f.to_string())),
        _ => None,
    }
}

/// What `plain_x_moment` reads, for these arguments.
pub uninterp spec fn plain_x_moment_of(v: ICalValue<String>) -> Option<PlainXValue>;

/// Reads an extension property's value of a date-time, date or time kind
/// as plain data; other kinds give `None`.
#[verifier::external_body]
fn plain_x_moment(v: &ICalValue<String>) -> (r: Option<PlainXValue>)
    ensures
        r == plain_x_moment_of(*v),
{
    match v {
        ICalValue::DateTime(dt) => Some(PlainXValue::DateTime(plain_datetime(dt).0, plain_datetime(dt).1)),
        ICalValue::Date(d) => Some(PlainXValue::Date(PlainDate { year: d.year().get(), month: d.month().number().get(), day: d.day() as u8 })),
        ICalValue::Time(t, _) => Some(PlainXValue::Time(PlainTime { hour: t.hour() as u8, minute: t.minute() as u8, second: t.second() as u8 })),
        _ => None,
    }
}

/// What `plain_x_span` reads, for these arguments.
pub uninterp spec fn plain_x_span_of(v: ICalValue<String>) -> Option<PlainXValue>;

/// Reads an extension property's value of a duration, UTC offset or
/// period kind as plain data (a period by its start); other kinds give
/// `None`.
#[verifier::external_body]
fn plain_x_span(v: &ICalValue<String>) -> (r: Option<PlainXValue>)
    ensures
        r == plain_x_span_of(*v),
{
    match v {
        ICalValue::Duration(sd) => Some(PlainXValue::Duration(plain_duration(sd))),
        ICalValue::UtcOffset(o) => Some(PlainXValue::UtcOffset(o.sign == Sign::Pos, o.hour as u8, o.minute as u8)),
        ICalValue::Period(calico::model::primitive::Period::Explicit { start, .. }) => Some(PlainXValue::Period(plain_datetime(start).0, plain_datetime(start).1)),
        ICalValue::Period(calico::model::primitive::Period::Start { start, .. }) => Some(PlainXValue::Period(plain_datetime(start).0, plain_datetime(start).1)),
        _ => None,
    }
}

/// What `x_value_rrule` reads, for these arguments.
pub uninterp spec fn x_value_rrule_of(v: ICalValue<String>) -> Option<RRule>;

/// The recurrence rule an extension property's value holds, if it is one.
#[verifier::external_body]
fn x_value_rrule(v: &ICalValue<String>) -> (r: Option<&RRule>)
    ensures
        rule_of(r) == x_value_rrule_of(*v),
{
    match v {
        ICalValue::Recur(r) => Some(r),
        _ => None,
    }
}

// ── Recurrence rules ───────────────────────────────────────────

#[verifier::external_type_specification]
#[verifier::external_body]
pub struct ExWeekday(CalWeekday);

/// Reads a calico `Weekday` as the variant of the same name.
#[verifier::external_body]
fn plain_weekday(w: CalWeekday) -> IcalWeekday {
    match w {
        CalWeekday::Monday => IcalWeekday::Monday,
        CalWeekday::Tuesday => IcalWeekday::Tuesday,
        CalWeekday::Wednesday => IcalWeekday::Wednesday,
        CalWeekday::Thursday => IcalWeekday::Thursday,
        CalWeekday::Friday => IcalWeekday::Friday,
        CalWeekday::Saturday => IcalWeekday::Saturday,
        CalWeekday::Sunday => IcalWeekday::Sunday,
    }
}

/// What `rrule_freq` reads, for these arguments.
pub uninterp spec fn rrule_freq_of(r: RRule) -> IcalFreq;

/// Reads the frequency of a calico `RRule` (the variant of its `freq`).
#[verifier::external_body]
fn rrule_freq(r: &RRule) -> (out: IcalFreq)
    ensures
        out == rrule_freq_of(*r),
{
    match &r.freq {
        FreqByRules::Secondly(_) => IcalFreq::Secondly,
        FreqByRules::Minutely(_) => IcalFreq::Minutely,
        FreqByRules::Hourly(_) => IcalFreq::Hourly,
        FreqByRules::Daily(_) => IcalFreq::Daily,
        FreqByRules::Weekly => IcalFreq::Weekly,
        FreqByRules::Monthly(_) => IcalFreq::Monthly,
        FreqByRules::Yearly(_) => IcalFreq::Yearly,
    }
}

/// What `rrule_interval` reads, for these arguments.
pub uninterp spec fn rrule_interval_of(r: RRule) -> Option<u64>;

/// Reads the interval of a calico `RRule`, when it has one.
#[verifier::external_body]
fn rrule_interval(r: &RRule) -> (out: Option<u64>)
    ensures
        out == rrule_interval_of(*r),
{
    match r.interval {
        Some(i) => Some(i.get().get()),
        None => None,
    }
}

/// What `rrule_termination` reads, for these arguments.
pub uninterp spec fn rrule_termination_of(r: RRule) -> Option<PlainTermination>;

/// Reads the termination (count or until) of a calico `RRule`.
#[verifier::external_body]
fn rrule_termination(r: &RRule) -> (out: Option<PlainTermination>)
    ensures
        out == rrule_termination_of(*r),
{
    match &r.termination {
        Some(calico::model::rrule::Termination::Count(c)) => Some(PlainTermination::Count(*c)),
        Some(calico::model::rrule::Termination::Until(d)) => Some(PlainTermination::Until(plain_dtod(d))),
        None => None,
    }
}

/// What `rrule_week_start` reads, for these arguments.
pub uninterp spec fn rrule_week_start_of(r: RRule) -> Option<IcalWeekday>;

/// Reads the week start of a calico `RRule`.
#[verifier::external_body]
fn rrule_week_start(r: &RRule) -> (out: Option<IcalWeekday>)
    ensures
        out == rrule_week_start_of(*r),
{
    match r.week_start {
        Some(w) => Some(plain_weekday(w)),
        None => None,
    }
}

/// What `rrule_has_second` reads, for these arguments.
pub uninterp spec fn rrule_has_second_of(r: RRule, s: u8) -> Option<bool>;

/// Whether second `s` is in the BYSECOND set of a calico `RRule`
/// (`SecondSet::get` of `Second::from_repr(s)`); `None` without that rule.
#[verifier::external_body]
fn rrule_has_second(r: &RRule, s: u8) -> (out: Option<bool>)
    ensures
        out == rrule_has_second_of(*r, s),
{
    match &r.core_by_rules.by_second {
        Some(set) => Some(match calico::model::rrule::Second::from_repr(s) {
            Some(x) => set.get(x),
            None => false,
        }),
        None => None,
    }
}

/// What `rrule_has_minute` reads, for these arguments.
pub uninterp spec fn rrule_has_minute_of(r: RRule, m: u8) -> Option<bool>;

/// Whether minute `m` is in the BYMINUTE set of a calico `RRule`; `None`
/// without that rule.
#[verifier::external_body]
fn rrule_has_minute(r: &RRule, m: u8) -> (out: Option<bool>)
    ensures
        out == rrule_has_minute_of(*r, m),
{
    match &r.core_by_rules.by_minute {
        Some(set) => Some(match calico::model::rrule::Minute::from_repr(m) {
            Some(x) => set.get(x),
            None => false,
        }),
        None => None,
    }
}

/// What `rrule_has_hour` reads, for these arguments.
pub uninterp spec fn rrule_has_hour_of(r: RRule, h: u8) -> Option<bool>;

/// Whether hour `h` is in the BYHOUR set of a calico `RRule`; `None`
/// without that rule.
#[verifier::external_body]
fn rrule_has_hour(r: &RRule, h: u8) -> (out: Option<bool>)
    ensures
        out == rrule_has_hour_of(*r, h),
{
    match &r.core_by_rules.by_hour {
        Some(set) => Some(match calico::model::rrule::Hour::from_repr(h) {
            Some(x) => set.get(x),
            None => false,
        }),
        None => None,
    }
}

/// What `rrule_has_month` reads, for these arguments.
pub uninterp spec fn rrule_has_month_of(r: RRule, m: u8) -> Option<bool>;

/// Whether month `m` (1 to 12) is in the BYMONTH set of a calico `RRule`;
/// `None` without that rule.
#[verifier::external_body]
fn rrule_has_month(r: &RRule, m: u8) -> (out: Option<bool>)
    ensures
        out == rrule_has_month_of(*r, m),
{
    match &r.core_by_rules.by_month {
        Some(set) => Some(match calico::model::primitive::Month::new(m) {
            Ok(x) => set.get(x),
            Err(_) => false,
        }),
        None => None,
    }
}

/// What `rrule_by_day` reads, for these arguments.
pub uninterp spec fn rrule_by_day_of(r: RRule) -> Option<Vec<PlainWeekdayNum>>;

/// The BYDAY entries of a calico `RRule` as the set hands them out, each
/// with its weekday and signed ordinal; `None` without that rule.
#[verifier::external_body]
fn rrule_by_day(r: &RRule) -> (out: Option<Vec<PlainWeekdayNum>>)
    ensures
        out == rrule_by_day_of(*r),
{
    match &r.core_by_rules.by_day {
        Some(set) => Some(set.iter().map(|w| PlainWeekdayNum {
            weekday: plain_weekday(w.weekday),
            ordinal: match w.ordinal { Some((sign, week)) => Some((sign == Sign::Pos, week as u8)), None => None },
        }).collect()),
        None => None,
    }
}

/// What `rrule_by_set_pos` reads, for these arguments.
pub uninterp spec fn rrule_by_set_pos_of(r: RRule) -> Option<Vec<i16>>;

/// The BYSETPOS values of a calico `RRule`, in the set's order; `None`
/// without that rule.
#[verifier::external_body]
fn rrule_by_set_pos(r: &RRule) -> (out: Option<Vec<i16>>)
    ensures
        out == rrule_by_set_pos_of(*r),
{
    match &r.core_by_rules.by_set_pos {
        Some(set) => Some(set.iter().map(|y| y.get()).collect()),
        None => None,
    }
}

/// What `rrule_by_year_day` reads, for these arguments.
pub uninterp spec fn rrule_by_year_day_of(r: RRule) -> Option<Vec<i16>>;

/// The BYYEARDAY values of a calico `RRule` whose frequency carries them,
/// in the set's order; `None` otherwise.
#[verifier::external_body]
fn rrule_by_year_day(r: &RRule) -> (out: Option<Vec<i16>>)
    ensures
        out == rrule_by_year_day_of(*r),
{
    let set = match &r.freq {
        FreqByRules::Secondly(x) | FreqByRules::Minutely(x) | FreqByRules::Hourly(x) => x.by_year_day.as_ref(),
        FreqByRules::Yearly(x) => x.by_year_day.as_ref(),
        _ => None,
    };
    match set {
        Some(s) => Some(s.iter().map(|y| y.get()).collect()),
        None => None,
    }
}

/// What `rrule_has_month_day` reads, for these arguments.
pub uninterp spec fn rrule_has_month_day_of(r: RRule, from_start: bool, d: u8) -> Option<bool>;

/// Whether day `d` (1 to 31), counted from the start of the month when
/// `from_start` and from its end otherwise, is in the BYMONTHDAY set of a
/// calico `RRule` whose frequency carries one; `None` otherwise.
#[verifier::external_body]
fn rrule_has_month_day(r: &RRule, from_start: bool, d: u8) -> (out: Option<bool>)
    ensures
        out == rrule_has_month_day_of(*r, from_start, d),
{
    let set = match &r.freq {
        FreqByRules::Secondly(x) | FreqByRules::Minutely(x) | FreqByRules::Hourly(x) => x.by_month_day,
        FreqByRules::Daily(x) | FreqByRules::Monthly(x) => x.by_month_day,
        FreqByRules::Yearly(x) => x.by_month_day,
        FreqByRules::Weekly => None,
    }?;
    let sign = if from_start { Sign::Pos } else { Sign::Neg };
    Some(match calico::model::rrule::MonthDay::from_repr(d) {
        Some(day) => set.get(calico::model::rrule::MonthDaySetIndex::from_signed_month_day(sign, day)),
        None => false,
    })
}

/// What `rrule_has_week_no` reads, for these arguments.
pub uninterp spec fn rrule_has_week_no_of(r: RRule, from_start: bool, w: u8) -> Option<bool>;

/// Whether week `w` (1 to 53), counted from the start of the year when
/// `from_start` and from its end otherwise, is in the BYWEEKNO set of a
/// yearly calico `RRule`; `None` otherwise.
#[verifier::external_body]
fn rrule_has_week_no(r: &RRule, from_start: bool, w: u8) -> (out: Option<bool>)
    ensures
        out == rrule_has_week_no_of(*r, from_start, w),
{
    let set = match &r.freq {
        FreqByRules::Yearly(x) => x.by_week_no,
        _ => None,
    }?;
    let sign = if from_start { Sign::Pos } else { Sign::Neg };
    Some(match calico::model::primitive::IsoWeek::from_index(w) {
        Some(week) => set.get(calico::model::rrule::WeekNoSetIndex::from_signed_week(sign, week)),
        None => false,
    })
}

/// Whether an answer is a yes.
fn is_true(o: Option<bool>) -> (b: bool)
    ensures
        b == (o == Some(true)),
{
    match o {
        Some(x) => x,
        None => false,
    }
}

/// Reads a calico recurrence rule as plain data, asking each BY set for
/// each of its possible members.
fn rrule_data(r: &RRule) -> (p: PlainRRule)
    ensures
        rrule_read(p, *r),
{
    let by_second = match rrule_has_second(r, 0) {
        Some(_) => {
            let mut flags = [false; 61];
            for i in 0..61usize
                invariant
                    forall|j: int| 0 <= j < i ==> #[trigger] flags@[j] == (rrule_has_second_of(*r, j as u8) == Some(true)),
            {
                flags[i] = is_true(rrule_has_second(r, i as u8));
            }
            Some(flags)
        },
        None => None,
    };
    let by_minute = match rrule_has_minute(r, 0) {
        Some(_) => {
            let mut flags = [false; 60];
            for i in 0..60usize
                invariant
                    forall|j: int| 0 <= j < i ==> #[trigger] flags@[j] == (rrule_has_minute_of(*r, j as u8) == Some(true)),
            {
                flags[i] = is_true(rrule_has_minute(r, i as u8));
            }
            Some(flags)
        },
        None => None,
    };
    let by_hour = match rrule_has_hour(r, 0) {
        Some(_) => {
            let mut flags = [false; 24];
            for i in 0..24usize
                invariant
                    forall|j: int| 0 <= j < i ==> #[trigger] flags@[j] == (rrule_has_hour_of(*r, j as u8) == Some(true)),
            {
                flags[i] = is_true(rrule_has_hour(r, i as u8));
            }
            Some(flags)
        },
        None => None,
    };
    let by_month = match rrule_has_month(r, 1) {
        Some(_) => {
            let mut flags = [false; 12];
            for i in 0..12usize
                invariant
                    forall|j: int| 0 <= j < i ==> #[trigger] flags@[j] == (rrule_has_month_of(*r, (j + 1) as u8) == Some(true)),
            {
                flags[i] = is_true(rrule_has_month(r, (i + 1) as u8));
            }
            Some(flags)
        },
        None => None,
    };
    let by_month_day = match rrule_has_month_day(r, true, 1) {
        Some(_) => {
            let mut pos = [false; 31];
            let mut neg = [false; 31];
            for i in 0..31usize
                invariant
                    forall|j: int| 0 <= j < i ==> #[trigger] pos@[j] == (rrule_has_month_day_of(*r, true, (j + 1) as u8) == Some(true)),
                    forall|j: int| 0 <= j < i ==> #[trigger] neg@[j] == (rrule_has_month_day_of(*r, false, (j + 1) as u8) == Some(true)),
            {
                pos[i] = is_true(rrule_has_month_day(r, true, (i + 1) as u8));
                neg[i] = is_true(rrule_has_month_day(r, false, (i + 1) as u8));
            }
            Some((pos, neg))
        },
        None => None,
    };
    let by_week_no = match rrule_has_week_no(r, true, 1) {
        Some(_) => {
            let mut pos = [false; 53];
            let mut neg = [false; 53];
            for i in 0..53usize
                invariant
                    forall|j: int| 0 <= j < i ==> #[trigger] pos@[j] == (rrule_has_week_no_of(*r, true, (j + 1) as u8) == Some(true)),
                    forall|j: int| 0 <= j < i ==> #[trigger] neg@[j] == (rrule_has_week_no_of(*r, false, (j + 1) as u8) == Some(true)),
            {
                pos[i] = is_true(rrule_has_week_no(r, true, (i + 1) as u8));
                neg[i] = is_true(rrule_has_week_no(r, false, (i + 1) as u8));
            }
            Some((pos, neg))
        },
        None => None,
    };
    PlainRRule {
        freq: rrule_freq(r),
        interval: rrule_interval(r),
        termination: rrule_termination(r),
        week_start: rrule_week_start(r),
        by_second,
        by_minute,
        by_hour,
        by_month,
        by_day: rrule_by_day(r),
        by_set_pos: rrule_by_set_pos(r),
        by_month_day,
        by_year_day: rrule_by_year_day(r),
        by_week_no,
    }
}

/// What `calendar_prod_id` reads, for these arguments.
pub uninterp spec fn calendar_prod_id_of(c: ICalCalendar) -> Seq<char>;

/// Calls `Calendar::prod_id` of `calico` and hands back its text.
#[verifier::external_body]
fn calendar_prod_id(c: &ICalCalendar) -> (r: String)
    ensures
        r@ == calendar_prod_id_of(*c),
{
    let p = c.prod_id();
    p.value.clone()
}

/// What `calendar_uid` reads, for these arguments.
pub uninterp spec fn calendar_uid_of(c: ICalCalendar) -> Option<String>;

/// Calls `Calendar::uid` of `calico` and hands back the text of its value, when the
/// property is present.
#[verifier::external_body]
fn calendar_uid(c: &ICalCalendar) -> (r: Option<String>)
    ensures
        r == calendar_uid_of(*c),
{
    match c.uid() {
        Some(p) => Some(p.value.as_str().to_string()),
        None => None,
    }
}

/// What `calendar_color` reads, for these arguments.
pub uninterp spec fn calendar_color_of(c: ICalCalendar) -> Option<String>;

/// Calls `Calendar::color` of `calico` and hands back its value as displayed, when the
/// property is present.
#[verifier::external_body]
fn calendar_color(c: &ICalCalendar) -> (r: Option<String>)
    ensures
        r == calendar_color_of(*c),
{
    match c.color() {
        Some(p) => Some(p.value.to_string()),
        None => None,
    }
}

/// What `calendar_url` reads, for these arguments.
pub uninterp spec fn calendar_url_of(c: ICalCalendar) -> Option<String>;

/// Calls `Calendar::url` of `calico` and hands back the text of its value, when the
/// property is present.
#[verifier::external_body]
fn calendar_url(c: &ICalCalendar) -> (r: Option<String>)
    ensures
        r == calendar_url_of(*c),
{
    match c.url() {
        Some(p) => Some(p.value.as_str().to_string()),
        None => None,
    }
}

/// What `calendar_last_modified` reads, for these arguments.
pub uninterp spec fn calendar_last_modified_of(c: ICalCalendar) -> Option<(PlainDate, PlainTime)>;

/// Calls `Calendar::last_modified` of `calico` and hands back its UTC date and time, when the
/// property is present.
#[verifier::external_body]
fn calendar_last_modified(c: &ICalCalendar) -> (r: Option<(PlainDate, PlainTime)>)
    ensures
        r == calendar_last_modified_of(*c),
{
    match c.last_modified() {
        Some(p) => Some(plain_datetime(&p.value)),
        None => None,
    }
}

/// What `calendar_refresh_interval` reads, for these arguments.
pub uninterp spec fn calendar_refresh_interval_of(c: ICalCalendar) -> Option<PlainDuration>;

/// Calls `Calendar::refresh_interval` of `calico` and hands back its duration, when the
/// property is present.
#[verifier::external_body]
fn calendar_refresh_interval(c: &ICalCalendar) -> (r: Option<PlainDuration>)
    ensures
        r == calendar_refresh_interval_of(*c),
{
    match c.refresh_interval() {
        Some(p) => Some(plain_duration(&p.value)),
        None => None,
    }
}

/// What `calendar_source` reads, for these arguments.
pub uninterp spec fn calendar_source_of(c: ICalCalendar) -> Option<String>;

/// Calls `Calendar::source` of `calico` and hands back the text of its value, when the
/// property is present.
#[verifier::external_body]
fn calendar_source(c: &ICalCalendar) -> (r: Option<String>)
    ensures
        r == calendar_source_of(*c),
{
    match c.source() {
        Some(p) => Some(p.value.as_str().to_string()),
        None => None,
    }
}

/// What `calendar_name` reads, for these arguments.
pub uninterp spec fn calendar_name_of(c: ICalCalendar) -> Option<Vec<String>>;

/// Calls `Calendar::name` of `calico` and hands back the text of each occurrence, when the
/// property is present.
#[verifier::external_body]
fn calendar_name(c: &ICalCalendar) -> (r: Option<Vec<String>>)
    ensures
        r == calendar_name_of(*c),
{
    match c.name() {
        Some(ps) => Some(ps.iter().map(|p| p.value.clone()).collect()),
        None => None,
    }
}

/// What `calendar_description` reads, for these arguments.
pub uninterp spec fn calendar_description_of(c: ICalCalendar) -> Option<Vec<String>>;

/// Calls `Calendar::description` of `calico` and hands back the text of each occurrence, when the
/// property is present.
#[verifier::external_body]
fn calendar_description(c: &ICalCalendar) -> (r: Option<Vec<String>>)
    ensures
        r == calendar_description_of(*c),
{
    match c.description() {
        Some(ps) => Some(ps.iter().map(|p| p.value.clone()).collect()),
        None => None,
    }
}

/// What `calendar_categories` reads, for these arguments.
pub uninterp spec fn calendar_categories_of(c: ICalCalendar) -> Option<Vec<Vec<String>>>;

/// Calls `Calendar::categories` of `calico` and hands back the texts of each occurrence, when the
/// property is present.
#[verifier::external_body]
fn calendar_categories(c: &ICalCalendar) -> (r: Option<Vec<Vec<String>>>)
    ensures
        r == calendar_categories_of(*c),
{
    match c.categories() {
        Some(ps) => Some(ps.iter().map(|p| p.value.clone()).collect()),
        None => None,
    }
}

/// A component of a parsed calendar: an event, a task, or another kind.
pub enum ICalComponentRef<'a> {
    Event(&'a ICalEvent),
    Todo(&'a ICalTodo),
    Other,
}

/// A component of a parsed calendar, as specifications speak of it.
pub enum ComponentOf {
    Event(ICalEvent),
    Todo(ICalTodo),
    Other,
}

/// The components that references point at.
pub open spec fn components_view(ks: Seq<ICalComponentRef<'_>>) -> Seq<ComponentOf> {
    Seq::new(ks.len(), |i: int| match ks[i] {
        ICalComponentRef::Event(e) => ComponentOf::Event(*e),
        ICalComponentRef::Todo(t) => ComponentOf::Todo(*t),
        ICalComponentRef::Other => ComponentOf::Other,
    })
}

/// The rule that an optional reference points at.
pub open spec fn rule_of(o: Option<&RRule>) -> Option<RRule> {
    match o {
        Some(r) => Some(*r),
        None => None,
    }
}

/// Extension properties by name (as text) and the value each reference
/// points at.
pub open spec fn raw_x_view(xs: Seq<(String, &ICalValue<String>)>) -> Seq<(Seq<char>, ICalValue<String>)> {
    Seq::new(xs.len(), |i: int| (xs[i].0@, *xs[i].1))
}

/// What `calendar_components` reads, for these arguments.
pub uninterp spec fn calendar_components_of(c: ICalCalendar) -> Seq<ComponentOf>;

/// Calls `Calendar::components` of `calico` and hands back each component,
/// telling events and tasks from the rest.
#[verifier::external_body]
fn calendar_components(c: &ICalCalendar) -> (r: Vec<ICalComponentRef<'_>>)
    ensures
        components_view(r@) == calendar_components_of(*c),
{
    c.components().iter().map(|k| match k {
        CalendarComponent::Event(e) => ICalComponentRef::Event(e),
        CalendarComponent::Todo(t) => ICalComponentRef::Todo(t),
        _ => ICalComponentRef::Other,
    }).collect()
}

/// What `calico::model::component::Calendar::parse` makes of iCalendar
/// text: the calendars it reads, or the text of the error it reports.
pub uninterp spec fn ical_parse(content: Seq<char>) -> Result<Seq<ICalCalendar>, Seq<char>>;

/// Whether iCalendar text fails to parse, and if so the text of the error.
pub open spec fn ical_parse_failure(content: Seq<char>) -> Option<Seq<char>> {
    match ical_parse(content) {
        Ok(_) => None,
        Err(e) => Some(e),
    }
}

/// Calls `calico::model::component::Calendar::parse`, which reads an
/// iCalendar stream into zero or more calendars; a failure is handed back as
/// the error's display text. The outcome depends on the text alone.
#[verifier::external_body]
fn parse_icalendar(content: &str) -> (r: Result<Vec<ICalCalendar>, String>)
    ensures
        r is Ok <==> ical_parse(content@) is Ok,
        r matches Ok(cals) ==> ical_parse(content@)->Ok_0 == cals@,
        r matches Err(e) ==> ical_parse(content@)->Err_0 == e@,
{
    match ICalCalendar::parse(content) {
        Ok(cals) => Ok(cals),
        Err(e) => Err(e.to_string()),
    }
}

// ── What translation reads ─────────────────────────────────────

/// Whether `flags` marks exactly the members of a BY set of `n` possible
/// members, member `i` being asked for as `has(i)`.
pub open spec fn flags_read(flags: Seq<bool>, n: int, has: spec_fn(int) -> Option<bool>) -> bool {
    flags.len() == n && forall|i: int| 0 <= i < n ==> #[trigger] flags[i] == (has(i) == Some(true))
}

/// Whether `p` is a recurrence rule read from `r`: its frequency,
/// interval, termination, week start and BY lists as `r` holds them, and
/// each BY set, when `r` has it, as membership flags.
pub open spec fn rrule_read(p: PlainRRule, r: RRule) -> bool {
    &&& p.freq == rrule_freq_of(r)
    &&& p.interval == rrule_interval_of(r)
    &&& p.termination == rrule_termination_of(r)
    &&& p.week_start == rrule_week_start_of(r)
    &&& p.by_day == rrule_by_day_of(r)
    &&& p.by_set_pos == rrule_by_set_pos_of(r)
    &&& p.by_year_day == rrule_by_year_day_of(r)
    &&& match rrule_has_second_of(r, 0) {
        None => p.by_second is None,
        Some(_) => p.by_second matches Some(f) && flags_read(f@, 61, |i: int| rrule_has_second_of(r, i as u8)),
    }
    &&& match rrule_has_minute_of(r, 0) {
        None => p.by_minute is None,
        Some(_) => p.by_minute matches Some(f) && flags_read(f@, 60, |i: int| rrule_has_minute_of(r, i as u8)),
    }
    &&& match rrule_has_hour_of(r, 0) {
        None => p.by_hour is None,
        Some(_) => p.by_hour matches Some(f) && flags_read(f@, 24, |i: int| rrule_has_hour_of(r, i as u8)),
    }
    &&& match rrule_has_month_of(r, 1) {
        None => p.by_month is None,
        Some(_) => p.by_month matches Some(f) && flags_read(f@, 12, |i: int| rrule_has_month_of(r, (i + 1) as u8)),
    }
    &&& match rrule_has_month_day_of(r, true, 1) {
        None => p.by_month_day is None,
        Some(_) => p.by_month_day matches Some((pos, neg))
            && flags_read(pos@, 31, |i: int| rrule_has_month_day_of(r, true, (i + 1) as u8))
            && flags_read(neg@, 31, |i: int| rrule_has_month_day_of(r, false, (i + 1) as u8)),
    }
    &&& match rrule_has_week_no_of(r, true, 1) {
        None => p.by_week_no is None,
        Some(_) => p.by_week_no matches Some((pos, neg))
            && flags_read(pos@, 53, |i: int| rrule_has_week_no_of(r, true, (i + 1) as u8))
            && flags_read(neg@, 53, |i: int| rrule_has_week_no_of(r, false, (i + 1) as u8)),
    }
}

/// Whether `p` is an extension property's value read from `v`: by the
/// first of the text, number, moment and span readings that applies, else
/// as a recurrence rule, else as empty text of an unknown kind.
pub open spec fn x_value_read(p: PlainXValue, v: ICalValue<String>) -> bool {
    if plain_x_text_of(v) is Some {
        p == plain_x_text_of(v)->Some_0
    } else if plain_x_number_of(v) is Some {
        p == plain_x_number_of(v)->Some_0
    } else if plain_x_moment_of(v) is Some {
        p == plain_x_moment_of(v)->Some_0
    } else if plain_x_span_of(v) is Some {
        p == plain_x_span_of(v)->Some_0
    } else {
        match x_value_rrule_of(v) {
            Some(r) => p matches PlainXValue::Recur(q) && rrule_read(q, r),
            None => p matches PlainXValue::Other(s) && s@.len() == 0,
        }
    }
}

/// Whether `out` holds the extension properties `raw`, in order, each
/// under its name and with its value read.
pub open spec fn x_props_read(out: Seq<(String, PlainXValue)>, raw: Seq<(Seq<char>, ICalValue<String>)>) -> bool {
    out.len() == raw.len() && forall|i: int| 0 <= i < out.len() ==> #[trigger] out[i].0@ == raw[i].0
        && x_value_read(out[i].1, raw[i].1)
}

/// Whether `out` holds the extension properties of `props`, in some
/// order, each under its name and with its value read.
pub open spec fn x_props_from(out: Seq<(String, PlainXValue)>, props: Multiset<(Seq<char>, ICalValue<String>)>) -> bool {
    exists|raw: Seq<(Seq<char>, ICalValue<String>)>| raw.to_multiset() == props && #[trigger] x_props_read(out, raw)
}

/// Whether `r` holds the first recurrence rule `o`, read.
pub open spec fn first_rule_read(p: Option<PlainRRule>, o: Option<RRule>) -> bool {
    match o {
        Some(r) => p matches Some(q) && rrule_read(q, r),
        None => p is None,
    }
}

/// Whether `d` holds the properties of event `e` as `calico` reads them.
pub open spec fn event_read(d: IcalComponent, e: ICalEvent) -> bool {
    &&& d.uid == event_uid_of(e)
    &&& d.summary == event_summary_of(e)
    &&& d.description == event_description_of(e)
    &&& d.dtstart == event_dtstart_of(e)
    &&& d.dtstart_tz == event_dtstart_tz_of(e)
    &&& d.duration == event_duration_of(e)
    &&& d.dtend == event_dtend_of(e)
    &&& d.due is None
    &&& d.percent_complete is None
    &&& d.status == event_status_of(e)
    &&& d.priority == event_priority_of(e)
    &&& d.location == event_location_of(e)
    &&& d.color == event_color_of(e)
    &&& d.categories == event_categories_of(e)
    &&& d.dtstamp == event_dtstamp_of(e)
    &&& d.class == event_class_of(e)
    &&& d.created == event_created_of(e)
    &&& d.geo == event_geo_of(e)
    &&& d.last_modified == event_last_modified_of(e)
    &&& d.organizer == event_organizer_of(e)
    &&& d.sequence == event_sequence_of(e)
    &&& d.transp == event_transp_of(e)
    &&& d.url == event_url_of(e)
    &&& d.completed is None
    &&& d.recurrence_id == event_recurrence_id_of(e)
    &&& first_rule_read(d.rrule, event_first_rrule_of(e))
    &&& d.rdates == event_rdate_of(e)
    &&& d.exdates == event_exdate_of(e)
    &&& d.attachments == event_attach_of(e)
    &&& d.attendees == event_attendee_of(e)
    &&& d.comments == event_comment_of(e)
    &&& d.contacts == event_contact_of(e)
    &&& d.related_to == event_related_to_of(e)
    &&& d.resources == event_resources_of(e)
    &&& d.images == event_image_of(e)
    &&& d.conferences == event_conference_of(e)
    &&& d.request_statuses == event_request_status_of(e)
    &&& x_props_from(d.x_properties@, event_x_properties_of(e))
}

/// Whether `d` holds the properties of task `t` as `calico` reads them.
pub open spec fn todo_read(d: IcalComponent, t: ICalTodo) -> bool {
    &&& d.uid == todo_uid_of(t)
    &&& d.summary == todo_summary_of(t)
    &&& d.description == todo_description_of(t)
    &&& d.dtstart == todo_dtstart_of(t)
    &&& d.dtstart_tz == todo_dtstart_tz_of(t)
    &&& d.duration == todo_duration_of(t)
    &&& d.dtend is None
    &&& d.due == todo_due_of(t)
    &&& d.percent_complete == todo_percent_complete_of(t)
    &&& d.status == todo_status_of(t)
    &&& d.priority == todo_priority_of(t)
    &&& d.location == todo_location_of(t)
    &&& d.color == todo_color_of(t)
    &&& d.categories == todo_categories_of(t)
    &&& d.dtstamp == todo_dtstamp_of(t)
    &&& d.class == todo_class_of(t)
    &&& d.created == todo_created_of(t)
    &&& d.geo == todo_geo_of(t)
    &&& d.last_modified == todo_last_modified_of(t)
    &&& d.organizer == todo_organizer_of(t)
    &&& d.sequence == todo_sequence_of(t)
    &&& d.transp is None
    &&& d.url == todo_url_of(t)
    &&& d.completed == todo_completed_of(t)
    &&& d.recurrence_id == todo_recurrence_id_of(t)
    &&& first_rule_read(d.rrule, todo_first_rrule_of(t))
    &&& d.rdates == todo_rdate_of(t)
    &&& d.exdates == todo_exdate_of(t)
    &&& d.attachments == todo_attach_of(t)
    &&& d.attendees == todo_attendee_of(t)
    &&& d.comments == todo_comment_of(t)
    &&& d.contacts == todo_contact_of(t)
    &&& d.related_to == todo_related_to_of(t)
    &&& d.resources == todo_resources_of(t)
    &&& d.images == todo_image_of(t)
    &&& d.conferences == todo_conference_of(t)
    &&& d.request_statuses == todo_request_status_of(t)
    &&& x_props_from(d.x_properties@, todo_x_properties_of(t))
}

/// Whether entry `e` is component `k` read: an event or a task with its
/// properties, or another kind.
pub open spec fn entry_read(e: IcalEntry, k: ComponentOf) -> bool {
    match k {
        ComponentOf::Event(ev) => e matches IcalEntry::Event(d) && event_read(d, ev),
        ComponentOf::Todo(t) => e matches IcalEntry::Todo(d) && todo_read(d, t),
        ComponentOf::Other => e is Other,
    }
}

/// Whether `d` holds the calendar-level properties of `c` as `calico`
/// reads them.
pub open spec fn calendar_read(d: IcalCalendarData, c: ICalCalendar) -> bool {
    &&& d.prod_id@ == calendar_prod_id_of(c)
    &&& d.uid == calendar_uid_of(c)
    &&& d.names == calendar_name_of(c)
    &&& d.descriptions == calendar_description_of(c)
    &&& d.color == calendar_color_of(c)
    &&& d.url == calendar_url_of(c)
    &&& d.categories == calendar_categories_of(c)
    &&& d.last_modified == calendar_last_modified_of(c)
    &&& d.refresh_interval == calendar_refresh_interval_of(c)
    &&& d.source == calendar_source_of(c)
    &&& x_props_from(d.x_properties@, calendar_x_properties_of(c))
}

/// The value of an extension property as plain data.
fn x_value_data(v: &ICalValue<String>) -> (r: PlainXValue)
    ensures
        x_value_read(r, *v),
{
    if let Some(x) = plain_x_text(v) {
        return x;
    }
    if let Some(x) = plain_x_number(v) {
        return x;
    }
    if let Some(x) = plain_x_moment(v) {
        return x;
    }
    if let Some(x) = plain_x_span(v) {
        return x;
    }
    match x_value_rrule(v) {
        Some(r) => PlainXValue::Recur(rrule_data(r)),
        None => PlainXValue::Other(String::new()),
    }
}

/// Extension properties with their values as plain data, in order.
fn x_props_data(raw: Vec<(String, &ICalValue<String>)>) -> (r: Vec<(String, PlainXValue)>)
    ensures
        x_props_read(r@, raw_x_view(raw@)),
{
    let ghost rv = raw_x_view(raw@);
    let mut out: Vec<(String, PlainXValue)> = Vec::new();
    for item in it: raw.into_iter()
        invariant
            it.seq() == raw@,
            rv == raw_x_view(raw@),
            out@.len() == it.index(),
            forall|j: int| 0 <= j < out@.len() ==> #[trigger] out@[j].0@ == rv[j].0
                && x_value_read(out@[j].1, rv[j].1),
    {
        let (name, v) = item;
        out.push((name, x_value_data(v)));
    }
    out
}

/// The properties of an event, as translation reads them.
fn event_data(e: &ICalEvent) -> (r: IcalComponent)
    ensures
        event_read(r, *e),
{
    let raw = event_x_properties(e);
    let ghost rv = raw_x_view(raw@);
    let x_properties = x_props_data(raw);
    assert(x_props_read(x_properties@, rv));
    IcalComponent {
        uid: event_uid(e),
        summary: event_summary(e),
        description: event_description(e),
        dtstart: event_dtstart(e),
        dtstart_tz: event_dtstart_tz(e),
        duration: event_duration(e),
        dtend: event_dtend(e),
        due: None,
        percent_complete: None,
        status: event_status(e),
        priority: event_priority(e),
        location: event_location(e),
        color: event_color(e),
        categories: event_categories(e),
        dtstamp: event_dtstamp(e),
        class: event_class(e),
        created: event_created(e),
        geo: event_geo(e),
        last_modified: event_last_modified(e),
        organizer: event_organizer(e),
        sequence: event_sequence(e),
        transp: event_transp(e),
        url: event_url(e),
        completed: None,
        recurrence_id: event_recurrence_id(e),
        rrule: match event_first_rrule(e) {
            Some(r) => Some(rrule_data(r)),
            None => None,
        },
        rdates: event_rdate(e),
        exdates: event_exdate(e),
        attachments: event_attach(e),
        attendees: event_attendee(e),
        comments: event_comment(e),
        contacts: event_contact(e),
        related_to: event_related_to(e),
        resources: event_resources(e),
        images: event_image(e),
        conferences: event_conference(e),
        request_statuses: event_request_status(e),
        x_properties,
    }
}

/// The properties of a task, as translation reads them.
fn todo_data(t: &ICalTodo) -> (r: IcalComponent)
    ensures
        todo_read(r, *t),
{
    let raw = todo_x_properties(t);
    let ghost rv = raw_x_view(raw@);
    let x_properties = x_props_data(raw);
    assert(x_props_read(x_properties@, rv));
    IcalComponent {
        uid: todo_uid(t),
        summary: todo_summary(t),
        description: todo_description(t),
        dtstart: todo_dtstart(t),
        dtstart_tz: todo_dtstart_tz(t),
        duration: todo_duration(t),
        dtend: None,
        due: todo_due(t),
        percent_complete: todo_percent_complete(t),
        status: todo_status(t),
        priority: todo_priority(t),
        location: todo_location(t),
        color: todo_color(t),
        categories: todo_categories(t),
        dtstamp: todo_dtstamp(t),
        class: todo_class(t),
        created: todo_created(t),
        geo: todo_geo(t),
        last_modified: todo_last_modified(t),
        organizer: todo_organizer(t),
        sequence: todo_sequence(t),
        transp: None,
        url: todo_url(t),
        completed: todo_completed(t),
        recurrence_id: todo_recurrence_id(t),
        rrule: match todo_first_rrule(t) {
            Some(r) => Some(rrule_data(r)),
            None => None,
        },
        rdates: todo_rdate(t),
        exdates: todo_exdate(t),
        attachments: todo_attach(t),
        attendees: todo_attendee(t),
        comments: todo_comment(t),
        contacts: todo_contact(t),
        related_to: todo_related_to(t),
        resources: todo_resources(t),
        images: todo_image(t),
        conferences: todo_conference(t),
        request_statuses: todo_request_status(t),
        x_properties,
    }
}

/// The calendar-level properties of a calendar and its components, as
/// translation reads them.
fn calendar_data(c: &ICalCalendar) -> (r: (IcalCalendarData, Vec<IcalEntry>))
    ensures
        calendar_read(r.0, *c),
        r.1@.len() == calendar_components_of(*c).len(),
        forall|i: int| 0 <= i < r.1@.len() ==> entry_read(#[trigger] r.1@[i], calendar_components_of(*c)[i]),
{
    let raw = calendar_x_properties(c);
    let ghost rv = raw_x_view(raw@);
    let x_properties = x_props_data(raw);
    assert(x_props_read(x_properties@, rv));
    let data = IcalCalendarData {
        prod_id: calendar_prod_id(c),
        uid: calendar_uid(c),
        names: calendar_name(c),
        descriptions: calendar_description(c),
        color: calendar_color(c),
        url: calendar_url(c),
        categories: calendar_categories(c),
        last_modified: calendar_last_modified(c),
        refresh_interval: calendar_refresh_interval(c),
        source: calendar_source(c),
        x_properties,
    };
    let ks = calendar_components(c);
    let ghost kv = components_view(ks@);
    let mut entries: Vec<IcalEntry> = Vec::new();
    for k in it: ks.into_iter()
        invariant
            it.seq() == ks@,
            kv == components_view(ks@),
            kv == calendar_components_of(*c),
            entries@.len() == it.index(),
            forall|j: int| 0 <= j < entries@.len() ==> entry_read(#[trigger] entries@[j], kv[j]),
    {
        match k {
            ICalComponentRef::Event(e) => entries.push(IcalEntry::Event(event_data(e))),
            ICalComponentRef::Todo(t) => entries.push(IcalEntry::Todo(todo_data(t))),
            ICalComponentRef::Other => entries.push(IcalEntry::Other),
        }
    }
    (data, entries)
}

/// Whether `p` holds calendar `c` read: its own properties, and each of its
/// components in order.
pub open spec fn calendar_parts_read(p: (IcalCalendarData, Vec<IcalEntry>), c: ICalCalendar) -> bool {
    &&& calendar_read(p.0, c)
    &&& p.1@.len() == calendar_components_of(c).len()
    &&& forall|j: int| 0 <= j < p.1@.len() ==> entry_read(#[trigger] p.1@[j], calendar_components_of(c)[j])
}

/// Whether `parts` holds the calendars `cals` read, in order.
pub open spec fn calendars_read(parts: Seq<(IcalCalendarData, Vec<IcalEntry>)>, cals: Seq<ICalCalendar>) -> bool {
    parts.len() == cals.len() && forall|i: int| 0 <= i < parts.len() ==> calendar_parts_read(#[trigger] parts[i], cals[i])
}

/// Translates an iCalendar string into a list of calendar records, each
/// with its properties and, under `entries`, its events and tasks.
///
/// Fails exactly when the text does not parse, with
/// `iCalendar parse error: ` and the parser's error.
pub fn translate_icalendar(content: &str) -> (r: Result<ImportValue, String>)
    ensures
        r is Err <==> ical_parse_failure(content@) is Some,
        r matches Err(e) ==> e@ == "iCalendar parse error: "@ + ical_parse_failure(content@)->Some_0,
        r matches Ok(v) ==> v@ is List,
        r matches Ok(v) ==> exists|parts: Seq<(IcalCalendarData, Vec<IcalEntry>)>|
            #[trigger] calendars_read(parts, ical_parse(content@)->Ok_0) && v@ == icalendar_value(parts),
{
    let calendars = match parse_icalendar(content) {
        Ok(c) => c,
        Err(e) => {
            let mut m = to_chars("iCalendar parse error: ");
            push_str(&mut m, e.as_str());
            return Err(from_chars(m.as_slice()));
        },
    };
    let mut parts: Vec<(IcalCalendarData, Vec<IcalEntry>)> = Vec::new();
    for i in 0..calendars.len()
        invariant
            parts@.len() == i,
            forall|j: int| 0 <= j < i ==> calendar_parts_read(#[trigger] parts@[j], calendars@[j]),
    {
        parts.push(calendar_data(&calendars[i]));
    }
    let v = translate_calendars(&parts);
    assert(calendars_read(parts@, calendars@));
    Ok(v)
}

/// The REFRESH-INTERVAL of the first calendar that iCalendar text holds,
/// if the text parses and holds a calendar.
pub open spec fn first_refresh_interval(content: Seq<char>) -> Option<PlainDuration> {
    match ical_parse(content) {
        Ok(cals) => if cals.len() > 0 {
            calendar_refresh_interval_of(cals[0])
        } else {
            None
        },
        Err(_) => None,
    }
}

/// Whether `r` is the REFRESH-INTERVAL of the first calendar in iCalendar
/// text as total seconds: `None` when there is none or it is negative.
pub open spec fn refresh_secs_read(content: Seq<char>, r: Option<u64>) -> bool {
    match first_refresh_interval(content) {
        Some(d) => match r {
            Some(n) => duration_seconds(d) == Some(n as int),
            None => duration_seconds(d) is None,
        },
        None => r is None,
    }
}

/// The REFRESH-INTERVAL of the first calendar in iCalendar text, as total
/// seconds; `None` when the text does not parse, holds no calendar, the
/// first has no refresh interval, or it is negative.
pub fn extract_ical_refresh_interval_secs(content: &str) -> (r: Option<u64>)
    ensures
        refresh_secs_read(content@, r),
{
    let calendars = match parse_icalendar(content) {
        Ok(c) => c,
        Err(_) => return None,
    };
    if calendars.len() == 0 {
        return None;
    }
    match calendar_refresh_interval(&calendars[0]) {
        Some(d) => crate::ical_import::signed_duration_to_secs(d),
        None => None,
    }
}

} // verus!
