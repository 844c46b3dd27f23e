//! Reading calendar values back out of plain records, as writing an
//! iCalendar document needs them: date-times, durations, statuses,
//! priorities, classifications, transparency, weekdays, attachments and
//! request statuses. Each reader gives `None` (or a default) exactly where
//! the record does not hold a value of its kind.
use vstd::prelude::*;
use vstd::utf8::encode_utf8;

use crate::emit_fields::{b64_decode, base64_decode, strip_spaces, to_uppercase, uppercase};
use crate::ical_import::{
    days_in_month, IcalFreq, PlainRRule, PlainTermination, PlainWeekdayNum, IcalClass, IcalPriority, IcalStatus, IcalTransp, IcalWeekday, PlainAttachment,
    PlainDate, PlainDtod, PlainDuration, PlainTime,
};
use crate::import_value::{import_record_of, ImportRecord, ImportRecordView, ImportValue, ImportView};
use crate::ical_import::{dtod_value, duration_value, datetime_value, date_value, time_value, date_fields, time_fields, status_text, weekday_text, transp_text, priority_number, attachment_value};
use crate::keyed::key_lookup;
use crate::text::{from_chars, str_eq, to_chars};

verus! {

broadcast use {crate::types::lemma_value_view_unfold, crate::import_value::lemma_import_view_unfold};

// ── Numbers ────────────────────────────────────────────────────

/// An integer value as `u64`, where it is one that fits.
pub open spec fn u64_of(v: ImportView) -> Option<u64> {
    match v {
        ImportView::Integer(n) => Some(n),
        ImportView::SignedInteger(n) => if n >= 0 {
            Some(n as u64)
        } else {
            None
        },
        _ => None,
    }
}

/// An integer value as `i64`, where it is one that fits.
pub open spec fn i64_of(v: ImportView) -> Option<i64> {
    match v {
        ImportView::Integer(n) => if n <= i64::MAX {
            Some(n as i64)
        } else {
            None
        },
        ImportView::SignedInteger(n) => Some(n),
        _ => None,
    }
}

/// The unsigned integer of a field, where it has one.
pub open spec fn u64_field(r: ImportRecordView, k: Seq<char>) -> Option<u64> {
    match key_lookup(r, k) {
        Some(v) => u64_of(v),
        None => None,
    }
}

fn u64_field_of(r: &ImportRecord, k: &str) -> (n: Option<u64>)
    ensures
        n == u64_field(r@, k@),
{
    match r.get(k) {
        Some(v) => crate::emit_fields::import_value_to_u64(v),
        None => None,
    }
}

// ── Dates and times ────────────────────────────────────────────

/// A date the calendar has: year at most 9999, month 1 to 12, and a day
/// of that month.
pub open spec fn valid_date(y: u64, m: u64, d: u64) -> bool {
    y <= 9999 && 1 <= m <= 12 && 1 <= d <= days_in_month(y as int, m as int)
}

/// A time of day: hour up to 23, minute up to 59, second up to 60.
pub open spec fn valid_time(h: u64, mi: u64, s: u64) -> bool {
    h <= 23 && mi <= 59 && s <= 60
}

/// The date `{ year, month, day }` of a record, where it is a valid one.
pub open spec fn date_in(r: ImportRecordView) -> Option<PlainDate> {
    match (u64_field(r, "year"@), u64_field(r, "month"@), u64_field(r, "day"@)) {
        (Some(y), Some(m), Some(d)) => if valid_date(y, m, d) {
            Some(PlainDate { year: y as u16, month: m as u8, day: d as u8 })
        } else {
            None
        },
        _ => None,
    }
}

/// The time `{ hour, minute, second }` of a record, where it is a valid one.
pub open spec fn time_in(r: ImportRecordView) -> Option<PlainTime> {
    match (u64_field(r, "hour"@), u64_field(r, "minute"@), u64_field(r, "second"@)) {
        (Some(h), Some(mi), Some(s)) => if valid_time(h, mi, s) {
            Some(PlainTime { hour: h as u8, minute: mi as u8, second: s as u8 })
        } else {
            None
        },
        _ => None,
    }
}

pub(crate) fn is_valid_date(y: u64, m: u64, d: u64) -> (b: bool)
    ensures
        b == valid_date(y, m, d),
{
    if y > 9999 || m < 1 || m > 12 || d < 1 {
        return false;
    }
    let leap = y % 4 == 0 && (y % 100 != 0 || y % 400 == 0);
    let max: u64 = if m == 2 {
        if leap {
            29
        } else {
            28
        }
    } else if m == 4 || m == 6 || m == 9 || m == 11 {
        30
    } else {
        31
    };
    d <= max
}

fn date_of(r: &ImportRecord) -> (p: Option<PlainDate>)
    ensures
        p == date_in(r@),
{
    proof {
        reveal_strlit("year");
        reveal_strlit("month");
        reveal_strlit("day");
    }
    match (u64_field_of(r, "year"), u64_field_of(r, "month"), u64_field_of(r, "day")) {
        (Some(y), Some(m), Some(d)) => if is_valid_date(y, m, d) {
            Some(PlainDate { year: y as u16, month: m as u8, day: d as u8 })
        } else {
            None
        },
        _ => None,
    }
}

fn time_of(r: &ImportRecord) -> (p: Option<PlainTime>)
    ensures
        p == time_in(r@),
{
    proof {
        reveal_strlit("hour");
        reveal_strlit("minute");
        reveal_strlit("second");
    }
    match (u64_field_of(r, "hour"), u64_field_of(r, "minute"), u64_field_of(r, "second")) {
        (Some(h), Some(mi), Some(s)) => if h <= 23 && mi <= 59 && s <= 60 {
            Some(PlainTime { hour: h as u8, minute: mi as u8, second: s as u8 })
        } else {
            None
        },
        _ => None,
    }
}

/// The record a field holds, where it holds one.
pub open spec fn record_field(r: ImportRecordView, k: Seq<char>) -> Option<ImportRecordView> {
    match key_lookup(r, k) {
        Some(ImportView::Record(x)) => Some(x),
        _ => None,
    }
}

/// The date and time of a `{ date, time }` record, where both are valid.
pub open spec fn utc_datetime_of(v: ImportView) -> Option<(PlainDate, PlainTime)> {
    match v {
        ImportView::Record(rec) => match (record_field(rec, "date"@), record_field(rec, "time"@)) {
            (Some(dr), Some(tr)) => match (date_in(dr), time_in(tr)) {
                (Some(d), Some(t)) => Some((d, t)),
                _ => None,
            },
            _ => None,
        },
        _ => None,
    }
}

/// Reads a `{ date, time }` record as a UTC date-time.
pub fn record_to_utc_datetime(v: &ImportValue) -> (r: Option<(PlainDate, PlainTime)>)
    ensures
        r == utc_datetime_of(v@),
{
    proof {
        reveal_strlit("date");
        reveal_strlit("time");
    }
    let rec = match v {
        ImportValue::Record(r) => r,
        _ => return None,
    };
    let date_rec = match rec.get("date") {
        Some(ImportValue::Record(r)) => r,
        _ => return None,
    };
    let time_rec = match rec.get("time") {
        Some(ImportValue::Record(r)) => r,
        _ => return None,
    };
    match (date_of(date_rec), time_of(time_rec)) {
        (Some(d), Some(t)) => Some((d, t)),
        _ => None,
    }
}

/// Where a date-time stands: floating, in UTC, or in a named time zone.
#[derive(Debug, Clone, PartialEq, Eq)]
pub enum DtZone {
    Floating,
    Utc,
    Zoned(String),
}

/// The mathematical form of a zone.
pub enum ZoneView {
    Floating,
    Utc,
    Zoned(Seq<char>),
}

impl View for DtZone {
    type V = ZoneView;

    open spec fn view(&self) -> ZoneView {
        match self {
            DtZone::Floating => ZoneView::Floating,
            DtZone::Utc => ZoneView::Utc,
            DtZone::Zoned(s) => ZoneView::Zoned(s@),
        }
    }
}

/// Whether a time-zone name is `UTC` or `Z`, in any case of its letters.
pub open spec fn names_utc(t: Seq<char>) -> bool {
    ||| (t.len() == 3 && (t[0] == 'u' || t[0] == 'U') && (t[1] == 't' || t[1] == 'T') && (t[2] == 'c' || t[2] == 'C'))
    ||| (t.len() == 1 && (t[0] == 'z' || t[0] == 'Z'))
}

fn is_utc_name(t: &str) -> (r: bool)
    ensures
        r == names_utc(t@),
{
    let c = to_chars(t);
    if c.len() == 3 {
        (c[0] == 'u' || c[0] == 'U') && (c[1] == 't' || c[1] == 'T') && (c[2] == 'c' || c[2] == 'C')
    } else if c.len() == 1 {
        c[0] == 'z' || c[0] == 'Z'
    } else {
        false
    }
}

/// The zone of a date-time given the time zone named with it, if any:
/// `UTC` and `Z` (in any case) are UTC.
pub open spec fn zone_of(tz: Option<Seq<char>>) -> ZoneView {
    match tz {
        Some(t) => if names_utc(t) {
            ZoneView::Utc
        } else {
            ZoneView::Zoned(t)
        },
        None => ZoneView::Floating,
    }
}

/// A start (or due, or end) of an entry: a date record, flat or under
/// `date`, when there is no `time`; otherwise a date-time in the zone named
/// by `tz`.
pub open spec fn dtstart_of(v: ImportView, tz: Option<Seq<char>>) -> Option<(PlainDtod, ZoneView)> {
    match v {
        ImportView::Record(rec) => if key_lookup(rec, "time"@) is None {
            let d = if key_lookup(rec, "date"@) is Some {
                match record_field(rec, "date"@) {
                    Some(dr) => date_in(dr),
                    None => None,
                }
            } else {
                date_in(rec)
            };
            match d {
                Some(x) => Some((PlainDtod::Date(x), ZoneView::Floating)),
                None => None,
            }
        } else {
            match utc_datetime_of(v) {
                Some((d, t)) => Some((PlainDtod::DateTime(d, t), zone_of(tz))),
                None => None,
            }
        },
        _ => None,
    }
}

/// Reads the start of an entry, with the zone its `tz` names.
pub fn import_value_to_dtstart(v: &ImportValue, tz: Option<&str>) -> (r: Option<(PlainDtod, DtZone)>)
    ensures
        match dtstart_of(v@, match tz {
            Some(t) => Some(t@),
            None => None,
        }) {
            Some((d, z)) => r matches Some(x) && x.0 == d && x.1@ == z,
            None => r is None,
        },
{
    proof {
        reveal_strlit("date");
        reveal_strlit("time");
    }
    let rec = match v {
        ImportValue::Record(r) => r,
        _ => return None,
    };
    if !rec.contains_key("time") {
        let d = if rec.contains_key("date") {
            match rec.get("date") {
                Some(ImportValue::Record(dr)) => date_of(dr),
                _ => return None,
            }
        } else {
            date_of(rec)
        };
        return match d {
            Some(x) => Some((PlainDtod::Date(x), DtZone::Floating)),
            None => None,
        };
    }
    let (d, t) = match record_to_utc_datetime(v) {
        Some(p) => p,
        None => return None,
    };
    let zone = match tz {
        Some(t) => if is_utc_name(t) {
            DtZone::Utc
        } else {
            DtZone::Zoned(from_chars(to_chars(t).as_slice()))
        },
        None => DtZone::Floating,
    };
    Some((PlainDtod::DateTime(d, t), zone))
}

// ── Durations ──────────────────────────────────────────────────

/// A field's integer as `i64`, zero where it has none.
pub open spec fn i64_field_or_zero(r: ImportRecordView, k: Seq<char>) -> i64 {
    match key_lookup(r, k) {
        Some(v) => match i64_of(v) {
            Some(n) => n,
            None => 0,
        },
        None => 0,
    }
}

/// The magnitude of `n`, capped at `u32::MAX`.
pub open spec fn capped_magnitude(n: i64) -> u32 {
    let a = if n < 0 {
        -n
    } else {
        n as int
    };
    if a <= u32::MAX {
        a as u32
    } else {
        u32::MAX
    }
}

/// A duration record read back: negative when any component is, each
/// component by its magnitude.
pub open spec fn duration_of(v: ImportView) -> Option<PlainDuration> {
    match v {
        ImportView::Record(rec) => {
            let w = i64_field_or_zero(rec, "weeks"@);
            let d = i64_field_or_zero(rec, "days"@);
            let h = i64_field_or_zero(rec, "hours"@);
            let m = i64_field_or_zero(rec, "minutes"@);
            let s = i64_field_or_zero(rec, "seconds"@);
            Some(
                PlainDuration {
                    positive: !(w < 0 || d < 0 || h < 0 || m < 0 || s < 0),
                    weeks: capped_magnitude(w),
                    days: capped_magnitude(d),
                    hours: capped_magnitude(h),
                    minutes: capped_magnitude(m),
                    seconds: capped_magnitude(s),
                },
            )
        },
        _ => None,
    }
}

fn i64_field_of(r: &ImportRecord, k: &str) -> (n: i64)
    ensures
        n == i64_field_or_zero(r@, k@),
{
    match r.get(k) {
        Some(v) => match crate::emit_fields::import_value_to_i64(v) {
            Some(n) => n,
            None => 0,
        },
        None => 0,
    }
}

fn magnitude(n: i64) -> (r: u32)
    ensures
        r == capped_magnitude(n),
{
    if n < 0 {
        if n < -0xffff_ffff {
            u32::MAX
        } else {
            (0 - n) as u32
        }
    } else if n > 0xffff_ffff {
        u32::MAX
    } else {
        n as u32
    }
}

/// Reads a duration record as a signed duration.
pub fn record_to_signed_duration(v: &ImportValue) -> (r: Option<PlainDuration>)
    ensures
        r == duration_of(v@),
{
    proof {
        reveal_strlit("weeks");
        reveal_strlit("days");
        reveal_strlit("hours");
        reveal_strlit("minutes");
        reveal_strlit("seconds");
    }
    let rec = match v {
        ImportValue::Record(r) => r,
        _ => return None,
    };
    let w = i64_field_of(rec, "weeks");
    let d = i64_field_of(rec, "days");
    let h = i64_field_of(rec, "hours");
    let m = i64_field_of(rec, "minutes");
    let s = i64_field_of(rec, "seconds");
    Some(
        PlainDuration {
            positive: !(w < 0 || d < 0 || h < 0 || m < 0 || s < 0),
            weeks: magnitude(w),
            days: magnitude(d),
            hours: magnitude(h),
            minutes: magnitude(m),
            seconds: magnitude(s),
        },
    )
}


// ── Enumerations ───────────────────────────────────────────────

/// The status a lowercase name stands for.
pub open spec fn status_of(s: Seq<char>) -> Option<IcalStatus> {
    if s == "tentative"@ {
        Some(IcalStatus::Tentative)
    } else if s == "confirmed"@ {
        Some(IcalStatus::Confirmed)
    } else if s == "cancelled"@ {
        Some(IcalStatus::Cancelled)
    } else if s == "needs-action"@ {
        Some(IcalStatus::NeedsAction)
    } else if s == "completed"@ {
        Some(IcalStatus::Completed)
    } else if s == "in-process"@ {
        Some(IcalStatus::InProcess)
    } else if s == "draft"@ {
        Some(IcalStatus::Draft)
    } else if s == "final"@ {
        Some(IcalStatus::Final)
    } else {
        None
    }
}

/// Reads a status name.
pub fn str_to_status(s: &str) -> (r: Option<IcalStatus>)
    ensures
        r == status_of(s@),
{
    proof {
        reveal_strlit("tentative");
        reveal_strlit("confirmed");
        reveal_strlit("cancelled");
        reveal_strlit("needs-action");
        reveal_strlit("completed");
        reveal_strlit("in-process");
        reveal_strlit("draft");
        reveal_strlit("final");
    }
    if str_eq(s, "tentative") {
        Some(IcalStatus::Tentative)
    } else if str_eq(s, "confirmed") {
        Some(IcalStatus::Confirmed)
    } else if str_eq(s, "cancelled") {
        Some(IcalStatus::Cancelled)
    } else if str_eq(s, "needs-action") {
        Some(IcalStatus::NeedsAction)
    } else if str_eq(s, "completed") {
        Some(IcalStatus::Completed)
    } else if str_eq(s, "in-process") {
        Some(IcalStatus::InProcess)
    } else if str_eq(s, "draft") {
        Some(IcalStatus::Draft)
    } else if str_eq(s, "final") {
        Some(IcalStatus::Final)
    } else {
        None
    }
}

/// The priority a value stands for: its number 0 to 9, else zero.
pub open spec fn priority_of(v: ImportView) -> IcalPriority {
    let n = match u64_of(v) {
        Some(n) => n,
        None => 0,
    };
    if n == 1 {
        IcalPriority::A1
    } else if n == 2 {
        IcalPriority::A2
    } else if n == 3 {
        IcalPriority::A3
    } else if n == 4 {
        IcalPriority::B1
    } else if n == 5 {
        IcalPriority::B2
    } else if n == 6 {
        IcalPriority::B3
    } else if n == 7 {
        IcalPriority::C1
    } else if n == 8 {
        IcalPriority::C2
    } else if n == 9 {
        IcalPriority::C3
    } else {
        IcalPriority::Zero
    }
}

/// Reads a priority value.
pub fn import_value_to_priority(v: &ImportValue) -> (r: IcalPriority)
    ensures
        r == priority_of(v@),
{
    let n = match crate::emit_fields::import_value_to_u64(v) {
        Some(n) => n,
        None => 0,
    };
    match n {
        1 => IcalPriority::A1,
        2 => IcalPriority::A2,
        3 => IcalPriority::A3,
        4 => IcalPriority::B1,
        5 => IcalPriority::B2,
        6 => IcalPriority::B3,
        7 => IcalPriority::C1,
        8 => IcalPriority::C2,
        9 => IcalPriority::C3,
        _ => IcalPriority::Zero,
    }
}

/// Reads a classification name: the three standard ones, and any other as
/// an unknown classification written in uppercase.
pub fn str_to_class(s: &str) -> (r: IcalClass)
    ensures
        s@ == "public"@ ==> r == IcalClass::Public,
        s@ == "private"@ ==> r == IcalClass::Private,
        s@ == "confidential"@ ==> r == IcalClass::Confidential,
        s@ != "public"@ && s@ != "private"@ && s@ != "confidential"@ ==> (r matches IcalClass::Unknown(u)
            && u@ == uppercase(s@)),
{
    proof {
        reveal_strlit("public");
        reveal_strlit("private");
        reveal_strlit("confidential");
        assert("public"@.len() == 6 && "private"@.len() == 7 && "confidential"@.len() == 12);
    }
    if str_eq(s, "public") {
        IcalClass::Public
    } else if str_eq(s, "private") {
        IcalClass::Private
    } else if str_eq(s, "confidential") {
        IcalClass::Confidential
    } else {
        IcalClass::Unknown(to_uppercase(s))
    }
}

/// The transparency a name stands for: transparent, else opaque.
pub open spec fn transp_of(s: Seq<char>) -> IcalTransp {
    if s == "transparent"@ {
        IcalTransp::Transparent
    } else {
        IcalTransp::Opaque
    }
}

/// Reads a transparency name.
pub fn str_to_transp(s: &str) -> (r: IcalTransp)
    ensures
        r == transp_of(s@),
{
    proof {
        reveal_strlit("transparent");
    }
    if str_eq(s, "transparent") {
        IcalTransp::Transparent
    } else {
        IcalTransp::Opaque
    }
}

/// The weekday a lowercase English name stands for.
pub open spec fn weekday_of(s: Seq<char>) -> Option<IcalWeekday> {
    if s == "monday"@ {
        Some(IcalWeekday::Monday)
    } else if s == "tuesday"@ {
        Some(IcalWeekday::Tuesday)
    } else if s == "wednesday"@ {
        Some(IcalWeekday::Wednesday)
    } else if s == "thursday"@ {
        Some(IcalWeekday::Thursday)
    } else if s == "friday"@ {
        Some(IcalWeekday::Friday)
    } else if s == "saturday"@ {
        Some(IcalWeekday::Saturday)
    } else if s == "sunday"@ {
        Some(IcalWeekday::Sunday)
    } else {
        None
    }
}

/// Reads a weekday name.
pub fn str_to_weekday(s: &str) -> (r: Option<IcalWeekday>)
    ensures
        r == weekday_of(s@),
{
    proof {
        reveal_strlit("monday");
        reveal_strlit("tuesday");
        reveal_strlit("wednesday");
        reveal_strlit("thursday");
        reveal_strlit("friday");
        reveal_strlit("saturday");
        reveal_strlit("sunday");
    }
    if str_eq(s, "monday") {
        Some(IcalWeekday::Monday)
    } else if str_eq(s, "tuesday") {
        Some(IcalWeekday::Tuesday)
    } else if str_eq(s, "wednesday") {
        Some(IcalWeekday::Wednesday)
    } else if str_eq(s, "thursday") {
        Some(IcalWeekday::Thursday)
    } else if str_eq(s, "friday") {
        Some(IcalWeekday::Friday)
    } else if str_eq(s, "saturday") {
        Some(IcalWeekday::Saturday)
    } else if str_eq(s, "sunday") {
        Some(IcalWeekday::Sunday)
    } else {
        None
    }
}

// ── Attachments ────────────────────────────────────────────────

pub open spec fn is_ascii_alpha(c: char) -> bool {
    ('a' <= c && c <= 'z') || ('A' <= c && c <= 'Z')
}

pub open spec fn is_scheme_char(c: char) -> bool {
    is_ascii_alpha(c) || crate::text::is_digit(c) || c == '+' || c == '-' || c == '.'
}

/// A URI as the calendar types accept one: a scheme before the first
/// colon, starting with a letter and made of letters, digits, `+`, `-`
/// and `.`.
pub open spec fn uri_ok(s: Seq<char>) -> bool {
    match crate::text::spec_split_once(s, ':') {
        Some((scheme, _)) => scheme.len() > 0 && is_ascii_alpha(scheme[0]) && forall|i: int|
            1 <= i < scheme.len() ==> is_scheme_char(#[trigger] scheme[i]),
        None => false,
    }
}

pub(crate) fn is_uri(s: &str) -> (b: bool)
    ensures
        b == uri_ok(s@),
{
    let cs = to_chars(s);
    let end = match crate::text::find_from(&cs, ':', 0, cs.len()) {
        Some(i) => i,
        None => {
            assert(cs@.subrange(0, cs@.len() as int) =~= cs@);
            return false;
        },
    };
    assert(cs@.subrange(0, cs@.len() as int) =~= cs@);
    let ghost scheme = cs@.take(end as int);
    assert(crate::text::spec_split_once(s@, ':') == Some((scheme, cs@.skip(end + 1))));
    if end == 0 {
        return false;
    }
    let c0 = cs[0];
    assert(scheme[0] == c0);
    if !(('a' <= c0 && c0 <= 'z') || ('A' <= c0 && c0 <= 'Z')) {
        return false;
    }
    let mut i: usize = 1;
    while i < end
        invariant
            1 <= i <= end,
            end <= cs@.len(),
            scheme == cs@.take(end as int),
            crate::text::spec_split_once(s@, ':') == Some((scheme, cs@.skip(end + 1))),
            forall|j: int| 1 <= j < i ==> is_scheme_char(#[trigger] scheme[j]),
        decreases end - i,
    {
        let c = cs[i];
        if !((('a' <= c && c <= 'z') || ('A' <= c && c <= 'Z')) || ('0' <= c && c <= '9') || c == '+'
            || c == '-' || c == '.') {
            assert(!is_scheme_char(scheme[i as int]));
            return false;
        }
        i = i + 1;
    }
    true
}

/// Reads an attachment: a string as a URI where it is one, a record's
/// base64 `data` as bytes where it decodes.
pub fn import_value_to_attachment(v: &ImportValue) -> (r: Option<PlainAttachment>)
    ensures
        match v@ {
            ImportView::String(s) => if uri_ok(s) {
                r matches Some(PlainAttachment::Uri(u)) && u@ == s
            } else {
                r is None
            },
            ImportView::Record(rec) => match key_lookup(rec, "data"@) {
                Some(ImportView::String(d)) => match b64_decode(encode_utf8(strip_spaces(d))) {
                    Some(bytes) => r matches Some(PlainAttachment::Binary(b)) && b@ == bytes,
                    None => r is None,
                },
                _ => r is None,
            },
            _ => r is None,
        },
{
    proof {
        reveal_strlit("data");
    }
    match v {
        ImportValue::String(s) => if is_uri(s.as_str()) {
            Some(PlainAttachment::Uri(s.clone()))
        } else {
            None
        },
        ImportValue::Record(rec) => match rec.get("data") {
            Some(ImportValue::String(d)) => match base64_decode(d.as_str()) {
                Some(b) => Some(PlainAttachment::Binary(b)),
                None => None,
            },
            _ => None,
        },
        _ => None,
    }
}

// ── Request statuses ───────────────────────────────────────────

/// Decimal text of a byte, as `u8::from_str` reads it: an optional `+`,
/// then digits whose value is at most 255.
pub open spec fn parse_u8(s: Seq<char>) -> Option<u8> {
    match crate::text::spec_parse_u64(s) {
        Some(n) => if n <= 255 {
            Some(n as u8)
        } else {
            None
        },
        None => None,
    }
}

/// A request status read back from its text.
#[derive(Debug, Clone, PartialEq, Eq)]
pub struct ExportRequestStatus {
    /// The class of the code, 1 to 5.
    pub class: u8,
    pub major: u8,
    pub minor: Option<u8>,
    pub description: String,
    pub exception_data: Option<String>,
}

/// The text of a request status split up: `code;description[;data]`, the
/// code `class.major[.minor]` (anything after a third `.` ignored, and a
/// minor that is not a byte left out); `None` when the description or the
/// major number is missing, a number does not parse, or the class is not
/// 1 to 5.
pub open spec fn request_status_of(s: Seq<char>) -> Option<(u8, u8, Option<u8>, Seq<char>, Option<Seq<char>>)> {
    match crate::text::spec_split_once(s, ';') {
        Some((code, after)) => {
            let (desc, data) = match crate::text::spec_split_once(after, ';') {
                Some((d, e)) => (d, Some(e)),
                None => (after, None),
            };
            match crate::text::spec_split_once(code, '.') {
                Some((c0, rest)) => {
                    let (c1, minor_text) = match crate::text::spec_split_once(rest, '.') {
                        Some((a, b)) => (
                            a,
                            Some(
                                match crate::text::spec_split_once(b, '.') {
                                    Some((m, _)) => m,
                                    None => b,
                                },
                            ),
                        ),
                        None => (rest, None),
                    };
                    match (parse_u8(c0), parse_u8(c1)) {
                        (Some(class), Some(major)) => if 1 <= class <= 5 {
                            Some(
                                (
                                    class,
                                    major,
                                    match minor_text {
                                        Some(t) => parse_u8(t),
                                        None => None,
                                    },
                                    desc,
                                    data,
                                ),
                            )
                        } else {
                            None
                        },
                        _ => None,
                    }
                },
                None => None,
            }
        },
        None => None,
    }
}

pub(crate) fn split_on(v: &Vec<char>, c: char) -> (r: Option<(Vec<char>, Vec<char>)>)
    ensures
        match crate::text::spec_split_once(v@, c) {
            Some((a, b)) => r matches Some(p) && p.0@ == a && p.1@ == b,
            None => r is None,
        },
{
    assert(v@.subrange(0, v@.len() as int) =~= v@);
    match crate::text::find_from(v, c, 0, v.len()) {
        Some(i) => {
            let mut a: Vec<char> = Vec::new();
            let mut b: Vec<char> = Vec::new();
            for k in 0..i
                invariant
                    i < v@.len(),
                    a@ == v@.take(k as int),
            {
                a.push(v[k]);
                assert(v@.take(k + 1) =~= v@.take(k as int).push(v@[k as int]));
            }
            for k in i + 1..v.len()
                invariant
                    i < v@.len(),
                    b@ == v@.subrange(i + 1, k as int),
            {
                b.push(v[k]);
                assert(v@.subrange(i + 1, k + 1) =~= v@.subrange(i + 1, k as int).push(v@[k as int]));
            }
            assert(v@.subrange(i + 1, v@.len() as int) =~= v@.skip(i + 1));
            Some((a, b))
        },
        None => None,
    }
}

pub(crate) fn byte_of(v: &Vec<char>) -> (r: Option<u8>)
    ensures
        r == parse_u8(v@),
{
    let s = from_chars(v.as_slice());
    match crate::literals::eval_integer(s.as_str()) {
        Some(n) => if n <= 255 {
            Some(n as u8)
        } else {
            None
        },
        None => None,
    }
}

/// Reads the text of a request status, `2.0;Success` and the like.
pub fn str_to_request_status(s: &str) -> (r: Option<ExportRequestStatus>)
    ensures
        match request_status_of(s@) {
            Some((class, major, minor, desc, data)) => r matches Some(x) && x.class == class && x.major
                == major && x.minor == minor && x.description@ == desc && match data {
                Some(d) => x.exception_data matches Some(e) && e@ == d,
                None => x.exception_data is None,
            },
            None => r is None,
        },
{
    let cs = to_chars(s);
    let (code, after) = match split_on(&cs, ';') {
        Some(p) => p,
        None => return None,
    };
    let (desc, data) = match split_on(&after, ';') {
        Some((d, e)) => (d, Some(e)),
        None => (after, None),
    };
    let (c0, rest) = match split_on(&code, '.') {
        Some(p) => p,
        None => return None,
    };
    let (c1, minor_text) = match split_on(&rest, '.') {
        Some((a, b)) => {
            let m = match split_on(&b, '.') {
                Some((m, _)) => m,
                None => b,
            };
            (a, Some(m))
        },
        None => (rest, None),
    };
    let class = match byte_of(&c0) {
        Some(x) => x,
        None => return None,
    };
    let major = match byte_of(&c1) {
        Some(x) => x,
        None => return None,
    };
    if class < 1 || class > 5 {
        return None;
    }
    let minor = match &minor_text {
        Some(t) => byte_of(t),
        None => None,
    };
    Some(
        ExportRequestStatus {
            class,
            major,
            minor,
            description: from_chars(desc.as_slice()),
            exception_data: match data {
                Some(e) => Some(from_chars(e.as_slice())),
                None => None,
            },
        },
    )
}

// ── Recurrence rules ───────────────────────────────────────────

/// The mathematical form of a recurrence rule.
pub struct RRuleView {
    pub freq: IcalFreq,
    pub interval: Option<u64>,
    pub termination: Option<PlainTermination>,
    pub week_start: Option<IcalWeekday>,
    pub by_second: Option<Seq<bool>>,
    pub by_minute: Option<Seq<bool>>,
    pub by_hour: Option<Seq<bool>>,
    pub by_month: Option<Seq<bool>>,
    pub by_day: Option<Seq<PlainWeekdayNum>>,
    pub by_set_pos: Option<Seq<i16>>,
    pub by_month_day: Option<(Seq<bool>, Seq<bool>)>,
    pub by_year_day: Option<Seq<i16>>,
    pub by_week_no: Option<(Seq<bool>, Seq<bool>)>,
}

pub open spec fn opt_flags<const N: usize>(f: Option<[bool; N]>) -> Option<Seq<bool>> {
    match f {
        Some(a) => Some(a@),
        None => None,
    }
}

pub open spec fn opt_two_flags<const N: usize>(f: Option<([bool; N], [bool; N])>) -> Option<(Seq<bool>, Seq<bool>)> {
    match f {
        Some((a, b)) => Some((a@, b@)),
        None => None,
    }
}

pub open spec fn opt_seq<T>(v: Option<Vec<T>>) -> Option<Seq<T>> {
    match v {
        Some(x) => Some(x@),
        None => None,
    }
}

pub open spec fn rrule_view(p: PlainRRule) -> RRuleView {
    RRuleView {
        freq: p.freq,
        interval: p.interval,
        termination: p.termination,
        week_start: p.week_start,
        by_second: opt_flags(p.by_second),
        by_minute: opt_flags(p.by_minute),
        by_hour: opt_flags(p.by_hour),
        by_month: opt_flags(p.by_month),
        by_day: opt_seq(p.by_day),
        by_set_pos: opt_seq(p.by_set_pos),
        by_month_day: opt_two_flags(p.by_month_day),
        by_year_day: opt_seq(p.by_year_day),
        by_week_no: opt_two_flags(p.by_week_no),
    }
}

/// Flags for the numbers `lo..=hi` that the items name, each item an
/// unsigned integer in range (others are skipped).
pub open spec fn number_flags(items: Seq<ImportView>, lo: int, hi: int) -> Seq<bool>
    decreases items.len(),
{
    if items.len() == 0 {
        Seq::new((hi - lo + 1) as nat, |i: int| false)
    } else {
        let f = number_flags(items.drop_last(), lo, hi);
        match u64_of(items.last()) {
            Some(x) => if lo <= x <= hi {
                f.update(x - lo, true)
            } else {
                f
            },
            None => f,
        }
    }
}

/// Flags for the days `1..=max` counted from the start and from the end
/// that the items name as signed integers (others are skipped).
pub open spec fn signed_flags(items: Seq<ImportView>, max: int) -> (Seq<bool>, Seq<bool>)
    decreases items.len(),
{
    if items.len() == 0 {
        (Seq::new(max as nat, |i: int| false), Seq::new(max as nat, |i: int| false))
    } else {
        let (p, n) = signed_flags(items.drop_last(), max);
        match i64_of(items.last()) {
            Some(x) => if 1 <= x <= max {
                (p.update(x - 1, true), n)
            } else if 1 <= -x <= max {
                (p, n.update(-x - 1, true))
            } else {
                (p, n)
            },
            None => (p, n),
        }
    }
}

/// The signed day numbers, `1..=366` from the start or the end, that the
/// items name (others are skipped), in order.
pub open spec fn signed_days(items: Seq<ImportView>) -> Seq<i16>
    decreases items.len(),
{
    if items.len() == 0 {
        seq![]
    } else {
        let p = signed_days(items.drop_last());
        match i64_of(items.last()) {
            Some(x) => if 1 <= x <= 366 || 1 <= -x <= 366 {
                p.push(x as i16)
            } else {
                p
            },
            None => p,
        }
    }
}

/// The ordinal of an n-th weekday: none for zero, a week 1 to 53 from the
/// start or the end, and none for any other number.
pub open spec fn ordinal_of(n: i64) -> Option<(bool, u8)> {
    if n == 0 {
        None
    } else if 1 <= n <= 53 {
        Some((true, n as u8))
    } else if 1 <= -n <= 53 {
        Some((false, (-n) as u8))
    } else {
        None
    }
}

/// The weekday of a `by_day` item: a weekday name, or a record with a
/// `day` name and an optional `ordinal`.
pub open spec fn weekday_num_of(v: ImportView) -> Option<PlainWeekdayNum> {
    match v {
        ImportView::String(s) => match weekday_of(s) {
            Some(w) => Some(PlainWeekdayNum { weekday: w, ordinal: None }),
            None => None,
        },
        ImportView::Record(r) => match key_lookup(r, "day"@) {
            Some(ImportView::String(s)) => match weekday_of(s) {
                Some(w) => Some(PlainWeekdayNum { weekday: w, ordinal: ordinal_of(i64_field_or_zero(r, "ordinal"@)) }),
                None => None,
            },
            _ => None,
        },
        _ => None,
    }
}

/// The weekdays the `by_day` items name, in order.
pub open spec fn weekday_nums(items: Seq<ImportView>) -> Seq<PlainWeekdayNum>
    decreases items.len(),
{
    if items.len() == 0 {
        seq![]
    } else {
        let p = weekday_nums(items.drop_last());
        match weekday_num_of(items.last()) {
            Some(w) => p.push(w),
            None => p,
        }
    }
}

pub open spec fn any_flag(f: Seq<bool>) -> bool {
    exists|i: int| 0 <= i < f.len() && f[i]
}

/// The items of a list field, where it is one.
pub open spec fn list_field(r: ImportRecordView, k: Seq<char>) -> Option<Seq<ImportView>> {
    match key_lookup(r, k) {
        Some(ImportView::List(items)) => Some(items),
        _ => None,
    }
}

/// A flag set of a list field, where the field is a list naming a number.
pub open spec fn flag_rule(r: ImportRecordView, k: Seq<char>, lo: int, hi: int) -> Option<Seq<bool>> {
    match list_field(r, k) {
        Some(items) => if any_flag(number_flags(items, lo, hi)) {
            Some(number_flags(items, lo, hi))
        } else {
            None
        },
        None => None,
    }
}

pub open spec fn signed_flag_rule(r: ImportRecordView, k: Seq<char>, max: int) -> Option<(Seq<bool>, Seq<bool>)> {
    match list_field(r, k) {
        Some(items) => {
            let f = signed_flags(items, max);
            if any_flag(f.0) || any_flag(f.1) {
                Some(f)
            } else {
                None
            }
        },
        None => None,
    }
}

pub open spec fn day_rule(r: ImportRecordView, k: Seq<char>) -> Option<Seq<i16>> {
    match list_field(r, k) {
        Some(items) => if signed_days(items).len() > 0 {
            Some(signed_days(items))
        } else {
            None
        },
        None => None,
    }
}

pub open spec fn freq_of(s: Seq<char>) -> Option<IcalFreq> {
    if s == "secondly"@ {
        Some(IcalFreq::Secondly)
    } else if s == "minutely"@ {
        Some(IcalFreq::Minutely)
    } else if s == "hourly"@ {
        Some(IcalFreq::Hourly)
    } else if s == "daily"@ {
        Some(IcalFreq::Daily)
    } else if s == "weekly"@ {
        Some(IcalFreq::Weekly)
    } else if s == "monthly"@ {
        Some(IcalFreq::Monthly)
    } else if s == "yearly"@ {
        Some(IcalFreq::Yearly)
    } else {
        None
    }
}

/// How a recurrence ends: by `count` where the record has one (nothing
/// when it is not a count), else by `until` where that reads as a start.
pub open spec fn termination_of(r: ImportRecordView) -> Option<PlainTermination> {
    match key_lookup(r, "count"@) {
        Some(c) => match u64_of(c) {
            Some(n) => Some(PlainTermination::Count(n)),
            None => None,
        },
        None => match key_lookup(r, "until"@) {
            Some(u) => match dtstart_of(u, None) {
                Some((d, _)) => Some(PlainTermination::Until(d)),
                None => None,
            },
            None => None,
        },
    }
}

/// A recurrence record read back as a rule; `None` without a known
/// `frequency`. Month days apply to every frequency but weekly, year days
/// to the sub-daily and yearly ones, week numbers to yearly rules.
pub open spec fn rrule_of(r: ImportRecordView) -> Option<RRuleView> {
    match key_lookup(r, "frequency"@) {
        Some(ImportView::String(fs)) => match freq_of(fs) {
            Some(freq) => Some(
                RRuleView {
                    freq,
                    interval: match key_lookup(r, "interval"@) {
                        Some(v) => match u64_of(v) {
                            Some(n) => if n != 0 {
                                Some(n)
                            } else {
                                None
                            },
                            None => None,
                        },
                        None => None,
                    },
                    termination: termination_of(r),
                    week_start: match key_lookup(r, "week_start"@) {
                        Some(ImportView::String(w)) => weekday_of(w),
                        _ => None,
                    },
                    by_second: flag_rule(r, "by_second"@, 0, 60),
                    by_minute: flag_rule(r, "by_minute"@, 0, 59),
                    by_hour: flag_rule(r, "by_hour"@, 0, 23),
                    by_month: flag_rule(r, "by_month"@, 1, 12),
                    by_day: match list_field(r, "by_day"@) {
                        Some(items) => if weekday_nums(items).len() > 0 {
                            Some(weekday_nums(items))
                        } else {
                            None
                        },
                        None => None,
                    },
                    by_set_pos: day_rule(r, "by_set_pos"@),
                    by_month_day: if freq == IcalFreq::Weekly {
                        None
                    } else {
                        signed_flag_rule(r, "by_month_day"@, 31)
                    },
                    by_year_day: if freq == IcalFreq::Secondly || freq == IcalFreq::Minutely || freq
                        == IcalFreq::Hourly || freq == IcalFreq::Yearly {
                        day_rule(r, "by_year_day"@)
                    } else {
                        None
                    },
                    by_week_no: if freq == IcalFreq::Yearly {
                        signed_flag_rule(r, "by_week_no"@, 53)
                    } else {
                        None
                    },
                },
            ),
            None => None,
        },
        _ => None,
    }
}

fn flags_of<const N: usize>(items: &Vec<ImportValue>, lo: u64) -> (r: [bool; N])
    requires
        N <= 64,
        lo <= 1,
    ensures
        r@ == number_flags(ImportValue::List(*items)@->List_0, lo as int, lo + N - 1),
{
    let ghost iv = ImportValue::List(*items)@->List_0;
    proof {
        crate::import_value::lemma_import_list_view(*items);
    }
    let mut flags = [false; N];
    assert(flags@ =~= number_flags(iv.take(0), lo as int, lo + N - 1));
    for i in 0..items.len()
        invariant
            N <= 64,
            lo <= 1,
            iv.len() == items@.len(),
            forall|j: int| 0 <= j < items@.len() ==> #[trigger] iv[j] == items@[j]@,
            iv == ImportValue::List(*items)@->List_0,
            flags@ == number_flags(iv.take(i as int), lo as int, lo + N - 1),
    {
        assert(iv.take(i + 1).drop_last() =~= iv.take(i as int));
        assert(iv.take(i + 1).last() == items@[i as int]@);
        if let Some(x) = crate::emit_fields::import_value_to_u64(&items[i]) {
            if lo <= x && x - lo < N as u64 {
                flags.set((x - lo) as usize, true);
            }
        }
    }
    assert(iv.take(items@.len() as int) =~= iv);
    flags
}

pub(crate) fn has_flag(f: &[bool]) -> (b: bool)
    ensures
        b == any_flag(f@),
{
    let mut i: usize = 0;
    while i < f.len()
        invariant
            i <= f@.len(),
            forall|j: int| 0 <= j < i ==> !f@[j],
        decreases f@.len() - i,
    {
        if f[i] {
            return true;
        }
        i = i + 1;
    }
    false
}

fn signed_flags_of<const N: usize>(items: &Vec<ImportValue>) -> (r: ([bool; N], [bool; N]))
    requires
        N <= 64,
    ensures
        (r.0@, r.1@) == signed_flags(ImportValue::List(*items)@->List_0, N as int),
{
    let ghost iv = ImportValue::List(*items)@->List_0;
    proof {
        crate::import_value::lemma_import_list_view(*items);
    }
    let mut pos = [false; N];
    let mut neg = [false; N];
    assert((pos@, neg@) =~= signed_flags(iv.take(0), N as int));
    for i in 0..items.len()
        invariant
            N <= 64,
            iv.len() == items@.len(),
            forall|j: int| 0 <= j < items@.len() ==> #[trigger] iv[j] == items@[j]@,
            iv == ImportValue::List(*items)@->List_0,
            (pos@, neg@) == signed_flags(iv.take(i as int), N as int),
    {
        assert(iv.take(i + 1).drop_last() =~= iv.take(i as int));
        assert(iv.take(i + 1).last() == items@[i as int]@);
        if let Some(x) = crate::emit_fields::import_value_to_i64(&items[i]) {
            if 1 <= x && x <= N as i64 {
                pos.set((x - 1) as usize, true);
            } else if -(N as i64) <= x && x <= -1 {
                neg.set((-x - 1) as usize, true);
            }
        }
    }
    assert(iv.take(items@.len() as int) =~= iv);
    (pos, neg)
}

fn days_of(items: &Vec<ImportValue>) -> (r: Vec<i16>)
    ensures
        r@ == signed_days(ImportValue::List(*items)@->List_0),
{
    let ghost iv = ImportValue::List(*items)@->List_0;
    proof {
        crate::import_value::lemma_import_list_view(*items);
    }
    let mut out: Vec<i16> = Vec::new();
    assert(out@ =~= signed_days(iv.take(0)));
    for i in 0..items.len()
        invariant
            iv.len() == items@.len(),
            forall|j: int| 0 <= j < items@.len() ==> #[trigger] iv[j] == items@[j]@,
            iv == ImportValue::List(*items)@->List_0,
            out@ == signed_days(iv.take(i as int)),
    {
        assert(iv.take(i + 1).drop_last() =~= iv.take(i as int));
        assert(iv.take(i + 1).last() == items@[i as int]@);
        if let Some(x) = crate::emit_fields::import_value_to_i64(&items[i]) {
            if (1 <= x && x <= 366) || (-366 <= x && x <= -1) {
                out.push(x as i16);
            }
        }
    }
    assert(iv.take(items@.len() as int) =~= iv);
    out
}

fn weekday_num(v: &ImportValue) -> (r: Option<PlainWeekdayNum>)
    ensures
        r == weekday_num_of(v@),
{
    proof {
        reveal_strlit("day");
        reveal_strlit("ordinal");
    }
    match v {
        ImportValue::String(s) => match str_to_weekday(s.as_str()) {
            Some(w) => Some(PlainWeekdayNum { weekday: w, ordinal: None }),
            None => None,
        },
        ImportValue::Record(r) => match r.get("day") {
            Some(ImportValue::String(s)) => match str_to_weekday(s.as_str()) {
                Some(w) => {
                    let n = i64_field_of(r, "ordinal");
                    let ordinal = if n == 0 {
                        None
                    } else if 1 <= n && n <= 53 {
                        Some((true, n as u8))
                    } else if -53 <= n && n <= -1 {
                        Some((false, (-n) as u8))
                    } else {
                        None
                    };
                    Some(PlainWeekdayNum { weekday: w, ordinal })
                },
                None => None,
            },
            _ => None,
        },
        _ => None,
    }
}

fn weekday_nums_of(items: &Vec<ImportValue>) -> (r: Vec<PlainWeekdayNum>)
    ensures
        r@ == weekday_nums(ImportValue::List(*items)@->List_0),
{
    let ghost iv = ImportValue::List(*items)@->List_0;
    proof {
        crate::import_value::lemma_import_list_view(*items);
    }
    let mut out: Vec<PlainWeekdayNum> = Vec::new();
    assert(out@ =~= weekday_nums(iv.take(0)));
    for i in 0..items.len()
        invariant
            iv.len() == items@.len(),
            forall|j: int| 0 <= j < items@.len() ==> #[trigger] iv[j] == items@[j]@,
            iv == ImportValue::List(*items)@->List_0,
            out@ == weekday_nums(iv.take(i as int)),
    {
        assert(iv.take(i + 1).drop_last() =~= iv.take(i as int));
        assert(iv.take(i + 1).last() == items@[i as int]@);
        if let Some(w) = weekday_num(&items[i]) {
            out.push(w);
        }
    }
    assert(iv.take(items@.len() as int) =~= iv);
    out
}

pub(crate) fn list_items<'a>(r: &'a ImportRecord, k: &str) -> (l: Option<&'a Vec<ImportValue>>)
    ensures
        match list_field(r@, k@) {
            Some(items) => l is Some && ImportValue::List(*l->Some_0)@->List_0 == items,
            None => l is None,
        },
{
    match r.get(k) {
        Some(ImportValue::List(items)) => Some(items),
        _ => None,
    }
}

fn flag_rule_of<const N: usize>(r: &ImportRecord, k: &str, lo: u64) -> (f: Option<[bool; N]>)
    requires
        N <= 64,
        lo <= 1,
    ensures
        opt_flags(f) == flag_rule(r@, k@, lo as int, lo + N - 1),
{
    match list_items(r, k) {
        Some(items) => {
            let flags: [bool; N] = flags_of(items, lo);
            if has_flag(&flags) {
                Some(flags)
            } else {
                None
            }
        },
        None => None,
    }
}

pub(crate) fn signed_flag_rule_of<const N: usize>(r: &ImportRecord, k: &str) -> (f: Option<([bool; N], [bool; N])>)
    requires
        N <= 64,
    ensures
        opt_two_flags(f) == signed_flag_rule(r@, k@, N as int),
{
    match list_items(r, k) {
        Some(items) => {
            let flags: ([bool; N], [bool; N]) = signed_flags_of(items);
            if has_flag(&flags.0) || has_flag(&flags.1) {
                Some(flags)
            } else {
                None
            }
        },
        None => None,
    }
}

pub(crate) fn day_rule_of(r: &ImportRecord, k: &str) -> (f: Option<Vec<i16>>)
    ensures
        opt_seq(f) == day_rule(r@, k@),
{
    match list_items(r, k) {
        Some(items) => {
            let days = days_of(items);
            if days.len() > 0 {
                Some(days)
            } else {
                None
            }
        },
        None => None,
    }
}

pub(crate) fn freq_named(s: &str) -> (f: Option<IcalFreq>)
    ensures
        f == freq_of(s@),
{
    proof {
        reveal_strlit("secondly");
        reveal_strlit("minutely");
        reveal_strlit("hourly");
        reveal_strlit("daily");
        reveal_strlit("weekly");
        reveal_strlit("monthly");
        reveal_strlit("yearly");
    }
    if str_eq(s, "secondly") {
        Some(IcalFreq::Secondly)
    } else if str_eq(s, "minutely") {
        Some(IcalFreq::Minutely)
    } else if str_eq(s, "hourly") {
        Some(IcalFreq::Hourly)
    } else if str_eq(s, "daily") {
        Some(IcalFreq::Daily)
    } else if str_eq(s, "weekly") {
        Some(IcalFreq::Weekly)
    } else if str_eq(s, "monthly") {
        Some(IcalFreq::Monthly)
    } else if str_eq(s, "yearly") {
        Some(IcalFreq::Yearly)
    } else {
        None
    }
}

fn termination_in(r: &ImportRecord) -> (t: Option<PlainTermination>)
    ensures
        t == termination_of(r@),
{
    match r.get("count") {
        Some(c) => match crate::emit_fields::import_value_to_u64(c) {
            Some(n) => Some(PlainTermination::Count(n)),
            None => None,
        },
        None => match r.get("until") {
            Some(u) => match import_value_to_dtstart(u, None) {
                Some((d, _)) => Some(PlainTermination::Until(d)),
                None => None,
            },
            None => None,
        },
    }
}

/// Reads a recurrence record back as a rule: its `frequency` names one
/// (else `None`), and each `by_*` list keeps the items in range.
pub fn record_to_rrule(rec: &ImportRecord) -> (r: Option<PlainRRule>)
    ensures
        match rrule_of(rec@) {
            Some(v) => r matches Some(p) && rrule_view(p) == v,
            None => r is None,
        },
{
    let freq = match rec.get("frequency") {
        Some(ImportValue::String(s)) => match freq_named(s.as_str()) {
            Some(f) => f,
            None => return None,
        },
        _ => return None,
    };
    let interval = match rec.get("interval") {
        Some(v) => match crate::emit_fields::import_value_to_u64(v) {
            Some(n) => if n != 0 {
                Some(n)
            } else {
                None
            },
            None => None,
        },
        None => None,
    };
    let week_start = match rec.get("week_start") {
        Some(ImportValue::String(w)) => str_to_weekday(w.as_str()),
        _ => None,
    };
    let by_day = match list_items(rec, "by_day") {
        Some(items) => {
            let w = weekday_nums_of(items);
            if w.len() > 0 {
                Some(w)
            } else {
                None
            }
        },
        None => None,
    };
    let by_month_day = if matches!(freq, IcalFreq::Weekly) {
        None
    } else {
        signed_flag_rule_of::<31>(rec, "by_month_day")
    };
    let by_year_day = if matches!(
        freq,
        IcalFreq::Secondly | IcalFreq::Minutely | IcalFreq::Hourly | IcalFreq::Yearly
    ) {
        day_rule_of(rec, "by_year_day")
    } else {
        None
    };
    let by_week_no = if matches!(freq, IcalFreq::Yearly) {
        signed_flag_rule_of::<53>(rec, "by_week_no")
    } else {
        None
    };
    Some(
        PlainRRule {
            freq,
            interval,
            termination: termination_in(rec),
            week_start,
            by_second: flag_rule_of::<61>(rec, "by_second", 0),
            by_minute: flag_rule_of::<60>(rec, "by_minute", 0),
            by_hour: flag_rule_of::<24>(rec, "by_hour", 0),
            by_month: flag_rule_of::<12>(rec, "by_month", 1),
            by_day,
            by_set_pos: day_rule_of(rec, "by_set_pos"),
            by_month_day,
            by_year_day,
            by_week_no,
        },
    )
}

// ── What reading back gives of what was written ────────────────

/// The value of the last field named `k`.
pub open spec fn last_value(fields: Seq<(Seq<char>, ImportView)>, k: Seq<char>) -> Option<ImportView>
    decreases fields.len(),
{
    if fields.len() == 0 {
        None
    } else if fields.last().0 == k {
        Some(fields.last().1)
    } else {
        last_value(fields.drop_last(), k)
    }
}

/// Looking a name up in a record built field by field finds the last
/// field of that name.
pub proof fn lemma_import_record_lookup(fields: Seq<(Seq<char>, ImportView)>, k: Seq<char>)
    ensures
        key_lookup(import_record_of(fields), k) == last_value(fields, k),
    decreases fields.len(),
{
    if fields.len() > 0 {
        lemma_import_record_lookup(fields.drop_last(), k);
        crate::import_value::lemma_import_record_of_sorted(fields.drop_last());
        let r = import_record_of(fields.drop_last());
        if fields.last().0 == k {
            crate::keyed::lemma_insert_lookup_same(r, k, fields.last().1);
        } else {
            crate::keyed::lemma_insert_lookup_other(r, fields.last().0, fields.last().1, k);
        }
    }
}

proof fn lemma_date_read_back(d: PlainDate)
    requires
        valid_date(d.year as u64, d.month as u64, d.day as u64),
    ensures
        date_in(import_record_of(date_fields(d))) == Some(d),
{
    reveal_strlit("year");
    reveal_strlit("month");
    reveal_strlit("day");
    let f = date_fields(d);
    lemma_import_record_lookup(f, "year"@);
    lemma_import_record_lookup(f, "month"@);
    lemma_import_record_lookup(f, "day"@);
    reveal_with_fuel(last_value, 4);
    assert(f.drop_last() =~= seq![f[0], f[1]]);
    assert(f.drop_last().drop_last() =~= seq![f[0]]);
    assert(f.drop_last().drop_last().drop_last() =~= Seq::<(Seq<char>, ImportView)>::empty());
    assert("year"@.len() == 4 && "month"@.len() == 5 && "day"@.len() == 3);
    assert(last_value(f, "year"@) == Some(ImportView::Integer(d.year as u64)));
    assert(last_value(f, "month"@) == Some(ImportView::Integer(d.month as u64)));
    assert(last_value(f, "day"@) == Some(ImportView::Integer(d.day as u64)));
}

proof fn lemma_time_read_back(t: PlainTime)
    requires
        valid_time(t.hour as u64, t.minute as u64, t.second as u64),
    ensures
        time_in(import_record_of(time_fields(t))) == Some(t),
{
    reveal_strlit("hour");
    reveal_strlit("minute");
    reveal_strlit("second");
    let f = time_fields(t);
    lemma_import_record_lookup(f, "hour"@);
    lemma_import_record_lookup(f, "minute"@);
    lemma_import_record_lookup(f, "second"@);
    reveal_with_fuel(last_value, 4);
    assert(f.drop_last() =~= seq![f[0], f[1]]);
    assert(f.drop_last().drop_last() =~= seq![f[0]]);
    assert(f.drop_last().drop_last().drop_last() =~= Seq::<(Seq<char>, ImportView)>::empty());
    assert("hour"@.len() == 4 && "minute"@.len() == 6 && "second"@.len() == 6);
    assert("minute"@[0] == 'm' && "second"@[0] == 's');
    assert("minute"@ != "second"@);
    assert(last_value(f, "hour"@) == Some(ImportView::Integer(t.hour as u64)));
    assert(last_value(f, "minute"@) == Some(ImportView::Integer(t.minute as u64)));
    assert(last_value(f, "second"@) == Some(ImportView::Integer(t.second as u64)));
}

/// A valid date-time written as a record reads back as itself, as a start
/// without a time zone it is floating, and a valid date alone reads back
/// as that date.
pub proof fn lemma_datetime_round_trip(d: PlainDate, t: PlainTime)
    requires
        valid_date(d.year as u64, d.month as u64, d.day as u64),
        valid_time(t.hour as u64, t.minute as u64, t.second as u64),
    ensures
        utc_datetime_of(datetime_value(d, t)) == Some((d, t)),
        dtstart_of(dtod_value(PlainDtod::DateTime(d, t)), None) == Some((PlainDtod::DateTime(d, t), ZoneView::Floating)),
        dtstart_of(dtod_value(PlainDtod::Date(d)), None) == Some((PlainDtod::Date(d), ZoneView::Floating)),
{
    reveal_strlit("date");
    reveal_strlit("time");
    reveal_strlit("year");
    reveal_strlit("month");
    reveal_strlit("day");
    lemma_date_read_back(d);
    lemma_time_read_back(t);
    let f = seq![("date"@, date_value(d)), ("time"@, time_value(t))];
    lemma_import_record_lookup(f, "date"@);
    lemma_import_record_lookup(f, "time"@);
    reveal_with_fuel(last_value, 4);
    assert(f.drop_last().drop_last() =~= Seq::<(Seq<char>, ImportView)>::empty());
    assert(f.drop_last() =~= seq![("date"@, date_value(d))]);
    assert("date"@[0] == 'd' && "time"@[0] == 't');
    assert("date"@ != "time"@);
    assert(last_value(f, "date"@) == Some(date_value(d)));
    assert(last_value(f, "time"@) == Some(time_value(t)));
    let g = date_fields(d);
    lemma_import_record_lookup(g, "time"@);
    lemma_import_record_lookup(g, "date"@);
    assert(g.drop_last() =~= seq![g[0], g[1]]);
    assert(g.drop_last().drop_last() =~= seq![g[0]]);
    assert(g.drop_last().drop_last().drop_last() =~= Seq::<(Seq<char>, ImportView)>::empty());
    assert("year"@.len() == 4 && "month"@.len() == 5 && "day"@.len() == 3 && "time"@.len() == 4);
    assert("year"@[0] == 'y' && "date"@[0] == 'd' && "time"@[0] == 't');
    assert("year"@ != "time"@ && "year"@ != "date"@);
    assert(last_value(g, "time"@) is None);
    assert(last_value(g, "date"@) is None);
}

/// A duration written as a record reads back as itself; a negative one
/// needs a component that is not zero to keep its sign.
pub proof fn lemma_duration_round_trip(d: PlainDuration)
    requires
        d.positive || d.weeks > 0 || d.days > 0 || d.hours > 0 || d.minutes > 0 || d.seconds > 0,
    ensures
        duration_of(duration_value(d)) == Some(d),
{
    reveal_strlit("weeks");
    reveal_strlit("days");
    reveal_strlit("hours");
    reveal_strlit("minutes");
    reveal_strlit("seconds");
    let f = match duration_value(d) {
        ImportView::Record(_) => if d.positive {
            seq![
                ("weeks"@, ImportView::Integer(d.weeks as u64)),
                ("days"@, ImportView::Integer(d.days as u64)),
                ("hours"@, ImportView::Integer(d.hours as u64)),
                ("minutes"@, ImportView::Integer(d.minutes as u64)),
                ("seconds"@, ImportView::Integer(d.seconds as u64)),
            ]
        } else {
            seq![
                ("weeks"@, ImportView::SignedInteger((0 - d.weeks) as i64)),
                ("days"@, ImportView::SignedInteger((0 - d.days) as i64)),
                ("hours"@, ImportView::SignedInteger((0 - d.hours) as i64)),
                ("minutes"@, ImportView::SignedInteger((0 - d.minutes) as i64)),
                ("seconds"@, ImportView::SignedInteger((0 - d.seconds) as i64)),
            ]
        },
        _ => seq![],
    };
    assert(duration_value(d) == ImportView::Record(import_record_of(f)));
    lemma_import_record_lookup(f, "weeks"@);
    lemma_import_record_lookup(f, "days"@);
    lemma_import_record_lookup(f, "hours"@);
    lemma_import_record_lookup(f, "minutes"@);
    lemma_import_record_lookup(f, "seconds"@);
    reveal_with_fuel(last_value, 6);
    assert(f.drop_last() =~= seq![f[0], f[1], f[2], f[3]]);
    assert(f.drop_last().drop_last() =~= seq![f[0], f[1], f[2]]);
    assert(f.drop_last().drop_last().drop_last() =~= seq![f[0], f[1]]);
    assert(f.drop_last().drop_last().drop_last().drop_last() =~= seq![f[0]]);
    assert(f.drop_last().drop_last().drop_last().drop_last().drop_last() =~= Seq::<(Seq<char>, ImportView)>::empty());
    assert("weeks"@.len() == 5 && "days"@.len() == 4 && "hours"@.len() == 5 && "minutes"@.len() == 7 && "seconds"@.len() == 7);
    assert("weeks"@[0] == 'w' && "hours"@[0] == 'h' && "minutes"@[0] == 'm' && "seconds"@[0] == 's');
    assert("weeks"@ != "hours"@ && "minutes"@ != "seconds"@);
    assert(last_value(f, "weeks"@) == Some(f[0].1));
    assert(last_value(f, "days"@) == Some(f[1].1));
    assert(last_value(f, "hours"@) == Some(f[2].1));
    assert(last_value(f, "minutes"@) == Some(f[3].1));
    assert(last_value(f, "seconds"@) == Some(f[4].1));
}

/// Statuses, weekdays, transparency and priorities written out read back
/// as themselves (a status or transparency this library does not know
/// excepted).
pub proof fn lemma_names_round_trip(s: IcalStatus, w: IcalWeekday, t: IcalTransp, p: IcalPriority)
    ensures
        s != IcalStatus::Other ==> status_of(status_text(s)) == Some(s),
        weekday_of(weekday_text(w)) == Some(w),
        t != IcalTransp::Other ==> transp_of(transp_text(t)) == t,
        priority_of(ImportView::Integer(priority_number(p))) == p,
{
    reveal_strlit("tentative");
    reveal_strlit("confirmed");
    reveal_strlit("cancelled");
    reveal_strlit("needs-action");
    reveal_strlit("completed");
    reveal_strlit("in-process");
    reveal_strlit("draft");
    reveal_strlit("final");
    reveal_strlit("monday");
    reveal_strlit("tuesday");
    reveal_strlit("wednesday");
    reveal_strlit("thursday");
    reveal_strlit("friday");
    reveal_strlit("saturday");
    reveal_strlit("sunday");
    reveal_strlit("transparent");
    reveal_strlit("opaque");
    assert("transparent"@.len() == 11 && "opaque"@.len() == 6);
    assert("tentative"@[0] == 't' && "confirmed"@[0] == 'c' && "cancelled"@[0] == 'c' && "completed"@[0] == 'c');
    assert("confirmed"@[1] == 'o' && "cancelled"@[1] == 'a' && "completed"@[1] == 'o');
    assert("confirmed"@[2] == 'n' && "completed"@[2] == 'm');
    assert("tentative"@.len() == 9 && "confirmed"@.len() == 9 && "cancelled"@.len() == 9 && "completed"@.len() == 9);
    assert("needs-action"@.len() == 12 && "in-process"@.len() == 10 && "draft"@.len() == 5 && "final"@.len() == 5);
    assert("draft"@[0] == 'd' && "final"@[0] == 'f');
    assert("monday"@.len() == 6 && "tuesday"@.len() == 7 && "wednesday"@.len() == 9 && "thursday"@.len() == 8);
    assert("friday"@.len() == 6 && "saturday"@.len() == 8 && "sunday"@.len() == 6);
    assert("monday"@[0] == 'm' && "friday"@[0] == 'f' && "sunday"@[0] == 's' && "thursday"@[0] == 't' && "saturday"@[0] == 's');
}

/// Bytes attached inline read back as the same bytes.
pub proof fn lemma_binary_attachment_round_trip(b: Seq<u8>, v: Vec<u8>)
    requires
        v@ == b,
    ensures
        match attachment_value(PlainAttachment::Binary(v)) {
            ImportView::Record(rec) => key_lookup(rec, "data"@) == Some(ImportView::String(crate::ical_import::base64(b)))
                && b64_decode(encode_utf8(strip_spaces(crate::ical_import::base64(b)))) == Some(b),
            _ => false,
        },
{
    reveal_strlit("encoding");
    reveal_strlit("data");
    reveal_strlit("base64");
    let f = seq![("encoding"@, ImportView::String("base64"@)), ("data"@, ImportView::String(crate::ical_import::base64(b)))];
    lemma_import_record_lookup(f, "data"@);
    reveal_with_fuel(last_value, 3);
    assert(f.drop_last() =~= seq![("encoding"@, ImportView::String("base64"@))]);
    crate::emit_fields::lemma_base64_round_trip(b);
}
// ── The names of frequencies and weekdays ──────────────────────

/// The frequency names differ from one another: each is told apart by its
/// first letter, or by its second where two share the first.
pub proof fn lemma_freq_names_distinct()
    ensures
        "secondly"@.len() == 8 && "secondly"@[0] == 's',
        "minutely"@.len() == 8 && "minutely"@[0] == 'm' && "minutely"@[1] == 'i',
        "hourly"@.len() == 6 && "hourly"@[0] == 'h',
        "daily"@.len() == 5 && "daily"@[0] == 'd',
        "weekly"@.len() == 6 && "weekly"@[0] == 'w',
        "monthly"@.len() == 7 && "monthly"@[0] == 'm' && "monthly"@[1] == 'o',
        "yearly"@.len() == 6 && "yearly"@[0] == 'y',
{
    reveal_strlit("secondly");
    reveal_strlit("minutely");
    reveal_strlit("hourly");
    reveal_strlit("daily");
    reveal_strlit("weekly");
    reveal_strlit("monthly");
    reveal_strlit("yearly");
}

/// The weekday names differ from one another: each is told apart by its
/// first letter, or by its second where two share the first.
pub proof fn lemma_weekday_names_distinct()
    ensures
        "monday"@.len() == 6 && "monday"@[0] == 'm',
        "tuesday"@.len() == 7 && "tuesday"@[0] == 't' && "tuesday"@[1] == 'u',
        "wednesday"@.len() == 9 && "wednesday"@[0] == 'w',
        "thursday"@.len() == 8 && "thursday"@[0] == 't' && "thursday"@[1] == 'h',
        "friday"@.len() == 6 && "friday"@[0] == 'f',
        "saturday"@.len() == 8 && "saturday"@[0] == 's' && "saturday"@[1] == 'a',
        "sunday"@.len() == 6 && "sunday"@[0] == 's' && "sunday"@[1] == 'u',
{
    reveal_strlit("monday");
    reveal_strlit("tuesday");
    reveal_strlit("wednesday");
    reveal_strlit("thursday");
    reveal_strlit("friday");
    reveal_strlit("saturday");
    reveal_strlit("sunday");
}

/// The status names of events differ from one another and from the other
/// status names.
pub proof fn lemma_status_names_distinct()
    ensures
        "tentative"@.len() == 9 && "tentative"@[0] == 't',
        "confirmed"@.len() == 9 && "confirmed"@[0] == 'c' && "confirmed"@[1] == 'o',
        "cancelled"@.len() == 9 && "cancelled"@[0] == 'c' && "cancelled"@[1] == 'a',
        "needs-action"@.len() == 12 && "needs-action"@[0] == 'n',
        "completed"@.len() == 9 && "completed"@[0] == 'c' && "completed"@[1] == 'o' && "completed"@[2] == 'm',
        "confirmed"@[2] == 'n',
        "in-process"@.len() == 10 && "in-process"@[0] == 'i',
        "draft"@.len() == 5 && "draft"@[0] == 'd',
        "final"@.len() == 5 && "final"@[0] == 'f',
{
    reveal_strlit("tentative");
    reveal_strlit("confirmed");
    reveal_strlit("cancelled");
    reveal_strlit("needs-action");
    reveal_strlit("completed");
    reveal_strlit("in-process");
    reveal_strlit("draft");
    reveal_strlit("final");
}

} // verus!
