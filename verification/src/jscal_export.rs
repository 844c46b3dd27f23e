//! Building the JSCalendar form of a calendar record and its entries: a
//! group of events and tasks, which fields become which properties, which
//! values are valid, and which fields are carried as vendor properties
//! (with a warning where they are not marked as such).
use vstd::prelude::*;

use crate::emit_fields::{distinct_strings, get_bool, get_string_set, get_u64};
use crate::export_values::{
    i64_field_or_zero, list_field, ordinal_of, priority_of, record_field, valid_date, valid_time,
    weekday_of, RRuleView, opt_flags, opt_seq, opt_two_flags,
};
use crate::ical_export::{opt_text, opt_texts, text_field, texts, text_of};
use crate::ical_entries::{dt_entry, duration_entry, str_entry};
use crate::ical_import::{
    IcalFreq, IcalPriority, IcalWeekday, PlainDate, PlainRRule, PlainTermination, PlainDtod,
    PlainTime, PlainWeekdayNum,
};
use crate::import_value::{copy_import_value, ImportRecord, ImportRecordView, ImportValue, ImportView};
use crate::keyed::key_lookup;
use crate::text::{byte_len, from_chars, is_boundary, push_str, spec_starts_with, str_eq, to_chars};

verus! {

broadcast use {crate::types::lemma_value_view_unfold, crate::import_value::lemma_import_view_unfold};

// ── Numbers, dates and durations ───────────────────────────────

/// An unsigned integer value (a signed one does not count).
pub open spec fn int_of(v: ImportView) -> Option<u64> {
    match v {
        ImportView::Integer(n) => Some(n),
        _ => None,
    }
}

/// The unsigned integer of a field.
pub open spec fn int_field(r: ImportRecordView, k: Seq<char>) -> Option<u64> {
    match key_lookup(r, k) {
        Some(v) => int_of(v),
        None => None,
    }
}

/// The unsigned integer of a field, zero without one.
pub open spec fn int_field_or_zero(r: ImportRecordView, k: Seq<char>) -> u64 {
    match int_field(r, k) {
        Some(n) => n,
        None => 0,
    }
}

fn int_or_zero(r: &ImportRecord, k: &str) -> (n: u64)
    ensures
        n == int_field_or_zero(r@, k@),
{
    match get_u64(r, k) {
        Some(n) => n,
        None => 0,
    }
}

/// The date of a `{ year, month, day }` record, each an unsigned integer.
pub open spec fn js_date_in(r: ImportRecordView) -> Option<PlainDate> {
    match (int_field(r, "year"@), int_field(r, "month"@), int_field(r, "day"@)) {
        (Some(y), Some(m), Some(d)) => if valid_date(y, m, d) {
            Some(PlainDate { year: y as u16, month: m as u8, day: d as u8 })
        } else {
            None
        },
        _ => None,
    }
}

/// The time of a `{ hour, minute, second }` record, a missing part zero.
pub open spec fn js_time_in(r: ImportRecordView) -> Option<PlainTime> {
    let (h, mi, s) = (
        int_field_or_zero(r, "hour"@),
        int_field_or_zero(r, "minute"@),
        int_field_or_zero(r, "second"@),
    );
    if valid_time(h, mi, s) {
        Some(PlainTime { hour: h as u8, minute: mi as u8, second: s as u8 })
    } else {
        None
    }
}

/// The date and time of a `{ date, time }` value.
pub open spec fn js_dt_of(v: ImportView) -> Option<(PlainDate, PlainTime)> {
    match v {
        ImportView::Record(rec) => match (record_field(rec, "date"@), record_field(rec, "time"@)) {
            (Some(dr), Some(tr)) => match (js_date_in(dr), js_time_in(tr)) {
                (Some(d), Some(t)) => Some((d, t)),
                _ => None,
            },
            _ => None,
        },
        _ => None,
    }
}

/// A date-time field.
pub open spec fn js_dt_field(r: ImportRecordView, k: Seq<char>) -> Option<(PlainDate, PlainTime)> {
    match key_lookup(r, k) {
        Some(v) => js_dt_of(v),
        None => None,
    }
}

fn js_date(r: &ImportRecord) -> (d: Option<PlainDate>)
    ensures
        d == js_date_in(r@),
{
    let y = match get_u64(r, "year") {
        Some(n) => n,
        None => return None,
    };
    let m = match get_u64(r, "month") {
        Some(n) => n,
        None => return None,
    };
    let d = match get_u64(r, "day") {
        Some(n) => n,
        None => return None,
    };
    if crate::export_values::is_valid_date(y, m, d) {
        Some(PlainDate { year: y as u16, month: m as u8, day: d as u8 })
    } else {
        None
    }
}

fn js_time(r: &ImportRecord) -> (t: Option<PlainTime>)
    ensures
        t == js_time_in(r@),
{
    let h = int_or_zero(r, "hour");
    let mi = int_or_zero(r, "minute");
    let s = int_or_zero(r, "second");
    if h <= 23 && mi <= 59 && s <= 60 {
        Some(PlainTime { hour: h as u8, minute: mi as u8, second: s as u8 })
    } else {
        None
    }
}

fn get_datetime(r: &ImportRecord, k: &str) -> (d: Option<(PlainDate, PlainTime)>)
    ensures
        d == js_dt_field(r@, k@),
{
    proof {
        reveal_strlit("date");
        reveal_strlit("time");
    }
    let rec = match r.get(k) {
        Some(ImportValue::Record(x)) => x,
        _ => return None,
    };
    let (dr, tr) = match (rec.get("date"), rec.get("time")) {
        (Some(ImportValue::Record(a)), Some(ImportValue::Record(b))) => (a, b),
        _ => return None,
    };
    match (js_date(dr), js_time(tr)) {
        (Some(d), Some(t)) => Some((d, t)),
        _ => None,
    }
}

/// A JSCalendar duration: nominal (with weeks or days, and a time part
/// where one is set) or exact.
#[derive(Debug, Clone, Copy, PartialEq, Eq)]
pub enum DurationOut {
    Nominal { weeks: u32, days: u32, time: Option<(u32, u32, u32)> },
    Exact { hours: u32, minutes: u32, seconds: u32 },
}

/// A duration record read back: each part an unsigned integer (zero
/// without one) that fits `u32`; nominal where it has weeks or days.
pub open spec fn js_duration_of(v: ImportView) -> Option<DurationOut> {
    match v {
        ImportView::Record(r) => {
            let (w, d, h, m, s) = (
                int_field_or_zero(r, "weeks"@),
                int_field_or_zero(r, "days"@),
                int_field_or_zero(r, "hours"@),
                int_field_or_zero(r, "minutes"@),
                int_field_or_zero(r, "seconds"@),
            );
            if w > u32::MAX || d > u32::MAX || h > u32::MAX || m > u32::MAX || s > u32::MAX {
                None
            } else if w > 0 || d > 0 {
                Some(
                    DurationOut::Nominal {
                        weeks: w as u32,
                        days: d as u32,
                        time: if h > 0 || m > 0 || s > 0 {
                            Some((h as u32, m as u32, s as u32))
                        } else {
                            None
                        },
                    },
                )
            } else {
                Some(DurationOut::Exact { hours: h as u32, minutes: m as u32, seconds: s as u32 })
            }
        },
        _ => None,
    }
}

pub open spec fn js_duration_field(r: ImportRecordView, k: Seq<char>) -> Option<DurationOut> {
    match key_lookup(r, k) {
        Some(v) => js_duration_of(v),
        None => None,
    }
}

fn get_duration(r: &ImportRecord, k: &str) -> (d: Option<DurationOut>)
    ensures
        d == js_duration_field(r@, k@),
{
    let rec = match r.get(k) {
        Some(ImportValue::Record(x)) => x,
        _ => return None,
    };
    let w = int_or_zero(rec, "weeks");
    let d = int_or_zero(rec, "days");
    let h = int_or_zero(rec, "hours");
    let m = int_or_zero(rec, "minutes");
    let s = int_or_zero(rec, "seconds");
    if w > 0xffff_ffff || d > 0xffff_ffff || h > 0xffff_ffff || m > 0xffff_ffff || s > 0xffff_ffff {
        None
    } else if w > 0 || d > 0 {
        Some(
            DurationOut::Nominal {
                weeks: w as u32,
                days: d as u32,
                time: if h > 0 || m > 0 || s > 0 {
                    Some((h as u32, m as u32, s as u32))
                } else {
                    None
                },
            },
        )
    } else {
        Some(DurationOut::Exact { hours: h as u32, minutes: m as u32, seconds: s as u32 })
    }
}

/// The priority of a record: an unsigned integer 0 to 9.
pub open spec fn js_priority_field(r: ImportRecordView) -> Option<IcalPriority> {
    match int_field(r, "priority"@) {
        Some(n) => if n <= 9 {
            Some(priority_of(ImportView::Integer(n)))
        } else {
            None
        },
        None => None,
    }
}

fn get_priority(r: &ImportRecord) -> (p: Option<IcalPriority>)
    ensures
        p == js_priority_field(r@),
{
    match r.get("priority") {
        Some(ImportValue::Integer(n)) => if *n <= 9 {
            Some(crate::export_values::import_value_to_priority(&ImportValue::Integer(*n)))
        } else {
            None
        },
        _ => None,
    }
}

/// The largest integer JSON represents exactly, `2^53 - 1`.
pub const MAX_SAFE_INTEGER: u64 = 0x1f_ffff_ffff_ffff;

/// An unsigned integer field that JSON represents exactly.
pub open spec fn safe_int_field(r: ImportRecordView, k: Seq<char>) -> Option<u64> {
    match int_field(r, k) {
        Some(n) => if n <= MAX_SAFE_INTEGER {
            Some(n)
        } else {
            None
        },
        None => None,
    }
}

/// A percentage field: an unsigned integer of at most 100.
pub open spec fn js_percent_field(r: ImportRecordView) -> Option<u8> {
    match int_field(r, "percent_complete"@) {
        Some(n) => if n <= 100 {
            Some(n as u8)
        } else {
            None
        },
        None => None,
    }
}

// ── Identifiers and addresses ──────────────────────────────────

/// A character of an identifier: an ASCII letter or digit, `-` or `_`.
pub open spec fn id_char(c: char) -> bool {
    ('a' <= c && c <= 'z') || ('A' <= c && c <= 'Z') || ('0' <= c && c <= '9') || c == '-'
        || c == '_'
}

/// An identifier as jscalendar's `Id::new` accepts one: 1 to 255 such
/// characters.
pub open spec fn id_ok(s: Seq<char>) -> bool {
    1 <= s.len() <= 255 && forall|i: int| 0 <= i < s.len() ==> id_char(#[trigger] s[i])
}

fn is_id(s: &str) -> (b: bool)
    ensures
        b == id_ok(s@),
{
    let cs = to_chars(s);
    if cs.len() == 0 || cs.len() > 255 {
        return false;
    }
    for i in 0..cs.len()
        invariant
            cs@ == s@,
            forall|j: int| 0 <= j < i ==> id_char(#[trigger] cs@[j]),
    {
        let c = cs[i];
        if !(('a' <= c && c <= 'z') || ('A' <= c && c <= 'Z') || ('0' <= c && c <= '9') || c == '-'
            || c == '_') {
            assert(!id_char(cs@[i as int]));
            return false;
        }
    }
    true
}

/// The number of times `c` occurs in `s`.
pub open spec fn count_char(s: Seq<char>, c: char) -> nat
    decreases s.len(),
{
    if s.len() == 0 {
        0
    } else {
        count_char(s.drop_last(), c) + if s.last() == c {
            1nat
        } else {
            0nat
        }
    }
}

/// An email address as jscalendar's `EmailAddr::new` accepts one: exactly
/// one `@`, with text before and after it.
pub open spec fn email_ok(s: Seq<char>) -> bool {
    count_char(s, '@') == 1 && s.len() > 0 && s[0] != '@' && s[s.len() - 1] != '@'
}

fn is_email(s: &str) -> (b: bool)
    ensures
        b == email_ok(s@),
{
    let cs = to_chars(s);
    let mut n: usize = 0;
    for i in 0..cs.len()
        invariant
            cs@ == s@,
            n == count_char(cs@.take(i as int), '@'),
            n <= i,
    {
        assert(cs@.take(i + 1).drop_last() =~= cs@.take(i as int));
        if cs[i] == '@' {
            n = n + 1;
        }
    }
    assert(cs@.take(cs@.len() as int) =~= cs@);
    n == 1 && cs.len() > 0 && cs[0] != '@' && cs[cs.len() - 1] != '@'
}

/// A calendar address as jscalendar's `CalAddress::new` accepts one: text
/// beginning with `mailto:`.
pub open spec fn cal_address_ok(s: Seq<char>) -> bool {
    spec_starts_with(s, "mailto:"@)
}

/// A unique identifier as `Uid::new` of calendar-types accepts one: any
/// text that is not empty.
pub open spec fn uid_ok(s: Seq<char>) -> bool {
    s.len() > 0
}

// ── Checks made by the outside crates ──────────────────────────

/// Whether jscalendar's `GeoUri::new` accepts the text: `geo:` followed by
/// a latitude and a longitude that read as floating-point numbers.
pub uninterp spec fn geo_uri_ok(s: Seq<char>) -> bool;

/// Calls `jscalendar::model::string::GeoUri::new`; the contract names the
/// texts it accepts and claims nothing else of them.
#[verifier::external_body]
fn is_geo_uri(s: &str) -> (b: bool)
    ensures
        b == geo_uri_ok(s@),
{
    jscalendar::model::string::GeoUri::new(s).is_ok()
}

/// Whether `LanguageTag::parse` of calendar-types accepts the text as a
/// BCP 47 language tag.
pub uninterp spec fn language_tag_ok(s: Seq<char>) -> bool;

/// Calls `calendar_types::string::LanguageTag::parse`; the contract names
/// the texts it accepts and claims nothing else of them.
#[verifier::external_body]
fn is_language_tag(s: &str) -> (b: bool)
    ensures
        b == language_tag_ok(s@),
{
    calendar_types::string::LanguageTag::parse(s).is_ok()
}

/// A color text on which jscalendar's color reading cuts a six-byte hex
/// part between the bytes of a character (its slicing panics there).
pub open spec fn color_cut(s: Seq<char>) -> bool {
    &&& s.len() > 0 && s[0] == '#'
    &&& byte_len(s.drop_first()) == 6
    &&& !(is_boundary(s.drop_first(), 2) && is_boundary(s.drop_first(), 4))
}

/// Whether jscalendar reads the text as a color: a CSS3 color name in any
/// case, or `#` and three two-digit hex bytes.
pub uninterp spec fn js_color_ok(s: Seq<char>) -> bool;

/// Calls `jscalendar::model::set::Color::try_from_json` on a JSON string;
/// the contract names the texts it accepts and claims nothing else of them.
#[verifier::external_body]
fn is_js_color(s: &str) -> (b: bool)
    requires
        !color_cut(s@),
    ensures
        b == js_color_ok(s@),
{
    <jscalendar::model::set::Color as jscalendar::json::TryFromJson<serde_json::Value>>::try_from_json(
        serde_json::Value::String(s.to_string()),
    ).is_ok()
}

/// A color field jscalendar reads as a color.
pub open spec fn js_color_field(r: ImportRecordView) -> Option<Seq<char>> {
    match text_field(r, "color"@) {
        Some(s) => if js_color_ok(s) {
            Some(s)
        } else {
            None
        },
        None => None,
    }
}

/// A record whose color field jscalendar can read without panicking.
pub open spec fn color_readable(r: ImportRecordView) -> bool {
    match text_field(r, "color"@) {
        Some(s) => !color_cut(s),
        None => true,
    }
}

fn js_color(r: &ImportRecord) -> (c: Option<String>)
    requires
        color_readable(r@),
    ensures
        opt_text(c) == js_color_field(r@),
{
    match r.get("color") {
        Some(ImportValue::String(s)) => if is_js_color(s.as_str()) {
            Some(s.clone())
        } else {
            None
        },
        _ => None,
    }
}

/// A locale field that reads as a language tag.
pub open spec fn locale_field(r: ImportRecordView) -> Option<Seq<char>> {
    match text_field(r, "locale"@) {
        Some(s) => if language_tag_ok(s) {
            Some(s)
        } else {
            None
        },
        None => None,
    }
}

fn js_locale(r: &ImportRecord) -> (c: Option<String>)
    ensures
        opt_text(c) == locale_field(r@),
{
    match r.get("locale") {
        Some(ImportValue::String(s)) => if is_language_tag(s.as_str()) {
            Some(s.clone())
        } else {
            None
        },
        _ => None,
    }
}

fn text_in(r: &ImportRecord, k: &str) -> (t: Option<String>)
    ensures
        opt_text(t) == text_field(r@, k@),
{
    match r.get(k) {
        Some(ImportValue::String(s)) => Some(s.clone()),
        _ => None,
    }
}

// ── Recurrence rules ───────────────────────────────────────────

/// Flags for the numbers `lo..=hi` that the items name as unsigned
/// integers (others are skipped).
pub open spec fn int_flags(items: Seq<ImportView>, lo: int, hi: int) -> Seq<bool>
    decreases items.len(),
{
    if items.len() == 0 {
        Seq::new((hi - lo + 1) as nat, |i: int| false)
    } else {
        let f = int_flags(items.drop_last(), lo, hi);
        match int_of(items.last()) {
            Some(x) => if lo <= x <= hi {
                f.update(x - lo, true)
            } else {
                f
            },
            None => f,
        }
    }
}

pub open spec fn int_flag_rule(r: ImportRecordView, k: Seq<char>, lo: int, hi: int) -> Option<Seq<bool>> {
    match list_field(r, k) {
        Some(items) => if crate::export_values::any_flag(int_flags(items, lo, hi)) {
            Some(int_flags(items, lo, hi))
        } else {
            None
        },
        None => None,
    }
}

fn int_flag_rule_of<const N: usize>(r: &ImportRecord, k: &str, lo: u64) -> (f: Option<[bool; N]>)
    requires
        N <= 64,
        lo <= 1,
    ensures
        opt_flags(f) == int_flag_rule(r@, k@, lo as int, lo + N - 1),
{
    let items = match crate::export_values::list_items(r, k) {
        Some(items) => items,
        None => return None,
    };
    let ghost iv = ImportValue::List(*items)@->List_0;
    proof {
        crate::import_value::lemma_import_list_view(*items);
    }
    let mut flags = [false; N];
    assert(flags@ =~= int_flags(iv.take(0), lo as int, lo + N - 1));
    for i in 0..items.len()
        invariant
            N <= 64,
            lo <= 1,
            iv.len() == items@.len(),
            forall|j: int| 0 <= j < items@.len() ==> #[trigger] iv[j] == items@[j]@,
            iv == ImportValue::List(*items)@->List_0,
            flags@ == int_flags(iv.take(i as int), lo as int, lo + N - 1),
    {
        assert(iv.take(i + 1).drop_last() =~= iv.take(i as int));
        assert(iv.take(i + 1).last() == items@[i as int]@);
        if let ImportValue::Integer(x) = &items[i] {
            let x = *x;
            if lo <= x && x - lo < N as u64 {
                flags.set((x - lo) as usize, true);
            }
        }
    }
    assert(iv.take(items@.len() as int) =~= iv);
    if crate::export_values::has_flag(&flags) {
        Some(flags)
    } else {
        None
    }
}

/// A weekday by its lowercase name or its two-letter code (`MO` to `SU`).
pub open spec fn js_weekday_of(s: Seq<char>) -> Option<IcalWeekday> {
    if s == "MO"@ {
        Some(IcalWeekday::Monday)
    } else if s == "TU"@ {
        Some(IcalWeekday::Tuesday)
    } else if s == "WE"@ {
        Some(IcalWeekday::Wednesday)
    } else if s == "TH"@ {
        Some(IcalWeekday::Thursday)
    } else if s == "FR"@ {
        Some(IcalWeekday::Friday)
    } else if s == "SA"@ {
        Some(IcalWeekday::Saturday)
    } else if s == "SU"@ {
        Some(IcalWeekday::Sunday)
    } else {
        weekday_of(s)
    }
}

fn js_weekday(s: &str) -> (w: Option<IcalWeekday>)
    ensures
        w == js_weekday_of(s@),
{
    if str_eq(s, "MO") {
        Some(IcalWeekday::Monday)
    } else if str_eq(s, "TU") {
        Some(IcalWeekday::Tuesday)
    } else if str_eq(s, "WE") {
        Some(IcalWeekday::Wednesday)
    } else if str_eq(s, "TH") {
        Some(IcalWeekday::Thursday)
    } else if str_eq(s, "FR") {
        Some(IcalWeekday::Friday)
    } else if str_eq(s, "SA") {
        Some(IcalWeekday::Saturday)
    } else if str_eq(s, "SU") {
        Some(IcalWeekday::Sunday)
    } else {
        crate::export_values::str_to_weekday(s)
    }
}

/// The weekday of a `by_day` item: a weekday, or a record with a `day`
/// and an optional `ordinal`.
pub open spec fn js_weekday_num_of(v: ImportView) -> Option<PlainWeekdayNum> {
    match v {
        ImportView::String(s) => match js_weekday_of(s) {
            Some(w) => Some(PlainWeekdayNum { weekday: w, ordinal: None }),
            None => None,
        },
        ImportView::Record(r) => match text_field(r, "day"@) {
            Some(s) => match js_weekday_of(s) {
                Some(w) => Some(PlainWeekdayNum { weekday: w, ordinal: ordinal_of(i64_field_or_zero(r, "ordinal"@)) }),
                None => None,
            },
            None => None,
        },
        _ => None,
    }
}

pub open spec fn js_weekday_nums(items: Seq<ImportView>) -> Seq<PlainWeekdayNum>
    decreases items.len(),
{
    if items.len() == 0 {
        seq![]
    } else {
        let p = js_weekday_nums(items.drop_last());
        match js_weekday_num_of(items.last()) {
            Some(w) => p.push(w),
            None => p,
        }
    }
}

fn js_weekday_num(v: &ImportValue) -> (r: Option<PlainWeekdayNum>)
    ensures
        r == js_weekday_num_of(v@),
{
    match v {
        ImportValue::String(s) => match js_weekday(s.as_str()) {
            Some(w) => Some(PlainWeekdayNum { weekday: w, ordinal: None }),
            None => None,
        },
        ImportValue::Record(r) => match r.get("day") {
            Some(ImportValue::String(s)) => match js_weekday(s.as_str()) {
                Some(w) => {
                    let n = match crate::emit_fields::get_i64(r, "ordinal") {
                        Some(n) => n,
                        None => 0,
                    };
                    let ordinal = if n == 0 {
                        None
                    } else if 1 <= n && n <= 53 {
                        Some((true, n as u8))
                    } else if -53 <= n && n <= -1 {
                        Some((false, (-n) as u8))
                    } else {
                        None
                    };
                    Some(PlainWeekdayNum { weekday: w, ordinal })
                },
                None => None,
            },
            _ => None,
        },
        _ => None,
    }
}

fn js_weekday_nums_of(items: &Vec<ImportValue>) -> (r: Vec<PlainWeekdayNum>)
    ensures
        r@ == js_weekday_nums(ImportValue::List(*items)@->List_0),
{
    let ghost iv = ImportValue::List(*items)@->List_0;
    proof {
        crate::import_value::lemma_import_list_view(*items);
    }
    let mut out: Vec<PlainWeekdayNum> = Vec::new();
    assert(out@ =~= js_weekday_nums(iv.take(0)));
    for i in 0..items.len()
        invariant
            iv.len() == items@.len(),
            forall|j: int| 0 <= j < items@.len() ==> #[trigger] iv[j] == items@[j]@,
            iv == ImportValue::List(*items)@->List_0,
            out@ == js_weekday_nums(iv.take(i as int)),
    {
        assert(iv.take(i + 1).drop_last() =~= iv.take(i as int));
        assert(iv.take(i + 1).last() == items@[i as int]@);
        if let Some(w) = js_weekday_num(&items[i]) {
            out.push(w);
        }
    }
    assert(iv.take(items@.len() as int) =~= iv);
    out
}

/// How a rule ends: by `count` where it is an unsigned integer, else by
/// `until` where that reads as a local date-time.
pub open spec fn js_termination_of(r: ImportRecordView) -> Option<PlainTermination> {
    match int_field(r, "count"@) {
        Some(n) => Some(PlainTermination::Count(n)),
        None => match js_dt_field(r, "until"@) {
            Some((d, t)) => Some(PlainTermination::Until(PlainDtod::DateTime(d, t))),
            None => None,
        },
    }
}

/// A recurrence record read as a JSCalendar rule; `None` without a known
/// `frequency` (a string).
pub open spec fn js_rrule_of(r: ImportRecordView) -> Option<RRuleView> {
    match text_field(r, "frequency"@) {
        Some(fs) => match crate::export_values::freq_of(fs) {
            Some(freq) => Some(
                RRuleView {
                    freq,
                    interval: match int_field(r, "interval"@) {
                        Some(n) => if n != 0 {
                            Some(n)
                        } else {
                            None
                        },
                        None => None,
                    },
                    termination: js_termination_of(r),
                    week_start: match text_field(r, "week_start"@) {
                        Some(w) => js_weekday_of(w),
                        None => None,
                    },
                    by_second: int_flag_rule(r, "by_second"@, 0, 60),
                    by_minute: int_flag_rule(r, "by_minute"@, 0, 59),
                    by_hour: int_flag_rule(r, "by_hour"@, 0, 23),
                    by_month: int_flag_rule(r, "by_month"@, 1, 12),
                    by_day: match list_field(r, "by_day"@) {
                        Some(items) => if js_weekday_nums(items).len() > 0 {
                            Some(js_weekday_nums(items))
                        } else {
                            None
                        },
                        None => None,
                    },
                    by_set_pos: crate::export_values::day_rule(r, "by_set_pos"@),
                    by_month_day: if freq == IcalFreq::Weekly {
                        None
                    } else {
                        crate::export_values::signed_flag_rule(r, "by_month_day"@, 31)
                    },
                    by_year_day: if freq == IcalFreq::Secondly || freq == IcalFreq::Minutely || freq
                        == IcalFreq::Hourly || freq == IcalFreq::Yearly {
                        crate::export_values::day_rule(r, "by_year_day"@)
                    } else {
                        None
                    },
                    by_week_no: if freq == IcalFreq::Yearly {
                        crate::export_values::signed_flag_rule(r, "by_week_no"@, 53)
                    } else {
                        None
                    },
                },
            ),
            None => None,
        },
        None => None,
    }
}

/// Reads a recurrence record as a JSCalendar rule.
pub fn js_record_to_rrule(rec: &ImportRecord) -> (r: Option<PlainRRule>)
    ensures
        match js_rrule_of(rec@) {
            Some(v) => r matches Some(p) && crate::export_values::rrule_view(p) == v,
            None => r is None,
        },
{
    let freq = match rec.get("frequency") {
        Some(ImportValue::String(s)) => match crate::export_values::freq_named(s.as_str()) {
            Some(f) => f,
            None => return None,
        },
        _ => return None,
    };
    let interval = match get_u64(rec, "interval") {
        Some(n) => if n != 0 {
            Some(n)
        } else {
            None
        },
        None => None,
    };
    let termination = match get_u64(rec, "count") {
        Some(n) => Some(PlainTermination::Count(n)),
        None => match get_datetime(rec, "until") {
            Some((d, t)) => Some(PlainTermination::Until(PlainDtod::DateTime(d, t))),
            None => None,
        },
    };
    let week_start = match rec.get("week_start") {
        Some(ImportValue::String(w)) => js_weekday(w.as_str()),
        _ => None,
    };
    let by_day = match crate::export_values::list_items(rec, "by_day") {
        Some(items) => {
            let w = js_weekday_nums_of(items);
            if w.len() > 0 {
                Some(w)
            } else {
                None
            }
        },
        None => None,
    };
    let by_month_day = if matches!(freq, IcalFreq::Weekly) {
        None
    } else {
        crate::export_values::signed_flag_rule_of::<31>(rec, "by_month_day")
    };
    let by_year_day = if matches!(
        freq,
        IcalFreq::Secondly | IcalFreq::Minutely | IcalFreq::Hourly | IcalFreq::Yearly
    ) {
        crate::export_values::day_rule_of(rec, "by_year_day")
    } else {
        None
    };
    let by_week_no = if matches!(freq, IcalFreq::Yearly) {
        crate::export_values::signed_flag_rule_of::<53>(rec, "by_week_no")
    } else {
        None
    };
    Some(
        PlainRRule {
            freq,
            interval,
            termination,
            week_start,
            by_second: int_flag_rule_of::<61>(rec, "by_second", 0),
            by_minute: int_flag_rule_of::<60>(rec, "by_minute", 0),
            by_hour: int_flag_rule_of::<24>(rec, "by_hour", 0),
            by_month: int_flag_rule_of::<12>(rec, "by_month", 1),
            by_day,
            by_set_pos: crate::export_values::day_rule_of(rec, "by_set_pos"),
            by_month_day,
            by_year_day,
            by_week_no,
        },
    )
}

/// The rules of a list of records, in order (other items skipped).
pub open spec fn item_rules(items: Seq<ImportView>) -> Seq<RRuleView>
    decreases items.len(),
{
    if items.len() == 0 {
        seq![]
    } else {
        let p = item_rules(items.drop_last());
        match items.last() {
            ImportView::Record(r) => match js_rrule_of(r) {
                Some(x) => p.push(x),
                None => p,
            },
            _ => p,
        }
    }
}

pub open spec fn rule_views(v: Seq<PlainRRule>) -> Seq<RRuleView> {
    v.map_values(|p: PlainRRule| crate::export_values::rrule_view(p))
}

pub open spec fn opt_rules(o: Option<Vec<PlainRRule>>) -> Option<Seq<RRuleView>> {
    match o {
        Some(v) => Some(rule_views(v@)),
        None => None,
    }
}

fn rules_of_list(items: &Vec<ImportValue>) -> (out: Vec<PlainRRule>)
    ensures
        rule_views(out@) == item_rules(ImportValue::List(*items)@->List_0),
{
    let ghost iv = ImportValue::List(*items)@->List_0;
    proof {
        crate::import_value::lemma_import_list_view(*items);
    }
    let mut out: Vec<PlainRRule> = Vec::new();
    assert(rule_views(out@) =~= item_rules(iv.take(0)));
    for i in 0..items.len()
        invariant
            iv.len() == items@.len(),
            forall|j: int| 0 <= j < items@.len() ==> #[trigger] iv[j] == items@[j]@,
            iv == ImportValue::List(*items)@->List_0,
            rule_views(out@) == item_rules(iv.take(i as int)),
    {
        assert(iv.take(i + 1).drop_last() =~= iv.take(i as int));
        assert(iv.take(i + 1).last() == items@[i as int]@);
        let ghost before = out@;
        if let ImportValue::Record(r) = &items[i] {
            if let Some(p) = js_record_to_rrule(r) {
                out.push(p);
                assert(rule_views(out@) =~= rule_views(before).push(crate::export_values::rrule_view(p)));
            }
        }
    }
    assert(iv.take(items@.len() as int) =~= iv);
    out
}

/// The recurrence rules of a record: those of its `recurrence_rules` list
/// where at least one reads, else the rule of its `recur` record.
pub open spec fn recurrence_rules_field(r: ImportRecordView) -> Option<Seq<RRuleView>> {
    let listed = match list_field(r, "recurrence_rules"@) {
        Some(items) => item_rules(items),
        None => seq![],
    };
    if listed.len() > 0 {
        Some(listed)
    } else {
        match key_lookup(r, "recur"@) {
            Some(ImportView::Record(rr)) => match js_rrule_of(rr) {
                Some(x) => Some(seq![x]),
                None => None,
            },
            _ => None,
        }
    }
}

/// The excluded rules of a record, where at least one reads.
pub open spec fn excluded_rules_field(r: ImportRecordView) -> Option<Seq<RRuleView>> {
    match list_field(r, "excluded_recurrence_rules"@) {
        Some(items) => if item_rules(items).len() > 0 {
            Some(item_rules(items))
        } else {
            None
        },
        None => None,
    }
}

fn get_recurrence_rules(r: &ImportRecord) -> (o: Option<Vec<PlainRRule>>)
    ensures
        opt_rules(o) == recurrence_rules_field(r@),
{
    if let Some(items) = crate::export_values::list_items(r, "recurrence_rules") {
        let rules = rules_of_list(items);
        if rules.len() > 0 {
            return Some(rules);
        }
    }
    match r.get("recur") {
        Some(ImportValue::Record(rr)) => match js_record_to_rrule(rr) {
            Some(p) => {
                let v = vec![p];
                assert(rule_views(v@) =~= seq![crate::export_values::rrule_view(p)]);
                Some(v)
            },
            None => None,
        },
        _ => None,
    }
}

fn get_excluded_recurrence_rules(r: &ImportRecord) -> (o: Option<Vec<PlainRRule>>)
    ensures
        opt_rules(o) == excluded_rules_field(r@),
{
    match crate::export_values::list_items(r, "excluded_recurrence_rules") {
        Some(items) => {
            let rules = rules_of_list(items);
            if rules.len() > 0 {
                Some(rules)
            } else {
                None
            }
        },
        None => None,
    }
}

// ── Locations ──────────────────────────────────────────────────

/// A location as it is written.
#[derive(Debug, Clone, PartialEq, Eq)]
pub struct JsLocationOut {
    pub name: Option<String>,
    pub description: Option<String>,
    pub time_zone: Option<String>,
    /// A `geo:` URI.
    pub coordinates: Option<String>,
}

/// The mathematical form of a location.
pub struct LocView {
    pub name: Option<Seq<char>>,
    pub description: Option<Seq<char>>,
    pub time_zone: Option<Seq<char>>,
    pub coordinates: Option<Seq<char>>,
}

pub open spec fn loc_view(l: JsLocationOut) -> LocView {
    LocView {
        name: opt_text(l.name),
        description: opt_text(l.description),
        time_zone: opt_text(l.time_zone),
        coordinates: opt_text(l.coordinates),
    }
}

/// A text that reads as a `geo:` URI.
pub open spec fn geo_text(o: Option<Seq<char>>) -> Option<Seq<char>> {
    match o {
        Some(c) => if geo_uri_ok(c) {
            Some(c)
        } else {
            None
        },
        None => None,
    }
}

/// A location record of a `locations` map.
pub open spec fn loc_of(lr: ImportRecordView) -> LocView {
    LocView {
        name: text_field(lr, "name"@),
        description: text_field(lr, "description"@),
        time_zone: text_field(lr, "time_zone"@),
        coordinates: geo_text(text_field(lr, "coordinates"@)),
    }
}

/// The locations of a `locations` map: each record under a valid
/// identifier, in order.
pub open spec fn listed_locations(fields: ImportRecordView) -> Seq<(Seq<char>, LocView)>
    decreases fields.len(),
{
    if fields.len() == 0 {
        seq![]
    } else {
        let p = listed_locations(fields.drop_last());
        let (id, v) = fields.last();
        match v {
            ImportView::Record(lr) => if id_ok(id) {
                p.push((id, loc_of(lr)))
            } else {
                p
            },
            _ => p,
        }
    }
}

/// A text field, or a default where there is none.
pub open spec fn text_or(r: ImportRecordView, k: Seq<char>, d: Seq<char>) -> Seq<char> {
    match text_field(r, k) {
        Some(s) => s,
        None => d,
    }
}

/// The `geo:` URI of a `geo` record's latitude and longitude (`0` where
/// one is missing), where it reads as one.
pub open spec fn geo_coordinates(r: ImportRecordView) -> Option<Seq<char>> {
    match key_lookup(r, "geo"@) {
        Some(ImportView::Record(g)) => geo_text(
            Some("geo:"@ + text_or(g, "latitude"@, "0"@) + ","@ + text_or(g, "longitude"@, "0"@)),
        ),
        _ => None,
    }
}

/// The locations of a record: its `locations` map where one location
/// reads, else one location `1` from its `location` name and `geo`.
pub open spec fn locations_field(r: ImportRecordView) -> Option<Seq<(Seq<char>, LocView)>> {
    let listed = match key_lookup(r, "locations"@) {
        Some(ImportView::Record(locs)) => listed_locations(locs),
        _ => seq![],
    };
    if listed.len() > 0 {
        Some(listed)
    } else if key_lookup(r, "location"@) is None && key_lookup(r, "geo"@) is None {
        None
    } else {
        Some(
            seq![("1"@, LocView { name: text_field(r, "location"@), description: None, time_zone: None, coordinates: geo_coordinates(r) })],
        )
    }
}

pub open spec fn loc_views(v: Seq<(String, JsLocationOut)>) -> Seq<(Seq<char>, LocView)> {
    v.map_values(|p: (String, JsLocationOut)| (p.0@, loc_view(p.1)))
}

pub open spec fn opt_locs(o: Option<Vec<(String, JsLocationOut)>>) -> Option<Seq<(Seq<char>, LocView)>> {
    match o {
        Some(v) => Some(loc_views(v@)),
        None => None,
    }
}

fn geo_of(o: Option<String>) -> (g: Option<String>)
    ensures
        opt_text(g) == geo_text(opt_text(o)),
{
    match o {
        Some(c) => if is_geo_uri(c.as_str()) {
            Some(c)
        } else {
            None
        },
        None => None,
    }
}

fn listed_locations_of(locs: &ImportRecord) -> (out: Vec<(String, JsLocationOut)>)
    ensures
        loc_views(out@) == listed_locations(locs@),
{
    let ghost rv = locs@;
    proof {
        crate::import_value::lemma_import_record_view(*locs);
    }
    let mut out: Vec<(String, JsLocationOut)> = Vec::new();
    assert(loc_views(out@) =~= listed_locations(rv.take(0)));
    for i in 0..locs.0.len()
        invariant
            rv == locs@,
            rv.len() == locs.0@.len(),
            forall|j: int| 0 <= j < locs.0@.len() ==> #[trigger] rv[j] == (locs.0@[j].0@, locs.0@[j].1@),
            loc_views(out@) == listed_locations(rv.take(i as int)),
    {
        assert(rv.take(i + 1).drop_last() =~= rv.take(i as int));
        assert(rv.take(i + 1).last() == rv[i as int]);
        let ghost before = out@;
        if let ImportValue::Record(lr) = &locs.0[i].1 {
            if is_id(locs.0[i].0.as_str()) {
                let loc = JsLocationOut {
                    name: text_in(lr, "name"),
                    description: text_in(lr, "description"),
                    time_zone: text_in(lr, "time_zone"),
                    coordinates: geo_of(text_in(lr, "coordinates")),
                };
                out.push((locs.0[i].0.clone(), loc));
                assert(loc_views(out@) =~= loc_views(before).push((locs.0@[i as int].0@, loc_view(loc))));
            }
        }
    }
    assert(rv.take(locs.0@.len() as int) =~= rv);
    out
}

fn text_or_in(r: &ImportRecord, k: &str, d: &str) -> (t: Vec<char>)
    ensures
        t@ == text_or(r@, k@, d@),
{
    match r.get(k) {
        Some(ImportValue::String(s)) => to_chars(s.as_str()),
        _ => to_chars(d),
    }
}

fn build_locations(r: &ImportRecord) -> (o: Option<Vec<(String, JsLocationOut)>>)
    ensures
        opt_locs(o) == locations_field(r@),
{
    proof {
        reveal_strlit("1");
    }
    if let Some(ImportValue::Record(locs)) = r.get("locations") {
        let listed = listed_locations_of(locs);
        if listed.len() > 0 {
            return Some(listed);
        }
    }
    if !r.contains_key("location") && !r.contains_key("geo") {
        return None;
    }
    let coordinates = match r.get("geo") {
        Some(ImportValue::Record(g)) => {
            let mut uri: Vec<char> = Vec::new();
            push_str(&mut uri, "geo:");
            let lat = text_or_in(g, "latitude", "0");
            crate::text::push_chars(&mut uri, &lat);
            push_str(&mut uri, ",");
            let lon = text_or_in(g, "longitude", "0");
            crate::text::push_chars(&mut uri, &lon);
            geo_of(Some(from_chars(uri.as_slice())))
        },
        _ => None,
    };
    let loc = JsLocationOut { name: text_in(r, "location"), description: None, time_zone: None, coordinates };
    let v = vec![(String::from_str("1"), loc)];
    assert(loc_views(v@) =~= seq![("1"@, loc_view(loc))]);
    Some(v)
}

/// A virtual location as it is written.
#[derive(Debug, Clone, PartialEq, Eq)]
pub struct JsVirtualLocationOut {
    pub uri: String,
    pub name: Option<String>,
    pub description: Option<String>,
}

pub open spec fn vloc_view(l: JsVirtualLocationOut) -> (Seq<char>, Option<Seq<char>>, Option<Seq<char>>) {
    (l.uri@, opt_text(l.name), opt_text(l.description))
}

/// The virtual locations of a `virtual_locations` map: each record under a
/// valid identifier whose `uri` (by default `https://example.com`) is a URI.
pub open spec fn listed_vlocs(fields: ImportRecordView) -> Seq<(Seq<char>, (Seq<char>, Option<Seq<char>>, Option<Seq<char>>))>
    decreases fields.len(),
{
    if fields.len() == 0 {
        seq![]
    } else {
        let p = listed_vlocs(fields.drop_last());
        let (id, v) = fields.last();
        match v {
            ImportView::Record(vr) => {
                let uri = text_or(vr, "uri"@, "https://example.com"@);
                if id_ok(id) && crate::export_values::uri_ok(uri) {
                    p.push((id, (uri, text_field(vr, "name"@), text_field(vr, "description"@))))
                } else {
                    p
                }
            },
            _ => p,
        }
    }
}

pub open spec fn vlocs_field(r: ImportRecordView) -> Option<Seq<(Seq<char>, (Seq<char>, Option<Seq<char>>, Option<Seq<char>>))>> {
    match key_lookup(r, "virtual_locations"@) {
        Some(ImportView::Record(vl)) => if listed_vlocs(vl).len() > 0 {
            Some(listed_vlocs(vl))
        } else {
            None
        },
        _ => None,
    }
}

pub open spec fn opt_vlocs(o: Option<Vec<(String, JsVirtualLocationOut)>>) -> Option<Seq<(Seq<char>, (Seq<char>, Option<Seq<char>>, Option<Seq<char>>))>> {
    match o {
        Some(v) => Some(v@.map_values(|p: (String, JsVirtualLocationOut)| (p.0@, vloc_view(p.1)))),
        None => None,
    }
}

fn build_virtual_locations(r: &ImportRecord) -> (o: Option<Vec<(String, JsVirtualLocationOut)>>)
    ensures
        opt_vlocs(o) == vlocs_field(r@),
{
    let vl = match r.get("virtual_locations") {
        Some(ImportValue::Record(vl)) => vl,
        _ => return None,
    };
    let ghost rv = vl@;
    proof {
        crate::import_value::lemma_import_record_view(*vl);
    }
    let mut out: Vec<(String, JsVirtualLocationOut)> = Vec::new();
    assert(out@.map_values(|p: (String, JsVirtualLocationOut)| (p.0@, vloc_view(p.1))) =~= listed_vlocs(rv.take(0)));
    for i in 0..vl.0.len()
        invariant
            rv == vl@,
            rv.len() == vl.0@.len(),
            forall|j: int| 0 <= j < vl.0@.len() ==> #[trigger] rv[j] == (vl.0@[j].0@, vl.0@[j].1@),
            out@.map_values(|p: (String, JsVirtualLocationOut)| (p.0@, vloc_view(p.1))) == listed_vlocs(rv.take(i as int)),
    {
        assert(rv.take(i + 1).drop_last() =~= rv.take(i as int));
        assert(rv.take(i + 1).last() == rv[i as int]);
        let ghost before = out@;
        if let ImportValue::Record(vr) = &vl.0[i].1 {
            let uri = text_or_in(vr, "uri", "https://example.com");
            let us = from_chars(uri.as_slice());
            if is_id(vl.0[i].0.as_str()) && crate::export_values::is_uri(us.as_str()) {
                let x = JsVirtualLocationOut { uri: us, name: text_in(vr, "name"), description: text_in(vr, "description") };
                out.push((vl.0[i].0.clone(), x));
                assert(out@.map_values(|p: (String, JsVirtualLocationOut)| (p.0@, vloc_view(p.1))) =~= before.map_values(
                    |p: (String, JsVirtualLocationOut)| (p.0@, vloc_view(p.1)),
                ).push((vl.0@[i as int].0@, vloc_view(x))));
            }
        }
    }
    assert(rv.take(vl.0@.len() as int) =~= rv);
    if out.len() > 0 {
        Some(out)
    } else {
        None
    }
}

// ── Numbering ──────────────────────────────────────────────────

/// Items keyed by their position, counted from 1, in decimal.
pub open spec fn numbered<T>(v: Seq<T>) -> Seq<(Seq<char>, T)> {
    Seq::new(v.len(), |i: int| (crate::text::spec_nat_to_dec((i + 1) as nat), v[i]))
}

fn number_all<T>(v: Vec<T>) -> (out: Vec<(String, T)>)
    ensures
        out@.len() == v@.len(),
        forall|i: int| 0 <= i < v@.len() ==> #[trigger] out@[i].0@ == crate::text::spec_nat_to_dec((i + 1) as nat) && out@[i].1 == v@[i],
{
    let ghost orig = v@;
    let _total = v.len();
    let mut out: Vec<(String, T)> = Vec::new();
    let mut rest = v;
    let mut n: u64 = 0;
    while rest.len() > 0
        invariant
            out@.len() == n,
            n + rest@.len() == orig.len(),
            orig.len() <= usize::MAX,
            rest@ == orig.skip(n as int),
            forall|i: int| 0 <= i < n ==> #[trigger] out@[i].0@ == crate::text::spec_nat_to_dec((i + 1) as nat) && out@[i].1 == orig[i],
        decreases rest@.len(),
    {
        let x = rest.remove(0);
        assert(rest@ =~= orig.skip(n + 1));
        let id = crate::text::u64_to_dec(n + 1);
        out.push((from_chars(id.as_slice()), x));
        n = n + 1;
    }
    out
}

// ── Links ──────────────────────────────────────────────────────

/// The links of a `links` map: each record under a valid identifier whose
/// `href` (by default `https://example.com`) is a URI.
pub open spec fn listed_links(fields: ImportRecordView) -> Seq<(Seq<char>, Seq<char>)>
    decreases fields.len(),
{
    if fields.len() == 0 {
        seq![]
    } else {
        let p = listed_links(fields.drop_last());
        let (id, v) = fields.last();
        match v {
            ImportView::Record(lr) => {
                let href = text_or(lr, "href"@, "https://example.com"@);
                if id_ok(id) && crate::export_values::uri_ok(href) {
                    p.push((id, href))
                } else {
                    p
                }
            },
            _ => p,
        }
    }
}

/// The reference of an attachment: its text, or a record's `uri` (else
/// `url`).
pub open spec fn attachment_ref(v: ImportView) -> Option<Seq<char>> {
    match v {
        ImportView::String(s) => Some(s),
        ImportView::Record(rec) => match text_field(rec, "uri"@) {
            Some(x) => Some(x),
            None => text_field(rec, "url"@),
        },
        _ => None,
    }
}

/// The attachment references that are URIs, in order.
pub open spec fn attachment_hrefs(items: Seq<ImportView>) -> Seq<Seq<char>>
    decreases items.len(),
{
    if items.len() == 0 {
        seq![]
    } else {
        let p = attachment_hrefs(items.drop_last());
        match attachment_ref(items.last()) {
            Some(h) => if crate::export_values::uri_ok(h) {
                p.push(h)
            } else {
                p
            },
            None => p,
        }
    }
}

/// The links a record's `url` and `attachments` give, in order.
pub open spec fn url_hrefs(r: ImportRecordView) -> Seq<Seq<char>> {
    let u = match text_field(r, "url"@) {
        Some(s) => if crate::export_values::uri_ok(s) {
            seq![s]
        } else {
            seq![]
        },
        None => seq![],
    };
    u + match list_field(r, "attachments"@) {
        Some(items) => attachment_hrefs(items),
        None => seq![],
    }
}

/// The links of a record: its `links` map where one link reads, else its
/// `url` and attachments numbered from 1.
pub open spec fn links_field(r: ImportRecordView) -> Option<Seq<(Seq<char>, Seq<char>)>> {
    let listed = match key_lookup(r, "links"@) {
        Some(ImportView::Record(lm)) => listed_links(lm),
        _ => seq![],
    };
    if listed.len() > 0 {
        Some(listed)
    } else if url_hrefs(r).len() > 0 {
        Some(numbered(url_hrefs(r)))
    } else {
        None
    }
}

pub open spec fn pair_texts(v: Seq<(String, String)>) -> Seq<(Seq<char>, Seq<char>)> {
    v.map_values(|p: (String, String)| (p.0@, p.1@))
}

pub open spec fn opt_pair_texts(o: Option<Vec<(String, String)>>) -> Option<Seq<(Seq<char>, Seq<char>)>> {
    match o {
        Some(v) => Some(pair_texts(v@)),
        None => None,
    }
}

fn listed_links_of(lm: &ImportRecord) -> (out: Vec<(String, String)>)
    ensures
        pair_texts(out@) == listed_links(lm@),
{
    let ghost rv = lm@;
    proof {
        crate::import_value::lemma_import_record_view(*lm);
    }
    let mut out: Vec<(String, String)> = Vec::new();
    assert(pair_texts(out@) =~= listed_links(rv.take(0)));
    for i in 0..lm.0.len()
        invariant
            rv == lm@,
            rv.len() == lm.0@.len(),
            forall|j: int| 0 <= j < lm.0@.len() ==> #[trigger] rv[j] == (lm.0@[j].0@, lm.0@[j].1@),
            pair_texts(out@) == listed_links(rv.take(i as int)),
    {
        assert(rv.take(i + 1).drop_last() =~= rv.take(i as int));
        assert(rv.take(i + 1).last() == rv[i as int]);
        let ghost before = out@;
        if let ImportValue::Record(lr) = &lm.0[i].1 {
            let href = from_chars(text_or_in(lr, "href", "https://example.com").as_slice());
            if is_id(lm.0[i].0.as_str()) && crate::export_values::is_uri(href.as_str()) {
                out.push((lm.0[i].0.clone(), href));
                assert(pair_texts(out@) =~= pair_texts(before).push((lm.0@[i as int].0@, href@)));
            }
        }
    }
    assert(rv.take(lm.0@.len() as int) =~= rv);
    out
}

fn attachment_hrefs_of(items: &Vec<ImportValue>) -> (out: Vec<String>)
    ensures
        texts(out@) == attachment_hrefs(ImportValue::List(*items)@->List_0),
{
    let ghost iv = ImportValue::List(*items)@->List_0;
    proof {
        crate::import_value::lemma_import_list_view(*items);
    }
    let mut out: Vec<String> = Vec::new();
    assert(texts(out@) =~= attachment_hrefs(iv.take(0)));
    for i in 0..items.len()
        invariant
            iv.len() == items@.len(),
            forall|j: int| 0 <= j < items@.len() ==> #[trigger] iv[j] == items@[j]@,
            iv == ImportValue::List(*items)@->List_0,
            texts(out@) == attachment_hrefs(iv.take(i as int)),
    {
        assert(iv.take(i + 1).drop_last() =~= iv.take(i as int));
        assert(iv.take(i + 1).last() == items@[i as int]@);
        let ghost before = out@;
        let h: Option<String> = match &items[i] {
            ImportValue::String(s) => Some(s.clone()),
            ImportValue::Record(rec) => match text_in(rec, "uri") {
                Some(x) => Some(x),
                None => text_in(rec, "url"),
            },
            _ => None,
        };
        if let Some(h) = h {
            if crate::export_values::is_uri(h.as_str()) {
                out.push(h);
                assert(texts(out@) =~= texts(before).push(h@));
            }
        }
    }
    assert(iv.take(items@.len() as int) =~= iv);
    out
}

fn build_links(r: &ImportRecord) -> (o: Option<Vec<(String, String)>>)
    ensures
        opt_pair_texts(o) == links_field(r@),
{
    if let Some(ImportValue::Record(lm)) = r.get("links") {
        let listed = listed_links_of(lm);
        if listed.len() > 0 {
            return Some(listed);
        }
    }
    let mut hrefs: Vec<String> = Vec::new();
    if let Some(u) = text_in(r, "url") {
        if crate::export_values::is_uri(u.as_str()) {
            hrefs.push(u);
        }
    }
    assert(texts(hrefs@) =~= match text_field(r@, "url"@) {
        Some(s) => if crate::export_values::uri_ok(s) {
            seq![s]
        } else {
            seq![]
        },
        None => seq![],
    });
    let ghost h0 = texts(hrefs@);
    if let Some(items) = crate::export_values::list_items(r, "attachments") {
        let mut more = attachment_hrefs_of(items);
        hrefs.append(&mut more);
    }
    assert(texts(hrefs@) =~= url_hrefs(r@));
    if hrefs.len() == 0 {
        return None;
    }
    let ghost hv = hrefs@;
    let out = number_all(hrefs);
    assert(pair_texts(out@) =~= numbered(url_hrefs(r@)));
    Some(out)
}

// ── Participants ───────────────────────────────────────────────

/// The role a participant is given.
#[derive(Debug, Clone, Copy, PartialEq, Eq)]
pub enum JsRole {
    Owner,
    Attendee,
}

/// A participant as it is written.
#[derive(Debug, Clone, PartialEq, Eq)]
pub struct JsParticipantOut {
    pub name: Option<String>,
    pub email: Option<String>,
    pub role: Option<JsRole>,
}

pub type PartView = (Option<Seq<char>>, Option<Seq<char>>, Option<JsRole>);

pub open spec fn part_view(p: JsParticipantOut) -> PartView {
    (opt_text(p.name), opt_text(p.email), p.role)
}

/// An email text, where it is an address.
pub open spec fn email_text(o: Option<Seq<char>>) -> Option<Seq<char>> {
    match o {
        Some(e) => if email_ok(e) {
            Some(e)
        } else {
            None
        },
        None => None,
    }
}

/// The participants of a `participants` map: each record under a valid
/// identifier, with its name and its email where that is an address.
pub open spec fn listed_parts(fields: ImportRecordView) -> Seq<(Seq<char>, PartView)>
    decreases fields.len(),
{
    if fields.len() == 0 {
        seq![]
    } else {
        let p = listed_parts(fields.drop_last());
        let (id, v) = fields.last();
        match v {
            ImportView::Record(pr) => if id_ok(id) {
                p.push((id, (text_field(pr, "name"@), email_text(text_field(pr, "email"@)), None)))
            } else {
                p
            },
            _ => p,
        }
    }
}

/// A participant named by a calendar address: a `mailto:` address gives
/// its email (where that is an address), any other text its name.
pub open spec fn part_from(s: Seq<char>, role: JsRole) -> PartView {
    if spec_starts_with(s, "mailto:"@) {
        (None, email_text(Some(s.skip(7))), Some(role))
    } else {
        (Some(s), None, Some(role))
    }
}

/// The attendees among the items: each text.
pub open spec fn attendee_parts(items: Seq<ImportView>) -> Seq<PartView>
    decreases items.len(),
{
    if items.len() == 0 {
        seq![]
    } else {
        let p = attendee_parts(items.drop_last());
        match text_of(items.last()) {
            Some(s) => p.push(part_from(s, JsRole::Attendee)),
            None => p,
        }
    }
}

/// The organizer and the attendees of a record, in order.
pub open spec fn organizer_and_attendees(r: ImportRecordView) -> Seq<PartView> {
    let o = match text_field(r, "organizer"@) {
        Some(s) => seq![part_from(s, JsRole::Owner)],
        None => seq![],
    };
    o + match list_field(r, "attendees"@) {
        Some(items) => attendee_parts(items),
        None => seq![],
    }
}

/// The participants of a record: its `participants` map where one reads,
/// else its organizer and attendees numbered from 1.
pub open spec fn participants_field(r: ImportRecordView) -> Option<Seq<(Seq<char>, PartView)>> {
    let listed = match key_lookup(r, "participants"@) {
        Some(ImportView::Record(pm)) => listed_parts(pm),
        _ => seq![],
    };
    if listed.len() > 0 {
        Some(listed)
    } else if key_lookup(r, "organizer"@) is None && key_lookup(r, "attendees"@) is None {
        None
    } else if organizer_and_attendees(r).len() > 0 {
        Some(numbered(organizer_and_attendees(r)))
    } else {
        None
    }
}

pub open spec fn part_views(v: Seq<(String, JsParticipantOut)>) -> Seq<(Seq<char>, PartView)> {
    v.map_values(|p: (String, JsParticipantOut)| (p.0@, part_view(p.1)))
}

pub open spec fn opt_parts(o: Option<Vec<(String, JsParticipantOut)>>) -> Option<Seq<(Seq<char>, PartView)>> {
    match o {
        Some(v) => Some(part_views(v@)),
        None => None,
    }
}

fn email_of(o: Option<String>) -> (e: Option<String>)
    ensures
        opt_text(e) == email_text(opt_text(o)),
{
    match o {
        Some(e) => if is_email(e.as_str()) {
            Some(e)
        } else {
            None
        },
        None => None,
    }
}

fn participant_from(s: &str, role: JsRole) -> (p: JsParticipantOut)
    ensures
        part_view(p) == part_from(s@, role),
{
    if crate::text::starts_with(s, "mailto:") {
        proof {
            reveal_strlit("mailto:");
        }
        let cs = to_chars(s);
        let mut rest: Vec<char> = Vec::new();
        for i in 7..cs.len()
            invariant
                cs@ == s@,
                cs@.len() >= 7,
                rest@ == cs@.subrange(7, i as int),
        {
            rest.push(cs[i]);
            assert(rest@ =~= cs@.subrange(7, i + 1));
        }
        assert(rest@ =~= s@.skip(7));
        JsParticipantOut { name: None, email: email_of(Some(from_chars(rest.as_slice()))), role: Some(role) }
    } else {
        JsParticipantOut { name: Some(String::from_str(s)), email: None, role: Some(role) }
    }
}

fn listed_parts_of(pm: &ImportRecord) -> (out: Vec<(String, JsParticipantOut)>)
    ensures
        part_views(out@) == listed_parts(pm@),
{
    let ghost rv = pm@;
    proof {
        crate::import_value::lemma_import_record_view(*pm);
    }
    let mut out: Vec<(String, JsParticipantOut)> = Vec::new();
    assert(part_views(out@) =~= listed_parts(rv.take(0)));
    for i in 0..pm.0.len()
        invariant
            rv == pm@,
            rv.len() == pm.0@.len(),
            forall|j: int| 0 <= j < pm.0@.len() ==> #[trigger] rv[j] == (pm.0@[j].0@, pm.0@[j].1@),
            part_views(out@) == listed_parts(rv.take(i as int)),
    {
        assert(rv.take(i + 1).drop_last() =~= rv.take(i as int));
        assert(rv.take(i + 1).last() == rv[i as int]);
        let ghost before = out@;
        if let ImportValue::Record(pr) = &pm.0[i].1 {
            if is_id(pm.0[i].0.as_str()) {
                let p = JsParticipantOut { name: text_in(pr, "name"), email: email_of(text_in(pr, "email")), role: None };
                out.push((pm.0[i].0.clone(), p));
                assert(part_views(out@) =~= part_views(before).push((pm.0@[i as int].0@, part_view(p))));
            }
        }
    }
    assert(rv.take(pm.0@.len() as int) =~= rv);
    out
}

fn attendees_of(items: &Vec<ImportValue>) -> (out: Vec<JsParticipantOut>)
    ensures
        out@.map_values(|p: JsParticipantOut| part_view(p)) == attendee_parts(ImportValue::List(*items)@->List_0),
{
    let ghost iv = ImportValue::List(*items)@->List_0;
    proof {
        crate::import_value::lemma_import_list_view(*items);
    }
    let mut out: Vec<JsParticipantOut> = Vec::new();
    assert(out@.map_values(|p: JsParticipantOut| part_view(p)) =~= attendee_parts(iv.take(0)));
    for i in 0..items.len()
        invariant
            iv.len() == items@.len(),
            forall|j: int| 0 <= j < items@.len() ==> #[trigger] iv[j] == items@[j]@,
            iv == ImportValue::List(*items)@->List_0,
            out@.map_values(|p: JsParticipantOut| part_view(p)) == attendee_parts(iv.take(i as int)),
    {
        assert(iv.take(i + 1).drop_last() =~= iv.take(i as int));
        assert(iv.take(i + 1).last() == items@[i as int]@);
        let ghost before = out@;
        if let ImportValue::String(s) = &items[i] {
            let p = participant_from(s.as_str(), JsRole::Attendee);
            out.push(p);
            assert(out@.map_values(|p: JsParticipantOut| part_view(p)) =~= before.map_values(
                |p: JsParticipantOut| part_view(p),
            ).push(part_view(p)));
        }
    }
    assert(iv.take(items@.len() as int) =~= iv);
    out
}

fn build_participants(r: &ImportRecord) -> (o: Option<Vec<(String, JsParticipantOut)>>)
    ensures
        opt_parts(o) == participants_field(r@),
{
    if let Some(ImportValue::Record(pm)) = r.get("participants") {
        let listed = listed_parts_of(pm);
        if listed.len() > 0 {
            return Some(listed);
        }
    }
    if !r.contains_key("organizer") && !r.contains_key("attendees") {
        return None;
    }
    let mut ps: Vec<JsParticipantOut> = Vec::new();
    if let Some(ImportValue::String(o)) = r.get("organizer") {
        ps.push(participant_from(o.as_str(), JsRole::Owner));
    }
    assert(ps@.map_values(|p: JsParticipantOut| part_view(p)) =~= match text_field(r@, "organizer"@) {
        Some(s) => seq![part_from(s, JsRole::Owner)],
        None => seq![],
    });
    if let Some(items) = crate::export_values::list_items(r, "attendees") {
        let mut more = attendees_of(items);
        ps.append(&mut more);
    }
    assert(ps@.map_values(|p: JsParticipantOut| part_view(p)) =~= organizer_and_attendees(r@));
    if ps.len() == 0 {
        return None;
    }
    let ghost pv = ps@;
    let out = number_all(ps);
    assert(part_views(out@) =~= numbered(organizer_and_attendees(r@)));
    Some(out)
}

// ── Relations ──────────────────────────────────────────────────

/// The identifiers of a list of related entries: each non-empty text,
/// once, in order of first occurrence.
pub open spec fn related_uids(items: Seq<ImportView>) -> Seq<Seq<char>>
    decreases items.len(),
{
    if items.len() == 0 {
        seq![]
    } else {
        let p = related_uids(items.drop_last());
        match text_of(items.last()) {
            Some(s) => if uid_ok(s) && !p.contains(s) {
                p.push(s)
            } else {
                p
            },
            None => p,
        }
    }
}

/// The relations of a `related_to` map: each entry under a non-empty
/// identifier, with the texts of its `relation` list.
pub open spec fn listed_relations(fields: ImportRecordView) -> Seq<(Seq<char>, Seq<Seq<char>>)>
    decreases fields.len(),
{
    if fields.len() == 0 {
        seq![]
    } else {
        let p = listed_relations(fields.drop_last());
        let (id, v) = fields.last();
        if uid_ok(id) {
            p.push(
                (
                    id,
                    match v {
                        ImportView::Record(rr) => match list_field(rr, "relation"@) {
                            Some(rels) => distinct_strings(rels),
                            None => seq![],
                        },
                        _ => seq![],
                    },
                ),
            )
        } else {
            p
        }
    }
}

/// The related entries of a record, where there is at least one.
pub open spec fn related_field(r: ImportRecordView) -> Option<Seq<(Seq<char>, Seq<Seq<char>>)>> {
    match key_lookup(r, "related_to"@) {
        Some(ImportView::List(items)) => if related_uids(items).len() > 0 {
            Some(related_uids(items).map_values(|u: Seq<char>| (u, Seq::<Seq<char>>::empty())))
        } else {
            None
        },
        Some(ImportView::Record(fields)) => if listed_relations(fields).len() > 0 {
            Some(listed_relations(fields))
        } else {
            None
        },
        _ => None,
    }
}

pub open spec fn opt_relations(o: Option<Vec<(String, Vec<String>)>>) -> Option<Seq<(Seq<char>, Seq<Seq<char>>)>> {
    match o {
        Some(v) => Some(v@.map_values(|p: (String, Vec<String>)| (p.0@, texts(p.1@)))),
        None => None,
    }
}

fn contains_text(v: &Vec<String>, s: &str) -> (b: bool)
    ensures
        b == texts(v@).contains(s@),
{
    let mut i: usize = 0;
    while i < v.len()
        invariant
            i <= v@.len(),
            forall|j: int| 0 <= j < i ==> v@[j]@ != s@,
        decreases v@.len() - i,
    {
        if str_eq(v[i].as_str(), s) {
            assert(texts(v@)[i as int] == s@);
            return true;
        }
        i = i + 1;
    }
    assert forall|j: int| 0 <= j < texts(v@).len() implies texts(v@)[j] != s@ by {
        assert(texts(v@)[j] == v@[j]@);
    }
    false
}

fn build_related_to(r: &ImportRecord) -> (o: Option<Vec<(String, Vec<String>)>>)
    ensures
        opt_relations(o) == related_field(r@),
{
    match r.get("related_to") {
        Some(ImportValue::List(items)) => {
            let ghost iv = ImportValue::List(*items)@->List_0;
            proof {
                crate::import_value::lemma_import_list_view(*items);
            }
            let mut uids: Vec<String> = Vec::new();
            assert(texts(uids@) =~= related_uids(iv.take(0)));
            for i in 0..items.len()
                invariant
                    iv.len() == items@.len(),
                    forall|j: int| 0 <= j < items@.len() ==> #[trigger] iv[j] == items@[j]@,
                    iv == ImportValue::List(*items)@->List_0,
                    texts(uids@) == related_uids(iv.take(i as int)),
            {
                assert(iv.take(i + 1).drop_last() =~= iv.take(i as int));
                assert(iv.take(i + 1).last() == items@[i as int]@);
                let ghost before = uids@;
                if let ImportValue::String(s) = &items[i] {
                    if to_chars(s.as_str()).len() > 0 && !contains_text(&uids, s.as_str()) {
                        uids.push(s.clone());
                        assert(texts(uids@) =~= texts(before).push(s@));
                    }
                }
            }
            assert(iv.take(items@.len() as int) =~= iv);
            if uids.len() == 0 {
                return None;
            }
            let mut out: Vec<(String, Vec<String>)> = Vec::new();
            for i in 0..uids.len()
                invariant
                    out@.map_values(|p: (String, Vec<String>)| (p.0@, texts(p.1@))) == texts(uids@).take(i as int).map_values(
                        |u: Seq<char>| (u, Seq::<Seq<char>>::empty()),
                    ),
            {
                let ghost before = out@;
                let empty: Vec<String> = Vec::new();
                assert(texts(empty@) =~= Seq::<Seq<char>>::empty());
                let u = uids[i].clone();
                assert(u@ == texts(uids@)[i as int]);
                assert(texts(uids@).take(i + 1) =~= texts(uids@).take(i as int).push(u@));
                out.push((u, empty));
                assert(out@.map_values(|p: (String, Vec<String>)| (p.0@, texts(p.1@))) =~= before.map_values(
                    |p: (String, Vec<String>)| (p.0@, texts(p.1@)),
                ).push((u@, Seq::<Seq<char>>::empty())));
                assert(texts(uids@).take(i + 1).map_values(|u: Seq<char>| (u, Seq::<Seq<char>>::empty()))
                    =~= texts(uids@).take(i as int).map_values(|u: Seq<char>| (u, Seq::<Seq<char>>::empty())).push(
                    (u@, Seq::<Seq<char>>::empty()),
                ));
                assert(out@.map_values(|p: (String, Vec<String>)| (p.0@, texts(p.1@))) =~= texts(uids@).take(i + 1).map_values(
                    |u: Seq<char>| (u, Seq::<Seq<char>>::empty()),
                ));
            }
            assert(texts(uids@).take(uids@.len() as int) =~= texts(uids@));
            Some(out)
        },
        Some(ImportValue::Record(fields)) => {
            let ghost rv = fields@;
            proof {
                crate::import_value::lemma_import_record_view(*fields);
            }
            let mut out: Vec<(String, Vec<String>)> = Vec::new();
            assert(out@.map_values(|p: (String, Vec<String>)| (p.0@, texts(p.1@))) =~= listed_relations(rv.take(0)));
            for i in 0..fields.0.len()
                invariant
                    rv == fields@,
                    rv.len() == fields.0@.len(),
                    forall|j: int| 0 <= j < fields.0@.len() ==> #[trigger] rv[j] == (fields.0@[j].0@, fields.0@[j].1@),
                    out@.map_values(|p: (String, Vec<String>)| (p.0@, texts(p.1@))) == listed_relations(rv.take(i as int)),
            {
                assert(rv.take(i + 1).drop_last() =~= rv.take(i as int));
                assert(rv.take(i + 1).last() == rv[i as int]);
                let ghost before = out@;
                if to_chars(fields.0[i].0.as_str()).len() > 0 {
                    let rels: Vec<String> = match &fields.0[i].1 {
                        ImportValue::Record(rr) => match get_string_set(rr, "relation") {
                            Some(v) => v,
                            None => Vec::new(),
                        },
                        _ => Vec::new(),
                    };
                    assert(texts(rels@) == match fields.0@[i as int].1@ {
                        ImportView::Record(rr) => match list_field(rr, "relation"@) {
                            Some(items) => distinct_strings(items),
                            None => seq![],
                        },
                        _ => seq![],
                    });
                    out.push((fields.0[i].0.clone(), rels));
                    assert(out@.map_values(|p: (String, Vec<String>)| (p.0@, texts(p.1@))) =~= before.map_values(
                        |p: (String, Vec<String>)| (p.0@, texts(p.1@)),
                    ).push((fields.0@[i as int].0@, texts(rels@))));
                }
            }
            assert(rv.take(fields.0@.len() as int) =~= rv);
            if out.len() > 0 {
                Some(out)
            } else {
                None
            }
        },
        _ => None,
    }
}

// ── Known fields and vendor properties ────────────────────────

/// The fields an event turns into properties.
pub open spec fn event_field(k: Seq<char>) -> bool {
    k == "type"@
        || k == "name"@
        || k == "uid"@
        || k == "title"@
        || k == "description"@
        || k == "start"@
        || k == "duration"@
        || k == "time_zone"@
        || k == "status"@
        || k == "priority"@
        || k == "color"@
        || k == "locale"@
        || k == "privacy"@
        || k == "free_busy_status"@
        || k == "show_without_time"@
        || k == "categories"@
        || k == "keywords"@
        || k == "created"@
        || k == "updated"@
        || k == "last_modified"@
        || k == "sequence"@
        || k == "method"@
        || k == "recurrence_id"@
        || k == "recur"@
        || k == "recurrence_rules"@
        || k == "excluded_recurrence_rules"@
        || k == "location"@
        || k == "geo"@
        || k == "locations"@
        || k == "virtual_locations"@
        || k == "url"@
        || k == "attachments"@
        || k == "links"@
        || k == "related_to"@
        || k == "organizer"@
        || k == "attendees"@
        || k == "participants"@
        || k == "reply_to"@
        || k == "request_status"@
        || k == "request_statuses"@
}

/// The fields a task turns into properties.
pub open spec fn task_field(k: Seq<char>) -> bool {
    k == "type"@
        || k == "name"@
        || k == "uid"@
        || k == "title"@
        || k == "description"@
        || k == "start"@
        || k == "due"@
        || k == "estimated_duration"@
        || k == "percent_complete"@
        || k == "progress"@
        || k == "time_zone"@
        || k == "priority"@
        || k == "color"@
        || k == "locale"@
        || k == "privacy"@
        || k == "free_busy_status"@
        || k == "show_without_time"@
        || k == "categories"@
        || k == "keywords"@
        || k == "created"@
        || k == "updated"@
        || k == "last_modified"@
        || k == "sequence"@
        || k == "method"@
        || k == "recurrence_id"@
        || k == "recur"@
        || k == "recurrence_rules"@
        || k == "excluded_recurrence_rules"@
        || k == "location"@
        || k == "geo"@
        || k == "locations"@
        || k == "virtual_locations"@
        || k == "url"@
        || k == "attachments"@
        || k == "links"@
        || k == "related_to"@
        || k == "organizer"@
        || k == "attendees"@
        || k == "participants"@
        || k == "reply_to"@
        || k == "request_status"@
        || k == "request_statuses"@
}

/// The fields of a calendar record that a group turns into properties.
pub open spec fn group_field(k: Seq<char>) -> bool {
    k == "type"@
        || k == "entries"@
        || k == "name"@
        || k == "uid"@
        || k == "title"@
        || k == "description"@
        || k == "prod_id"@
        || k == "color"@
        || k == "locale"@
        || k == "categories"@
        || k == "keywords"@
}

fn is_event_field(k: &str) -> (b: bool)
    ensures
        b == event_field(k@),
{
    str_eq(k, "type")
        || str_eq(k, "name")
        || str_eq(k, "uid")
        || str_eq(k, "title")
        || str_eq(k, "description")
        || str_eq(k, "start")
        || str_eq(k, "duration")
        || str_eq(k, "time_zone")
        || str_eq(k, "status")
        || str_eq(k, "priority")
        || str_eq(k, "color")
        || str_eq(k, "locale")
        || str_eq(k, "privacy")
        || str_eq(k, "free_busy_status")
        || str_eq(k, "show_without_time")
        || str_eq(k, "categories")
        || str_eq(k, "keywords")
        || str_eq(k, "created")
        || str_eq(k, "updated")
        || str_eq(k, "last_modified")
        || str_eq(k, "sequence")
        || str_eq(k, "method")
        || str_eq(k, "recurrence_id")
        || str_eq(k, "recur")
        || str_eq(k, "recurrence_rules")
        || str_eq(k, "excluded_recurrence_rules")
        || str_eq(k, "location")
        || str_eq(k, "geo")
        || str_eq(k, "locations")
        || str_eq(k, "virtual_locations")
        || str_eq(k, "url")
        || str_eq(k, "attachments")
        || str_eq(k, "links")
        || str_eq(k, "related_to")
        || str_eq(k, "organizer")
        || str_eq(k, "attendees")
        || str_eq(k, "participants")
        || str_eq(k, "reply_to")
        || str_eq(k, "request_status")
        || str_eq(k, "request_statuses")
}

fn is_task_field(k: &str) -> (b: bool)
    ensures
        b == task_field(k@),
{
    str_eq(k, "type")
        || str_eq(k, "name")
        || str_eq(k, "uid")
        || str_eq(k, "title")
        || str_eq(k, "description")
        || str_eq(k, "start")
        || str_eq(k, "due")
        || str_eq(k, "estimated_duration")
        || str_eq(k, "percent_complete")
        || str_eq(k, "progress")
        || str_eq(k, "time_zone")
        || str_eq(k, "priority")
        || str_eq(k, "color")
        || str_eq(k, "locale")
        || str_eq(k, "privacy")
        || str_eq(k, "free_busy_status")
        || str_eq(k, "show_without_time")
        || str_eq(k, "categories")
        || str_eq(k, "keywords")
        || str_eq(k, "created")
        || str_eq(k, "updated")
        || str_eq(k, "last_modified")
        || str_eq(k, "sequence")
        || str_eq(k, "method")
        || str_eq(k, "recurrence_id")
        || str_eq(k, "recur")
        || str_eq(k, "recurrence_rules")
        || str_eq(k, "excluded_recurrence_rules")
        || str_eq(k, "location")
        || str_eq(k, "geo")
        || str_eq(k, "locations")
        || str_eq(k, "virtual_locations")
        || str_eq(k, "url")
        || str_eq(k, "attachments")
        || str_eq(k, "links")
        || str_eq(k, "related_to")
        || str_eq(k, "organizer")
        || str_eq(k, "attendees")
        || str_eq(k, "participants")
        || str_eq(k, "reply_to")
        || str_eq(k, "request_status")
        || str_eq(k, "request_statuses")
}

fn is_group_field(k: &str) -> (b: bool)
    ensures
        b == group_field(k@),
{
    str_eq(k, "type")
        || str_eq(k, "entries")
        || str_eq(k, "name")
        || str_eq(k, "uid")
        || str_eq(k, "title")
        || str_eq(k, "description")
        || str_eq(k, "prod_id")
        || str_eq(k, "color")
        || str_eq(k, "locale")
        || str_eq(k, "categories")
        || str_eq(k, "keywords")
}


/// Which object a record becomes.
#[derive(Debug, Clone, Copy, PartialEq, Eq)]
pub enum JsKindOut {
    Group,
    Event,
    Task,
}

pub open spec fn js_known(kind: JsKindOut, k: Seq<char>) -> bool {
    match kind {
        JsKindOut::Group => group_field(k),
        JsKindOut::Event => event_field(k),
        JsKindOut::Task => task_field(k),
    }
}

fn is_js_known(kind: JsKindOut, k: &str) -> (b: bool)
    ensures
        b == js_known(kind, k@),
{
    match kind {
        JsKindOut::Group => is_group_field(k),
        JsKindOut::Event => is_event_field(k),
        JsKindOut::Task => is_task_field(k),
    }
}

pub open spec fn js_kind_label(kind: JsKindOut) -> Seq<char> {
    match kind {
        JsKindOut::Group => "calendar"@,
        JsKindOut::Event => "event"@,
        JsKindOut::Task => "task"@,
    }
}

/// The warning for a field that is neither known nor vendor-prefixed.
pub open spec fn vendor_warning(k: Seq<char>, kind: JsKindOut) -> Seq<char> {
    "unrecognised non-vendor field '"@ + k + "' on "@ + js_kind_label(kind) + " record"@
}

/// The vendor properties of a record's fields, in order: each field that
/// is not known, with its value.
pub open spec fn vendor_fields(fields: ImportRecordView, kind: JsKindOut) -> Seq<(Seq<char>, ImportView)>
    decreases fields.len(),
{
    if fields.len() == 0 {
        seq![]
    } else {
        let p = vendor_fields(fields.drop_last(), kind);
        if js_known(kind, fields.last().0) {
            p
        } else {
            p.push(fields.last())
        }
    }
}

/// The warnings for a record's fields, in order: one for each field that
/// is not known and has no `:` (a vendor prefix).
pub open spec fn vendor_warnings(fields: ImportRecordView, kind: JsKindOut) -> Seq<Seq<char>>
    decreases fields.len(),
{
    if fields.len() == 0 {
        seq![]
    } else {
        let p = vendor_warnings(fields.drop_last(), kind);
        let k = fields.last().0;
        if js_known(kind, k) || k.contains(':') {
            p
        } else {
            p.push(vendor_warning(k, kind))
        }
    }
}

pub open spec fn value_pairs(v: Seq<(String, ImportValue)>) -> Seq<(Seq<char>, ImportView)> {
    v.map_values(|p: (String, ImportValue)| (p.0@, p.1@))
}

fn has_colon(k: &str) -> (b: bool)
    ensures
        b == k@.contains(':'),
{
    let cs = to_chars(k);
    let mut i: usize = 0;
    while i < cs.len()
        invariant
            cs@ == k@,
            i <= cs@.len(),
            forall|j: int| 0 <= j < i ==> cs@[j] != ':',
        decreases cs@.len() - i,
    {
        if cs[i] == ':' {
            assert(k@[i as int] == ':');
            return true;
        }
        i = i + 1;
    }
    false
}

fn vendor_warning_for(k: &str, kind: JsKindOut) -> (w: String)
    ensures
        w@ == vendor_warning(k@, kind),
{
    let mut out: Vec<char> = Vec::new();
    push_str(&mut out, "unrecognised non-vendor field '");
    push_str(&mut out, k);
    push_str(&mut out, "' on ");
    match kind {
        JsKindOut::Group => push_str(&mut out, "calendar"),
        JsKindOut::Event => push_str(&mut out, "event"),
        JsKindOut::Task => push_str(&mut out, "task"),
    }
    push_str(&mut out, " record");
    from_chars(out.as_slice())
}

/// The vendor properties of a record's unknown fields, warning about each
/// such field that has no vendor prefix (a `:`).
pub fn collect_vendor_properties(record: &ImportRecord, kind: JsKindOut, warnings: &mut Vec<String>) -> (vs: Vec<(String, ImportValue)>)
    ensures
        value_pairs(vs@) == vendor_fields(record@, kind),
        texts(final(warnings)@) == texts(old(warnings)@) + vendor_warnings(record@, kind),
{
    let ghost rv = record@;
    let ghost w0 = texts(warnings@);
    proof {
        crate::import_value::lemma_import_record_view(*record);
    }
    let mut vs: Vec<(String, ImportValue)> = Vec::new();
    assert(value_pairs(vs@) =~= vendor_fields(rv.take(0), kind));
    assert(texts(warnings@) =~= w0 + vendor_warnings(rv.take(0), kind));
    for i in 0..record.0.len()
        invariant
            rv == record@,
            rv.len() == record.0@.len(),
            forall|j: int| 0 <= j < record.0@.len() ==> #[trigger] rv[j] == (record.0@[j].0@, record.0@[j].1@),
            value_pairs(vs@) == vendor_fields(rv.take(i as int), kind),
            texts(warnings@) == w0 + vendor_warnings(rv.take(i as int), kind),
    {
        assert(rv.take(i + 1).drop_last() =~= rv.take(i as int));
        assert(rv.take(i + 1).last() == rv[i as int]);
        let key = &record.0[i].0;
        let ghost vb = vs@;
        let ghost wb = warnings@;
        if !is_js_known(kind, key.as_str()) {
            if !has_colon(key.as_str()) {
                let w = vendor_warning_for(key.as_str(), kind);
                warnings.push(w);
                assert(texts(warnings@) =~= texts(wb).push(w@));
            }
            let v = copy_import_value(&record.0[i].1);
            vs.push((key.clone(), v));
            assert(value_pairs(vs@) =~= value_pairs(vb).push((key@, v@)));
        }
    }
    assert(rv.take(record.0@.len() as int) =~= rv);
    vs
}

// ── Scheduling ─────────────────────────────────────────────────

/// Where replies go: an iMIP address and a web address.
#[derive(Debug, Clone, PartialEq, Eq)]
pub struct JsReplyToOut {
    pub imip: Option<String>,
    pub web: Option<String>,
}

/// The reply addresses of a `reply_to` record: its `imip` where that is a
/// `mailto:` address and its `web` where that is a URI.
pub open spec fn reply_to_field(r: ImportRecordView) -> Option<(Option<Seq<char>>, Option<Seq<char>>)> {
    match key_lookup(r, "reply_to"@) {
        Some(ImportView::Record(rt)) => Some(
            (
                match text_field(rt, "imip"@) {
                    Some(s) => if cal_address_ok(s) {
                        Some(s)
                    } else {
                        None
                    },
                    None => None,
                },
                match text_field(rt, "web"@) {
                    Some(s) => if crate::export_values::uri_ok(s) {
                        Some(s)
                    } else {
                        None
                    },
                    None => None,
                },
            ),
        ),
        _ => None,
    }
}

pub open spec fn opt_reply(o: Option<JsReplyToOut>) -> Option<(Option<Seq<char>>, Option<Seq<char>>)> {
    match o {
        Some(x) => Some((opt_text(x.imip), opt_text(x.web))),
        None => None,
    }
}

fn build_reply_to(r: &ImportRecord) -> (o: Option<JsReplyToOut>)
    ensures
        opt_reply(o) == reply_to_field(r@),
{
    let rt = match r.get("reply_to") {
        Some(ImportValue::Record(rt)) => rt,
        _ => return None,
    };
    let imip = match text_in(rt, "imip") {
        Some(s) => if crate::text::starts_with(s.as_str(), "mailto:") {
            Some(s)
        } else {
            None
        },
        None => None,
    };
    let web = match text_in(rt, "web") {
        Some(s) => if crate::export_values::is_uri(s.as_str()) {
            Some(s)
        } else {
            None
        },
        None => None,
    };
    Some(JsReplyToOut { imip, web })
}

/// A request status as it is written.
#[derive(Debug, Clone, PartialEq, Eq)]
pub struct JsRequestStatusOut {
    pub class: u8,
    pub major: u8,
    pub minor: Option<u8>,
    pub description: String,
    pub exception_data: Option<String>,
}

pub type JsStatusView = (u8, u8, Option<u8>, Seq<char>, Option<Seq<char>>);

pub open spec fn js_status_view(x: JsRequestStatusOut) -> JsStatusView {
    (x.class, x.major, x.minor, x.description@, opt_text(x.exception_data))
}

/// A status code `class.major[.minor]`: class 1 to 5, each part a byte
/// (a minor that is not one left out, a fourth part ignored).
pub open spec fn status_code_of(code: Seq<char>) -> Option<(u8, u8, Option<u8>)> {
    match crate::text::spec_split_once(code, '.') {
        Some((c0, rest)) => {
            let (c1, minor_text) = match crate::text::spec_split_once(rest, '.') {
                Some((a, b)) => (
                    a,
                    Some(
                        match crate::text::spec_split_once(b, '.') {
                            Some((m, _)) => m,
                            None => b,
                        },
                    ),
                ),
                None => (rest, None),
            };
            match (crate::export_values::parse_u8(c0), crate::export_values::parse_u8(c1)) {
                (Some(class), Some(major)) => if 1 <= class <= 5 {
                    Some(
                        (
                            class,
                            major,
                            match minor_text {
                                Some(t) => crate::export_values::parse_u8(t),
                                None => None,
                            },
                        ),
                    )
                } else {
                    None
                },
                _ => None,
            }
        },
        None => None,
    }
}

fn parse_status_code(code: &Vec<char>) -> (r: Option<(u8, u8, Option<u8>)>)
    ensures
        r == status_code_of(code@),
{
    let (c0, rest) = match crate::export_values::split_on(code, '.') {
        Some(p) => p,
        None => return None,
    };
    let (c1, minor_text) = match crate::export_values::split_on(&rest, '.') {
        Some((a, b)) => {
            let m = match crate::export_values::split_on(&b, '.') {
                Some((m, _)) => m,
                None => b,
            };
            (a, Some(m))
        },
        None => (rest, None),
    };
    let class = match crate::export_values::byte_of(&c0) {
        Some(c) => c,
        None => return None,
    };
    let major = match crate::export_values::byte_of(&c1) {
        Some(m) => m,
        None => return None,
    };
    if class < 1 || class > 5 {
        return None;
    }
    let minor = match &minor_text {
        Some(t) => crate::export_values::byte_of(t),
        None => None,
    };
    Some((class, major, minor))
}

/// The code, description and exception data of a status text
/// `code;description;data`.
pub open spec fn status_text_parts(s: Seq<char>) -> (Seq<char>, Option<Seq<char>>, Option<Seq<char>>) {
    match crate::text::spec_split_once(s, ';') {
        None => (s, None, None),
        Some((c, rest)) => match crate::text::spec_split_once(rest, ';') {
            None => (c, Some(rest), None),
            Some((d, e)) => (c, Some(d), Some(e)),
        },
    }
}

/// The first status text among the items whose code reads.
pub open spec fn first_status(items: Seq<ImportView>) -> Option<JsStatusView>
    decreases items.len(),
{
    if items.len() == 0 {
        None
    } else {
        let next = first_status(items.drop_first());
        match text_of(items[0]) {
            Some(s) => {
                let (c, d, e) = status_text_parts(s);
                match status_code_of(c) {
                    Some((cl, ma, mi)) => Some(
                        (
                            cl,
                            ma,
                            mi,
                            match d {
                                Some(x) => x,
                                None => Seq::empty(),
                            },
                            e,
                        ),
                    ),
                    None => next,
                }
            },
            None => next,
        }
    }
}

/// The request status of a record: its `request_status` record (nothing
/// when its code does not read), else the first of its `request_statuses`
/// whose code reads.
pub open spec fn request_status_field(r: ImportRecordView) -> Option<JsStatusView> {
    match key_lookup(r, "request_status"@) {
        Some(ImportView::Record(rs)) => match text_field(rs, "code"@) {
            Some(c) => match status_code_of(c) {
                Some((cl, ma, mi)) => Some((cl, ma, mi, text_or(rs, "description"@, Seq::empty()), None)),
                None => None,
            },
            None => None,
        },
        _ => match list_field(r, "request_statuses"@) {
            Some(items) => first_status(items),
            None => None,
        },
    }
}

pub open spec fn opt_js_status(o: Option<JsRequestStatusOut>) -> Option<JsStatusView> {
    match o {
        Some(x) => Some(js_status_view(x)),
        None => None,
    }
}

fn build_request_status(r: &ImportRecord) -> (o: Option<JsRequestStatusOut>)
    ensures
        opt_js_status(o) == request_status_field(r@),
{
    if let Some(ImportValue::Record(rs)) = r.get("request_status") {
        let code = match text_in(rs, "code") {
            Some(c) => c,
            None => return None,
        };
        let (class, major, minor) = match parse_status_code(&to_chars(code.as_str())) {
            Some(p) => p,
            None => return None,
        };
        let description = from_chars(text_or_in(rs, "description", "").as_slice());
        proof {
            reveal_strlit("");
        }
        return Some(JsRequestStatusOut { class, major, minor, description, exception_data: None });
    }
    let items = match crate::export_values::list_items(r, "request_statuses") {
        Some(items) => items,
        None => return None,
    };
    let ghost iv = ImportValue::List(*items)@->List_0;
    proof {
        crate::import_value::lemma_import_list_view(*items);
    }
    let mut i: usize = 0;
    assert(iv.skip(0) =~= iv);
    assert(request_status_field(r@) == first_status(iv));
    while i < items.len()
        invariant
            request_status_field(r@) == first_status(iv),
            i <= items@.len(),
            iv.len() == items@.len(),
            forall|j: int| 0 <= j < items@.len() ==> #[trigger] iv[j] == items@[j]@,
            first_status(iv) == first_status(iv.skip(i as int)),
        decreases items@.len() - i,
    {
        assert(iv.skip(i as int).drop_first() =~= iv.skip(i + 1));
        assert(iv.skip(i as int)[0] == items@[i as int]@);
        if let ImportValue::String(s) = &items[i] {
            let cs = to_chars(s.as_str());
            let (code, d, e) = match crate::export_values::split_on(&cs, ';') {
                None => (cs, None, None),
                Some((c, rest)) => match crate::export_values::split_on(&rest, ';') {
                    None => (c, Some(rest), None),
                    Some((d, e)) => (c, Some(d), Some(e)),
                },
            };
            assert(status_text_parts(s@) == (
                code@,
                match d {
                    Some(x) => Some(x@),
                    None => None::<Seq<char>>,
                },
                match e {
                    Some(x) => Some(x@),
                    None => None::<Seq<char>>,
                },
            ));
            if let Some((class, major, minor)) = parse_status_code(&code) {
                let description = match &d {
                    Some(x) => from_chars(x.as_slice()),
                    None => {
                        let v: Vec<char> = Vec::new();
                        assert(v@ =~= Seq::<char>::empty());
                        from_chars(v.as_slice())
                    },
                };
                let exception_data = match &e {
                    Some(x) => Some(from_chars(x.as_slice())),
                    None => None,
                };
                let out = JsRequestStatusOut { class, major, minor, description, exception_data };
                assert(text_of(iv.skip(i as int)[0]) == Some(s@));
                assert(first_status(iv.skip(i as int)) == Some(js_status_view(out)));
                return Some(out);
            }
        }
        i = i + 1;
    }
    assert(iv.skip(items@.len() as int) =~= Seq::<ImportView>::empty());
    None
}

// ── Events and tasks ───────────────────────────────────────────

/// An event or a task as it is written. A property of one kind only is
/// `None` for the other.
pub struct JsEntryOut {
    pub uid: String,
    pub start: Option<(PlainDate, PlainTime)>,
    pub due: Option<(PlainDate, PlainTime)>,
    /// The duration of an event, or the estimated duration of a task.
    pub duration: Option<DurationOut>,
    pub percent_complete: Option<u8>,
    pub progress: Option<String>,
    pub status: Option<String>,
    pub title: Option<String>,
    pub description: Option<String>,
    pub time_zone: Option<String>,
    pub priority: Option<IcalPriority>,
    pub color: Option<String>,
    pub locale: Option<String>,
    pub privacy: Option<String>,
    pub free_busy_status: Option<String>,
    pub show_without_time: Option<bool>,
    pub categories: Option<Vec<String>>,
    pub keywords: Option<Vec<String>>,
    pub created: Option<(PlainDate, PlainTime)>,
    pub updated: Option<(PlainDate, PlainTime)>,
    pub sequence: Option<u64>,
    pub method: Option<String>,
    pub recurrence_id: Option<(PlainDate, PlainTime)>,
    pub recurrence_rules: Option<Vec<PlainRRule>>,
    pub excluded_recurrence_rules: Option<Vec<PlainRRule>>,
    pub locations: Option<Vec<(String, JsLocationOut)>>,
    pub virtual_locations: Option<Vec<(String, JsVirtualLocationOut)>>,
    pub links: Option<Vec<(String, String)>>,
    pub related_to: Option<Vec<(String, Vec<String>)>>,
    pub participants: Option<Vec<(String, JsParticipantOut)>>,
    pub reply_to: Option<JsReplyToOut>,
    pub request_status: Option<JsRequestStatusOut>,
    /// Vendor properties: name and value, in field order.
    pub vendor: Vec<(String, ImportValue)>,
}

/// The strings of a list field, each once, where there is one.
pub open spec fn string_set_field(r: ImportRecordView, k: Seq<char>) -> Option<Seq<Seq<char>>> {
    match key_lookup(r, k) {
        Some(ImportView::List(items)) => if distinct_strings(items).len() == 0 {
            None
        } else {
            Some(distinct_strings(items))
        },
        _ => None,
    }
}

/// A boolean field.
pub open spec fn bool_field(r: ImportRecordView, k: Seq<char>) -> Option<bool> {
    match key_lookup(r, k) {
        Some(ImportView::Bool(b)) => Some(b),
        _ => None,
    }
}

/// What every event and task takes from its record.
pub open spec fn common_js(c: JsEntryOut, r: ImportRecordView) -> bool {
    &&& Some(c.uid@) == text_field(r, "uid"@)
    &&& opt_text(c.title) == text_field(r, "title"@)
    &&& opt_text(c.description) == text_field(r, "description"@)
    &&& opt_text(c.time_zone) == text_field(r, "time_zone"@)
    &&& c.priority == js_priority_field(r)
    &&& opt_text(c.color) == js_color_field(r)
    &&& opt_text(c.locale) == locale_field(r)
    &&& opt_text(c.privacy) == text_field(r, "privacy"@)
    &&& opt_text(c.free_busy_status) == text_field(r, "free_busy_status"@)
    &&& c.show_without_time == bool_field(r, "show_without_time"@)
    &&& opt_texts(c.categories) == string_set_field(r, "categories"@)
    &&& opt_texts(c.keywords) == string_set_field(r, "keywords"@)
    &&& c.created == js_dt_field(r, "created"@)
    &&& c.updated == match js_dt_field(r, "updated"@) {
        Some(x) => Some(x),
        None => js_dt_field(r, "last_modified"@),
    }
    &&& c.sequence == safe_int_field(r, "sequence"@)
    &&& opt_text(c.method) == text_field(r, "method"@)
    &&& c.recurrence_id == js_dt_field(r, "recurrence_id"@)
    &&& opt_rules(c.recurrence_rules) == recurrence_rules_field(r)
    &&& opt_rules(c.excluded_recurrence_rules) == excluded_rules_field(r)
    &&& opt_locs(c.locations) == locations_field(r)
    &&& opt_vlocs(c.virtual_locations) == vlocs_field(r)
    &&& opt_pair_texts(c.links) == links_field(r)
    &&& opt_relations(c.related_to) == related_field(r)
    &&& opt_parts(c.participants) == participants_field(r)
    &&& opt_reply(c.reply_to) == reply_to_field(r)
    &&& opt_js_status(c.request_status) == request_status_field(r)
}

/// What an event takes from its record.
pub open spec fn event_js(c: JsEntryOut, r: ImportRecordView) -> bool {
    &&& common_js(c, r)
    &&& c.start == js_dt_field(r, "start"@) && c.start is Some
    &&& c.duration == js_duration_field(r, "duration"@)
    &&& opt_text(c.status) == text_field(r, "status"@)
    &&& c.due is None && c.percent_complete is None && c.progress is None
    &&& value_pairs(c.vendor@) == vendor_fields(r, JsKindOut::Event)
}

/// What a task takes from its record.
pub open spec fn task_js(c: JsEntryOut, r: ImportRecordView) -> bool {
    &&& common_js(c, r)
    &&& c.start == js_dt_field(r, "start"@)
    &&& c.due == js_dt_field(r, "due"@)
    &&& c.duration == js_duration_field(r, "estimated_duration"@)
    &&& c.percent_complete == js_percent_field(r)
    &&& opt_text(c.progress) == text_field(r, "progress"@)
    &&& c.status is None
    &&& value_pairs(c.vendor@) == vendor_fields(r, JsKindOut::Task)
}

/// Why a record's `uid` does not do: missing, or empty.
pub open spec fn uid_error(r: ImportRecordView) -> Option<Seq<char>> {
    match text_field(r, "uid"@) {
        None => Some("missing required 'uid' field"@),
        Some(u) => if uid_ok(u) {
            None
        } else {
            Some("invalid uid '"@ + u + "': expected at least one character"@)
        },
    }
}

fn get_uid(r: &ImportRecord) -> (u: Result<String, String>)
    ensures
        match uid_error(r@) {
            Some(m) => u matches Err(e) && e@ == m,
            None => u matches Ok(x) && Some(x@) == text_field(r@, "uid"@),
        },
{
    match text_in(r, "uid") {
        None => Err(String::from_str("missing required 'uid' field")),
        Some(u) => if to_chars(u.as_str()).len() > 0 {
            Ok(u)
        } else {
            let mut m: Vec<char> = Vec::new();
            push_str(&mut m, "invalid uid '");
            push_str(&mut m, u.as_str());
            push_str(&mut m, "': expected at least one character");
            Err(from_chars(m.as_slice()))
        },
    }
}

fn string_set(r: &ImportRecord, k: &str) -> (o: Option<Vec<String>>)
    ensures
        opt_texts(o) == string_set_field(r@, k@),
{
    let o = get_string_set(r, k);
    assert(opt_texts(o) == match o {
        Some(v) => Some(v@.map_values(|s: String| s@)),
        None => None::<Seq<Seq<char>>>,
    });
    o
}

fn updated_of(r: &ImportRecord) -> (d: Option<(PlainDate, PlainTime)>)
    ensures
        d == match js_dt_field(r@, "updated"@) {
            Some(x) => Some(x),
            None => js_dt_field(r@, "last_modified"@),
        },
{
    match get_datetime(r, "updated") {
        Some(x) => Some(x),
        None => get_datetime(r, "last_modified"),
    }
}

/// The properties every event and task takes from its record, given its
/// identifier.
fn common_entry(record: &ImportRecord, uid: String) -> (c: JsEntryOut)
    requires
        Some(uid@) == text_field(record@, "uid"@),
        color_readable(record@),
    ensures
        common_js(c, record@),
        c.start is None && c.due is None && c.duration is None,
        c.percent_complete is None && c.progress is None && c.status is None,
        c.vendor@.len() == 0,
{
    JsEntryOut {
        uid,
        start: None,
        due: None,
        duration: None,
        percent_complete: None,
        progress: None,
        status: None,
        title: text_in(record, "title"),
        description: text_in(record, "description"),
        time_zone: text_in(record, "time_zone"),
        priority: get_priority(record),
        color: js_color(record),
        locale: js_locale(record),
        privacy: text_in(record, "privacy"),
        free_busy_status: text_in(record, "free_busy_status"),
        show_without_time: get_bool(record, "show_without_time"),
        categories: string_set(record, "categories"),
        keywords: string_set(record, "keywords"),
        created: get_datetime(record, "created"),
        updated: updated_of(record),
        sequence: match get_u64(record, "sequence") {
            Some(n) => if n <= MAX_SAFE_INTEGER {
                Some(n)
            } else {
                None
            },
            None => None,
        },
        method: text_in(record, "method"),
        recurrence_id: get_datetime(record, "recurrence_id"),
        recurrence_rules: get_recurrence_rules(record),
        excluded_recurrence_rules: get_excluded_recurrence_rules(record),
        locations: build_locations(record),
        virtual_locations: build_virtual_locations(record),
        links: build_links(record),
        related_to: build_related_to(record),
        participants: build_participants(record),
        reply_to: build_reply_to(record),
        request_status: build_request_status(record),
        vendor: Vec::new(),
    }
}

/// The event a record describes: its `uid` and `start` are required; a
/// warning comes for each field that is neither known nor vendor-prefixed.
pub fn build_event(record: &ImportRecord, warnings: &mut Vec<String>) -> (res: Result<JsEntryOut, String>)
    requires
        uid_error(record@) is None && js_dt_field(record@, "start"@) is Some ==> color_readable(record@),
    ensures
        match uid_error(record@) {
            Some(m) => res matches Err(e) && e@ == m && final(warnings)@ == old(warnings)@,
            None => match js_dt_field(record@, "start"@) {
                None => res matches Err(e) && e@ == "event missing required 'start' field"@
                    && final(warnings)@ == old(warnings)@,
                Some(_) => res matches Ok(c) && event_js(c, record@) && texts(final(warnings)@)
                    == texts(old(warnings)@) + vendor_warnings(record@, JsKindOut::Event),
            },
        },
{
    let uid = match get_uid(record) {
        Ok(u) => u,
        Err(e) => return Err(e),
    };
    let start = match get_datetime(record, "start") {
        Some(s) => s,
        None => return Err(String::from_str("event missing required 'start' field")),
    };
    let mut c = common_entry(record, uid);
    c.start = Some(start);
    c.duration = get_duration(record, "duration");
    c.status = text_in(record, "status");
    c.vendor = collect_vendor_properties(record, JsKindOut::Event, warnings);
    Ok(c)
}

/// The task a record describes: its `uid` is required; a warning comes
/// for each field that is neither known nor vendor-prefixed.
pub fn build_task(record: &ImportRecord, warnings: &mut Vec<String>) -> (res: Result<JsEntryOut, String>)
    requires
        uid_error(record@) is None ==> color_readable(record@),
    ensures
        match uid_error(record@) {
            Some(m) => res matches Err(e) && e@ == m && final(warnings)@ == old(warnings)@,
            None => res matches Ok(c) && task_js(c, record@) && texts(final(warnings)@) == texts(
                old(warnings)@,
            ) + vendor_warnings(record@, JsKindOut::Task),
        },
{
    let uid = match get_uid(record) {
        Ok(u) => u,
        Err(e) => return Err(e),
    };
    let mut c = common_entry(record, uid);
    c.start = get_datetime(record, "start");
    c.due = get_datetime(record, "due");
    c.duration = get_duration(record, "estimated_duration");
    c.percent_complete = match get_u64(record, "percent_complete") {
        Some(n) => if n <= 100 {
            Some(n as u8)
        } else {
            None
        },
        None => None,
    };
    c.progress = text_in(record, "progress");
    c.vendor = collect_vendor_properties(record, JsKindOut::Task, warnings);
    Ok(c)
}

// ── Groups ─────────────────────────────────────────────────────

/// An entry of a group.
pub enum JsEntry {
    Event(JsEntryOut),
    Task(JsEntryOut),
}

/// The entry type of a record, `event` without one.
pub open spec fn entry_type(r: ImportRecordView) -> Seq<char> {
    text_or(r, "type"@, "event"@)
}

/// What becomes of an entry record: an event or a task, or the reason it
/// is left out.
pub open spec fn entry_outcome(r: ImportRecordView) -> Result<JsKindOut, Seq<char>> {
    if entry_type(r) == "event"@ {
        match uid_error(r) {
            Some(m) => Err(m),
            None => if js_dt_field(r, "start"@) is Some {
                Ok(JsKindOut::Event)
            } else {
                Err("event missing required 'start' field"@)
            },
        }
    } else if entry_type(r) == "task"@ {
        match uid_error(r) {
            Some(m) => Err(m),
            None => Ok(JsKindOut::Task),
        }
    } else {
        Err("unknown entry type: "@ + entry_type(r))
    }
}

/// The warnings an entry record gives: the reason it is left out, or
/// those for its unknown fields.
pub open spec fn outcome_warnings(r: ImportRecordView) -> Seq<Seq<char>> {
    match entry_outcome(r) {
        Ok(k) => vendor_warnings(r, k),
        Err(m) => seq![m],
    }
}

/// The entries that become events and tasks, in order.
pub open spec fn js_built(entries: Seq<ImportView>) -> Seq<(JsKindOut, ImportRecordView)>
    decreases entries.len(),
{
    if entries.len() == 0 {
        seq![]
    } else {
        let p = js_built(entries.drop_last());
        match entries.last() {
            ImportView::Record(r) => match entry_outcome(r) {
                Ok(k) => p.push((k, r)),
                Err(_) => p,
            },
            _ => p,
        }
    }
}

/// The warnings of the entries, in order.
pub open spec fn js_entry_warnings(entries: Seq<ImportView>) -> Seq<Seq<char>>
    decreases entries.len(),
{
    if entries.len() == 0 {
        seq![]
    } else {
        let p = js_entry_warnings(entries.drop_last());
        match entries.last() {
            ImportView::Record(r) => p + outcome_warnings(r),
            _ => p,
        }
    }
}

pub open spec fn js_entry_for(c: JsEntry, e: (JsKindOut, ImportRecordView)) -> bool {
    match c {
        JsEntry::Event(x) => e.0 == JsKindOut::Event && event_js(x, e.1),
        JsEntry::Task(x) => e.0 == JsKindOut::Task && task_js(x, e.1),
    }
}

/// A record whose color jscalendar can read, if it gets as far as reading
/// it: only records that become an event or a task have theirs read.
pub open spec fn entry_readable(r: ImportRecordView) -> bool {
    entry_outcome(r) is Ok ==> color_readable(r)
}

/// Entries whose records jscalendar can read colors of, where it reads them.
pub open spec fn entries_readable(entries: Seq<ImportView>) -> bool {
    forall|i: int| 0 <= i < entries.len() ==> (#[trigger] entries[i] matches ImportView::Record(r) ==> entry_readable(r))
}

/// Builds the event or task an entry record describes.
pub fn build_entry(record: &ImportRecord, warnings: &mut Vec<String>) -> (res: Result<JsEntry, String>)
    requires
        entry_readable(record@),
    ensures
        match entry_outcome(record@) {
            Ok(k) => res matches Ok(c) && js_entry_for(c, (k, record@)) && texts(final(warnings)@)
                == texts(old(warnings)@) + vendor_warnings(record@, k),
            Err(m) => res matches Err(e) && e@ == m && final(warnings)@ == old(warnings)@,
        },
{
    proof {
        reveal_strlit("event");
    }
    let t = from_chars(text_or_in(record, "type", "event").as_slice());
    if str_eq(t.as_str(), "event") {
        match build_event(record, warnings) {
            Ok(c) => Ok(JsEntry::Event(c)),
            Err(e) => Err(e),
        }
    } else if str_eq(t.as_str(), "task") {
        match build_task(record, warnings) {
            Ok(c) => Ok(JsEntry::Task(c)),
            Err(e) => Err(e),
        }
    } else {
        let mut m: Vec<char> = Vec::new();
        push_str(&mut m, "unknown entry type: ");
        push_str(&mut m, t.as_str());
        Err(from_chars(m.as_slice()))
    }
}

/// Whether jscalendar reads the color of an entry record: exactly when the
/// record becomes an event or a task.
pub fn entry_reads_color(record: &ImportRecord) -> (b: bool)
    ensures
        b == (entry_outcome(record@) is Ok),
{
    proof {
        reveal_strlit("event");
    }
    let t = from_chars(text_or_in(record, "type", "event").as_slice());
    let uid_ok = match get_uid(record) {
        Ok(_) => true,
        Err(_) => false,
    };
    if str_eq(t.as_str(), "event") {
        uid_ok && match get_datetime(record, "start") {
            Some(_) => true,
            None => false,
        }
    } else if str_eq(t.as_str(), "task") {
        uid_ok
    } else {
        false
    }
}

/// Whether jscalendar reads the color of a calendar record and of its
/// entries: exactly when the calendar has a usable `uid`.
pub fn calendar_reads_color(calendar: &ImportRecord) -> (b: bool)
    ensures
        b == (uid_error(calendar@) is None),
{
    match get_uid(calendar) {
        Ok(_) => true,
        Err(_) => false,
    }
}

/// A group as it is written.
pub struct JsGroupOut {
    pub uid: String,
    pub entries: Vec<JsEntry>,
    pub title: Option<String>,
    pub description: Option<String>,
    pub prod_id: Option<String>,
    pub color: Option<String>,
    pub locale: Option<String>,
    pub categories: Option<Vec<String>>,
    pub keywords: Option<Vec<String>>,
    /// Vendor properties: name and value, in field order.
    pub vendor: Vec<(String, ImportValue)>,
}

/// What a group takes from its calendar record.
pub open spec fn group_js(g: JsGroupOut, r: ImportRecordView) -> bool {
    &&& Some(g.uid@) == text_field(r, "uid"@)
    &&& opt_text(g.title) == text_field(r, "title"@)
    &&& opt_text(g.description) == text_field(r, "description"@)
    &&& opt_text(g.prod_id) == text_field(r, "prod_id"@)
    &&& opt_text(g.color) == js_color_field(r)
    &&& opt_text(g.locale) == locale_field(r)
    &&& opt_texts(g.categories) == string_set_field(r, "categories"@)
    &&& opt_texts(g.keywords) == string_set_field(r, "keywords"@)
    &&& value_pairs(g.vendor@) == vendor_fields(r, JsKindOut::Group)
}

/// The group that a calendar record and its entries are written as. The
/// calendar's `uid` is required. Each record entry becomes an event or a
/// task, in order, or is left out with a warning saying why; other entries
/// are skipped. Warnings come for unknown non-vendor fields of the entries,
/// then of the calendar.
pub fn emit_jscalendar(calendar: &ImportRecord, entries: &[ImportValue], warnings: &mut Vec<String>) -> (res: Result<JsGroupOut, String>)
    requires
        uid_error(calendar@) is None ==> color_readable(calendar@) && entries_readable(
            entries@.map_values(|v: ImportValue| v@),
        ),
    ensures
        match uid_error(calendar@) {
            Some(m) => res matches Err(e) && e@ == m && final(warnings)@ == old(warnings)@,
            None => res matches Ok(g) && {
                let ev = entries@.map_values(|v: ImportValue| v@);
                &&& group_js(g, calendar@)
                &&& g.entries@.len() == js_built(ev).len()
                &&& forall|i: int|
                    0 <= i < g.entries@.len() ==> js_entry_for(#[trigger] g.entries@[i], js_built(ev)[i])
                &&& texts(final(warnings)@) == texts(old(warnings)@) + js_entry_warnings(ev) + vendor_warnings(
                    calendar@,
                    JsKindOut::Group,
                )
            },
        },
{
    let uid = match get_uid(calendar) {
        Ok(u) => u,
        Err(e) => return Err(e),
    };
    let ghost ev = entries@.map_values(|v: ImportValue| v@);
    let ghost w0 = texts(warnings@);
    let mut built: Vec<JsEntry> = Vec::new();
    assert(ev.take(0) =~= Seq::<ImportView>::empty());
    assert(texts(warnings@) =~= w0 + js_entry_warnings(ev.take(0)));
    for i in 0..entries.len()
        invariant
            ev == entries@.map_values(|v: ImportValue| v@),
            ev.len() == entries@.len(),
            entries_readable(ev),
            built@.len() == js_built(ev.take(i as int)).len(),
            forall|j: int|
                0 <= j < built@.len() ==> js_entry_for(#[trigger] built@[j], js_built(ev.take(i as int))[j]),
            texts(warnings@) == w0 + js_entry_warnings(ev.take(i as int)),
    {
        assert(ev.take(i + 1).drop_last() =~= ev.take(i as int));
        assert(ev.take(i + 1).last() == entries@[i as int]@);
        let ghost wb = texts(warnings@);
        let ghost before = built@;
        let ghost done = js_built(ev.take(i as int));
        if let ImportValue::Record(r) = &entries[i] {
            assert(ev[i as int] == entries@[i as int]@);
            assert(entry_readable(r@));
            match build_entry(r, warnings) {
                Ok(c) => {
                    built.push(c);
                    let ghost k = entry_outcome(r@)->Ok_0;
                    assert(js_built(ev.take(i + 1)) == done.push((k, r@)));
                    assert(texts(warnings@) =~= w0 + js_entry_warnings(ev.take(i + 1)));
                    assert forall|j: int|
                        0 <= j < built@.len() implies js_entry_for(
                        #[trigger] built@[j],
                        js_built(ev.take(i + 1))[j],
                    ) by {
                        if j < before.len() {
                            assert(built@[j] == before[j]);
                        }
                    }
                },
                Err(e) => {
                    let ghost wv = warnings@;
                    warnings.push(e);
                    assert(texts(warnings@) =~= texts(wv).push(e@));
                    assert(js_built(ev.take(i + 1)) == done);
                    assert(texts(warnings@) =~= w0 + js_entry_warnings(ev.take(i + 1)));
                },
            }
        } else {
            assert(js_built(ev.take(i + 1)) == done);
            assert(js_entry_warnings(ev.take(i + 1)) == js_entry_warnings(ev.take(i as int)));
        }
    }
    assert(ev.take(entries@.len() as int) =~= ev);
    let title = text_in(calendar, "title");
    let description = text_in(calendar, "description");
    let prod_id = text_in(calendar, "prod_id");
    let color = js_color(calendar);
    let locale = js_locale(calendar);
    let categories = string_set(calendar, "categories");
    let keywords = string_set(calendar, "keywords");
    let vendor = collect_vendor_properties(calendar, JsKindOut::Group, warnings);
    Ok(
        JsGroupOut {
            uid,
            entries: built,
            title,
            description,
            prod_id,
            color,
            locale,
            categories,
            keywords,
            vendor,
        },
    )
}

// ── What every written record keeps ───────────────────────────

/// A field that is not a known one is kept as a vendor property, under
/// its own name, with its value.
pub proof fn lemma_unknown_field_kept(fields: ImportRecordView, kind: JsKindOut, i: int)
    requires
        0 <= i < fields.len(),
        !js_known(kind, fields[i].0),
    ensures
        vendor_fields(fields, kind).contains(fields[i]),
    decreases fields.len(),
{
    if i == fields.len() - 1 {
        let p = vendor_fields(fields.drop_last(), kind);
        assert(vendor_fields(fields, kind) == p.push(fields[i]));
        assert(p.push(fields[i])[p.len() as int] == fields[i]);
    } else {
        assert(fields.drop_last()[i] == fields[i]);
        lemma_unknown_field_kept(fields.drop_last(), kind, i);
        let p = vendor_fields(fields.drop_last(), kind);
        let j = choose|j: int| 0 <= j < p.len() && p[j] == fields[i];
        if !js_known(kind, fields.last().0) {
            assert(vendor_fields(fields, kind) == p.push(fields.last()));
            assert(p.push(fields.last())[j] == fields[i]);
        }
    }
}

/// Vendor-prefixed fields (with a `:`) never warn: a record whose fields
/// are each known or so prefixed gives no warnings.
pub proof fn lemma_vendor_prefixed_never_warn(fields: ImportRecordView, kind: JsKindOut)
    requires
        forall|i: int| 0 <= i < fields.len() ==> js_known(kind, #[trigger] fields[i].0) || fields[i].0.contains(':'),
    ensures
        vendor_warnings(fields, kind).len() == 0,
    decreases fields.len(),
{
    if fields.len() > 0 {
        assert forall|i: int| 0 <= i < fields.drop_last().len() implies js_known(
            kind,
            #[trigger] fields.drop_last()[i].0,
        ) || fields.drop_last()[i].0.contains(':') by {
            assert(fields.drop_last()[i] == fields[i]);
        }
        lemma_vendor_prefixed_never_warn(fields.drop_last(), kind);
        assert(js_known(kind, fields[fields.len() - 1].0) || fields[fields.len() - 1].0.contains(':'));
    }
}

// ── Reading back what was imported ─────────────────────────────

proof fn lemma_duration_entry_named(name: Seq<char>, o: Option<crate::ical_import::PlainDuration>)
    ensures
        crate::ical_entries::all_named(crate::ical_entries::duration_entry(name, o), name),
{
}

proof fn lemma_js_priority_named(d: crate::jscal_import::JsEntryData)
    ensures
        crate::ical_entries::all_named(crate::jscal_import::priority_entry(d), "priority"@),
{
}

proof fn lemma_shared_tail_names(d: crate::jscal_import::JsEntryData)
    ensures
        forall|i: int|
            0 <= i < crate::jscal_import::shared_tail(d).len() ==> {
                let n = #[trigger] crate::jscal_import::shared_tail(d)[i].0;
                n == "color"@ || n == "locale"@ || n == "privacy"@ || n == "free_busy_status"@
                    || n == "show_without_time"@ || n == "categories"@ || n == "keywords"@
            },
{
    let t = crate::jscal_import::shared_tail(d);
    assert forall|i: int| 0 <= i < t.len() implies {
        let n = #[trigger] t[i].0;
        n == "color"@ || n == "locale"@ || n == "privacy"@ || n == "free_busy_status"@
            || n == "show_without_time"@ || n == "categories"@ || n == "keywords"@
    } by {
        crate::ical_export::lemma_str_entry_named("color"@, d.color);
        crate::ical_export::lemma_str_entry_named("locale"@, d.locale);
        crate::ical_export::lemma_str_entry_named("privacy"@, d.privacy);
        crate::ical_export::lemma_str_entry_named("free_busy_status"@, d.free_busy_status);
        crate::ical_export::lemma_strings_entry_named("categories"@, d.categories);
        crate::ical_export::lemma_strings_entry_named("keywords"@, d.keywords);
    }
}

/// Looking up a field of a record is not changed by inserting vendor
/// properties of other names.
proof fn lemma_vendor_lookup(rec: ImportRecordView, vs: Seq<(String, crate::jscal_import::PlainJson)>, k: Seq<char>)
    requires
        crate::keyed::keys_sorted(rec),
        forall|i: int| 0 <= i < vs.len() ==> (#[trigger] vs[i]).0@ != k,
    ensures
        key_lookup(crate::jscal_import::with_vendor(rec, vs), k) == key_lookup(rec, k),
        crate::keyed::keys_sorted(crate::jscal_import::with_vendor(rec, vs)),
    decreases vs.len(),
{
    if vs.len() > 0 {
        assert forall|i: int| 0 <= i < vs.drop_last().len() implies (#[trigger] vs.drop_last()[i]).0@ != k by {
            assert(vs.drop_last()[i] == vs[i]);
        }
        lemma_vendor_lookup(rec, vs.drop_last(), k);
        let last = vs.last();
        assert(last == vs[vs.len() - 1]);
        let inner = crate::jscal_import::with_vendor(rec, vs.drop_last());
        crate::keyed::lemma_insert_lookup_other(inner, last.0@, crate::jscal_import::json_value(last.1), k);
        crate::keyed::lemma_insert_sorted(inner, last.0@, crate::jscal_import::json_value(last.1));
    }
}

#[verifier::spinoff_prover]
proof fn lemma_js_event_uid_tail(d: crate::jscal_import::JsEntryData)
    ensures
        crate::export_values::last_value(crate::jscal_import::js_event_fields(d), "uid"@) == crate::export_values::last_value(seq![("type"@, ImportView::String("event"@)), ("uid"@, ImportView::String(d.uid@))], "uid"@),
{
    reveal_strlit("type");
    reveal_strlit("uid");
    reveal_strlit("start");
    reveal_strlit("title");
    reveal_strlit("description");
    reveal_strlit("duration");
    reveal_strlit("time_zone");
    reveal_strlit("status");
    reveal_strlit("priority");
    reveal_strlit("color");
    reveal_strlit("locale");
    reveal_strlit("privacy");
    reveal_strlit("free_busy_status");
    reveal_strlit("show_without_time");
    reveal_strlit("categories");
    reveal_strlit("keywords");
    assert("type"@.len() == 4);
    assert("uid"@.len() == 3);
    assert("start"@.len() == 5);
    assert("title"@.len() == 5);
    assert("description"@.len() == 11);
    assert("duration"@.len() == 8);
    assert("time_zone"@.len() == 9);
    assert("status"@.len() == 6);
    assert("priority"@.len() == 8);
    assert("color"@.len() == 5);
    assert("locale"@.len() == 6);
    assert("privacy"@.len() == 7);
    assert("free_busy_status"@.len() == 16);
    assert("show_without_time"@.len() == 17);
    assert("categories"@.len() == 10);
    assert("keywords"@.len() == 8);
    let p0 = seq![("type"@, ImportView::String("event"@)), ("uid"@, ImportView::String(d.uid@))];
    let p1 = p0 + dt_entry("start"@, d.start);
    let p2 = p1 + str_entry("title"@, d.title);
    let p3 = p2 + str_entry("description"@, d.description);
    let p4 = p3 + duration_entry("duration"@, d.duration);
    let p5 = p4 + str_entry("time_zone"@, d.time_zone);
    let p6 = p5 + str_entry("status"@, d.status);
    let p7 = p6 + crate::jscal_import::priority_entry(d);
    let p8 = p7 + crate::jscal_import::shared_tail(d);
    assert(crate::jscal_import::js_event_fields(d) == p8);
    lemma_shared_tail_names(d);
    crate::ical_export::lemma_last_value_past(p7, crate::jscal_import::shared_tail(d), "uid"@);
    lemma_js_priority_named(d);
    crate::ical_export::lemma_last_value_past(p6, crate::jscal_import::priority_entry(d), "uid"@);
    crate::ical_export::lemma_str_entry_named("status"@, d.status);
    crate::ical_export::lemma_last_value_past(p5, str_entry("status"@, d.status), "uid"@);
    crate::ical_export::lemma_str_entry_named("time_zone"@, d.time_zone);
    crate::ical_export::lemma_last_value_past(p4, str_entry("time_zone"@, d.time_zone), "uid"@);
    lemma_duration_entry_named("duration"@, d.duration);
    crate::ical_export::lemma_last_value_past(p3, duration_entry("duration"@, d.duration), "uid"@);
    crate::ical_export::lemma_str_entry_named("description"@, d.description);
    crate::ical_export::lemma_last_value_past(p2, str_entry("description"@, d.description), "uid"@);
    crate::ical_export::lemma_str_entry_named("title"@, d.title);
    crate::ical_export::lemma_last_value_past(p1, str_entry("title"@, d.title), "uid"@);
    crate::ical_export::lemma_dt_entry_named("start"@, d.start);
    crate::ical_export::lemma_last_value_past(p0, dt_entry("start"@, d.start), "uid"@);
}

proof fn lemma_js_event_field_uid(d: crate::jscal_import::JsEntryData)
    ensures
        crate::export_values::last_value(crate::jscal_import::js_event_fields(d), "uid"@) == Some(ImportView::String(d.uid@)),
{
    lemma_js_event_uid_tail(d);
    let p0 = seq![("type"@, ImportView::String("event"@)), ("uid"@, ImportView::String(d.uid@))];
    assert(p0.last() == ("uid"@, ImportView::String(d.uid@)));
    assert(p0.len() > 0);
}

#[verifier::spinoff_prover]
proof fn lemma_js_event_title_tail(d: crate::jscal_import::JsEntryData)
    ensures
        crate::export_values::last_value(crate::jscal_import::js_event_fields(d), "title"@) == crate::export_values::last_value(seq![("type"@, ImportView::String("event"@)), ("uid"@, ImportView::String(d.uid@))] + dt_entry("start"@, d.start) + str_entry("title"@, d.title), "title"@),
{
    reveal_strlit("type");
    reveal_strlit("uid");
    reveal_strlit("start");
    reveal_strlit("title");
    reveal_strlit("description");
    reveal_strlit("duration");
    reveal_strlit("time_zone");
    reveal_strlit("status");
    reveal_strlit("priority");
    reveal_strlit("color");
    reveal_strlit("locale");
    reveal_strlit("privacy");
    reveal_strlit("free_busy_status");
    reveal_strlit("show_without_time");
    reveal_strlit("categories");
    reveal_strlit("keywords");
    assert("type"@.len() == 4);
    assert("uid"@.len() == 3);
    assert("start"@.len() == 5);
    assert("title"@.len() == 5);
    assert("description"@.len() == 11);
    assert("duration"@.len() == 8);
    assert("time_zone"@.len() == 9);
    assert("status"@.len() == 6);
    assert("priority"@.len() == 8);
    assert("color"@.len() == 5);
    assert("locale"@.len() == 6);
    assert("privacy"@.len() == 7);
    assert("free_busy_status"@.len() == 16);
    assert("show_without_time"@.len() == 17);
    assert("categories"@.len() == 10);
    assert("keywords"@.len() == 8);
    assert("start"@[0] == 's' && "title"@[0] == 't');
    assert("color"@[0] == 'c' && "title"@[0] == 't');
    let p0 = seq![("type"@, ImportView::String("event"@)), ("uid"@, ImportView::String(d.uid@))];
    let p1 = p0 + dt_entry("start"@, d.start);
    let p2 = p1 + str_entry("title"@, d.title);
    let p3 = p2 + str_entry("description"@, d.description);
    let p4 = p3 + duration_entry("duration"@, d.duration);
    let p5 = p4 + str_entry("time_zone"@, d.time_zone);
    let p6 = p5 + str_entry("status"@, d.status);
    let p7 = p6 + crate::jscal_import::priority_entry(d);
    let p8 = p7 + crate::jscal_import::shared_tail(d);
    assert(crate::jscal_import::js_event_fields(d) == p8);
    lemma_shared_tail_names(d);
    crate::ical_export::lemma_last_value_past(p7, crate::jscal_import::shared_tail(d), "title"@);
    lemma_js_priority_named(d);
    crate::ical_export::lemma_last_value_past(p6, crate::jscal_import::priority_entry(d), "title"@);
    crate::ical_export::lemma_str_entry_named("status"@, d.status);
    crate::ical_export::lemma_last_value_past(p5, str_entry("status"@, d.status), "title"@);
    crate::ical_export::lemma_str_entry_named("time_zone"@, d.time_zone);
    crate::ical_export::lemma_last_value_past(p4, str_entry("time_zone"@, d.time_zone), "title"@);
    lemma_duration_entry_named("duration"@, d.duration);
    crate::ical_export::lemma_last_value_past(p3, duration_entry("duration"@, d.duration), "title"@);
    crate::ical_export::lemma_str_entry_named("description"@, d.description);
    crate::ical_export::lemma_last_value_past(p2, str_entry("description"@, d.description), "title"@);
}

#[verifier::spinoff_prover]
proof fn lemma_js_event_title_head(d: crate::jscal_import::JsEntryData)
    ensures
        crate::export_values::last_value(seq![("type"@, ImportView::String("event"@)), ("uid"@, ImportView::String(d.uid@))] + dt_entry("start"@, d.start), "title"@) is None,
{
    reveal_strlit("type");
    reveal_strlit("uid");
    reveal_strlit("start");
    reveal_strlit("title");
    reveal_strlit("description");
    reveal_strlit("duration");
    reveal_strlit("time_zone");
    reveal_strlit("status");
    reveal_strlit("priority");
    reveal_strlit("color");
    reveal_strlit("locale");
    reveal_strlit("privacy");
    reveal_strlit("free_busy_status");
    reveal_strlit("show_without_time");
    reveal_strlit("categories");
    reveal_strlit("keywords");
    assert("type"@.len() == 4);
    assert("uid"@.len() == 3);
    assert("start"@.len() == 5);
    assert("title"@.len() == 5);
    assert("description"@.len() == 11);
    assert("duration"@.len() == 8);
    assert("time_zone"@.len() == 9);
    assert("status"@.len() == 6);
    assert("priority"@.len() == 8);
    assert("color"@.len() == 5);
    assert("locale"@.len() == 6);
    assert("privacy"@.len() == 7);
    assert("free_busy_status"@.len() == 16);
    assert("show_without_time"@.len() == 17);
    assert("categories"@.len() == 10);
    assert("keywords"@.len() == 8);
    assert("start"@[0] == 's' && "title"@[0] == 't');
    assert("color"@[0] == 'c' && "title"@[0] == 't');
    let p0 = seq![("type"@, ImportView::String("event"@)), ("uid"@, ImportView::String(d.uid@))];
    let p1 = p0 + dt_entry("start"@, d.start);
    crate::ical_export::lemma_dt_entry_named("start"@, d.start);
    crate::ical_export::lemma_last_value_past(p0, dt_entry("start"@, d.start), "title"@);
    assert(p0[1].0 != "title"@ && p0[0].0 != "title"@);
    assert(p0.drop_last().drop_last() =~= Seq::<(Seq<char>, ImportView)>::empty());
    assert(crate::export_values::last_value(p0.drop_last().drop_last(), "title"@) is None);
    assert(crate::export_values::last_value(p0.drop_last(), "title"@) is None);
    assert(crate::export_values::last_value(p0, "title"@) is None);
}

proof fn lemma_js_event_field_title(d: crate::jscal_import::JsEntryData)
    ensures
        crate::ical_export::text_of_opt(crate::export_values::last_value(crate::jscal_import::js_event_fields(d), "title"@)) == opt_text(d.title),
{
    lemma_js_event_title_tail(d);
    lemma_js_event_title_head(d);
    crate::ical_export::lemma_last_value_str(seq![("type"@, ImportView::String("event"@)), ("uid"@, ImportView::String(d.uid@))] + dt_entry("start"@, d.start), "title"@, d.title);
}

#[verifier::spinoff_prover]
proof fn lemma_js_event_description_tail(d: crate::jscal_import::JsEntryData)
    ensures
        crate::export_values::last_value(crate::jscal_import::js_event_fields(d), "description"@) == crate::export_values::last_value(seq![("type"@, ImportView::String("event"@)), ("uid"@, ImportView::String(d.uid@))] + dt_entry("start"@, d.start) + str_entry("title"@, d.title) + str_entry("description"@, d.description), "description"@),
{
    reveal_strlit("type");
    reveal_strlit("uid");
    reveal_strlit("start");
    reveal_strlit("title");
    reveal_strlit("description");
    reveal_strlit("duration");
    reveal_strlit("time_zone");
    reveal_strlit("status");
    reveal_strlit("priority");
    reveal_strlit("color");
    reveal_strlit("locale");
    reveal_strlit("privacy");
    reveal_strlit("free_busy_status");
    reveal_strlit("show_without_time");
    reveal_strlit("categories");
    reveal_strlit("keywords");
    assert("type"@.len() == 4);
    assert("uid"@.len() == 3);
    assert("start"@.len() == 5);
    assert("title"@.len() == 5);
    assert("description"@.len() == 11);
    assert("duration"@.len() == 8);
    assert("time_zone"@.len() == 9);
    assert("status"@.len() == 6);
    assert("priority"@.len() == 8);
    assert("color"@.len() == 5);
    assert("locale"@.len() == 6);
    assert("privacy"@.len() == 7);
    assert("free_busy_status"@.len() == 16);
    assert("show_without_time"@.len() == 17);
    assert("categories"@.len() == 10);
    assert("keywords"@.len() == 8);
    let p0 = seq![("type"@, ImportView::String("event"@)), ("uid"@, ImportView::String(d.uid@))];
    let p1 = p0 + dt_entry("start"@, d.start);
    let p2 = p1 + str_entry("title"@, d.title);
    let p3 = p2 + str_entry("description"@, d.description);
    let p4 = p3 + duration_entry("duration"@, d.duration);
    let p5 = p4 + str_entry("time_zone"@, d.time_zone);
    let p6 = p5 + str_entry("status"@, d.status);
    let p7 = p6 + crate::jscal_import::priority_entry(d);
    let p8 = p7 + crate::jscal_import::shared_tail(d);
    assert(crate::jscal_import::js_event_fields(d) == p8);
    lemma_shared_tail_names(d);
    crate::ical_export::lemma_last_value_past(p7, crate::jscal_import::shared_tail(d), "description"@);
    lemma_js_priority_named(d);
    crate::ical_export::lemma_last_value_past(p6, crate::jscal_import::priority_entry(d), "description"@);
    crate::ical_export::lemma_str_entry_named("status"@, d.status);
    crate::ical_export::lemma_last_value_past(p5, str_entry("status"@, d.status), "description"@);
    crate::ical_export::lemma_str_entry_named("time_zone"@, d.time_zone);
    crate::ical_export::lemma_last_value_past(p4, str_entry("time_zone"@, d.time_zone), "description"@);
    lemma_duration_entry_named("duration"@, d.duration);
    crate::ical_export::lemma_last_value_past(p3, duration_entry("duration"@, d.duration), "description"@);
}

#[verifier::spinoff_prover]
proof fn lemma_js_event_description_head(d: crate::jscal_import::JsEntryData)
    ensures
        crate::export_values::last_value(seq![("type"@, ImportView::String("event"@)), ("uid"@, ImportView::String(d.uid@))] + dt_entry("start"@, d.start) + str_entry("title"@, d.title), "description"@) is None,
{
    reveal_strlit("type");
    reveal_strlit("uid");
    reveal_strlit("start");
    reveal_strlit("title");
    reveal_strlit("description");
    reveal_strlit("duration");
    reveal_strlit("time_zone");
    reveal_strlit("status");
    reveal_strlit("priority");
    reveal_strlit("color");
    reveal_strlit("locale");
    reveal_strlit("privacy");
    reveal_strlit("free_busy_status");
    reveal_strlit("show_without_time");
    reveal_strlit("categories");
    reveal_strlit("keywords");
    assert("type"@.len() == 4);
    assert("uid"@.len() == 3);
    assert("start"@.len() == 5);
    assert("title"@.len() == 5);
    assert("description"@.len() == 11);
    assert("duration"@.len() == 8);
    assert("time_zone"@.len() == 9);
    assert("status"@.len() == 6);
    assert("priority"@.len() == 8);
    assert("color"@.len() == 5);
    assert("locale"@.len() == 6);
    assert("privacy"@.len() == 7);
    assert("free_busy_status"@.len() == 16);
    assert("show_without_time"@.len() == 17);
    assert("categories"@.len() == 10);
    assert("keywords"@.len() == 8);
    let p0 = seq![("type"@, ImportView::String("event"@)), ("uid"@, ImportView::String(d.uid@))];
    let p1 = p0 + dt_entry("start"@, d.start);
    let p2 = p1 + str_entry("title"@, d.title);
    crate::ical_export::lemma_str_entry_named("title"@, d.title);
    crate::ical_export::lemma_last_value_past(p1, str_entry("title"@, d.title), "description"@);
    crate::ical_export::lemma_dt_entry_named("start"@, d.start);
    crate::ical_export::lemma_last_value_past(p0, dt_entry("start"@, d.start), "description"@);
    assert(p0[1].0 != "description"@ && p0[0].0 != "description"@);
    assert(p0.drop_last().drop_last() =~= Seq::<(Seq<char>, ImportView)>::empty());
    assert(crate::export_values::last_value(p0.drop_last().drop_last(), "description"@) is None);
    assert(crate::export_values::last_value(p0.drop_last(), "description"@) is None);
    assert(crate::export_values::last_value(p0, "description"@) is None);
}

proof fn lemma_js_event_field_description(d: crate::jscal_import::JsEntryData)
    ensures
        crate::ical_export::text_of_opt(crate::export_values::last_value(crate::jscal_import::js_event_fields(d), "description"@)) == opt_text(d.description),
{
    lemma_js_event_description_tail(d);
    lemma_js_event_description_head(d);
    crate::ical_export::lemma_last_value_str(seq![("type"@, ImportView::String("event"@)), ("uid"@, ImportView::String(d.uid@))] + dt_entry("start"@, d.start) + str_entry("title"@, d.title), "description"@, d.description);
}

#[verifier::spinoff_prover]
proof fn lemma_js_event_time_zone_tail(d: crate::jscal_import::JsEntryData)
    ensures
        crate::export_values::last_value(crate::jscal_import::js_event_fields(d), "time_zone"@) == crate::export_values::last_value(seq![("type"@, ImportView::String("event"@)), ("uid"@, ImportView::String(d.uid@))] + dt_entry("start"@, d.start) + str_entry("title"@, d.title) + str_entry("description"@, d.description) + duration_entry("duration"@, d.duration) + str_entry("time_zone"@, d.time_zone), "time_zone"@),
{
    reveal_strlit("type");
    reveal_strlit("uid");
    reveal_strlit("start");
    reveal_strlit("title");
    reveal_strlit("description");
    reveal_strlit("duration");
    reveal_strlit("time_zone");
    reveal_strlit("status");
    reveal_strlit("priority");
    reveal_strlit("color");
    reveal_strlit("locale");
    reveal_strlit("privacy");
    reveal_strlit("free_busy_status");
    reveal_strlit("show_without_time");
    reveal_strlit("categories");
    reveal_strlit("keywords");
    assert("type"@.len() == 4);
    assert("uid"@.len() == 3);
    assert("start"@.len() == 5);
    assert("title"@.len() == 5);
    assert("description"@.len() == 11);
    assert("duration"@.len() == 8);
    assert("time_zone"@.len() == 9);
    assert("status"@.len() == 6);
    assert("priority"@.len() == 8);
    assert("color"@.len() == 5);
    assert("locale"@.len() == 6);
    assert("privacy"@.len() == 7);
    assert("free_busy_status"@.len() == 16);
    assert("show_without_time"@.len() == 17);
    assert("categories"@.len() == 10);
    assert("keywords"@.len() == 8);
    let p0 = seq![("type"@, ImportView::String("event"@)), ("uid"@, ImportView::String(d.uid@))];
    let p1 = p0 + dt_entry("start"@, d.start);
    let p2 = p1 + str_entry("title"@, d.title);
    let p3 = p2 + str_entry("description"@, d.description);
    let p4 = p3 + duration_entry("duration"@, d.duration);
    let p5 = p4 + str_entry("time_zone"@, d.time_zone);
    let p6 = p5 + str_entry("status"@, d.status);
    let p7 = p6 + crate::jscal_import::priority_entry(d);
    let p8 = p7 + crate::jscal_import::shared_tail(d);
    assert(crate::jscal_import::js_event_fields(d) == p8);
    lemma_shared_tail_names(d);
    crate::ical_export::lemma_last_value_past(p7, crate::jscal_import::shared_tail(d), "time_zone"@);
    lemma_js_priority_named(d);
    crate::ical_export::lemma_last_value_past(p6, crate::jscal_import::priority_entry(d), "time_zone"@);
    crate::ical_export::lemma_str_entry_named("status"@, d.status);
    crate::ical_export::lemma_last_value_past(p5, str_entry("status"@, d.status), "time_zone"@);
}

#[verifier::spinoff_prover]
proof fn lemma_js_event_time_zone_head(d: crate::jscal_import::JsEntryData)
    ensures
        crate::export_values::last_value(seq![("type"@, ImportView::String("event"@)), ("uid"@, ImportView::String(d.uid@))] + dt_entry("start"@, d.start) + str_entry("title"@, d.title) + str_entry("description"@, d.description) + duration_entry("duration"@, d.duration), "time_zone"@) is None,
{
    reveal_strlit("type");
    reveal_strlit("uid");
    reveal_strlit("start");
    reveal_strlit("title");
    reveal_strlit("description");
    reveal_strlit("duration");
    reveal_strlit("time_zone");
    reveal_strlit("status");
    reveal_strlit("priority");
    reveal_strlit("color");
    reveal_strlit("locale");
    reveal_strlit("privacy");
    reveal_strlit("free_busy_status");
    reveal_strlit("show_without_time");
    reveal_strlit("categories");
    reveal_strlit("keywords");
    assert("type"@.len() == 4);
    assert("uid"@.len() == 3);
    assert("start"@.len() == 5);
    assert("title"@.len() == 5);
    assert("description"@.len() == 11);
    assert("duration"@.len() == 8);
    assert("time_zone"@.len() == 9);
    assert("status"@.len() == 6);
    assert("priority"@.len() == 8);
    assert("color"@.len() == 5);
    assert("locale"@.len() == 6);
    assert("privacy"@.len() == 7);
    assert("free_busy_status"@.len() == 16);
    assert("show_without_time"@.len() == 17);
    assert("categories"@.len() == 10);
    assert("keywords"@.len() == 8);
    let p0 = seq![("type"@, ImportView::String("event"@)), ("uid"@, ImportView::String(d.uid@))];
    let p1 = p0 + dt_entry("start"@, d.start);
    let p2 = p1 + str_entry("title"@, d.title);
    let p3 = p2 + str_entry("description"@, d.description);
    let p4 = p3 + duration_entry("duration"@, d.duration);
    lemma_duration_entry_named("duration"@, d.duration);
    crate::ical_export::lemma_last_value_past(p3, duration_entry("duration"@, d.duration), "time_zone"@);
    crate::ical_export::lemma_str_entry_named("description"@, d.description);
    crate::ical_export::lemma_last_value_past(p2, str_entry("description"@, d.description), "time_zone"@);
    crate::ical_export::lemma_str_entry_named("title"@, d.title);
    crate::ical_export::lemma_last_value_past(p1, str_entry("title"@, d.title), "time_zone"@);
    crate::ical_export::lemma_dt_entry_named("start"@, d.start);
    crate::ical_export::lemma_last_value_past(p0, dt_entry("start"@, d.start), "time_zone"@);
    assert(p0[1].0 != "time_zone"@ && p0[0].0 != "time_zone"@);
    assert(p0.drop_last().drop_last() =~= Seq::<(Seq<char>, ImportView)>::empty());
    assert(crate::export_values::last_value(p0.drop_last().drop_last(), "time_zone"@) is None);
    assert(crate::export_values::last_value(p0.drop_last(), "time_zone"@) is None);
    assert(crate::export_values::last_value(p0, "time_zone"@) is None);
}

proof fn lemma_js_event_field_time_zone(d: crate::jscal_import::JsEntryData)
    ensures
        crate::ical_export::text_of_opt(crate::export_values::last_value(crate::jscal_import::js_event_fields(d), "time_zone"@)) == opt_text(d.time_zone),
{
    lemma_js_event_time_zone_tail(d);
    lemma_js_event_time_zone_head(d);
    crate::ical_export::lemma_last_value_str(seq![("type"@, ImportView::String("event"@)), ("uid"@, ImportView::String(d.uid@))] + dt_entry("start"@, d.start) + str_entry("title"@, d.title) + str_entry("description"@, d.description) + duration_entry("duration"@, d.duration), "time_zone"@, d.time_zone);
}


/// Reading a JSCalendar event into a record and building the event to
/// write from that record gives back its identifier, title, description and
/// time zone (where no vendor property of it takes one of those names).
pub proof fn lemma_js_event_round_trip(d: crate::jscal_import::JsEntryData, c: JsEntryOut)
    requires
        event_js(c, crate::jscal_import::js_entry_record(crate::jscal_import::JsKind::Event, d)),
        forall|i: int|
            0 <= i < d.vendor@.len() ==> {
                let n = (#[trigger] d.vendor@[i]).0@;
                n != "uid"@ && n != "title"@ && n != "description"@ && n != "time_zone"@
            },
    ensures
        c.uid@ == d.uid@,
        opt_text(c.title) == opt_text(d.title),
        opt_text(c.description) == opt_text(d.description),
        opt_text(c.time_zone) == opt_text(d.time_zone),
{
    let fields = crate::jscal_import::js_event_fields(d);
    crate::import_value::lemma_import_record_of_sorted(fields);
    let keys = seq!["uid"@, "title"@, "description"@, "time_zone"@];
    assert forall|j: int| 0 <= j < 4 implies key_lookup(
        crate::jscal_import::js_entry_record(crate::jscal_import::JsKind::Event, d),
        #[trigger] keys[j],
    ) == crate::export_values::last_value(fields, keys[j]) by {
        lemma_vendor_lookup(crate::import_value::import_record_of(fields), d.vendor@, keys[j]);
        crate::export_values::lemma_import_record_lookup(fields, keys[j]);
    }
    assert(keys[0] == "uid"@ && keys[1] == "title"@ && keys[2] == "description"@ && keys[3] == "time_zone"@);
    lemma_js_event_field_uid(d);
    lemma_js_event_field_title(d);
    lemma_js_event_field_description(d);
    lemma_js_event_field_time_zone(d);
}

// ── Weekday names in JSCalendar export ─────────────────────────

/// An ASCII letter in upper case; other characters as they are.
pub open spec fn ascii_upper(c: char) -> char {
    if 'a' <= c && c <= 'z' {
        ((c as u32) - 32) as char
    } else {
        c
    }
}

/// The two-letter code of a weekday name: its first two letters in upper
/// case.
pub open spec fn day_code(name: Seq<char>) -> Seq<char> {
    seq![ascii_upper(name[0]), ascii_upper(name[1])]
}

proof fn lemma_day_codes()
    ensures
        "MO"@ == seq!['M', 'O'],
        "TU"@ == seq!['T', 'U'],
        "WE"@ == seq!['W', 'E'],
        "TH"@ == seq!['T', 'H'],
        "FR"@ == seq!['F', 'R'],
        "SA"@ == seq!['S', 'A'],
        "SU"@ == seq!['S', 'U'],
{
    reveal_strlit("MO");
    reveal_strlit("TU");
    reveal_strlit("WE");
    reveal_strlit("TH");
    reveal_strlit("FR");
    reveal_strlit("SA");
    reveal_strlit("SU");
    assert("MO"@ =~= seq!['M', 'O']);
    assert("TU"@ =~= seq!['T', 'U']);
    assert("WE"@ =~= seq!['W', 'E']);
    assert("TH"@ =~= seq!['T', 'H']);
    assert("FR"@ =~= seq!['F', 'R']);
    assert("SA"@ =~= seq!['S', 'A']);
    assert("SU"@ =~= seq!['S', 'U']);
}

/// JSCalendar export reads a lowercase weekday name as iCalendar export
/// reads it.
pub proof fn lemma_js_weekday_agrees(s: Seq<char>)
    ensures
        weekday_of(s) is Some ==> js_weekday_of(s) == weekday_of(s),
{
    crate::export_values::lemma_weekday_names_distinct();
    lemma_day_codes();
}

/// JSCalendar export reads each weekday's name, and the two-letter code
/// made of its first two letters in upper case, as that weekday.
pub proof fn lemma_js_weekday_reads_names(w: IcalWeekday)
    ensures
        js_weekday_of(crate::ical_import::weekday_text(w)) == Some(w),
        js_weekday_of(day_code(crate::ical_import::weekday_text(w))) == Some(w),
{
    crate::export_values::lemma_weekday_names_distinct();
    lemma_day_codes();
    let t = crate::ical_import::weekday_text(w);
    assert(ascii_upper('m') == 'M' && ascii_upper('o') == 'O' && ascii_upper('t') == 'T');
    assert(ascii_upper('u') == 'U' && ascii_upper('w') == 'W' && ascii_upper('e') == 'E');
    assert(ascii_upper('h') == 'H' && ascii_upper('f') == 'F' && ascii_upper('r') == 'R');
    assert(ascii_upper('s') == 'S' && ascii_upper('a') == 'A');
    lemma_js_weekday_agrees(t);
    crate::ical_import::lemma_weekday_text_reads_back(w);
    reveal_strlit("wednesday");
    reveal_strlit("friday");
    reveal_strlit("monday");
    assert(day_code(t) =~= seq![ascii_upper(t[0]), ascii_upper(t[1])]);
}

} // verus!
