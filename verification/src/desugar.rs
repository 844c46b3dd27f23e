//! Desugaring of date, time, datetime, duration and `every` literals into records.
use vstd::prelude::*;

use crate::interned::FieldName;
use crate::keyed::{key_insert, keys_sorted, lemma_insert_sorted};
use crate::literals::{
    parse_date_components, parse_duration_components, parse_time_components, spec_parse_date,
    spec_parse_duration, spec_parse_time, DurationParts,
};
use crate::text::{find_from, from_chars, parse_u64, spec_parse_u64, spec_split_once, to_chars};
use crate::types::{Blame, BlameView, Blamed, Record, RecordView, Value, ValueView};

verus! {

broadcast use {crate::types::lemma_value_view_unfold, crate::import_value::lemma_import_view_unfold};

/// A string with the same characters as a string slice.
pub fn owned(s: &str) -> (r: String)
    ensures
        r@ == s@,
{
    s.to_owned()
}

/// The record built by inserting each `(name, value)` in turn, every field
/// carrying the blame `b`.
pub open spec fn record_of(fields: Seq<(Seq<char>, ValueView)>, b: BlameView) -> RecordView
    decreases fields.len(),
{
    if fields.len() == 0 {
        Seq::empty()
    } else {
        key_insert(
            record_of(fields.drop_last(), b),
            fields.last().0,
            (fields.last().1, b),
        )
    }
}

pub proof fn lemma_record_of_sorted(fields: Seq<(Seq<char>, ValueView)>, b: BlameView)
    ensures
        keys_sorted(record_of(fields, b)),
    decreases fields.len(),
{
    if fields.len() > 0 {
        lemma_record_of_sorted(fields.drop_last(), b);
        lemma_insert_sorted(record_of(fields.drop_last(), b), fields.last().0, (fields.last().1, b));
    }
}

pub open spec fn fields_view(fields: Seq<(&str, Value)>) -> Seq<(Seq<char>, ValueView)> {
    Seq::new(fields.len(), |i: int| (fields[i].0@, fields[i].1@))
}

/// Builds a record from `(field name, value)` pairs, every field blamed on `blame`.
pub fn make_record(fields: Vec<(&str, Value)>, blame: &Blame) -> (r: Record)
    ensures
        r@ == record_of(fields_view(fields@), blame@),
        keys_sorted(r@),
{
    let ghost fv = fields_view(fields@);
    let mut record = Record::new();
    let n = fields.len();
    let mut i: usize = 0;
    proof {
        assert(fv.take(0) =~= Seq::<(Seq<char>, ValueView)>::empty());
    }
    let mut pending = reverse(fields);
    while pending.len() > 0
        invariant
            i + pending@.len() == n,
            n == fv.len(),
            record@ == record_of(fv.take(i as int), blame@),
            forall|j: int|
                0 <= j < pending@.len() ==> (#[trigger] pending@[j]).0@ == fv[n - 1 - j].0
                    && pending@[j].1@ == fv[n - 1 - j].1,
        decreases pending@.len(),
    {
        let (name, value) = pending.pop().unwrap();
        let ghost entry = (name@, value@);
        assert(entry == fv[i as int]);
        assert(fv.take(i + 1).drop_last() == fv.take(i as int));
        record.insert(FieldName::new(owned(name)), Blamed { value, blame: blame.clone() });
        i = i + 1;
    }
    assert(fv.take(n as int) == fv);
    proof {
        lemma_record_of_sorted(fv, blame@);
    }
    record
}

fn reverse<T>(v: Vec<T>) -> (r: Vec<T>)
    ensures
        r@.len() == v@.len(),
        forall|j: int| 0 <= j < v@.len() ==> #[trigger] r@[j] == v@[v@.len() - 1 - j],
{
    let mut v = v;
    let mut r: Vec<T> = Vec::new();
    let ghost orig = v@;
    while v.len() > 0
        invariant
            r@.len() + v@.len() == orig.len(),
            v@ == orig.take(v@.len() as int),
            forall|j: int| 0 <= j < r@.len() ==> #[trigger] r@[j] == orig[orig.len() - 1 - j],
        decreases v@.len(),
    {
        let x = v.pop().unwrap();
        r.push(x);
        assert(v@ == orig.take(v@.len() as int));
    }
    r
}

// ── Literal desugaring ─────────────────────────────────────────

/// The record a date literal desugars to.
pub open spec fn spec_date_record(y: u64, m: u64, d: u64, b: BlameView) -> ValueView {
    ValueView::Record(
        record_of(
            seq![
                ("year"@, ValueView::Integer(y)),
                ("month"@, ValueView::Integer(m)),
                ("day"@, ValueView::Integer(d)),
            ],
            b,
        ),
    )
}

/// What a date literal (`YYYY-MM-DD`) desugars to.
pub open spec fn spec_desugar_date(s: Seq<char>, b: BlameView) -> Option<ValueView> {
    match spec_parse_date(s) {
        Some((y, m, d)) => Some(spec_date_record(y, m, d, b)),
        None => None,
    }
}

/// Desugars a date literal (`YYYY-MM-DD`) into `{ year, month, day }`.
pub fn desugar_date(text: &str, blame: &Blame) -> (r: Option<Value>)
    ensures
        match r {
            Some(v) => spec_desugar_date(text@, blame@) == Some(v@),
            None => spec_desugar_date(text@, blame@) is None,
        },
{
    let (year, month, day) = match parse_date_components(text) {
        Some(p) => p,
        None => return None,
    };
    let mut fields: Vec<(&str, Value)> = Vec::new();
    fields.push(("year", Value::Integer(year)));
    fields.push(("month", Value::Integer(month)));
    fields.push(("day", Value::Integer(day)));
    let ghost fv = fields_view(fields@);
    assert(fv =~= seq![
        ("year"@, ValueView::Integer(year)),
        ("month"@, ValueView::Integer(month)),
        ("day"@, ValueView::Integer(day)),
    ]);
    let r = make_record(fields, blame);
    Some(Value::Record(r))
}

/// What a month-day literal (`MM-DD`) desugars to.
pub open spec fn spec_desugar_month_day(s: Seq<char>, b: BlameView) -> Option<ValueView> {
    match spec_split_once(s, '-') {
        None => None,
        Some((m, d)) => match (spec_parse_u64(m), spec_parse_u64(d)) {
            (Some(m), Some(d)) => Some(
                ValueView::Record(
                    record_of(
                        seq![("month"@, ValueView::Integer(m)), ("day"@, ValueView::Integer(d))],
                        b,
                    ),
                ),
            ),
            _ => None,
        },
    }
}

/// Splits a month-day text at its first `-` into `(month, day)`.
fn parse_month_day(text: &str) -> (r: Option<(u64, u64)>)
    ensures
        r == (match spec_split_once(text@, '-') {
            None => None,
            Some((m, d)) => match (spec_parse_u64(m), spec_parse_u64(d)) {
                (Some(m), Some(d)) => Some((m, d)),
                _ => None,
            },
        }),
{
    let cs = to_chars(text);
    let n = cs.len();
    assert(cs@.subrange(0, n as int) == cs@);
    let i = match find_from(&cs, '-', 0, n) {
        Some(i) => i,
        None => return None,
    };
    assert(cs@.take(i as int) == cs@.subrange(0, i as int));
    assert(cs@.skip(i + 1) == cs@.subrange(i + 1, n as int));
    let month = match parse_u64(&cs, 0, i) {
        Some(v) => v,
        None => return None,
    };
    let day = match parse_u64(&cs, i + 1, n) {
        Some(v) => v,
        None => return None,
    };
    Some((month, day))
}

/// Desugars a month-day literal (`MM-DD`) into `{ month, day }`.
pub fn desugar_month_day(text: &str, blame: &Blame) -> (r: Option<Value>)
    ensures
        match r {
            Some(v) => spec_desugar_month_day(text@, blame@) == Some(v@),
            None => spec_desugar_month_day(text@, blame@) is None,
        },
{
    let (month, day) = match parse_month_day(text) {
        Some(p) => p,
        None => return None,
    };
    let mut fields: Vec<(&str, Value)> = Vec::new();
    fields.push(("month", Value::Integer(month)));
    fields.push(("day", Value::Integer(day)));
    let ghost fv = fields_view(fields@);
    assert(fv =~= seq![("month"@, ValueView::Integer(month)), ("day"@, ValueView::Integer(day))]);
    let r = make_record(fields, blame);
    Some(Value::Record(r))
}

/// The record a time literal desugars to.
pub open spec fn spec_time_record(h: u64, m: u64, s: u64, b: BlameView) -> ValueView {
    ValueView::Record(
        record_of(
            seq![
                ("hour"@, ValueView::Integer(h)),
                ("minute"@, ValueView::Integer(m)),
                ("second"@, ValueView::Integer(s)),
            ],
            b,
        ),
    )
}

/// What a time literal (`HH:MM` or `HH:MM:SS`) desugars to.
pub open spec fn spec_desugar_time(s: Seq<char>, b: BlameView) -> Option<ValueView> {
    match spec_parse_time(s) {
        Some((h, m, sec)) => Some(spec_time_record(h, m, sec, b)),
        None => None,
    }
}

/// Desugars a time literal (`HH:MM` or `HH:MM:SS`) into `{ hour, minute, second }`.
pub fn desugar_time(text: &str, blame: &Blame) -> (r: Option<Value>)
    ensures
        match r {
            Some(v) => spec_desugar_time(text@, blame@) == Some(v@),
            None => spec_desugar_time(text@, blame@) is None,
        },
{
    let (hour, minute, second) = match parse_time_components(text) {
        Some(p) => p,
        None => return None,
    };
    let mut fields: Vec<(&str, Value)> = Vec::new();
    fields.push(("hour", Value::Integer(hour)));
    fields.push(("minute", Value::Integer(minute)));
    fields.push(("second", Value::Integer(second)));
    let ghost fv = fields_view(fields@);
    assert(fv =~= seq![
        ("hour"@, ValueView::Integer(hour)),
        ("minute"@, ValueView::Integer(minute)),
        ("second"@, ValueView::Integer(second)),
    ]);
    let r = make_record(fields, blame);
    Some(Value::Record(r))
}

/// What a separate date and time pair desugars to: `{ date: {..}, time: {..} }`.
pub open spec fn spec_desugar_date_and_time(
    date: Seq<char>,
    time: Seq<char>,
    b: BlameView,
) -> Option<ValueView> {
    match (spec_desugar_date(date, b), spec_desugar_time(time, b)) {
        (Some(d), Some(t)) => Some(
            ValueView::Record(record_of(seq![("date"@, d), ("time"@, t)], b)),
        ),
        _ => None,
    }
}

/// What a datetime literal (`YYYY-MM-DDTHH:MM[:SS]`) desugars to.
pub open spec fn spec_desugar_datetime(s: Seq<char>, b: BlameView) -> Option<ValueView> {
    match spec_split_once(s, 'T') {
        Some((d, t)) => spec_desugar_date_and_time(d, t, b),
        None => None,
    }
}

/// A date and a time desugar as the datetime that joins them with `T`,
/// when the date holds no `T`.
pub proof fn lemma_date_and_time_joined(date: Seq<char>, time: Seq<char>, b: BlameView)
    requires
        forall|i: int| 0 <= i < date.len() ==> date[i] != 'T',
    ensures
        spec_desugar_date_and_time(date, time, b) == spec_desugar_datetime(date + seq!['T'] + time, b),
{
    let s = date + seq!['T'] + time;
    crate::text::lemma_find_char_iff(s, 'T', date.len() as int);
    assert(s.take(date.len() as int) =~= date);
    assert(s.skip(date.len() as int + 1) =~= time);
}

/// Desugars a separate date + time pair into `{ date: {..}, time: {..} }`.
pub fn desugar_date_and_time(date_text: &str, time_text: &str, blame: &Blame) -> (r: Option<
    Value,
>)
    ensures
        match r {
            Some(v) => spec_desugar_date_and_time(date_text@, time_text@, blame@) == Some(v@),
            None => spec_desugar_date_and_time(date_text@, time_text@, blame@) is None,
        },
{
    let date_value = match desugar_date(date_text, blame) {
        Some(v) => v,
        None => return None,
    };
    let time_value = match desugar_time(time_text, blame) {
        Some(v) => v,
        None => return None,
    };
    let mut fields: Vec<(&str, Value)> = Vec::new();
    let ghost dv = date_value@;
    let ghost tv = time_value@;
    fields.push(("date", date_value));
    fields.push(("time", time_value));
    let ghost fv = fields_view(fields@);
    assert(fv =~= seq![("date"@, dv), ("time"@, tv)]);
    let r = make_record(fields, blame);
    Some(Value::Record(r))
}

/// Desugars a datetime literal into `{ date: {..}, time: {..} }`.
pub fn desugar_datetime(text: &str, blame: &Blame) -> (r: Option<Value>)
    ensures
        match r {
            Some(v) => spec_desugar_datetime(text@, blame@) == Some(v@),
            None => spec_desugar_datetime(text@, blame@) is None,
        },
{
    let cs = to_chars(text);
    let n = cs.len();
    assert(cs@.subrange(0, n as int) == cs@);
    let i = match find_from(&cs, 'T', 0, n) {
        Some(i) => i,
        None => return None,
    };
    let date_chars = take_range(&cs, 0, i);
    let time_chars = take_range(&cs, i + 1, n);
    assert(cs@.take(i as int) == date_chars@);
    assert(cs@.skip(i + 1) == time_chars@);
    let date_text = from_chars(date_chars.as_slice());
    let time_text = from_chars(time_chars.as_slice());
    desugar_date_and_time(date_text.as_str(), time_text.as_str(), blame)
}

fn take_range(v: &Vec<char>, a: usize, b: usize) -> (r: Vec<char>)
    requires
        a <= b <= v@.len(),
    ensures
        r@ == v@.subrange(a as int, b as int),
{
    let mut r: Vec<char> = Vec::new();
    let mut i: usize = a;
    while i < b
        invariant
            a <= i <= b <= v@.len(),
            r@ == v@.subrange(a as int, i as int),
        decreases b - i,
    {
        r.push(v[i]);
        assert(v@.subrange(a as int, i + 1) == v@.subrange(a as int, i as int).push(v@[i as int]));
        i = i + 1;
    }
    r
}

/// `-(n as i64)`: the negation of `n` read as a two's-complement `i64`.
/// `2^63` reads as `i64::MIN`, whose negation wraps to itself.
pub open spec fn neg_as_i64(n: u64) -> i64 {
    if n < 0x8000_0000_0000_0000 {
        (0 - n) as i64
    } else if n == 0x8000_0000_0000_0000 {
        i64::MIN
    } else {
        (0x1_0000_0000_0000_0000 - n) as i64
    }
}

fn neg_as_i64_exec(n: u64) -> (r: i64)
    ensures
        r == neg_as_i64(n),
{
    if n < 0x8000_0000_0000_0000u64 {
        0 - (n as i64)
    } else if n == 0x8000_0000_0000_0000u64 {
        i64::MIN
    } else {
        (u64::MAX - n + 1) as i64
    }
}

/// The record a duration desugars to: unsigned components when positive,
/// negated signed components when negative.
pub open spec fn spec_duration_record(p: DurationParts, b: BlameView) -> ValueView {
    if p.positive {
        ValueView::Record(
            record_of(
                seq![
                    ("weeks"@, ValueView::Integer(p.weeks)),
                    ("days"@, ValueView::Integer(p.days)),
                    ("hours"@, ValueView::Integer(p.hours)),
                    ("minutes"@, ValueView::Integer(p.minutes)),
                    ("seconds"@, ValueView::Integer(p.seconds)),
                ],
                b,
            ),
        )
    } else {
        ValueView::Record(
            record_of(
                seq![
                    ("weeks"@, ValueView::SignedInteger(neg_as_i64(p.weeks))),
                    ("days"@, ValueView::SignedInteger(neg_as_i64(p.days))),
                    ("hours"@, ValueView::SignedInteger(neg_as_i64(p.hours))),
                    ("minutes"@, ValueView::SignedInteger(neg_as_i64(p.minutes))),
                    ("seconds"@, ValueView::SignedInteger(neg_as_i64(p.seconds))),
                ],
                b,
            ),
        )
    }
}

/// What a duration literal desugars to.
pub open spec fn spec_desugar_duration(s: Seq<char>, b: BlameView) -> Option<ValueView> {
    match spec_parse_duration(s) {
        Some(p) => Some(spec_duration_record(p, b)),
        None => None,
    }
}

/// Desugars a duration literal into `{ weeks, days, hours, minutes, seconds }`.
pub fn desugar_duration(text: &str, blame: &Blame) -> (r: Option<Value>)
    ensures
        match r {
            Some(v) => spec_desugar_duration(text@, blame@) == Some(v@),
            None => spec_desugar_duration(text@, blame@) is None,
        },
{
    let parts = match parse_duration_components(text) {
        Some(p) => p,
        None => return None,
    };
    let mut fields: Vec<(&str, Value)> = Vec::new();
    if parts.positive {
        fields.push(("weeks", Value::Integer(parts.weeks)));
        fields.push(("days", Value::Integer(parts.days)));
        fields.push(("hours", Value::Integer(parts.hours)));
        fields.push(("minutes", Value::Integer(parts.minutes)));
        fields.push(("seconds", Value::Integer(parts.seconds)));
        let ghost fv = fields_view(fields@);
        assert(fv =~= seq![
            ("weeks"@, ValueView::Integer(parts.weeks)),
            ("days"@, ValueView::Integer(parts.days)),
            ("hours"@, ValueView::Integer(parts.hours)),
            ("minutes"@, ValueView::Integer(parts.minutes)),
            ("seconds"@, ValueView::Integer(parts.seconds)),
        ]);
    } else {
        fields.push(("weeks", Value::SignedInteger(neg_as_i64_exec(parts.weeks))));
        fields.push(("days", Value::SignedInteger(neg_as_i64_exec(parts.days))));
        fields.push(("hours", Value::SignedInteger(neg_as_i64_exec(parts.hours))));
        fields.push(("minutes", Value::SignedInteger(neg_as_i64_exec(parts.minutes))));
        fields.push(("seconds", Value::SignedInteger(neg_as_i64_exec(parts.seconds))));
        let ghost fv = fields_view(fields@);
        assert(fv =~= seq![
            ("weeks"@, ValueView::SignedInteger(neg_as_i64(parts.weeks))),
            ("days"@, ValueView::SignedInteger(neg_as_i64(parts.days))),
            ("hours"@, ValueView::SignedInteger(neg_as_i64(parts.hours))),
            ("minutes"@, ValueView::SignedInteger(neg_as_i64(parts.minutes))),
            ("seconds"@, ValueView::SignedInteger(neg_as_i64(parts.seconds))),
        ]);
    }
    let r = make_record(fields, blame);
    Some(Value::Record(r))
}

// ── Days of the year ───────────────────────────────────────────

/// Days in the months before `month` (1-based) of a non-leap year.
pub open spec fn days_before(month: u64) -> nat {
    if month == 1 {
        0
    } else if month == 2 {
        31
    } else if month == 3 {
        59
    } else if month == 4 {
        90
    } else if month == 5 {
        120
    } else if month == 6 {
        151
    } else if month == 7 {
        181
    } else if month == 8 {
        212
    } else if month == 9 {
        243
    } else if month == 10 {
        273
    } else if month == 11 {
        304
    } else {
        334
    }
}

/// The day of a non-leap year on which `month`-`day` falls, when `month` is 1..=12.
pub open spec fn spec_year_day(month: u64, day: u64) -> Option<u64> {
    if 1 <= month <= 12 {
        Some((days_before(month) + day) as u64)
    } else {
        None
    }
}

/// Converts a month-day to a day-of-year in a non-leap year; `None` for a
/// month outside 1..=12.
pub fn month_day_to_year_day(month: u64, day: u64) -> (r: Option<u64>)
    requires
        1 <= month <= 12 ==> days_before(month) + day <= u64::MAX,
    ensures
        r == spec_year_day(month, day),
{
    let days: [u64; 12] = [0, 31, 59, 90, 120, 151, 181, 212, 243, 273, 304, 334];
    if month < 1 || month > 12 {
        return None;
    }
    let index = (month - 1) as usize;
    let before = days[index];
    assert(before == days_before(month));
    Some(before + day)
}

// ── `every` expressions ────────────────────────────────────────

/// Token kinds that an `every` expression reads.
#[derive(Debug, Clone, Copy, PartialEq, Eq, Hash)]
pub enum SyntaxKind {
    MondayKw,
    TuesdayKw,
    WednesdayKw,
    ThursdayKw,
    FridayKw,
    SaturdayKw,
    SundayKw,
    /// Any other token kind.
    Other,
}

/// An `every` expression as the parser delivers it: which keywords are
/// present and the text of its literal tokens.
#[derive(Debug, Clone, PartialEq, Eq)]
pub struct EveryExpr {
    pub day_kw: bool,
    pub year_kw: bool,
    /// The `MM-DD` token after `every year on`.
    pub month_day: Option<String>,
    /// The weekday keyword after `every`.
    pub weekday: Option<SyntaxKind>,
    pub until_kw: bool,
    pub until_datetime: Option<String>,
    pub until_date: Option<String>,
    pub until_count: Option<String>,
}

/// The canonical name of a weekday keyword.
pub open spec fn spec_weekday_name(kind: SyntaxKind) -> Seq<char> {
    match kind {
        SyntaxKind::MondayKw => "monday"@,
        SyntaxKind::TuesdayKw => "tuesday"@,
        SyntaxKind::WednesdayKw => "wednesday"@,
        SyntaxKind::ThursdayKw => "thursday"@,
        SyntaxKind::FridayKw => "friday"@,
        SyntaxKind::SaturdayKw => "saturday"@,
        SyntaxKind::SundayKw => "sunday"@,
        SyntaxKind::Other => "unknown"@,
    }
}

/// Maps a weekday keyword to its canonical name.
fn weekday_to_name(kind: SyntaxKind) -> (s: &'static str)
    ensures
        s@ == spec_weekday_name(kind),
{
    proof {
        reveal_strlit("monday");
        reveal_strlit("tuesday");
        reveal_strlit("wednesday");
        reveal_strlit("thursday");
        reveal_strlit("friday");
        reveal_strlit("saturday");
        reveal_strlit("sunday");
        reveal_strlit("unknown");
    }
    match kind {
        SyntaxKind::MondayKw => "monday",
        SyntaxKind::TuesdayKw => "tuesday",
        SyntaxKind::WednesdayKw => "wednesday",
        SyntaxKind::ThursdayKw => "thursday",
        SyntaxKind::FridayKw => "friday",
        SyntaxKind::SaturdayKw => "saturday",
        SyntaxKind::SundayKw => "sunday",
        SyntaxKind::Other => "unknown",
    }
}

/// The month and day of a `MM-DD` token.
pub open spec fn spec_month_day(s: Seq<char>) -> Option<(u64, u64)> {
    match spec_split_once(s, '-') {
        None => None,
        Some((m, d)) => match (spec_parse_u64(m), spec_parse_u64(d)) {
            (Some(m), Some(d)) => Some((m, d)),
            _ => None,
        },
    }
}

/// The frequency fields of an `every` expression, from its subject.
pub open spec fn every_subject_fields(e: EveryExpr, b: BlameView) -> Option<
    Seq<(Seq<char>, ValueView)>,
> {
    if e.day_kw {
        Some(seq![("frequency"@, ValueView::String("daily"@))])
    } else if e.year_kw {
        match e.month_day {
            None => Some(seq![("frequency"@, ValueView::String("yearly"@))]),
            Some(md) => match spec_month_day(md@) {
                None => None,
                Some((m, d)) => match spec_year_day(m, d) {
                    None => None,
                    Some(yd) => Some(
                        seq![
                            ("frequency"@, ValueView::String("yearly"@)),
                            ("by_year_day"@, ValueView::List(seq![(ValueView::Integer(yd), b)])),
                        ],
                    ),
                },
            },
        }
    } else {
        match e.weekday {
            Some(k) => Some(
                seq![
                    ("frequency"@, ValueView::String("weekly"@)),
                    (
                        "by_day"@,
                        ValueView::List(
                            seq![
                                (
                                    ValueView::Record(
                                        record_of(
                                            seq![("day"@, ValueView::String(spec_weekday_name(k)))],
                                            b,
                                        ),
                                    ),
                                    b,
                                ),
                            ],
                        ),
                    ),
                ],
            ),
            None => None,
        }
    }
}

/// The termination value of an `every ... until` expression.
pub open spec fn every_termination(e: EveryExpr, b: BlameView) -> Option<ValueView> {
    match e.until_datetime {
        Some(t) => spec_desugar_datetime(t@, b),
        None => match e.until_date {
            Some(d) => spec_desugar_datetime(d@ + "T00:00:00"@, b),
            None => match e.until_count {
                Some(c) => match spec_parse_u64(c@) {
                    Some(n) => Some(ValueView::Integer(n)),
                    None => None,
                },
                None => Some(ValueView::Undefined),
            },
        },
    }
}

/// The recurrence rule record that an `every` expression desugars to.
pub open spec fn spec_desugar_every(e: EveryExpr, b: BlameView) -> Option<ValueView> {
    match every_subject_fields(e, b) {
        None => None,
        Some(fs) => if e.until_kw {
            match every_termination(e, b) {
                None => None,
                Some(t) => Some(ValueView::Record(record_of(fs.push(("termination"@, t)), b))),
            }
        } else {
            Some(ValueView::Record(record_of(fs, b)))
        },
    }
}

/// A day-of-year sum cannot overflow for a well-formed `every year on MM-DD`.
pub open spec fn every_in_range(e: EveryExpr) -> bool {
    e.year_kw && !e.day_kw && e.month_day is Some ==> match spec_month_day(e.month_day->0@) {
        Some((m, d)) => 1 <= m <= 12 ==> days_before(m) + d <= u64::MAX,
        None => true,
    }
}

/// Desugars an `every` expression into a recurrence rule record.
pub fn desugar_every(every: &EveryExpr, blame: &Blame) -> (r: Option<Value>)
    requires
        every_in_range(*every),
    ensures
        match r {
            Some(v) => spec_desugar_every(*every, blame@) == Some(v@),
            None => spec_desugar_every(*every, blame@) is None,
        },
{
    proof {
        reveal_strlit("daily");
        reveal_strlit("yearly");
        reveal_strlit("weekly");
        reveal_strlit("T00:00:00");
    }
    let mut fields: Vec<(&str, Value)> = Vec::new();
    let ghost subject = every_subject_fields(*every, blame@);
    if every.day_kw {
        fields.push(("frequency", Value::String(owned("daily"))));
        assert(fields_view(fields@) =~= subject->0);
    } else if every.year_kw {
        fields.push(("frequency", Value::String(owned("yearly"))));
        match &every.month_day {
            None => {
                assert(fields_view(fields@) =~= subject->0);
            },
            Some(md) => {
                let (month, day) = match parse_month_day(md.as_str()) {
                    Some(p) => p,
                    None => return None,
                };
                let year_day = match month_day_to_year_day(month, day) {
                    Some(yd) => yd,
                    None => return None,
                };
                let mut items: Vec<Blamed<Value>> = Vec::new();
                items.push(Blamed { value: Value::Integer(year_day), blame: blame.clone() });
                assert(items@[0].value@ == ValueView::Integer(year_day));
                let list = Value::List(items);
                assert(list@->List_0[0] == (ValueView::Integer(year_day), blame@));
                assert(list@->List_0 =~= seq![(ValueView::Integer(year_day), blame@)]);
                fields.push(("by_year_day", list));
                assert(fields_view(fields@) =~= subject->0);
            },
        }
    } else if let Some(kind) = every.weekday {
        fields.push(("frequency", Value::String(owned("weekly"))));
        let day_name = weekday_to_name(kind);
        let mut nday_fields: Vec<(&str, Value)> = Vec::new();
        nday_fields.push(("day", Value::String(owned(day_name))));
        assert(fields_view(nday_fields@) =~= seq![("day"@, ValueView::String(spec_weekday_name(kind)))]);
        let nday_record = make_record(nday_fields, blame);
        let mut items: Vec<Blamed<Value>> = Vec::new();
        items.push(Blamed { value: Value::Record(nday_record), blame: blame.clone() });
        let list = Value::List(items);
        assert(list@->List_0 =~= seq![
            (
                ValueView::Record(
                    record_of(seq![("day"@, ValueView::String(spec_weekday_name(kind)))], blame@),
                ),
                blame@,
            ),
        ]);
        fields.push(("by_day", list));
        assert(fields_view(fields@) =~= subject->0);
    } else {
        return None;
    }
    let ghost fs = fields_view(fields@);
    if every.until_kw {
        let termination = if let Some(dt) = &every.until_datetime {
            match desugar_datetime(dt.as_str(), blame) {
                Some(v) => v,
                None => return None,
            }
        } else if let Some(date) = &every.until_date {
            let mut text = to_chars(date.as_str());
            crate::text::push_str(&mut text, "T00:00:00");
            let datetime_text = from_chars(text.as_slice());
            match desugar_datetime(datetime_text.as_str(), blame) {
                Some(v) => v,
                None => return None,
            }
        } else if let Some(count) = &every.until_count {
            match crate::literals::eval_integer(count.as_str()) {
                Some(n) => Value::Integer(n),
                None => return None,
            }
        } else {
            Value::Undefined
        };
        assert(every_termination(*every, blame@) == Some(termination@));
        fields.push(("termination", termination));
        assert(fields_view(fields@) =~= fs.push(("termination"@, termination@)));
    }
    let r = make_record(fields, blame);
    Some(Value::Record(r))
}

// ── What a weekday keyword names ───────────────────────────────

/// The weekday a keyword stands for: the keyword's text without `_kw`.
pub open spec fn keyword_weekday(k: SyntaxKind) -> Option<crate::ical_import::IcalWeekday> {
    match k {
        SyntaxKind::MondayKw => Some(crate::ical_import::IcalWeekday::Monday),
        SyntaxKind::TuesdayKw => Some(crate::ical_import::IcalWeekday::Tuesday),
        SyntaxKind::WednesdayKw => Some(crate::ical_import::IcalWeekday::Wednesday),
        SyntaxKind::ThursdayKw => Some(crate::ical_import::IcalWeekday::Thursday),
        SyntaxKind::FridayKw => Some(crate::ical_import::IcalWeekday::Friday),
        SyntaxKind::SaturdayKw => Some(crate::ical_import::IcalWeekday::Saturday),
        SyntaxKind::SundayKw => Some(crate::ical_import::IcalWeekday::Sunday),
        SyntaxKind::Other => None,
    }
}

/// `every <weekday>` is a weekly rule on the weekday of that keyword: its
/// one `by_day` entry names that weekday, and the name reads back as that
/// weekday both in export and in reading the rule.
pub proof fn lemma_every_weekday_names_its_day(e: EveryExpr, b: BlameView)
    requires
        !e.day_kw,
        !e.year_kw,
        e.weekday matches Some(k) && keyword_weekday(k) is Some,
    ensures
        ({
            let w = keyword_weekday(e.weekday->Some_0)->Some_0;
            let name = crate::ical_import::weekday_text(w);
            &&& every_subject_fields(e, b) == Some(
                seq![
                    ("frequency"@, ValueView::String("weekly"@)),
                    (
                        "by_day"@,
                        ValueView::List(
                            seq![(ValueView::Record(record_of(seq![("day"@, ValueView::String(name))], b)), b)],
                        ),
                    ),
                ],
            )
            &&& crate::export_values::weekday_of(name) == Some(w)
            &&& crate::rrule::spec_parse_weekday(name) == Ok::<crate::rrule::Weekday, Seq<char>>(
                crate::rrule::weekday_named(w),
            )
        }),
{
    let w = keyword_weekday(e.weekday->Some_0)->Some_0;
    crate::ical_import::lemma_weekday_text_reads_back(w);
    crate::rrule::lemma_weekday_names_agree(crate::ical_import::weekday_text(w), w);
}

/// The frequency of an `every` rule, as reading the rule takes it: daily
/// for `every day`, yearly for `every year`, weekly for `every <weekday>`.
pub proof fn lemma_every_frequency(e: EveryExpr, b: BlameView)
    requires
        every_subject_fields(e, b) is Some,
    ensures
        ({
            let first = every_subject_fields(e, b)->Some_0[0];
            &&& first.0 == "frequency"@
            &&& first.1 matches ValueView::String(n) && crate::rrule::spec_parse_frequency(n) == Ok::<
                crate::rrule::Frequency,
                Seq<char>,
            >(
                if e.day_kw {
                    crate::rrule::Frequency::Daily
                } else if e.year_kw {
                    crate::rrule::Frequency::Yearly
                } else {
                    crate::rrule::Frequency::Weekly
                },
            )
        }),
{
    crate::export_values::lemma_freq_names_distinct();
}

} // verus!
