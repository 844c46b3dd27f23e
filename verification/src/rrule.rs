//! Recurrence rule validation for calendar entries.
//!
//! Converts rule records into `RecurrenceRule` values to check that they are
//! well-formed, and checks that every recurring entry has a valid start.
use vstd::prelude::*;

use crate::desugar::owned;
use crate::input::SourceFile;
use crate::keyed::key_lookup;
use crate::queries::{Diagnostic, Severity, TextRange};
use crate::shape::{diags_view, entries_view, error, error_at, push_diag, DiagView};
use crate::text::{
    from_chars, i64_to_dec, push_chars, push_str, spec_int_to_dec, spec_nat_to_dec, str_eq,
    to_chars, u64_to_dec,
};
use crate::types::{lemma_list_view, Blamed, BlameView, Calendar, Record, RecordView, Value, ValueView};

verus! {

broadcast use {crate::types::lemma_value_view_unfold, crate::import_value::lemma_import_view_unfold};

// ── Civil dates and times ──────────────────────────────────────

#[verifier::external_type_specification]
#[verifier::external_body]
pub struct ExCivilDate(jiff::civil::Date);

#[verifier::external_type_specification]
#[verifier::external_body]
pub struct ExCivilTime(jiff::civil::Time);

/// Whether `year` is a leap year of the proleptic Gregorian calendar.
pub open spec fn is_leap_year(year: int) -> bool {
    year % 4 == 0 && (year % 100 != 0 || year % 400 == 0)
}

/// The number of days in a month of a year.
pub open spec fn days_in_month(year: int, month: int) -> int {
    if month == 2 {
        if is_leap_year(year) {
            29
        } else {
            28
        }
    } else if month == 4 || month == 6 || month == 9 || month == 11 {
        30
    } else {
        31
    }
}

/// A date that `jiff::civil::Date::new` accepts.
pub open spec fn valid_civil_date(year: i16, month: i8, day: i8) -> bool {
    &&& -9999 <= year <= 9999
    &&& 1 <= month <= 12
    &&& 1 <= day <= days_in_month(year as int, month as int)
}

/// A time that `jiff::civil::Time::new` accepts.
pub open spec fn valid_civil_time(hour: i8, minute: i8, second: i8, subsec: i32) -> bool {
    &&& 0 <= hour <= 23
    &&& 0 <= minute <= 59
    &&& 0 <= second <= 59
    &&& 0 <= subsec <= 999_999_999
}

/// The text of the error that `jiff::civil::Date::new` gives for these arguments.
pub uninterp spec fn date_error_text(year: i16, month: i8, day: i8) -> Seq<char>;

/// The text of the error that `jiff::civil::Time::new` gives for these arguments.
pub uninterp spec fn time_error_text(hour: i8, minute: i8, second: i8, subsec: i32) -> Seq<char>;

/// Calls `jiff::civil::Date::new`, which (by its documentation) succeeds exactly
/// when the year is in -9999..=9999, the month in 1..=12 and the day at least 1
/// and at most the length of that month; an error is returned as its
/// displayed text, which depends on the arguments alone.
#[verifier::external_body]
fn civil_date_new(year: i16, month: i8, day: i8) -> (r: Result<jiff::civil::Date, String>)
    ensures
        r is Ok <==> valid_civil_date(year, month, day),
        r matches Err(e) ==> e@ == date_error_text(year, month, day),
{
    match jiff::civil::Date::new(year, month, day) {
        Ok(d) => Ok(d),
        Err(e) => Err(e.to_string()),
    }
}

/// Calls `jiff::civil::Time::new`, which (by its documentation) succeeds exactly
/// when hour, minute, second and sub-second nanoseconds are within
/// 0..=23, 0..=59, 0..=59 and 0..=999_999_999; an error is returned as its
/// displayed text, which depends on the arguments alone.
#[verifier::external_body]
fn civil_time_new(hour: i8, minute: i8, second: i8, subsec: i32) -> (r: Result<
    jiff::civil::Time,
    String,
>)
    ensures
        r is Ok <==> valid_civil_time(hour, minute, second, subsec),
        r matches Err(e) ==> e@ == time_error_text(hour, minute, second, subsec),
{
    match jiff::civil::Time::new(hour, minute, second, subsec) {
        Ok(t) => Ok(t),
        Err(e) => Err(e.to_string()),
    }
}

/// A validated civil date and time.
#[derive(Debug, Clone, Copy, PartialEq, Eq)]
pub struct CivilDateTime {
    pub year: i16,
    pub month: i8,
    pub day: i8,
    pub hour: i8,
    pub minute: i8,
    pub second: i8,
}

// ── Rule types ─────────────────────────────────────────────────

#[derive(Debug, Clone, Copy, PartialEq, Eq)]
pub enum Frequency {
    Yearly,
    Monthly,
    Weekly,
    Daily,
    Hourly,
    Minutely,
    Secondly,
}

#[derive(Debug, Clone, Copy, PartialEq, Eq)]
pub enum Weekday {
    Monday,
    Tuesday,
    Wednesday,
    Thursday,
    Friday,
    Saturday,
    Sunday,
}

/// What to do with an occurrence that falls on an invalid date.
#[derive(Debug, Clone, Copy, PartialEq, Eq)]
pub enum Skip {
    Omit,
    Backward,
    Forward,
}

#[derive(Debug, Clone, Copy, PartialEq, Eq)]
pub enum Termination {
    Count(u64),
    Until(CivilDateTime),
    Unbounded,
}

/// A weekday, optionally the n-th of the period.
#[derive(Debug, Clone, Copy, PartialEq, Eq)]
pub struct NDay {
    pub day: Weekday,
    pub nth: Option<i8>,
}

/// A month, optionally the leap month.
#[derive(Debug, Clone, Copy, PartialEq, Eq)]
pub struct ByMonth {
    pub month: u8,
    pub leap: bool,
}

/// A recurrence rule.
#[derive(Debug, Clone, PartialEq, Eq)]
pub struct RecurrenceRule {
    pub frequency: Frequency,
    pub interval: u32,
    pub skip: Skip,
    pub week_start: Weekday,
    pub termination: Termination,
    pub by_day: Vec<NDay>,
    pub by_month_day: Vec<i8>,
    pub by_month: Vec<ByMonth>,
    pub by_year_day: Vec<i16>,
    pub by_week_no: Vec<i8>,
    pub by_hour: Vec<u8>,
    pub by_minute: Vec<u8>,
    pub by_second: Vec<u8>,
    pub by_set_position: Vec<i32>,
}

/// The mathematical form of a recurrence rule; numeric lists as integers.
pub struct RuleView {
    pub frequency: Frequency,
    pub interval: u32,
    pub skip: Skip,
    pub week_start: Weekday,
    pub termination: Termination,
    pub by_day: Seq<NDay>,
    pub by_month_day: Seq<int>,
    pub by_month: Seq<ByMonth>,
    pub by_year_day: Seq<int>,
    pub by_week_no: Seq<int>,
    pub by_hour: Seq<int>,
    pub by_minute: Seq<int>,
    pub by_second: Seq<int>,
    pub by_set_position: Seq<int>,
}

impl View for RecurrenceRule {
    type V = RuleView;

    open spec fn view(&self) -> RuleView {
        RuleView {
            frequency: self.frequency,
            interval: self.interval,
            skip: self.skip,
            week_start: self.week_start,
            termination: self.termination,
            by_day: self.by_day@,
            by_month_day: i8s(self.by_month_day@),
            by_month: self.by_month@,
            by_year_day: i16s(self.by_year_day@),
            by_week_no: i8s(self.by_week_no@),
            by_hour: u8s(self.by_hour@),
            by_minute: u8s(self.by_minute@),
            by_second: u8s(self.by_second@),
            by_set_position: i32s(self.by_set_position@),
        }
    }
}

// ── Field extraction ───────────────────────────────────────────

/// The value of a field of a record view, if present.
pub open spec fn field_of(r: RecordView, name: Seq<char>) -> Option<ValueView> {
    match key_lookup(r, name) {
        Some(e) => Some(e.0),
        None => None,
    }
}

/// `{prefix}{n}` for an unsigned number.
pub open spec fn with_nat(prefix: Seq<char>, n: nat) -> Seq<char> {
    prefix + spec_nat_to_dec(n)
}

/// Reads an unsigned field as a bounded integer, with the messages of a date
/// or time component.
pub open spec fn spec_component(
    r: RecordView,
    name: Seq<char>,
    label: Seq<char>,
    hi: int,
) -> Result<int, Seq<char>> {
    match field_of(r, name) {
        Some(ValueView::Integer(n)) => if n <= hi {
            Ok(n as int)
        } else {
            Err(with_nat(label + " out of range: "@, n as nat))
        },
        _ => Err("missing or invalid '"@ + label + "'"@),
    }
}

/// Year, month and day of a date record.
pub open spec fn spec_date_fields(r: RecordView) -> Result<(i16, i8, i8), Seq<char>> {
    match spec_component(r, "year"@, "date.year"@, 32767) {
        Err(e) => Err(e),
        Ok(y) => match spec_component(r, "month"@, "date.month"@, 127) {
            Err(e) => Err(e),
            Ok(m) => match spec_component(r, "day"@, "date.day"@, 127) {
                Err(e) => Err(e),
                Ok(d) => Ok((y as i16, m as i8, d as i8)),
            },
        },
    }
}

/// Hour, minute and second of a time record.
pub open spec fn spec_time_fields(r: RecordView) -> Result<(i8, i8, i8), Seq<char>> {
    match spec_component(r, "hour"@, "time.hour"@, 127) {
        Err(e) => Err(e),
        Ok(h) => match spec_component(r, "minute"@, "time.minute"@, 127) {
            Err(e) => Err(e),
            Ok(m) => match spec_component(r, "second"@, "time.second"@, 127) {
                Err(e) => Err(e),
                Ok(s) => Ok((h as i8, m as i8, s as i8)),
            },
        },
    }
}

/// A validated date and time from its components.
pub open spec fn spec_civil(
    d: (i16, i8, i8),
    t: (i8, i8, i8),
) -> Result<CivilDateTime, Seq<char>> {
    if !valid_civil_date(d.0, d.1, d.2) {
        Err("invalid date: "@ + date_error_text(d.0, d.1, d.2))
    } else if !valid_civil_time(t.0, t.1, t.2, 0) {
        Err("invalid time: "@ + time_error_text(t.0, t.1, t.2, 0))
    } else {
        Ok(
            CivilDateTime {
                year: d.0,
                month: d.1,
                day: d.2,
                hour: t.0,
                minute: t.1,
                second: t.2,
            },
        )
    }
}

/// A datetime record `{ date: {..}, time: {..} }`, or a date record
/// `{ year, month, day }` at midnight.
pub open spec fn spec_record_to_datetime(r: RecordView) -> Result<CivilDateTime, Seq<char>> {
    match field_of(r, "date"@) {
        Some(ValueView::Record(date_rec)) => match field_of(r, "time"@) {
            Some(ValueView::Record(time_rec)) => match spec_date_fields(date_rec) {
                Err(e) => Err(e),
                Ok(d) => match spec_time_fields(time_rec) {
                    Err(e) => Err(e),
                    Ok(t) => spec_civil(d, t),
                },
            },
            _ => Err("missing or invalid 'time' sub-record"@),
        },
        _ => match spec_date_fields(r) {
            Err(e) => Err(e),
            Ok(d) => spec_civil(d, (0, 0, 0)),
        },
    }
}

/// The record a value is, if it is one.
fn as_record(b: Option<&Blamed<Value>>) -> (r: Option<&Record>)
    ensures
        match r {
            Some(rec) => b matches Some(x) && x.value@ == ValueView::Record(rec@),
            None => !(b matches Some(x) && x.value@ is Record),
        },
{
    match b {
        Some(x) => match &x.value {
            Value::Record(rec) => Some(rec),
            _ => None,
        },
        None => None,
    }
}

fn component(r: &Record, name: &str, label: &str, hi: u64) -> (res: Result<u64, String>)
    ensures
        match res {
            Ok(n) => spec_component(r@, name@, label@, hi as int) == Ok::<int, Seq<char>>(n as int),
            Err(e) => spec_component(r@, name@, label@, hi as int) == Err::<int, Seq<char>>(e@),
        },
{
    match r.get_str(name) {
        Some(b) => match &b.value {
            Value::Integer(n) => {
                if *n <= hi {
                    Ok(*n)
                } else {
                    let mut m = to_chars(label);
                    push_str(&mut m, " out of range: ");
                    push_chars(&mut m, &u64_to_dec(*n));
                    let s = from_chars(m.as_slice());
                    assert(s@ == with_nat(label@ + " out of range: "@, *n as nat));
                    Err(s)
                }
            },
            _ => Err(missing_message(label)),
        },
        None => Err(missing_message(label)),
    }
}

fn missing_message(label: &str) -> (s: String)
    ensures
        s@ == "missing or invalid '"@ + label@ + "'"@,
{
    let mut m = to_chars("missing or invalid '");
    push_str(&mut m, label);
    push_str(&mut m, "'");
    from_chars(m.as_slice())
}

/// Extracts year, month and day from a record.
pub fn extract_date_fields(record: &Record) -> (r: Result<(i16, i8, i8), String>)
    ensures
        match r {
            Ok(d) => spec_date_fields(record@) == Ok::<(i16, i8, i8), Seq<char>>(d),
            Err(e) => spec_date_fields(record@) == Err::<(i16, i8, i8), Seq<char>>(e@),
        },
{
    let y = match component(record, "year", "date.year", 32767) {
        Ok(v) => v,
        Err(e) => return Err(e),
    };
    let m = match component(record, "month", "date.month", 127) {
        Ok(v) => v,
        Err(e) => return Err(e),
    };
    let d = match component(record, "day", "date.day", 127) {
        Ok(v) => v,
        Err(e) => return Err(e),
    };
    Ok((y as i16, m as i8, d as i8))
}

/// Extracts hour, minute and second from a record.
pub fn extract_time_fields(record: &Record) -> (r: Result<(i8, i8, i8), String>)
    ensures
        match r {
            Ok(t) => spec_time_fields(record@) == Ok::<(i8, i8, i8), Seq<char>>(t),
            Err(e) => spec_time_fields(record@) == Err::<(i8, i8, i8), Seq<char>>(e@),
        },
{
    let h = match component(record, "hour", "time.hour", 127) {
        Ok(v) => v,
        Err(e) => return Err(e),
    };
    let m = match component(record, "minute", "time.minute", 127) {
        Ok(v) => v,
        Err(e) => return Err(e),
    };
    let s = match component(record, "second", "time.second", 127) {
        Ok(v) => v,
        Err(e) => return Err(e),
    };
    Ok((h as i8, m as i8, s as i8))
}

fn prefixed(prefix: &str, e: String) -> (s: String)
    ensures
        s@ == prefix@ + e@,
{
    let mut m = to_chars(prefix);
    push_str(&mut m, e.as_str());
    from_chars(m.as_slice())
}

fn civil(d: (i16, i8, i8), t: (i8, i8, i8)) -> (r: Result<CivilDateTime, String>)
    ensures
        match r {
            Ok(c) => spec_civil(d, t) == Ok::<CivilDateTime, Seq<char>>(c),
            Err(e) => spec_civil(d, t) == Err::<CivilDateTime, Seq<char>>(e@),
        },
{
    match civil_date_new(d.0, d.1, d.2) {
        Ok(_) => {},
        Err(e) => return Err(prefixed("invalid date: ", e)),
    }
    match civil_time_new(t.0, t.1, t.2, 0) {
        Ok(_) => {},
        Err(e) => return Err(prefixed("invalid time: ", e)),
    }
    Ok(CivilDateTime { year: d.0, month: d.1, day: d.2, hour: t.0, minute: t.1, second: t.2 })
}

/// Converts a datetime or date record into a civil date and time.
///
/// Accepts `{ date: { year, month, day }, time: { hour, minute, second } }`
/// and `{ year, month, day }` (time 00:00:00).
pub fn record_to_datetime(record: &Record) -> (r: Result<CivilDateTime, String>)
    ensures
        match r {
            Ok(c) => spec_record_to_datetime(record@) == Ok::<CivilDateTime, Seq<char>>(c),
            Err(e) => spec_record_to_datetime(record@) == Err::<CivilDateTime, Seq<char>>(e@),
        },
{
    match as_record(record.get_str("date")) {
        Some(date_rec) => {
            let time_rec = match as_record(record.get_str("time")) {
                Some(t) => t,
                None => {
                    let m = to_chars("missing or invalid 'time' sub-record");
                    return Err(from_chars(m.as_slice()));
                },
            };
            let d = match extract_date_fields(date_rec) {
                Ok(d) => d,
                Err(e) => return Err(e),
            };
            let t = match extract_time_fields(time_rec) {
                Ok(t) => t,
                Err(e) => return Err(e),
            };
            civil(d, t)
        },
        None => {
            let d = match extract_date_fields(record) {
                Ok(d) => d,
                Err(e) => return Err(e),
            };
            civil(d, (0, 0, 0))
        },
    }
}

// ── Rule fields ────────────────────────────────────────────────

/// A result whose error text is taken by its view.
pub open spec fn err_view<T>(r: Result<T, String>) -> Result<T, Seq<char>> {
    match r {
        Ok(x) => Ok(x),
        Err(e) => Err(e@),
    }
}

/// The values of a sequence of results, or the first error among them.
pub open spec fn collect<T>(rs: Seq<Result<T, Seq<char>>>) -> Result<Seq<T>, Seq<char>>
    decreases rs.len(),
{
    if rs.len() == 0 {
        Ok(Seq::empty())
    } else {
        match collect(rs.drop_last()) {
            Err(e) => Err(e),
            Ok(p) => match rs.last() {
                Ok(x) => Ok(p.push(x)),
                Err(e) => Err(e),
            },
        }
    }
}

/// Collecting one more result extends the collected prefix.
pub proof fn lemma_collect_step<T>(rs: Seq<Result<T, Seq<char>>>, i: int)
    requires
        0 <= i < rs.len(),
    ensures
        collect(rs.take(i + 1)) == match collect(rs.take(i)) {
            Err(e) => Err(e),
            Ok(p) => match rs[i] {
                Ok(x) => Ok(p.push(x)),
                Err(e) => Err::<Seq<T>, Seq<char>>(e),
            },
        },
{
    assert(rs.take(i + 1).drop_last() =~= rs.take(i));
}

/// The first error of a prefix is the first error of the whole sequence.
pub proof fn lemma_collect_prefix_err<T>(rs: Seq<Result<T, Seq<char>>>, k: int)
    requires
        0 <= k <= rs.len(),
        collect(rs.take(k)) is Err,
    ensures
        collect(rs) == collect(rs.take(k)),
    decreases rs.len(),
{
    if k == rs.len() {
        assert(rs.take(k) =~= rs);
    } else {
        assert(rs.drop_last().take(k) =~= rs.take(k));
        lemma_collect_prefix_err(rs.drop_last(), k);
    }
}

/// A string made of two parts.
fn join2(a: &str, b: &str) -> (s: String)
    ensures
        s@ == a@ + b@,
{
    let mut m = to_chars(a);
    push_str(&mut m, b);
    from_chars(m.as_slice())
}

/// A string made of three parts.
fn join3(a: &str, b: &str, c: &str) -> (s: String)
    ensures
        s@ == a@ + b@ + c@,
{
    let mut m = to_chars(a);
    push_str(&mut m, b);
    push_str(&mut m, c);
    from_chars(m.as_slice())
}

/// `prefix` followed by a number in decimal.
fn with_number(prefix: &str, digits: Vec<char>) -> (s: String)
    ensures
        s@ == prefix@ + digits@,
{
    let mut m = to_chars(prefix);
    push_chars(&mut m, &digits);
    from_chars(m.as_slice())
}

pub open spec fn spec_parse_frequency(s: Seq<char>) -> Result<Frequency, Seq<char>> {
    if s == "yearly"@ {
        Ok(Frequency::Yearly)
    } else if s == "monthly"@ {
        Ok(Frequency::Monthly)
    } else if s == "weekly"@ {
        Ok(Frequency::Weekly)
    } else if s == "daily"@ {
        Ok(Frequency::Daily)
    } else if s == "hourly"@ {
        Ok(Frequency::Hourly)
    } else if s == "minutely"@ {
        Ok(Frequency::Minutely)
    } else if s == "secondly"@ {
        Ok(Frequency::Secondly)
    } else {
        Err("invalid frequency: \""@ + s + "\""@)
    }
}

/// Parses a frequency name.
pub fn parse_frequency(s: &str) -> (r: Result<Frequency, String>)
    ensures
        err_view(r) == spec_parse_frequency(s@),
{
    if str_eq(s, "yearly") {
        Ok(Frequency::Yearly)
    } else if str_eq(s, "monthly") {
        Ok(Frequency::Monthly)
    } else if str_eq(s, "weekly") {
        Ok(Frequency::Weekly)
    } else if str_eq(s, "daily") {
        Ok(Frequency::Daily)
    } else if str_eq(s, "hourly") {
        Ok(Frequency::Hourly)
    } else if str_eq(s, "minutely") {
        Ok(Frequency::Minutely)
    } else if str_eq(s, "secondly") {
        Ok(Frequency::Secondly)
    } else {
        Err(join3("invalid frequency: \"", s, "\""))
    }
}

pub open spec fn spec_parse_weekday(s: Seq<char>) -> Result<Weekday, Seq<char>> {
    if s == "monday"@ {
        Ok(Weekday::Monday)
    } else if s == "tuesday"@ {
        Ok(Weekday::Tuesday)
    } else if s == "wednesday"@ {
        Ok(Weekday::Wednesday)
    } else if s == "thursday"@ {
        Ok(Weekday::Thursday)
    } else if s == "friday"@ {
        Ok(Weekday::Friday)
    } else if s == "saturday"@ {
        Ok(Weekday::Saturday)
    } else if s == "sunday"@ {
        Ok(Weekday::Sunday)
    } else {
        Err("invalid weekday: \""@ + s + "\""@)
    }
}

/// Parses a weekday name.
pub fn parse_weekday(s: &str) -> (r: Result<Weekday, String>)
    ensures
        err_view(r) == spec_parse_weekday(s@),
{
    if str_eq(s, "monday") {
        Ok(Weekday::Monday)
    } else if str_eq(s, "tuesday") {
        Ok(Weekday::Tuesday)
    } else if str_eq(s, "wednesday") {
        Ok(Weekday::Wednesday)
    } else if str_eq(s, "thursday") {
        Ok(Weekday::Thursday)
    } else if str_eq(s, "friday") {
        Ok(Weekday::Friday)
    } else if str_eq(s, "saturday") {
        Ok(Weekday::Saturday)
    } else if str_eq(s, "sunday") {
        Ok(Weekday::Sunday)
    } else {
        Err(join3("invalid weekday: \"", s, "\""))
    }
}

pub open spec fn spec_parse_skip(s: Seq<char>) -> Result<Skip, Seq<char>> {
    if s == "omit"@ {
        Ok(Skip::Omit)
    } else if s == "backward"@ {
        Ok(Skip::Backward)
    } else if s == "forward"@ {
        Ok(Skip::Forward)
    } else {
        Err("invalid skip strategy: \""@ + s + "\""@)
    }
}

/// Parses a skip strategy name.
pub fn parse_skip(s: &str) -> (r: Result<Skip, String>)
    ensures
        err_view(r) == spec_parse_skip(s@),
{
    if str_eq(s, "omit") {
        Ok(Skip::Omit)
    } else if str_eq(s, "backward") {
        Ok(Skip::Backward)
    } else if str_eq(s, "forward") {
        Ok(Skip::Forward)
    } else {
        Err(join3("invalid skip strategy: \"", s, "\""))
    }
}

/// A signed integer from an unsigned or signed value.
pub open spec fn spec_value_to_signed(v: ValueView) -> Option<int> {
    match v {
        ValueView::Integer(n) => if n <= i64::MAX {
            Some(n as int)
        } else {
            None
        },
        ValueView::SignedInteger(n) => Some(n as int),
        _ => None,
    }
}

/// Reads an unsigned or signed value as a signed integer.
pub fn value_to_signed(v: &Value) -> (r: Option<i64>)
    ensures
        match r {
            Some(n) => spec_value_to_signed(v@) == Some(n as int),
            None => spec_value_to_signed(v@) is None,
        },
{
    match v {
        Value::Integer(n) => if *n <= 0x7fff_ffff_ffff_ffffu64 {
            Some(*n as i64)
        } else {
            None
        },
        Value::SignedInteger(n) => Some(*n),
        _ => None,
    }
}

/// The message for a list field that holds something else.
pub open spec fn expected_list(field: Seq<char>) -> Seq<char> {
    "invalid '"@ + field + "' field: expected list"@
}

/// Reads each item of a list field with `f`, stopping at the first error; an
/// absent field is the empty list.
pub open spec fn spec_list_field<T>(
    r: RecordView,
    field: Seq<char>,
    f: spec_fn(ValueView) -> Result<T, Seq<char>>,
) -> Result<Seq<T>, Seq<char>> {
    match field_of(r, field) {
        Some(ValueView::List(items)) => collect(items.map_values(|it: (ValueView, BlameView)| f(it.0))),
        None => Ok(Seq::empty()),
        _ => Err(expected_list(field)),
    }
}

/// An item of a signed-integer list field.
pub open spec fn signed_item(field: Seq<char>) -> spec_fn(ValueView) -> Result<int, Seq<char>> {
    |v: ValueView|
        match spec_value_to_signed(v) {
            Some(n) => Ok(n),
            None => Err(field + " entry is not an integer"@),
        }
}

/// An item of an unsigned-integer list field.
pub open spec fn unsigned_item(field: Seq<char>) -> spec_fn(ValueView) -> Result<int, Seq<char>> {
    |v: ValueView|
        match v {
            ValueView::Integer(n) => Ok(n as int),
            _ => Err(field + " entry is not an unsigned integer"@),
        }
}

/// The integers of a list of signed or unsigned integers.
pub open spec fn spec_signed_list(r: RecordView, field: Seq<char>) -> Result<Seq<int>, Seq<char>> {
    spec_list_field(r, field, signed_item(field))
}

/// The integers of a list of unsigned integers.
pub open spec fn spec_unsigned_list(r: RecordView, field: Seq<char>) -> Result<Seq<int>, Seq<char>> {
    spec_list_field(r, field, unsigned_item(field))
}

/// A sequence of machine integers as integers.
pub open spec fn signed_ints(v: Seq<i64>) -> Seq<int> {
    v.map_values(|x: i64| x as int)
}

/// A sequence of unsigned machine integers as integers.
pub open spec fn unsigned_ints(v: Seq<u64>) -> Seq<int> {
    v.map_values(|x: u64| x as int)
}

/// The list a value holds, if it is a list.
pub(crate) fn list_items(b: &Blamed<Value>) -> (r: Option<&Vec<Blamed<Value>>>)
    ensures
        match r {
            Some(items) => b.value@ == ValueView::List(b.value@->List_0)
                && b.value@->List_0.len() == items@.len()
                && forall|j: int| 0 <= j < items@.len() ==> #[trigger] b.value@->List_0[j] == (items@[j].value@, items@[j].blame@),
            None => !(b.value@ is List),
        },
{
    match &b.value {
        Value::List(items) => {
            proof {
                lemma_list_view(*items);
            }
            Some(items)
        },
        _ => None,
    }
}

/// Extracts a list of integers from a field, accepting unsigned and signed
/// integers.
pub fn extract_signed_list(record: &Record, field: &str) -> (r: Result<Vec<i64>, String>)
    ensures
        match r {
            Ok(v) => spec_signed_list(record@, field@) == Ok::<Seq<int>, Seq<char>>(
                signed_ints(v@),
            ),
            Err(e) => spec_signed_list(record@, field@) == Err::<Seq<int>, Seq<char>>(e@),
        },
{
    let b = match record.get_str(field) {
        Some(b) => b,
        None => {
            let v: Vec<i64> = Vec::new();
            assert(signed_ints(v@) =~= Seq::<int>::empty());
            return Ok(v);
        },
    };
    let items = match list_items(b) {
        Some(items) => items,
        None => return Err(join3("invalid '", field, "' field: expected list")),
    };
    let ghost f = signed_item(field@);
    let ghost rs = b.value@->List_0.map_values(|it: (ValueView, BlameView)| f(it.0));
    let mut out: Vec<i64> = Vec::new();
    assert(rs.take(0) =~= Seq::<Result<int, Seq<char>>>::empty());
    assert(signed_ints(out@) =~= Seq::<int>::empty());
    #[verifier::loop_isolation(false)]
    for i in 0..items.len()
        invariant
            collect(rs.take(i as int)) == Ok::<Seq<int>, Seq<char>>(signed_ints(out@)),
    {
        proof {
            lemma_collect_step(rs, i as int);
        }
        match value_to_signed(&items[i].value) {
            Some(n) => {
                let ghost before = out@;
                out.push(n);
                assert(signed_ints(out@) =~= signed_ints(before).push(n as int));
                assert(collect(rs.take(i + 1)) == Ok::<Seq<int>, Seq<char>>(signed_ints(out@)));
            },
            None => {
                proof {
                    lemma_collect_prefix_err(rs, i + 1);
                }
                return Err(join2(field, " entry is not an integer"));
            },
        }
    }
    proof {
        assert(rs.take(items@.len() as int) =~= rs);
    }
    Ok(out)
}

/// Extracts a list of unsigned integers from a field.
pub fn extract_unsigned_list(record: &Record, field: &str) -> (r: Result<Vec<u64>, String>)
    ensures
        match r {
            Ok(v) => spec_unsigned_list(record@, field@) == Ok::<Seq<int>, Seq<char>>(
                unsigned_ints(v@),
            ),
            Err(e) => spec_unsigned_list(record@, field@) == Err::<Seq<int>, Seq<char>>(e@),
        },
{
    let b = match record.get_str(field) {
        Some(b) => b,
        None => {
            let v: Vec<u64> = Vec::new();
            assert(unsigned_ints(v@) =~= Seq::<int>::empty());
            return Ok(v);
        },
    };
    let items = match list_items(b) {
        Some(items) => items,
        None => return Err(join3("invalid '", field, "' field: expected list")),
    };
    let ghost f = unsigned_item(field@);
    let ghost rs = b.value@->List_0.map_values(|it: (ValueView, BlameView)| f(it.0));
    let mut out: Vec<u64> = Vec::new();
    assert(rs.take(0) =~= Seq::<Result<int, Seq<char>>>::empty());
    assert(unsigned_ints(out@) =~= Seq::<int>::empty());
    #[verifier::loop_isolation(false)]
    for i in 0..items.len()
        invariant
            collect(rs.take(i as int)) == Ok::<Seq<int>, Seq<char>>(unsigned_ints(out@)),
    {
        proof {
            lemma_collect_step(rs, i as int);
        }
        match &items[i].value {
            Value::Integer(n) => {
                let ghost before = out@;
                out.push(*n);
                assert(unsigned_ints(out@) =~= unsigned_ints(before).push(*n as int));
                assert(collect(rs.take(i + 1)) == Ok::<Seq<int>, Seq<char>>(unsigned_ints(out@)));
            },
            _ => {
                proof {
                    lemma_collect_prefix_err(rs, i + 1);
                }
                return Err(join2(field, " entry is not an unsigned integer"));
            },
        }
    }
    proof {
        assert(rs.take(items@.len() as int) =~= rs);
    }
    Ok(out)
}

/// An integer of a list field, checked against the range of its target type.
pub open spec fn in_range_item(field: Seq<char>, lo: int, hi: int) -> spec_fn(int) -> Result<
    int,
    Seq<char>,
> {
    |n: int|
        if lo <= n <= hi {
            Ok(n)
        } else {
            Err(field + " value out of range: "@ + spec_int_to_dec(n))
        }
}

/// The integers, if all lie in `lo..=hi`; else the first that does not.
pub open spec fn spec_narrow(xs: Seq<int>, field: Seq<char>, lo: int, hi: int) -> Result<
    Seq<int>,
    Seq<char>,
> {
    collect(xs.map_values(in_range_item(field, lo, hi)))
}

pub open spec fn i8s(v: Seq<i8>) -> Seq<int> {
    v.map_values(|x: i8| x as int)
}

pub open spec fn i16s(v: Seq<i16>) -> Seq<int> {
    v.map_values(|x: i16| x as int)
}

pub open spec fn i32s(v: Seq<i32>) -> Seq<int> {
    v.map_values(|x: i32| x as int)
}

pub open spec fn u8s(v: Seq<u8>) -> Seq<int> {
    v.map_values(|x: u8| x as int)
}

/// Narrows each integer to `i8`, failing at the first that does not fit.
pub fn narrow_i8(xs: &Vec<i64>, field: &str) -> (r: Result<Vec<i8>, String>)
    ensures
        match r {
            Ok(v) => spec_narrow(signed_ints(xs@), field@, -128, 127) == Ok::<Seq<int>, Seq<char>>(i8s(v@)),
            Err(e) => spec_narrow(signed_ints(xs@), field@, -128, 127) == Err::<Seq<int>, Seq<char>>(e@),
        },
{
    let ghost rs = signed_ints(xs@).map_values(in_range_item(field@, -128, 127));
    let mut out: Vec<i8> = Vec::new();
    assert(rs.take(0) =~= Seq::<Result<int, Seq<char>>>::empty());
    assert(i8s(out@) =~= Seq::<int>::empty());
    #[verifier::loop_isolation(false)]
    for i in 0..xs.len()
        invariant
            collect(rs.take(i as int)) == Ok::<Seq<int>, Seq<char>>(i8s(out@)),
    {
        proof {
            lemma_collect_step(rs, i as int);
        }
        let n = xs[i];
        if -128 <= n && n <= 127 {
            let ghost before = out@;
            out.push(n as i8);
            assert(i8s(out@) =~= i8s(before).push(n as int));
        } else {
            proof {
                lemma_collect_prefix_err(rs, i + 1);
            }
            let mut m = to_chars(field);
            push_str(&mut m, " value out of range: ");
            push_chars(&mut m, &i64_to_dec(n));
            return Err(from_chars(m.as_slice()));
        }
    }
    proof {
        assert(rs.take(xs@.len() as int) =~= rs);
    }
    Ok(out)
}

/// Narrows each integer to `i16`, failing at the first that does not fit.
pub fn narrow_i16(xs: &Vec<i64>, field: &str) -> (r: Result<Vec<i16>, String>)
    ensures
        match r {
            Ok(v) => spec_narrow(signed_ints(xs@), field@, -32768, 32767) == Ok::<Seq<int>, Seq<char>>(i16s(v@)),
            Err(e) => spec_narrow(signed_ints(xs@), field@, -32768, 32767) == Err::<Seq<int>, Seq<char>>(e@),
        },
{
    let ghost rs = signed_ints(xs@).map_values(in_range_item(field@, -32768, 32767));
    let mut out: Vec<i16> = Vec::new();
    assert(rs.take(0) =~= Seq::<Result<int, Seq<char>>>::empty());
    assert(i16s(out@) =~= Seq::<int>::empty());
    #[verifier::loop_isolation(false)]
    for i in 0..xs.len()
        invariant
            collect(rs.take(i as int)) == Ok::<Seq<int>, Seq<char>>(i16s(out@)),
    {
        proof {
            lemma_collect_step(rs, i as int);
        }
        let n = xs[i];
        if -32768 <= n && n <= 32767 {
            let ghost before = out@;
            out.push(n as i16);
            assert(i16s(out@) =~= i16s(before).push(n as int));
        } else {
            proof {
                lemma_collect_prefix_err(rs, i + 1);
            }
            let mut m = to_chars(field);
            push_str(&mut m, " value out of range: ");
            push_chars(&mut m, &i64_to_dec(n));
            return Err(from_chars(m.as_slice()));
        }
    }
    proof {
        assert(rs.take(xs@.len() as int) =~= rs);
    }
    Ok(out)
}

/// Narrows each integer to `i32`, failing at the first that does not fit.
pub fn narrow_i32(xs: &Vec<i64>, field: &str) -> (r: Result<Vec<i32>, String>)
    ensures
        match r {
            Ok(v) => spec_narrow(signed_ints(xs@), field@, -2147483648, 2147483647) == Ok::<Seq<int>, Seq<char>>(i32s(v@)),
            Err(e) => spec_narrow(signed_ints(xs@), field@, -2147483648, 2147483647) == Err::<Seq<int>, Seq<char>>(e@),
        },
{
    let ghost rs = signed_ints(xs@).map_values(in_range_item(field@, -2147483648, 2147483647));
    let mut out: Vec<i32> = Vec::new();
    assert(rs.take(0) =~= Seq::<Result<int, Seq<char>>>::empty());
    assert(i32s(out@) =~= Seq::<int>::empty());
    #[verifier::loop_isolation(false)]
    for i in 0..xs.len()
        invariant
            collect(rs.take(i as int)) == Ok::<Seq<int>, Seq<char>>(i32s(out@)),
    {
        proof {
            lemma_collect_step(rs, i as int);
        }
        let n = xs[i];
        if -2147483648 <= n && n <= 2147483647 {
            let ghost before = out@;
            out.push(n as i32);
            assert(i32s(out@) =~= i32s(before).push(n as int));
        } else {
            proof {
                lemma_collect_prefix_err(rs, i + 1);
            }
            let mut m = to_chars(field);
            push_str(&mut m, " value out of range: ");
            push_chars(&mut m, &i64_to_dec(n));
            return Err(from_chars(m.as_slice()));
        }
    }
    proof {
        assert(rs.take(xs@.len() as int) =~= rs);
    }
    Ok(out)
}

/// Narrows each integer to `u8`, failing at the first that does not fit.
pub fn narrow_u8(xs: &Vec<u64>, field: &str) -> (r: Result<Vec<u8>, String>)
    ensures
        match r {
            Ok(v) => spec_narrow(unsigned_ints(xs@), field@, 0, 255) == Ok::<Seq<int>, Seq<char>>(u8s(v@)),
            Err(e) => spec_narrow(unsigned_ints(xs@), field@, 0, 255) == Err::<Seq<int>, Seq<char>>(e@),
        },
{
    let ghost rs = unsigned_ints(xs@).map_values(in_range_item(field@, 0, 255));
    let mut out: Vec<u8> = Vec::new();
    assert(rs.take(0) =~= Seq::<Result<int, Seq<char>>>::empty());
    assert(u8s(out@) =~= Seq::<int>::empty());
    #[verifier::loop_isolation(false)]
    for i in 0..xs.len()
        invariant
            collect(rs.take(i as int)) == Ok::<Seq<int>, Seq<char>>(u8s(out@)),
    {
        proof {
            lemma_collect_step(rs, i as int);
        }
        let n = xs[i];
        if n <= 255 {
            let ghost before = out@;
            out.push(n as u8);
            assert(u8s(out@) =~= u8s(before).push(n as int));
        } else {
            proof {
                lemma_collect_prefix_err(rs, i + 1);
            }
            let mut m = to_chars(field);
            push_str(&mut m, " value out of range: ");
            push_chars(&mut m, &u64_to_dec(n));
            return Err(from_chars(m.as_slice()));
        }
    }
    proof {
        assert(rs.take(xs@.len() as int) =~= rs);
    }
    Ok(out)
}

/// The `nth` of a `by_day` entry.
pub open spec fn spec_nth(v: Option<ValueView>) -> Result<Option<i8>, Seq<char>> {
    match v {
        Some(ValueView::SignedInteger(n)) => if -128 <= n <= 127 {
            Ok(Some(n as i8))
        } else {
            Err("by_day nth out of range: "@ + spec_int_to_dec(n as int))
        },
        Some(ValueView::Integer(n)) => if n <= 127 {
            Ok(Some(n as i8))
        } else {
            Err("by_day nth out of range: "@ + spec_nat_to_dec(n as nat))
        },
        None => Ok(None),
        _ => Err("invalid 'nth' in by_day entry"@),
    }
}

/// A `by_day` entry: `{ day, nth? }`.
pub open spec fn spec_nday(v: ValueView) -> Result<NDay, Seq<char>> {
    match v {
        ValueView::Record(rr) => match field_of(rr, "day"@) {
            Some(ValueView::String(s)) => match spec_parse_weekday(s) {
                Err(e) => Err(e),
                Ok(day) => match spec_nth(field_of(rr, "nth"@)) {
                    Err(e) => Err(e),
                    Ok(nth) => Ok(NDay { day, nth }),
                },
            },
            _ => Err("by_day entry missing 'day' field"@),
        },
        _ => Err("by_day entry is not a record"@),
    }
}

/// A `by_month` entry: `{ month, leap? }`.
pub open spec fn spec_by_month_entry(v: ValueView) -> Result<ByMonth, Seq<char>> {
    match v {
        ValueView::Record(rr) => match field_of(rr, "month"@) {
            Some(ValueView::Integer(n)) => if n <= 255 {
                match field_of(rr, "leap"@) {
                    Some(ValueView::Bool(b)) => Ok(ByMonth { month: n as u8, leap: b }),
                    None => Ok(ByMonth { month: n as u8, leap: false }),
                    _ => Err("invalid 'leap' in by_month entry"@),
                }
            } else {
                Err("by_month month out of range: "@ + spec_nat_to_dec(n as nat))
            },
            _ => Err("by_month entry missing 'month' field"@),
        },
        _ => Err("by_month entry is not a record"@),
    }
}

fn nth_of(b: Option<&Blamed<Value>>) -> (r: Result<Option<i8>, String>)
    ensures
        err_view(r) == spec_nth(
            match b {
                Some(x) => Some(x.value@),
                None => None,
            },
        ),
{
    match b {
        Some(x) => match &x.value {
            Value::SignedInteger(n) => if -128 <= *n && *n <= 127 {
                Ok(Some(*n as i8))
            } else {
                Err(with_number("by_day nth out of range: ", i64_to_dec(*n)))
            },
            Value::Integer(n) => if *n <= 127 {
                Ok(Some(*n as i8))
            } else {
                Err(with_number("by_day nth out of range: ", u64_to_dec(*n)))
            },
            _ => Err(owned("invalid 'nth' in by_day entry")),
        },
        None => Ok(None),
    }
}

fn nday(v: &Value) -> (r: Result<NDay, String>)
    ensures
        err_view(r) == spec_nday(v@),
{
    match v {
        Value::Record(rr) => {
            let day = match rr.get_str("day") {
                Some(b) => match &b.value {
                    Value::String(s) => match parse_weekday(s.as_str()) {
                        Ok(d) => d,
                        Err(e) => return Err(e),
                    },
                    _ => return Err(owned("by_day entry missing 'day' field")),
                },
                None => return Err(owned("by_day entry missing 'day' field")),
            };
            let nth = match nth_of(rr.get_str("nth")) {
                Ok(n) => n,
                Err(e) => return Err(e),
            };
            Ok(NDay { day, nth })
        },
        _ => Err(owned("by_day entry is not a record")),
    }
}

fn by_month_entry(v: &Value) -> (r: Result<ByMonth, String>)
    ensures
        err_view(r) == spec_by_month_entry(v@),
{
    match v {
        Value::Record(rr) => {
            let month = match rr.get_str("month") {
                Some(b) => match &b.value {
                    Value::Integer(n) => if *n <= 255 {
                        *n as u8
                    } else {
                        return Err(with_number("by_month month out of range: ", u64_to_dec(*n)));
                    },
                    _ => return Err(owned("by_month entry missing 'month' field")),
                },
                None => return Err(owned("by_month entry missing 'month' field")),
            };
            let leap = match rr.get_str("leap") {
                Some(b) => match &b.value {
                    Value::Bool(x) => *x,
                    _ => return Err(owned("invalid 'leap' in by_month entry")),
                },
                None => false,
            };
            Ok(ByMonth { month, leap })
        },
        _ => Err(owned("by_month entry is not a record")),
    }
}

pub open spec fn nday_item() -> spec_fn(ValueView) -> Result<NDay, Seq<char>> {
    |v: ValueView| spec_nday(v)
}

pub open spec fn by_month_item() -> spec_fn(ValueView) -> Result<ByMonth, Seq<char>> {
    |v: ValueView| spec_by_month_entry(v)
}

/// The `by_day` entries of a rule record.
pub fn extract_by_day(record: &Record) -> (r: Result<Vec<NDay>, String>)
    ensures
        match r {
            Ok(v) => spec_list_field(record@, "by_day"@, nday_item()) == Ok::<Seq<NDay>, Seq<char>>(v@),
            Err(e) => spec_list_field(record@, "by_day"@, nday_item()) == Err::<Seq<NDay>, Seq<char>>(e@),
        },
{
    let b = match record.get_str("by_day") {
        Some(b) => b,
        None => {
            let v: Vec<NDay> = Vec::new();
            assert(v@ =~= Seq::<NDay>::empty());
            return Ok(v);
        },
    };
    let items = match list_items(b) {
        Some(items) => items,
        None => return Err(join3("invalid '", "by_day", "' field: expected list")),
    };
    let ghost f = nday_item();
    let ghost rs = b.value@->List_0.map_values(|it: (ValueView, BlameView)| f(it.0));
    let mut out: Vec<NDay> = Vec::new();
    assert(rs.take(0) =~= Seq::<Result<NDay, Seq<char>>>::empty());
    assert(out@ =~= Seq::<NDay>::empty());
    #[verifier::loop_isolation(false)]
    for i in 0..items.len()
        invariant
            collect(rs.take(i as int)) == Ok::<Seq<NDay>, Seq<char>>(out@),
    {
        proof {
            lemma_collect_step(rs, i as int);
        }
        match nday(&items[i].value) {
            Ok(d) => {
                out.push(d);
            },
            Err(e) => {
                proof {
                    lemma_collect_prefix_err(rs, i + 1);
                }
                return Err(e);
            },
        }
    }
    proof {
        assert(rs.take(items@.len() as int) =~= rs);
    }
    Ok(out)
}

/// The `by_month` entries of a rule record.
pub fn extract_by_month(record: &Record) -> (r: Result<Vec<ByMonth>, String>)
    ensures
        match r {
            Ok(v) => spec_list_field(record@, "by_month"@, by_month_item()) == Ok::<Seq<ByMonth>, Seq<char>>(v@),
            Err(e) => spec_list_field(record@, "by_month"@, by_month_item()) == Err::<Seq<ByMonth>, Seq<char>>(e@),
        },
{
    let b = match record.get_str("by_month") {
        Some(b) => b,
        None => {
            let v: Vec<ByMonth> = Vec::new();
            assert(v@ =~= Seq::<ByMonth>::empty());
            return Ok(v);
        },
    };
    let items = match list_items(b) {
        Some(items) => items,
        None => return Err(join3("invalid '", "by_month", "' field: expected list")),
    };
    let ghost f = by_month_item();
    let ghost rs = b.value@->List_0.map_values(|it: (ValueView, BlameView)| f(it.0));
    let mut out: Vec<ByMonth> = Vec::new();
    assert(rs.take(0) =~= Seq::<Result<ByMonth, Seq<char>>>::empty());
    assert(out@ =~= Seq::<ByMonth>::empty());
    #[verifier::loop_isolation(false)]
    for i in 0..items.len()
        invariant
            collect(rs.take(i as int)) == Ok::<Seq<ByMonth>, Seq<char>>(out@),
    {
        proof {
            lemma_collect_step(rs, i as int);
        }
        match by_month_entry(&items[i].value) {
            Ok(d) => {
                out.push(d);
            },
            Err(e) => {
                proof {
                    lemma_collect_prefix_err(rs, i + 1);
                }
                return Err(e);
            },
        }
    }
    proof {
        assert(rs.take(items@.len() as int) =~= rs);
    }
    Ok(out)
}

/// A list field of integers, each narrowed to `lo..=hi`.
pub open spec fn spec_signed_field(r: RecordView, field: Seq<char>, lo: int, hi: int) -> Result<
    Seq<int>,
    Seq<char>,
> {
    match spec_signed_list(r, field) {
        Err(e) => Err(e),
        Ok(xs) => spec_narrow(xs, field, lo, hi),
    }
}

/// A list field of unsigned integers, each at most `hi`.
pub open spec fn spec_unsigned_field(r: RecordView, field: Seq<char>, hi: int) -> Result<
    Seq<int>,
    Seq<char>,
> {
    match spec_unsigned_list(r, field) {
        Err(e) => Err(e),
        Ok(xs) => spec_narrow(xs, field, 0, hi),
    }
}

fn signed_field_i8(record: &Record, field: &str) -> (r: Result<Vec<i8>, String>)
    ensures
        match r {
            Ok(v) => spec_signed_field(record@, field@, -128, 127) == Ok::<Seq<int>, Seq<char>>(i8s(v@)),
            Err(e) => spec_signed_field(record@, field@, -128, 127) == Err::<Seq<int>, Seq<char>>(e@),
        },
{
    match extract_signed_list(record, field) {
        Ok(xs) => narrow_i8(&xs, field),
        Err(e) => Err(e),
    }
}

fn signed_field_i16(record: &Record, field: &str) -> (r: Result<Vec<i16>, String>)
    ensures
        match r {
            Ok(v) => spec_signed_field(record@, field@, -32768, 32767) == Ok::<Seq<int>, Seq<char>>(i16s(v@)),
            Err(e) => spec_signed_field(record@, field@, -32768, 32767) == Err::<Seq<int>, Seq<char>>(e@),
        },
{
    match extract_signed_list(record, field) {
        Ok(xs) => narrow_i16(&xs, field),
        Err(e) => Err(e),
    }
}

fn signed_field_i32(record: &Record, field: &str) -> (r: Result<Vec<i32>, String>)
    ensures
        match r {
            Ok(v) => spec_signed_field(record@, field@, -2147483648, 2147483647) == Ok::<Seq<int>, Seq<char>>(i32s(v@)),
            Err(e) => spec_signed_field(record@, field@, -2147483648, 2147483647) == Err::<Seq<int>, Seq<char>>(e@),
        },
{
    match extract_signed_list(record, field) {
        Ok(xs) => narrow_i32(&xs, field),
        Err(e) => Err(e),
    }
}

fn unsigned_field_u8(record: &Record, field: &str) -> (r: Result<Vec<u8>, String>)
    ensures
        match r {
            Ok(v) => spec_unsigned_field(record@, field@, 255) == Ok::<Seq<int>, Seq<char>>(u8s(v@)),
            Err(e) => spec_unsigned_field(record@, field@, 255) == Err::<Seq<int>, Seq<char>>(e@),
        },
{
    match extract_unsigned_list(record, field) {
        Ok(xs) => narrow_u8(&xs, field),
        Err(e) => Err(e),
    }
}

pub open spec fn spec_frequency_field(r: RecordView) -> Result<Frequency, Seq<char>> {
    match field_of(r, "frequency"@) {
        Some(ValueView::String(s)) => spec_parse_frequency(s),
        _ => Err("missing or invalid 'frequency' field"@),
    }
}

pub open spec fn spec_interval_field(r: RecordView) -> Result<u32, Seq<char>> {
    match field_of(r, "interval"@) {
        Some(ValueView::Integer(n)) => if n <= u32::MAX {
            Ok(n as u32)
        } else {
            Err("interval out of range: "@ + spec_nat_to_dec(n as nat))
        },
        None => Ok(1u32),
        _ => Err("invalid 'interval' field: expected integer"@),
    }
}

pub open spec fn spec_skip_field(r: RecordView) -> Result<Skip, Seq<char>> {
    match field_of(r, "skip"@) {
        Some(ValueView::String(s)) => spec_parse_skip(s),
        None => Ok(Skip::Omit),
        _ => Err("invalid 'skip' field: expected string"@),
    }
}

pub open spec fn spec_week_start_field(r: RecordView) -> Result<Weekday, Seq<char>> {
    match field_of(r, "week_start"@) {
        Some(ValueView::String(s)) => spec_parse_weekday(s),
        None => Ok(Weekday::Monday),
        _ => Err("invalid 'week_start' field: expected string"@),
    }
}

pub open spec fn spec_termination_field(r: RecordView) -> Result<Termination, Seq<char>> {
    match field_of(r, "termination"@) {
        Some(ValueView::Integer(n)) => Ok(Termination::Count(n)),
        Some(ValueView::Record(rr)) => match spec_record_to_datetime(rr) {
            Ok(dt) => Ok(Termination::Until(dt)),
            Err(e) => Err("invalid termination datetime: "@ + e),
        },
        Some(ValueView::Undefined) => Ok(Termination::Unbounded),
        None => Ok(Termination::Unbounded),
        _ => Err("invalid 'termination' field"@),
    }
}

/// The rule a record describes, or the first problem found, field by field
/// in the order: frequency, interval, skip, week_start, termination, by_day,
/// by_month, by_month_day, by_year_day, by_week_no, by_hour, by_minute,
/// by_second, by_set_position.
pub open spec fn spec_record_to_rule(r: RecordView) -> Result<RuleView, Seq<char>> {
    let frequency = spec_frequency_field(r);
    let interval = spec_interval_field(r);
    let skip = spec_skip_field(r);
    let week_start = spec_week_start_field(r);
    let termination = spec_termination_field(r);
    let by_day = spec_list_field(r, "by_day"@, nday_item());
    let by_month = spec_list_field(r, "by_month"@, by_month_item());
    let by_month_day = spec_signed_field(r, "by_month_day"@, -128, 127);
    let by_year_day = spec_signed_field(r, "by_year_day"@, -32768, 32767);
    let by_week_no = spec_signed_field(r, "by_week_no"@, -128, 127);
    let by_hour = spec_unsigned_field(r, "by_hour"@, 255);
    let by_minute = spec_unsigned_field(r, "by_minute"@, 255);
    let by_second = spec_unsigned_field(r, "by_second"@, 255);
    let by_set_position = spec_signed_field(r, "by_set_position"@, -2147483648, 2147483647);
    if frequency is Err {
        Err(frequency->Err_0)
    } else if interval is Err {
        Err(interval->Err_0)
    } else if skip is Err {
        Err(skip->Err_0)
    } else if week_start is Err {
        Err(week_start->Err_0)
    } else if termination is Err {
        Err(termination->Err_0)
    } else if by_day is Err {
        Err(by_day->Err_0)
    } else if by_month is Err {
        Err(by_month->Err_0)
    } else if by_month_day is Err {
        Err(by_month_day->Err_0)
    } else if by_year_day is Err {
        Err(by_year_day->Err_0)
    } else if by_week_no is Err {
        Err(by_week_no->Err_0)
    } else if by_hour is Err {
        Err(by_hour->Err_0)
    } else if by_minute is Err {
        Err(by_minute->Err_0)
    } else if by_second is Err {
        Err(by_second->Err_0)
    } else if by_set_position is Err {
        Err(by_set_position->Err_0)
    } else {
        Ok(
            RuleView {
                frequency: frequency->Ok_0,
                interval: interval->Ok_0,
                skip: skip->Ok_0,
                week_start: week_start->Ok_0,
                termination: termination->Ok_0,
                by_day: by_day->Ok_0,
                by_month_day: by_month_day->Ok_0,
                by_month: by_month->Ok_0,
                by_year_day: by_year_day->Ok_0,
                by_week_no: by_week_no->Ok_0,
                by_hour: by_hour->Ok_0,
                by_minute: by_minute->Ok_0,
                by_second: by_second->Ok_0,
                by_set_position: by_set_position->Ok_0,
            },
        )
    }
}

fn frequency_field(record: &Record) -> (r: Result<Frequency, String>)
    ensures
        err_view(r) == spec_frequency_field(record@),
{
    match record.get_str("frequency") {
        Some(b) => match &b.value {
            Value::String(s) => parse_frequency(s.as_str()),
            _ => Err(owned("missing or invalid 'frequency' field")),
        },
        None => Err(owned("missing or invalid 'frequency' field")),
    }
}

fn interval_field(record: &Record) -> (r: Result<u32, String>)
    ensures
        err_view(r) == spec_interval_field(record@),
{
    match record.get_str("interval") {
        Some(b) => match &b.value {
            Value::Integer(n) => if *n <= 0xffff_ffffu64 {
                Ok(*n as u32)
            } else {
                Err(with_number("interval out of range: ", u64_to_dec(*n)))
            },
            _ => Err(owned("invalid 'interval' field: expected integer")),
        },
        None => Ok(1),
    }
}

fn skip_field(record: &Record) -> (r: Result<Skip, String>)
    ensures
        err_view(r) == spec_skip_field(record@),
{
    match record.get_str("skip") {
        Some(b) => match &b.value {
            Value::String(s) => parse_skip(s.as_str()),
            _ => Err(owned("invalid 'skip' field: expected string")),
        },
        None => Ok(Skip::Omit),
    }
}

fn week_start_field(record: &Record) -> (r: Result<Weekday, String>)
    ensures
        err_view(r) == spec_week_start_field(record@),
{
    match record.get_str("week_start") {
        Some(b) => match &b.value {
            Value::String(s) => parse_weekday(s.as_str()),
            _ => Err(owned("invalid 'week_start' field: expected string")),
        },
        None => Ok(Weekday::Monday),
    }
}

fn termination_field(record: &Record) -> (r: Result<Termination, String>)
    ensures
        err_view(r) == spec_termination_field(record@),
{
    match record.get_str("termination") {
        Some(b) => match &b.value {
            Value::Integer(n) => Ok(Termination::Count(*n)),
            Value::Record(rr) => match record_to_datetime(rr) {
                Ok(dt) => Ok(Termination::Until(dt)),
                Err(e) => Err(prefixed("invalid termination datetime: ", e)),
            },
            Value::Undefined => Ok(Termination::Unbounded),
            _ => Err(owned("invalid 'termination' field")),
        },
        None => Ok(Termination::Unbounded),
    }
}

/// Converts a recurrence rule record into a `RecurrenceRule`.
pub fn record_to_rule(record: &Record) -> (r: Result<RecurrenceRule, String>)
    ensures
        match r {
            Ok(rule) => spec_record_to_rule(record@) == Ok::<RuleView, Seq<char>>(rule@),
            Err(e) => spec_record_to_rule(record@) == Err::<RuleView, Seq<char>>(e@),
        },
{
    let frequency = match frequency_field(record) {
        Ok(x) => x,
        Err(e) => return Err(e),
    };
    let interval = match interval_field(record) {
        Ok(x) => x,
        Err(e) => return Err(e),
    };
    let skip = match skip_field(record) {
        Ok(x) => x,
        Err(e) => return Err(e),
    };
    let week_start = match week_start_field(record) {
        Ok(x) => x,
        Err(e) => return Err(e),
    };
    let termination = match termination_field(record) {
        Ok(x) => x,
        Err(e) => return Err(e),
    };
    let by_day = match extract_by_day(record) {
        Ok(x) => x,
        Err(e) => return Err(e),
    };
    let by_month = match extract_by_month(record) {
        Ok(x) => x,
        Err(e) => return Err(e),
    };
    let by_month_day = match signed_field_i8(record, "by_month_day") {
        Ok(x) => x,
        Err(e) => return Err(e),
    };
    let by_year_day = match signed_field_i16(record, "by_year_day") {
        Ok(x) => x,
        Err(e) => return Err(e),
    };
    let by_week_no = match signed_field_i8(record, "by_week_no") {
        Ok(x) => x,
        Err(e) => return Err(e),
    };
    let by_hour = match unsigned_field_u8(record, "by_hour") {
        Ok(x) => x,
        Err(e) => return Err(e),
    };
    let by_minute = match unsigned_field_u8(record, "by_minute") {
        Ok(x) => x,
        Err(e) => return Err(e),
    };
    let by_second = match unsigned_field_u8(record, "by_second") {
        Ok(x) => x,
        Err(e) => return Err(e),
    };
    let by_set_position = match signed_field_i32(record, "by_set_position") {
        Ok(x) => x,
        Err(e) => return Err(e),
    };
    Ok(
        RecurrenceRule {
            frequency,
            interval,
            skip,
            week_start,
            termination,
            by_day,
            by_month_day,
            by_month,
            by_year_day,
            by_week_no,
            by_hour,
            by_minute,
            by_second,
            by_set_position,
        },
    )
}

// ── Calendar entries ───────────────────────────────────────────

/// The diagnostics for the recurrence of one entry: none when it has no
/// `recur` record; else one for a missing or invalid start, or else one for
/// an invalid rule.
pub open spec fn spec_recurrence_errors(rec: RecordView, source: SourceFile) -> Seq<DiagView> {
    match field_of(rec, "recur"@) {
        Some(ValueView::Record(recur)) => match field_of(rec, "start"@) {
            Some(ValueView::Record(start)) => match spec_record_to_datetime(start) {
                Err(e) => seq![error_at(source, "invalid start for recurrence: "@ + e)],
                Ok(_) => match spec_record_to_rule(recur) {
                    Err(e) => seq![error_at(source, "invalid recurrence rule: "@ + e)],
                    Ok(_) => seq![],
                },
            },
            Some(_) => seq![error_at(source, "recurrence requires a 'start' datetime record"@)],
            None => seq![error_at(source, "recurrence requires 'start' field"@)],
        },
        _ => seq![],
    }
}

/// The recurrence diagnostics of the first `n` entries, each against its own
/// file.
pub open spec fn spec_recurrences_errors(entries: Seq<(RecordView, BlameView)>, n: nat) -> Seq<
    DiagView,
>
    decreases n,
{
    if n == 0 {
        seq![]
    } else {
        spec_recurrences_errors(entries, (n - 1) as nat) + spec_recurrence_errors(
            entries[n - 1].0,
            entries[n - 1].1.decl.source,
        )
    }
}

fn check_recurrence(rec: &Record, source: SourceFile, diagnostics: &mut Vec<Diagnostic>)
    ensures
        diags_view(final(diagnostics)@) == diags_view(old(diagnostics)@) + spec_recurrence_errors(
            rec@,
            source,
        ),
{
    let ghost start_view = diags_view(diagnostics@);
    let recur = match as_record(rec.get_str("recur")) {
        Some(r) => r,
        None => {
            assert(diags_view(diagnostics@) =~= start_view + spec_recurrence_errors(rec@, source));
            return;
        },
    };
    match rec.get_str("start") {
        Some(b) => match &b.value {
            Value::Record(start) => match record_to_datetime(start) {
                Err(e) => {
                    let mut m = to_chars("invalid start for recurrence: ");
                    push_str(&mut m, e.as_str());
                    push_diag(diagnostics, error(source, m));
                },
                Ok(_) => match record_to_rule(recur) {
                    Err(e) => {
                        let mut m = to_chars("invalid recurrence rule: ");
                        push_str(&mut m, e.as_str());
                        push_diag(diagnostics, error(source, m));
                    },
                    Ok(_) => {},
                },
            },
            _ => {
                push_diag(
                    diagnostics,
                    error(source, to_chars("recurrence requires a 'start' datetime record")),
                );
            },
        },
        None => {
            push_diag(diagnostics, error(source, to_chars("recurrence requires 'start' field")));
        },
    }
    assert(diags_view(diagnostics@) =~= start_view + spec_recurrence_errors(rec@, source));
}

/// Validates the recurrence rules of a calendar's entries.
///
/// An entry whose `recur` field is a record needs a `start` that is a valid
/// datetime or date record, and a `recur` record that is a valid rule; each
/// failure adds one error diagnostic and sets `has_errors`.
#[verifier::spinoff_prover]
#[verifier::rlimit(40)]
pub fn validate_entry_recurrences(
    calendar: &Calendar,
    diagnostics: &mut Vec<Diagnostic>,
    has_errors: &mut bool,
)
    ensures
        diags_view(final(diagnostics)@) == diags_view(old(diagnostics)@) + spec_recurrences_errors(
            entries_view(calendar.entries@),
            calendar.entries@.len(),
        ),
        *final(has_errors) == (*old(has_errors) || spec_recurrences_errors(
            entries_view(calendar.entries@),
            calendar.entries@.len(),
        ).len() > 0),
{
    let ghost first = diags_view(diagnostics@);
    let ghost ev = entries_view(calendar.entries@);
    let ghost flag = *has_errors;
    assert(first + spec_recurrences_errors(ev, 0) =~= first);
    for i in 0..calendar.entries.len()
        invariant
            ev == entries_view(calendar.entries@),
            diags_view(diagnostics@) == first + spec_recurrences_errors(ev, i as nat),
            *has_errors == (flag || spec_recurrences_errors(ev, i as nat).len() > 0),
    {
        let entry = &calendar.entries[i];
        let source = entry.blame.decl.source;
        let before = diagnostics.len();
        check_recurrence(&entry.value, source, diagnostics);
        if diagnostics.len() > before {
            *has_errors = true;
        }
        assert(diags_view(diagnostics@) =~= first + spec_recurrences_errors(ev, (i + 1) as nat));
    }
}

// ── Names of frequencies and weekdays ──────────────────────────

/// The rule frequency of the same name as an iCalendar frequency.
pub open spec fn frequency_named(f: crate::ical_import::IcalFreq) -> Frequency {
    match f {
        crate::ical_import::IcalFreq::Secondly => Frequency::Secondly,
        crate::ical_import::IcalFreq::Minutely => Frequency::Minutely,
        crate::ical_import::IcalFreq::Hourly => Frequency::Hourly,
        crate::ical_import::IcalFreq::Daily => Frequency::Daily,
        crate::ical_import::IcalFreq::Weekly => Frequency::Weekly,
        crate::ical_import::IcalFreq::Monthly => Frequency::Monthly,
        crate::ical_import::IcalFreq::Yearly => Frequency::Yearly,
    }
}

/// The rule weekday of the same name as an iCalendar weekday.
pub open spec fn weekday_named(w: crate::ical_import::IcalWeekday) -> Weekday {
    match w {
        crate::ical_import::IcalWeekday::Monday => Weekday::Monday,
        crate::ical_import::IcalWeekday::Tuesday => Weekday::Tuesday,
        crate::ical_import::IcalWeekday::Wednesday => Weekday::Wednesday,
        crate::ical_import::IcalWeekday::Thursday => Weekday::Thursday,
        crate::ical_import::IcalWeekday::Friday => Weekday::Friday,
        crate::ical_import::IcalWeekday::Saturday => Weekday::Saturday,
        crate::ical_import::IcalWeekday::Sunday => Weekday::Sunday,
    }
}

/// Reading a rule takes exactly the frequency names that export takes,
/// each as the frequency of the same name; so the name that import gives a
/// frequency reads as that frequency.
pub proof fn lemma_frequency_names_agree(s: Seq<char>, f: crate::ical_import::IcalFreq)
    ensures
        spec_parse_frequency(s) is Ok <==> crate::export_values::freq_of(s) is Some,
        crate::export_values::freq_of(s) matches Some(g) ==> spec_parse_frequency(s) == Ok::<Frequency, Seq<char>>(
            frequency_named(g),
        ),
        spec_parse_frequency(crate::ical_import::freq_text(f)) == Ok::<Frequency, Seq<char>>(frequency_named(f)),
{
    crate::export_values::lemma_freq_names_distinct();
    crate::ical_import::lemma_freq_text_reads_back(f);
}

/// Reading a rule takes exactly the weekday names that export takes, each
/// as the weekday of the same name; so the name that import gives a
/// weekday reads as that weekday.
pub proof fn lemma_weekday_names_agree(s: Seq<char>, w: crate::ical_import::IcalWeekday)
    ensures
        spec_parse_weekday(s) is Ok <==> crate::export_values::weekday_of(s) is Some,
        crate::export_values::weekday_of(s) matches Some(v) ==> spec_parse_weekday(s) == Ok::<Weekday, Seq<char>>(
            weekday_named(v),
        ),
        spec_parse_weekday(crate::ical_import::weekday_text(w)) == Ok::<Weekday, Seq<char>>(weekday_named(w)),
{
    crate::export_values::lemma_weekday_names_distinct();
    crate::ical_import::lemma_weekday_text_reads_back(w);
}

} // verus!
