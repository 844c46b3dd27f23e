//! Translating iCalendar data into plain calendar values.
//!
//! The calendar, its events and tasks arrive here as plain data (see
//! `ical_source`); this module decides what each becomes: which fields, under
//! which names, in which form.
use vstd::prelude::*;

use crate::import_value::{
    import_record_of, make_import_record, ImportRecord, ImportRecordView, ImportValue, ImportView,
};
use crate::desugar::owned;
use crate::text::{push_chars, push_str, from_chars, spec_nat_to_dec, u64_to_dec};

verus! {

broadcast use {crate::types::lemma_value_view_unfold, crate::import_value::lemma_import_view_unfold};

// ── Dates, times and durations ─────────────────────────────────

/// A calendar date.
#[derive(Debug, Clone, Copy, PartialEq, Eq)]
pub struct PlainDate {
    pub year: u16,
    pub month: u8,
    pub day: u8,
}

/// A time of day.
#[derive(Debug, Clone, Copy, PartialEq, Eq)]
pub struct PlainTime {
    pub hour: u8,
    pub minute: u8,
    pub second: u8,
}

/// A date with a time, or a date alone.
#[derive(Debug, Clone, Copy, PartialEq, Eq)]
pub enum PlainDtod {
    DateTime(PlainDate, PlainTime),
    Date(PlainDate),
}

/// A signed duration; an exact duration has no weeks or days, a nominal
/// one without a time part has no hours, minutes or seconds.
#[derive(Debug, Clone, Copy, PartialEq, Eq)]
pub struct PlainDuration {
    pub positive: bool,
    pub weeks: u32,
    pub days: u32,
    pub hours: u32,
    pub minutes: u32,
    pub seconds: u32,
}

pub open spec fn date_fields(d: PlainDate) -> Seq<(Seq<char>, ImportView)> {
    seq![
        ("year"@, ImportView::Integer(d.year as u64)),
        ("month"@, ImportView::Integer(d.month as u64)),
        ("day"@, ImportView::Integer(d.day as u64)),
    ]
}

pub open spec fn time_fields(t: PlainTime) -> Seq<(Seq<char>, ImportView)> {
    seq![
        ("hour"@, ImportView::Integer(t.hour as u64)),
        ("minute"@, ImportView::Integer(t.minute as u64)),
        ("second"@, ImportView::Integer(t.second as u64)),
    ]
}

/// A date as a record `{ year, month, day }`.
pub open spec fn date_value(d: PlainDate) -> ImportView {
    ImportView::Record(import_record_of(date_fields(d)))
}

/// A time as a record `{ hour, minute, second }`.
pub open spec fn time_value(t: PlainTime) -> ImportView {
    ImportView::Record(import_record_of(time_fields(t)))
}

/// A date and time as a record `{ date, time }`.
pub open spec fn datetime_value(d: PlainDate, t: PlainTime) -> ImportView {
    ImportView::Record(import_record_of(seq![("date"@, date_value(d)), ("time"@, time_value(t))]))
}

/// A date with a time as a datetime record; a date alone as a date record.
pub open spec fn dtod_value(x: PlainDtod) -> ImportView {
    match x {
        PlainDtod::DateTime(d, t) => datetime_value(d, t),
        PlainDtod::Date(d) => date_value(d),
    }
}

pub fn translate_date(d: PlainDate) -> (r: ImportValue)
    ensures
        r@ == date_value(d),
{
    let fields = vec![
        ("year", ImportValue::Integer(d.year as u64)),
        ("month", ImportValue::Integer(d.month as u64)),
        ("day", ImportValue::Integer(d.day as u64)),
    ];
    let rec = make_import_record(fields);
    assert(crate::import_value::import_fields_view(fields@) =~= date_fields(d));
    ImportValue::Record(rec)
}

pub fn translate_time(t: PlainTime) -> (r: ImportValue)
    ensures
        r@ == time_value(t),
{
    let fields = vec![
        ("hour", ImportValue::Integer(t.hour as u64)),
        ("minute", ImportValue::Integer(t.minute as u64)),
        ("second", ImportValue::Integer(t.second as u64)),
    ];
    let rec = make_import_record(fields);
    assert(crate::import_value::import_fields_view(fields@) =~= time_fields(t));
    ImportValue::Record(rec)
}

/// A date and time as an import datetime record.
pub fn translate_datetime(d: PlainDate, t: PlainTime) -> (r: ImportValue)
    ensures
        r@ == datetime_value(d, t),
{
    let fields = vec![("date", translate_date(d)), ("time", translate_time(t))];
    let rec = make_import_record(fields);
    assert(crate::import_value::import_fields_view(fields@) =~= seq![
        ("date"@, date_value(d)),
        ("time"@, time_value(t)),
    ]);
    ImportValue::Record(rec)
}

/// A date-time or date as an import datetime or date record.
pub fn translate_datetime_or_date(x: PlainDtod) -> (r: ImportValue)
    ensures
        r@ == dtod_value(x),
{
    match x {
        PlainDtod::DateTime(d, t) => translate_datetime(d, t),
        PlainDtod::Date(d) => translate_date(d),
    }
}

/// A duration as a record of weeks, days, hours, minutes and seconds:
/// unsigned integers when positive, their negations as signed integers
/// otherwise.
pub open spec fn duration_value(d: PlainDuration) -> ImportView {
    if d.positive {
        ImportView::Record(
            import_record_of(
                seq![
                    ("weeks"@, ImportView::Integer(d.weeks as u64)),
                    ("days"@, ImportView::Integer(d.days as u64)),
                    ("hours"@, ImportView::Integer(d.hours as u64)),
                    ("minutes"@, ImportView::Integer(d.minutes as u64)),
                    ("seconds"@, ImportView::Integer(d.seconds as u64)),
                ],
            ),
        )
    } else {
        ImportView::Record(
            import_record_of(
                seq![
                    ("weeks"@, ImportView::SignedInteger((0 - d.weeks) as i64)),
                    ("days"@, ImportView::SignedInteger((0 - d.days) as i64)),
                    ("hours"@, ImportView::SignedInteger((0 - d.hours) as i64)),
                    ("minutes"@, ImportView::SignedInteger((0 - d.minutes) as i64)),
                    ("seconds"@, ImportView::SignedInteger((0 - d.seconds) as i64)),
                ],
            ),
        )
    }
}

/// A signed duration as an import duration record.
pub fn translate_signed_duration(d: PlainDuration) -> (r: ImportValue)
    ensures
        r@ == duration_value(d),
{
    if d.positive {
        let fields = vec![
            ("weeks", ImportValue::Integer(d.weeks as u64)),
            ("days", ImportValue::Integer(d.days as u64)),
            ("hours", ImportValue::Integer(d.hours as u64)),
            ("minutes", ImportValue::Integer(d.minutes as u64)),
            ("seconds", ImportValue::Integer(d.seconds as u64)),
        ];
        let rec = make_import_record(fields);
        assert(crate::import_value::import_fields_view(fields@) =~= seq![
            ("weeks"@, ImportView::Integer(d.weeks as u64)),
            ("days"@, ImportView::Integer(d.days as u64)),
            ("hours"@, ImportView::Integer(d.hours as u64)),
            ("minutes"@, ImportView::Integer(d.minutes as u64)),
            ("seconds"@, ImportView::Integer(d.seconds as u64)),
        ]);
        ImportValue::Record(rec)
    } else {
        let w: i64 = 0 - d.weeks as i64;
        let dd: i64 = 0 - d.days as i64;
        let h: i64 = 0 - d.hours as i64;
        let mi: i64 = 0 - d.minutes as i64;
        let se: i64 = 0 - d.seconds as i64;
        let fields = vec![
            ("weeks", ImportValue::SignedInteger(w)),
            ("days", ImportValue::SignedInteger(dd)),
            ("hours", ImportValue::SignedInteger(h)),
            ("minutes", ImportValue::SignedInteger(mi)),
            ("seconds", ImportValue::SignedInteger(se)),
        ];
        let rec = make_import_record(fields);
        assert(crate::import_value::import_fields_view(fields@) =~= seq![
            ("weeks"@, ImportView::SignedInteger((0 - d.weeks) as i64)),
            ("days"@, ImportView::SignedInteger((0 - d.days) as i64)),
            ("hours"@, ImportView::SignedInteger((0 - d.hours) as i64)),
            ("minutes"@, ImportView::SignedInteger((0 - d.minutes) as i64)),
            ("seconds"@, ImportView::SignedInteger((0 - d.seconds) as i64)),
        ]);
        ImportValue::Record(rec)
    }
}

// ── Day counts ─────────────────────────────────────────────────

/// The number of days from 0000-03-01 to a civil date (proleptic
/// Gregorian), by the era-based algorithm.
pub open spec fn spec_days_from_civil(y: int, m: int, d: int) -> int {
    let y2 = if m <= 2 {
        y - 1
    } else {
        y
    };
    let m2 = if m <= 2 {
        m + 9
    } else {
        m - 3
    };
    let era = y2 / 400;
    let yoe = y2 % 400;
    let doy = (153 * m2 + 2) / 5 + d - 1;
    let doe = yoe * 365 + yoe / 4 - yoe / 100 + doy;
    era * 146097 + doe
}

/// Whether a year of the proleptic Gregorian calendar is a leap year.
pub open spec fn is_leap_year(y: int) -> bool {
    y % 4 == 0 && (y % 100 != 0 || y % 400 == 0)
}

/// The number of days of month `m` (1..=12) of year `y`.
pub open spec fn days_in_month(y: int, m: int) -> int {
    if m == 2 {
        if is_leap_year(y) {
            29
        } else {
            28
        }
    } else if m == 4 || m == 6 || m == 9 || m == 11 {
        30
    } else {
        31
    }
}

/// The day count before March 1 of year `y + 1`, counted from year 0.
spec fn march_days(y: int) -> int {
    (y / 400) * 146097 + (y % 400) * 365 + (y % 400) / 4 - (y % 400) / 100
}

/// Within a 400-year cycle, the day count grows by a year's length.
proof fn lemma_cycle_year_step(r: int)
    requires
        0 <= r < 399,
    ensures
        (r + 1) / 4 - r / 4 - ((r + 1) / 100 - r / 100) == if (r + 1) % 4 == 0 && (r + 1) % 100 != 0 {
            1int
        } else {
            0int
        },
{
}

proof fn lemma_march_days_step(y: int)
    ensures
        march_days(y + 1) == march_days(y) + 365 + if is_leap_year(y + 1) {
            1int
        } else {
            0int
        },
{
    let q = y / 400;
    let r = y % 400;
    vstd::arithmetic::div_mod::lemma_fundamental_div_mod(y, 400);
    assert(0 <= r < 400);
    assert(y == q * 400 + r);
    if r == 399 {
        vstd::arithmetic::div_mod::lemma_fundamental_div_mod_converse(y + 1, 400, q + 1, 0);
        vstd::arithmetic::div_mod::lemma_fundamental_div_mod_converse(y + 1, 4, 100 * q + 100, 0);
        vstd::arithmetic::div_mod::lemma_fundamental_div_mod_converse(y + 1, 100, 4 * q + 4, 0);
        assert(march_days(y + 1) == (q + 1) * 146097);
        assert(march_days(y) == q * 146097 + 399 * 365 + 99 - 3);
    } else {
        vstd::arithmetic::div_mod::lemma_fundamental_div_mod_converse(y + 1, 400, q, r + 1);
        vstd::arithmetic::div_mod::lemma_fundamental_div_mod_converse(y + 1, 4, 100 * q + (r + 1) / 4, (r + 1) % 4);
        vstd::arithmetic::div_mod::lemma_fundamental_div_mod_converse(y + 1, 100, 4 * q + (r + 1) / 100, (r + 1) % 100);
        lemma_cycle_year_step(r);
        assert(march_days(y + 1) == q * 146097 + (r + 1) * 365 + (r + 1) / 4 - (r + 1) / 100);
        assert(march_days(y) == q * 146097 + r * 365 + r / 4 - r / 100);
    }
}

/// The days of the civil calendar follow one another: the day after a day
/// is one later, the first of the next month is later by the days of the
/// month, and January 1 follows December 31.
pub proof fn lemma_civil_days_step(y: int, m: int, d: int)
    requires
        1 <= m <= 12,
    ensures
        spec_days_from_civil(y, m, d + 1) == spec_days_from_civil(y, m, d) + 1,
        m < 12 ==> spec_days_from_civil(y, m + 1, 1) == spec_days_from_civil(y, m, 1) + days_in_month(y, m),
        m == 12 ==> spec_days_from_civil(y + 1, 1, 1) == spec_days_from_civil(y, 12, 1) + 31,
        spec_days_from_civil(y + 1, 1, 1) == spec_days_from_civil(y, 1, 1) + if is_leap_year(y) {
            366int
        } else {
            365int
        },
{
    assert(forall|yy: int, mm: int, dd: int| #![trigger spec_days_from_civil(yy, mm, dd)]
        spec_days_from_civil(yy, mm, dd) == march_days(if mm <= 2 { yy - 1 } else { yy }) + (153 * (if mm <= 2 { mm + 9 } else { mm - 3 }) + 2) / 5 + dd - 1);
    lemma_march_days_step(y - 1);
    assert(is_leap_year(y) == is_leap_year(y - 1 + 1));
}

/// Days are counted from 0000-03-01, which is day 0; 1970-01-01 is day
/// 719468. With `lemma_civil_days_step`, every valid date is its count of
/// days from that origin.
pub proof fn lemma_civil_days_origin()
    ensures
        spec_days_from_civil(0, 3, 1) == 0,
        spec_days_from_civil(1970, 1, 1) == 719468,
{
    assert((-1int) / 400 == -1 && (-1int) % 400 == 399);
    assert(1969int / 400 == 4 && 1969int % 400 == 369);
}

/// Computes the number of days from a civil date.
pub fn days_from_civil(y: i64, m: u64, d: u64) -> (r: i64)
    requires
        -0x100_0000_0000 <= y <= 0x100_0000_0000,
        m <= 0x100_0000_0000,
        d <= 0x100_0000_0000,
    ensures
        r == spec_days_from_civil(y as int, m as int, d as int),
{
    let y2: i64 = if m <= 2 {
        y - 1
    } else {
        y
    };
    let m2: i64 = if m <= 2 {
        (m + 9) as i64
    } else {
        (m - 3) as i64
    };
    // Shift by a multiple of 400 so that the division is of a
    // non-negative number.
    let shifted: u64 = (y2 + 400 * 0x2_0000_0000) as u64;
    let era_shifted: u64 = shifted / 400;
    let yoe: u64 = shifted % 400;
    let era: i64 = era_shifted as i64 - 0x2_0000_0000;
    proof {
        vstd::arithmetic::div_mod::lemma_fundamental_div_mod(shifted as int, 400);
        assert(y2 as int == era as int * 400 + yoe as int) by (nonlinear_arith)
            requires
                shifted as int == 400 * (shifted as int / 400) + shifted as int % 400,
                shifted as int == y2 as int + 400 * 0x2_0000_0000,
                era_shifted as int == shifted as int / 400,
                yoe as int == shifted as int % 400,
                era as int == era_shifted as int - 0x2_0000_0000,
        ;
        vstd::arithmetic::div_mod::lemma_fundamental_div_mod_converse(y2 as int, 400, era as int, yoe as int);
    }
    let doy: i64 = ((153 * m2 + 2) / 5) + d as i64 - 1;
    let doe: i64 = (yoe * 365 + yoe / 4 - yoe / 100) as i64 + doy;
    assert(0 <= yoe < 400);
    assert(era * 146097 == era as int * 146097) by (nonlinear_arith)
        requires
            -0x300_0000_0000 <= era <= 0x300_0000_0000,
    ;
    era * 146097 + doe
}

// ── Base64 ─────────────────────────────────────────────────────

/// The character of a base64 digit.
pub open spec fn b64_digit(n: int) -> char {
    if n < 26 {
        (65 + n) as char
    } else if n < 52 {
        (97 + n - 26) as char
    } else if n < 62 {
        (48 + n - 52) as char
    } else if n == 62 {
        '+'
    } else {
        '/'
    }
}

/// Standard base64 with padding.
pub open spec fn base64(data: Seq<u8>) -> Seq<char>
    decreases data.len(),
{
    if data.len() == 0 {
        seq![]
    } else if data.len() == 1 {
        seq![b64_digit(data[0] as int / 4), b64_digit((data[0] as int % 4) * 16), '=', '=']
    } else if data.len() == 2 {
        seq![
            b64_digit(data[0] as int / 4),
            b64_digit((data[0] as int % 4) * 16 + data[1] as int / 16),
            b64_digit((data[1] as int % 16) * 4),
            '=',
        ]
    } else {
        seq![
            b64_digit(data[0] as int / 4),
            b64_digit((data[0] as int % 4) * 16 + data[1] as int / 16),
            b64_digit((data[1] as int % 16) * 4 + data[2] as int / 64),
            b64_digit(data[2] as int % 64),
        ] + base64(data.skip(3))
    }
}

fn digit(n: u8) -> (c: char)
    requires
        n < 64,
    ensures
        c == b64_digit(n as int),
{
    if n < 26 {
        (65 + n) as char
    } else if n < 52 {
        (97 + n - 26) as char
    } else if n < 62 {
        (48 + n - 52) as char
    } else if n == 62 {
        '+'
    } else {
        '/'
    }
}

/// Encodes bytes as standard base64 with padding.
pub fn base64_encode(data: &[u8]) -> (r: String)
    ensures
        r@ == base64(data@),
{
    let mut out: Vec<char> = Vec::new();
    let mut i: usize = 0;
    assert(data@.skip(0) =~= data@);
    while i < data.len()
        invariant
            i <= data@.len(),
            out@ + base64(data@.skip(i as int)) == base64(data@),
        decreases data@.len() - i,
    {
        let rest = data.len() - i;
        let ghost tail = data@.skip(i as int);
        let ghost before = out@;
        let b0 = data[i];
        if rest == 1 {
            out.push(digit(b0 / 4));
            out.push(digit((b0 % 4) * 16));
            out.push('=');
            out.push('=');
            i = i + 1;
        } else if rest == 2 {
            let b1 = data[i + 1];
            out.push(digit(b0 / 4));
            out.push(digit((b0 % 4) * 16 + b1 / 16));
            out.push(digit((b1 % 16) * 4));
            out.push('=');
            i = i + 2;
        } else {
            let b1 = data[i + 1];
            let b2 = data[i + 2];
            out.push(digit(b0 / 4));
            out.push(digit((b0 % 4) * 16 + b1 / 16));
            out.push(digit((b1 % 16) * 4 + b2 / 64));
            out.push(digit(b2 % 64));
            i = i + 3;
            assert(tail.skip(3) =~= data@.skip(i as int));
        }
        assert(tail[0] == b0);
        assert(out@ + base64(data@.skip(i as int)) =~= before + base64(tail));
    }
    assert(data@.skip(i as int) =~= Seq::<u8>::empty());
    assert(out@ =~= base64(data@));
    from_chars(out.as_slice())
}

proof fn lemma_days_bound(y: int, m: int, d: int)
    requires
        0 <= y <= 65535,
        0 <= m <= 255,
        0 <= d <= 255,
    ensures
        -1_000_000 <= spec_days_from_civil(y, m, d) <= 100_000_000,
{
    let y2 = if m <= 2 {
        y - 1
    } else {
        y
    };
    let m2 = if m <= 2 {
        m + 9
    } else {
        m - 3
    };
    assert(-1 <= y2 / 400 <= 164) by (nonlinear_arith)
        requires
            -1 <= y2 <= 65535,
    ;
    assert(0 <= y2 % 400 < 400) by (nonlinear_arith)
        requires
            -1 <= y2 <= 65535,
    ;
    assert(0 <= (153 * m2 + 2) / 5 <= 9000) by (nonlinear_arith)
        requires
            0 <= m2 <= 264,
    ;
    let yoe = y2 % 400;
    assert(0 <= yoe / 4 <= 100 && 0 <= yoe / 100 <= 4) by (nonlinear_arith)
        requires
            0 <= yoe < 400,
    ;
    assert(-146097 <= (y2 / 400) * 146097 <= 164 * 146097) by (nonlinear_arith)
        requires
            -1 <= y2 / 400 <= 164,
    ;
}

/// Seconds from the day count origin to a date and time.
pub open spec fn seconds_of(d: PlainDate, t: PlainTime) -> int {
    spec_days_from_civil(d.year as int, d.month as int, d.day as int) * 86400 + t.hour * 3600
        + t.minute * 60 + t.second
}

/// The duration from a start to an end that both have a time of day, as a
/// duration record of days, hours, minutes and seconds (zero when the end
/// comes first); nothing when either is a date alone.
pub open spec fn endpoints_duration(start: PlainDtod, end: PlainDtod) -> Option<ImportView> {
    match (start, end) {
        (PlainDtod::DateTime(sd, st), PlainDtod::DateTime(ed, et)) => {
            let s = seconds_of(sd, st);
            let e = seconds_of(ed, et);
            let diff = if e > s {
                e - s
            } else {
                0
            };
            let rem = diff % 86400;
            Some(
                ImportView::Record(
                    import_record_of(
                        seq![
                            ("weeks"@, ImportView::Integer(0)),
                            ("days"@, ImportView::Integer((diff / 86400) as u64)),
                            ("hours"@, ImportView::Integer((rem / 3600) as u64)),
                            ("minutes"@, ImportView::Integer(((rem % 3600) / 60) as u64)),
                            ("seconds"@, ImportView::Integer((rem % 60) as u64)),
                        ],
                    ),
                ),
            )
        },
        _ => None,
    }
}

fn total_seconds(d: PlainDate, t: PlainTime) -> (r: i64)
    ensures
        r == seconds_of(d, t),
{
    proof {
        lemma_days_bound(d.year as int, d.month as int, d.day as int);
    }
    let days = days_from_civil(d.year as i64, d.month as u64, d.day as u64);
    days * 86400 + t.hour as i64 * 3600 + t.minute as i64 * 60 + t.second as i64
}

/// The duration between two endpoints that both have a time of day.
pub fn compute_duration_from_endpoints(start: PlainDtod, end: PlainDtod) -> (r: Option<ImportValue>)
    ensures
        match r {
            Some(v) => endpoints_duration(start, end) == Some(v@),
            None => endpoints_duration(start, end) is None,
        },
{
    match (start, end) {
        (PlainDtod::DateTime(sd, st), PlainDtod::DateTime(ed, et)) => {
            let s = total_seconds(sd, st);
            let e = total_seconds(ed, et);
            let diff: u64 = if e > s {
                (e - s) as u64
            } else {
                0
            };
            let days = diff / 86400;
            let rem = diff % 86400;
            let hours = rem / 3600;
            let minutes = (rem % 3600) / 60;
            let seconds = rem % 60;
            let fields = vec![
                ("weeks", ImportValue::Integer(0)),
                ("days", ImportValue::Integer(days)),
                ("hours", ImportValue::Integer(hours)),
                ("minutes", ImportValue::Integer(minutes)),
                ("seconds", ImportValue::Integer(seconds)),
            ];
            let rec = make_import_record(fields);
            assert(crate::import_value::import_fields_view(fields@) =~= seq![
                ("weeks"@, ImportView::Integer(0)),
                ("days"@, ImportView::Integer(days)),
                ("hours"@, ImportView::Integer(hours)),
                ("minutes"@, ImportView::Integer(minutes)),
                ("seconds"@, ImportView::Integer(seconds)),
            ]);
            Some(ImportValue::Record(rec))
        },
        _ => None,
    }
}

// ── Property values ────────────────────────────────────────────

/// The status of an event or task.
#[derive(Debug, Clone, Copy, PartialEq, Eq)]
pub enum IcalStatus {
    Tentative,
    Confirmed,
    Cancelled,
    NeedsAction,
    Completed,
    InProcess,
    Draft,
    Final,
    /// A status this library does not know.
    Other,
}

pub open spec fn status_text(s: IcalStatus) -> Seq<char> {
    match s {
        IcalStatus::Tentative => "tentative"@,
        IcalStatus::Confirmed => "confirmed"@,
        IcalStatus::Cancelled => "cancelled"@,
        IcalStatus::NeedsAction => "needs-action"@,
        IcalStatus::Completed => "completed"@,
        IcalStatus::InProcess => "in-process"@,
        IcalStatus::Draft => "draft"@,
        IcalStatus::Final => "final"@,
        IcalStatus::Other => "unknown"@,
    }
}

/// A status as a lowercase string.
pub fn translate_status(s: IcalStatus) -> (r: ImportValue)
    ensures
        r@ == ImportView::String(status_text(s)),
{
    let t = match s {
        IcalStatus::Tentative => owned("tentative"),
        IcalStatus::Confirmed => owned("confirmed"),
        IcalStatus::Cancelled => owned("cancelled"),
        IcalStatus::NeedsAction => owned("needs-action"),
        IcalStatus::Completed => owned("completed"),
        IcalStatus::InProcess => owned("in-process"),
        IcalStatus::Draft => owned("draft"),
        IcalStatus::Final => owned("final"),
        IcalStatus::Other => owned("unknown"),
    };
    ImportValue::String(t)
}

/// An iCalendar priority: 0 (undefined), then A1 (highest) to C3 (lowest).
#[derive(Debug, Clone, Copy, PartialEq, Eq)]
pub enum IcalPriority {
    Zero,
    A1,
    A2,
    A3,
    B1,
    B2,
    B3,
    C1,
    C2,
    C3,
}

pub open spec fn priority_number(p: IcalPriority) -> u64 {
    match p {
        IcalPriority::Zero => 0,
        IcalPriority::A1 => 1,
        IcalPriority::A2 => 2,
        IcalPriority::A3 => 3,
        IcalPriority::B1 => 4,
        IcalPriority::B2 => 5,
        IcalPriority::B3 => 6,
        IcalPriority::C1 => 7,
        IcalPriority::C2 => 8,
        IcalPriority::C3 => 9,
    }
}

/// A priority as its number, 0 to 9.
pub fn priority_to_u64(p: IcalPriority) -> (r: u64)
    ensures
        r == priority_number(p),
{
    match p {
        IcalPriority::Zero => 0,
        IcalPriority::A1 => 1,
        IcalPriority::A2 => 2,
        IcalPriority::A3 => 3,
        IcalPriority::B1 => 4,
        IcalPriority::B2 => 5,
        IcalPriority::B3 => 6,
        IcalPriority::C1 => 7,
        IcalPriority::C2 => 8,
        IcalPriority::C3 => 9,
    }
}

/// An access classification.
#[derive(Debug, Clone, PartialEq, Eq)]
pub enum IcalClass {
    Public,
    Private,
    Confidential,
    /// A known classification other than these.
    OtherKnown,
    /// A classification outside the standard, as written.
    Unknown(String),
}

/// The lowercase form of a string, as `str::to_lowercase` gives it.
pub uninterp spec fn lowercase(s: Seq<char>) -> Seq<char>;

/// Calls `str::to_lowercase`, which maps each character to its Unicode
/// lowercase form; the result depends on the string alone.
#[verifier::external_body]
pub(crate) fn to_lowercase(s: &str) -> (r: String)
    ensures
        r@ == lowercase(s@),
{
    s.to_lowercase()
}

pub open spec fn class_text(c: IcalClass) -> Seq<char> {
    match c {
        IcalClass::Public => "public"@,
        IcalClass::Private => "private"@,
        IcalClass::Confidential => "confidential"@,
        IcalClass::OtherKnown => "unknown"@,
        IcalClass::Unknown(s) => lowercase(s@),
    }
}

/// A classification as a lowercase string.
pub fn translate_class(c: &IcalClass) -> (r: ImportValue)
    ensures
        r@ == ImportView::String(class_text(*c)),
{
    let t = match c {
        IcalClass::Public => owned("public"),
        IcalClass::Private => owned("private"),
        IcalClass::Confidential => owned("confidential"),
        IcalClass::OtherKnown => owned("unknown"),
        IcalClass::Unknown(s) => to_lowercase(s.as_str()),
    };
    ImportValue::String(t)
}

/// Whether an event blocks time.
#[derive(Debug, Clone, Copy, PartialEq, Eq)]
pub enum IcalTransp {
    Opaque,
    Transparent,
    Other,
}

pub open spec fn transp_text(t: IcalTransp) -> Seq<char> {
    match t {
        IcalTransp::Transparent => "transparent"@,
        _ => "opaque"@,
    }
}

/// A transparency as a lowercase string; anything but transparent is opaque.
pub fn translate_transp(t: IcalTransp) -> (r: ImportValue)
    ensures
        r@ == ImportView::String(transp_text(t)),
{
    match t {
        IcalTransp::Transparent => ImportValue::String(owned("transparent")),
        _ => ImportValue::String(owned("opaque")),
    }
}

/// A geographic position as the texts of its latitude and longitude.
pub open spec fn geo_value(lat: Seq<char>, lon: Seq<char>) -> ImportView {
    ImportView::Record(
        import_record_of(
            seq![("latitude"@, ImportView::String(lat)), ("longitude"@, ImportView::String(lon))],
        ),
    )
}

pub fn translate_geo(lat: &String, lon: &String) -> (r: ImportValue)
    ensures
        r@ == geo_value(lat@, lon@),
{
    let fields = vec![
        ("latitude", ImportValue::String(lat.clone())),
        ("longitude", ImportValue::String(lon.clone())),
    ];
    let rec = make_import_record(fields);
    assert(crate::import_value::import_fields_view(fields@) =~= seq![
        ("latitude"@, ImportView::String(lat@)),
        ("longitude"@, ImportView::String(lon@)),
    ]);
    ImportValue::Record(rec)
}

/// An attachment: a URI or inline bytes.
#[derive(Debug, Clone, PartialEq, Eq)]
pub enum PlainAttachment {
    Uri(String),
    Binary(Vec<u8>),
}

/// A URI as its text; inline bytes as `{ encoding: "base64", data }`.
pub open spec fn attachment_value(a: PlainAttachment) -> ImportView {
    match a {
        PlainAttachment::Uri(u) => ImportView::String(u@),
        PlainAttachment::Binary(b) => ImportView::Record(
            import_record_of(
                seq![
                    ("encoding"@, ImportView::String("base64"@)),
                    ("data"@, ImportView::String(base64(b@))),
                ],
            ),
        ),
    }
}

pub fn translate_attachment(a: &PlainAttachment) -> (r: ImportValue)
    ensures
        r@ == attachment_value(*a),
{
    match a {
        PlainAttachment::Uri(u) => ImportValue::String(u.clone()),
        PlainAttachment::Binary(b) => {
            let fields = vec![
                ("encoding", ImportValue::String(owned("base64"))),
                ("data", ImportValue::String(base64_encode(b.as_slice()))),
            ];
            let rec = make_import_record(fields);
            assert(crate::import_value::import_fields_view(fields@) =~= seq![
                ("encoding"@, ImportView::String("base64"@)),
                ("data"@, ImportView::String(base64(b@))),
            ]);
            ImportValue::Record(rec)
        },
    }
}

/// A request status: class, major and optional minor number, description.
#[derive(Debug, Clone, PartialEq, Eq)]
pub struct PlainRequestStatus {
    pub class: u8,
    pub major: u8,
    pub minor: Option<u8>,
    pub description: String,
}

/// `class.major.minor;description`, or `class.major;description`.
pub open spec fn request_status_text(rs: PlainRequestStatus) -> Seq<char> {
    spec_nat_to_dec(rs.class as nat) + "."@ + spec_nat_to_dec(rs.major as nat) + match rs.minor {
        Some(m) => "."@ + spec_nat_to_dec(m as nat),
        None => Seq::empty(),
    } + ";"@ + rs.description@
}

pub fn translate_request_status(rs: &PlainRequestStatus) -> (r: ImportValue)
    ensures
        r@ == ImportView::String(request_status_text(*rs)),
{
    let mut m = u64_to_dec(rs.class as u64);
    push_str(&mut m, ".");
    push_chars(&mut m, &u64_to_dec(rs.major as u64));
    match rs.minor {
        Some(minor) => {
            push_str(&mut m, ".");
            push_chars(&mut m, &u64_to_dec(minor as u64));
        },
        None => {},
    }
    push_str(&mut m, ";");
    push_str(&mut m, rs.description.as_str());
    assert(m@ =~= request_status_text(*rs));
    ImportValue::String(from_chars(m.as_slice()))
}

/// A day of the week.
#[derive(Debug, Clone, Copy, PartialEq, Eq)]
pub enum IcalWeekday {
    Monday,
    Tuesday,
    Wednesday,
    Thursday,
    Friday,
    Saturday,
    Sunday,
}

pub open spec fn weekday_text(w: IcalWeekday) -> Seq<char> {
    match w {
        IcalWeekday::Monday => "monday"@,
        IcalWeekday::Tuesday => "tuesday"@,
        IcalWeekday::Wednesday => "wednesday"@,
        IcalWeekday::Thursday => "thursday"@,
        IcalWeekday::Friday => "friday"@,
        IcalWeekday::Saturday => "saturday"@,
        IcalWeekday::Sunday => "sunday"@,
    }
}

/// A weekday as its lowercase English name.
pub fn weekday_to_str(w: IcalWeekday) -> (r: String)
    ensures
        r@ == weekday_text(w),
{
    match w {
        IcalWeekday::Monday => owned("monday"),
        IcalWeekday::Tuesday => owned("tuesday"),
        IcalWeekday::Wednesday => owned("wednesday"),
        IcalWeekday::Thursday => owned("thursday"),
        IcalWeekday::Friday => owned("friday"),
        IcalWeekday::Saturday => owned("saturday"),
        IcalWeekday::Sunday => owned("sunday"),
    }
}

// ── Recurrence rules ───────────────────────────────────────────

#[derive(Debug, Clone, Copy, PartialEq, Eq)]
pub enum IcalFreq {
    Secondly,
    Minutely,
    Hourly,
    Daily,
    Weekly,
    Monthly,
    Yearly,
}

/// How a recurrence ends.
#[derive(Debug, Clone, Copy, PartialEq, Eq)]
pub enum PlainTermination {
    Count(u64),
    Until(PlainDtod),
}

/// A weekday, optionally the n-th (counted from the end when not positive).
#[derive(Debug, Clone, Copy, PartialEq, Eq)]
pub struct PlainWeekdayNum {
    pub weekday: IcalWeekday,
    pub ordinal: Option<(bool, u8)>,
}

/// A recurrence rule. Each set-valued BY rule is given by membership flags:
/// seconds 0..=60, minutes 0..=59, hours 0..=23, months 1..=12, month days
/// 1..=31 and week numbers 1..=53, counted from the start and from the end.
#[derive(Debug, Clone, PartialEq, Eq)]
pub struct PlainRRule {
    pub freq: IcalFreq,
    pub interval: Option<u64>,
    pub termination: Option<PlainTermination>,
    pub week_start: Option<IcalWeekday>,
    pub by_second: Option<[bool; 61]>,
    pub by_minute: Option<[bool; 60]>,
    pub by_hour: Option<[bool; 24]>,
    pub by_month: Option<[bool; 12]>,
    pub by_day: Option<Vec<PlainWeekdayNum>>,
    pub by_set_pos: Option<Vec<i16>>,
    pub by_month_day: Option<([bool; 31], [bool; 31])>,
    pub by_year_day: Option<Vec<i16>>,
    pub by_week_no: Option<([bool; 53], [bool; 53])>,
}

/// How a flagged number is written.
#[derive(Debug, Clone, Copy, PartialEq, Eq)]
pub enum NumKind {
    /// As an unsigned integer.
    Unsigned,
    /// As a signed integer.
    Positive,
    /// Negated, as a signed integer.
    Negative,
}

pub open spec fn num_value(n: int, k: NumKind) -> ImportView {
    match k {
        NumKind::Unsigned => ImportView::Integer(n as u64),
        NumKind::Positive => ImportView::SignedInteger(n as i64),
        NumKind::Negative => ImportView::SignedInteger((0 - n) as i64),
    }
}

/// The numbers `offset + i` for each flag `i` that is set, in order.
pub open spec fn flagged(flags: Seq<bool>, offset: int, k: NumKind) -> Seq<ImportView>
    decreases flags.len(),
{
    if flags.len() == 0 {
        seq![]
    } else {
        let p = flagged(flags.drop_last(), offset, k);
        if flags.last() {
            p.push(num_value(flags.len() - 1 + offset, k))
        } else {
            p
        }
    }
}

pub open spec fn values_view(v: Seq<ImportValue>) -> Seq<ImportView> {
    Seq::new(v.len(), |i: int| v[i]@)
}

fn flagged_items<const N: usize>(flags: &[bool; N], offset: u64, k: NumKind) -> (r: Vec<ImportValue>)
    requires
        N <= 64,
        offset <= 1,
    ensures
        values_view(r@) == flagged(flags@, offset as int, k),
{
    let mut out: Vec<ImportValue> = Vec::new();
    assert(flags@.take(0) =~= Seq::<bool>::empty());
    assert(values_view(out@) =~= Seq::<ImportView>::empty());
    for i in 0..N
        invariant
            N <= 64,
            offset <= 1,
            flags@.len() == N,
            values_view(out@) == flagged(flags@.take(i as int), offset as int, k),
    {
        assert(flags@.take(i + 1).drop_last() =~= flags@.take(i as int));
        let ghost before = values_view(out@);
        if flags[i] {
            let n: u64 = i as u64 + offset;
            let v = match k {
                NumKind::Unsigned => ImportValue::Integer(n),
                NumKind::Positive => ImportValue::SignedInteger(n as i64),
                NumKind::Negative => ImportValue::SignedInteger(0 - n as i64),
            };
            out.push(v);
            assert(values_view(out@) =~= before.push(num_value(i + offset, k)));
        }
    }
    assert(flags@.take(N as int) =~= flags@);
    out
}

/// A list entry, present only when the list is not empty.
pub open spec fn list_entry(name: Seq<char>, items: Seq<ImportView>) -> Seq<(Seq<char>, ImportView)> {
    if items.len() > 0 {
        seq![(name, ImportView::List(items))]
    } else {
        seq![]
    }
}

/// An entry present only when there is a value.
pub open spec fn opt_entry(name: Seq<char>, v: Option<ImportView>) -> Seq<(Seq<char>, ImportView)> {
    match v {
        Some(x) => seq![(name, x)],
        None => seq![],
    }
}

pub open spec fn opt_view(v: Option<ImportValue>) -> Option<ImportView> {
    match v {
        Some(x) => Some(x@),
        None => None,
    }
}

pub open spec fn fields_view(v: Seq<(&str, ImportValue)>) -> Seq<(Seq<char>, ImportView)> {
    crate::import_value::import_fields_view(v)
}

pub(crate) fn push_entry(fields: &mut Vec<(&str, ImportValue)>, name: &'static str, v: Option<ImportValue>)
    ensures
        fields_view(final(fields)@) == fields_view(old(fields)@) + opt_entry(name@, opt_view(v)),
{
    let ghost before = fields_view(fields@);
    match v {
        Some(x) => {
            fields.push((name, x));
            assert(fields_view(fields@) =~= before + opt_entry(name@, opt_view(v)));
        },
        None => {
            assert(fields_view(fields@) =~= before + opt_entry(name@, opt_view(v)));
        },
    }
}

pub(crate) fn push_list(fields: &mut Vec<(&str, ImportValue)>, name: &'static str, items: Vec<ImportValue>)
    ensures
        fields_view(final(fields)@) == fields_view(old(fields)@) + list_entry(name@, values_view(items@)),
{
    let ghost before = fields_view(fields@);
    let ghost iv = values_view(items@);
    if items.len() > 0 {
        proof {
            crate::import_value::lemma_import_list_view(items);
        }
        let v = ImportValue::List(items);
        assert(v@->List_0 =~= iv);
        fields.push((name, v));
    }
    assert(fields_view(fields@) =~= before + list_entry(name@, iv));
}

pub open spec fn freq_text(f: IcalFreq) -> Seq<char> {
    match f {
        IcalFreq::Secondly => "secondly"@,
        IcalFreq::Minutely => "minutely"@,
        IcalFreq::Hourly => "hourly"@,
        IcalFreq::Daily => "daily"@,
        IcalFreq::Weekly => "weekly"@,
        IcalFreq::Monthly => "monthly"@,
        IcalFreq::Yearly => "yearly"@,
    }
}

fn freq_name(f: IcalFreq) -> (r: String)
    ensures
        r@ == freq_text(f),
{
    match f {
        IcalFreq::Secondly => owned("secondly"),
        IcalFreq::Minutely => owned("minutely"),
        IcalFreq::Hourly => owned("hourly"),
        IcalFreq::Daily => owned("daily"),
        IcalFreq::Weekly => owned("weekly"),
        IcalFreq::Monthly => owned("monthly"),
        IcalFreq::Yearly => owned("yearly"),
    }
}

pub open spec fn month_item(m: int) -> ImportView {
    ImportView::Record(
        import_record_of(seq![("month"@, ImportView::Integer(m as u64)), ("leap"@, ImportView::Bool(false))]),
    )
}

/// Each flagged month as `{ month, leap: false }`.
pub open spec fn month_items(flags: Seq<bool>) -> Seq<ImportView> {
    flagged(flags, 1, NumKind::Unsigned).map_values(|v: ImportView| month_item(v->Integer_0 as int))
}

pub open spec fn weekday_num_value(w: PlainWeekdayNum) -> ImportView {
    match w.ordinal {
        Some((positive, week)) => ImportView::Record(
            import_record_of(
                seq![
                    ("day"@, ImportView::String(weekday_text(w.weekday))),
                    ("ordinal"@, ImportView::SignedInteger(
                        if positive {
                            week as i64
                        } else {
                            (0 - week) as i64
                        },
                    )),
                ],
            ),
        ),
        None => ImportView::String(weekday_text(w.weekday)),
    }
}

pub open spec fn signed_items(v: Seq<i16>) -> Seq<ImportView> {
    v.map_values(|x: i16| ImportView::SignedInteger(x as i64))
}

/// The month-day or week-number items: those counted from the start, then
/// those counted from the end (negated).
pub open spec fn two_way_items(pos: Seq<bool>, neg: Seq<bool>) -> Seq<ImportView> {
    flagged(pos, 1, NumKind::Positive) + flagged(neg, 1, NumKind::Negative)
}

pub open spec fn termination_entry(t: Option<PlainTermination>) -> Seq<(Seq<char>, ImportView)> {
    match t {
        Some(PlainTermination::Count(c)) => seq![("count"@, ImportView::Integer(c))],
        Some(PlainTermination::Until(d)) => seq![("until"@, dtod_value(d))],
        None => seq![],
    }
}

pub open spec fn flag_list_entry<const N: usize>(name: Seq<char>, f: Option<[bool; N]>, offset: int) -> Seq<(Seq<char>, ImportView)> {
    match f {
        Some(flags) => list_entry(name, flagged(flags@, offset, NumKind::Unsigned)),
        None => seq![],
    }
}

pub open spec fn two_way_entry<const N: usize>(name: Seq<char>, f: Option<([bool; N], [bool; N])>) -> Seq<(Seq<char>, ImportView)> {
    match f {
        Some((pos, neg)) => list_entry(name, two_way_items(pos@, neg@)),
        None => seq![],
    }
}

/// Whether the frequency allows the BYMONTHDAY, BYYEARDAY and BYWEEKNO rules.
pub open spec fn allows_month_day(f: IcalFreq) -> bool {
    f != IcalFreq::Weekly
}

pub open spec fn allows_year_day(f: IcalFreq) -> bool {
    f == IcalFreq::Secondly || f == IcalFreq::Minutely || f == IcalFreq::Hourly || f == IcalFreq::Yearly
}

pub open spec fn allows_week_no(f: IcalFreq) -> bool {
    f == IcalFreq::Yearly
}

/// The entries of a recurrence rule record, in order: frequency, interval,
/// termination and week start, then the BY rules any frequency allows, then
/// those that the frequency allows.
pub open spec fn rrule_fields(r: PlainRRule) -> Seq<(Seq<char>, ImportView)> {
    rrule_head(r) + flag_list_entry("by_second"@, r.by_second, 0)
        + flag_list_entry("by_minute"@, r.by_minute, 0) + flag_list_entry("by_hour"@, r.by_hour, 0)
        + by_month_entry(r) + by_day_entry(r) + by_set_pos_entry(r) + by_month_day_entry(r)
        + by_year_day_entry(r) + by_week_no_entry(r)
}

pub open spec fn rrule_head(r: PlainRRule) -> Seq<(Seq<char>, ImportView)> {
    seq![("frequency"@, ImportView::String(freq_text(r.freq)))]
        + opt_entry("interval"@, match r.interval {
            Some(n) => Some(ImportView::Integer(n)),
            None => None,
        })
        + termination_entry(r.termination)
        + opt_entry("week_start"@, match r.week_start {
            Some(w) => Some(ImportView::String(weekday_text(w))),
            None => None,
        })
}

pub open spec fn by_month_entry(r: PlainRRule) -> Seq<(Seq<char>, ImportView)> {
    match r.by_month {
        Some(flags) => list_entry("by_month"@, month_items(flags@)),
        None => seq![],
    }
}

pub open spec fn by_day_entry(r: PlainRRule) -> Seq<(Seq<char>, ImportView)> {
    match r.by_day {
        Some(days) => list_entry("by_day"@, days@.map_values(|w: PlainWeekdayNum| weekday_num_value(w))),
        None => seq![],
    }
}

pub open spec fn by_set_pos_entry(r: PlainRRule) -> Seq<(Seq<char>, ImportView)> {
    match r.by_set_pos {
        Some(p) => list_entry("by_set_pos"@, signed_items(p@)),
        None => seq![],
    }
}

pub open spec fn by_year_day_entry(r: PlainRRule) -> Seq<(Seq<char>, ImportView)> {
    if allows_year_day(r.freq) {
        match r.by_year_day {
            Some(p) => list_entry("by_year_day"@, signed_items(p@)),
            None => seq![],
        }
    } else {
        seq![]
    }
}

pub open spec fn by_month_day_entry(r: PlainRRule) -> Seq<(Seq<char>, ImportView)> {
    if allows_month_day(r.freq) {
        two_way_entry("by_month_day"@, r.by_month_day)
    } else {
        seq![]
    }
}

pub open spec fn by_week_no_entry(r: PlainRRule) -> Seq<(Seq<char>, ImportView)> {
    if allows_week_no(r.freq) {
        two_way_entry("by_week_no"@, r.by_week_no)
    } else {
        seq![]
    }
}

/// A recurrence rule as a record.
pub open spec fn rrule_value(r: PlainRRule) -> ImportView {
    ImportView::Record(import_record_of(rrule_fields(r)))
}

fn month_values(flags: &[bool; 12]) -> (r: Vec<ImportValue>)
    ensures
        values_view(r@) == month_items(flags@),
{
    let nums = flagged_items(flags, 1, NumKind::Unsigned);
    let ghost nv = values_view(nums@);
    let mut out: Vec<ImportValue> = Vec::new();
    for i in 0..nums.len()
        invariant
            nv == values_view(nums@),
            nv == flagged(flags@, 1, NumKind::Unsigned),
            out@.len() == i,
            forall|j: int| 0 <= j < i ==> (#[trigger] out@[j])@ == month_item(nv[j]->Integer_0 as int),
    {
        let m: u64 = match &nums[i] {
            ImportValue::Integer(n) => *n,
            _ => 0,
        };
        proof {
            lemma_flagged_unsigned(flags@, 1, i as int);
        }
        let fields = vec![("month", ImportValue::Integer(m)), ("leap", ImportValue::Bool(false))];
        let rec = make_import_record(fields);
        assert(crate::import_value::import_fields_view(fields@) =~= seq![
            ("month"@, ImportView::Integer(m as u64)),
            ("leap"@, ImportView::Bool(false)),
        ]);
        out.push(ImportValue::Record(rec));
    }
    assert(values_view(out@) =~= month_items(flags@));
    out
}

/// Every unsigned flagged number is an unsigned integer.
proof fn lemma_flagged_unsigned(flags: Seq<bool>, offset: int, i: int)
    requires
        0 <= i < flagged(flags, offset, NumKind::Unsigned).len(),
    ensures
        flagged(flags, offset, NumKind::Unsigned)[i] is Integer,
    decreases flags.len(),
{
    if flags.len() > 0 {
        let p = flagged(flags.drop_last(), offset, NumKind::Unsigned);
        if i < p.len() {
            lemma_flagged_unsigned(flags.drop_last(), offset, i);
        }
    }
}

fn weekday_num_item(w: PlainWeekdayNum) -> (r: ImportValue)
    ensures
        r@ == weekday_num_value(w),
{
    match w.ordinal {
        Some((positive, week)) => {
            let ord: i64 = if positive {
                week as i64
            } else {
                0 - week as i64
            };
            let fields = vec![
                ("day", ImportValue::String(weekday_to_str(w.weekday))),
                ("ordinal", ImportValue::SignedInteger(ord)),
            ];
            let rec = make_import_record(fields);
            assert(crate::import_value::import_fields_view(fields@) =~= seq![
                ("day"@, ImportView::String(weekday_text(w.weekday))),
                ("ordinal"@, ImportView::SignedInteger(ord)),
            ]);
            ImportValue::Record(rec)
        },
        None => ImportValue::String(weekday_to_str(w.weekday)),
    }
}

fn weekday_num_values(days: &Vec<PlainWeekdayNum>) -> (r: Vec<ImportValue>)
    ensures
        values_view(r@) == days@.map_values(|w: PlainWeekdayNum| weekday_num_value(w)),
{
    let mut out: Vec<ImportValue> = Vec::new();
    for i in 0..days.len()
        invariant
            out@.len() == i,
            forall|j: int| 0 <= j < i ==> (#[trigger] out@[j])@ == weekday_num_value(days@[j]),
    {
        out.push(weekday_num_item(days[i]));
    }
    assert(values_view(out@) =~= days@.map_values(|w: PlainWeekdayNum| weekday_num_value(w)));
    out
}

fn signed_values(v: &Vec<i16>) -> (r: Vec<ImportValue>)
    ensures
        values_view(r@) == signed_items(v@),
{
    let mut out: Vec<ImportValue> = Vec::new();
    for i in 0..v.len()
        invariant
            out@.len() == i,
            forall|j: int| 0 <= j < i ==> (#[trigger] out@[j])@ == ImportView::SignedInteger(v@[j] as i64),
    {
        out.push(ImportValue::SignedInteger(v[i] as i64));
    }
    assert(values_view(out@) =~= signed_items(v@));
    out
}

fn two_way_values<const N: usize>(pos: &[bool; N], neg: &[bool; N]) -> (r: Vec<ImportValue>)
    requires
        N <= 64,
    ensures
        values_view(r@) == two_way_items(pos@, neg@),
{
    let mut a = flagged_items(pos, 1, NumKind::Positive);
    let mut b = flagged_items(neg, 1, NumKind::Negative);
    let ghost av = values_view(a@);
    let ghost bv = values_view(b@);
    a.append(&mut b);
    assert(values_view(a@) =~= av + bv);
    a
}

fn rrule_head_entries(r: &PlainRRule) -> (fields: Vec<(&'static str, ImportValue)>)
    ensures
        fields_view(fields@) == rrule_head(*r),
{
    let mut fields: Vec<(&str, ImportValue)> = Vec::new();
    fields.push(("frequency", ImportValue::String(freq_name(r.freq))));
    assert(fields_view(fields@) =~= seq![("frequency"@, ImportView::String(freq_text(r.freq)))]);
    push_entry(&mut fields, "interval", match r.interval {
        Some(n) => Some(ImportValue::Integer(n)),
        None => None,
    });
    let ghost before = fields_view(fields@);
    match r.termination {
        Some(PlainTermination::Count(c)) => fields.push(("count", ImportValue::Integer(c))),
        Some(PlainTermination::Until(d)) => fields.push(("until", translate_datetime_or_date(d))),
        None => {},
    }
    assert(fields_view(fields@) =~= before + termination_entry(r.termination));
    push_entry(&mut fields, "week_start", match r.week_start {
        Some(w) => Some(ImportValue::String(weekday_to_str(w))),
        None => None,
    });
    fields
}

fn push_flag_entry<const N: usize>(fields: &mut Vec<(&'static str, ImportValue)>, name: &'static str, f: &Option<[bool; N]>)
    requires
        N <= 64,
    ensures
        fields_view(final(fields)@) == fields_view(old(fields)@) + flag_list_entry(name@, *f, 0),
{
    let ghost start = fields_view(fields@);
    match f {
        Some(flags) => push_list(fields, name, flagged_items(flags, 0, NumKind::Unsigned)),
        None => {
            assert(fields_view(fields@) =~= start + flag_list_entry(name@, *f, 0));
        },
    }
}

fn push_by_month(fields: &mut Vec<(&'static str, ImportValue)>, r: &PlainRRule)
    ensures
        fields_view(final(fields)@) == fields_view(old(fields)@) + by_month_entry(*r),
{
    let ghost start = fields_view(fields@);
    match &r.by_month {
        Some(f) => push_list(fields, "by_month", month_values(f)),
        None => {
            assert(fields_view(fields@) =~= start + by_month_entry(*r));
        },
    }
}

fn push_by_day(fields: &mut Vec<(&'static str, ImportValue)>, r: &PlainRRule)
    ensures
        fields_view(final(fields)@) == fields_view(old(fields)@) + by_day_entry(*r),
{
    let ghost start = fields_view(fields@);
    match &r.by_day {
        Some(days) => push_list(fields, "by_day", weekday_num_values(days)),
        None => {
            assert(fields_view(fields@) =~= start + by_day_entry(*r));
        },
    }
}

fn push_by_set_pos(fields: &mut Vec<(&'static str, ImportValue)>, r: &PlainRRule)
    ensures
        fields_view(final(fields)@) == fields_view(old(fields)@) + by_set_pos_entry(*r),
{
    let ghost start = fields_view(fields@);
    match &r.by_set_pos {
        Some(p) => push_list(fields, "by_set_pos", signed_values(p)),
        None => {
            assert(fields_view(fields@) =~= start + by_set_pos_entry(*r));
        },
    }
}

fn push_by_month_day(fields: &mut Vec<(&'static str, ImportValue)>, r: &PlainRRule)
    ensures
        fields_view(final(fields)@) == fields_view(old(fields)@) + by_month_day_entry(*r),
{
    let ghost start = fields_view(fields@);
    if !matches!(r.freq, IcalFreq::Weekly) {
        match &r.by_month_day {
            Some((pos, neg)) => {
                push_list(fields, "by_month_day", two_way_values(pos, neg));
                return;
            },
            None => {},
        }
    }
    assert(fields_view(fields@) =~= start + by_month_day_entry(*r));
}

fn push_by_year_day(fields: &mut Vec<(&'static str, ImportValue)>, r: &PlainRRule)
    ensures
        fields_view(final(fields)@) == fields_view(old(fields)@) + by_year_day_entry(*r),
{
    let ghost start = fields_view(fields@);
    if matches!(r.freq, IcalFreq::Secondly | IcalFreq::Minutely | IcalFreq::Hourly | IcalFreq::Yearly) {
        match &r.by_year_day {
            Some(p) => {
                push_list(fields, "by_year_day", signed_values(p));
                return;
            },
            None => {},
        }
    }
    assert(fields_view(fields@) =~= start + by_year_day_entry(*r));
}

fn push_by_week_no(fields: &mut Vec<(&'static str, ImportValue)>, r: &PlainRRule)
    ensures
        fields_view(final(fields)@) == fields_view(old(fields)@) + by_week_no_entry(*r),
{
    let ghost start = fields_view(fields@);
    if matches!(r.freq, IcalFreq::Yearly) {
        match &r.by_week_no {
            Some((pos, neg)) => {
                push_list(fields, "by_week_no", two_way_values(pos, neg));
                return;
            },
            None => {},
        }
    }
    assert(fields_view(fields@) =~= start + by_week_no_entry(*r));
}

/// Translates a recurrence rule into a record.
pub fn translate_rrule(r: &PlainRRule) -> (v: ImportValue)
    ensures
        v@ == rrule_value(*r),
{
    let mut fields = rrule_head_entries(r);
    push_flag_entry(&mut fields, "by_second", &r.by_second);
    push_flag_entry(&mut fields, "by_minute", &r.by_minute);
    push_flag_entry(&mut fields, "by_hour", &r.by_hour);
    push_by_month(&mut fields, r);
    push_by_day(&mut fields, r);
    push_by_set_pos(&mut fields, r);
    push_by_month_day(&mut fields, r);
    push_by_year_day(&mut fields, r);
    push_by_week_no(&mut fields, r);
    ImportValue::Record(make_import_record(fields))
}

/// The total seconds of a duration that is not negative.
pub open spec fn duration_seconds(d: PlainDuration) -> Option<int> {
    if d.positive {
        Some(d.weeks * 604_800 + d.days * 86_400 + d.hours * 3600 + d.minutes * 60 + d.seconds)
    } else {
        None
    }
}

/// Converts a duration to total seconds; `None` for a negative one.
pub fn signed_duration_to_secs(d: PlainDuration) -> (r: Option<u64>)
    ensures
        match r {
            Some(n) => duration_seconds(d) == Some(n as int),
            None => duration_seconds(d) is None,
        },
{
    if !d.positive {
        return None;
    }
    Some(
        d.weeks as u64 * 604_800 + d.days as u64 * 86_400 + d.hours as u64 * 3600 + d.minutes as u64
            * 60 + d.seconds as u64,
    )
}

// ── Names that read back ───────────────────────────────────────

/// The frequency name an imported rule is given reads back, in export, as
/// the same frequency: distinct frequencies get distinct names, each the
/// one the exporter knows that frequency by.
pub proof fn lemma_freq_text_reads_back(f: IcalFreq)
    ensures
        crate::export_values::freq_of(freq_text(f)) == Some(f),
{
    crate::export_values::lemma_freq_names_distinct();
}

/// The weekday name an imported rule is given reads back, in export, as
/// the same weekday.
pub proof fn lemma_weekday_text_reads_back(w: IcalWeekday)
    ensures
        crate::export_values::weekday_of(weekday_text(w)) == Some(w),
{
    crate::export_values::lemma_weekday_names_distinct();
}
} // verus!
